//! The error channel: a single-slot store for the last failure's text.
//!
//! Every render call clears the slot on entry and fills it on failure; a
//! separate accessor reads it without consuming it. The stored copy is
//! sanitized: each NUL character is escaped, so the text stays usable as
//! a terminated C string. The channel itself carries no lock; the caller
//! that shares one channel between threads guards it with its own mutual
//! exclusion.

use vstd::prelude::*;
use vstd::string::StringExecFns;
use vstd::string::StrSliceExecFns;

verus! {

/// What one character contributes to the sanitized copy: NUL is escaped
/// as a backslash followed by a zero digit, everything else is kept.
pub open spec fn sanitize_char(c: char) -> Seq<char> {
    if c == '\0' {
        seq!['\\', '0']
    } else {
        seq![c]
    }
}

/// The sanitized copy of a message: each character's contribution, in order.
pub open spec fn spec_sanitize(s: Seq<char>) -> Seq<char>
    decreases s.len(),
{
    if s.len() == 0 {
        Seq::empty()
    } else {
        spec_sanitize(s.drop_last()) + sanitize_char(s.last())
    }
}

/// Law: a sanitized message holds no NUL character, so it always forms a
/// valid terminated C string.
pub proof fn lemma_sanitize_no_nul(s: Seq<char>)
    ensures
        forall|i: int| 0 <= i < spec_sanitize(s).len() ==> spec_sanitize(s)[i] != '\0',
    decreases s.len(),
{
    if s.len() > 0 {
        lemma_sanitize_no_nul(s.drop_last());
        let t = spec_sanitize(s.drop_last());
        let c = sanitize_char(s.last());
        assert forall|i: int| 0 <= i < spec_sanitize(s).len() implies spec_sanitize(s)[i]
            != '\0' by {
            if i < t.len() {
                assert(spec_sanitize(s)[i] == t[i]);
            } else {
                assert(spec_sanitize(s)[i] == c[i - t.len()]);
            }
        }
    }
}

/// Law: a message that holds no NUL character is stored verbatim.
pub proof fn lemma_sanitize_clean_identity(s: Seq<char>)
    requires
        forall|i: int| 0 <= i < s.len() ==> s[i] != '\0',
    ensures
        spec_sanitize(s) == s,
    decreases s.len(),
{
    if s.len() > 0 {
        assert(forall|i: int| 0 <= i < s.drop_last().len() ==> s.drop_last()[i] == s[i]);
        lemma_sanitize_clean_identity(s.drop_last());
        assert(spec_sanitize(s) =~= s);
    } else {
        assert(spec_sanitize(s) =~= s);
    }
}

/// Law: sanitizing is idempotent; storing an already sanitized message
/// changes nothing.
pub proof fn lemma_sanitize_idempotent(s: Seq<char>)
    ensures
        spec_sanitize(spec_sanitize(s)) == spec_sanitize(s),
{
    lemma_sanitize_no_nul(s);
    lemma_sanitize_clean_identity(spec_sanitize(s));
}

/// Builds the sanitized copy of a message.
pub fn sanitize(msg: &str) -> (r: String)
    ensures
        r@ == spec_sanitize(msg@),
{
    let n = msg.unicode_len();
    let mut out = String::new();
    let mut i: usize = 0;
    while i < n
        invariant
            n == msg@.len(),
            i <= n,
            out@ == spec_sanitize(msg@.take(i as int)),
        decreases n - i,
    {
        let c = msg.get_char(i);
        if c == '\0' {
            proof {
                reveal_strlit("\\0");
            }
            out.append("\\0");
        } else {
            let piece = msg.substring_char(i, i + 1);
            proof {
                assert(piece@ =~= seq![msg@[i as int]]);
            }
            out.append(piece);
        }
        proof {
            assert(msg@.take(i + 1 as int).drop_last() =~= msg@.take(i as int));
            assert(msg@.take(i + 1 as int).last() == msg@[i as int]);
        }
        i = i + 1;
    }
    proof {
        assert(msg@.take(n as int) =~= msg@);
    }
    out
}

/// The single-slot error store. Its view is the stored text, if any.
pub struct ErrorChannel {
    slot: Option<String>,
}

impl View for ErrorChannel {
    type V = Option<Seq<char>>;

    closed spec fn view(&self) -> Option<Seq<char>> {
        match self.slot {
            Some(s) => Some(s@),
            None => None,
        }
    }
}

impl ErrorChannel {
    /// A channel with nothing stored.
    pub fn new() -> (r: ErrorChannel)
        ensures
            r@ is None,
    {
        ErrorChannel { slot: None }
    }

    /// Law: clearing empties the slot whatever it held before; every
    /// render call starts by doing this, so no stale text survives into
    /// the next call's outcome.
    pub fn clear(&mut self)
        ensures
            final(self)@ is None,
    {
        self.slot = None;
    }

    /// Stores the sanitized copy of a message, replacing any prior content.
    pub fn set(&mut self, msg: &str)
        ensures
            final(self)@ == Some(spec_sanitize(msg@)),
    {
        let clean = sanitize(msg);
        self.slot = Some(clean);
    }

    /// Reads the stored message, if any, without consuming it.
    pub fn peek(&self) -> (r: Option<&String>)
        ensures
            match r {
                Some(s) => self@ == Some(s@),
                None => self@ is None,
            },
    {
        self.slot.as_ref()
    }
}

} // verus!
