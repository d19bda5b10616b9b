//! Keyboard injection: mapping transcript text to keysym taps, and the
//! serial injection queue's decisions.
//!
//! The queue itself is a channel drained by one task in the surrounding
//! process; items are processed one at a time in submission order, so two
//! injections never interleave.  For each item the task announces
//! `TranscriptReady`, types the taps this module computes, and feeds the
//! outcome back through `injection_follow_up`.

use vstd::prelude::*;

use crate::state::Event;
use crate::text::string_to_chars;

verus! {

/// Keysym for the Return key.
pub const KEYSYM_RETURN: u32 = 0xff0d;

/// Keysym for the Tab key.
pub const KEYSYM_TAB: u32 = 0xff09;

/// Offset of the direct Unicode keysym range.
pub const KEYSYM_UNICODE_OFFSET: u32 = 0x01000000;

/// Capacity of the injection queue; a full queue back-pressures callers.
pub const INJECTION_QUEUE_CAPACITY: usize = 32;

/// The keysym a character is typed as, or zero for characters that emit
/// none.  Newline maps to Return and tab to Tab; a carriage return is
/// dropped; printable Latin-1 characters are their own keysym; every
/// other code point at or above `0x100` uses the direct Unicode range;
/// what remains (other control characters) is dropped.
pub open spec fn keysym_spec(c: char) -> u32 {
    if c == '\n' {
        KEYSYM_RETURN
    } else if c == '\t' {
        KEYSYM_TAB
    } else if c == '\r' {
        0
    } else if (0x20 <= c as u32 && c as u32 <= 0x7E) || (0xA0 <= c as u32 && c as u32 <= 0xFF) {
        c as u32
    } else if c as u32 >= 0x100 {
        (KEYSYM_UNICODE_OFFSET + c as u32) as u32
    } else {
        0
    }
}

/// Map one character to its keysym, zero when it emits none.
pub fn char_to_keysym(c: char) -> (r: u32)
    ensures
        r == keysym_spec(c),
{
    if c == '\n' {
        KEYSYM_RETURN
    } else if c == '\t' {
        KEYSYM_TAB
    } else if c == '\r' {
        0
    } else {
        let u = c as u32;
        if (0x20 <= u && u <= 0x7E) || (0xA0 <= u && u <= 0xFF) {
            u
        } else if u >= 0x100 {
            proof {
                vstd::utf8::char_is_scalar(c);
            }
            KEYSYM_UNICODE_OFFSET + u
        } else {
            0
        }
    }
}

/// The keysyms a text is typed as, in order, characters without a keysym
/// skipped.
pub open spec fn taps_of(s: Seq<char>) -> Seq<u32>
    decreases s.len(),
{
    if s.len() == 0 {
        Seq::empty()
    } else if keysym_spec(s[0]) == 0 {
        taps_of(s.drop_first())
    } else {
        seq![keysym_spec(s[0])] + taps_of(s.drop_first())
    }
}

/// Taps distribute over appending one character.
pub proof fn lemma_taps_snoc(s: Seq<char>, c: char)
    ensures
        keysym_spec(c) == 0 ==> taps_of(s.push(c)) == taps_of(s),
        keysym_spec(c) != 0 ==> taps_of(s.push(c)) == taps_of(s).push(keysym_spec(c)),
    decreases s.len(),
{
    if s.len() == 0 {
        assert(s.push(c)[0] == c);
        assert(s.push(c).drop_first() =~= Seq::<char>::empty());
        assert(taps_of(Seq::<char>::empty()) == Seq::<u32>::empty());
        if keysym_spec(c) != 0 {
            assert(taps_of(s.push(c)) == seq![keysym_spec(c)] + Seq::<u32>::empty());
            assert(seq![keysym_spec(c)] + Seq::<u32>::empty() =~= taps_of(s).push(
                keysym_spec(c),
            ));
        } else {
            assert(taps_of(s.push(c)) =~= taps_of(s));
        }
    } else {
        assert(s.push(c).drop_first() =~= s.drop_first().push(c));
        lemma_taps_snoc(s.drop_first(), c);
        if keysym_spec(s[0]) == 0 {
            assert(s.push(c)[0] == s[0]);
        } else {
            if keysym_spec(c) != 0 {
                assert(taps_of(s.push(c)) =~= taps_of(s).push(keysym_spec(c)));
            } else {
                assert(taps_of(s.push(c)) =~= taps_of(s));
            }
        }
    }
}

/// Compute the tap sequence for a text.
pub fn keysym_taps(text: &str) -> (r: Vec<u32>)
    ensures
        r@ == taps_of(text@),
{
    let chars = string_to_chars(text);
    let mut out: Vec<u32> = Vec::new();
    let mut i: usize = 0;
    proof {
        assert(taps_of(text@.take(0)) =~= Seq::<u32>::empty());
    }
    while i < chars.len()
        invariant
            i <= chars@.len(),
            chars@ == text@,
            out@ == taps_of(text@.take(i as int)),
        decreases chars@.len() - i,
    {
        let k = char_to_keysym(chars[i]);
        if k != 0 {
            out.push(k);
        }
        proof {
            assert(text@.take(i + 1 as int) =~= text@.take(i as int).push(text@[i as int]));
            lemma_taps_snoc(text@.take(i as int), text@[i as int]);
        }
        i = i + 1;
    }
    proof {
        assert(text@.take(text@.len() as int) =~= text@);
    }
    out
}

/// A carriage return in the transcript emits no keysym: the taps are
/// exactly those of the text without it.
pub proof fn lemma_carriage_return_no_keysym(prefix: Seq<char>, suffix: Seq<char>)
    ensures
        taps_of(prefix + seq!['\r'] + suffix) == taps_of(prefix + suffix),
    decreases prefix.len(),
{
    if prefix.len() == 0 {
        assert(prefix + seq!['\r'] + suffix =~= seq!['\r'] + suffix);
        assert((seq!['\r'] + suffix)[0] == '\r');
        assert(keysym_spec('\r') == 0);
        assert((seq!['\r'] + suffix).drop_first() =~= suffix);
        assert(prefix + suffix =~= suffix);
    } else {
        assert((prefix + seq!['\r'] + suffix)[0] == prefix[0]);
        assert((prefix + suffix)[0] == prefix[0]);
        assert((prefix + seq!['\r'] + suffix).drop_first() =~= prefix.drop_first() + seq!['\r']
            + suffix);
        assert((prefix + suffix).drop_first() =~= prefix.drop_first() + suffix);
        lemma_carriage_return_no_keysym(prefix.drop_first(), suffix);
    }
}

/// How one injection attempt ended.
pub enum InjectionOutcome {
    /// Every tap was delivered.
    Done,
    /// The portal session is unusable.
    PortalError(String),
    /// A local failure; the session itself is fine.
    LocalError(String),
}

/// What the queue task does after one attempt: the machine event it
/// emits, the text it stashes for later, and the error it records.
pub struct InjectorFollowUp {
    pub event: Event,
    pub stash: Option<String>,
    pub record_error: Option<String>,
}

/// Decide the follow-up of one injection attempt.  Success and local
/// failures complete the cycle with `InjectionDone` (a local failure is
/// recorded but not fatal); a portal failure stashes the full text as the
/// pending-injection holdover and raises `Error` so the supervisor
/// rebuilds the sessions.
pub fn injection_follow_up(outcome: InjectionOutcome, text: &String) -> (r: InjectorFollowUp)
    ensures
        outcome is Done ==> r == (InjectorFollowUp {
            event: Event::InjectionDone,
            stash: None,
            record_error: None,
        }),
        outcome matches InjectionOutcome::PortalError(e) ==> r.event == Event::Error && (r.stash
            matches Some(t) ==> t@ == text@) && r.stash is Some && r.record_error is None,
        outcome matches InjectionOutcome::LocalError(e) ==> r == (InjectorFollowUp {
            event: Event::InjectionDone,
            stash: None,
            record_error: Some(e),
        }),
{
    match outcome {
        InjectionOutcome::Done => InjectorFollowUp {
            event: Event::InjectionDone,
            stash: None,
            record_error: None,
        },
        InjectionOutcome::PortalError(_) => InjectorFollowUp {
            event: Event::Error,
            stash: Some(text.clone()),
            record_error: None,
        },
        InjectionOutcome::LocalError(e) => InjectorFollowUp {
            event: Event::InjectionDone,
            stash: None,
            record_error: Some(e),
        },
    }
}

} // verus!
