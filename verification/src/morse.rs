//! The International Morse Code alphabet and the encoder that plays it.
//!
//! [`resolve`] maps one input byte to its dot/dash pattern, to the word
//! gap (for a space), or to nothing (for an unsupported byte).
//! [`MorseCode`] walks an input buffer one character at a time and drives
//! a [`MorsePlayer`] with the standard Morse timing: a dot sounds for one
//! unit, a dash for three, elements of one character are separated by one
//! silent unit, and a space becomes seven silent units.

use vstd::prelude::*;
use vstd::slice::{slice_index_get, slice_subrange};
use crate::player::{Event, MorsePlayer};

verus! {

/// The unit of time a dot should be on for, in milliseconds.
pub const UNIT: u32 = 200;
/// The PWM duty the host sets for the tone before playback begins.
pub const TONE: u16 = 10000;

/// How long a dot sounds.
pub const DOT_MS: u32 = UNIT;
/// How long a dash sounds: three units.
pub const DASH_MS: u32 = 3 * UNIT;
/// The silence between two elements of the same character: one unit.
pub const ELEMENT_GAP_MS: u32 = UNIT;
/// The silence a space character produces: seven units.
pub const WORD_GAP_MS: u32 = 7 * UNIT;

/// One element of a Morse signal: a short or a long tone.
#[derive(PartialEq, Eq, Structural, Copy, Clone, Debug)]
pub enum Element {
    Dot,
    Dash,
}

/// Whether `b` is an ASCII letter, of either case.
pub open spec fn is_ascii_letter(b: u8) -> bool {
    (65 <= b && b <= 90) || (97 <= b && b <= 122)
}

/// Whether `b` is an ASCII digit.
pub open spec fn is_ascii_digit(b: u8) -> bool {
    48 <= b && b <= 57
}

/// Whether `b` is the ASCII space character.
pub open spec fn is_space(b: u8) -> bool {
    b == 32
}

/// Whether `b` is in the supported input set: letter, digit or space.
pub open spec fn is_resolvable(b: u8) -> bool {
    is_ascii_letter(b) || is_ascii_digit(b) || is_space(b)
}

/// `b` with an ASCII lowercase letter folded to its uppercase form.
pub open spec fn fold_upper(b: u8) -> u8 {
    if 97 <= b && b <= 122 {
        (b - 32) as u8
    } else {
        b
    }
}

/// The standard International Morse Code pattern of an uppercase letter
/// or a digit.
pub open spec fn code_of(b: u8) -> Seq<Element>
    recommends
        is_ascii_digit(b) || (65 <= b && b <= 90),
{
    let dot = Element::Dot;
    let dash = Element::Dash;
    if b == 65 { seq![dot, dash] }                      // A
    else if b == 66 { seq![dash, dot, dot, dot] }       // B
    else if b == 67 { seq![dash, dot, dash, dot] }      // C
    else if b == 68 { seq![dash, dot, dot] }            // D
    else if b == 69 { seq![dot] }                       // E
    else if b == 70 { seq![dot, dot, dash, dot] }       // F
    else if b == 71 { seq![dash, dash, dot] }           // G
    else if b == 72 { seq![dot, dot, dot, dot] }        // H
    else if b == 73 { seq![dot, dot] }                  // I
    else if b == 74 { seq![dot, dash, dash, dash] }     // J
    else if b == 75 { seq![dash, dot, dash] }           // K
    else if b == 76 { seq![dot, dash, dot, dot] }       // L
    else if b == 77 { seq![dash, dash] }                // M
    else if b == 78 { seq![dash, dot] }                 // N
    else if b == 79 { seq![dash, dash, dash] }          // O
    else if b == 80 { seq![dot, dash, dash, dot] }      // P
    else if b == 81 { seq![dash, dash, dot, dash] }     // Q
    else if b == 82 { seq![dot, dash, dot] }            // R
    else if b == 83 { seq![dot, dot, dot] }             // S
    else if b == 84 { seq![dash] }                      // T
    else if b == 85 { seq![dot, dot, dash] }            // U
    else if b == 86 { seq![dot, dot, dot, dash] }       // V
    else if b == 87 { seq![dot, dash, dash] }           // W
    else if b == 88 { seq![dash, dot, dot, dash] }      // X
    else if b == 89 { seq![dash, dot, dash, dash] }     // Y
    else if b == 90 { seq![dash, dash, dot, dot] }      // Z
    else if b == 48 { seq![dash, dash, dash, dash, dash] } // 0
    else if b == 49 { seq![dot, dash, dash, dash, dash] }  // 1
    else if b == 50 { seq![dot, dot, dash, dash, dash] }   // 2
    else if b == 51 { seq![dot, dot, dot, dash, dash] }    // 3
    else if b == 52 { seq![dot, dot, dot, dot, dash] }     // 4
    else if b == 53 { seq![dot, dot, dot, dot, dot] }      // 5
    else if b == 54 { seq![dash, dot, dot, dot, dot] }     // 6
    else if b == 55 { seq![dash, dash, dot, dot, dot] }    // 7
    else if b == 56 { seq![dash, dash, dash, dot, dot] }   // 8
    else { seq![dash, dash, dash, dash, dot] }             // 9
}

/// What one byte of input resolves to.
#[derive(PartialEq, Eq, Debug)]
pub enum Resolution {
    /// A supported character with its dot/dash pattern.
    Signals(Vec<Element>),
    /// A space: pure silence of seven units, no tone activity.
    Silence,
    /// An unsupported byte: no pattern and no silence.
    Unresolvable,
}

/// The mathematical value of a [`Resolution`].
pub enum ResolutionModel {
    Signals(Seq<Element>),
    Silence,
    Unresolvable,
}

impl View for Resolution {
    type V = ResolutionModel;

    open spec fn view(&self) -> ResolutionModel {
        match self {
            Resolution::Signals(v) => ResolutionModel::Signals(v@),
            Resolution::Silence => ResolutionModel::Silence,
            Resolution::Unresolvable => ResolutionModel::Unresolvable,
        }
    }
}

/// What [`resolve`] yields on each byte: the silence action on a space,
/// the standard pattern of the case-folded byte on a letter or digit, and
/// "unresolvable" on everything else.
pub open spec fn resolution_spec(b: u8) -> ResolutionModel {
    if is_space(b) {
        ResolutionModel::Silence
    } else if is_ascii_letter(b) || is_ascii_digit(b) {
        ResolutionModel::Signals(code_of(fold_upper(b)))
    } else {
        ResolutionModel::Unresolvable
    }
}

/// Look one byte up in the Morse alphabet.
///
/// Letters are folded to uppercase first; a space yields the silence
/// action; any byte outside `[A-Za-z0-9 ]` is unresolvable. The result is
/// a pure function of the byte.
pub fn resolve(b: u8) -> (r: Resolution)
    ensures
        r@ == resolution_spec(b),
{
    if b == 32 {
        Resolution::Silence
    } else {
        let u: u8 = if 97 <= b && b <= 122 { b - 32 } else { b };
        if (65 <= u && u <= 90) || (48 <= u && u <= 57) {
            Resolution::Signals(signals_of_folded(u))
        } else {
            Resolution::Unresolvable
        }
    }
}

/// Build the pattern vector of an uppercase letter or digit.
fn signals_of_folded(b: u8) -> (r: Vec<Element>)
    requires
        is_ascii_digit(b) || (65 <= b && b <= 90),
    ensures
        r@ == code_of(b),
{
    let mut v: Vec<Element> = Vec::new();
    if b == 65 { v.push(Element::Dot); v.push(Element::Dash); }
    else if b == 66 { v.push(Element::Dash); v.push(Element::Dot); v.push(Element::Dot); v.push(Element::Dot); }
    else if b == 67 { v.push(Element::Dash); v.push(Element::Dot); v.push(Element::Dash); v.push(Element::Dot); }
    else if b == 68 { v.push(Element::Dash); v.push(Element::Dot); v.push(Element::Dot); }
    else if b == 69 { v.push(Element::Dot); }
    else if b == 70 { v.push(Element::Dot); v.push(Element::Dot); v.push(Element::Dash); v.push(Element::Dot); }
    else if b == 71 { v.push(Element::Dash); v.push(Element::Dash); v.push(Element::Dot); }
    else if b == 72 { v.push(Element::Dot); v.push(Element::Dot); v.push(Element::Dot); v.push(Element::Dot); }
    else if b == 73 { v.push(Element::Dot); v.push(Element::Dot); }
    else if b == 74 { v.push(Element::Dot); v.push(Element::Dash); v.push(Element::Dash); v.push(Element::Dash); }
    else if b == 75 { v.push(Element::Dash); v.push(Element::Dot); v.push(Element::Dash); }
    else if b == 76 { v.push(Element::Dot); v.push(Element::Dash); v.push(Element::Dot); v.push(Element::Dot); }
    else if b == 77 { v.push(Element::Dash); v.push(Element::Dash); }
    else if b == 78 { v.push(Element::Dash); v.push(Element::Dot); }
    else if b == 79 { v.push(Element::Dash); v.push(Element::Dash); v.push(Element::Dash); }
    else if b == 80 { v.push(Element::Dot); v.push(Element::Dash); v.push(Element::Dash); v.push(Element::Dot); }
    else if b == 81 { v.push(Element::Dash); v.push(Element::Dash); v.push(Element::Dot); v.push(Element::Dash); }
    else if b == 82 { v.push(Element::Dot); v.push(Element::Dash); v.push(Element::Dot); }
    else if b == 83 { v.push(Element::Dot); v.push(Element::Dot); v.push(Element::Dot); }
    else if b == 84 { v.push(Element::Dash); }
    else if b == 85 { v.push(Element::Dot); v.push(Element::Dot); v.push(Element::Dash); }
    else if b == 86 { v.push(Element::Dot); v.push(Element::Dot); v.push(Element::Dot); v.push(Element::Dash); }
    else if b == 87 { v.push(Element::Dot); v.push(Element::Dash); v.push(Element::Dash); }
    else if b == 88 { v.push(Element::Dash); v.push(Element::Dot); v.push(Element::Dot); v.push(Element::Dash); }
    else if b == 89 { v.push(Element::Dash); v.push(Element::Dot); v.push(Element::Dash); v.push(Element::Dash); }
    else if b == 90 { v.push(Element::Dash); v.push(Element::Dash); v.push(Element::Dot); v.push(Element::Dot); }
    else if b == 48 { v.push(Element::Dash); v.push(Element::Dash); v.push(Element::Dash); v.push(Element::Dash); v.push(Element::Dash); }
    else if b == 49 { v.push(Element::Dot); v.push(Element::Dash); v.push(Element::Dash); v.push(Element::Dash); v.push(Element::Dash); }
    else if b == 50 { v.push(Element::Dot); v.push(Element::Dot); v.push(Element::Dash); v.push(Element::Dash); v.push(Element::Dash); }
    else if b == 51 { v.push(Element::Dot); v.push(Element::Dot); v.push(Element::Dot); v.push(Element::Dash); v.push(Element::Dash); }
    else if b == 52 { v.push(Element::Dot); v.push(Element::Dot); v.push(Element::Dot); v.push(Element::Dot); v.push(Element::Dash); }
    else if b == 53 { v.push(Element::Dot); v.push(Element::Dot); v.push(Element::Dot); v.push(Element::Dot); v.push(Element::Dot); }
    else if b == 54 { v.push(Element::Dash); v.push(Element::Dot); v.push(Element::Dot); v.push(Element::Dot); v.push(Element::Dot); }
    else if b == 55 { v.push(Element::Dash); v.push(Element::Dash); v.push(Element::Dot); v.push(Element::Dot); v.push(Element::Dot); }
    else if b == 56 { v.push(Element::Dash); v.push(Element::Dash); v.push(Element::Dash); v.push(Element::Dot); v.push(Element::Dot); }
    else { v.push(Element::Dash); v.push(Element::Dash); v.push(Element::Dash); v.push(Element::Dash); v.push(Element::Dot); }
    proof {
        assert(v@ =~= code_of(b));
    }
    v
}

/// How long one element sounds: one unit for a dot, three for a dash.
pub open spec fn duration_of(e: Element) -> u32 {
    match e {
        Element::Dot => DOT_MS,
        Element::Dash => DASH_MS,
    }
}

/// The tone activity of a single element: tone on, hold for the
/// element's duration, tone off.
pub open spec fn element_events(e: Element) -> Seq<Event> {
    seq![Event::ToneOn, Event::Wait(duration_of(e)), Event::ToneOff]
}

/// The tone activity of a whole pattern: the elements in order, with one
/// silent unit between consecutive elements and none after the last.
pub open spec fn play_events(s: Seq<Element>) -> Seq<Event>
    decreases s.len(),
{
    if s.len() == 0 {
        Seq::<Event>::empty()
    } else if s.len() == 1 {
        element_events(s[0])
    } else {
        play_events(s.drop_last()) + seq![Event::Wait(ELEMENT_GAP_MS)] + element_events(s.last())
    }
}

/// The character `get_char` reports for a buffer: the case-folded head
/// byte if it is resolvable, nothing if the buffer is empty or its head
/// is unresolvable.
pub open spec fn peek_spec(buf: Seq<u8>) -> Option<char> {
    if buf.len() > 0 && is_resolvable(buf[0]) {
        Some(fold_upper(buf[0]) as char)
    } else {
        None
    }
}

/// The buffer left after one consumption: the head byte is dropped
/// exactly when it is resolvable; an empty buffer or an unresolvable
/// head leaves the buffer as it is.
pub open spec fn step_remaining(buf: Seq<u8>) -> Seq<u8> {
    if buf.len() > 0 && is_resolvable(buf[0]) {
        buf.skip(1)
    } else {
        buf
    }
}

/// The tone activity of one consumption: seven silent units for a space,
/// the head character's pattern for a letter or digit, and nothing for an
/// empty buffer or an unresolvable head.
pub open spec fn consume_events(buf: Seq<u8>) -> Seq<Event> {
    if buf.len() > 0 && is_space(buf[0]) {
        seq![Event::Wait(WORD_GAP_MS)]
    } else if buf.len() > 0 && is_resolvable(buf[0]) {
        play_events(code_of(fold_upper(buf[0])))
    } else {
        Seq::<Event>::empty()
    }
}

/// An encoder over one externally owned input buffer.
///
/// It views the unconsumed tail of the buffer and gives characters out
/// one at a time, playing each on a [`MorsePlayer`]. It is created fresh
/// for each buffer the host receives and discarded with it.
pub struct MorseCode<'a> {
    buf: &'a [u8],
}

impl<'a> MorseCode<'a> {
    /// The bytes not yet consumed.
    pub closed spec fn remaining(&self) -> Seq<u8> {
        self.buf@
    }

    /// An encoder over the whole of `buffer`.
    pub fn new(buffer: &'a [u8]) -> (r: Self)
        ensures
            r.remaining() == buffer@,
    {
        MorseCode { buf: buffer }
    }

    /// The next character to be consumed, folded to uppercase, without
    /// consuming it; nothing if the buffer is exhausted or its next byte
    /// is unresolvable.
    pub fn get_char(&self) -> (r: Option<char>)
        ensures
            r == peek_spec(self.remaining()),
    {
        if self.buf.len() == 0 {
            None
        } else {
            let b: u8 = *slice_index_get(self.buf, 0);
            match resolve(b) {
                Resolution::Unresolvable => None,
                _ => {
                    let u: u8 = if 97 <= b && b <= 122 { b - 32 } else { b };
                    Some(u as char)
                },
            }
        }
    }

    /// Consume one character and play it.
    ///
    /// On a space, hold silent for seven units and drop the byte. On a
    /// letter or digit, drop the byte first, then sound each element of
    /// its pattern with one silent unit between consecutive elements. On
    /// an exhausted buffer or an unresolvable byte, change nothing and
    /// play nothing, so consumption halts there.
    pub fn consume_tone<P: MorsePlayer>(&mut self, player: &mut P)
        ensures
            final(self).remaining() == step_remaining(old(self).remaining()),
            final(player).history() == old(player).history()
                + consume_events(old(self).remaining()),
    {
        let ghost pre = player.history();
        if self.buf.len() == 0 {
            assert(player.history() =~= pre + consume_events(self.remaining()));
            return;
        }
        let b: u8 = *slice_index_get(self.buf, 0);
        let signals: Vec<Element> = match resolve(b) {
            Resolution::Silence => {
                player.wait_ms(WORD_GAP_MS);
                self.buf = slice_subrange(self.buf, 1, self.buf.len());
                proof {
                    assert(self.remaining() =~= step_remaining(old(self).remaining()));
                    assert(player.history() =~= pre + consume_events(old(self).remaining()));
                }
                return;
            },
            Resolution::Unresolvable => {
                assert(player.history() =~= pre + consume_events(self.remaining()));
                return;
            },
            Resolution::Signals(v) => v,
        };
        self.buf = slice_subrange(self.buf, 1, self.buf.len());
        proof {
            assert(self.remaining() =~= step_remaining(old(self).remaining()));
        }
        let n: usize = signals.len();
        let mut i: usize = 0;
        while i < n
            invariant
                n == signals@.len(),
                0 < n,
                i <= n,
                player.history() == pre + play_events(signals@.take(i as int))
                    + (if 0 < i && i < n {
                        seq![Event::Wait(ELEMENT_GAP_MS)]
                    } else {
                        Seq::<Event>::empty()
                    }),
            decreases n - i,
        {
            let ghost at_entry = player.history();
            let e = signals[i];
            player.tone_on();
            match e {
                Element::Dot => player.wait_ms(DOT_MS),
                Element::Dash => player.wait_ms(DASH_MS),
            }
            player.tone_off();
            if i + 1 != n {
                player.wait_ms(ELEMENT_GAP_MS);
            }
            proof {
                assert(player.history() =~= at_entry + element_events(signals@[i as int])
                    + (if i + 1 < n {
                        seq![Event::Wait(ELEMENT_GAP_MS)]
                    } else {
                        Seq::<Event>::empty()
                    }));
                lemma_play_events_step(signals@, i as int, pre, at_entry, player.history());
            }
            i = i + 1;
        }
        proof {
            assert(signals@.take(n as int) =~= signals@);
            assert(player.history() =~= pre + consume_events(old(self).remaining()));
        }
    }
}

/// Law: lookup is pure. [`resolve`] pins its result to a function of the
/// byte alone, so any two results of resolving the same byte are the
/// same value — there is no hidden state.
pub proof fn lemma_resolve_deterministic(b: u8, r1: ResolutionModel, r2: ResolutionModel)
    requires
        r1 == resolution_spec(b),
        r2 == resolution_spec(b),
    ensures
        r1 == r2,
{
}

/// The buffer left after `n` consumptions, each taking one
/// [`step_remaining`] step.
pub open spec fn remaining_after(buf: Seq<u8>, n: nat) -> Seq<u8>
    decreases n,
{
    if n == 0 {
        buf
    } else {
        remaining_after(step_remaining(buf), (n - 1) as nat)
    }
}

/// Law: a buffer of length `n` holding only resolvable bytes (letters,
/// digits and spaces) is exhausted by exactly `n` consumptions — each
/// one advances the cursor by one — and nothing can be peeked
/// afterwards.
pub proof fn lemma_full_consumption(buf: Seq<u8>)
    requires
        forall|i: int| 0 <= i < buf.len() ==> is_resolvable(buf[i]),
    ensures
        remaining_after(buf, buf.len()) == Seq::<u8>::empty(),
        peek_spec(remaining_after(buf, buf.len())) == None::<char>,
    decreases buf.len(),
{
    if buf.len() > 0 {
        let rest = step_remaining(buf);
        assert(rest == buf.skip(1));
        assert(forall|i: int| 0 <= i < rest.len() ==> rest[i] == buf[i + 1]);
        lemma_full_consumption(rest);
        assert(remaining_after(buf, buf.len()) == remaining_after(rest, rest.len()));
    } else {
        assert(buf =~= Seq::<u8>::empty());
    }
}

/// One loop step of playback extends the history from the events of the
/// first `i` elements to the events of the first `i + 1`.
proof fn lemma_play_events_step(s: Seq<Element>, i: int, pre: Seq<Event>, at_entry: Seq<Event>, now: Seq<Event>)
    requires
        0 <= i < s.len(),
        at_entry == pre + play_events(s.take(i))
            + (if 0 < i { seq![Event::Wait(ELEMENT_GAP_MS)] } else { Seq::<Event>::empty() }),
        now == at_entry + element_events(s[i])
            + (if i + 1 < s.len() { seq![Event::Wait(ELEMENT_GAP_MS)] } else { Seq::<Event>::empty() }),
    ensures
        now == pre + play_events(s.take(i + 1))
            + (if 0 < i + 1 && i + 1 < s.len() {
                seq![Event::Wait(ELEMENT_GAP_MS)]
            } else {
                Seq::<Event>::empty()
            }),
{
    if i == 0 {
        assert(s.take(1) =~= seq![s[0]]);
        assert(play_events(s.take(1)) == element_events(s[0]));
        assert(now =~= pre + play_events(s.take(1))
            + (if i + 1 < s.len() { seq![Event::Wait(ELEMENT_GAP_MS)] } else { Seq::<Event>::empty() }));
    } else {
        let t = s.take(i + 1);
        assert(t.drop_last() =~= s.take(i));
        assert(t.last() == s[i]);
        assert(play_events(t) == play_events(s.take(i)) + seq![Event::Wait(ELEMENT_GAP_MS)] + element_events(s[i]));
        assert(now =~= pre + play_events(t)
            + (if i + 1 < s.len() { seq![Event::Wait(ELEMENT_GAP_MS)] } else { Seq::<Event>::empty() }));
    }
}

} // verus!

