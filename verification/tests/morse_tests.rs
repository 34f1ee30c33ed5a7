use tiny_morse::morse::{resolve, Element, MorseCode, Resolution, UNIT};
use tiny_morse::player::{Event, MorsePlayer, Recorder};

/// The pattern of a resolvable letter or digit, or a panic.
fn pattern(b: u8) -> Vec<Element> {
    match resolve(b) {
        Resolution::Signals(v) => v,
        other => panic!("expected a pattern for {b}, got {other:?}"),
    }
}

/// Turn a pattern written as dots and dashes into elements.
fn elems(code: &str) -> Vec<Element> {
    code.chars()
        .map(|c| if c == '.' { Element::Dot } else { Element::Dash })
        .collect()
}

/// The exact tone activity one character's pattern must produce.
fn char_events(code: &str) -> Vec<Event> {
    let mut out = Vec::new();
    for (i, c) in code.chars().enumerate() {
        if i > 0 {
            out.push(Event::Wait(UNIT));
        }
        out.push(Event::ToneOn);
        out.push(Event::Wait(if c == '.' { UNIT } else { 3 * UNIT }));
        out.push(Event::ToneOff);
    }
    out
}

const STANDARD: [(char, &str); 36] = [
    ('A', ".-"),
    ('B', "-..."),
    ('C', "-.-."),
    ('D', "-.."),
    ('E', "."),
    ('F', "..-."),
    ('G', "--."),
    ('H', "...."),
    ('I', ".."),
    ('J', ".---"),
    ('K', "-.-"),
    ('L', ".-.."),
    ('M', "--"),
    ('N', "-."),
    ('O', "---"),
    ('P', ".--."),
    ('Q', "--.-"),
    ('R', ".-."),
    ('S', "..."),
    ('T', "-"),
    ('U', "..-"),
    ('V', "...-"),
    ('W', ".--"),
    ('X', "-..-"),
    ('Y', "-.--"),
    ('Z', "--.."),
    ('0', "-----"),
    ('1', ".----"),
    ('2', "..---"),
    ('3', "...--"),
    ('4', "....-"),
    ('5', "....."),
    ('6', "-...."),
    ('7', "--..."),
    ('8', "---.."),
    ('9', "----."),
];

#[test]
fn resolve_matches_the_standard_table() {
    for (c, code) in STANDARD {
        let b = c as u8;
        assert_eq!(pattern(b), elems(code), "wrong pattern for {c}");
        if c.is_ascii_alphabetic() {
            let lower = c.to_ascii_lowercase() as u8;
            assert_eq!(pattern(lower), elems(code), "wrong pattern for lowercase {c}");
        }
    }
}

#[test]
fn resolve_space_yields_silence() {
    assert_eq!(resolve(b' '), Resolution::Silence);
}

#[test]
fn resolve_rejects_everything_else() {
    for b in 0..=255u8 {
        let supported = b.is_ascii_alphanumeric() || b == b' ';
        match resolve(b) {
            Resolution::Unresolvable => assert!(!supported, "byte {b} should resolve"),
            _ => assert!(supported, "byte {b} should be unresolvable"),
        }
    }
}

#[test]
fn resolve_is_pure() {
    for b in 0..=255u8 {
        assert_eq!(resolve(b), resolve(b), "two lookups of byte {b} disagree");
    }
}

#[test]
fn resolvable_input_is_exhausted_by_one_call_per_byte() {
    let input = b"HELLO WORLD";
    let mut morse = MorseCode::new(input);
    let mut rec = Recorder::new();
    for _ in 0..input.len() {
        assert!(morse.get_char().is_some());
        morse.consume_tone(&mut rec);
    }
    assert_eq!(morse.get_char(), None);
    let played = rec.events.len();
    morse.consume_tone(&mut rec);
    assert_eq!(rec.events.len(), played, "an exhausted buffer must play nothing");
}

#[test]
fn consumption_halts_at_an_unresolvable_byte() {
    let mut morse = MorseCode::new(b"AB#CD");
    let mut rec = Recorder::new();
    morse.consume_tone(&mut rec); // A
    morse.consume_tone(&mut rec); // B
    morse.consume_tone(&mut rec); // halts at '#'
    let mut expected = char_events(".-");
    expected.extend(char_events("-..."));
    assert_eq!(rec.events, expected, "C and D must never be played");
    assert_eq!(morse.get_char(), None);
    morse.consume_tone(&mut rec);
    assert_eq!(rec.events, expected, "the cursor must not advance past '#'");
    assert_eq!(morse.get_char(), None);
}

#[test]
fn timing_of_a_is_five_units() {
    let mut morse = MorseCode::new(b"A");
    let mut rec = Recorder::new();
    morse.consume_tone(&mut rec);
    assert_eq!(
        rec.events,
        vec![
            Event::ToneOn,
            Event::Wait(UNIT),
            Event::ToneOff,
            Event::Wait(UNIT),
            Event::ToneOn,
            Event::Wait(3 * UNIT),
            Event::ToneOff,
        ]
    );
    let total: u32 = rec
        .events
        .iter()
        .map(|e| if let Event::Wait(ms) = e { *ms } else { 0 })
        .sum();
    assert_eq!(total, 5 * UNIT);
}

#[test]
fn a_leading_space_is_one_word_gap() {
    let mut morse = MorseCode::new(b" A");
    let mut rec = Recorder::new();
    morse.consume_tone(&mut rec);
    assert_eq!(rec.events, vec![Event::Wait(7 * UNIT)]);
    assert_eq!(morse.get_char(), Some('A'), "the space must be consumed");
}

#[test]
fn sos_produces_the_standard_trace() {
    let mut morse = MorseCode::new(b"SOS");
    let mut rec = Recorder::new();
    let mut expected = Vec::new();
    for (i, code) in ["...", "---", "..."].iter().enumerate() {
        if i > 0 {
            // The host adds the inter-character gap between calls.
            rec.wait_ms(3 * UNIT);
            expected.push(Event::Wait(3 * UNIT));
        }
        assert!(morse.get_char().is_some());
        morse.consume_tone(&mut rec);
        expected.extend(char_events(code));
    }
    assert_eq!(morse.get_char(), None);
    assert_eq!(rec.events, expected);
    for e in &rec.events {
        match e {
            Event::Wait(ms) => assert!(*ms == 200 || *ms == 600),
            _ => {}
        }
    }
}

#[test]
fn an_empty_buffer_yields_nothing() {
    let mut morse = MorseCode::new(b"");
    assert_eq!(morse.get_char(), None);
    let mut rec = Recorder::new();
    morse.consume_tone(&mut rec);
    assert!(rec.events.is_empty());
}

#[test]
fn get_char_folds_case_and_reads_without_consuming() {
    let morse = MorseCode::new(b"x");
    assert_eq!(morse.get_char(), Some('X'));
    assert_eq!(morse.get_char(), Some('X'));
    let digits = MorseCode::new(b"7");
    assert_eq!(digits.get_char(), Some('7'));
}
