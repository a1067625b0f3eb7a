use carbide::input::keyboard::{
    DecoderState, Event, Key, KeyModifiers, Keyboard, ParseControlFlow, KEY_DOWN, KEY_LEFT, KEY_RIGHT,
    KEY_UP,
};

fn mods(alt: bool, meta: bool, shift: bool, control: bool) -> KeyModifiers {
    KeyModifiers { alt, meta, shift, control }
}

fn feed(kb: &mut Keyboard, bytes: &[u8]) -> Vec<ParseControlFlow> {
    bytes.iter().map(|b| kb.parse(*b)).collect()
}

#[test]
fn meta_control_up_sequence() {
    let mut kb = Keyboard::new();
    let out = feed(&mut kb, b";13A");
    assert_eq!(out[0], ParseControlFlow::NeedMore);
    assert_eq!(out[1], ParseControlFlow::NeedMore);
    assert_eq!(out[2], ParseControlFlow::NeedMore);
    assert_eq!(
        out[3],
        ParseControlFlow::Done(Some(Event::KeyPress {
            key: Key { char: KEY_UP, modifiers: mods(false, true, false, true) }
        }))
    );
    assert_eq!(kb.state(), DecoderState::Separator);
    // ready for the next sequence
    let out = feed(&mut kb, b";2B");
    assert_eq!(
        out[2],
        ParseControlFlow::Done(Some(Event::KeyPress {
            key: Key { char: KEY_DOWN, modifiers: mods(false, false, true, false) }
        }))
    );
}

#[test]
fn plain_byte_is_not_consumed() {
    let mut kb = Keyboard::new();
    assert_eq!(kb.parse(b'x'), ParseControlFlow::NotConsumed);
    assert_eq!(kb.state(), DecoderState::Separator);
}

#[test]
fn bytes_may_arrive_separately() {
    let mut kb = Keyboard::default();
    assert_eq!(kb.parse(b';'), ParseControlFlow::NeedMore);
    assert_eq!(kb.state(), DecoderState::Modifier(0));
    assert_eq!(kb.parse(b'7'), ParseControlFlow::NeedMore);
    assert_eq!(kb.state(), DecoderState::Modifier(7));
    assert_eq!(
        kb.parse(b'C'),
        ParseControlFlow::Done(Some(Event::KeyPress {
            key: Key { char: KEY_RIGHT, modifiers: mods(true, false, false, true) }
        }))
    );
}

#[test]
fn unknown_terminator_gives_no_event() {
    let mut kb = Keyboard::new();
    let out = feed(&mut kb, b";5Z");
    assert_eq!(out[2], ParseControlFlow::Done(None));
    assert_eq!(kb.state(), DecoderState::Separator);
}

#[test]
fn long_code_saturates_to_no_modifiers() {
    let mut kb = Keyboard::new();
    let out = feed(&mut kb, b";99999D");
    assert_eq!(kb.state(), DecoderState::Separator);
    assert_eq!(
        out[6],
        ParseControlFlow::Done(Some(Event::KeyPress {
            key: Key { char: KEY_LEFT, modifiers: mods(false, false, false, false) }
        }))
    );
}

#[test]
fn modifier_table() {
    let table: [(u8, KeyModifiers); 15] = [
        (2, mods(false, false, true, false)),
        (3, mods(true, false, false, false)),
        (4, mods(true, false, true, false)),
        (5, mods(false, false, false, true)),
        (6, mods(false, false, true, true)),
        (7, mods(true, false, false, true)),
        (8, mods(true, false, true, true)),
        (9, mods(false, true, false, false)),
        (10, mods(false, true, true, false)),
        (11, mods(true, true, false, false)),
        (12, mods(true, true, true, false)),
        (13, mods(false, true, false, true)),
        (14, mods(false, true, true, true)),
        (15, mods(true, true, false, true)),
        (16, mods(true, true, true, true)),
    ];
    for (code, expected) in table {
        assert_eq!(KeyModifiers::parse(code), expected, "code {}", code);
    }
    for code in [0u8, 1, 17, 100, 255] {
        assert_eq!(KeyModifiers::parse(code), KeyModifiers::default());
    }
}

#[test]
fn key_maps_terminators() {
    assert_eq!(
        Keyboard::key(b'A', 0),
        Some(Event::KeyPress { key: Key { char: KEY_UP, modifiers: KeyModifiers::default() } })
    );
    assert_eq!(Keyboard::key(b'D', 0), Some(Event::KeyPress { key: Key::from(KEY_LEFT) }));
    assert_eq!(Keyboard::key(b'E', 3), None);
}
