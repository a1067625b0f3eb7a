use carbide::ui::{content_text, handle_key, UiCommand, UiKey};

#[test]
fn typing_and_editing_the_address() {
    let mut a = Vec::new();
    assert_eq!(handle_key(&mut a, UiKey::Enter), UiCommand::Continue);
    assert_eq!(handle_key(&mut a, UiKey::Backspace), UiCommand::Continue);
    assert!(a.is_empty());
    for c in "ab.cx".chars() {
        assert_eq!(handle_key(&mut a, UiKey::Char(c)), UiCommand::Continue);
    }
    assert_eq!(handle_key(&mut a, UiKey::Backspace), UiCommand::Continue);
    assert_eq!(a.iter().collect::<String>(), "ab.c");
    assert_eq!(handle_key(&mut a, UiKey::Other), UiCommand::Continue);
    assert_eq!(handle_key(&mut a, UiKey::Enter), UiCommand::Navigate);
    assert_eq!(handle_key(&mut a, UiKey::Esc), UiCommand::Quit);
    assert_eq!(a.iter().collect::<String>(), "ab.c");
}

#[test]
fn placeholder_until_a_frame_can_be_drawn() {
    assert_eq!(content_text(None), "Loading...");
    assert_eq!(content_text(Some((vec![], (0, 0)))), "Loading...");
    assert_eq!(content_text(Some((vec![1, 2], (1, 1)))), "Loading...");
    assert_eq!(content_text(Some((vec![1, 2, 3], (-1, -1)))), "Loading...");
    assert_eq!(content_text(Some((vec![255, 0, 0], (1, 1)))), "\x1b[48;5;196m\u{2580}\x1b[0m\n");
}
