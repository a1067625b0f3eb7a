use carbide::render::{bgra_to_rgb, PaintElementType, PaintError, TerminalRenderHandler};
use carbide::state::{BrowserState, FrameStore, DEFAULT_VIEW_HEIGHT, DEFAULT_VIEW_WIDTH};

#[test]
fn store_is_empty_before_first_publish() {
    let store = FrameStore::new();
    assert!(store.read().is_none());
    assert_eq!(store.dimensions(), None);
}

#[test]
fn read_after_publish_matches_publish() {
    let mut store = FrameStore::new();
    store.publish(vec![1; 2 * 3 * 3], 2, 3);
    for _ in 0..3 {
        let f = store.read().unwrap();
        assert_eq!(f.buffer.len(), 2 * 3 * 3);
        assert_eq!((f.width, f.height), (2, 3));
    }
    store.publish(vec![9; 4 * 1 * 3], 4, 1);
    let f = store.read().unwrap();
    assert_eq!(f.buffer, vec![9; 12]);
    assert_eq!((f.width, f.height), (4, 1));
}

#[test]
fn view_rect_falls_back_before_first_frame() {
    let handler = TerminalRenderHandler::new();
    let mut state = BrowserState::default();
    assert_eq!(handler.get_view_rect(&state), (DEFAULT_VIEW_WIDTH, DEFAULT_VIEW_HEIGHT));
    assert_eq!(handler.get_view_rect(&state), (1280, 720));
    let buf = vec![0u8; 3 * 2 * 4];
    assert_eq!(handler.on_paint(&mut state.frame, PaintElementType::View, &buf, 3, 2), Ok(()));
    assert_eq!(handler.get_view_rect(&state), (3, 2));
}

#[test]
fn default_state() {
    let state = BrowserState::default();
    assert_eq!(state.url, "about:blank");
    assert_eq!(state.title, "");
    assert!(!state.loading);
    assert!(state.get_frame_data().is_none());
}

#[test]
fn paint_converts_bgra_to_rgb() {
    let handler = TerminalRenderHandler::new();
    let mut state = BrowserState::default();
    let src = [1, 2, 3, 255, 4, 5, 6, 255, 7, 8, 9, 0, 10, 11, 12, 0];
    assert_eq!(handler.on_paint(&mut state.frame, PaintElementType::View, &src, 2, 2), Ok(()));
    let (buf, dims) = state.get_frame_data().unwrap();
    assert_eq!(dims, (2, 2));
    assert_eq!(buf, vec![3, 2, 1, 6, 5, 4, 9, 8, 7, 12, 11, 10]);
}

#[test]
fn bottom_up_source_is_flipped() {
    let src = [1, 2, 3, 0, 4, 5, 6, 0];
    assert_eq!(bgra_to_rgb(&src, 1, 2, true), vec![6, 5, 4, 3, 2, 1]);
    assert_eq!(bgra_to_rgb(&src, 1, 2, false), vec![3, 2, 1, 6, 5, 4]);
    let handler = TerminalRenderHandler { bottom_up: true };
    let mut state = BrowserState::default();
    assert_eq!(handler.on_paint(&mut state.frame, PaintElementType::View, &src, 1, 2), Ok(()));
    assert_eq!(state.get_frame_data().unwrap().0, vec![6, 5, 4, 3, 2, 1]);
}

#[test]
fn longer_source_uses_leading_bytes() {
    let src = [1, 2, 3, 4, 99, 99, 99, 99];
    assert_eq!(bgra_to_rgb(&src, 1, 1, false), vec![3, 2, 1]);
}

#[test]
fn short_buffer_is_refused() {
    let handler = TerminalRenderHandler::new();
    let mut state = BrowserState::default();
    let src = vec![0u8; 2 * 2 * 4 - 1];
    assert_eq!(
        handler.on_paint(&mut state.frame, PaintElementType::View, &src, 2, 2),
        Err(PaintError::BufferTooShort)
    );
    assert!(state.get_frame_data().is_none());
    let good = vec![5u8; 4];
    assert_eq!(handler.on_paint(&mut state.frame, PaintElementType::View, &good, 1, 1), Ok(()));
    assert_eq!(
        handler.on_paint(&mut state.frame, PaintElementType::View, &src, 2, 2),
        Err(PaintError::BufferTooShort)
    );
    let (buf, dims) = state.get_frame_data().unwrap();
    assert_eq!((buf, dims), (vec![5, 5, 5], (1, 1)));
}

#[test]
fn negative_size_is_refused() {
    let handler = TerminalRenderHandler::new();
    let mut state = BrowserState::default();
    assert_eq!(
        handler.on_paint(&mut state.frame, PaintElementType::View, &[], -1, 2),
        Err(PaintError::InvalidDimensions)
    );
    assert!(state.get_frame_data().is_none());
}

#[test]
fn popup_paint_is_ignored() {
    let handler = TerminalRenderHandler::new();
    let mut state = BrowserState::default();
    assert_eq!(handler.on_paint(&mut state.frame, PaintElementType::Popup, &[1, 2, 3, 4], 1, 1), Ok(()));
    assert!(state.get_frame_data().is_none());
}

#[test]
fn state_callbacks() {
    let mut state = BrowserState::default();
    state.on_title_change("Example");
    state.on_loading_state_change(true);
    state.on_address_change(false, "https://sub.example/");
    assert_eq!(state.url, "about:blank");
    state.on_address_change(true, "https://example.org/");
    assert_eq!(state.url, "https://example.org/");
    assert_eq!(state.title, "Example");
    assert!(state.loading);
}
