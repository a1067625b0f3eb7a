use carbide::ansi::{convert_frame_to_ansi, get_pixel, rgb_to_ansi256};

fn colors(text: &str) -> Vec<u32> {
    text.split("\x1b[48;5;")
        .skip(1)
        .map(|t| t.split('m').next().unwrap().parse().unwrap())
        .collect()
}

#[test]
fn palette_values() {
    assert_eq!(rgb_to_ansi256(0, 0, 0), 232);
    assert_eq!(rgb_to_ansi256(255, 255, 255), 252);
    assert_eq!(rgb_to_ansi256(128, 128, 128), 242);
    assert_eq!(rgb_to_ansi256(255, 0, 0), 196);
    assert_eq!(rgb_to_ansi256(0, 255, 0), 46);
    assert_eq!(rgb_to_ansi256(0, 0, 255), 21);
    assert_eq!(rgb_to_ansi256(100, 150, 200), 67);
}

#[test]
fn single_pixel_frame() {
    let text = convert_frame_to_ansi(&[255, 0, 0], 1, 1);
    assert_eq!(text, "\x1b[48;5;196m\u{2580}\x1b[0m\n");
}

#[test]
fn block_mean_colour() {
    let buf = [10, 20, 30, 30, 40, 50, 50, 60, 70, 70, 80, 90];
    let text = convert_frame_to_ansi(&buf, 2, 2);
    assert_eq!(text, "\x1b[48;5;17m\u{2580}\x1b[0m\n");
}

#[test]
fn odd_edges_are_clamped() {
    let buf: Vec<u8> = (0..27).map(|i| (i * 9) as u8).collect();
    assert_eq!(get_pixel(&buf, 3, 3, 3, 1), (135, 144, 153));
    assert_eq!(get_pixel(&buf, 3, 3, 1, 3), (189, 198, 207));
    assert_eq!(get_pixel(&buf, 3, 3, 5, 5), (216, 225, 234));
    let text = convert_frame_to_ansi(&buf, 3, 3);
    assert_eq!(colors(&text).len(), 4);
}

#[test]
fn line_count_is_half_height_rounded_up() {
    for (w, h) in [(1usize, 1usize), (2, 2), (3, 3), (4, 5), (5, 8), (7, 1), (0, 3)] {
        let buf = vec![77u8; w * h * 3];
        let text = convert_frame_to_ansi(&buf, w, h);
        assert_eq!(text.matches('\n').count(), (h + 1) / 2);
        assert_eq!(text.lines().count(), (h + 1) / 2);
        assert_eq!(colors(&text).len(), ((w + 1) / 2) * ((h + 1) / 2));
    }
    assert_eq!(convert_frame_to_ansi(&[], 0, 3), "\x1b[0m\n\x1b[0m\n");
    assert_eq!(convert_frame_to_ansi(&[], 4, 0), "");
}

#[test]
fn grey_frame_uses_grey_ramp() {
    let (w, h) = (5usize, 4usize);
    let mut buf = Vec::new();
    for i in 0..w * h {
        let v = (i * 13 % 256) as u8;
        buf.extend_from_slice(&[v, v, v]);
    }
    let text = convert_frame_to_ansi(&buf, w, h);
    let cs = colors(&text);
    assert_eq!(cs.len(), 6);
    for c in cs {
        assert!((232..=255).contains(&c), "{}", c);
    }
}

#[test]
fn encoding_is_repeatable() {
    let a: Vec<u8> = (0..48).map(|i| (i * 37 % 256) as u8).collect();
    let b: Vec<u8> = (0..48).map(|i| (i * 11 % 256) as u8).collect();
    let first = convert_frame_to_ansi(&a, 4, 4);
    let other = convert_frame_to_ansi(&b, 4, 4);
    let second = convert_frame_to_ansi(&a, 4, 4);
    assert_eq!(first, second);
    assert_ne!(first, other);
}
