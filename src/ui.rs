use vstd::prelude::*;
use crate::ansi::{ansi_text, convert_frame_to_ansi};

verus! {

/// A key press as the UI loop sees it.
#[derive(Clone, Copy, Debug, PartialEq, Eq, Structural)]
pub enum UiKey {
    Char(char),
    Backspace,
    Enter,
    Esc,
    Other,
}

/// What the UI loop does after a key press.
#[derive(Clone, Copy, Debug, PartialEq, Eq, Structural)]
pub enum UiCommand {
    /// Keep going.
    Continue,
    /// Load the address typed so far.
    Navigate,
    /// Leave the UI loop.
    Quit,
}

/// Applies a key press to the address being typed: characters are appended,
/// backspace removes the last one, enter asks to load a non-empty address and
/// escape asks to quit.
pub fn handle_key(address: &mut Vec<char>, key: UiKey) -> (r: UiCommand)
    ensures
        match key {
            UiKey::Char(c) => final(address)@ == old(address)@.push(c) && r == UiCommand::Continue,
            UiKey::Backspace => final(address)@ == (if old(address)@.len() > 0 {
                old(address)@.drop_last()
            } else {
                old(address)@
            }) && r == UiCommand::Continue,
            UiKey::Enter => final(address)@ == old(address)@ && r == (if old(address)@.len() > 0 {
                UiCommand::Navigate
            } else {
                UiCommand::Continue
            }),
            UiKey::Esc => final(address)@ == old(address)@ && r == UiCommand::Quit,
            UiKey::Other => final(address)@ == old(address)@ && r == UiCommand::Continue,
        },
{
    match key {
        UiKey::Char(c) => {
            address.push(c);
            UiCommand::Continue
        },
        UiKey::Backspace => {
            address.pop();
            UiCommand::Continue
        },
        UiKey::Enter => if address.len() > 0 {
            UiCommand::Navigate
        } else {
            UiCommand::Continue
        },
        UiKey::Esc => UiCommand::Quit,
        UiKey::Other => UiCommand::Continue,
    }
}

/// The frame data can be drawn: a non-empty buffer of three bytes for each
/// pixel of its size.
pub open spec fn drawable(buf: Seq<u8>, w: i32, h: i32) -> bool {
    buf.len() > 0 && w >= 0 && h >= 0 && buf.len() == w * h * 3
}

/// Text shown in the content area before a frame can be drawn.
pub open spec fn placeholder() -> Seq<char> {
    seq!['L', 'o', 'a', 'd', 'i', 'n', 'g', '.', '.', '.']
}

/// The content area's text: the encoded frame where there is one to draw,
/// the placeholder otherwise (no frame yet, or none could be read).
pub fn content_text(frame: Option<(Vec<u8>, (i32, i32))>) -> (r: String)
    ensures
        match frame {
            Some(d) => if drawable(d.0@, d.1.0, d.1.1) {
                r@ == ansi_text(d.0@, d.1.0 as nat, d.1.1 as nat)
            } else {
                r@ == placeholder()
            },
            None => r@ == placeholder(),
        },
{
    proof {
        reveal_strlit("Loading...");
    }
    match frame {
        Some((buffer, (width, height))) => {
            if width >= 0 && height >= 0 && buffer.len() > 0 {
                proof {
                    let (wi, hi) = (width as int, height as int);
                    assert(wi * hi * 3 <= 0xFFFF_FFFF_FFFF_FFFF) by (nonlinear_arith)
                        requires
                            0 <= wi <= 0x7FFF_FFFF,
                            0 <= hi <= 0x7FFF_FFFF,
                    ;
                }
                let needed: u64 = width as u64 * height as u64 * 3;
                if buffer.len() as u64 == needed {
                    return convert_frame_to_ansi(buffer.as_slice(), width as usize, height as usize);
                }
            }
            String::from_str("Loading...")
        },
        None => String::from_str("Loading..."),
    }
}

} // verus!
