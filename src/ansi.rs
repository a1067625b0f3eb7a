use vstd::prelude::*;

verus! {

/// The last valid coordinate below `bound`, or `v` where `v` is below it.
pub open spec fn clamp_to(v: int, bound: int) -> int {
    if v < bound { v } else { bound - 1 }
}

/// Index of the first byte of pixel `(x, y)` in a packed three-byte RGB
/// frame, coordinates past the edge being clamped to the last row or column.
pub open spec fn pixel_index(w: nat, h: nat, x: int, y: int) -> int {
    (clamp_to(y, h as int) * w + clamp_to(x, w as int)) * 3
}

pub open spec fn pixel_at(buf: Seq<u8>, w: nat, h: nat, x: int, y: int) -> (u8, u8, u8) {
    let i = pixel_index(w, h, x, y);
    (buf[i], buf[i + 1], buf[i + 2])
}

/// The entry of the 256-colour palette for a colour. A grey goes to the
/// 24-step ramp at `232 + round(luma / 12.75)`, with luma
/// `0.2126 R + 0.7152 G + 0.0722 B` (here in ten-thousandths); any other
/// colour goes to the 6x6x6 cube, each channel scaled to `channel * 5 / 255`.
pub open spec fn quantize(r: u8, g: u8, b: u8) -> u8 {
    if r == g && g == b {
        let luma = 2126 * r + 7152 * g + 722 * b;
        (232 + (2 * luma + 127500) / 255000) as u8
    } else {
        (16 + 36 * (r * 5 / 255) + 6 * (g * 5 / 255) + b * 5 / 255) as u8
    }
}

/// Truncating mean of four channel values.
pub open spec fn mean4(a: u8, b: u8, c: u8, d: u8) -> u8 {
    ((a + b + c + d) / 4) as u8
}

/// Palette entry of the cell that covers the 2x2 block at `(bx, by)`.
pub open spec fn cell_color(buf: Seq<u8>, w: nat, h: nat, bx: int, by: int) -> u8 {
    let p0 = pixel_at(buf, w, h, 2 * bx, 2 * by);
    let p1 = pixel_at(buf, w, h, 2 * bx + 1, 2 * by);
    let p2 = pixel_at(buf, w, h, 2 * bx, 2 * by + 1);
    let p3 = pixel_at(buf, w, h, 2 * bx + 1, 2 * by + 1);
    quantize(mean4(p0.0, p1.0, p2.0, p3.0), mean4(p0.1, p1.1, p2.1, p3.1), mean4(p0.2, p1.2, p2.2, p3.2))
}

pub open spec fn digit_char(d: nat) -> char {
    if d == 0 { '0' }
    else if d == 1 { '1' }
    else if d == 2 { '2' }
    else if d == 3 { '3' }
    else if d == 4 { '4' }
    else if d == 5 { '5' }
    else if d == 6 { '6' }
    else if d == 7 { '7' }
    else if d == 8 { '8' }
    else { '9' }
}

/// Decimal digits of `n`, without leading zeros.
pub open spec fn decimal(n: nat) -> Seq<char>
    decreases n,
{
    if n < 10 {
        seq![digit_char(n)]
    } else {
        decimal(n / 10) + seq![digit_char(n % 10)]
    }
}

/// "Set background to palette entry `c`", then the upper half block.
pub open spec fn cell_token(c: u8) -> Seq<char> {
    seq!['\x1b', '[', '4', '8', ';', '5', ';'] + decimal(c as nat) + seq!['m', '\u{2580}']
}

/// Style reset and line break that close each text row.
pub open spec fn row_end() -> Seq<char> {
    seq!['\x1b', '[', '0', 'm', '\n']
}

pub open spec fn cells_across(w: nat) -> nat {
    w / 2 + w % 2
}

pub open spec fn rows_down(h: nat) -> nat {
    h / 2 + h % 2
}

/// The first `n` cells of text row `by`.
pub open spec fn row_cells(buf: Seq<u8>, w: nat, h: nat, by: int, n: nat) -> Seq<char>
    decreases n,
{
    if n == 0 {
        Seq::empty()
    } else {
        row_cells(buf, w, h, by, (n - 1) as nat) + cell_token(cell_color(buf, w, h, n - 1, by))
    }
}

/// The first `n` text rows, each closed by a reset and a line break.
pub open spec fn frame_rows(buf: Seq<u8>, w: nat, h: nat, n: nat) -> Seq<char>
    decreases n,
{
    if n == 0 {
        Seq::empty()
    } else {
        frame_rows(buf, w, h, (n - 1) as nat) + row_cells(buf, w, h, n - 1, cells_across(w))
            + row_end()
    }
}

/// The terminal text for a packed RGB frame of `w` by `h` pixels.
pub open spec fn ansi_text(buf: Seq<u8>, w: nat, h: nat) -> Seq<char> {
    frame_rows(buf, w, h, rows_down(h))
}

proof fn lemma_index_in_frame(w: int, h: int, x: int, y: int)
    requires
        0 <= x < w,
        0 <= y < h,
    ensures
        0 <= y * w + x,
        y * w + x < w * h,
        (y * w + x) * 3 + 2 < w * h * 3,
{
    assert(0 <= y * w + x < w * h) by (nonlinear_arith)
        requires
            0 <= x < w,
            0 <= y < h,
    ;
}

/// Reads pixel `(x, y)` of a packed RGB frame, clamping past the last row or column.
pub fn get_pixel(buffer: &[u8], width: usize, height: usize, x: usize, y: usize) -> (r: (u8, u8, u8))
    requires
        width > 0,
        height > 0,
        buffer@.len() == width * height * 3,
    ensures
        r == pixel_at(buffer@, width as nat, height as nat, x as int, y as int),
{
    let len = buffer.len();
    let x = if x < width { x } else { width - 1 };
    let y = if y < height { y } else { height - 1 };
    proof {
        lemma_index_in_frame(width as int, height as int, x as int, y as int);
        assert(len as int == width * height * 3);
    }
    let idx = (y * width + x) * 3;
    (buffer[idx], buffer[idx + 1], buffer[idx + 2])
}

/// Palette entry of a colour in the 256-colour terminal palette.
pub fn rgb_to_ansi256(r: u8, g: u8, b: u8) -> (c: u8)
    ensures
        c == quantize(r, g, b),
{
    if r == g && g == b {
        let luma: u32 = 2126 * r as u32 + 7152 * g as u32 + 722 * b as u32;
        return 232 + ((2 * luma + 127500) / 255000) as u8;
    }
    16 + 36 * ((r as u16 * 5 / 255) as u8) + 6 * ((g as u16 * 5 / 255) as u8) + (b as u16 * 5
        / 255) as u8
}

/// The single-character text of a decimal digit.
fn digit_str(d: u8) -> (s: &'static str)
    requires
        d < 10,
    ensures
        s@ == seq![digit_char(d as nat)],
{
    proof {
        reveal_strlit("0");
        reveal_strlit("1");
        reveal_strlit("2");
        reveal_strlit("3");
        reveal_strlit("4");
        reveal_strlit("5");
        reveal_strlit("6");
        reveal_strlit("7");
        reveal_strlit("8");
        reveal_strlit("9");
    }
    match d {
        0 => "0",
        1 => "1",
        2 => "2",
        3 => "3",
        4 => "4",
        5 => "5",
        6 => "6",
        7 => "7",
        8 => "8",
        _ => "9",
    }
}

fn push_cell(out: &mut String, c: u8)
    ensures
        final(out)@ == old(out)@ + cell_token(c),
{
    proof {
        reveal_strlit("\x1b[48;5;");
        reveal_strlit("m\u{2580}");
    }
    let ghost start = out@;
    out.append("\x1b[48;5;");
    if c >= 100 {
        out.append(digit_str(c / 100));
    }
    if c >= 10 {
        out.append(digit_str((c / 10) % 10));
    }
    out.append(digit_str(c % 10));
    out.append("m\u{2580}");
    proof {
        let n = c as nat;
        if n >= 100 {
            assert(decimal(n / 10) == decimal(n / 100) + seq![digit_char((n / 10) % 10)]);
        }
        assert(decimal(n) == if n < 10 {
            seq![digit_char(n)]
        } else {
            decimal(n / 10) + seq![digit_char(n % 10)]
        });
        assert(final(out)@ =~= old(out)@ + cell_token(c));
    }
}

/// Text for a packed RGB frame: each 2x2 block of pixels becomes one upper
/// half block painted with the block's mean colour as background, and each
/// text row ends with a style reset and a line break.
pub fn convert_frame_to_ansi(buffer: &[u8], width: usize, height: usize) -> (r: String)
    requires
        buffer@.len() == width * height * 3,
    ensures
        r@ == ansi_text(buffer@, width as nat, height as nat),
{
    let rows = height / 2 + height % 2;
    let cols = width / 2 + width % 2;
    let mut output = String::new();
    let mut by: usize = 0;
    while by < rows
        invariant
            buffer@.len() == width * height * 3,
            rows == rows_down(height as nat),
            cols == cells_across(width as nat),
            by <= rows,
            output@ == frame_rows(buffer@, width as nat, height as nat, by as nat),
        decreases rows - by,
    {
        let ghost before = output@;
        let y = 2 * by;
        let mut bx: usize = 0;
        while bx < cols
            invariant
                buffer@.len() == width * height * 3,
                rows == rows_down(height as nat),
                cols == cells_across(width as nat),
                by < rows,
                y == 2 * by,
                bx <= cols,
                output@ == before + row_cells(buffer@, width as nat, height as nat, by as int, bx as nat),
            decreases cols - bx,
        {
            let x = 2 * bx;
            let p0 = get_pixel(buffer, width, height, x, y);
            let p1 = get_pixel(buffer, width, height, x + 1, y);
            let p2 = get_pixel(buffer, width, height, x, y + 1);
            let p3 = get_pixel(buffer, width, height, x + 1, y + 1);
            let r = ((p0.0 as u32 + p1.0 as u32 + p2.0 as u32 + p3.0 as u32) / 4) as u8;
            let g = ((p0.1 as u32 + p1.1 as u32 + p2.1 as u32 + p3.1 as u32) / 4) as u8;
            let b = ((p0.2 as u32 + p1.2 as u32 + p2.2 as u32 + p3.2 as u32) / 4) as u8;
            let color = rgb_to_ansi256(r, g, b);
            push_cell(&mut output, color);
            bx = bx + 1;
            proof {
                assert(output@ =~= before + row_cells(buffer@, width as nat, height as nat, by as int, bx as nat));
            }
        }
        proof {
            reveal_strlit("\x1b[0m\n");
        }
        output.append("\x1b[0m\n");
        by = by + 1;
        proof {
            assert(output@ =~= frame_rows(buffer@, width as nat, height as nat, by as nat));
        }
    }
    output
}

/// Number of line breaks in a text.
pub open spec fn count_newlines(s: Seq<char>) -> nat
    decreases s.len(),
{
    if s.len() == 0 {
        0
    } else {
        count_newlines(s.drop_last()) + if s.last() == '\n' { 1nat } else { 0nat }
    }
}

pub open spec fn has_no_newline(s: Seq<char>) -> bool {
    forall|i: int| 0 <= i < s.len() ==> s[i] != '\n'
}

proof fn lemma_count_concat(a: Seq<char>, b: Seq<char>)
    ensures
        count_newlines(a + b) == count_newlines(a) + count_newlines(b),
    decreases b.len(),
{
    if b.len() == 0 {
        assert(a + b =~= a);
    } else {
        lemma_count_concat(a, b.drop_last());
        assert((a + b).drop_last() =~= a + b.drop_last());
    }
}

proof fn lemma_count_none(s: Seq<char>)
    requires
        has_no_newline(s),
    ensures
        count_newlines(s) == 0,
    decreases s.len(),
{
    if s.len() > 0 {
        lemma_count_none(s.drop_last());
    }
}

proof fn lemma_decimal_no_newline(n: nat)
    ensures
        has_no_newline(decimal(n)),
    decreases n,
{
    if n >= 10 {
        lemma_decimal_no_newline(n / 10);
    }
}

proof fn lemma_row_cells_no_newline(buf: Seq<u8>, w: nat, h: nat, by: int, n: nat)
    ensures
        count_newlines(row_cells(buf, w, h, by, n)) == 0,
    decreases n,
{
    if n > 0 {
        let c = cell_color(buf, w, h, n - 1, by);
        lemma_row_cells_no_newline(buf, w, h, by, (n - 1) as nat);
        lemma_decimal_no_newline(c as nat);
        lemma_count_none(cell_token(c));
        lemma_count_concat(row_cells(buf, w, h, by, (n - 1) as nat), cell_token(c));
    }
}

proof fn lemma_frame_rows_lines(buf: Seq<u8>, w: nat, h: nat, n: nat)
    ensures
        count_newlines(frame_rows(buf, w, h, n)) == n,
        n > 0 ==> frame_rows(buf, w, h, n).last() == '\n',
    decreases n,
{
    if n > 0 {
        let prev = frame_rows(buf, w, h, (n - 1) as nat);
        let row = row_cells(buf, w, h, n - 1, cells_across(w));
        lemma_frame_rows_lines(buf, w, h, (n - 1) as nat);
        lemma_row_cells_no_newline(buf, w, h, n - 1, cells_across(w));
        lemma_count_concat(prev, row);
        lemma_count_concat(prev + row, row_end());
        lemma_count_none(row_end().drop_last());
        assert(row_end().drop_last().drop_last().drop_last().drop_last().drop_last().len() == 0);
    }
}

/// A frame of height `h` gives exactly `ceil(h / 2)` text lines: as many line
/// breaks, the last character being one of them.
pub proof fn lemma_line_count(buf: Seq<u8>, w: nat, h: nat)
    ensures
        count_newlines(ansi_text(buf, w, h)) == (h + 1) / 2,
        h > 0 ==> ansi_text(buf, w, h).last() == '\n',
{
    lemma_frame_rows_lines(buf, w, h, rows_down(h));
}

/// Every grey colour goes to the grey ramp of the palette.
pub proof fn lemma_grey_quantizes_to_ramp(v: u8)
    ensures
        232 <= quantize(v, v, v) <= 252,
{
}

/// Pixel `k` of a packed RGB frame has equal red, green and blue.
pub open spec fn is_grey_pixel(buf: Seq<u8>, k: int) -> bool {
    buf[3 * k] == buf[3 * k + 1] && buf[3 * k + 1] == buf[3 * k + 2]
}

proof fn lemma_clamped_pixel_is_grey(buf: Seq<u8>, w: nat, h: nat, x: int, y: int)
    requires
        w > 0,
        h > 0,
        buf.len() == w * h * 3,
        x >= 0,
        y >= 0,
        forall|k: int| 0 <= k < w * h ==> #[trigger] is_grey_pixel(buf, k),
    ensures
        pixel_at(buf, w, h, x, y).0 == pixel_at(buf, w, h, x, y).1,
        pixel_at(buf, w, h, x, y).1 == pixel_at(buf, w, h, x, y).2,
{
    let cx = clamp_to(x, w as int);
    let cy = clamp_to(y, h as int);
    lemma_index_in_frame(w as int, h as int, cx, cy);
    assert(is_grey_pixel(buf, cy * w + cx));
}

/// In a frame whose every pixel is grey, every cell gets a palette entry of
/// the grey ramp, `232..=255`.
pub proof fn lemma_grey_frame_uses_ramp(buf: Seq<u8>, w: nat, h: nat, bx: int, by: int)
    requires
        w > 0,
        h > 0,
        buf.len() == w * h * 3,
        bx >= 0,
        by >= 0,
        forall|k: int| 0 <= k < w * h ==> #[trigger] is_grey_pixel(buf, k),
    ensures
        232 <= cell_color(buf, w, h, bx, by) <= 255,
{
    lemma_clamped_pixel_is_grey(buf, w, h, 2 * bx, 2 * by);
    lemma_clamped_pixel_is_grey(buf, w, h, 2 * bx + 1, 2 * by);
    lemma_clamped_pixel_is_grey(buf, w, h, 2 * bx, 2 * by + 1);
    lemma_clamped_pixel_is_grey(buf, w, h, 2 * bx + 1, 2 * by + 1);
}

/// The encoding depends on the frame's bytes and size alone: two encodings
/// of the same frame, whenever and in whatever order they are made, are the
/// same text.
pub proof fn lemma_encoding_deterministic(
    first_buf: Seq<u8>,
    second_buf: Seq<u8>,
    w: nat,
    h: nat,
    first: Seq<char>,
    second: Seq<char>,
)
    requires
        first_buf == second_buf,
        first == ansi_text(first_buf, w, h),
        second == ansi_text(second_buf, w, h),
    ensures
        first == second,
{
}

} // verus!
