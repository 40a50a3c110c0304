use vstd::prelude::*;

verus! {

/// The 16x16 silhouette of the tray icon, one row per entry, the most
/// significant bit being the leftmost pixel.
pub open spec fn icon_background() -> Seq<u16> {
    seq![
        0x0ff0u16, 0x3ffc, 0x7ffe, 0xffff, 0xffff, 0xffff, 0xffff, 0xffff,
        0xffff, 0xffff, 0xffff, 0xffff, 0xffff, 0x7ffe, 0x3ffc, 0x0ff0,
    ]
}

/// The glyph (a "C") drawn in white over the silhouette, laid out as
/// `icon_background`.
pub open spec fn icon_glyph() -> Seq<u16> {
    seq![
        0x0000u16, 0x0000, 0x0000, 0x0000, 0x07e0, 0x0c00, 0x0c00, 0x0c00,
        0x0c00, 0x0c00, 0x07e0, 0x0000, 0x0000, 0x0000, 0x0000, 0x0000,
    ]
}

/// Pixel `column` (0 = leftmost) of a 16-pixel row is set.
pub open spec fn pixel_set(row: u16, column: int) -> bool {
    row & (1u16 << ((15 - column) as u16)) != 0
}

/// Colour of a glyph pixel: opaque white, in blue-green-red-reserved order.
pub open spec fn glyph_color() -> Seq<u8> {
    seq![0xffu8, 0xff, 0xff, 0x00]
}

/// Colour of a silhouette pixel outside the glyph.
pub open spec fn background_color() -> Seq<u8> {
    seq![0xebu8, 0x63, 0x25, 0x00]
}

/// Colour of a pixel that is not drawn.
pub open spec fn blank_color() -> Seq<u8> {
    seq![0u8, 0, 0, 0]
}

/// The colour of pixel (`row`, `column`) of the icon, rows counted from the
/// top.
pub open spec fn pixel_color(row: int, column: int) -> Seq<u8> {
    if pixel_set(icon_glyph()[row], column) {
        glyph_color()
    } else if pixel_set(icon_background()[row], column) {
        background_color()
    } else {
        blank_color()
    }
}

/// Byte `i` of the 32-bit colour bitmap, which stores its rows bottom-up,
/// four bytes per pixel.
pub open spec fn color_byte(i: int) -> u8 {
    let pixel = i / 4;
    pixel_color(15 - pixel / 16, pixel % 16)[i % 4]
}

/// Byte `i` of the AND mask, which stores its rows top-down, two bytes per
/// row (high byte first); a set bit marks a transparent pixel.
pub open spec fn and_mask_byte(i: int) -> u8 {
    let inverted = !icon_background()[i / 2];
    if i % 2 == 0 {
        (inverted >> 8u16) as u8
    } else {
        (inverted & 0xffu16) as u8
    }
}

/// The two bitmaps from which the tray icon is made.
pub struct IconBitmaps {
    /// 16 rows of 2 bytes, top-down: the transparency mask.
    pub and_mask: Vec<u8>,
    /// 16 rows of 16 pixels of 4 bytes, bottom-up: the colours.
    pub color: Vec<u8>,
}

/// Row `row` of the silhouette.
fn background_row(row: usize) -> (bits: u16)
    requires
        row < 16,
    ensures
        bits == icon_background()[row as int],
{
    let rows: [u16; 16] = [
        0x0ff0, 0x3ffc, 0x7ffe, 0xffff, 0xffff, 0xffff, 0xffff, 0xffff,
        0xffff, 0xffff, 0xffff, 0xffff, 0xffff, 0x7ffe, 0x3ffc, 0x0ff0,
    ];
    assert(rows@ =~= icon_background());
    rows[row]
}

/// Row `row` of the glyph.
fn glyph_row(row: usize) -> (bits: u16)
    requires
        row < 16,
    ensures
        bits == icon_glyph()[row as int],
{
    let rows: [u16; 16] = [
        0x0000, 0x0000, 0x0000, 0x0000, 0x07e0, 0x0c00, 0x0c00, 0x0c00,
        0x0c00, 0x0c00, 0x07e0, 0x0000, 0x0000, 0x0000, 0x0000, 0x0000,
    ];
    assert(rows@ =~= icon_glyph());
    rows[row]
}

/// Appends the four colour bytes of pixel (`source_row`, `column`).
fn push_pixel(color: &mut Vec<u8>, source_row: usize, column: usize)
    requires
        source_row < 16,
        column < 16,
    ensures
        final(color)@ == old(color)@ + pixel_color(source_row as int, column as int),
{
    let bit: u16 = 1u16 << ((15 - column) as u16);
    if glyph_row(source_row) & bit != 0 {
        color.push(0xff);
        color.push(0xff);
        color.push(0xff);
        color.push(0x00);
        assert(final(color)@ =~= old(color)@ + glyph_color());
    } else if background_row(source_row) & bit != 0 {
        color.push(0xeb);
        color.push(0x63);
        color.push(0x25);
        color.push(0x00);
        assert(final(color)@ =~= old(color)@ + background_color());
    } else {
        color.push(0);
        color.push(0);
        color.push(0);
        color.push(0);
        assert(final(color)@ =~= old(color)@ + blank_color());
    }
}

/// The transparency mask and the colour bitmap of the tray icon.
pub fn tray_icon_bitmaps() -> (bitmaps: IconBitmaps)
    ensures
        bitmaps.and_mask@.len() == 32,
        forall|i: int| 0 <= i < 32 ==> bitmaps.and_mask@[i] == and_mask_byte(i),
        bitmaps.color@.len() == 1024,
        forall|i: int| 0 <= i < 1024 ==> bitmaps.color@[i] == color_byte(i),
{
    let mut and_mask: Vec<u8> = Vec::new();
    let mut row: usize = 0;
    while row < 16
        invariant
            row <= 16,
            and_mask@.len() == 2 * row,
            forall|i: int| 0 <= i < 2 * row ==> and_mask@[i] == and_mask_byte(i),
        decreases 16 - row,
    {
        let inverted: u16 = !background_row(row);
        and_mask.push((inverted >> 8u16) as u8);
        and_mask.push((inverted & 0xffu16) as u8);
        row = row + 1;
    }
    let mut color: Vec<u8> = Vec::new();
    let mut pixel: usize = 0;
    while pixel < 256
        invariant
            pixel <= 256,
            color@.len() == 4 * pixel,
            forall|i: int| 0 <= i < 4 * pixel ==> color@[i] == color_byte(i),
        decreases 256 - pixel,
    {
        let bitmap_row: usize = pixel / 16;
        let column: usize = pixel % 16;
        let ghost before = color@;
        push_pixel(&mut color, 15 - bitmap_row, column);
        assert forall|i: int| 0 <= i < 4 * (pixel + 1) implies color@[i] == color_byte(i) by {
            if i >= 4 * pixel {
                assert(i / 4 == pixel);
                assert(color@[i] == pixel_color((15 - bitmap_row) as int, column as int)[i - 4 * pixel]);
            } else {
                assert(color@[i] == before[i]);
            }
        }
        pixel = pixel + 1;
    }
    IconBitmaps { and_mask, color }
}

/// Bit (`row`, `column`) of the AND mask is set: the pixel is transparent.
pub open spec fn and_mask_bit(row: int, column: int) -> bool {
    (and_mask_byte(2 * row + column / 8) >> ((7 - column % 8) as u8)) & 1u8 == 1u8
}

proof fn lemma_inverted_byte_bit(x: u16, s: u16)
    by (bit_vector)
    requires
        s < 16,
    ensures
        s >= 8 ==> ((((((!x) >> 8u16) as u8) >> ((s - 8) as u8)) & 1u8 == 1u8) == (x & (1u16
            << s) == 0)),
        s < 8 ==> ((((((!x) & 0xffu16) as u8) >> (s as u8)) & 1u8 == 1u8) == (x & (1u16 << s)
            == 0)),
{
}

proof fn lemma_bit_subset(g: u16, b: u16, m: u16)
    by (bit_vector)
    requires
        g & !b == 0,
        g & m != 0,
    ensures
        b & m != 0,
{
}

/// Every pixel of the glyph lies inside the silhouette.
pub proof fn lemma_glyph_within_background(row: int, column: int)
    requires
        0 <= row < 16,
        0 <= column < 16,
    ensures
        pixel_set(icon_glyph()[row], column) ==> pixel_set(icon_background()[row], column),
{
    assert(0x0000u16 & !0x0ff0u16 == 0 && 0x0000u16 & !0x3ffcu16 == 0 && 0x0000u16 & !0x7ffeu16 == 0
        && 0x0000u16 & !0xffffu16 == 0 && 0x07e0u16 & !0xffffu16 == 0 && 0x0c00u16 & !0xffffu16 == 0)
        by (bit_vector);
    let g = icon_glyph()[row];
    let b = icon_background()[row];
    assert(g & !b == 0);
    if pixel_set(g, column) {
        lemma_bit_subset(g, b, 1u16 << ((15 - column) as u16));
    }
}

/// The icon is transparent exactly where nothing is drawn: bit (`row`,
/// `column`) of the AND mask is set if and only if the colour bitmap holds
/// no colour for that pixel (which it stores `15 - row` rows from the
/// bottom).
pub proof fn lemma_transparent_exactly_where_blank(row: int, column: int)
    requires
        0 <= row < 16,
        0 <= column < 16,
    ensures
        and_mask_bit(row, column) <==> pixel_color(row, column) == blank_color(),
        and_mask_bit(row, column) <==> color_byte(4 * (16 * (15 - row) + column)) == 0
            && color_byte(4 * (16 * (15 - row) + column) + 1) == 0
            && color_byte(4 * (16 * (15 - row) + column) + 2) == 0,
{
    let s = (15 - column) as u16;
    let b = icon_background()[row];
    lemma_inverted_byte_bit(b, s);
    lemma_glyph_within_background(row, column);
    if column < 8 {
        assert((2 * row + column / 8) / 2 == row);
        assert((2 * row + column / 8) % 2 == 0);
        assert((7 - column % 8) as u8 == (s - 8) as u8);
    } else {
        assert((2 * row + column / 8) / 2 == row);
        assert((2 * row + column / 8) % 2 == 1);
        assert((7 - column % 8) as u8 == s as u8);
    }
    assert(glyph_color() != blank_color()) by {
        assert(glyph_color()[0] != blank_color()[0]);
    }
    assert(background_color() != blank_color()) by {
        assert(background_color()[0] != blank_color()[0]);
    }
    let p = 16 * (15 - row) + column;
    assert((4 * p) / 4 == p && (4 * p + 1) / 4 == p && (4 * p + 2) / 4 == p);
    assert(p / 16 == 15 - row && p % 16 == column);
}

proof fn lemma_bit_msb_first(x: u16, s: u16)
    by (bit_vector)
    requires
        s < 16,
    ensures
        (x & (1u16 << s) != 0) == ((x >> s) & 1u16 == 1u16),
{
}

/// Pixel columns run from the most significant bit: column `c` of a row is
/// bit `15 - c`.
pub proof fn lemma_pixel_bit_order(row: u16, column: int)
    requires
        0 <= column < 16,
    ensures
        pixel_set(row, column) <==> (row >> ((15 - column) as u16)) & 1u16 == 1u16,
{
    lemma_bit_msb_first(row, (15 - column) as u16);
}

/// The colour bitmap holds pixel (`row`, `column`) (rows counted from the
/// top) in bytes `4 * (16 * (15 - row) + column)` onwards: white where the
/// glyph is, orange on the rest of the silhouette, zero elsewhere.
pub proof fn lemma_color_layout(row: int, column: int, k: int)
    requires
        0 <= row < 16,
        0 <= column < 16,
        0 <= k < 4,
    ensures
        color_byte(4 * (16 * (15 - row) + column) + k) == pixel_color(row, column)[k],
        pixel_color(row, column) == glyph_color() <==> pixel_set(icon_glyph()[row], column),
        pixel_color(row, column) == background_color() <==> (!pixel_set(icon_glyph()[row], column)
            && pixel_set(icon_background()[row], column)),
{
    let p = 16 * (15 - row) + column;
    assert((4 * p + k) / 4 == p && (4 * p + k) % 4 == k);
    assert(p / 16 == 15 - row && p % 16 == column);
    assert(glyph_color() != background_color()) by {
        assert(glyph_color()[0] != background_color()[0]);
    }
    assert(glyph_color() != blank_color()) by {
        assert(glyph_color()[0] != blank_color()[0]);
    }
    assert(background_color() != blank_color()) by {
        assert(background_color()[0] != blank_color()[0]);
    }
}

} // verus!
