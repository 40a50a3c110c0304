use missing_ctrl::icon::tray_icon_bitmaps;

const BACKGROUND: [u16; 16] = [
    0x0ff0, 0x3ffc, 0x7ffe, 0xffff, 0xffff, 0xffff, 0xffff, 0xffff, 0xffff, 0xffff, 0xffff,
    0xffff, 0xffff, 0x7ffe, 0x3ffc, 0x0ff0,
];

fn pixel(color: &[u8], source_row: usize, column: usize) -> [u8; 4] {
    let start = ((15 - source_row) * 16 + column) * 4;
    [color[start], color[start + 1], color[start + 2], color[start + 3]]
}

#[test]
fn and_mask_is_inverted_background() {
    let bitmaps = tray_icon_bitmaps();
    assert_eq!(bitmaps.and_mask.len(), 32);
    assert_eq!(&bitmaps.and_mask[0..2], &[0xf0, 0x0f]);
    assert_eq!(&bitmaps.and_mask[2..4], &[0xc0, 0x03]);
    assert_eq!(&bitmaps.and_mask[6..8], &[0x00, 0x00]);
    for (row, background) in BACKGROUND.iter().enumerate() {
        assert_eq!(&bitmaps.and_mask[row * 2..row * 2 + 2], &(!background).to_be_bytes());
    }
}

#[test]
fn color_pixels() {
    let bitmaps = tray_icon_bitmaps();
    assert_eq!(bitmaps.color.len(), 1024);
    // Corner outside the silhouette.
    assert_eq!(pixel(&bitmaps.color, 0, 0), [0, 0, 0, 0]);
    // First silhouette pixel of the top row.
    assert_eq!(pixel(&bitmaps.color, 0, 4), [0xeb, 0x63, 0x25, 0x00]);
    // Glyph pixel: row 4 is 0x07e0, so columns 5..=10 are white.
    assert_eq!(pixel(&bitmaps.color, 4, 5), [0xff, 0xff, 0xff, 0x00]);
    assert_eq!(pixel(&bitmaps.color, 4, 4), [0xeb, 0x63, 0x25, 0x00]);
    assert_eq!(pixel(&bitmaps.color, 7, 4), [0xff, 0xff, 0xff, 0x00]);
    // The top source row is the last row of the bottom-up bitmap.
    assert_eq!(&bitmaps.color[960 + 16..960 + 20], &[0xeb, 0x63, 0x25, 0x00]);
}

#[test]
fn transparent_exactly_where_blank() {
    let bitmaps = tray_icon_bitmaps();
    for row in 0..16 {
        for column in 0..16 {
            let byte = bitmaps.and_mask[row * 2 + column / 8];
            let transparent = (byte >> (7 - column % 8)) & 1 == 1;
            let blank = pixel(&bitmaps.color, row, column) == [0, 0, 0, 0];
            assert_eq!(transparent, blank, "row {row} column {column}");
        }
    }
}
