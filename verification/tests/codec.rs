use lcd_sim::graphics::Pixel;
use lcd_sim::merge;

#[test]
fn merge_combines_big_endian() {
    assert_eq!(merge(0x12, 0x34), 0x1234);
    assert_eq!(merge(0x00, 0x00), 0x0000);
    assert_eq!(merge(0xFF, 0xFF), 0xFFFF);
    assert_eq!(merge(0xAB, 0x00), 0xAB00);
}

#[test]
fn decode_b_known_words() {
    assert_eq!(Pixel::decode_b(0x0000), Pixel { r: 0, g: 0, b: 0 });
    assert_eq!(Pixel::decode_b(0xFFFF), Pixel { r: 248, g: 252, b: 248 });
    assert_eq!(Pixel::decode_b(0x1234), Pixel { r: 16, g: 68, b: 160 });
    // The device decodes RAMWR words with this layout.
    assert_eq!(Pixel::from(0x1234), Pixel::decode_b(0x1234));
}

#[test]
fn decode_a_known_words() {
    assert_eq!(Pixel::decode_a(0x0000), Pixel { r: 0, g: 0, b: 0 });
    assert_eq!(Pixel::decode_a(0xFFFF), Pixel { r: 15, g: 31, b: 15 });
    assert_eq!(Pixel::decode_a(0x1234), Pixel { r: 9, g: 3, b: 4 });
}

#[test]
fn decode_total_over_sample_of_words() {
    // Every 16-bit word decodes under both layouts; sweep a spread of values.
    let mut w: u32 = 0;
    while w <= 0xFFFF {
        let pa = Pixel::decode_a(w as u16);
        let pb = Pixel::decode_b(w as u16);
        // Channels stay within their bit-field ranges.
        assert!(pa.r <= 0x0F && pa.g <= 0x1F && pa.b <= 0x0F);
        assert!(pb.r <= 0xF8 && pb.g <= 0xFC && pb.b <= 0xF8);
        // Determinism: a second decode gives the same pixel.
        assert_eq!(pa, Pixel::decode_a(w as u16));
        assert_eq!(pb, Pixel::decode_b(w as u16));
        w += 7;
    }
}

#[test]
fn default_pixel_is_black() {
    assert_eq!(Pixel::default(), Pixel { r: 0, g: 0, b: 0 });
}
