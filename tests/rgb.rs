use pix::{Alpha, Ch16, Ch8, Channel, Opaque, Rgb, Rgb16, Rgb8, Rgba16, Rgba8, Translucent};

#[test]
fn check_sizes() {
    assert_eq!(std::mem::size_of::<Rgb8>(), 3);
    assert_eq!(std::mem::size_of::<Rgb16>(), 6);
    assert_eq!(std::mem::size_of::<Rgb<f32, Opaque<f32>>>(), 12);
    assert_eq!(std::mem::size_of::<Rgba8>(), 4);
    assert_eq!(std::mem::size_of::<Rgba16>(), 8);
    assert_eq!(std::mem::size_of::<Rgb<f32, Translucent<f32>>>(), 16);
}

#[test]
fn packed_integer() {
    let p = Rgba8::with_alpha(0x11u8, 0x22u8, 0x33u8, 0x44u8);
    assert_eq!(i32::from(p), 0x4433_2211);
    let q = Rgb8::new(0x11u8, 0x22u8, 0x33u8);
    assert_eq!(i32::from(q), 0xFF33_2211u32 as i32);
    let w = Rgba16::with_alpha(0x1111u16, 0x2222u16, 0x3333u16, 0x4444u16);
    assert_eq!(w.to_packed(), 0x4433_2211);
}

#[test]
fn new_and_accessors() {
    let p = Rgb8::new(1u8, 2u8, 3u8);
    assert_eq!(p.red(), Ch8::new(1));
    assert_eq!(p.green(), Ch8::new(2));
    assert_eq!(p.blue(), Ch8::new(3));
    assert_eq!(p.alpha().value(), Ch8::new(255));
    let t = Rgba8::new(1u8, 2u8, 3u8);
    assert_eq!(t.alpha().value(), Ch8::new(255));
    let a = Rgba8::with_alpha(1u8, 2u8, 3u8, 4u8);
    assert_eq!(a.alpha().value(), Ch8::new(4));
    let o = Rgb8::with_alpha(1u8, 2u8, 3u8, 4u8);
    assert_eq!(o.alpha().value(), Ch8::new(255));
}

#[test]
fn depth_conversion() {
    let p = Rgba8::with_alpha(0x12u8, 0x00u8, 0xFFu8, 0x80u8);
    let w: Rgba16 = p.convert();
    assert_eq!(w.red(), Ch16::new(0x1212));
    assert_eq!(w.green(), Ch16::new(0));
    assert_eq!(w.blue(), Ch16::new(0xFFFF));
    assert_eq!(w.alpha().value(), Ch16::new(0x8080));
    let back: Rgba8 = w.convert();
    assert_eq!(back, p);
    let n = Rgb16::new(0x807Fu16, 0x8080u16, 0x80FFu16);
    let m: Rgb8 = n.convert();
    assert_eq!(m.red(), Ch8::new(0x80));
    assert_eq!(m.green(), Ch8::new(0x80));
    assert_eq!(m.blue(), Ch8::new(0x80));
    let k = Rgb16::new(0x7Fu8, 0x80u8, 0x81u8);
    assert_eq!(k.red(), Ch16::new(0x7F7F));
    assert_eq!(pix::channel::convert::<u16, u8>(0x8100), 0x80);
    assert_eq!(pix::channel::convert::<u16, u8>(0x8101), 0x81);
    assert_eq!(<u8 as Channel>::max_value(), 255);
}

#[test]
fn alpha_round_trip() {
    let p = Rgb8::new(10u8, 20u8, 30u8);
    let t: Rgba8 = p.convert();
    assert_eq!(t.alpha().value(), Ch8::new(255));
    let q: Rgb8 = t.convert();
    assert_eq!(q, p);
    assert_eq!(q.alpha().value(), Ch8::new(255));
}

#[test]
fn translucent_to_opaque_drops_alpha() {
    let t = Rgba16::with_alpha(1u16, 2u16, 3u16, 4u16);
    let o: Rgb16 = t.convert();
    assert_eq!(o.red(), Ch16::new(1));
    assert_eq!(o.alpha().value(), Ch16::new(0xFFFF));
}

#[test]
fn conversions_commute() {
    let p = Rgba16::with_alpha(0x1234u16, 0xABCDu16, 0x0101u16, 0x7777u16);
    let a: Rgb8 = Rgb16::convert::<Ch16, Opaque<Ch16>>(p.convert()).convert();
    let b: Rgb8 = Rgba8::convert(p.convert());
    let c: Rgb8 = p.convert();
    assert_eq!(a, c);
    assert_eq!(b, c);
}
