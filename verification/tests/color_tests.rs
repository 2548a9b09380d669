use softrender::color::Color;

#[test]
fn hex_round_trip_samples() {
    for &h in &[0x000000u32, 0xFFFFFF, 0x123456, 0xC86432, 0x0000FF, 0x00FF00, 0xFF0000] {
        let c = Color::from_hex(h);
        assert_eq!(c.to_hex(), h);
    }
    let c = Color::new(0x12, 0x34, 0x56);
    assert_eq!(c.to_hex(), 0x123456);
    let d = Color::from_hex(0xC86432);
    assert_eq!((d.r, d.g, d.b), (0xC8, 0x64, 0x32));
}

#[test]
fn black_and_is_black() {
    let b = Color::black();
    assert!(b.is_black());
    assert!(!Color::new(0, 0, 1).is_black());
}

#[test]
fn lerp_endpoints() {
    let a = Color::new(10, 200, 45);
    let b = Color::new(255, 0, 128);
    assert_eq!(a.lerp(&b, 0), a);
    assert_eq!(a.lerp(&b, 65536), b);
    // clamping of the weight
    assert_eq!(a.lerp(&b, -500000), a);
    assert_eq!(a.lerp(&b, 500000), b);
}

#[test]
fn lerp_midpoint_rounds() {
    let a = Color::new(0, 0, 0);
    let b = Color::new(255, 255, 255);
    let m = a.lerp(&b, 32768);
    assert_eq!((m.r, m.g, m.b), (128, 128, 128));
}

#[test]
fn blend_multiply_values() {
    let a = Color::new(255, 128, 10);
    let white = Color::new(255, 255, 255);
    let m = a.blend_multiply(&white);
    assert_eq!((m.r, m.g, m.b), (255, 128, 10));
    let half = Color::new(128, 128, 128);
    let h = a.blend_multiply(&half);
    assert_eq!((h.r, h.g, h.b), (128, 64, 5));
}

#[test]
fn blend_screen_values() {
    let a = Color::new(10, 20, 30);
    let black = Color::new(0, 0, 0);
    assert_eq!(a.blend_screen(&black), a);
    let white = Color::new(255, 255, 255);
    let s = a.blend_screen(&white);
    assert_eq!((s.r, s.g, s.b), (255, 255, 255));
    let s2 = Color::new(128, 0, 255).blend_screen(&Color::new(128, 128, 0));
    assert_eq!((s2.r, s2.g, s2.b), (192, 128, 255));
}

#[test]
fn blend_add_saturates() {
    let a = Color::new(200, 100, 0);
    let b = Color::new(100, 100, 5);
    let s = a.blend_add(&b);
    assert_eq!((s.r, s.g, s.b), (255, 200, 5));
    let t = a.saturating_add(&b);
    assert_eq!(s, t);
}

#[test]
fn blend_subtract_black_is_noop() {
    let a = Color::new(12, 34, 56);
    assert_eq!(a.blend_subtract(&Color::black()), a);
    let d = a.blend_subtract(&Color::new(20, 10, 100));
    assert_eq!((d.r, d.g, d.b), (0, 24, 0));
}

#[test]
fn blend_normal_black_is_transparent() {
    let a = Color::new(12, 34, 56);
    let b = Color::new(1, 2, 3);
    assert_eq!(a.blend_normal(&Color::black()), a);
    assert_eq!(a.blend_normal(&b), b);
}

#[test]
fn blend_overlay_branches() {
    // dark base: multiply-like
    let dark = Color::new(64, 64, 64).blend_overlay(&Color::new(128, 0, 255));
    assert_eq!((dark.r, dark.g, dark.b), (64, 0, 128));
    // bright base: screen-like
    let bright = Color::new(200, 200, 200).blend_overlay(&Color::new(128, 0, 255));
    assert_eq!((bright.r, bright.g, bright.b), (201, 145, 255));
}

#[test]
fn scale_clamps() {
    let a = Color::new(100, 200, 255);
    let s = a.scale(131072); // times two
    assert_eq!((s.r, s.g, s.b), (200, 255, 255));
    let z = a.scale(0);
    assert_eq!((z.r, z.g, z.b), (0, 0, 0));
    let n = a.scale(-65536);
    assert_eq!((n.r, n.g, n.b), (0, 0, 0));
}

#[test]
fn blend_channels_stay_in_range_over_grid() {
    // Every blend result channel stays a channel, across a coarse
    // grid of operands and weights: nothing wraps or panics.
    let steps = [0u8, 1, 37, 127, 128, 200, 254, 255];
    for &x in &steps {
        for &y in &steps {
            let a = Color::new(x, y, x.wrapping_add(y));
            let b = Color::new(y, x, y.wrapping_sub(x));
            let _ = a.blend_normal(&b);
            let _ = a.blend_multiply(&b);
            let _ = a.blend_add(&b);
            let _ = a.blend_subtract(&b);
            let _ = a.blend_screen(&b);
            let _ = a.blend_overlay(&b);
            for &t in &[-65536i64, 0, 1, 32768, 65535, 65536, 131072] {
                let l = a.lerp(&b, t);
                let s = a.scale(t);
                // u8 channels are in range by construction; the calls
                // above must simply complete without panicking.
                let _ = (l.r, s.r);
            }
        }
    }
}
