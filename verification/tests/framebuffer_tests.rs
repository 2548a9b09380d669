use softrender::framebuffer::{blend_screen, Framebuffer, DEPTH_FAR};

#[test]
fn new_framebuffer_is_cleared() {
    let fb = Framebuffer::new(4, 3);
    assert_eq!(fb.width(), 4);
    assert_eq!(fb.height(), 3);
    assert_eq!(fb.buffer, vec![0u32; 12]);
    assert_eq!(fb.zbuffer, vec![DEPTH_FAR; 12]);
    assert_eq!(fb.emission_buffer, vec![0u32; 12]);
}

#[test]
fn clear_resets_all_three_planes() {
    let mut fb = Framebuffer::new(3, 3);
    fb.set_background_color(0x102030);
    fb.set_current_color(0xABCDEF);
    fb.point(1, 1, 5);
    fb.set_emission_color(2, 2, 0x010203);
    fb.clear();
    assert_eq!(fb.buffer, vec![0x102030u32; 9]);
    assert_eq!(fb.zbuffer, vec![DEPTH_FAR; 9]);
    assert_eq!(fb.emission_buffer, vec![0u32; 9]);
}

#[test]
fn depth_test_keeps_the_nearest_write() {
    let mut fb = Framebuffer::new(4, 4);
    fb.set_current_color(0x111111);
    fb.point(2, 1, 1000);
    assert_eq!(fb.buffer[1 * 4 + 2], 0x111111);
    assert_eq!(fb.zbuffer[1 * 4 + 2], 1000);
    // a farther depth must not overwrite
    fb.set_current_color(0x222222);
    fb.point(2, 1, 2000);
    assert_eq!(fb.buffer[1 * 4 + 2], 0x111111);
    assert_eq!(fb.zbuffer[1 * 4 + 2], 1000);
    // a nearer depth wins
    fb.point(2, 1, 500);
    assert_eq!(fb.buffer[1 * 4 + 2], 0x222222);
    assert_eq!(fb.zbuffer[1 * 4 + 2], 500);
}

#[test]
fn writing_the_same_pixel_twice_changes_nothing() {
    let mut fb = Framebuffer::new(4, 4);
    fb.set_current_color(0x335577);
    fb.point(1, 2, 12345);
    let colors = fb.buffer.clone();
    let depths = fb.zbuffer.clone();
    fb.point(1, 2, 12345);
    assert_eq!(fb.buffer, colors);
    assert_eq!(fb.zbuffer, depths);
}

#[test]
fn out_of_bounds_writes_are_silent_noops() {
    let mut fb = Framebuffer::new(2, 2);
    fb.set_current_color(0xFFFFFF);
    fb.point(2, 0, 0);
    fb.point(0, 2, 0);
    fb.point(100, 100, 0);
    fb.set_emission_color(5, 5, 0x123456);
    fb.point_emission(9, 9, 0);
    assert_eq!(fb.buffer, vec![0u32; 4]);
    assert_eq!(fb.emission_buffer, vec![0u32; 4]);
    assert_eq!(fb.zbuffer, vec![DEPTH_FAR; 4]);
}

#[test]
fn point_emission_shares_the_depth_test() {
    let mut fb = Framebuffer::new(2, 2);
    fb.set_current_color(0x00FF00);
    fb.point_emission(0, 0, 100);
    assert_eq!(fb.emission_buffer[0], 0x00FF00);
    assert_eq!(fb.zbuffer[0], 100);
    fb.set_current_color(0x0000FF);
    fb.point_emission(0, 0, 200);
    assert_eq!(fb.emission_buffer[0], 0x00FF00);
}

#[test]
fn bloom_with_zero_intensity_is_the_identity_on_colors() {
    let mut fb = Framebuffer::new(5, 5);
    fb.set_current_color(0x804020);
    fb.point(2, 2, 10);
    fb.set_current_color(0x123456);
    fb.point(4, 0, 10);
    fb.set_emission_color(1, 1, 0xFFFFFF);
    fb.set_emission_color(3, 3, 0x808080);
    let colors = fb.buffer.clone();
    fb.apply_emission(2, 0);
    assert_eq!(fb.buffer, colors);
    // and the emission plane was cleared for the next frame
    assert_eq!(fb.emission_buffer, vec![0u32; 25]);
}

#[test]
fn bloom_screens_full_emission_to_white() {
    let mut fb = Framebuffer::new(1, 1);
    fb.set_emission_color(0, 0, 0xFFFFFF);
    fb.apply_emission(0, 65536);
    assert_eq!(fb.buffer[0], 0xFFFFFF);
}

#[test]
fn bloom_averages_over_the_neighborhood() {
    // a single bright emissive pixel in a 3x1 strip, radius 1:
    // the center pixel averages over all three columns.
    let mut fb = Framebuffer::new(3, 1);
    fb.set_emission_color(1, 0, 0x0000FF);
    fb.apply_emission(1, 65536);
    // center: avg blue = 255/3 = 85 over black base -> 85
    assert_eq!(fb.buffer[1], 85);
    // edges average over two columns: 255/2 = 127
    assert_eq!(fb.buffer[0], 127);
    assert_eq!(fb.buffer[2], 127);
}

#[test]
fn screen_blend_of_packed_colors() {
    assert_eq!(blend_screen(0xFF0000, 0x00FF00), 0xFFFF00);
    assert_eq!(blend_screen(0x123456, 0x000000), 0x123456);
    assert_eq!(blend_screen(0x000000, 0xABCDEF), 0xABCDEF);
    assert_eq!(blend_screen(0xFFFFFF, 0xFFFFFF), 0xFFFFFF);
}

#[test]
fn draw_line_paints_the_diagonal_short_of_the_end() {
    let mut fb = Framebuffer::new(10, 10);
    fb.draw_line(0, 0, 9, 9, 0x00FF00);
    for i in 0..9 {
        assert_eq!(fb.buffer[i * 10 + i], 0x00FF00, "diagonal pixel {} unset", i);
    }
    // the walk stops before the end point: (9, 9) stays untouched
    assert_eq!(fb.buffer[9 * 10 + 9], 0);
    // depth plane untouched
    assert_eq!(fb.zbuffer, vec![DEPTH_FAR; 100]);
}

#[test]
fn draw_line_horizontal_and_out_of_bounds() {
    let mut fb = Framebuffer::new(4, 4);
    fb.draw_line(0, 1, 3, 1, 0xFF0000);
    for x in 0..3 {
        assert_eq!(fb.buffer[1 * 4 + x], 0xFF0000);
    }
    // the end point pixel is not painted
    assert_eq!(fb.buffer[1 * 4 + 3], 0);
    // a segment reaching outside the buffer only paints what is inside
    let mut fb2 = Framebuffer::new(2, 2);
    fb2.draw_line(0, 0, 10, 0, 0x0000FF);
    assert_eq!(fb2.buffer[0], 0x0000FF);
    assert_eq!(fb2.buffer[1], 0x0000FF);
    assert_eq!(fb2.buffer[2], 0);
    assert_eq!(fb2.buffer[3], 0);
}

#[test]
fn draw_line_of_zero_length_paints_nothing() {
    let mut fb = Framebuffer::new(4, 4);
    fb.draw_line(2, 2, 2, 2, 0xFFFFFF);
    assert_eq!(fb.buffer, vec![0u32; 16]);
}

#[test]
fn draw_line_follows_the_error_accumulator_walk() {
    let mut fb = Framebuffer::new(8, 8);
    fb.draw_line(0, 0, 5, 2, 0xABCDEF);
    let painted = [(0usize, 0usize), (1, 0), (2, 1), (3, 1), (4, 2)];
    for y in 0..8 {
        for x in 0..8 {
            let expected = if painted.contains(&(x, y)) { 0xABCDEF } else { 0 };
            assert_eq!(fb.buffer[y * 8 + x], expected, "pixel ({}, {})", x, y);
        }
    }
}

#[test]
fn bloom_accepts_any_radius() {
    // a radius far beyond the plane behaves like a full-plane window
    let mut fb = Framebuffer::new(3, 1);
    fb.set_emission_color(1, 0, 0x0000FF);
    fb.apply_emission(10000, 65536);
    for x in 0..3 {
        assert_eq!(fb.buffer[x], 85);
    }
}
