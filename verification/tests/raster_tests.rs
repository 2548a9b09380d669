use softrender::color::Color;
use softrender::fixed::FX_ONE;
use softrender::geometry::{Vec2, Vec3};
use softrender::triangle::triangle;
use softrender::vertex::Vertex;

fn screen_vertex(x: i64, y: i64, depth: i64, color: Color) -> Vertex {
    let mut v = Vertex::new(
        Vec3 { x, y, z: depth },
        Vec3 { x: 0, y: 0, z: FX_ONE },
        Vec2 { x: 0, y: 0 },
        color,
    );
    v.transformed_position = Vec3 { x, y, z: depth };
    v
}

#[test]
fn right_triangle_covers_exactly_the_lattice_points() {
    let c = Color::new(90, 90, 90);
    let v1 = screen_vertex(0, 0, 0, c);
    let v2 = screen_vertex(10 * FX_ONE, 0, 0, c);
    let v3 = screen_vertex(0, 10 * FX_ONE, 0, c);
    let frags = triangle(&v1, &v2, &v3, 20, 20);
    let mut seen = [[false; 20]; 20];
    for f in &frags {
        let x = (f.position.x / FX_ONE) as usize;
        let y = (f.position.y / FX_ONE) as usize;
        assert!(x + y <= 10, "fragment outside the triangle at ({}, {})", x, y);
        seen[y][x] = true;
    }
    for y in 0..20 {
        for x in 0..20 {
            let inside = x + y <= 10;
            assert_eq!(seen[y][x], inside, "coverage mismatch at ({}, {})", x, y);
        }
    }
    assert_eq!(frags.len(), 66);
}

#[test]
fn winding_does_not_change_coverage() {
    let c = Color::new(1, 2, 3);
    let v1 = screen_vertex(0, 0, 0, c);
    let v2 = screen_vertex(10 * FX_ONE, 0, 0, c);
    let v3 = screen_vertex(0, 10 * FX_ONE, 0, c);
    let a = triangle(&v1, &v2, &v3, 16, 16);
    let b = triangle(&v1, &v3, &v2, 16, 16);
    assert_eq!(a.len(), b.len());
    assert_eq!(a.len(), 66);
}

#[test]
fn collinear_triangle_produces_no_fragments() {
    let c = Color::new(5, 5, 5);
    let v1 = screen_vertex(0, 0, 0, c);
    let v2 = screen_vertex(5 * FX_ONE, 5 * FX_ONE, 0, c);
    let v3 = screen_vertex(10 * FX_ONE, 10 * FX_ONE, 0, c);
    let frags = triangle(&v1, &v2, &v3, 20, 20);
    assert_eq!(frags.len(), 0);
}

#[test]
fn coverage_is_clipped_to_the_buffer() {
    let c = Color::new(7, 7, 7);
    let v1 = screen_vertex(-5 * FX_ONE, -5 * FX_ONE, 0, c);
    let v2 = screen_vertex(30 * FX_ONE, -5 * FX_ONE, 0, c);
    let v3 = screen_vertex(-5 * FX_ONE, 30 * FX_ONE, 0, c);
    let frags = triangle(&v1, &v2, &v3, 4, 4);
    // the whole 4x4 buffer lies inside this big triangle
    assert_eq!(frags.len(), 16);
    for f in &frags {
        let x = f.position.x / FX_ONE;
        let y = f.position.y / FX_ONE;
        assert!((0..4).contains(&x) && (0..4).contains(&y));
    }
}

#[test]
fn centroid_interpolates_the_three_corner_colors() {
    // the centroid of (0,0), (9,0), (0,9) is exactly the pixel (3,3)
    let v1 = screen_vertex(0, 0, 0, Color::new(255, 0, 0));
    let v2 = screen_vertex(9 * FX_ONE, 0, 0, Color::new(0, 255, 0));
    let v3 = screen_vertex(0, 9 * FX_ONE, 0, Color::new(0, 0, 255));
    let frags = triangle(&v1, &v2, &v3, 20, 20);
    let mut found = false;
    for f in &frags {
        if f.position.x == 3 * FX_ONE && f.position.y == 3 * FX_ONE {
            found = true;
            for ch in [f.color.r, f.color.g, f.color.b] {
                assert!(
                    (84..=86).contains(&ch),
                    "centroid channel {} not near 85",
                    ch
                );
            }
        }
    }
    assert!(found, "no fragment at the centroid pixel");
}

#[test]
fn equal_corner_attributes_interpolate_exactly() {
    let c = Color::new(200, 100, 50);
    let v1 = screen_vertex(2 * FX_ONE, 2 * FX_ONE, 32768, c);
    let v2 = screen_vertex(8 * FX_ONE, 2 * FX_ONE, 32768, c);
    let v3 = screen_vertex(2 * FX_ONE, 8 * FX_ONE, 32768, c);
    let frags = triangle(&v1, &v2, &v3, 16, 16);
    assert!(!frags.is_empty());
    for f in &frags {
        assert_eq!(f.color, c);
        assert_eq!(f.depth, 32768);
        assert_eq!(f.intensity, FX_ONE);
    }
}

#[test]
fn line_spans_the_longer_axis() {
    let c = Color::new(0, 0, 0);
    let a = screen_vertex(0, 0, 0, c);
    let b = screen_vertex(5 * FX_ONE, 2 * FX_ONE, FX_ONE, c);
    let frags = softrender::line::line(&a, &b);
    assert_eq!(frags.len(), 6);
    // the error-accumulator walk of (0,0) -> (5,2)
    let expected = [(0i64, 0i64), (1, 0), (2, 1), (3, 1), (4, 2), (5, 2)];
    for (f, &(ex, ey)) in frags.iter().zip(expected.iter()) {
        assert_eq!((f.position.x, f.position.y), (ex * FX_ONE, ey * FX_ONE));
    }
    // depth interpolates from start to end
    assert_eq!(frags[0].depth, 0);
    assert_eq!(frags[5].depth, FX_ONE);
    for f in &frags {
        assert_eq!(f.color, Color::new(255, 255, 255));
    }
}

#[test]
fn line_of_a_single_point() {
    let c = Color::new(0, 0, 0);
    let a = screen_vertex(3 * FX_ONE, 4 * FX_ONE, 10, c);
    let frags = softrender::line::line(&a, &a);
    assert_eq!(frags.len(), 1);
    assert_eq!(frags[0].position.x, 3 * FX_ONE);
    assert_eq!(frags[0].position.y, 4 * FX_ONE);
}
