use bifrost::gamut::{ColorGamut, XY};

/// The fixed-point value of a unit-interval coordinate, rounded half
/// away from zero, as the wire format defines it.
fn fixed(v: f64) -> u16 {
    (v * 65535.0).round().clamp(0.0, 65535.0) as u16
}

#[test]
fn gamut_c_preset_values() {
    let g = ColorGamut::gamut_c();
    assert_eq!(g.red, XY { x: fixed(0.6915), y: fixed(0.3083) });
    assert_eq!(g.green, XY { x: fixed(0.17), y: fixed(0.7) });
    assert_eq!(g.blue, XY { x: fixed(0.1532), y: fixed(0.0475) });
    assert_eq!(g.red, XY { x: 45317, y: 20204 });
}

#[test]
fn vertices_and_center_are_inside() {
    let g = ColorGamut::gamut_c();
    assert!(g.inside(g.red));
    assert!(g.inside(g.green));
    assert!(g.inside(g.blue));
    let center = XY {
        x: ((g.red.x as u32 + g.green.x as u32 + g.blue.x as u32) / 3) as u16,
        y: ((g.red.y as u32 + g.green.y as u32 + g.blue.y as u32) / 3) as u16,
    };
    assert!(g.inside(center));
}

#[test]
fn corners_of_the_plane_are_outside() {
    let g = ColorGamut::gamut_c();
    for p in [
        XY { x: 0, y: 0 },
        XY { x: 65535, y: 0 },
        XY { x: 0, y: 65535 },
        XY { x: 65535, y: 65535 },
    ] {
        assert!(!g.inside(p));
    }
}

#[test]
fn clamp_keeps_inside_points_unchanged() {
    let g = ColorGamut::gamut_c();
    let center = XY { x: 22166, y: 23064 };
    assert!(g.inside(center));
    assert_eq!(g.clamp(center), center);
    assert_eq!(g.clamp(g.red), g.red);
    assert_eq!(g.clamp(g.green), g.green);
    assert_eq!(g.clamp(g.blue), g.blue);
}

#[test]
fn clamped_outside_points_land_inside() {
    let g = ColorGamut::gamut_c();
    for p in [
        XY { x: 0, y: 0 },
        XY { x: 65535, y: 0 },
        XY { x: 0, y: 65535 },
        XY { x: 65535, y: 65535 },
        XY { x: 60000, y: 60000 },
        XY { x: 1, y: 30000 },
        XY { x: 30000, y: 1 },
    ] {
        let q = g.clamp(p);
        // Verified containment, checked here through the same public
        // orientation test the mapper uses.
        assert!(g.inside(q));
        assert_ne!(q, p);
    }
}

#[test]
fn clamp_is_deterministic() {
    let g = ColorGamut::gamut_c();
    let p = XY { x: 65535, y: 65535 };
    assert_eq!(g.clamp(p), g.clamp(p));
}

#[test]
fn clamp_moves_toward_the_nearest_edge() {
    let g = ColorGamut::gamut_c();
    // Just below the blue vertex: the nearest triangle point is at or
    // near the blue vertex itself.
    let p = XY { x: g.blue.x, y: 0 };
    let q = g.clamp(p);
    let dx = q.x as i64 - p.x as i64;
    let dy = q.y as i64 - p.y as i64;
    let d2 = dx * dx + dy * dy;
    let bx = g.blue.x as i64 - p.x as i64;
    let by = g.blue.y as i64 - p.y as i64;
    let blue_d2 = bx * bx + by * by;
    assert!(d2 <= blue_d2);
}

#[test]
fn clamp_of_origin_snaps_to_blue() {
    // For the origin, the projections onto both edges that meet at the
    // blue primary clamp to that vertex, and every other candidate is
    // farther away.
    let g = ColorGamut::gamut_c();
    assert_eq!(g.clamp(XY { x: 0, y: 0 }), g.blue);
}

#[test]
fn degenerate_triangle_accepts_every_point() {
    // With all three primaries equal, every cross product is zero, so
    // the orientation test holds everywhere and clamping changes
    // nothing.
    let p = XY { x: 100, y: 100 };
    let g = ColorGamut { red: p, green: p, blue: p };
    let far = XY { x: 0, y: 65535 };
    assert!(g.inside(far));
    assert_eq!(g.clamp(far), far);
}
