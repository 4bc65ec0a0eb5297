use vdrm_emu::surface::{
    abs_i32, classify_quadrant, gen_pyramid_surface, pyramid_voxel, quadrant_color, Quadrant,
    Voxel,
};

#[test]
fn apex_column_is_highest_and_white() {
    let v = pyramid_voxel(32, 32).unwrap();
    assert_eq!(v, Voxel { x: 32, y: 32, z: 32, color: 0b111 });
}

#[test]
fn corner_column_is_excluded() {
    assert_eq!(pyramid_voxel(0, 0), None);
    assert_eq!(pyramid_voxel(63, 63), None);
}

#[test]
fn base_edge_has_zero_height() {
    assert_eq!(pyramid_voxel(0, 32), Some(Voxel { x: 0, y: 32, z: 0, color: 0b001 }));
    assert_eq!(pyramid_voxel(32, 0), Some(Voxel { x: 32, y: 0, z: 0, color: 0b101 }));
    assert_eq!(pyramid_voxel(2, 31), Some(Voxel { x: 2, y: 31, z: 1, color: 0b010 }));
}

#[test]
fn quadrants_are_boundary_inclusive() {
    assert_eq!(classify_quadrant(0, 0), Quadrant::PosPos);
    assert_eq!(classify_quadrant(-1, 0), Quadrant::NegPos);
    assert_eq!(classify_quadrant(-1, -1), Quadrant::NegNeg);
    assert_eq!(classify_quadrant(0, -1), Quadrant::PosNeg);
    assert_eq!(quadrant_color(classify_quadrant(0, 0)), 0b111);
    assert_eq!(quadrant_color(Quadrant::NegPos), 0b001);
    assert_eq!(quadrant_color(Quadrant::NegNeg), 0b010);
    assert_eq!(quadrant_color(Quadrant::PosNeg), 0b101);
}

#[test]
fn surface_heights_follow_the_pyramid() {
    let s = gen_pyramid_surface();
    for v in &s {
        let h = 32 - ((v.x as i32 - 32).abs() + (v.y as i32 - 32).abs());
        assert!(h >= 0);
        assert_eq!(v.z as i32, h);
        assert!(v.x < 64 && v.y < 64);
    }
}

#[test]
fn surface_has_one_voxel_per_base_column() {
    let s = gen_pyramid_surface();
    assert_eq!(s.len(), 2111);
    for w in s.windows(2) {
        assert!((w[0].x, w[0].y) < (w[1].x, w[1].y));
    }
    assert_eq!(s.iter().filter(|v| v.color == 0b111).count(), 559);
}

#[test]
fn surface_starts_and_ends_on_the_base_edge() {
    let s = gen_pyramid_surface();
    assert_eq!(s[0], Voxel { x: 0, y: 32, z: 0, color: 0b001 });
    assert_eq!(s[s.len() - 1], Voxel { x: 63, y: 33, z: 0, color: 0b111 });
}

#[test]
fn absolute_value() {
    assert_eq!(abs_i32(-5), 5);
    assert_eq!(abs_i32(7), 7);
    assert_eq!(abs_i32(0), 0);
}
