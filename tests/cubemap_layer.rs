use planetgen::{CubeMapDataLayer, CubeMapFace};

const FACES: [CubeMapFace; 6] = [
    CubeMapFace::PX,
    CubeMapFace::PY,
    CubeMapFace::PZ,
    CubeMapFace::NX,
    CubeMapFace::NY,
    CubeMapFace::NZ,
];

#[test]
fn new_layer_is_filled_with_initial_value() {
    let layer: CubeMapDataLayer<f64> = CubeMapDataLayer::new(16, 2.5);
    assert_eq!(layer.res(), 16);
    for face in FACES.iter() {
        for y in 0..16 {
            for x in 0..16 {
                assert_eq!(layer.get_pixel(face, x, y), 2.5);
            }
        }
    }
}

#[test]
fn empty_layer_has_no_cells() {
    let mut layer: CubeMapDataLayer<u8> = CubeMapDataLayer::new(0, 1);
    assert_eq!(layer.res(), 0);
    assert_eq!(layer.get_mutable_face(&CubeMapFace::NY).len(), 0);
}

#[test]
fn set_pixel_then_point_read_at_same_pixel() {
    let mut layer: CubeMapDataLayer<f64> = CubeMapDataLayer::new(128, 0.0);
    for face in FACES.iter() {
        layer.set_pixel(face, 32, 32, 123.0);
        layer.set_pixel(face, 31, 32, 64.0);
        layer.set_pixel(face, 32, 31, 64.0);
        layer.set_pixel(face, 31, 31, 64.0);
        layer.set_pixel(face, 33, 32, 64.0);
        layer.set_pixel(face, 32, 33, 64.0);
        layer.set_pixel(face, 33, 33, 64.0);
        assert_eq!(layer.get_clamped(face, 32, 32).round(), 123.0);
        assert_eq!(layer.get_pixel(face, 32, 32), 123.0);
        assert_eq!(layer.get_pixel(face, 31, 31), 64.0);
    }
}

#[test]
fn set_pixel_leaves_other_faces_alone() {
    let mut layer: CubeMapDataLayer<i32> = CubeMapDataLayer::new(4, 0);
    layer.set_pixel(&CubeMapFace::NX, 3, 2, 9);
    assert_eq!(layer.get_pixel(&CubeMapFace::NX, 3, 2), 9);
    for face in FACES.iter() {
        if *face != CubeMapFace::NX {
            assert_eq!(layer.get_pixel(face, 3, 2), 0);
        }
    }
    assert_eq!(layer.get_mutable_face(&CubeMapFace::NX)[2 * 4 + 3], 9);
}

#[test]
fn get_pixel_caps_index_at_last_cell() {
    let mut layer: CubeMapDataLayer<usize> = CubeMapDataLayer::new(4, 0);
    {
        let cells = layer.get_mutable_face(&CubeMapFace::PZ);
        for (i, c) in cells.iter_mut().enumerate() {
            *c = i;
        }
    }
    assert_eq!(layer.get_pixel(&CubeMapFace::PZ, 1, 2), 9);
    assert_eq!(layer.get_pixel(&CubeMapFace::PZ, 5, 0), 5);
    assert_eq!(layer.get_pixel(&CubeMapFace::PZ, 0, 4), 15);
    assert_eq!(layer.get_pixel(&CubeMapFace::PZ, 7, 3), 15);
    assert_eq!(layer.get_pixel(&CubeMapFace::PZ, usize::MAX, usize::MAX), 15);
}

#[test]
fn point_read_clamps_each_axis() {
    let mut layer: CubeMapDataLayer<usize> = CubeMapDataLayer::new(4, 0);
    {
        let cells = layer.get_mutable_face(&CubeMapFace::PY);
        for (i, c) in cells.iter_mut().enumerate() {
            *c = i;
        }
    }
    assert_eq!(layer.get_clamped(&CubeMapFace::PY, -1, -5), 0);
    assert_eq!(layer.get_clamped(&CubeMapFace::PY, 4, 0), 3);
    assert_eq!(layer.get_clamped(&CubeMapFace::PY, 2, 9), 14);
    assert_eq!(layer.get_clamped(&CubeMapFace::PY, 1, 1), 5);
}

#[test]
fn out_of_bounds_checks_both_axes() {
    let layer: CubeMapDataLayer<u8> = CubeMapDataLayer::new(8, 0);
    assert!(!layer.is_out_of_bounds(0, 0));
    assert!(!layer.is_out_of_bounds(7, 7));
    assert!(layer.is_out_of_bounds(8, 0));
    assert!(layer.is_out_of_bounds(0, 8));
    assert!(layer.is_out_of_bounds(-1, 3));
    assert!(layer.is_out_of_bounds(3, -1));
    assert!(layer.is_out_of_bounds(65536, 2));
}

#[test]
fn scatter_target_only_inside_face() {
    let layer: CubeMapDataLayer<u8> = CubeMapDataLayer::new(8, 0);
    assert_eq!(layer.scatter_target(3, 7), Some((3, 7)));
    assert_eq!(layer.scatter_target(8, 7), None);
    assert_eq!(layer.scatter_target(-1, 0), None);
}

#[test]
fn scatter_then_point_read_sees_delta() {
    let mut layer: CubeMapDataLayer<f64> = CubeMapDataLayer::new(16, 10.0);
    let (x, y) = layer.scatter_target(5, 9).unwrap();
    layer.update_pixel(&CubeMapFace::NZ, x, y, |v: &f64| *v + 2.5);
    assert_eq!(layer.get_clamped(&CubeMapFace::NZ, 5, 9), 12.5);
    assert_eq!(layer.get_clamped(&CubeMapFace::NZ, 6, 9), 10.0);
    assert_eq!(layer.get_clamped(&CubeMapFace::PX, 5, 9), 10.0);
}

#[test]
fn scatter_order_does_not_matter() {
    let writes = [(1usize, 2usize, 1.0f64), (3, 3, -2.0), (1, 2, 4.0), (0, 0, 0.5)];
    let mut forward: CubeMapDataLayer<f64> = CubeMapDataLayer::new(4, 0.0);
    let mut backward: CubeMapDataLayer<f64> = CubeMapDataLayer::new(4, 0.0);
    for &(x, y, d) in writes.iter() {
        forward.update_pixel(&CubeMapFace::PX, x, y, |v: &f64| *v + d);
    }
    for &(x, y, d) in writes.iter().rev() {
        backward.update_pixel(&CubeMapFace::PX, x, y, |v: &f64| *v + d);
    }
    for y in 0..4 {
        for x in 0..4 {
            assert_eq!(
                forward.get_pixel(&CubeMapFace::PX, x, y),
                backward.get_pixel(&CubeMapFace::PX, x, y)
            );
        }
    }
    assert_eq!(forward.get_pixel(&CubeMapFace::PX, 1, 2), 5.0);
}

#[test]
fn bilinear_corners_inside_face_are_kept() {
    let layer: CubeMapDataLayer<u8> = CubeMapDataLayer::new(8, 0);
    assert_eq!(layer.bilinear_corners(2, 3, 3, 4), ((2, 3), (3, 4)));
}

#[test]
fn bilinear_corner_past_edge_collapses_onto_floor() {
    let layer: CubeMapDataLayer<u8> = CubeMapDataLayer::new(8, 0);
    assert_eq!(layer.bilinear_corners(7, 3, 8, 4), ((7, 3), (7, 3)));
    assert_eq!(layer.bilinear_corners(2, 7, 3, 8), ((2, 7), (2, 7)));
}

#[test]
fn bilinear_floor_before_edge_collapses_onto_ceiling() {
    let layer: CubeMapDataLayer<u8> = CubeMapDataLayer::new(8, 0);
    assert_eq!(layer.bilinear_corners(-1, 2, 0, 3), ((0, 3), (0, 3)));
}

#[test]
fn bilinear_corners_both_outside_are_clamped() {
    let layer: CubeMapDataLayer<u8> = CubeMapDataLayer::new(8, 0);
    assert_eq!(layer.bilinear_corners(9, -3, 10, -2), ((7, 0), (7, 0)));
}
