use cube_render::mesh::{cube_indices, cube_vertices, index_count_of, Vertex};

#[test]
fn cube_has_24_vertices() {
    let v = cube_vertices();
    assert_eq!(v.len(), 24);
}

#[test]
fn cube_has_36_indices() {
    let i = cube_indices();
    assert_eq!(i.len(), 36);
    let expected: Vec<u16> = vec![
        0, 1, 2, 0, 2, 3, 4, 5, 6, 4, 6, 7, 8, 9, 10, 8, 10, 11, 12, 13, 14, 12, 14, 15, 16, 17,
        18, 16, 18, 19, 20, 21, 22, 20, 22, 23,
    ];
    assert_eq!(i, expected);
}

#[test]
fn indices_all_in_range_and_max_is_23() {
    let v = cube_vertices();
    let i = cube_indices();
    assert!(i.iter().all(|&x| (x as usize) < v.len()));
    assert_eq!(i.iter().copied().max(), Some(23));
}

#[test]
fn index_count_is_36() {
    let i = cube_indices();
    assert_eq!(index_count_of(&i), 36u32);
}

#[test]
fn first_face_vertices() {
    let v = cube_vertices();
    // front face at z = +0.5 (half-units: 1), colored red
    assert_eq!(
        v[0],
        Vertex { px: -1, py: -1, pz: 1, cr: 1, cg: 0, cb: 0 }
    );
    assert_eq!(
        v[2],
        Vertex { px: 1, py: 1, pz: 1, cr: 1, cg: 0, cb: 0 }
    );
}

#[test]
fn each_face_has_one_color() {
    let v = cube_vertices();
    for f in 0..6 {
        let c0 = (v[4 * f].cr, v[4 * f].cg, v[4 * f].cb);
        for k in 1..4 {
            let ck = (v[4 * f + k].cr, v[4 * f + k].cg, v[4 * f + k].cb);
            assert_eq!(c0, ck);
        }
    }
}

#[test]
fn every_triangle_winds_ccw_seen_from_outside() {
    // The right-handed normal of each triangle must point to the same side
    // as the triangle's centroid (the cube is centered at the origin), so a
    // viewer outside the cube sees the corners counter-clockwise.
    let v = cube_vertices();
    let idx = cube_indices();
    for t in 0..12 {
        let a = &v[idx[3 * t] as usize];
        let b = &v[idx[3 * t + 1] as usize];
        let c = &v[idx[3 * t + 2] as usize];
        let u = (
            (b.px - a.px) as i64,
            (b.py - a.py) as i64,
            (b.pz - a.pz) as i64,
        );
        let w = (
            (c.px - a.px) as i64,
            (c.py - a.py) as i64,
            (c.pz - a.pz) as i64,
        );
        let n = (
            u.1 * w.2 - u.2 * w.1,
            u.2 * w.0 - u.0 * w.2,
            u.0 * w.1 - u.1 * w.0,
        );
        let s = (
            (a.px + b.px + c.px) as i64,
            (a.py + b.py + c.py) as i64,
            (a.pz + b.pz + c.pz) as i64,
        );
        let dot = n.0 * s.0 + n.1 * s.1 + n.2 * s.2;
        assert!(dot > 0, "triangle {} winds the wrong way", t);
    }
}

#[test]
fn every_face_is_planar_on_the_cube_surface() {
    let v = cube_vertices();
    for vert in &v {
        assert!(vert.px == -1 || vert.px == 1);
        assert!(vert.py == -1 || vert.py == 1);
        assert!(vert.pz == -1 || vert.pz == 1);
    }
}
