use hyvolex_paradigm::err::{ComponentError, Error};
use hyvolex_paradigm::sphere::{generate_sphere_indices, sphere_lattice, sphere_topology};

#[test]
fn sixteen_by_sixteen_sphere_counts() {
    let t = sphere_topology(16, 16).unwrap();
    assert_eq!(t.lattice.len(), 17 * 17);
    assert_eq!(t.lattice.len(), 289);
    assert_eq!(t.indices.len(), 16 * 16 * 6);
    assert_eq!(t.indices.len(), 1536);
    assert!(t.indices.iter().all(|&i| i < 289));
    assert_eq!(t.indices.len() % 3, 0);
}

#[test]
fn every_vertex_is_referenced() {
    let t = sphere_topology(16, 16).unwrap();
    let mut seen = vec![false; t.lattice.len()];
    for &i in &t.indices {
        seen[i as usize] = true;
    }
    assert!(seen.iter().all(|&s| s));
}

#[test]
fn first_quad_triangles() {
    let indices = generate_sphere_indices(16, 16);
    assert_eq!(&indices[0..6], &[0, 17, 1, 1, 17, 18]);
    // Second segment of the second ring: current = 1 * 17 + 1 = 18, next = 35.
    let q = 6 * (16 + 1);
    assert_eq!(&indices[q..q + 6], &[18, 35, 19, 19, 35, 36]);
    // Last quad: current = 15 * 17 + 15 = 270, next = 287.
    let n = indices.len();
    assert_eq!(&indices[n - 6..], &[270, 287, 271, 271, 287, 288]);
}

#[test]
fn small_lattice_in_ring_order() {
    let points = sphere_lattice(2, 1);
    assert_eq!(points, vec![(0, 0), (0, 1), (0, 2), (1, 0), (1, 1), (1, 2)]);
}

#[test]
fn single_quad_sphere() {
    let t = sphere_topology(1, 1).unwrap();
    assert_eq!(t.lattice, vec![(0, 0), (0, 1), (1, 0), (1, 1)]);
    assert_eq!(t.indices, vec![0, 2, 1, 1, 2, 3]);
}

#[test]
fn zero_resolution_is_rejected() {
    for (segments, rings) in [(0, 0), (0, 16), (16, 0)] {
        let r = sphere_topology(segments, rings);
        assert!(matches!(r, Err(Error::Component(ComponentError::ValidationFailed(_)))));
    }
}

#[test]
fn resolution_too_fine_is_rejected() {
    let r = sphere_topology(u32::MAX, u32::MAX);
    assert!(matches!(r, Err(Error::Component(ComponentError::ValidationFailed(_)))));
    let r = sphere_topology(65536, 65536);
    assert!(matches!(r, Err(Error::Component(ComponentError::ValidationFailed(_)))));
}

#[test]
fn tessellating_twice_gives_identical_buffers() {
    let a = sphere_topology(12, 7).unwrap();
    let b = sphere_topology(12, 7).unwrap();
    assert_eq!(a.lattice, b.lattice);
    assert_eq!(a.indices, b.indices);
}
