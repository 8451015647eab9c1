use vk_obj::geometry::check_mesh;
use vk_obj::geometry::norms_from_verts_and_index;
use vk_obj::geometry::Vertex;

fn v(x: i64, y: i64, z: i64) -> Vertex {
    Vertex { position: (x, y, z) }
}

#[test]
fn single_triangle_normals_and_extent() {
    let verts = vec![v(0, 0, 0), v(1, 0, 0), v(0, 1, 0)];
    let indices: Vec<u32> = vec![0, 1, 2];
    assert!(check_mesh(&verts, &indices));
    let (normals, extent) = norms_from_verts_and_index(&verts, &indices);
    assert_eq!(normals.len(), 3);
    for n in &normals {
        assert_eq!(n.normal, (0, 0, 1));
    }
    assert_eq!(extent.max.position, (1, 1, 0));
    assert_eq!(extent.min.position, (0, 0, 0));
}

#[test]
fn single_triangle_unit_normal_direction() {
    // The accumulated vector, divided by its length in single precision,
    // is the unit normal of the triangle's plane.
    let verts = vec![v(0, 0, 0), v(1, 0, 0), v(0, 1, 0)];
    let indices: Vec<u32> = vec![0, 1, 2];
    let (normals, _) = norms_from_verts_and_index(&verts, &indices);
    let (x, y, z) = normals[0].normal;
    let (xf, yf, zf) = (x as f32, y as f32, z as f32);
    let len = (xf * xf + yf * yf + zf * zf).sqrt();
    assert_eq!((xf / len, yf / len, zf / len), (0.0, 0.0, 1.0));
}

#[test]
fn single_face_vertex_gets_that_face_vector() {
    // Vertices 0 and 3 each take part in exactly one triangle; their
    // accumulated normals are exactly those triangles' cross products.
    let verts = vec![v(0, 0, 0), v(2, 0, 0), v(0, 2, 0), v(0, 0, 3)];
    let indices: Vec<u32> = vec![0, 1, 2, 1, 2, 3];
    let (normals, _) = norms_from_verts_and_index(&verts, &indices);
    assert_eq!(normals[0].normal, (0, 0, 4));
    assert_eq!(normals[3].normal, (6, 6, 4));
    // The shared vertices accumulate the sum of both faces.
    assert_eq!(normals[1].normal, (6, 6, 8));
    assert_eq!(normals[2].normal, (6, 6, 8));
}

#[test]
fn reversed_winding_flips_normals() {
    let verts = vec![v(0, 0, 0), v(1, 0, 0), v(0, 1, 0)];
    let forward: Vec<u32> = vec![0, 1, 2];
    let reversed: Vec<u32> = vec![0, 2, 1];
    let (n_fwd, e_fwd) = norms_from_verts_and_index(&verts, &forward);
    let (n_rev, e_rev) = norms_from_verts_and_index(&verts, &reversed);
    for (a, b) in n_fwd.iter().zip(n_rev.iter()) {
        assert_eq!(a.normal.0, -b.normal.0);
        assert_eq!(a.normal.1, -b.normal.1);
        assert_eq!(a.normal.2, -b.normal.2);
    }
    assert_eq!(n_rev[0].normal, (0, 0, -1));
    assert_eq!(e_fwd, e_rev);
}

#[test]
fn unreferenced_vertex_zero_normal_and_no_extent_trace() {
    // Vertex 3 exists but no triple names it: zero accumulator, and its
    // far-away position leaves no trace in the extent.
    let verts = vec![v(0, 0, 0), v(1, 0, 0), v(0, 1, 0), v(9, 9, 9)];
    let indices: Vec<u32> = vec![0, 1, 2];
    assert!(check_mesh(&verts, &indices));
    let (normals, extent) = norms_from_verts_and_index(&verts, &indices);
    assert_eq!(normals.len(), 4);
    assert_eq!(normals[3].normal, (0, 0, 0));
    assert_eq!(extent.max.position, (1, 1, 0));
    assert_eq!(extent.min.position, (0, 0, 0));
}

#[test]
fn synthesis_is_idempotent() {
    let verts = vec![v(0, 0, 0), v(2, 0, 0), v(0, 2, 0), v(0, 0, 3)];
    let indices: Vec<u32> = vec![0, 1, 2, 1, 2, 3];
    let (n1, e1) = norms_from_verts_and_index(&verts, &indices);
    let (n2, e2) = norms_from_verts_and_index(&verts, &indices);
    assert_eq!(n1, n2);
    assert_eq!(e1, e2);
}

#[test]
fn empty_index_list_leaves_sentinels_and_zero_normals() {
    let verts = vec![v(5, -5, 5)];
    let indices: Vec<u32> = Vec::new();
    assert!(check_mesh(&verts, &indices));
    let (normals, extent) = norms_from_verts_and_index(&verts, &indices);
    assert_eq!(normals.len(), 1);
    assert_eq!(normals[0].normal, (0, 0, 0));
    assert_eq!(extent.max.position, (i64::MIN, i64::MIN, i64::MIN));
    assert_eq!(extent.min.position, (i64::MAX, i64::MAX, i64::MAX));
}

#[test]
fn degenerate_triple_contributes_zero() {
    // A triple naming one vertex three times has a zero face vector, but
    // its position still enters the extent.
    let verts = vec![v(3, -2, 7)];
    let indices: Vec<u32> = vec![0, 0, 0];
    let (normals, extent) = norms_from_verts_and_index(&verts, &indices);
    assert_eq!(normals[0].normal, (0, 0, 0));
    assert_eq!(extent.max.position, (3, -2, 7));
    assert_eq!(extent.min.position, (3, -2, 7));
}

#[test]
fn check_mesh_rejects_bad_input() {
    let verts = vec![v(0, 0, 0), v(1, 0, 0), v(0, 1, 0)];
    // Length not a multiple of three.
    assert!(!check_mesh(&verts, &vec![0, 1]));
    // An index past the last vertex.
    assert!(!check_mesh(&verts, &vec![0, 1, 3]));
    // Both corrected.
    assert!(check_mesh(&verts, &vec![0, 1, 2]));
}
