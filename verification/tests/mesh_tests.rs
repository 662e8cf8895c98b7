use voxel_world::math::Vec3i;
use voxel_world::mesh::{Mesh, TexCoord, Vertex};

fn vertex(x: i32, y: i32, z: i32) -> Vertex {
    Vertex {
        position: Vec3i { x, y, z },
        tex_coords: TexCoord { u_num: 0, v_num: 0, denom: 1 },
        normal: Vec3i { x: 0, y: 1, z: 0 },
    }
}

#[test]
fn quads_use_six_indices_advancing_by_four() {
    // Each quad appends four vertices and the indices of its two
    // triangles; the base index advances by four per quad.
    let mut mesh = Mesh::new();
    assert_eq!(mesh.index_count(), 0);
    mesh.add_quad(vertex(0, 0, 0), vertex(0, 1, 0), vertex(1, 1, 0), vertex(1, 0, 0));
    mesh.add_quad(vertex(2, 0, 0), vertex(2, 1, 0), vertex(3, 1, 0), vertex(3, 0, 0));
    assert_eq!(mesh.vertices().len(), 8);
    assert_eq!(mesh.indices(), &vec![0, 1, 2, 0, 2, 3, 4, 5, 6, 4, 6, 7]);
    assert_eq!(mesh.index_count(), 12);
}

#[test]
fn triangles_append_three_vertices_and_indices() {
    let mut mesh = Mesh::new();
    mesh.add_tri(vertex(0, 0, 0), vertex(0, 1, 0), vertex(1, 1, 0));
    mesh.add_tri(vertex(5, 0, 0), vertex(5, 1, 0), vertex(6, 1, 0));
    assert_eq!(mesh.vertices().len(), 6);
    assert_eq!(mesh.indices(), &vec![0, 1, 2, 3, 4, 5]);
    assert_eq!(mesh.vertices()[3].position, Vec3i { x: 5, y: 0, z: 0 });
}
