use obj_mesh::get_default_mesh_data;
use obj_mesh::mesh::{MeshData, COMPONENT_SIZE};

#[test]
fn default_mesh_has_the_packed_layout() {
    let mesh = MeshData::default();
    assert_eq!(mesh.vertex_offset(), 0);
    assert_eq!(mesh.vert_component_count(), 3);
    assert_eq!(mesh.vertex_component_size(), 4);
    assert_eq!(mesh.texture_coord_offset(), 12);
    assert_eq!(mesh.texture_coord_component_count(), 2);
    assert_eq!(mesh.texture_coord_component_size(), 4);
    assert_eq!(mesh.normal_offset(), 20);
    assert_eq!(mesh.normal_component_count(), 3);
    assert_eq!(mesh.normal_component_size(), 4);
    assert!(mesh.buffer().is_empty());
    assert_eq!(COMPONENT_SIZE, 4);
}

#[test]
fn default_mesh_data_is_the_default_mesh() {
    assert_eq!(get_default_mesh_data(), MeshData::default());
}

#[test]
fn attributes_follow_one_another_in_a_vertex() {
    let mesh = get_default_mesh_data();
    assert_eq!(
        mesh.texture_coord_offset(),
        mesh.vertex_offset() + mesh.vert_component_count() * mesh.vertex_component_size()
    );
    assert_eq!(
        mesh.normal_offset(),
        mesh.texture_coord_offset()
            + mesh.texture_coord_component_count() * mesh.texture_coord_component_size()
    );
}
