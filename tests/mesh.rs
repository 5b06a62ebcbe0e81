use tess_grid::gpu::{GlCommand, SamplerKind, Vec3Bits};
use tess_grid::mesh::{texture_kind, Mesh, Texture, Vec2Bits, Vertex};

fn vertex(base: u32) -> Vertex {
    Vertex {
        position: Vec3Bits { x: base, y: base + 1, z: base + 2 },
        normal: Vec3Bits { x: base + 3, y: base + 4, z: base + 5 },
        tex_coords: Vec2Bits { x: base + 6, y: base + 7 },
    }
}

#[test]
fn texture_kinds_from_type_strings() {
    assert_eq!(texture_kind("texture_diffuse"), Some(SamplerKind::Diffuse));
    assert_eq!(texture_kind("texture_specular"), Some(SamplerKind::Specular));
    assert_eq!(texture_kind("texture_normal"), None);
    assert_eq!(texture_kind(""), None);
}

#[test]
fn samplers_numbered_per_kind() {
    let textures = vec![
        Texture::new(5, "texture_diffuse".to_string()),
        Texture::new(6, "texture_specular".to_string()),
        Texture::new(7, "texture_height".to_string()),
        Texture::new(8, "texture_diffuse".to_string()),
    ];
    let mesh = Mesh::new(vec![], vec![0, 1, 2], textures);
    let cmds = mesh.draw(9);
    assert_eq!(cmds.len(), 18);
    assert_eq!(
        cmds[0],
        GlCommand::SamplerUniform { program: 9, kind: SamplerKind::Diffuse, number: 1, unit: 0 }
    );
    assert_eq!(cmds[1], GlCommand::BindTexture2D(5));
    assert_eq!(cmds[3], GlCommand::DrawElements { count: 3 });
    assert_eq!(
        cmds[6],
        GlCommand::SamplerUniform { program: 9, kind: SamplerKind::Specular, number: 1, unit: 1 }
    );
    assert_eq!(
        cmds[12],
        GlCommand::SamplerUniform { program: 9, kind: SamplerKind::Diffuse, number: 2, unit: 3 }
    );
    assert_eq!(cmds[13], GlCommand::BindTexture2D(8));
}

#[test]
fn setup_mesh_interleaves_vertices() {
    let mut mesh = Mesh::new(vec![vertex(100), vertex(200)], vec![0, 1, 0], vec![]);
    let cmds = mesh.setup_mesh(4, 5, 6);
    assert_eq!((mesh.vao, mesh.vbo, mesh.ebo), (4, 5, 6));
    assert_eq!(cmds.len(), 12);
    let expected: Vec<u32> = (100..108).chain(200..208).collect();
    assert_eq!(cmds[2], GlCommand::BufferData(expected));
    assert_eq!(cmds[4], GlCommand::ElementData(vec![0, 1, 0]));
    assert_eq!(
        cmds[10],
        GlCommand::VertexAttribLayout { index: 2, components: 2, stride: 8, offset: 6 }
    );
    assert_eq!(cmds[11], GlCommand::BindVertexArray(0));
}
