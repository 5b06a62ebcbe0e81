use tess_grid::bits::f32_bits_eq;
use tess_grid::gpu::{
    DepthTest, GlCommand, Mat4Bits, PolygonMode, Rgb, UniformName, Vec3Bits, Vec4Bits,
};
use tess_grid::grid::{normal_matrix, FrameMatrices, GpuObjects, Grid, HeightsError, Light};

fn objects() -> GpuObjects {
    GpuObjects { vao: 1, vbo: 2, ebo: 3, program: 10, mesh_program: 11 }
}

fn light() -> Light {
    Light {
        position: Vec3Bits { x: 0.0f32.to_bits(), y: 5.0f32.to_bits(), z: 0.0f32.to_bits() },
        color: Rgb { r: 255, g: 255, b: 255 },
        kd: 0.5f32.to_bits(),
        ks: 0.5f32.to_bits(),
        m: 8,
    }
}

fn origin() -> Vec3Bits {
    Vec3Bits { x: 0, y: 0, z: 0 }
}

fn grid() -> Grid {
    Grid::new(objects(), origin(), light())
}

fn column(x: f32, y: f32, z: f32, w: f32) -> Vec4Bits {
    Vec4Bits { x: x.to_bits(), y: y.to_bits(), z: z.to_bits(), w: w.to_bits() }
}

fn identity() -> Mat4Bits {
    Mat4Bits {
        x_axis: column(1.0, 0.0, 0.0, 0.0),
        y_axis: column(0.0, 1.0, 0.0, 0.0),
        z_axis: column(0.0, 0.0, 1.0, 0.0),
        w_axis: column(0.0, 0.0, 0.0, 1.0),
    }
}

fn frame() -> FrameMatrices {
    FrameMatrices { mvp: identity(), view: identity() }
}

fn heights_of(g: &Grid) -> [u32; 16] {
    let mut z = [0u32; 16];
    for p in 0..16 {
        z[p] = g.vertices[3 * p + 2];
    }
    z
}

fn buffer_uploads(cmds: &[GlCommand]) -> Vec<Vec<u32>> {
    cmds.iter()
        .filter_map(|c| match c {
            GlCommand::BufferData(d) => Some(d.clone()),
            _ => None,
        })
        .collect()
}

#[test]
fn initial_points_lie_on_lattice() {
    let g = grid();
    assert_eq!(g.vertices.len(), 48);
    for p in 0..16 {
        let x = -0.75f32 + 0.5 * (p % 4) as f32;
        let y = -0.75f32 + 0.5 * (p / 4) as f32;
        let z = if p == 7 { 0.5f32 } else { 0.0 };
        assert_eq!(f32::from_bits(g.vertices[3 * p]), x);
        assert_eq!(f32::from_bits(g.vertices[3 * p + 1]), y);
        assert_eq!(f32::from_bits(g.vertices[3 * p + 2]), z);
    }
    assert_eq!(g.tessellation_level, 1);
    assert!(g.fill);
    assert!(!g.mesh);
    assert!(g.main_light && g.reflectors);
    assert_eq!(g.color, Rgb { r: 255, g: 255, b: 255 });
    assert_eq!(g.texture, None);
    assert_eq!(g.normal_map, None);
}

#[test]
fn init_grid_uploads_points_and_declares_patches() {
    let g = grid();
    let cmds = g.init_grid();
    assert_eq!(cmds.len(), 6);
    assert_eq!(cmds[0], GlCommand::BindVertexArray(1));
    assert_eq!(cmds[1], GlCommand::BindArrayBuffer(2));
    assert_eq!(cmds[2], GlCommand::BufferData(g.vertices.clone()));
    assert_eq!(cmds[5], GlCommand::PatchVertices(16));
}

#[test]
fn same_heights_upload_nothing() {
    let mut g = grid();
    let before = g.vertices.clone();
    let z = heights_of(&g);
    let cmds = g.update_z_coords(z);
    assert!(cmds.is_empty());
    assert_eq!(g.vertices, before);
}

#[test]
fn one_changed_height_uploads_once() {
    let mut g = grid();
    let mut z = heights_of(&g);
    z[5] = 0.25f32.to_bits();
    let cmds = g.update_z_coords(z);
    let uploads = buffer_uploads(&cmds);
    assert_eq!(uploads.len(), 1);
    assert_eq!(uploads[0].len(), 48);
    assert_eq!(f32::from_bits(uploads[0][5 * 3 + 2]), 0.25);
    assert_eq!(f32::from_bits(uploads[0][7 * 3 + 2]), 0.5);
    assert_eq!(uploads[0], g.vertices);
}

#[test]
fn negative_zero_counts_as_unchanged() {
    let mut g = grid();
    let mut z = heights_of(&g);
    z[0] = (-0.0f32).to_bits();
    let cmds = g.update_z_coords(z);
    assert!(cmds.is_empty());
    assert_eq!(g.vertices[2], 0.0f32.to_bits());
}

#[test]
fn nan_height_always_uploads() {
    let mut g = grid();
    let mut z = heights_of(&g);
    z[3] = f32::NAN.to_bits();
    assert_eq!(buffer_uploads(&g.update_z_coords(z)).len(), 1);
    assert_eq!(buffer_uploads(&g.update_z_coords(z)).len(), 1);
}

#[test]
fn float_equality_on_bits() {
    assert!(f32_bits_eq(1.5f32.to_bits(), 1.5f32.to_bits()));
    assert!(f32_bits_eq(0.0f32.to_bits(), (-0.0f32).to_bits()));
    assert!(!f32_bits_eq(f32::NAN.to_bits(), f32::NAN.to_bits()));
    assert!(!f32_bits_eq(1.0f32.to_bits(), 2.0f32.to_bits()));
}

#[test]
fn normal_matrix_takes_view_block() {
    let view = Mat4Bits {
        x_axis: column(1.0, 2.0, 3.0, 4.0),
        y_axis: column(5.0, 6.0, 7.0, 8.0),
        z_axis: column(9.0, 10.0, 11.0, 12.0),
        w_axis: column(13.0, 14.0, 15.0, 16.0),
    };
    let n = normal_matrix(&view);
    assert_eq!(f32::from_bits(n.x_axis.x), 1.0);
    assert_eq!(f32::from_bits(n.x_axis.z), 3.0);
    assert_eq!(f32::from_bits(n.y_axis.y), 6.0);
    assert_eq!(f32::from_bits(n.z_axis.x), 9.0);
    assert_eq!(f32::from_bits(n.z_axis.z), 11.0);

    let mut g = grid();
    g.angle = 1.2f32.to_bits();
    let rotated = FrameMatrices { mvp: identity(), view };
    let cmds = g.draw(&rotated);
    assert!(cmds.contains(&GlCommand::UniformMat3 {
        program: 10,
        name: UniformName::NormalMatrix,
        value: n,
    }));
}

#[test]
fn no_texture_sets_flag_false_and_binds_nothing() {
    let g = grid();
    let cmds = g.draw(&frame());
    assert!(cmds.contains(&GlCommand::UniformBool {
        program: 10,
        name: UniformName::IsTextureSet,
        value: false,
    }));
    assert!(!cmds.iter().any(|c| matches!(c, GlCommand::ActivateTexture { unit: 0, .. })));
}

#[test]
fn texture_sets_flag_true_and_binds_unit_zero() {
    let mut g = grid();
    g.add_texture(42);
    g.add_normal_map(43);
    let cmds = g.draw(&frame());
    assert!(cmds.contains(&GlCommand::UniformBool {
        program: 10,
        name: UniformName::IsTextureSet,
        value: true,
    }));
    assert!(cmds.contains(&GlCommand::ActivateTexture { unit: 0, texture: 42 }));
    assert!(cmds.contains(&GlCommand::ActivateTexture { unit: 1, texture: 43 }));
    g.remove_texture();
    g.remove_normal_map();
    let cmds = g.draw(&frame());
    assert!(!cmds.iter().any(|c| matches!(c, GlCommand::ActivateTexture { .. })));
}

#[test]
fn end_to_end_frame() {
    let mut g = grid();
    g.set_tessellation_level(4);
    let cmds = g.draw(&frame());
    let draws: Vec<&GlCommand> =
        cmds.iter().filter(|c| matches!(c, GlCommand::DrawPatches { .. })).collect();
    assert_eq!(draws, vec![&GlCommand::DrawPatches { first: 0, count: 16 }]);
    assert!(!cmds.contains(&GlCommand::PolygonMode(PolygonMode::Line)));
    assert!(!cmds.contains(&GlCommand::UseProgram(11)));
    assert!(cmds.contains(&GlCommand::UniformBool {
        program: 10,
        name: UniformName::IsTextureSet,
        value: false,
    }));
    assert!(cmds.contains(&GlCommand::UniformBool {
        program: 10,
        name: UniformName::IsNormalMapSet,
        value: false,
    }));
    assert!(cmds.contains(&GlCommand::UniformUint {
        program: 10,
        name: UniformName::TessLevel,
        value: 4,
    }));
    assert!(cmds.contains(&GlCommand::UniformVec3 {
        program: 10,
        name: UniformName::LightPos,
        value: light().position,
    }));
    assert_eq!(cmds[0], GlCommand::DepthFunc(DepthTest::Less));
    assert_eq!(cmds[cmds.len() - 2], GlCommand::DepthFunc(DepthTest::Always));
    assert_eq!(cmds[cmds.len() - 1], GlCommand::BindVertexArray(0));
}

#[test]
fn wireframe_pass_restores_fill_mode() {
    let mut g = grid();
    g.fill = false;
    g.mesh = true;
    let cmds = g.draw(&frame());
    let line = cmds.iter().position(|c| *c == GlCommand::PolygonMode(PolygonMode::Line)).unwrap();
    let fill = cmds.iter().position(|c| *c == GlCommand::PolygonMode(PolygonMode::Fill)).unwrap();
    assert!(line < fill);
    assert_eq!(cmds[line + 1], GlCommand::UseProgram(11));
    assert_eq!(cmds[fill - 1], GlCommand::DrawPatches { first: 0, count: 16 });
    assert!(!cmds.contains(&GlCommand::UseProgram(10)));
}

#[test]
fn tessellation_level_zero_is_raised() {
    let mut g = grid();
    g.set_tessellation_level(0);
    assert_eq!(g.tessellation_level, 1);
    g.set_tessellation_level(7);
    assert_eq!(g.tessellation_level, 7);
}

#[test]
fn heights_round_trip() {
    let mut a = grid();
    let mut z = heights_of(&a);
    z[0] = (-1.25f32).to_bits();
    z[15] = 3.0f32.to_bits();
    a.update_z_coords(z);
    let bytes = a.z_bytes();
    assert_eq!(bytes.len(), 64);
    assert_eq!(&bytes[28..32], &0.5f32.to_le_bytes());
    let mut b = grid();
    let cmds = b.restore_z_coords(&bytes).unwrap();
    assert_eq!(b.vertices, a.vertices);
    assert_eq!(buffer_uploads(&cmds), buffer_uploads(&a.init_grid()));
}

#[test]
fn restore_refuses_wrong_length() {
    let mut g = grid();
    let before = g.vertices.clone();
    assert_eq!(g.restore_z_coords(&vec![0u8; 63]), Err(HeightsError::WrongLength));
    assert_eq!(g.vertices, before);
}

#[test]
fn uniform_names_match_shaders() {
    assert_eq!(UniformName::TessLevel.as_str(), "TessLevel");
    assert_eq!(UniformName::Mvp.as_str(), "MVP");
    assert_eq!(UniformName::MainLight.as_str(), "main_light");
    assert_eq!(UniformName::IsNormalMapSet.as_str(), "isNormalMapSet");
}
