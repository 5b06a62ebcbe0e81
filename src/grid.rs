//! The tessellated surface: a 4x4 patch of control points and its draw state.

use vstd::prelude::*;
use crate::bits::{
    byte_of, f32_bits_eq, f32_eq, from_le, lemma_le_round_trip, F32_HALF, F32_NEG_QUARTER, F32_NEG_THREE_QUARTERS, F32_QUARTER,
    F32_THREE_QUARTERS, F32_ZERO,
};
use crate::gpu::{
    DepthTest, GlCommand, Mat3Bits, Mat4Bits, PolygonMode, Rgb, UniformName, Vec3Bits, upper_left,
};

verus! {

/// Control points in one patch.
pub const PATCH_POINTS: usize = 16;

/// Lattice coordinate of column (or row) `k`: `-0.75 + 0.5 * k`.
pub open spec fn lattice_coord(k: int) -> u32 {
    if k == 0 {
        F32_NEG_THREE_QUARTERS
    } else if k == 1 {
        F32_NEG_QUARTER
    } else if k == 2 {
        F32_QUARTER
    } else {
        F32_THREE_QUARTERS
    }
}

/// Coordinate `t` of the flat lattice: point `t / 3` sits at column `p % 4`
/// and row `p / 4`, with z = 0.
pub open spec fn lattice_value(t: int) -> u32 {
    let p = t / 3;
    let c = t % 3;
    if c == 0 {
        lattice_coord(p % 4)
    } else if c == 1 {
        lattice_coord(p / 4)
    } else {
        F32_ZERO
    }
}

/// The flat 4x4 lattice spanning `[-0.75, 0.75]` in x and y.
pub open spec fn lattice_vertices() -> Seq<u32> {
    Seq::new(48, |t: int| lattice_value(t))
}

/// The initial patch: the flat lattice with control point 7 raised to z = 0.5.
pub open spec fn initial_vertices() -> Seq<u32> {
    lattice_vertices().update(23int, F32_HALF)
}

/// Lighting parameters supplied by the light source.
#[derive(Clone, Copy, Debug, PartialEq, Eq, Structural)]
pub struct Light {
    pub position: Vec3Bits,
    pub color: Rgb,
    /// Diffuse coefficient (bit pattern).
    pub kd: u32,
    /// Specular coefficient (bit pattern).
    pub ks: u32,
    /// Shininess exponent.
    pub m: u32,
}

/// Names of the GPU objects that the host created for one surface.
#[derive(Clone, Copy, Debug, PartialEq, Eq, Structural)]
pub struct GpuObjects {
    pub vao: u32,
    pub vbo: u32,
    pub ebo: u32,
    /// The program for the filled surface.
    pub program: u32,
    /// The program for the wireframe overlay.
    pub mesh_program: u32,
}

/// Matrices that the host computed for this frame.
#[derive(Clone, Copy, Debug, PartialEq, Eq, Structural)]
pub struct FrameMatrices {
    /// Projection x view x model.
    pub mvp: Mat4Bits,
    /// The camera's view matrix.
    pub view: Mat4Bits,
}

/// The tessellated surface and everything it needs to draw itself.
pub struct Grid {
    pub tessellation_level: u32,
    /// Control-point coordinates, x, y, z for each of the 16 points in
    /// row-major order, as bit patterns.
    pub vertices: Vec<u32>,
    pub vao: u32,
    pub vbo: u32,
    pub ebo: u32,
    pub program: u32,
    pub mesh_program: u32,
    pub color: Rgb,
    pub camera_position: Vec3Bits,
    pub light: Light,
    /// The diffuse texture, when one is attached.
    pub texture: Option<u32>,
    /// The normal map, when one is attached.
    pub normal_map: Option<u32>,
    /// Draw the filled surface.
    pub fill: bool,
    /// Draw the wireframe overlay.
    pub mesh: bool,
    pub main_light: bool,
    pub reflectors: bool,
    /// Rotation about the x axis (bit pattern), applied in the model matrix.
    pub angle: u32,
}

/// Height of control point `p`.
pub open spec fn z_at(v: Seq<u32>, p: int) -> u32 {
    v[3 * p + 2]
}

/// Every command that re-uploads the control points, in order.
pub open spec fn is_upload_plan(cmds: Seq<GlCommand>, g: Grid) -> bool {
    &&& cmds.len() == 6
    &&& cmds[0] == GlCommand::BindVertexArray(g.vao)
    &&& cmds[1] == GlCommand::BindArrayBuffer(g.vbo)
    &&& cmds[2] is BufferData
    &&& cmds[2]->BufferData_0@ == g.vertices@
    &&& cmds[3] == (GlCommand::VertexAttribLayout { index: 0, components: 3, stride: 3, offset: 0 })
    &&& cmds[4] == GlCommand::EnableVertexAttrib(0)
    &&& cmds[5] == GlCommand::PatchVertices(16)
}

/// Everything but the control points is the same in both surfaces.
pub open spec fn same_settings(a: Grid, b: Grid) -> bool {
    &&& a.tessellation_level == b.tessellation_level
    &&& a.vao == b.vao
    &&& a.vbo == b.vbo
    &&& a.ebo == b.ebo
    &&& a.program == b.program
    &&& a.mesh_program == b.mesh_program
    &&& a.color == b.color
    &&& a.camera_position == b.camera_position
    &&& a.light == b.light
    &&& a.texture == b.texture
    &&& a.normal_map == b.normal_map
    &&& a.fill == b.fill
    &&& a.mesh == b.mesh
    &&& a.main_light == b.main_light
    &&& a.reflectors == b.reflectors
    &&& a.angle == b.angle
}

/// Every requested height equals the current one under float equality.
pub open spec fn heights_unchanged(v: Seq<u32>, z: Seq<u32>) -> bool {
    forall|p: int| 0 <= p < 16 ==> f32_eq(#[trigger] z[p], z_at(v, p))
}

/// The requested heights differ from the current ones at point `q` only.
pub open spec fn single_height_change(v: Seq<u32>, z: Seq<u32>, q: int) -> bool {
    &&& 0 <= q < 16
    &&& !f32_eq(z[q], z_at(v, q))
    &&& forall|p: int| 0 <= p < 16 && p != q ==> f32_eq(#[trigger] z[p], z_at(v, p))
}

/// Height of point `p` after an update: the requested value where it
/// differs from the current one, the current value where it compares equal.
pub open spec fn updated_height(v: Seq<u32>, z: Seq<u32>, p: int) -> u32 {
    if f32_eq(z[p], z_at(v, p)) {
        z_at(v, p)
    } else {
        z[p]
    }
}

/// The 16 heights of a patch, in point order.
pub open spec fn heights(v: Seq<u32>) -> Seq<u32> {
    Seq::new(16, |p: int| z_at(v, p))
}

/// The patch `v` with its heights replaced by `z`.
pub open spec fn with_heights(v: Seq<u32>, z: Seq<u32>) -> Seq<u32> {
    Seq::new(v.len(), |t: int| if t % 3 == 2 { z[t / 3] } else { v[t] })
}

/// Heights written as consecutive little-endian 4-byte bit patterns.
pub open spec fn encode_heights(z: Seq<u32>) -> Seq<u8> {
    Seq::new(4 * z.len(), |k: int| byte_of(z[k / 4], k % 4))
}

/// Heights read back from consecutive little-endian 4-byte bit patterns.
pub open spec fn decode_heights(b: Seq<u8>) -> Seq<u32> {
    Seq::new(b.len() / 4, |p: int| from_le(b[4 * p], b[4 * p + 1], b[4 * p + 2], b[4 * p + 3]))
}

/// Why a byte string cannot be read back as heights.
#[derive(Clone, Copy, Debug, PartialEq, Eq, Structural)]
pub enum HeightsError {
    /// The input does not hold exactly 16 four-byte values.
    WrongLength,
}

/// The model-view-projection, view and normal matrices, for `program`. The
/// normal matrix is the upper-left 3x3 block of the view matrix: the model
/// transform is a pure rotation, so no inverse-transpose is taken.
pub open spec fn matrix_uniforms(program: u32, f: FrameMatrices) -> Seq<GlCommand> {
    seq![
        GlCommand::UniformMat4 { program, name: UniformName::Mvp, value: f.mvp },
        GlCommand::UniformMat4 { program, name: UniformName::ModelViewMatrix, value: f.view },
        GlCommand::UniformMat3 { program, name: UniformName::NormalMatrix, value: upper_left(f.view) },
    ]
}

/// Light toggles, matrices, tessellation level and lighting, for `program`.
pub open spec fn shared_uniforms(g: Grid, program: u32, f: FrameMatrices) -> Seq<GlCommand> {
    seq![
        GlCommand::UniformBool { program, name: UniformName::Reflectors, value: g.reflectors },
        GlCommand::UniformBool { program, name: UniformName::MainLight, value: g.main_light },
    ] + matrix_uniforms(program, f) + seq![
        GlCommand::UniformUint { program, name: UniformName::TessLevel, value: g.tessellation_level },
        GlCommand::UniformVec3 { program, name: UniformName::LightPos, value: g.light.position },
        GlCommand::UniformVec3 { program, name: UniformName::CameraPos, value: g.camera_position },
        GlCommand::UniformColor { program, name: UniformName::LightColor, value: g.light.color },
        GlCommand::UniformColor { program, name: UniformName::ObjectColor, value: g.color },
        GlCommand::UniformFloat { program, name: UniformName::Kd, value: g.light.kd },
        GlCommand::UniformFloat { program, name: UniformName::Ks, value: g.light.ks },
        GlCommand::UniformUint { program, name: UniformName::M, value: g.light.m },
    ]
}

/// The presence flag of an optional texture, and its binding to `unit` when
/// it is there.
pub open spec fn texture_slot(program: u32, flag: UniformName, slot: Option<u32>, unit: u32) -> Seq<GlCommand> {
    match slot {
        Some(texture) => seq![
            GlCommand::UniformBool { program, name: flag, value: true },
            GlCommand::ActivateTexture { unit, texture },
        ],
        None => seq![GlCommand::UniformBool { program, name: flag, value: false }],
    }
}

/// The draw call over one 16-point patch.
pub open spec fn draw_patch() -> GlCommand {
    GlCommand::DrawPatches { first: 0, count: 16 }
}

/// The filled pass: the surface program, its uniforms, the diffuse texture on
/// unit 0 and the normal map on unit 1, then one patch draw.
pub open spec fn fill_pass(g: Grid, f: FrameMatrices) -> Seq<GlCommand> {
    seq![GlCommand::UseProgram(g.program)] + shared_uniforms(g, g.program, f) + texture_slot(
        g.program,
        UniformName::IsTextureSet,
        g.texture,
        0,
    ) + texture_slot(g.program, UniformName::IsNormalMapSet, g.normal_map, 1) + seq![draw_patch()]
}

/// The wireframe pass, drawn in line mode and restored to fill mode after.
pub open spec fn wireframe_pass(g: Grid, f: FrameMatrices) -> Seq<GlCommand> {
    seq![
        GlCommand::PolygonMode(PolygonMode::Line),
        GlCommand::UseProgram(g.mesh_program),
    ] + matrix_uniforms(g.mesh_program, f) + seq![
        GlCommand::UniformUint {
            program: g.mesh_program,
            name: UniformName::TessLevel,
            value: g.tessellation_level,
        },
    ] + shared_uniforms(g, g.mesh_program, f) + seq![
        draw_patch(),
        GlCommand::PolygonMode(PolygonMode::Fill),
    ]
}

/// One frame: depth test "less", the enabled passes, then depth test
/// "always" and the vertex array unbound.
pub open spec fn draw_plan(g: Grid, f: FrameMatrices) -> Seq<GlCommand> {
    seq![GlCommand::DepthFunc(DepthTest::Less), GlCommand::BindVertexArray(g.vao)] + (if g.fill {
        fill_pass(g, f)
    } else {
        Seq::empty()
    }) + (if g.mesh {
        wireframe_pass(g, f)
    } else {
        Seq::empty()
    }) + seq![GlCommand::DepthFunc(DepthTest::Always), GlCommand::BindVertexArray(0)]
}

/// The normal matrix for a view matrix: its upper-left 3x3 block.
pub fn normal_matrix(view: &Mat4Bits) -> (r: Mat3Bits)
    ensures
        r == upper_left(*view),
{
    Mat3Bits {
        x_axis: Vec3Bits { x: view.x_axis.x, y: view.x_axis.y, z: view.x_axis.z },
        y_axis: Vec3Bits { x: view.y_axis.x, y: view.y_axis.y, z: view.y_axis.z },
        z_axis: Vec3Bits { x: view.z_axis.x, y: view.z_axis.y, z: view.z_axis.z },
    }
}

impl Grid {
    /// The patch has 16 points whose x and y stay on the lattice, and it is
    /// tessellated at least once.
    pub open spec fn wf(&self) -> bool {
        &&& self.vertices@.len() == 48
        &&& forall|t: int| 0 <= t < 48 && t % 3 != 2 ==> self.vertices@[t] == lattice_value(t)
        &&& self.tessellation_level >= 1
    }

    /// Coordinate `k` of the lattice.
    fn lattice_coord_bits(k: usize) -> (r: u32)
        requires
            k < 4,
        ensures
            r == lattice_coord(k as int),
    {
        if k == 0 {
            F32_NEG_THREE_QUARTERS
        } else if k == 1 {
            F32_NEG_QUARTER
        } else if k == 2 {
            F32_QUARTER
        } else {
            F32_THREE_QUARTERS
        }
    }

    /// The flat lattice of control points.
    fn create_patch_vertices() -> (r: Vec<u32>)
        ensures
            r@ == lattice_vertices(),
    {
        let mut v: Vec<u32> = Vec::new();
        let mut p: usize = 0;
        while p < PATCH_POINTS
            invariant
                p <= 16,
                v@.len() == 3 * p,
                forall|t: int| 0 <= t < 3 * p ==> v@[t] == lattice_value(t),
            decreases 16 - p,
        {
            v.push(Self::lattice_coord_bits(p % 4));
            v.push(Self::lattice_coord_bits(p / 4));
            v.push(F32_ZERO);
            p = p + 1;
        }
        assert(v@ =~= lattice_vertices());
        v
    }

    /// A surface on the lattice with point 7 raised, tessellation level 1,
    /// white, filled, no overlay, both light groups on, no textures.
    /// The host runs [`Grid::init_grid`] to upload the points.
    pub fn new(objects: GpuObjects, camera_position: Vec3Bits, light: Light) -> (g: Grid)
        ensures
            g.wf(),
            g.vertices@ == initial_vertices(),
            g.tessellation_level == 1,
            g.vao == objects.vao,
            g.vbo == objects.vbo,
            g.ebo == objects.ebo,
            g.program == objects.program,
            g.mesh_program == objects.mesh_program,
            g.color == (Rgb { r: 255, g: 255, b: 255 }),
            g.camera_position == camera_position,
            g.light == light,
            g.texture is None,
            g.normal_map is None,
            g.fill,
            !g.mesh,
            g.main_light,
            g.reflectors,
            g.angle == F32_ZERO,
    {
        let mut vertices = Self::create_patch_vertices();
        vertices.set(7 * 3 + 2, F32_HALF);
        Grid {
            tessellation_level: 1,
            vertices,
            vao: objects.vao,
            vbo: objects.vbo,
            ebo: objects.ebo,
            program: objects.program,
            mesh_program: objects.mesh_program,
            color: Rgb::white(),
            camera_position,
            light,
            texture: None,
            normal_map: None,
            fill: true,
            mesh: false,
            main_light: true,
            reflectors: true,
            angle: F32_ZERO,
        }
    }

    /// Uploads the control points to the vertex buffer and declares
    /// 16-point patches.
    pub fn init_grid(&self) -> (r: Vec<GlCommand>)
        ensures
            is_upload_plan(r@, *self),
    {
        let mut r: Vec<GlCommand> = Vec::new();
        r.push(GlCommand::BindVertexArray(self.vao));
        r.push(GlCommand::BindArrayBuffer(self.vbo));
        r.push(GlCommand::BufferData(self.vertices.clone()));
        r.push(GlCommand::VertexAttribLayout { index: 0, components: 3, stride: 3, offset: 0 });
        r.push(GlCommand::EnableVertexAttrib(0));
        r.push(GlCommand::PatchVertices(16));
        r
    }

    /// Sets the 16 control-point heights. The vertex buffer is uploaded again,
    /// and the commands for it returned, only when some height differs from the
    /// current one under float equality; otherwise no command is returned.
    pub fn update_z_coords(&mut self, z_coords: [u32; 16]) -> (r: Vec<GlCommand>)
        requires
            old(self).wf(),
        ensures
            final(self).wf(),
            same_settings(*final(self), *old(self)),
            forall|t: int| 0 <= t < 48 && t % 3 != 2 ==> final(self).vertices@[t] == old(self).vertices@[t],
            forall|p: int| 0 <= p < 16 ==> z_at(final(self).vertices@, p)
                == updated_height(old(self).vertices@, z_coords@, p),
            heights_unchanged(old(self).vertices@, z_coords@) ==> r@.len() == 0,
            !heights_unchanged(old(self).vertices@, z_coords@) ==> is_upload_plan(r@, *final(self)),
            forall|q: int| #[trigger] single_height_change(old(self).vertices@, z_coords@, q) ==> {
                &&& is_upload_plan(r@, *final(self))
                &&& z_at(final(self).vertices@, q) == z_coords@[q]
                &&& forall|p: int| 0 <= p < 16 && p != q ==> z_at(final(self).vertices@, p) == z_at(
                    old(self).vertices@,
                    p,
                )
            },
    {
        let ghost v0 = self.vertices@;
        let mut changed = false;
        let mut i: usize = 0;
        while i < PATCH_POINTS
            invariant
                i <= 16,
                self.wf(),
                same_settings(*self, *old(self)),
                v0 == old(self).vertices@,
                forall|t: int| 0 <= t < 48 && (t % 3 != 2 || t / 3 >= i) ==> self.vertices@[t] == v0[t],
                forall|p: int| 0 <= p < i ==> z_at(self.vertices@, p) == updated_height(v0, z_coords@, p),
                changed == exists|p: int| 0 <= p < i && !f32_eq(#[trigger] z_coords@[p], z_at(v0, p)),
            decreases 16 - i,
        {
            let idx = i * 3 + 2;
            if !f32_bits_eq(z_coords[i], self.vertices[idx]) {
                self.vertices.set(idx, z_coords[i]);
                changed = true;
            }
            i = i + 1;
        }
        assert forall|q: int| #[trigger] single_height_change(v0, z_coords@, q) implies {
            &&& !heights_unchanged(v0, z_coords@)
            &&& z_at(self.vertices@, q) == z_coords@[q]
            &&& forall|p: int| 0 <= p < 16 && p != q ==> z_at(self.vertices@, p) == z_at(v0, p)
        } by {
            assert(!f32_eq(z_coords@[q], z_at(v0, q)));
            assert(z_at(self.vertices@, q) == updated_height(v0, z_coords@, q));
            assert forall|p: int| 0 <= p < 16 && p != q implies z_at(self.vertices@, p) == z_at(v0, p) by {
                assert(f32_eq(z_coords@[p], z_at(v0, p)));
                assert(z_at(self.vertices@, p) == updated_height(v0, z_coords@, p));
            }
        }
        if changed {
            self.init_grid()
        } else {
            Vec::new()
        }
    }

    fn set_matrices(program: u32, frame: &FrameMatrices, out: &mut Vec<GlCommand>)
        ensures
            final(out)@ == old(out)@ + matrix_uniforms(program, *frame),
    {
        out.push(GlCommand::UniformMat4 { program, name: UniformName::Mvp, value: frame.mvp });
        out.push(
            GlCommand::UniformMat4 { program, name: UniformName::ModelViewMatrix, value: frame.view },
        );
        out.push(
            GlCommand::UniformMat3 {
                program,
                name: UniformName::NormalMatrix,
                value: normal_matrix(&frame.view),
            },
        );
        assert(final(out)@ =~= old(out)@ + matrix_uniforms(program, *frame));
    }

    fn set_uniforms(&self, program: u32, frame: &FrameMatrices, out: &mut Vec<GlCommand>)
        ensures
            final(out)@ == old(out)@ + shared_uniforms(*self, program, *frame),
    {
        let ghost start = out@;
        out.push(GlCommand::UniformBool { program, name: UniformName::Reflectors, value: self.reflectors });
        out.push(GlCommand::UniformBool { program, name: UniformName::MainLight, value: self.main_light });
        Self::set_matrices(program, frame, out);
        out.push(
            GlCommand::UniformUint {
                program,
                name: UniformName::TessLevel,
                value: self.tessellation_level,
            },
        );
        out.push(GlCommand::UniformVec3 { program, name: UniformName::LightPos, value: self.light.position });
        out.push(GlCommand::UniformVec3 { program, name: UniformName::CameraPos, value: self.camera_position });
        out.push(GlCommand::UniformColor { program, name: UniformName::LightColor, value: self.light.color });
        out.push(GlCommand::UniformColor { program, name: UniformName::ObjectColor, value: self.color });
        out.push(GlCommand::UniformFloat { program, name: UniformName::Kd, value: self.light.kd });
        out.push(GlCommand::UniformFloat { program, name: UniformName::Ks, value: self.light.ks });
        out.push(GlCommand::UniformUint { program, name: UniformName::M, value: self.light.m });
        assert(out@ =~= start + shared_uniforms(*self, program, *frame));
    }

    fn prepare_slot(program: u32, flag: UniformName, slot: Option<u32>, unit: u32, out: &mut Vec<GlCommand>)
        ensures
            final(out)@ == old(out)@ + texture_slot(program, flag, slot, unit),
    {
        match slot {
            Some(texture) => {
                out.push(GlCommand::UniformBool { program, name: flag, value: true });
                out.push(GlCommand::ActivateTexture { unit, texture });
            },
            None => {
                out.push(GlCommand::UniformBool { program, name: flag, value: false });
            },
        }
        assert(final(out)@ =~= old(out)@ + texture_slot(program, flag, slot, unit));
    }

    /// Draws one frame: the filled pass when `fill` is set, the wireframe
    /// pass when `mesh` is set.
    pub fn draw(&self, frame: &FrameMatrices) -> (r: Vec<GlCommand>)
        ensures
            r@ == draw_plan(*self, *frame),
    {
        let mut r: Vec<GlCommand> = Vec::new();
        r.push(GlCommand::DepthFunc(DepthTest::Less));
        r.push(GlCommand::BindVertexArray(self.vao));
        let ghost head = r@;
        if self.fill {
            r.push(GlCommand::UseProgram(self.program));
            self.set_uniforms(self.program, frame, &mut r);
            Self::prepare_slot(self.program, UniformName::IsTextureSet, self.texture, 0, &mut r);
            Self::prepare_slot(self.program, UniformName::IsNormalMapSet, self.normal_map, 1, &mut r);
            r.push(GlCommand::DrawPatches { first: 0, count: 16 });
            assert(r@ =~= head + fill_pass(*self, *frame));
        }
        let ghost after_fill = r@;
        if self.mesh {
            r.push(GlCommand::PolygonMode(PolygonMode::Line));
            r.push(GlCommand::UseProgram(self.mesh_program));
            Self::set_matrices(self.mesh_program, frame, &mut r);
            r.push(
                GlCommand::UniformUint {
                    program: self.mesh_program,
                    name: UniformName::TessLevel,
                    value: self.tessellation_level,
                },
            );
            self.set_uniforms(self.mesh_program, frame, &mut r);
            r.push(GlCommand::DrawPatches { first: 0, count: 16 });
            r.push(GlCommand::PolygonMode(PolygonMode::Fill));
            assert(r@ =~= after_fill + wireframe_pass(*self, *frame));
        }
        r.push(GlCommand::DepthFunc(DepthTest::Always));
        r.push(GlCommand::BindVertexArray(0));
        assert(r@ =~= draw_plan(*self, *frame));
        r
    }

    /// The 16 control-point heights as 64 little-endian bytes.
    pub fn z_bytes(&self) -> (r: Vec<u8>)
        requires
            self.wf(),
        ensures
            r@ == encode_heights(heights(self.vertices@)),
    {
        let mut r: Vec<u8> = Vec::new();
        let mut p: usize = 0;
        while p < PATCH_POINTS
            invariant
                self.wf(),
                p <= 16,
                r@.len() == 4 * p,
                forall|k: int| 0 <= k < 4 * p ==> r@[k] == byte_of(z_at(self.vertices@, k / 4), k % 4),
            decreases 16 - p,
        {
            let x = self.vertices[p * 3 + 2];
            r.push((x & 0xFFu32) as u8);
            r.push(((x >> 8u32) & 0xFFu32) as u8);
            r.push(((x >> 16u32) & 0xFFu32) as u8);
            r.push(((x >> 24u32) & 0xFFu32) as u8);
            p = p + 1;
        }
        assert(r@ =~= encode_heights(heights(self.vertices@)));
        r
    }

    /// Sets the heights, bit for bit, from 64 bytes written by
    /// [`Grid::z_bytes`], and re-uploads the vertex buffer. Any other length
    /// is refused and the surface left as it was.
    pub fn restore_z_coords(&mut self, bytes: &Vec<u8>) -> (r: Result<Vec<GlCommand>, HeightsError>)
        requires
            old(self).wf(),
        ensures
            final(self).wf(),
            same_settings(*final(self), *old(self)),
            bytes@.len() != 64 <==> r is Err,
            bytes@.len() != 64 ==> r == Err::<Vec<GlCommand>, HeightsError>(HeightsError::WrongLength)
                && final(self).vertices@ == old(self).vertices@,
            bytes@.len() == 64 ==> final(self).vertices@ == with_heights(
                old(self).vertices@,
                decode_heights(bytes@),
            ),
            r matches Ok(cmds) ==> is_upload_plan(cmds@, *final(self)),
    {
        if bytes.len() != 64 {
            return Err(HeightsError::WrongLength);
        }
        let ghost v0 = self.vertices@;
        let ghost z = decode_heights(bytes@);
        let mut p: usize = 0;
        while p < PATCH_POINTS
            invariant
                p <= 16,
                bytes@.len() == 64,
                z == decode_heights(bytes@),
                self.wf(),
                same_settings(*self, *old(self)),
                v0 == old(self).vertices@,
                forall|t: int| 0 <= t < 48 && (t % 3 != 2 || t / 3 >= p) ==> self.vertices@[t] == v0[t],
                forall|t: int| 0 <= t < 48 && t % 3 == 2 && t / 3 < p ==> self.vertices@[t] == z[t / 3],
            decreases 16 - p,
        {
            let k = 4 * p;
            let x = (bytes[k] as u32) | ((bytes[k + 1] as u32) << 8u32) | ((bytes[k + 2] as u32)
                << 16u32) | ((bytes[k + 3] as u32) << 24u32);
            self.vertices.set(p * 3 + 2, x);
            p = p + 1;
        }
        assert(self.vertices@ =~= with_heights(v0, z));
        Ok(self.init_grid())
    }

    /// Sets the tessellation level, raising 0 to the lowest level, 1.
    pub fn set_tessellation_level(&mut self, level: u32)
        requires
            old(self).wf(),
        ensures
            final(self).wf(),
            final(self).tessellation_level == if level == 0 { 1 } else { level },
            final(self).vertices@ == old(self).vertices@,
    {
        self.tessellation_level = if level == 0 { 1 } else { level };
    }

    /// Attaches a loaded diffuse texture, replacing any earlier one.
    pub fn add_texture(&mut self, texture: u32)
        ensures
            final(self).texture == Some(texture),
            final(self).normal_map == old(self).normal_map,
            final(self).vertices@ == old(self).vertices@,
            final(self).tessellation_level == old(self).tessellation_level,
    {
        self.texture = Some(texture);
    }

    /// Attaches a loaded normal map, replacing any earlier one.
    pub fn add_normal_map(&mut self, normal_map: u32)
        ensures
            final(self).normal_map == Some(normal_map),
            final(self).texture == old(self).texture,
            final(self).vertices@ == old(self).vertices@,
            final(self).tessellation_level == old(self).tessellation_level,
    {
        self.normal_map = Some(normal_map);
    }

    /// Detaches the diffuse texture.
    pub fn remove_texture(&mut self)
        ensures
            final(self).texture is None,
            final(self).normal_map == old(self).normal_map,
            final(self).vertices@ == old(self).vertices@,
            final(self).tessellation_level == old(self).tessellation_level,
    {
        self.texture = None;
    }

    /// Detaches the normal map.
    pub fn remove_normal_map(&mut self)
        ensures
            final(self).normal_map is None,
            final(self).texture == old(self).texture,
            final(self).vertices@ == old(self).vertices@,
            final(self).tessellation_level == old(self).tessellation_level,
    {
        self.normal_map = None;
    }
}

/// No command in `s` binds a texture to unit 0.
pub open spec fn no_unit0_binding(s: Seq<GlCommand>) -> bool {
    forall|i: int| 0 <= i < s.len() ==> !(#[trigger] s[i] matches GlCommand::ActivateTexture { unit: 0, .. })
}

proof fn lemma_no_unit0_concat(a: Seq<GlCommand>, b: Seq<GlCommand>)
    requires
        no_unit0_binding(a),
        no_unit0_binding(b),
    ensures
        no_unit0_binding(a + b),
{
    assert forall|i: int| 0 <= i < (a + b).len() implies !(#[trigger] (a + b)[i] matches GlCommand::ActivateTexture { unit: 0, .. }) by {
        if i < a.len() {
            assert((a + b)[i] == a[i]);
        } else {
            assert((a + b)[i] == b[i - a.len()]);
        }
    }
}

/// With the filled pass on, a frame sets the texture-present flag to whether
/// a diffuse texture is attached. Without one, no texture is bound to unit 0;
/// with one, it is bound to unit 0 right after the flag.
pub proof fn lemma_texture_flag(g: Grid, f: FrameMatrices)
    requires
        g.fill,
    ensures
        g.texture is None ==> draw_plan(g, f)[16] == (GlCommand::UniformBool {
            program: g.program,
            name: UniformName::IsTextureSet,
            value: false,
        }) && no_unit0_binding(draw_plan(g, f)),
        g.texture matches Some(t) ==> draw_plan(g, f)[16] == (GlCommand::UniformBool {
            program: g.program,
            name: UniformName::IsTextureSet,
            value: true,
        }) && draw_plan(g, f)[17] == (GlCommand::ActivateTexture { unit: 0, texture: t }),
{
    let head = seq![GlCommand::DepthFunc(DepthTest::Less), GlCommand::BindVertexArray(g.vao)];
    let tail = seq![GlCommand::DepthFunc(DepthTest::Always), GlCommand::BindVertexArray(0)];
    let shared = shared_uniforms(g, g.program, f);
    assert(shared.len() == 13);
    let tex = texture_slot(g.program, UniformName::IsTextureSet, g.texture, 0);
    let nrm = texture_slot(g.program, UniformName::IsNormalMapSet, g.normal_map, 1);
    let fp = seq![GlCommand::UseProgram(g.program)] + shared + tex + nrm + seq![draw_patch()];
    let wp = if g.mesh { wireframe_pass(g, f) } else { Seq::empty() };
    assert(fill_pass(g, f) == fp);
    assert(draw_plan(g, f) == head + fp + wp + tail);
    assert((head + fp + wp + tail)[16] == tex[0]);
    if g.texture is Some {
        assert((head + fp + wp + tail)[17] == tex[1]);
    } else {
        assert(no_unit0_binding(head));
        assert(no_unit0_binding(seq![GlCommand::UseProgram(g.program)]));
        assert(no_unit0_binding(shared));
        assert(no_unit0_binding(tex));
        assert(no_unit0_binding(nrm));
        assert(no_unit0_binding(seq![draw_patch()]));
        assert(no_unit0_binding(matrix_uniforms(g.mesh_program, f)));
        assert(no_unit0_binding(shared_uniforms(g, g.mesh_program, f)));
        lemma_no_unit0_concat(seq![GlCommand::PolygonMode(PolygonMode::Line),
            GlCommand::UseProgram(g.mesh_program)], matrix_uniforms(g.mesh_program, f));
        lemma_no_unit0_concat(seq![GlCommand::PolygonMode(PolygonMode::Line),
            GlCommand::UseProgram(g.mesh_program)] + matrix_uniforms(g.mesh_program, f), seq![
            GlCommand::UniformUint { program: g.mesh_program, name: UniformName::TessLevel, value: g.tessellation_level },
        ]);
        lemma_no_unit0_concat(seq![GlCommand::PolygonMode(PolygonMode::Line),
            GlCommand::UseProgram(g.mesh_program)] + matrix_uniforms(g.mesh_program, f) + seq![
            GlCommand::UniformUint { program: g.mesh_program, name: UniformName::TessLevel, value: g.tessellation_level },
        ], shared_uniforms(g, g.mesh_program, f));
        lemma_no_unit0_concat(seq![GlCommand::PolygonMode(PolygonMode::Line),
            GlCommand::UseProgram(g.mesh_program)] + matrix_uniforms(g.mesh_program, f) + seq![
            GlCommand::UniformUint { program: g.mesh_program, name: UniformName::TessLevel, value: g.tessellation_level },
        ] + shared_uniforms(g, g.mesh_program, f), seq![draw_patch(), GlCommand::PolygonMode(PolygonMode::Fill)]);
        assert(no_unit0_binding(wp));
        lemma_no_unit0_concat(seq![GlCommand::UseProgram(g.program)], shared);
        lemma_no_unit0_concat(seq![GlCommand::UseProgram(g.program)] + shared, tex);
        lemma_no_unit0_concat(seq![GlCommand::UseProgram(g.program)] + shared + tex, nrm);
        lemma_no_unit0_concat(seq![GlCommand::UseProgram(g.program)] + shared + tex + nrm, seq![draw_patch()]);
        lemma_no_unit0_concat(head, fp);
        lemma_no_unit0_concat(head + fp, wp);
        lemma_no_unit0_concat(head + fp + wp, tail);
    }
}

/// The normal matrix that the filled pass uploads is the upper-left 3x3
/// block of the view matrix, whatever the model rotation.
pub proof fn lemma_normal_matrix_is_view_block(g: Grid, f: FrameMatrices)
    requires
        g.fill,
    ensures
        draw_plan(g, f)[7] == (GlCommand::UniformMat3 {
            program: g.program,
            name: UniformName::NormalMatrix,
            value: upper_left(f.view),
        }),
{
    assert(draw_plan(g, f)[7] == fill_pass(g, f)[5]);
    assert(fill_pass(g, f)[5] == shared_uniforms(g, g.program, f)[4]);
    assert(shared_uniforms(g, g.program, f)[4] == matrix_uniforms(g.program, f)[2]);
}

/// Writing a surface's heights to bytes and restoring them into any surface
/// reproduces the first surface's control points, and so its vertex buffer
/// upload, bit for bit.
pub proof fn lemma_heights_round_trip(g: Grid, h: Grid)
    requires
        g.wf(),
        h.wf(),
    ensures
        encode_heights(heights(g.vertices@)).len() == 64,
        with_heights(h.vertices@, decode_heights(encode_heights(heights(g.vertices@))))
            == g.vertices@,
{
    let z = heights(g.vertices@);
    let b = encode_heights(z);
    assert forall|p: int| 0 <= p < 16 implies #[trigger] decode_heights(b)[p] == z[p] by {
        lemma_le_round_trip(z[p]);
        assert(b[4 * p] == byte_of(z[p], 0));
        assert(b[4 * p + 1] == byte_of(z[p], 1));
        assert(b[4 * p + 2] == byte_of(z[p], 2));
        assert(b[4 * p + 3] == byte_of(z[p], 3));
    }
    assert forall|t: int| 0 <= t < 48 implies #[trigger] with_heights(h.vertices@, decode_heights(b))[t]
        == g.vertices@[t] by {
        assert(b.len() == 64);
        assert(decode_heights(b).len() == 16);
        if t % 3 == 2 {
            assert(3 * (t / 3) + 2 == t);
            assert(decode_heights(b)[t / 3] == z[t / 3]);
            assert(z[t / 3] == g.vertices@[t]);
        } else {
            assert(h.vertices@[t] == lattice_value(t));
            assert(g.vertices@[t] == lattice_value(t));
        }
    }
    assert(with_heights(h.vertices@, decode_heights(b)) =~= g.vertices@);
}

} // verus!
