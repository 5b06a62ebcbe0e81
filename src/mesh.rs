//! Indexed triangle meshes with typed textures.

use vstd::prelude::*;
use crate::gpu::{GlCommand, SamplerKind, Vec3Bits};

verus! {

/// A 2-component vector of single-precision bit patterns.
#[derive(Clone, Copy, Debug, PartialEq, Eq, Structural)]
pub struct Vec2Bits {
    pub x: u32,
    pub y: u32,
}

/// One mesh vertex.
#[derive(Clone, Copy, Debug, PartialEq, Eq, Structural)]
pub struct Vertex {
    pub position: Vec3Bits,
    pub normal: Vec3Bits,
    pub tex_coords: Vec2Bits,
}

/// A loaded texture and the role its type string gives it.
pub struct Texture {
    pub id: u32,
    pub texture_type: String,
}

/// An indexed triangle mesh and the GPU objects that hold it.
pub struct Mesh {
    pub vertices: Vec<Vertex>,
    pub indices: Vec<u32>,
    pub textures: Vec<Texture>,
    pub vao: u32,
    pub vbo: u32,
    pub ebo: u32,
}

/// Type string of a diffuse texture.
pub open spec fn diffuse_text() -> Seq<char> {
    "texture_diffuse"@
}

/// Type string of a specular texture.
pub open spec fn specular_text() -> Seq<char> {
    "texture_specular"@
}

/// The sampler kind that a texture type string names, if any.
pub open spec fn kind_of(t: Seq<char>) -> Option<SamplerKind> {
    if t == diffuse_text() {
        Some(SamplerKind::Diffuse)
    } else if t == specular_text() {
        Some(SamplerKind::Specular)
    } else {
        None
    }
}

/// How many of the first `n` textures are of kind `k`.
pub open spec fn kind_count(ts: Seq<Texture>, k: SamplerKind, n: int) -> nat
    decreases n,
{
    if n <= 0 {
        0
    } else {
        kind_count(ts, k, n - 1) + if kind_of(ts[n - 1].texture_type@) == Some(k) {
            1nat
        } else {
            0nat
        }
    }
}

/// Whether two strings hold the same characters.
fn same_text(a: &str, b: &str) -> (r: bool)
    ensures
        r == (a@ == b@),
{
    let n = a.unicode_len();
    if n != b.unicode_len() {
        return false;
    }
    let mut i: usize = 0;
    while i < n
        invariant
            n == a@.len(),
            n == b@.len(),
            i <= n,
            forall|j: int| 0 <= j < i ==> a@[j] == b@[j],
        decreases n - i,
    {
        if a.get_char(i) != b.get_char(i) {
            return false;
        }
        i = i + 1;
    }
    assert(a@ =~= b@);
    true
}

/// The sampler kind of a texture type string: `texture_diffuse` or
/// `texture_specular`; any other type has none.
pub fn texture_kind(texture_type: &str) -> (r: Option<SamplerKind>)
    ensures
        r == kind_of(texture_type@),
{
    if same_text(texture_type, "texture_diffuse") {
        Some(SamplerKind::Diffuse)
    } else if same_text(texture_type, "texture_specular") {
        Some(SamplerKind::Specular)
    } else {
        None
    }
}

/// The commands that texture `i` contributes to a draw: none for a texture
/// of no sampler kind; otherwise its sampler `<kind><number>` (numbered
/// from 1 within its kind) set to unit `i`, the texture bound, and the
/// whole mesh drawn.
pub open spec fn texture_step(m: Mesh, shader: u32, i: int) -> Seq<GlCommand> {
    match kind_of(m.textures@[i].texture_type@) {
        Some(k) => seq![
            GlCommand::SamplerUniform {
                program: shader,
                kind: k,
                number: kind_count(m.textures@, k, i + 1) as u32,
                unit: i as u32,
            },
            GlCommand::BindTexture2D(m.textures@[i].id),
            GlCommand::BindVertexArray(m.vao),
            GlCommand::DrawElements { count: m.indices@.len() as u32 },
            GlCommand::BindVertexArray(0),
            GlCommand::ActiveTextureUnit(0),
        ],
        None => Seq::empty(),
    }
}

/// The commands for the first `n` textures.
pub open spec fn mesh_plan(m: Mesh, shader: u32, n: int) -> Seq<GlCommand>
    decreases n,
{
    if n <= 0 {
        Seq::empty()
    } else {
        mesh_plan(m, shader, n - 1) + texture_step(m, shader, n - 1)
    }
}

/// Float `j` of a vertex in the interleaved layout: position (0..3),
/// normal (3..6), texture coordinates (6..8).
pub open spec fn vertex_float(v: Vertex, j: int) -> u32 {
    if j == 0 {
        v.position.x
    } else if j == 1 {
        v.position.y
    } else if j == 2 {
        v.position.z
    } else if j == 3 {
        v.normal.x
    } else if j == 4 {
        v.normal.y
    } else if j == 5 {
        v.normal.z
    } else if j == 6 {
        v.tex_coords.x
    } else {
        v.tex_coords.y
    }
}

/// Floats per interleaved vertex.
pub const VERTEX_FLOATS: u32 = 8;

/// The vertices as one interleaved buffer of 8 floats each.
pub open spec fn interleaved(vs: Seq<Vertex>) -> Seq<u32> {
    Seq::new(8 * vs.len(), |k: int| vertex_float(vs[k / 8], k % 8))
}

/// Commands that upload a mesh and describe its vertex layout.
pub open spec fn is_mesh_upload_plan(cmds: Seq<GlCommand>, m: Mesh) -> bool {
    &&& cmds.len() == 12
    &&& cmds[0] == GlCommand::BindVertexArray(m.vao)
    &&& cmds[1] == GlCommand::BindArrayBuffer(m.vbo)
    &&& cmds[2] is BufferData
    &&& cmds[2]->BufferData_0@ == interleaved(m.vertices@)
    &&& cmds[3] == GlCommand::BindElementBuffer(m.ebo)
    &&& cmds[4] is ElementData
    &&& cmds[4]->ElementData_0@ == m.indices@
    &&& cmds[5] == GlCommand::EnableVertexAttrib(0)
    &&& cmds[6] == (GlCommand::VertexAttribLayout { index: 0, components: 3, stride: 8, offset: 0 })
    &&& cmds[7] == GlCommand::EnableVertexAttrib(1)
    &&& cmds[8] == (GlCommand::VertexAttribLayout { index: 1, components: 3, stride: 8, offset: 3 })
    &&& cmds[9] == GlCommand::EnableVertexAttrib(2)
    &&& cmds[10] == (GlCommand::VertexAttribLayout { index: 2, components: 2, stride: 8, offset: 6 })
    &&& cmds[11] == GlCommand::BindVertexArray(0)
}

impl Texture {
    /// A texture of GPU name `id` and type string `texture_type`.
    pub fn new(id: u32, texture_type: String) -> (r: Texture)
        ensures
            r.id == id,
            r.texture_type@ == texture_type@,
    {
        Texture { id, texture_type }
    }
}

impl Mesh {
    /// A mesh of these vertices, indices and textures, with no GPU objects
    /// yet; [`Mesh::setup_mesh`] gives it some.
    pub fn new(vertices: Vec<Vertex>, indices: Vec<u32>, textures: Vec<Texture>) -> (r: Mesh)
        ensures
            r.vertices@ == vertices@,
            r.indices@ == indices@,
            r.textures@ == textures@,
            r.vao == 0,
            r.vbo == 0,
            r.ebo == 0,
    {
        Mesh { vertices, indices, textures, vao: 0, vbo: 0, ebo: 0 }
    }

    /// Takes the GPU objects that the host created for this mesh and uploads
    /// its vertices, interleaved, and its indices.
    pub fn setup_mesh(&mut self, vao: u32, vbo: u32, ebo: u32) -> (r: Vec<GlCommand>)
        requires
            old(self).vertices@.len() <= 0x0FFF_FFFF,
        ensures
            final(self).vertices@ == old(self).vertices@,
            final(self).indices@ == old(self).indices@,
            final(self).textures@ == old(self).textures@,
            final(self).vao == vao,
            final(self).vbo == vbo,
            final(self).ebo == ebo,
            is_mesh_upload_plan(r@, *final(self)),
    {
        self.vao = vao;
        self.vbo = vbo;
        self.ebo = ebo;
        let mut data: Vec<u32> = Vec::new();
        let mut i: usize = 0;
        while i < self.vertices.len()
            invariant
                i <= self.vertices@.len() <= 0x0FFF_FFFF,
                data@.len() == 8 * i,
                forall|k: int| 0 <= k < 8 * i ==> data@[k] == vertex_float(self.vertices@[k / 8], k % 8),
            decreases self.vertices@.len() - i,
        {
            let v = self.vertices[i];
            data.push(v.position.x);
            data.push(v.position.y);
            data.push(v.position.z);
            data.push(v.normal.x);
            data.push(v.normal.y);
            data.push(v.normal.z);
            data.push(v.tex_coords.x);
            data.push(v.tex_coords.y);
            i = i + 1;
        }
        assert(data@ =~= interleaved(self.vertices@));
        let mut r: Vec<GlCommand> = Vec::new();
        r.push(GlCommand::BindVertexArray(vao));
        r.push(GlCommand::BindArrayBuffer(vbo));
        r.push(GlCommand::BufferData(data));
        r.push(GlCommand::BindElementBuffer(ebo));
        r.push(GlCommand::ElementData(self.indices.clone()));
        r.push(GlCommand::EnableVertexAttrib(0));
        r.push(GlCommand::VertexAttribLayout { index: 0, components: 3, stride: VERTEX_FLOATS, offset: 0 });
        r.push(GlCommand::EnableVertexAttrib(1));
        r.push(GlCommand::VertexAttribLayout { index: 1, components: 3, stride: VERTEX_FLOATS, offset: 3 });
        r.push(GlCommand::EnableVertexAttrib(2));
        r.push(GlCommand::VertexAttribLayout { index: 2, components: 2, stride: VERTEX_FLOATS, offset: 6 });
        r.push(GlCommand::BindVertexArray(0));
        r
    }

    /// Draws the mesh once for each texture of a sampler kind, numbering the
    /// samplers of each kind from 1 in texture order.
    pub fn draw(&self, shader: u32) -> (r: Vec<GlCommand>)
        requires
            self.textures@.len() <= 0x7FFF_FFFF,
            self.indices@.len() <= 0x7FFF_FFFF,
        ensures
            r@ == mesh_plan(*self, shader, self.textures@.len() as int),
    {
        let mut r: Vec<GlCommand> = Vec::new();
        let mut diffuse_nr: u32 = 0;
        let mut specular_nr: u32 = 0;
        let count = self.indices.len() as u32;
        let mut i: usize = 0;
        while i < self.textures.len()
            invariant
                i <= self.textures@.len() <= 0x7FFF_FFFF,
                count == self.indices@.len() as u32,
                diffuse_nr == kind_count(self.textures@, SamplerKind::Diffuse, i as int),
                specular_nr == kind_count(self.textures@, SamplerKind::Specular, i as int),
                diffuse_nr <= i,
                specular_nr <= i,
                r@ == mesh_plan(*self, shader, i as int),
            decreases self.textures@.len() - i,
        {
            let texture = &self.textures[i];
            let kind = texture_kind(texture.texture_type.as_str());
            let ghost before = r@;
            match kind {
                Some(k) => {
                    let number = match k {
                        SamplerKind::Diffuse => {
                            diffuse_nr = diffuse_nr + 1;
                            diffuse_nr
                        },
                        SamplerKind::Specular => {
                            specular_nr = specular_nr + 1;
                            specular_nr
                        },
                    };
                    r.push(GlCommand::SamplerUniform { program: shader, kind: k, number, unit: i as u32 });
                    r.push(GlCommand::BindTexture2D(texture.id));
                    r.push(GlCommand::BindVertexArray(self.vao));
                    r.push(GlCommand::DrawElements { count });
                    r.push(GlCommand::BindVertexArray(0));
                    r.push(GlCommand::ActiveTextureUnit(0));
                },
                None => {},
            }
            assert(r@ =~= before + texture_step(*self, shader, i as int));
            i = i + 1;
        }
        r
    }
}

} // verus!
