//! Values handed to the graphics API, and the commands that carry them.

use vstd::prelude::*;

verus! {

/// An opaque RGB colour, one byte per channel.
#[derive(Clone, Copy, Debug, PartialEq, Eq, Structural)]
pub struct Rgb {
    pub r: u8,
    pub g: u8,
    pub b: u8,
}

impl Rgb {
    /// Opaque white.
    pub fn white() -> (r: Rgb)
        ensures
            r == (Rgb { r: 255, g: 255, b: 255 }),
    {
        Rgb { r: 255, g: 255, b: 255 }
    }
}

/// A 3-component vector of single-precision bit patterns.
#[derive(Clone, Copy, Debug, PartialEq, Eq, Structural)]
pub struct Vec3Bits {
    pub x: u32,
    pub y: u32,
    pub z: u32,
}

/// A 4-component vector of single-precision bit patterns.
#[derive(Clone, Copy, Debug, PartialEq, Eq, Structural)]
pub struct Vec4Bits {
    pub x: u32,
    pub y: u32,
    pub z: u32,
    pub w: u32,
}

/// A column-major 4x4 matrix of single-precision bit patterns.
#[derive(Clone, Copy, Debug, PartialEq, Eq, Structural)]
pub struct Mat4Bits {
    pub x_axis: Vec4Bits,
    pub y_axis: Vec4Bits,
    pub z_axis: Vec4Bits,
    pub w_axis: Vec4Bits,
}

/// A column-major 3x3 matrix of single-precision bit patterns.
#[derive(Clone, Copy, Debug, PartialEq, Eq, Structural)]
pub struct Mat3Bits {
    pub x_axis: Vec3Bits,
    pub y_axis: Vec3Bits,
    pub z_axis: Vec3Bits,
}

/// The first three components of a column.
pub open spec fn xyz(v: Vec4Bits) -> Vec3Bits {
    Vec3Bits { x: v.x, y: v.y, z: v.z }
}

/// The upper-left 3x3 block of a 4x4 matrix.
pub open spec fn upper_left(m: Mat4Bits) -> Mat3Bits {
    Mat3Bits { x_axis: xyz(m.x_axis), y_axis: xyz(m.y_axis), z_axis: xyz(m.z_axis) }
}

/// Depth comparison used by the depth test.
#[derive(Clone, Copy, Debug, PartialEq, Eq, Structural)]
pub enum DepthTest {
    Less,
    Always,
}

/// How polygons are rasterised.
#[derive(Clone, Copy, Debug, PartialEq, Eq, Structural)]
pub enum PolygonMode {
    Line,
    Fill,
}

/// The uniforms that the surface programs declare.
#[derive(Clone, Copy, Debug, PartialEq, Eq, Structural)]
pub enum UniformName {
    LightPos,
    CameraPos,
    ObjectColor,
    LightColor,
    Kd,
    Ks,
    M,
    MainLight,
    Reflectors,
    TessLevel,
    Mvp,
    ModelViewMatrix,
    NormalMatrix,
    IsTextureSet,
    IsNormalMapSet,
}

/// The identifier under which a uniform is declared in the shader sources.
pub open spec fn uniform_text(n: UniformName) -> Seq<char> {
    match n {
        UniformName::LightPos => seq!['l', 'i', 'g', 'h', 't', 'P', 'o', 's'],
        UniformName::CameraPos => seq!['c', 'a', 'm', 'e', 'r', 'a', 'P', 'o', 's'],
        UniformName::ObjectColor => seq![
            'o', 'b', 'j', 'e', 'c', 't', 'C', 'o', 'l', 'o', 'r',
        ],
        UniformName::LightColor => seq!['l', 'i', 'g', 'h', 't', 'C', 'o', 'l', 'o', 'r'],
        UniformName::Kd => seq!['k', 'd'],
        UniformName::Ks => seq!['k', 's'],
        UniformName::M => seq!['m'],
        UniformName::MainLight => seq!['m', 'a', 'i', 'n', '_', 'l', 'i', 'g', 'h', 't'],
        UniformName::Reflectors => seq!['r', 'e', 'f', 'l', 'e', 'c', 't', 'o', 'r', 's'],
        UniformName::TessLevel => seq!['T', 'e', 's', 's', 'L', 'e', 'v', 'e', 'l'],
        UniformName::Mvp => seq!['M', 'V', 'P'],
        UniformName::ModelViewMatrix => seq![
            'M', 'o', 'd', 'e', 'l', 'V', 'i', 'e', 'w', 'M', 'a', 't', 'r', 'i', 'x',
        ],
        UniformName::NormalMatrix => seq![
            'N', 'o', 'r', 'm', 'a', 'l', 'M', 'a', 't', 'r', 'i', 'x',
        ],
        UniformName::IsTextureSet => seq![
            'i', 's', 'T', 'e', 'x', 't', 'u', 'r', 'e', 'S', 'e', 't',
        ],
        UniformName::IsNormalMapSet => seq![
            'i', 's', 'N', 'o', 'r', 'm', 'a', 'l', 'M', 'a', 'p', 'S', 'e', 't',
        ],
    }
}

impl UniformName {
    /// The shader identifier of this uniform.
    pub fn as_str(&self) -> (r: &'static str)
        ensures
            r@ == uniform_text(*self),
    {
        match self {
            UniformName::LightPos => {
                proof {
                    reveal_strlit("lightPos");
                    assert("lightPos"@ =~= uniform_text(*self));
                }
                "lightPos"
            },
            UniformName::CameraPos => {
                proof {
                    reveal_strlit("cameraPos");
                    assert("cameraPos"@ =~= uniform_text(*self));
                }
                "cameraPos"
            },
            UniformName::ObjectColor => {
                proof {
                    reveal_strlit("objectColor");
                    assert("objectColor"@ =~= uniform_text(*self));
                }
                "objectColor"
            },
            UniformName::LightColor => {
                proof {
                    reveal_strlit("lightColor");
                    assert("lightColor"@ =~= uniform_text(*self));
                }
                "lightColor"
            },
            UniformName::Kd => {
                proof {
                    reveal_strlit("kd");
                    assert("kd"@ =~= uniform_text(*self));
                }
                "kd"
            },
            UniformName::Ks => {
                proof {
                    reveal_strlit("ks");
                    assert("ks"@ =~= uniform_text(*self));
                }
                "ks"
            },
            UniformName::M => {
                proof {
                    reveal_strlit("m");
                    assert("m"@ =~= uniform_text(*self));
                }
                "m"
            },
            UniformName::MainLight => {
                proof {
                    reveal_strlit("main_light");
                    assert("main_light"@ =~= uniform_text(*self));
                }
                "main_light"
            },
            UniformName::Reflectors => {
                proof {
                    reveal_strlit("reflectors");
                    assert("reflectors"@ =~= uniform_text(*self));
                }
                "reflectors"
            },
            UniformName::TessLevel => {
                proof {
                    reveal_strlit("TessLevel");
                    assert("TessLevel"@ =~= uniform_text(*self));
                }
                "TessLevel"
            },
            UniformName::Mvp => {
                proof {
                    reveal_strlit("MVP");
                    assert("MVP"@ =~= uniform_text(*self));
                }
                "MVP"
            },
            UniformName::ModelViewMatrix => {
                proof {
                    reveal_strlit("ModelViewMatrix");
                    assert("ModelViewMatrix"@ =~= uniform_text(*self));
                }
                "ModelViewMatrix"
            },
            UniformName::NormalMatrix => {
                proof {
                    reveal_strlit("NormalMatrix");
                    assert("NormalMatrix"@ =~= uniform_text(*self));
                }
                "NormalMatrix"
            },
            UniformName::IsTextureSet => {
                proof {
                    reveal_strlit("isTextureSet");
                    assert("isTextureSet"@ =~= uniform_text(*self));
                }
                "isTextureSet"
            },
            UniformName::IsNormalMapSet => {
                proof {
                    reveal_strlit("isNormalMapSet");
                    assert("isNormalMapSet"@ =~= uniform_text(*self));
                }
                "isNormalMapSet"
            },
        }
    }
}

#[allow(inconsistent_fields)]
/// One call into the graphics API. Floating-point payloads are bit patterns;
/// colours are bytes that the host scales to `[0, 1]`.
#[derive(Clone, Debug, PartialEq)]
pub enum GlCommand {
    DepthFunc(DepthTest),
    BindVertexArray(u32),
    BindArrayBuffer(u32),
    /// Replaces the whole bound array buffer with these values.
    BufferData(Vec<u32>),
    /// Attribute `index` reads `components` floats per vertex, `stride` floats
    /// apart, starting `offset` floats into each vertex.
    VertexAttribLayout { index: u32, components: u32, stride: u32, offset: u32 },
    EnableVertexAttrib(u32),
    PatchVertices(u32),
    UseProgram(u32),
    UniformBool { program: u32, name: UniformName, value: bool },
    UniformUint { program: u32, name: UniformName, value: u32 },
    UniformFloat { program: u32, name: UniformName, value: u32 },
    UniformVec3 { program: u32, name: UniformName, value: Vec3Bits },
    UniformColor { program: u32, name: UniformName, value: Rgb },
    UniformMat4 { program: u32, name: UniformName, value: Mat4Bits },
    UniformMat3 { program: u32, name: UniformName, value: Mat3Bits },
    /// Binds `texture` to texture unit `unit`.
    ActivateTexture { unit: u32, texture: u32 },
    PolygonMode(PolygonMode),
    DrawPatches { first: u32, count: u32 },
    BindElementBuffer(u32),
    /// Replaces the whole bound element buffer with these indices.
    ElementData(Vec<u32>),
    /// Points the sampler uniform `<kind><number>` of `program` at texture unit `unit`.
    SamplerUniform { program: u32, kind: SamplerKind, number: u32, unit: u32 },
    BindTexture2D(u32),
    /// Draws `count` indexed triangles from the bound element buffer.
    DrawElements { count: u32 },
    ActiveTextureUnit(u32),
}

/// The kinds of mesh texture that a shader samples.
#[derive(Clone, Copy, Debug, PartialEq, Eq, Structural)]
pub enum SamplerKind {
    Diffuse,
    Specular,
}

} // verus!
