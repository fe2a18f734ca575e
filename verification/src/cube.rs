//! The mesh of the cube: six faces of four vertices each, twelve triangles,
//! and the layout in which both reach the device.
//!
//! Coordinates are kept in halves: the stored number is twice the coordinate.
//! A corner of the cube, half a unit from the center along each axis, has
//! components of 1 or -1; a unit normal has a component of 2 or -2; a color
//! channel that is fully on is 2.

use vstd::prelude::*;

use crate::camera::{LookAt, Matrix, Perspective, Spin};
use crate::gpu::{BufferKind, GlCommand, VertexAttribute};
use crate::shader::ProgramHandle;
use crate::upload::{cast_words, native_bytes};

verus! {

/// Number of faces.
pub const FACES: usize = 6;

/// Number of vertices: four to a face.
pub const VERTEX_COUNT: usize = 24;

/// Number of indices: two triangles to a face.
pub const INDEX_COUNT: usize = 36;

/// Number of components of a vertex: position, normal and color, three each.
pub const VERTEX_COMPONENTS: usize = 9;

/// Bytes from one vertex to the next in the vertex buffer.
pub const VERTEX_STRIDE: i32 = 36;

/// The GLSL source of the vertex stage. It places a vertex with
/// `u_projection * u_view * u_model` and hands position, normal and color on
/// in world space.
pub const VERTEX_SHADER_SOURCE: &'static str = "#version 330 core
layout(location = 0) in vec3 position;
layout(location = 1) in vec3 normal;
layout(location = 2) in vec3 color;
uniform mat4 u_projection;
uniform mat4 u_view;
uniform mat4 u_model;
out vec3 v_normal;
out vec3 v_color;
out vec3 v_position;
void main() {
    vec4 world_pos = u_model * vec4(position, 1.0);
    v_position = world_pos.xyz;
    v_normal = mat3(transpose(inverse(u_model))) * normal;
    v_color = color;
    gl_Position = u_projection * u_view * world_pos;
}
";

/// The GLSL source of the fragment stage. It lights the surface from the
/// direction (1, 1, 1): three tenths ambient, up to seven tenths diffuse.
pub const FRAGMENT_SHADER_SOURCE: &'static str = "#version 330 core
in vec3 v_normal;
in vec3 v_color;
in vec3 v_position;
out vec4 frag_color;
void main() {
    vec3 light_dir = normalize(vec3(1.0, 1.0, 1.0));
    vec3 normal = normalize(v_normal);
    float ambient = 0.3;
    float diffuse = max(dot(normal, light_dir), 0.0) * 0.7;
    float lighting = ambient + diffuse;
    frag_color = vec4(v_color * lighting, 1.0);
}
";

/// Three components in halves.
#[derive(Clone, Copy, Debug, PartialEq, Eq, Structural)]
pub struct Half3 {
    pub x: i8,
    pub y: i8,
    pub z: i8,
}

/// One vertex of the mesh.
#[derive(Clone, Copy, Debug, PartialEq, Eq, Structural)]
pub struct Vertex {
    pub position: Half3,
    pub normal: Half3,
    pub color: Half3,
}

/// The mesh resource: the cube's vertices and indices, and the program that
/// draws them.
#[derive(Debug)]
pub struct Cube {
    vertices: Vec<Vertex>,
    indices: Vec<u32>,
    #[allow(dead_code)]
    program: ProgramHandle,
    index_count: i32,
}

/// Inner product of two vectors.
pub open spec fn dot(a: Half3, b: Half3) -> int {
    a.x * b.x + a.y * b.y + a.z * b.z
}

/// Inner product of `n` with the cross product of the edges `a -> b` and
/// `a -> c`. It is positive exactly when, seen from the side that `n` points
/// to, the corners `a`, `b`, `c` run counter-clockwise.
pub open spec fn winding(a: Half3, b: Half3, c: Half3, n: Half3) -> int {
    let ux = b.x - a.x;
    let uy = b.y - a.y;
    let uz = b.z - a.z;
    let vx = c.x - a.x;
    let vy = c.y - a.y;
    let vz = c.z - a.z;
    (uy * vz - uz * vy) * n.x + (uz * vx - ux * vz) * n.y + (ux * vy - uy * vx) * n.z
}

/// The side of the cube that a face lies on: 1 for the even faces (front,
/// top, right), -1 for the odd ones (back, bottom, left).
pub open spec fn face_side(face: int) -> int {
    if face % 2 == 0 {
        1
    } else {
        -1
    }
}

/// First in-plane coordinate of a corner. The corners of a face run
/// (-1, -1), (1, -1), (1, 1), (-1, 1).
pub open spec fn corner_u(corner: int) -> int {
    if corner == 1 || corner == 2 {
        1
    } else {
        -1
    }
}

/// Second in-plane coordinate of a corner.
pub open spec fn corner_v(corner: int) -> int {
    if corner == 2 || corner == 3 {
        1
    } else {
        -1
    }
}

/// The position of a corner of a face. Faces 0 and 1 lie across the Z axis,
/// with the plane spanned by X and Y; faces 2 and 3 across Y, spanned by X
/// and -Z; faces 4 and 5 across X, spanned by -Z and Y.
pub open spec fn corner_position(face: int, corner: int) -> Half3 {
    let s = face_side(face);
    let u = corner_u(corner);
    let v = corner_v(corner);
    if face / 2 == 0 {
        Half3 { x: u as i8, y: v as i8, z: s as i8 }
    } else if face / 2 == 1 {
        Half3 { x: u as i8, y: s as i8, z: (-v) as i8 }
    } else {
        Half3 { x: s as i8, y: v as i8, z: (-u) as i8 }
    }
}

/// The unit normal of a face, pointing out of the cube.
pub open spec fn face_normal(face: int) -> Half3 {
    let s = 2 * face_side(face);
    if face / 2 == 0 {
        Half3 { x: 0, y: 0, z: s as i8 }
    } else if face / 2 == 1 {
        Half3 { x: 0, y: s as i8, z: 0 }
    } else {
        Half3 { x: s as i8, y: 0, z: 0 }
    }
}

/// The color of a face: red, green, blue, yellow, magenta, cyan.
pub open spec fn face_color(face: int) -> Half3 {
    if face == 0 {
        Half3 { x: 2, y: 0, z: 0 }
    } else if face == 1 {
        Half3 { x: 0, y: 2, z: 0 }
    } else if face == 2 {
        Half3 { x: 0, y: 0, z: 2 }
    } else if face == 3 {
        Half3 { x: 2, y: 2, z: 0 }
    } else if face == 4 {
        Half3 { x: 2, y: 0, z: 2 }
    } else {
        Half3 { x: 0, y: 2, z: 2 }
    }
}

/// Vertex `i` of the mesh: corner `i % 4` of face `i / 4`.
pub open spec fn mesh_vertex(i: int) -> Vertex {
    Vertex {
        position: corner_position(i / 4, i % 4),
        normal: face_normal(i / 4),
        color: face_color(i / 4),
    }
}

/// The vertices of the mesh.
pub open spec fn mesh_vertices() -> Seq<Vertex> {
    Seq::new(VERTEX_COUNT as nat, |i: int| mesh_vertex(i))
}

/// The corner that position `k` of a face's six indices names. An even face
/// is split into the corners 0, 1, 2 and 2, 3, 0; an odd face, seen from the
/// other side, into 0, 2, 1 and 0, 3, 2.
pub open spec fn face_corner(face: int, k: int) -> int {
    if face % 2 == 0 {
        if k == 0 || k == 5 {
            0
        } else if k == 1 {
            1
        } else if k == 2 || k == 3 {
            2
        } else {
            3
        }
    } else {
        if k == 0 || k == 3 {
            0
        } else if k == 1 || k == 5 {
            2
        } else if k == 2 {
            1
        } else {
            3
        }
    }
}

/// Index `j` of the mesh: position `j % 6` of face `j / 6`.
pub open spec fn mesh_index(j: int) -> u32 {
    (4 * (j / 6) + face_corner(j / 6, j % 6)) as u32
}

/// The indices of the mesh, three to a triangle.
pub open spec fn mesh_indices() -> Seq<u32> {
    Seq::new(INDEX_COUNT as nat, |j: int| mesh_index(j))
}

/// The bit pattern of the single-precision number that is half of `halves`,
/// for the five values that the mesh uses.
pub open spec fn half_bits(halves: i8) -> u32 {
    if halves == 0 {
        0
    } else if halves == 1 {
        0x3F00_0000
    } else if halves == 2 {
        0x3F80_0000
    } else if halves == -1 {
        0xBF00_0000
    } else {
        0xBF80_0000
    }
}

/// Component `k` of a vertex, in the order of the vertex buffer: position,
/// normal, color.
pub open spec fn vertex_component(vertex: Vertex, k: int) -> i8 {
    if k == 0 {
        vertex.position.x
    } else if k == 1 {
        vertex.position.y
    } else if k == 2 {
        vertex.position.z
    } else if k == 3 {
        vertex.normal.x
    } else if k == 4 {
        vertex.normal.y
    } else if k == 5 {
        vertex.normal.z
    } else if k == 6 {
        vertex.color.x
    } else if k == 7 {
        vertex.color.y
    } else {
        vertex.color.z
    }
}

/// The vertex buffer as 32-bit words: nine to a vertex.
pub open spec fn mesh_words() -> Seq<u32> {
    Seq::new(
        (VERTEX_COUNT * VERTEX_COMPONENTS) as nat,
        |i: int| half_bits(vertex_component(mesh_vertex(i / 9), i % 9)),
    )
}

/// Attribute `slot` of a vertex: 0 the position, 1 the normal, 2 the color.
pub open spec fn mesh_attribute(slot: int) -> VertexAttribute {
    VertexAttribute {
        location: slot as u32,
        components: 3,
        stride: VERTEX_STRIDE,
        offset: (12 * slot) as i32,
    }
}

/// The commands that put the mesh on the device: allocate the vertex array
/// and the two buffers, fill the buffers, describe the three attributes.
pub open spec fn upload_commands() -> Seq<GlCommand> {
    seq![
        GlCommand::CreateVertexArray,
        GlCommand::CreateBuffer(BufferKind::Vertices),
        GlCommand::CreateBuffer(BufferKind::Indices),
        GlCommand::BindVertexArray,
        GlCommand::BindBuffer(BufferKind::Vertices),
        GlCommand::BufferData(BufferKind::Vertices),
        GlCommand::BindBuffer(BufferKind::Indices),
        GlCommand::BufferData(BufferKind::Indices),
        GlCommand::VertexAttribPointer(mesh_attribute(0)),
        GlCommand::EnableVertexAttribArray(0),
        GlCommand::VertexAttribPointer(mesh_attribute(1)),
        GlCommand::EnableVertexAttribArray(1),
        GlCommand::VertexAttribPointer(mesh_attribute(2)),
        GlCommand::EnableVertexAttribArray(2),
        GlCommand::UnbindVertexArray,
    ]
}

/// The commands that draw the mesh with the three matrices.
pub open spec fn draw_commands(projection: Perspective, view: LookAt, model: Spin) -> Seq<
    GlCommand,
> {
    seq![
        GlCommand::UseProgram,
        GlCommand::UniformMatrix(Matrix::Projection(projection)),
        GlCommand::UniformMatrix(Matrix::View(view)),
        GlCommand::UniformMatrix(Matrix::Model(model)),
        GlCommand::BindVertexArray,
        GlCommand::DrawElements(INDEX_COUNT as i32),
        GlCommand::UnbindVertexArray,
    ]
}

/// The bit pattern of the single-precision number that is half of `halves`.
pub fn component_bits(halves: i8) -> (bits: u32)
    requires
        -2 <= halves <= 2,
    ensures
        bits == half_bits(halves),
{
    if halves == 0 {
        0
    } else if halves == 1 {
        0x3F00_0000
    } else if halves == 2 {
        0x3F80_0000
    } else if halves == -1 {
        0xBF00_0000
    } else {
        0xBF80_0000
    }
}

fn vertex(px: i8, py: i8, pz: i8, nx: i8, ny: i8, nz: i8, r: i8, g: i8, b: i8) -> (v: Vertex)
    ensures
        v == (Vertex {
            position: Half3 { x: px, y: py, z: pz },
            normal: Half3 { x: nx, y: ny, z: nz },
            color: Half3 { x: r, y: g, z: b },
        }),
{
    Vertex {
        position: Half3 { x: px, y: py, z: pz },
        normal: Half3 { x: nx, y: ny, z: nz },
        color: Half3 { x: r, y: g, z: b },
    }
}

impl Cube {
    #[verifier::type_invariant]
    spec fn well_formed(&self) -> bool {
        &&& self.vertices@ == mesh_vertices()
        &&& self.indices@ == mesh_indices()
        &&& self.index_count == INDEX_COUNT
    }

    /// The program that draws the mesh.
    pub closed spec fn program(&self) -> ProgramHandle {
        self.program
    }

    /// Makes the mesh for a linked program, and the commands that put it on
    /// the device.
    pub fn new(program: ProgramHandle) -> (made: (Cube, Vec<GlCommand>))
        ensures
            made.0.program() == program,
            made.1@ == upload_commands(),
    {
        let mut vertices: Vec<Vertex> = Vec::new();
        // front, red
        vertices.push(vertex(-1, -1, 1, 0, 0, 2, 2, 0, 0));
        vertices.push(vertex(1, -1, 1, 0, 0, 2, 2, 0, 0));
        vertices.push(vertex(1, 1, 1, 0, 0, 2, 2, 0, 0));
        vertices.push(vertex(-1, 1, 1, 0, 0, 2, 2, 0, 0));
        // back, green
        vertices.push(vertex(-1, -1, -1, 0, 0, -2, 0, 2, 0));
        vertices.push(vertex(1, -1, -1, 0, 0, -2, 0, 2, 0));
        vertices.push(vertex(1, 1, -1, 0, 0, -2, 0, 2, 0));
        vertices.push(vertex(-1, 1, -1, 0, 0, -2, 0, 2, 0));
        // top, blue
        vertices.push(vertex(-1, 1, 1, 0, 2, 0, 0, 0, 2));
        vertices.push(vertex(1, 1, 1, 0, 2, 0, 0, 0, 2));
        vertices.push(vertex(1, 1, -1, 0, 2, 0, 0, 0, 2));
        vertices.push(vertex(-1, 1, -1, 0, 2, 0, 0, 0, 2));
        // bottom, yellow
        vertices.push(vertex(-1, -1, 1, 0, -2, 0, 2, 2, 0));
        vertices.push(vertex(1, -1, 1, 0, -2, 0, 2, 2, 0));
        vertices.push(vertex(1, -1, -1, 0, -2, 0, 2, 2, 0));
        vertices.push(vertex(-1, -1, -1, 0, -2, 0, 2, 2, 0));
        // right, magenta
        vertices.push(vertex(1, -1, 1, 2, 0, 0, 2, 0, 2));
        vertices.push(vertex(1, -1, -1, 2, 0, 0, 2, 0, 2));
        vertices.push(vertex(1, 1, -1, 2, 0, 0, 2, 0, 2));
        vertices.push(vertex(1, 1, 1, 2, 0, 0, 2, 0, 2));
        // left, cyan
        vertices.push(vertex(-1, -1, 1, -2, 0, 0, 0, 2, 2));
        vertices.push(vertex(-1, -1, -1, -2, 0, 0, 0, 2, 2));
        vertices.push(vertex(-1, 1, -1, -2, 0, 0, 0, 2, 2));
        vertices.push(vertex(-1, 1, 1, -2, 0, 0, 0, 2, 2));
        assert(vertices@ =~= mesh_vertices());

        let table: [u32; 36] = [
            0, 1, 2, 2, 3, 0,
            4, 6, 5, 4, 7, 6,
            8, 9, 10, 10, 11, 8,
            12, 14, 13, 12, 15, 14,
            16, 17, 18, 18, 19, 16,
            20, 22, 21, 20, 23, 22,
        ];
        let mut indices: Vec<u32> = Vec::new();
        let mut j: usize = 0;
        while j < 36
            invariant
                j <= 36,
                indices@ == table@.take(j as int),
            decreases 36 - j,
        {
            indices.push(table[j]);
            assert(indices@ =~= table@.take(j + 1));
            j += 1;
        }
        assert(indices@ =~= mesh_indices());

        let mut commands: Vec<GlCommand> = Vec::new();
        commands.push(GlCommand::CreateVertexArray);
        commands.push(GlCommand::CreateBuffer(BufferKind::Vertices));
        commands.push(GlCommand::CreateBuffer(BufferKind::Indices));
        commands.push(GlCommand::BindVertexArray);
        commands.push(GlCommand::BindBuffer(BufferKind::Vertices));
        commands.push(GlCommand::BufferData(BufferKind::Vertices));
        commands.push(GlCommand::BindBuffer(BufferKind::Indices));
        commands.push(GlCommand::BufferData(BufferKind::Indices));
        let mut slot: u32 = 0;
        while slot < 3
            invariant
                slot <= 3,
                commands@ == upload_commands().take(8 + 2 * slot),
            decreases 3 - slot,
        {
            let attribute = VertexAttribute {
                location: slot,
                components: 3,
                stride: VERTEX_STRIDE,
                offset: 12 * (slot as i32),
            };
            commands.push(GlCommand::VertexAttribPointer(attribute));
            commands.push(GlCommand::EnableVertexAttribArray(slot));
            assert(commands@ =~= upload_commands().take(8 + 2 * (slot + 1)));
            slot += 1;
        }
        commands.push(GlCommand::UnbindVertexArray);
        assert(commands@ =~= upload_commands());
        (Cube { vertices, indices, program, index_count: 36 }, commands)
    }

    /// The vertices of the mesh.
    pub fn vertices(&self) -> (vertices: &Vec<Vertex>)
        ensures
            vertices@ == mesh_vertices(),
    {
        proof {
            use_type_invariant(self);
        }
        &self.vertices
    }

    /// The indices of the mesh.
    pub fn indices(&self) -> (indices: &Vec<u32>)
        ensures
            indices@ == mesh_indices(),
    {
        proof {
            use_type_invariant(self);
        }
        &self.indices
    }

    /// The vertex buffer as 32-bit words, nine to a vertex: the bit patterns
    /// of the position, the normal and the color.
    pub fn vertex_words(&self) -> (words: Vec<u32>)
        ensures
            words@ == mesh_words(),
    {
        proof {
            use_type_invariant(self);
        }
        let mut words: Vec<u32> = Vec::new();
        let mut i: usize = 0;
        while i < self.vertices.len()
            invariant
                i <= self.vertices.len(),
                self.vertices@ == mesh_vertices(),
                words@ == mesh_words().take(9 * i),
            decreases self.vertices.len() - i,
        {
            let v = self.vertices[i];
            assert(v == mesh_vertex(i as int));
            words.push(component_bits(v.position.x));
            words.push(component_bits(v.position.y));
            words.push(component_bits(v.position.z));
            words.push(component_bits(v.normal.x));
            words.push(component_bits(v.normal.y));
            words.push(component_bits(v.normal.z));
            words.push(component_bits(v.color.x));
            words.push(component_bits(v.color.y));
            words.push(component_bits(v.color.z));
            assert(words@ =~= mesh_words().take(9 * (i + 1)));
            i += 1;
        }
        assert(words@ =~= mesh_words());
        words
    }

    /// The bytes that fill the vertex buffer: the memory image of the vertex
    /// words.
    pub fn vertex_bytes(&self) -> (bytes: Vec<u8>)
        ensures
            native_bytes(bytes@, mesh_words()),
    {
        let words = self.vertex_words();
        cast_words(&words)
    }

    /// The bytes that fill the index buffer: the memory image of the indices.
    pub fn index_bytes(&self) -> (bytes: Vec<u8>)
        ensures
            native_bytes(bytes@, mesh_indices()),
    {
        proof {
            use_type_invariant(self);
        }
        cast_words(&self.indices)
    }

    /// The commands that draw the mesh: make the program current, upload the
    /// three matrices, draw all indices as triangles.
    pub fn render(&self, projection: Perspective, view: LookAt, model: Spin) -> (commands: Vec<
        GlCommand,
    >)
        ensures
            commands@ == draw_commands(projection, view, model),
    {
        proof {
            use_type_invariant(self);
        }
        let mut commands: Vec<GlCommand> = Vec::new();
        commands.push(GlCommand::UseProgram);
        commands.push(GlCommand::UniformMatrix(Matrix::Projection(projection)));
        commands.push(GlCommand::UniformMatrix(Matrix::View(view)));
        commands.push(GlCommand::UniformMatrix(Matrix::Model(model)));
        commands.push(GlCommand::BindVertexArray);
        commands.push(GlCommand::DrawElements(self.index_count));
        commands.push(GlCommand::UnbindVertexArray);
        assert(commands@ =~= draw_commands(projection, view, model));
        commands
    }
}

/// Every vertex sits on a corner of the cube: half a unit from the center
/// along each axis.
pub proof fn lemma_vertices_are_corners(i: int)
    requires
        0 <= i < VERTEX_COUNT,
    ensures
        ({
            let p = mesh_vertex(i).position;
            (p.x == 1 || p.x == -1) && (p.y == 1 || p.y == -1) && (p.z == 1 || p.z == -1)
        }),
{
}

/// The normal of a vertex has unit length, lies along one axis, and points
/// away from the center: the vertex lies half a unit out along it.
pub proof fn lemma_normals_point_outward(i: int)
    requires
        0 <= i < VERTEX_COUNT,
    ensures
        ({
            let v = mesh_vertex(i);
            &&& dot(v.normal, v.normal) == 4
            &&& dot(v.position, v.normal) == 2
            &&& (v.normal.x != 0 ==> v.normal.y == 0 && v.normal.z == 0)
            &&& (v.normal.y != 0 ==> v.normal.x == 0 && v.normal.z == 0)
        }),
{
    let v = mesh_vertex(i);
    let face = i / 4;
    let px = v.position.x as int;
    let py = v.position.y as int;
    let pz = v.position.z as int;
    let nx = v.normal.x as int;
    let ny = v.normal.y as int;
    let nz = v.normal.z as int;
    let along = if face / 2 == 0 {
        pz
    } else if face / 2 == 1 {
        py
    } else {
        px
    };
    let out = 2 * face_side(face);
    assert(along == face_side(face));
    assert(dot(v.normal, v.normal) == 4 && dot(v.position, v.normal) == 2) by (nonlinear_arith)
        requires
            dot(v.normal, v.normal) == nx * nx + ny * ny + nz * nz,
            dot(v.position, v.normal) == px * nx + py * ny + pz * nz,
            (nx == out && ny == 0 && nz == 0 && px == along) || (nx == 0 && ny == out && nz == 0
                && py == along) || (nx == 0 && ny == 0 && nz == out && pz == along),
            (out == 2 && along == 1) || (out == -2 && along == -1),
    ;
}

/// The four vertices of a face share its normal and its color, and no two
/// faces share a color.
pub proof fn lemma_faces_are_flat(i: int, j: int)
    requires
        0 <= i < VERTEX_COUNT,
        0 <= j < VERTEX_COUNT,
    ensures
        i / 4 == j / 4 ==> mesh_vertex(i).normal == mesh_vertex(j).normal && mesh_vertex(i).color
            == mesh_vertex(j).color,
        i / 4 != j / 4 ==> mesh_vertex(i).color != mesh_vertex(j).color,
{
}

/// Every index names a vertex, and the six indices of a face name vertices
/// of that face alone.
pub proof fn lemma_indices_stay_on_face(j: int)
    requires
        0 <= j < INDEX_COUNT,
    ensures
        mesh_index(j) < VERTEX_COUNT,
        mesh_index(j) / 4 == j / 6,
{
}

/// The two triangles of a face reach all four of its corners.
pub proof fn lemma_triangles_cover_face(face: int, corner: int)
    requires
        0 <= face < FACES,
        0 <= corner < 4,
    ensures
        exists|k: int| 0 <= k < 6 && #[trigger] face_corner(face, k) == corner,
{
    if corner == 0 {
        assert(face_corner(face, 0) == 0);
    } else if corner == 3 {
        assert(face_corner(face, 4) == 3);
    } else if (corner == 1) == (face % 2 == 0) {
        assert(face_corner(face, 1) == corner);
    } else {
        assert(face_corner(face, 2) == corner);
    }
}

/// Every triangle faces outward: seen from outside the cube, along the
/// normal of its face, its corners run counter-clockwise. With
/// counter-clockwise as the front, culling back faces keeps the outside of
/// the cube.
pub proof fn lemma_triangles_face_outward(triangle: int)
    requires
        0 <= triangle < 12,
    ensures
        ({
            let a = mesh_vertex(mesh_index(3 * triangle) as int);
            let b = mesh_vertex(mesh_index(3 * triangle + 1) as int);
            let c = mesh_vertex(mesh_index(3 * triangle + 2) as int);
            winding(a.position, b.position, c.position, a.normal) > 0
        }),
{
    let face = triangle / 2;
    let first = 3 * (triangle % 2);
    let ka = face_corner(face, first);
    let kb = face_corner(face, first + 1);
    let kc = face_corner(face, first + 2);
    let a = mesh_vertex(mesh_index(3 * triangle) as int);
    let b = mesh_vertex(mesh_index(3 * triangle + 1) as int);
    let c = mesh_vertex(mesh_index(3 * triangle + 2) as int);
    assert(a.position == corner_position(face, ka) && b.position == corner_position(face, kb)
        && c.position == corner_position(face, kc) && a.normal == face_normal(face));

    // Inside the plane of the face the corners turn one way on an even face
    // and the other way on an odd one.
    let s = face_side(face);
    let iu = corner_u(kb) - corner_u(ka);
    let iv = corner_v(kb) - corner_v(ka);
    let ju = corner_u(kc) - corner_u(ka);
    let jv = corner_v(kc) - corner_v(ka);
    assert(iu * jv - iv * ju == 4 * s) by (nonlinear_arith)
        requires
            (s == 1 && iu == 2 && iv == 0 && ju == 2 && jv == 2) || (s == 1 && iu == -2 && iv == 0
                && ju == -2 && jv == -2) || (s == -1 && iu == 2 && iv == 2 && ju == 2 && jv == 0)
                || (s == -1 && iu == 0 && iv == 2 && ju == 2 && jv == 2),
    ;

    // The plane of a face is turned so that its two directions, in their
    // order, point out of the cube on the even side.
    let w = winding(a.position, b.position, c.position, a.normal);
    let ux = b.position.x - a.position.x;
    let uy = b.position.y - a.position.y;
    let uz = b.position.z - a.position.z;
    let vx = c.position.x - a.position.x;
    let vy = c.position.y - a.position.y;
    let vz = c.position.z - a.position.z;
    let nx = a.normal.x as int;
    let ny = a.normal.y as int;
    let nz = a.normal.z as int;
    assert(w == 2 * s * (iu * jv - iv * ju)) by (nonlinear_arith)
        requires
            w == (uy * vz - uz * vy) * nx + (uz * vx - ux * vz) * ny + (ux * vy - uy * vx) * nz,
            (ux == iu && uy == iv && uz == 0 && vx == ju && vy == jv && vz == 0 && nx == 0 && ny
                == 0 && nz == 2 * s) || (ux == iu && uy == 0 && uz == -iv && vx == ju && vy == 0
                && vz == -jv && nx == 0 && ny == 2 * s && nz == 0) || (ux == 0 && uy == iv && uz
                == -iu && vx == 0 && vy == jv && vz == -ju && nx == 2 * s && ny == 0 && nz == 0),
    ;
    assert(w == 8) by (nonlinear_arith)
        requires
            w == 2 * s * (iu * jv - iv * ju),
            iu * jv - iv * ju == 4 * s,
            s == 1 || s == -1,
    ;
}

/// The three attributes fill a vertex without gap or overlap: the first
/// starts at the vertex, each starts where the one before ends, and the last
/// ends at the stride, which is four bytes for each component.
pub proof fn lemma_attributes_tile_vertex(slot: int)
    requires
        0 <= slot < 3,
    ensures
        mesh_attribute(0).offset == 0,
        mesh_attribute(slot).offset + 4 * mesh_attribute(slot).components == (if slot < 2 {
            mesh_attribute(slot + 1).offset as int
        } else {
            VERTEX_STRIDE as int
        }),
        mesh_attribute(slot).stride == 4 * VERTEX_COMPONENTS,
{
}

/// The buffers are as large as the layout says: a stride of bytes for each
/// vertex, four bytes for each index.
pub proof fn lemma_buffer_sizes(vertex_bytes: Seq<u8>, index_bytes: Seq<u8>)
    requires
        native_bytes(vertex_bytes, mesh_words()),
        native_bytes(index_bytes, mesh_indices()),
    ensures
        vertex_bytes.len() == VERTEX_COUNT * VERTEX_STRIDE,
        index_bytes.len() == 4 * INDEX_COUNT,
{
}

} // verus!
