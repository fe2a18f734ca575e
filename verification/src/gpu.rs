//! The graphics device as the renderer sees it: the commands that the library
//! issues, and a small state model on which their effect is defined.
//!
//! The library never talks to a device itself. Every operation is returned as a
//! list of [`GlCommand`] values that the host executes, in order, on the thread
//! that owns the context. [`GpuState`] gives those lists a meaning, so that
//! contracts can say what a list does to the device.

use vstd::prelude::*;

use crate::camera::Matrix;

verus! {

/// Rectangle of the device viewport, in window pixels.
#[derive(Clone, Copy, Debug, PartialEq, Eq, Structural)]
pub struct ViewportRect {
    pub x: i32,
    pub y: i32,
    pub width: i32,
    pub height: i32,
}

impl ViewportRect {
    /// The rectangle that covers a window of the given size.
    pub open spec fn full_window(width: u32, height: u32) -> ViewportRect {
        ViewportRect { x: 0, y: 0, width: width as i32, height: height as i32 }
    }

    /// A rectangle with a positive width and a positive height.
    pub open spec fn is_drawable(self) -> bool {
        self.width > 0 && self.height > 0
    }

    /// Tells whether the rectangle has an area to draw into.
    pub fn drawable(&self) -> (r: bool)
        ensures
            r == self.is_drawable(),
    {
        self.width > 0 && self.height > 0
    }
}

/// One of the two programmable stages of the pipeline.
#[derive(Clone, Copy, Debug, PartialEq, Eq, Structural)]
pub enum Stage {
    Vertex,
    Fragment,
}

/// A switchable piece of fixed-function state.
#[derive(Clone, Copy, Debug, PartialEq, Eq, Structural)]
pub enum Capability {
    DepthTest,
    CullFace,
}

/// What a buffer object holds.
#[derive(Clone, Copy, Debug, PartialEq, Eq, Structural)]
pub enum BufferKind {
    /// Vertex attributes.
    Vertices,
    /// Triangle indices.
    Indices,
}

/// A color with each channel in tenths, from 0 (none) to 10 (full).
#[derive(Clone, Copy, Debug, PartialEq, Eq, Structural)]
pub struct Rgba {
    pub red: u8,
    pub green: u8,
    pub blue: u8,
    pub alpha: u8,
}

/// Which buffers a clear touches.
#[derive(Clone, Copy, Debug, PartialEq, Eq, Structural)]
pub enum ClearTarget {
    /// The depth buffer alone.
    Depth,
    /// The color buffer and the depth buffer.
    ColorAndDepth,
}

/// Placement of one vertex attribute inside the interleaved vertex buffer.
/// Every component is a 32-bit number, never normalized.
#[derive(Clone, Copy, Debug, PartialEq, Eq, Structural)]
pub struct VertexAttribute {
    /// Attribute slot that the vertex stage reads.
    pub location: u32,
    /// Number of components.
    pub components: i32,
    /// Distance in bytes from one vertex to the next.
    pub stride: i32,
    /// Offset in bytes of the first component inside a vertex.
    pub offset: i32,
}

/// One operation on the graphics device.
///
/// The renderer owns exactly one program, one shader object per stage, one
/// vertex array and one buffer of each kind, so a command names its object by
/// role; the host keeps the device's handle for each role.
#[derive(Clone, Copy, Debug, PartialEq, Eq, Structural)]
pub enum GlCommand {
    /// Set the viewport rectangle.
    Viewport(ViewportRect),
    /// Switch a capability on.
    Enable(Capability),
    /// A fragment passes the depth test when it is closer than what is stored.
    DepthFuncLess,
    /// Discard triangles that face away from the viewer.
    CullBackFaces,
    /// A triangle whose corners run counter-clockwise faces the viewer.
    FrontFaceCounterClockwise,
    /// Set the color that a clear writes.
    ClearColor(Rgba),
    /// Clear buffers.
    Clear(ClearTarget),
    /// Allocate the program object.
    CreateProgram,
    /// Allocate the shader object of a stage.
    CreateShader(Stage),
    /// Hand a stage its source text.
    ShaderSource(Stage),
    /// Compile a stage.
    CompileShader(Stage),
    /// Attach a stage to the program.
    AttachShader(Stage),
    /// Link the program.
    LinkProgram,
    /// Release the shader object of a stage.
    DeleteShader(Stage),
    /// Release the program object.
    DeleteProgram,
    /// Allocate the vertex array.
    CreateVertexArray,
    /// Allocate a buffer.
    CreateBuffer(BufferKind),
    /// Make the vertex array current.
    BindVertexArray,
    /// Leave no vertex array current.
    UnbindVertexArray,
    /// Make a buffer current.
    BindBuffer(BufferKind),
    /// Fill the current buffer of this kind with the mesh's data, for static drawing.
    BufferData(BufferKind),
    /// Describe one attribute of the current vertex buffer.
    VertexAttribPointer(VertexAttribute),
    /// Switch an attribute slot on.
    EnableVertexAttribArray(u32),
    /// Make the program current.
    UseProgram,
    /// Upload a matrix to the uniform that bears its name.
    UniformMatrix(Matrix),
    /// Draw this many indices of the current vertex array as triangles.
    DrawElements(i32),
}

/// What the library tracks of the device: the viewport, the two capabilities,
/// and which of the renderer's objects are allocated.
#[derive(Clone, Copy, Debug, PartialEq, Eq, Structural)]
pub struct GpuState {
    pub viewport: ViewportRect,
    pub depth_test: bool,
    pub cull_face: bool,
    pub program: bool,
    pub vertex_shader: bool,
    pub fragment_shader: bool,
    pub vertex_array: bool,
    pub vertex_buffer: bool,
    pub index_buffer: bool,
}

impl GpuState {
    /// A device right after its context was made: nothing allocated, nothing
    /// enabled, the viewport as given.
    pub open spec fn fresh(viewport: ViewportRect) -> GpuState {
        GpuState {
            viewport,
            depth_test: false,
            cull_face: false,
            program: false,
            vertex_shader: false,
            fragment_shader: false,
            vertex_array: false,
            vertex_buffer: false,
            index_buffer: false,
        }
    }

    /// The state with the shader object of `stage` allocated or not.
    pub open spec fn with_shader(self, stage: Stage, allocated: bool) -> GpuState {
        match stage {
            Stage::Vertex => GpuState { vertex_shader: allocated, ..self },
            Stage::Fragment => GpuState { fragment_shader: allocated, ..self },
        }
    }

    /// The state with the buffer of `kind` allocated.
    pub open spec fn with_buffer(self, kind: BufferKind) -> GpuState {
        match kind {
            BufferKind::Vertices => GpuState { vertex_buffer: true, ..self },
            BufferKind::Indices => GpuState { index_buffer: true, ..self },
        }
    }

    /// The state after one command.
    pub open spec fn apply(self, command: GlCommand) -> GpuState {
        match command {
            GlCommand::Viewport(rect) => GpuState { viewport: rect, ..self },
            GlCommand::Enable(Capability::DepthTest) => GpuState { depth_test: true, ..self },
            GlCommand::Enable(Capability::CullFace) => GpuState { cull_face: true, ..self },
            GlCommand::CreateProgram => GpuState { program: true, ..self },
            GlCommand::DeleteProgram => GpuState { program: false, ..self },
            GlCommand::CreateShader(stage) => self.with_shader(stage, true),
            GlCommand::DeleteShader(stage) => self.with_shader(stage, false),
            GlCommand::CreateVertexArray => GpuState { vertex_array: true, ..self },
            GlCommand::CreateBuffer(kind) => self.with_buffer(kind),
            _ => self,
        }
    }

    /// The state after the commands from position `from` on, run in order.
    pub open spec fn run_from(self, commands: Seq<GlCommand>, from: int) -> GpuState
        decreases commands.len() - from,
    {
        if 0 <= from < commands.len() {
            self.apply(commands[from]).run_from(commands, from + 1)
        } else {
            self
        }
    }

    /// The state after a list of commands, run first to last.
    pub open spec fn run(self, commands: Seq<GlCommand>) -> GpuState {
        self.run_from(commands, 0)
    }

    /// Number of shader and program objects that are allocated.
    pub open spec fn shader_objects(self) -> nat {
        let program: nat = if self.program { 1 } else { 0 };
        let vertex: nat = if self.vertex_shader { 1 } else { 0 };
        let fragment: nat = if self.fragment_shader { 1 } else { 0 };
        program + vertex + fragment
    }

    /// A device right after its context was made.
    pub fn new(viewport: ViewportRect) -> (gpu: GpuState)
        ensures
            gpu == GpuState::fresh(viewport),
    {
        GpuState {
            viewport,
            depth_test: false,
            cull_face: false,
            program: false,
            vertex_shader: false,
            fragment_shader: false,
            vertex_array: false,
            vertex_buffer: false,
            index_buffer: false,
        }
    }

    /// Carries out one command.
    pub fn execute(&mut self, command: GlCommand)
        ensures
            *final(self) == old(self).apply(command),
    {
        match command {
            GlCommand::Viewport(rect) => {
                self.viewport = rect;
            },
            GlCommand::Enable(Capability::DepthTest) => {
                self.depth_test = true;
            },
            GlCommand::Enable(Capability::CullFace) => {
                self.cull_face = true;
            },
            GlCommand::CreateProgram => {
                self.program = true;
            },
            GlCommand::DeleteProgram => {
                self.program = false;
            },
            GlCommand::CreateShader(Stage::Vertex) => {
                self.vertex_shader = true;
            },
            GlCommand::CreateShader(Stage::Fragment) => {
                self.fragment_shader = true;
            },
            GlCommand::DeleteShader(Stage::Vertex) => {
                self.vertex_shader = false;
            },
            GlCommand::DeleteShader(Stage::Fragment) => {
                self.fragment_shader = false;
            },
            GlCommand::CreateVertexArray => {
                self.vertex_array = true;
            },
            GlCommand::CreateBuffer(BufferKind::Vertices) => {
                self.vertex_buffer = true;
            },
            GlCommand::CreateBuffer(BufferKind::Indices) => {
                self.index_buffer = true;
            },
            _ => {},
        }
    }

    /// Carries out a list of commands, first to last.
    pub fn execute_all(&mut self, commands: &Vec<GlCommand>)
        ensures
            *final(self) == old(self).run(commands@),
    {
        let mut i: usize = 0;
        while i < commands.len()
            invariant
                i <= commands.len(),
                self.run_from(commands@, i as int) == old(self).run(commands@),
            decreases commands.len() - i,
        {
            self.execute(commands[i]);
            i += 1;
        }
    }

    /// Number of shader and program objects that are allocated.
    pub fn count_shader_objects(&self) -> (n: u8)
        ensures
            n == self.shader_objects(),
    {
        let mut n: u8 = 0;
        if self.program {
            n += 1;
        }
        if self.vertex_shader {
            n += 1;
        }
        if self.fragment_shader {
            n += 1;
        }
        n
    }
}

/// Running two lists one after the other is running their concatenation.
pub proof fn lemma_run_concat(gpu: GpuState, first: Seq<GlCommand>, second: Seq<GlCommand>)
    ensures
        gpu.run(first + second) == gpu.run(first).run(second),
{
    lemma_run_concat_from(gpu, first, second, 0);
}

proof fn lemma_run_concat_from(
    gpu: GpuState,
    first: Seq<GlCommand>,
    second: Seq<GlCommand>,
    from: int,
)
    requires
        0 <= from <= first.len(),
    ensures
        gpu.run_from(first + second, from) == gpu.run_from(first, from).run(second),
    decreases first.len() - from,
{
    if from == first.len() {
        lemma_run_shift(gpu, first, second, 0);
    } else {
        assert((first + second)[from] == first[from]);
        lemma_run_concat_from(gpu.apply(first[from]), first, second, from + 1);
    }
}

proof fn lemma_run_shift(gpu: GpuState, first: Seq<GlCommand>, second: Seq<GlCommand>, from: int)
    requires
        0 <= from <= second.len(),
    ensures
        gpu.run_from(first + second, first.len() + from) == gpu.run_from(second, from),
    decreases second.len() - from,
{
    if from < second.len() {
        assert((first + second)[first.len() + from] == second[from]);
        lemma_run_shift(gpu.apply(second[from]), first, second, from + 1);
    }
}

} // verus!
