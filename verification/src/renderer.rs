//! The renderer: it owns the mesh, follows the window's size, and draws the
//! mesh into a rectangle of the window without disturbing the viewport that
//! the rest of the frame relies on.

use std::sync::Arc;
use vstd::prelude::*;

use crate::camera::{LookAt, Perspective, Spin};
use crate::cube::{draw_commands, upload_commands, Cube};
use crate::gpu::{lemma_run_concat, Capability, ClearTarget, GlCommand, GpuState, ViewportRect};
use crate::shader::ProgramHandle;

verus! {

/// The renderer of one graphics context. A clone shares the mesh.
#[derive(Clone, Debug)]
pub struct Renderer {
    cube: Arc<Cube>,
    rotation: u64,
}

/// The commands that set the device up for drawing solids, once: depth
/// testing on, back faces culled, counter-clockwise as the front.
pub open spec fn setup_commands() -> Seq<GlCommand> {
    seq![
        GlCommand::Enable(Capability::DepthTest),
        GlCommand::Enable(Capability::CullFace),
        GlCommand::CullBackFaces,
        GlCommand::FrontFaceCounterClockwise,
    ]
}

/// The commands that follow a change of the window's size.
pub open spec fn resize_commands(width: u32, height: u32) -> Seq<GlCommand> {
    seq![GlCommand::Viewport(ViewportRect::full_window(width, height))]
}

/// The commands that prepare the device for the 3D pass inside `rect`:
/// viewport, depth test with the closer fragment winning, back faces culled,
/// depth cleared. The colors stay as the 2D layer left them.
pub open spec fn pass_prelude(rect: ViewportRect) -> Seq<GlCommand> {
    seq![
        GlCommand::Viewport(rect),
        GlCommand::Enable(Capability::DepthTest),
        GlCommand::DepthFuncLess,
        GlCommand::Enable(Capability::CullFace),
        GlCommand::CullBackFaces,
        GlCommand::Clear(ClearTarget::Depth),
    ]
}

/// The commands of one 3D pass: nothing for a rectangle without area;
/// otherwise the prelude, the draw with the matrices for the rectangle and
/// the rotation, and the viewport set back to `current`.
pub open spec fn viewport_pass(current: ViewportRect, rect: ViewportRect, rotation: u64) -> Seq<
    GlCommand,
> {
    if rect.is_drawable() {
        pass_prelude(rect) + draw_commands(
            Perspective::of(rect),
            LookAt::fixed(),
            Spin::of(rotation),
        ) + seq![GlCommand::Viewport(current)]
    } else {
        Seq::empty()
    }
}

/// The device after a list of window sizes, each followed by its resize
/// commands.
pub open spec fn after_resizes(gpu: GpuState, sizes: Seq<(u32, u32)>) -> GpuState
    decreases sizes.len(),
{
    if sizes.len() == 0 {
        gpu
    } else {
        after_resizes(gpu, sizes.drop_last()).run(resize_commands(sizes.last().0, sizes.last().1))
    }
}

impl Renderer {
    /// The rotation stored for the next frame, in hundredths of a radian.
    pub closed spec fn rotation(&self) -> u64 {
        self.rotation
    }

    /// The mesh that the renderer draws.
    pub closed spec fn mesh(&self) -> Cube {
        *self.cube
    }

    /// Makes the renderer for a linked program. The commands put the mesh on
    /// the device and set the device up for drawing solids.
    pub fn new(program: ProgramHandle) -> (made: (Renderer, Vec<GlCommand>))
        ensures
            made.0.rotation() == 0,
            made.0.mesh().program() == program,
            made.1@ == upload_commands() + setup_commands(),
    {
        let (cube, mut commands) = Cube::new(program);
        commands.push(GlCommand::Enable(Capability::DepthTest));
        commands.push(GlCommand::Enable(Capability::CullFace));
        commands.push(GlCommand::CullBackFaces);
        commands.push(GlCommand::FrontFaceCounterClockwise);
        assert(commands@ =~= upload_commands() + setup_commands());
        (Renderer { cube: Arc::new(cube), rotation: 0 }, commands)
    }

    /// The mesh that the renderer draws.
    pub fn cube(&self) -> (cube: &Cube)
        ensures
            *cube == self.mesh(),
    {
        &self.cube
    }

    /// The rotation stored for the next frame.
    pub fn stored_rotation(&self) -> (rotation: u64)
        ensures
            rotation == self.rotation(),
    {
        self.rotation
    }

    /// Stores the rotation to use from now on. The value replaces the stored
    /// one; it is not added to it. Nothing else changes.
    pub fn update(&mut self, rotation: u64)
        ensures
            final(self).rotation() == rotation,
            final(self).mesh() == old(self).mesh(),
    {
        self.rotation = rotation;
    }

    /// Follows a change of the window's size: the viewport covers the whole
    /// window.
    pub fn resize(&mut self, width: u32, height: u32) -> (commands: Vec<GlCommand>)
        requires
            width <= i32::MAX,
            height <= i32::MAX,
        ensures
            commands@ == resize_commands(width, height),
            *final(self) == *old(self),
    {
        let rect = ViewportRect { x: 0, y: 0, width: width as i32, height: height as i32 };
        let mut commands: Vec<GlCommand> = Vec::new();
        commands.push(GlCommand::Viewport(rect));
        assert(commands@ =~= resize_commands(width, height));
        commands
    }

    /// The 3D pass of a frame: draws the mesh into `rect`, turned by
    /// `rotation` hundredths of a radian, and puts the viewport back to
    /// `current`, the rectangle that the device reported before the pass.
    ///
    /// A rectangle without width or height is skipped: there is nothing to
    /// draw into, and no aspect ratio to build a projection from.
    pub fn render_viewport(
        &self,
        current: ViewportRect,
        rect: ViewportRect,
        rotation: u64,
    ) -> (commands: Vec<GlCommand>)
        ensures
            commands@ == viewport_pass(current, rect, rotation),
    {
        let mut commands: Vec<GlCommand> = Vec::new();
        if !rect.drawable() {
            return commands;
        }
        commands.push(GlCommand::Viewport(rect));
        commands.push(GlCommand::Enable(Capability::DepthTest));
        commands.push(GlCommand::DepthFuncLess);
        commands.push(GlCommand::Enable(Capability::CullFace));
        commands.push(GlCommand::CullBackFaces);
        commands.push(GlCommand::Clear(ClearTarget::Depth));
        assert(commands@ =~= pass_prelude(rect));
        let projection = Perspective::new(rect);
        let view = LookAt::new();
        let model = Spin::new(rotation);
        let mut draw = self.cube.render(projection, view, model);
        commands.append(&mut draw);
        commands.push(GlCommand::Viewport(current));
        assert(commands@ =~= viewport_pass(current, rect, rotation));
        commands
    }
}

/// The resize commands set the viewport to the whole window and touch
/// nothing else. Running them a second time changes nothing.
pub proof fn lemma_resize_sets_viewport(gpu: GpuState, width: u32, height: u32)
    ensures
        gpu.run(resize_commands(width, height)) == (GpuState {
            viewport: ViewportRect::full_window(width, height),
            ..gpu
        }),
        gpu.run(resize_commands(width, height)).run(resize_commands(width, height)) == gpu.run(
            resize_commands(width, height),
        ),
{
    reveal_with_fuel(GpuState::run_from, 2);
}

/// After any number of resizes the viewport is that of the last one.
pub proof fn lemma_last_resize_wins(gpu: GpuState, sizes: Seq<(u32, u32)>)
    requires
        sizes.len() > 0,
    ensures
        after_resizes(gpu, sizes).viewport == ViewportRect::full_window(
            sizes.last().0,
            sizes.last().1,
        ),
{
    lemma_resize_sets_viewport(
        after_resizes(gpu, sizes.drop_last()),
        sizes.last().0,
        sizes.last().1,
    );
}

/// The 3D pass leaves the viewport as it found it, for every rectangle: when
/// `current` is the device's viewport before the pass, it is the viewport
/// after it. Of the tracked state only the two capabilities may change, and
/// only by being switched on.
pub proof fn lemma_pass_restores_viewport(
    gpu: GpuState,
    current: ViewportRect,
    rect: ViewportRect,
    rotation: u64,
)
    requires
        gpu.viewport == current,
    ensures
        gpu.run(viewport_pass(current, rect, rotation)).viewport == gpu.viewport,
        rect.is_drawable() ==> gpu.run(viewport_pass(current, rect, rotation)) == (GpuState {
            depth_test: true,
            cull_face: true,
            ..gpu
        }),
        !rect.is_drawable() ==> gpu.run(viewport_pass(current, rect, rotation)) == gpu,
{
    reveal_with_fuel(GpuState::run_from, 8);
    if rect.is_drawable() {
        let prelude = pass_prelude(rect);
        let draw = draw_commands(Perspective::of(rect), LookAt::fixed(), Spin::of(rotation));
        let restore = seq![GlCommand::Viewport(current)];
        lemma_run_concat(gpu, prelude + draw, restore);
        lemma_run_concat(gpu, prelude, draw);
    }
}

/// A rectangle without height never reaches the projection: the pass is
/// empty. Where the pass draws, the projection's aspect ratio is the
/// rectangle's width over its height, and the height is positive.
pub proof fn lemma_pass_guards_aspect(current: ViewportRect, rect: ViewportRect, rotation: u64)
    ensures
        rect.height <= 0 ==> viewport_pass(current, rect, rotation).len() == 0,
        rect.is_drawable() ==> {
            let pass = viewport_pass(current, rect, rotation);
            &&& pass.len() == 14
            &&& pass[7] == GlCommand::UniformMatrix(
                crate::camera::Matrix::Projection(Perspective::of(rect)),
            )
            &&& Perspective::of(rect).aspect_width == rect.width
            &&& Perspective::of(rect).aspect_height == rect.height
            &&& Perspective::of(rect).aspect_height > 0
        },
{
}

} // verus!
