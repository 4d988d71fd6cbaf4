//! The renderer's decisions: what becomes of a frame once the surface was
//! asked for its next texture, and which commands a drawn frame is made of.

use vstd::prelude::*;
use crate::camera::{AspectState, Camera, CameraState};
use crate::mesh::MeshModel3D;
use crate::pipeline::PipelineConfig;
use crate::surface::SurfaceConfig;
use crate::widget::Widget;

verus! {

/// Why the surface handed out no texture.
#[derive(Clone, Copy, Debug, PartialEq, Eq, Structural)]
pub enum SurfaceError {
    /// The texture did not become available in time.
    Timeout,
    /// The surface no longer matches the window.
    Outdated,
    /// The surface was lost and has to be made anew.
    Lost,
    /// The device has no memory left.
    OutOfMemory,
    /// The acquisition failed and the surface does not say why.
    Other,
}

/// What becomes of a frame.
#[derive(Clone, Copy, Debug, PartialEq, Eq, Structural)]
pub enum FrameDecision {
    /// The frame is drawn and presented.
    Draw,
    /// The frame is dropped; the next request for a redraw tries again.
    Skip,
    /// The frame is dropped and no further frame is drawn.
    Halt,
}

/// One step of a drawn frame.
#[derive(Clone, Copy, Debug, PartialEq, Eq)]
pub enum DrawCommand {
    /// Upload the camera's current view-projection matrix.
    WriteCamera,
    /// Open the render pass on the acquired texture, cleared to `clear`.
    BeginPass { clear: [u32; 4] },
    /// Bind the pipeline.
    SetPipeline,
    /// Bind the group that carries the camera's matrix.
    SetBindGroup,
    /// Bind the vertex buffer.
    SetVertexBuffer,
    /// Bind the index buffer.
    SetIndexBuffer,
    /// Draw the indices from zero up to `count`, in one instance.
    DrawIndexed { count: u32 },
    /// Let the overlay add its commands to the open pass.
    Overlay,
    /// Close the render pass.
    EndPass,
    /// Submit the recorded commands.
    Submit,
    /// Present the frame.
    Present,
}

/// What to do with a frame: the decision, and the commands where it is drawn.
#[derive(Debug, PartialEq, Eq)]
pub struct FramePlan {
    pub decision: FrameDecision,
    pub commands: Vec<DrawCommand>,
}

/// What becomes of a frame, given how the acquisition of its texture went: it
/// is drawn where a texture came, halted where the device is out of memory,
/// and skipped on every other failure.
pub open spec fn decide(acquired: Result<(), SurfaceError>) -> FrameDecision {
    match acquired {
        Ok(_) => FrameDecision::Draw,
        Err(SurfaceError::OutOfMemory) => FrameDecision::Halt,
        Err(_) => FrameDecision::Skip,
    }
}

/// The commands of a drawn frame, in their order: the camera's matrix, one
/// pass cleared to `clear`, the geometry, the overlay on top of it, and the
/// hand-over of the frame.
pub open spec fn frame_commands(clear: [u32; 4], index_count: u32) -> Seq<DrawCommand> {
    seq![
        DrawCommand::WriteCamera,
        DrawCommand::BeginPass { clear },
        DrawCommand::SetPipeline,
        DrawCommand::SetBindGroup,
        DrawCommand::SetVertexBuffer,
        DrawCommand::SetIndexBuffer,
        DrawCommand::DrawIndexed { count: index_count },
        DrawCommand::Overlay,
        DrawCommand::EndPass,
        DrawCommand::Submit,
        DrawCommand::Present,
    ]
}

/// The commands of a frame after the given decision: those of a drawn frame,
/// or none.
pub open spec fn planned_commands(
    decision: FrameDecision,
    clear: [u32; 4],
    index_count: u32,
) -> Seq<DrawCommand> {
    if decision == FrameDecision::Draw {
        frame_commands(clear, index_count)
    } else {
        Seq::empty()
    }
}

/// Decides what becomes of a frame from how the acquisition of its texture
/// went.
pub fn begin_frame(acquired: Result<(), SurfaceError>) -> (decision: FrameDecision)
    ensures
        decision == decide(acquired),
{
    match acquired {
        Ok(_) => FrameDecision::Draw,
        Err(SurfaceError::OutOfMemory) => FrameDecision::Halt,
        Err(_) => FrameDecision::Skip,
    }
}

/// Lists the commands of a drawn frame.
pub fn draw_frame(clear: [u32; 4], index_count: u32) -> (commands: Vec<DrawCommand>)
    ensures
        commands@ == frame_commands(clear, index_count),
{
    let mut commands: Vec<DrawCommand> = Vec::new();
    commands.push(DrawCommand::WriteCamera);
    commands.push(DrawCommand::BeginPass { clear });
    commands.push(DrawCommand::SetPipeline);
    commands.push(DrawCommand::SetBindGroup);
    commands.push(DrawCommand::SetVertexBuffer);
    commands.push(DrawCommand::SetIndexBuffer);
    commands.push(DrawCommand::DrawIndexed { count: index_count });
    commands.push(DrawCommand::Overlay);
    commands.push(DrawCommand::EndPass);
    commands.push(DrawCommand::Submit);
    commands.push(DrawCommand::Present);
    assert(commands@ =~= frame_commands(clear, index_count));
    commands
}

/// In a drawn frame exactly one pass is opened; the geometry is drawn once,
/// after the pass was opened and before the overlay; the overlay is drawn
/// once, before the pass is closed; and the frame is presented last.
pub proof fn lemma_geometry_then_overlay(clear: [u32; 4], index_count: u32)
    ensures
        ({
            let commands = frame_commands(clear, index_count);
            &&& forall|i: int, j: int|
                0 <= i < commands.len() && 0 <= j < commands.len()
                    && #[trigger] commands[i] is BeginPass && #[trigger] commands[j] is BeginPass
                    ==> i == j
            &&& forall|i: int, j: int|
                0 <= i < commands.len() && 0 <= j < commands.len()
                    && #[trigger] commands[i] is DrawIndexed && #[trigger] commands[j] is DrawIndexed
                    ==> i == j
            &&& forall|i: int, j: int|
                0 <= i < commands.len() && 0 <= j < commands.len()
                    && #[trigger] commands[i] is Overlay && #[trigger] commands[j] is Overlay
                    ==> i == j
            &&& exists|p: int, g: int, o: int, e: int|
                0 <= p < g < o < e < commands.len() - 1
                    && #[trigger] commands[p] is BeginPass
                    && #[trigger] commands[g] is DrawIndexed
                    && #[trigger] commands[o] is Overlay
                    && #[trigger] commands[e] is EndPass
            &&& commands.last() is Present
            &&& commands[0] is WriteCamera
        }),
{
    let commands = frame_commands(clear, index_count);
    assert(commands.len() == 11);
    assert(commands[1] is BeginPass && commands[6] is DrawIndexed && commands[7] is Overlay
        && commands[8] is EndPass);
}

/// The plain state of the renderer: how the surface is configured, the mesh
/// whose buffers the device holds, and the camera.
pub struct Renderer {
    surface_conf: SurfaceConfig,
    mesh: MeshModel3D,
    camera: Camera,
}

impl Renderer {
    #[verifier::type_invariant]
    spec fn inv(&self) -> bool {
        &&& self.surface_conf.well_formed()
        &&& self.mesh.well_formed()
        &&& 3 * self.mesh.indices@.len() <= u32::MAX
        &&& self.camera.angles().well_formed()
    }

    /// How the surface is configured.
    pub closed spec fn surface_conf(&self) -> SurfaceConfig {
        self.surface_conf
    }

    /// The vertex positions of the mesh.
    pub closed spec fn vertices(&self) -> Seq<[u32; 3]> {
        self.mesh.vertices@
    }

    /// The triangles of the mesh.
    pub closed spec fn indices(&self) -> Seq<[u32; 3]> {
        self.mesh.indices@
    }

    /// The camera's angles.
    pub closed spec fn camera_angles(&self) -> CameraState {
        self.camera.angles()
    }

    /// The extent the camera takes its aspect ratio from.
    pub closed spec fn camera_aspect(&self) -> AspectState {
        self.camera.aspect()
    }

    /// The number of indices that one draw of the mesh covers: three for each
    /// triangle.
    pub open spec fn index_count(&self) -> nat {
        3 * self.indices().len()
    }

    /// The pipeline the mesh is drawn with.
    pub open spec fn pipeline_config(&self) -> PipelineConfig {
        PipelineConfig::fixed(self.surface_conf().format)
    }

    /// A renderer of the tetrahedron on the surface of a window of the given
    /// inner size, with a new camera; a dimension of zero is raised to one.
    pub fn new(width: u32, height: u32) -> (renderer: Renderer)
        ensures
            renderer.surface_conf() == SurfaceConfig::for_window(width, height),
            renderer.vertices() == crate::mesh::tetrahedron_vertices(),
            renderer.indices() == crate::mesh::tetrahedron_indices(),
            renderer.camera_angles() == (CameraState {
                theta: crate::camera::INITIAL_THETA,
                phi: crate::camera::INITIAL_PHI,
            }),
            renderer.camera_aspect() == (AspectState { width: 1, height: 1 }),
    {
        Renderer {
            surface_conf: SurfaceConfig::new(width, height),
            mesh: MeshModel3D::new(),
            camera: Camera::new(),
        }
    }

    /// Moves the camera to the given azimuth and polar angle, each brought
    /// into range first. The surface and the mesh stay as they are.
    pub fn move_camera(&mut self, phi: u64, theta: u64)
        ensures
            final(self).camera_angles().phi == crate::camera::clamp_azimuth(phi),
            final(self).camera_angles().theta == crate::camera::clamp_polar(theta),
            final(self).camera_angles().well_formed(),
            final(self).camera_aspect() == old(self).camera_aspect(),
            final(self).surface_conf() == old(self).surface_conf(),
            final(self).vertices() == old(self).vertices(),
            final(self).indices() == old(self).indices(),
    {
        proof {
            use_type_invariant(&*self);
        }
        let mut camera: Camera = self.camera;
        camera.moving(phi, theta);
        self.camera = camera;
    }

    /// The camera.
    pub fn camera(&self) -> (camera: Camera)
        ensures
            camera.angles() == self.camera_angles(),
            camera.aspect() == self.camera_aspect(),
            camera.angles().well_formed(),
    {
        proof {
            use_type_invariant(self);
        }
        self.camera
    }

    /// Takes the window's new inner size; a dimension of zero is raised to
    /// one, so the surface stays valid. The camera takes its aspect ratio
    /// from the size the surface now has. The rest of the configuration, the
    /// camera's angles and the mesh stay as they are.
    pub fn resize(&mut self, width: u32, height: u32)
        ensures
            final(self).surface_conf().width == crate::surface::effective_dimension(width),
            final(self).surface_conf().height == crate::surface::effective_dimension(height),
            final(self).surface_conf().width >= 1,
            final(self).surface_conf().height >= 1,
            final(self).surface_conf().format == old(self).surface_conf().format,
            final(self).surface_conf().present_mode == old(self).surface_conf().present_mode,
            final(self).surface_conf().desired_maximum_frame_latency == old(
                self,
            ).surface_conf().desired_maximum_frame_latency,
            final(self).camera_aspect() == (AspectState {
                width: crate::surface::effective_dimension(width),
                height: crate::surface::effective_dimension(height),
            }),
            final(self).camera_angles() == old(self).camera_angles(),
            final(self).vertices() == old(self).vertices(),
            final(self).indices() == old(self).indices(),
    {
        proof {
            use_type_invariant(&*self);
        }
        let mut conf: SurfaceConfig = self.surface_conf;
        conf.resize(width, height);
        let mut camera: Camera = self.camera;
        camera.resize(conf.width, conf.height);
        self.surface_conf = conf;
        self.camera = camera;
    }

    /// Plans one frame. `acquired` tells how the acquisition of the frame's
    /// texture went. Where a texture came, the frame is drawn: one pass,
    /// cleared to the colour that the overlay's state holds now, with the
    /// whole mesh and then the overlay. An edit that the overlay makes while
    /// this frame is drawn therefore shows from the next frame on. Where no
    /// texture came, no command is issued; out of memory halts the drawing,
    /// any other failure only drops this frame.
    pub fn draw(&self, acquired: Result<(), SurfaceError>, widget: &Widget) -> (plan: FramePlan)
        ensures
            plan.decision == decide(acquired),
            plan.commands@ == planned_commands(
                decide(acquired),
                widget.state().background_color,
                self.index_count() as u32,
            ),
            self.index_count() <= u32::MAX,
    {
        proof {
            use_type_invariant(self);
        }
        let decision = begin_frame(acquired);
        match decision {
            FrameDecision::Draw => {
                let index_count: u32 = self.draw_count();
                FramePlan {
                    decision,
                    commands: draw_frame(widget.background_color(), index_count),
                }
            },
            _ => FramePlan { decision, commands: Vec::new() },
        }
    }

    /// The number of indices that one draw of the mesh covers.
    pub fn draw_count(&self) -> (count: u32)
        ensures
            count == self.index_count(),
    {
        proof {
            use_type_invariant(self);
        }
        match self.mesh.index_count() {
            Some(count) => count,
            None => 0,
        }
    }

    /// Describes the pipeline the mesh is drawn with. Its vertex stride and
    /// index width are those of the bytes in the two buffers.
    pub fn pipeline(&self) -> (config: PipelineConfig)
        ensures
            config == self.pipeline_config(),
    {
        PipelineConfig::new(self.surface_conf.format)
    }

    /// What the overlay needs of the renderer: how the surface is
    /// configured.
    pub fn get_widget_required(&self) -> (conf: &SurfaceConfig)
        ensures
            *conf == self.surface_conf(),
            conf.well_formed(),
    {
        proof {
            use_type_invariant(self);
        }
        &self.surface_conf
    }

    /// The vertex positions as the bytes of the vertex buffer: one stride of
    /// the pipeline for each vertex.
    pub fn vertex_bytes(&self) -> (bytes: Vec<u8>)
        ensures
            crate::mesh::is_memory_image(bytes@, self.vertices()),
            bytes@.len() == self.pipeline_config().vertex_stride * self.vertices().len(),
    {
        self.mesh.vertex_bytes()
    }

    /// The triangle indices as the bytes of the index buffer: four bytes for
    /// each index that a draw of the mesh covers.
    pub fn index_bytes(&self) -> (bytes: Vec<u8>)
        ensures
            crate::mesh::is_memory_image(bytes@, self.indices()),
            bytes@.len() == crate::pipeline::INDEX_BYTES * self.index_count(),
    {
        self.mesh.index_bytes()
    }
}

} // verus!
