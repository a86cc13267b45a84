//! The frame driver: the per-frame decision machine of the render loop.
//! Each frame the outer loop acquires a presentable image and reports the
//! outcome; [`RenderState::render_step`] decides what happens next — record
//! and submit one draw, reconfigure a lost surface with its last-known
//! size, skip a transient failure, or signal termination on memory
//! exhaustion — and pins every parameter of the one draw that may be
//! recorded.

use vstd::prelude::*;
use crate::pipeline::IndexFormat;
use crate::surface::SurfaceConfig;

verus! {

/// The outcome of acquiring the next presentable image.
#[derive(Clone, Copy, Debug, PartialEq, Eq, Structural)]
pub enum AcquireOutcome {
    /// An image was acquired and can be drawn to and presented.
    Success,
    /// The acquisition timed out; expected to self-resolve next frame.
    Timeout,
    /// The surface no longer matches its configuration; self-resolves once
    /// the pending reconfiguration (from a resize) applies.
    Outdated,
    /// The swap chain was lost and must be reconfigured before reuse.
    Lost,
    /// The driver is out of memory; the process cannot continue rendering.
    OutOfMemory,
}

/// A color written by the render pass's clear, in tenths per channel:
/// a field of `n` stands for the channel value `n / 10`.
#[derive(Clone, Copy, Debug, PartialEq, Eq, Structural)]
pub struct ClearColor {
    pub r_tenths: u32,
    pub g_tenths: u32,
    pub b_tenths: u32,
    pub a_tenths: u32,
}

/// The fixed background color, `(0.1, 0.2, 0.3, 1.0)`.
pub open spec fn background_color() -> ClearColor {
    ClearColor { r_tenths: 1u32, g_tenths: 2u32, b_tenths: 3u32, a_tenths: 10u32 }
}

/// Everything one recorded render pass does: the clear of its single color
/// attachment and its single indexed draw.
#[derive(Clone, Copy, Debug, PartialEq, Eq, Structural)]
pub struct DrawCommand {
    /// The color the pass clears its target to before drawing.
    pub clear_color: ClearColor,
    /// The slot the vertex buffer is bound at.
    pub vertex_buffer_slot: u32,
    /// The width of the bound index buffer's entries.
    pub index_format: IndexFormat,
    /// The first index drawn.
    pub first_index: u32,
    /// How many indices are drawn.
    pub index_count: u32,
    /// Added to each index before vertex lookup.
    pub base_vertex: i32,
    /// The first instance drawn.
    pub first_instance: u32,
    /// How many instances are drawn.
    pub instance_count: u32,
}

/// The one draw a frame records for a mesh of `n` indices: clear to the
/// fixed background, vertex buffer at slot 0, 16-bit indices, the full
/// index range from 0, base vertex 0, the single instance 0.
pub open spec fn frame_draw_command(n: u32) -> DrawCommand {
    DrawCommand {
        clear_color: background_color(),
        vertex_buffer_slot: 0u32,
        index_format: IndexFormat::Uint16,
        first_index: 0u32,
        index_count: n,
        base_vertex: 0i32,
        first_instance: 0u32,
        instance_count: 1u32,
    }
}

/// The draw recorded for the cube covers the cube's whole index sequence:
/// its index count is the sequence's length — 36 — cast losslessly to a
/// 32-bit count.
pub proof fn lemma_cube_draw_covers_all_indices()
    ensures
        crate::mesh::cube_indices_seq().len() == 36,
        frame_draw_command(36u32).index_count == crate::mesh::cube_indices_seq().len(),
{
}

/// What the render loop does with the frame, decided from the acquisition
/// outcome.
#[derive(Clone, Copy, Debug, PartialEq, Eq, Structural)]
pub enum FrameAction {
    /// Record one render pass as the command says, submit it, present.
    Draw(DrawCommand),
    /// Skip the frame and reconfigure the surface with these dimensions.
    Reconfigure { width: u32, height: u32 },
    /// Skip the frame; the condition resolves by itself.
    Skip,
    /// Signal the outer event loop to terminate; no frame is processed
    /// after this.
    Terminate,
}

/// The phase of one frame inside the render loop.
#[derive(Clone, Copy, Debug, PartialEq, Eq, Structural)]
pub enum FramePhase {
    /// Between frames.
    Idle,
    /// Waiting for a presentable image.
    Acquiring,
    /// An image is acquired; commands are being recorded.
    Recording,
    /// The command buffer was submitted and awaits presentation.
    Submitted,
}

/// One step of the render loop, as seen by the frame phase machine.
#[derive(Clone, Copy, Debug, PartialEq, Eq, Structural)]
pub enum FrameStep {
    /// Start acquiring the next image.
    BeginAcquire,
    /// The acquisition handed back an image.
    AcquireSucceeded,
    /// The acquisition failed; the frame is abandoned.
    AcquireFailed,
    /// The recorded command buffer is submitted to the queue.
    Submit,
    /// The acquired image is presented.
    Present,
}

/// The frame phase after taking `step` in phase `p`, or `None` where the
/// step is not legal in that phase. A frame runs Idle → Acquiring →
/// Recording → Submitted → Idle, falling back to Idle when acquisition
/// fails; exactly one submission happens per completed frame.
pub open spec fn next_phase(p: FramePhase, step: FrameStep) -> Option<FramePhase> {
    match (p, step) {
        (FramePhase::Idle, FrameStep::BeginAcquire) => Some(FramePhase::Acquiring),
        (FramePhase::Acquiring, FrameStep::AcquireSucceeded) => Some(FramePhase::Recording),
        (FramePhase::Acquiring, FrameStep::AcquireFailed) => Some(FramePhase::Idle),
        (FramePhase::Recording, FrameStep::Submit) => Some(FramePhase::Submitted),
        (FramePhase::Submitted, FrameStep::Present) => Some(FramePhase::Idle),
        _ => None,
    }
}

/// Advances the frame phase machine by one step.
pub fn advance_phase(p: FramePhase, step: FrameStep) -> (r: Option<FramePhase>)
    ensures
        r == next_phase(p, step),
{
    match (p, step) {
        (FramePhase::Idle, FrameStep::BeginAcquire) => Some(FramePhase::Acquiring),
        (FramePhase::Acquiring, FrameStep::AcquireSucceeded) => Some(FramePhase::Recording),
        (FramePhase::Acquiring, FrameStep::AcquireFailed) => Some(FramePhase::Idle),
        (FramePhase::Recording, FrameStep::Submit) => Some(FramePhase::Submitted),
        (FramePhase::Submitted, FrameStep::Present) => Some(FramePhase::Idle),
        _ => None,
    }
}

/// The mutable heart of the rendering context: the surface configuration
/// and the cached index count of the uploaded mesh. The GPU handles the
/// context also owns (device, queue, surface, pipeline, buffers) live with
/// the outer loop; every decision about them is taken here.
#[derive(Clone, Copy, Debug, PartialEq, Eq, Structural)]
pub struct RenderState {
    pub config: SurfaceConfig,
    pub num_indices: u32,
}

impl RenderState {
    /// Per-frame simulation hook; reserved, currently changes nothing.
    pub fn update(&mut self)
        ensures
            *final(self) == *old(self),
    {
    }

    /// Whether a frame should be attempted at all: presentation on a
    /// zero-sized surface is skipped, not attempted.
    pub fn should_render(&self) -> (r: bool)
        ensures
            r == self.config.active(),
    {
        self.config.width > 0 && self.config.height > 0
    }

    /// Applies a window-size change to the owned configuration; the index
    /// count never changes. Returns whether the surface must be
    /// reconfigured (exactly when both dimensions are positive).
    pub fn resize(&mut self, new_width: u32, new_height: u32) -> (reconfigure: bool)
        ensures
            final(self).num_indices == old(self).num_indices,
            new_width > 0 && new_height > 0 ==> {
                &&& final(self).config.width == new_width
                &&& final(self).config.height == new_height
                &&& final(self).config.format == old(self).config.format
                &&& final(self).config.present_mode == old(self).config.present_mode
                &&& final(self).config.alpha_mode == old(self).config.alpha_mode
                &&& reconfigure
            },
            new_width == 0 || new_height == 0 ==> {
                &&& *final(self) == *old(self)
                &&& !reconfigure
            },
    {
        self.config.resize(new_width, new_height)
    }

    /// Window input hook; reserved, reports every event unhandled.
    pub fn input(&self) -> (handled: bool)
        ensures
            !handled,
    {
        false
    }

    /// Decides the frame from the image-acquisition outcome: success
    /// records exactly one draw with the fixed parameters and the cached
    /// index count; a lost surface is reconfigured with its last-known
    /// dimensions and the frame skipped; a timeout or outdated surface
    /// skips the frame; memory exhaustion — and nothing else — signals
    /// termination.
    pub fn render_step(&self, acquired: AcquireOutcome) -> (action: FrameAction)
        ensures
            acquired == AcquireOutcome::Success ==> action == FrameAction::Draw(
                frame_draw_command(self.num_indices),
            ),
            acquired == AcquireOutcome::Lost ==> action == (FrameAction::Reconfigure {
                width: self.config.width,
                height: self.config.height,
            }),
            acquired == AcquireOutcome::Timeout || acquired == AcquireOutcome::Outdated
                ==> action == FrameAction::Skip,
            acquired == AcquireOutcome::OutOfMemory <==> action == FrameAction::Terminate,
    {
        match acquired {
            AcquireOutcome::Success => FrameAction::Draw(DrawCommand {
                clear_color: ClearColor { r_tenths: 1, g_tenths: 2, b_tenths: 3, a_tenths: 10 },
                vertex_buffer_slot: 0,
                index_format: IndexFormat::Uint16,
                first_index: 0,
                index_count: self.num_indices,
                base_vertex: 0,
                first_instance: 0,
                instance_count: 1,
            }),
            AcquireOutcome::Lost => FrameAction::Reconfigure {
                width: self.config.width,
                height: self.config.height,
            },
            AcquireOutcome::Timeout => FrameAction::Skip,
            AcquireOutcome::Outdated => FrameAction::Skip,
            AcquireOutcome::OutOfMemory => FrameAction::Terminate,
        }
    }
}

} // verus!
