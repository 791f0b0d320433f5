use vstd::prelude::*;

verus! {

/// Width of the window at startup, in physical pixels.
pub const WINDOW_WIDTH: u32 = 1280;

/// Height of the window at startup, in physical pixels.
pub const WINDOW_HEIGHT: u32 = 720;

/// Number of frames the surface may queue ahead of the one on screen.
pub const FRAME_LATENCY: u32 = 2;

/// Bind-group slot of the texture and its sampler.
pub const TEXTURE_GROUP: u32 = 0;

/// Bind-group slot of the projection uniform.
pub const PROJECTION_GROUP: u32 = 1;

/// Width and height of a two-dimensional surface, in pixels.
#[derive(Clone, Copy, Debug, PartialEq, Eq, Structural)]
pub struct Extent {
    pub width: u32,
    pub height: u32,
}

/// Aspect ratio held exactly, as the fraction `num / den`.
#[derive(Clone, Copy, Debug, PartialEq, Eq, Structural)]
pub struct Aspect {
    pub num: u32,
    pub den: u32,
}

/// What the window reports to the renderer.
#[derive(Clone, Copy, Debug, PartialEq, Eq, Structural)]
pub enum WindowSignal {
    /// The client area now has this size.
    Resized { width: u32, height: u32 },
    /// The window asks for a new frame.
    RedrawRequested,
    /// The user asked to close the window.
    CloseRequested,
    /// A key went down; `escape` tells whether it was the Escape key.
    KeyPressed { escape: bool },
    /// Anything else the window reports.
    Other,
}

/// Where the frame in flight stands.
#[derive(Clone, Copy, Debug, PartialEq, Eq, Structural)]
pub enum FramePhase {
    /// No frame is in flight.
    Idle,
    /// The next presentable image has been asked for.
    Acquiring,
    /// The image was acquired and the command buffer is being recorded.
    Recording,
    /// The command buffer went to the queue.
    Submitted,
    /// The image was presented.
    Presented,
}

/// What the caller reports back while it runs a frame.
#[derive(Clone, Copy, Debug, PartialEq, Eq, Structural)]
pub enum FrameSignal {
    /// The surface handed out an image.
    Acquired,
    /// The surface could not hand out an image (lost or outdated).
    AcquireFailed,
    /// The recorded command buffer was submitted.
    Submitted,
    /// The image was presented.
    Presented,
    /// The caller is done with the frame.
    Finished,
}

/// A frame signal came in a phase where it cannot happen.
#[derive(Clone, Copy, Debug, PartialEq, Eq, Structural)]
pub enum FrameError {
    OutOfOrder,
}

/// A resize to a surface with no pixels.
#[derive(Clone, Copy, Debug, PartialEq, Eq, Structural)]
pub enum ResizeError {
    ZeroSize,
}

/// The one render pass of a frame, as the caller must record it.
#[derive(Clone, Copy, Debug, PartialEq, Eq, Structural)]
pub struct FramePlan {
    /// Reconfigure the surface and rebuild the depth texture at `target`
    /// before acquiring: the last acquisition failed.
    pub reconfigure_first: bool,
    /// Size of the surface image and of the depth texture attached to the pass.
    pub target: Extent,
    /// Slot of the texture bind group.
    pub texture_group: u32,
    /// Slot of the projection bind group.
    pub projection_group: u32,
    /// First index of the single indexed draw.
    pub first_index: u32,
    /// Number of indices drawn: the whole index buffer.
    pub index_count: u32,
    /// Number of instances drawn.
    pub instance_count: u32,
}

/// What the caller must do in answer to a window signal.
#[derive(Clone, Copy, Debug, PartialEq, Eq, Structural)]
pub enum Command {
    /// Shut down.
    Exit,
    /// Reconfigure the surface at this size, rebuild the depth texture at it,
    /// set the projection's aspect to its width over its height and upload
    /// the combined transform again.
    Reconfigure(Extent),
    /// Run one frame as planned, starting with the acquisition of an image.
    Draw(FramePlan),
    /// Nothing to do.
    Skip,
}

/// The renderer's state as plain values.
pub struct RenderModel {
    /// Size the render surface is configured with.
    pub surface: Extent,
    /// Aspect ratio of the projection.
    pub aspect: Aspect,
    /// Size of the live depth texture.
    pub depth: Extent,
    pub phase: FramePhase,
    /// The last acquisition failed; the surface must be rebuilt before the
    /// next frame.
    pub stale: bool,
    /// Length of the index buffer.
    pub index_count: u32,
}

/// The aspect ratio of a surface of the given size.
pub open spec fn aspect_of(e: Extent) -> Aspect {
    Aspect { num: e.width, den: e.height }
}

impl RenderModel {
    /// The depth texture, the surface and the projection agree on one
    /// non-empty size.
    pub open spec fn wf(self) -> bool {
        &&& self.surface.width > 0
        &&& self.surface.height > 0
        &&& self.depth == self.surface
        &&& self.aspect == aspect_of(self.surface)
    }

    /// The state after the surface was reconfigured at `e`.
    pub open spec fn resized(self, e: Extent) -> RenderModel {
        RenderModel { surface: e, aspect: aspect_of(e), depth: e, stale: false, ..self }
    }

    /// The plan of the frame that starts in this state.
    pub open spec fn plan(self) -> FramePlan {
        FramePlan {
            reconfigure_first: self.stale,
            target: self.surface,
            texture_group: TEXTURE_GROUP,
            projection_group: PROJECTION_GROUP,
            first_index: 0,
            index_count: self.index_count,
            instance_count: 1,
        }
    }

    /// The command that answers `s` in this state.
    pub open spec fn command_for(self, s: WindowSignal) -> Command {
        match s {
            WindowSignal::Resized { width, height } => if width > 0 && height > 0 {
                Command::Reconfigure(Extent { width, height })
            } else {
                Command::Skip
            },
            WindowSignal::RedrawRequested => if self.phase == FramePhase::Idle {
                Command::Draw(self.plan())
            } else {
                Command::Skip
            },
            WindowSignal::CloseRequested => Command::Exit,
            WindowSignal::KeyPressed { escape } => if escape {
                Command::Exit
            } else {
                Command::Skip
            },
            WindowSignal::Other => Command::Skip,
        }
    }

    /// The state after answering `s`.
    pub open spec fn after(self, s: WindowSignal) -> RenderModel {
        match self.command_for(s) {
            Command::Reconfigure(e) => self.resized(e),
            Command::Draw(_) => RenderModel { phase: FramePhase::Acquiring, stale: false, ..self },
            _ => self,
        }
    }

    /// The state after the frame signal `s`, or `None` where `s` cannot come
    /// in the current phase.
    pub open spec fn advanced(self, s: FrameSignal) -> Option<RenderModel> {
        match (self.phase, s) {
            (FramePhase::Acquiring, FrameSignal::Acquired) => Some(
                RenderModel { phase: FramePhase::Recording, ..self },
            ),
            (FramePhase::Acquiring, FrameSignal::AcquireFailed) => Some(
                RenderModel { phase: FramePhase::Idle, stale: true, ..self },
            ),
            (FramePhase::Recording, FrameSignal::Submitted) => Some(
                RenderModel { phase: FramePhase::Submitted, ..self },
            ),
            (FramePhase::Submitted, FrameSignal::Presented) => Some(
                RenderModel { phase: FramePhase::Presented, ..self },
            ),
            (FramePhase::Presented, FrameSignal::Finished) => Some(
                RenderModel { phase: FramePhase::Idle, ..self },
            ),
            _ => None,
        }
    }
}

/// Resizing twice to the same size leaves the surface configuration, the
/// depth texture and the aspect as resizing once did, and asks for the same
/// reconfiguration both times.
pub proof fn lemma_resize_idempotent(m: RenderModel, width: u32, height: u32)
    ensures
        ({
            let s = WindowSignal::Resized { width, height };
            &&& m.after(s).after(s) == m.after(s)
            &&& m.after(s).command_for(s) == m.command_for(s)
        }),
{
}

/// After a resize to a non-empty size the projection's aspect is exactly
/// that width over that height.
pub proof fn lemma_resize_sets_aspect(m: RenderModel, width: u32, height: u32)
    requires
        width > 0,
        height > 0,
    ensures
        m.after(WindowSignal::Resized { width, height }).aspect == (Aspect {
            num: width,
            den: height,
        }),
        m.after(WindowSignal::Resized { width, height }).aspect.num * height == width * m.after(
            WindowSignal::Resized { width, height },
        ).aspect.den,
{
}

/// After a resize to a non-empty size, the depth texture has that size, and
/// the next frame, if none is in flight, renders into a target of that size:
/// no depth texture of an earlier size is attached.
pub proof fn lemma_resize_rebinds_depth(m: RenderModel, width: u32, height: u32)
    requires
        width > 0,
        height > 0,
        m.phase == FramePhase::Idle,
    ensures
        ({
            let e = Extent { width, height };
            let r = m.after(WindowSignal::Resized { width, height });
            &&& r.depth == e
            &&& r.command_for(WindowSignal::RedrawRequested) matches Command::Draw(p) && p.target
                == e && !p.reconfigure_first
        }),
{
}

/// Every window signal and every frame signal keeps the surface, the depth
/// texture and the aspect in agreement.
pub proof fn lemma_signals_keep_wf(m: RenderModel, w: WindowSignal, f: FrameSignal)
    requires
        m.wf(),
    ensures
        m.after(w).wf(),
        m.advanced(f) matches Some(n) ==> n.wf(),
{
}

/// The renderer's decisions: the size of the surface, of the depth texture
/// and the projection's aspect, kept in step, and the phase of the frame in
/// flight.
pub struct RenderState {
    surface: Extent,
    aspect: Aspect,
    depth: Extent,
    phase: FramePhase,
    stale: bool,
    index_count: u32,
}

impl View for RenderState {
    type V = RenderModel;

    closed spec fn view(&self) -> RenderModel {
        RenderModel {
            surface: self.surface,
            aspect: self.aspect,
            depth: self.depth,
            phase: self.phase,
            stale: self.stale,
            index_count: self.index_count,
        }
    }
}

impl RenderState {
    #[verifier::type_invariant]
    closed spec fn inv(self) -> bool {
        self@.wf()
    }

    /// State of a renderer whose surface has just been configured at
    /// `width` x `height` and that draws `index_count` indices per frame;
    /// `None` where the surface would have no pixels.
    pub fn new(width: u32, height: u32, index_count: u32) -> (r: Option<RenderState>)
        ensures
            r is None <==> (width == 0 || height == 0),
            r matches Some(st) ==> {
                &&& st@.wf()
                &&& st@.surface == (Extent { width, height })
                &&& st@.phase == FramePhase::Idle
                &&& !st@.stale
                &&& st@.index_count == index_count
            },
    {
        if width == 0 || height == 0 {
            return None;
        }
        let e = Extent { width, height };
        Some(
            RenderState {
                surface: e,
                aspect: Aspect { num: width, den: height },
                depth: e,
                phase: FramePhase::Idle,
                stale: false,
                index_count,
            },
        )
    }

    /// Size the render surface is configured with.
    pub fn surface_size(&self) -> (r: Extent)
        ensures
            r == self@.surface,
    {
        self.surface
    }

    /// Aspect ratio of the projection.
    pub fn aspect(&self) -> (r: Aspect)
        ensures
            r == self@.aspect,
    {
        self.aspect
    }

    /// Size of the live depth texture.
    pub fn depth_size(&self) -> (r: Extent)
        ensures
            r == self@.depth,
    {
        self.depth
    }

    pub fn phase(&self) -> (r: FramePhase)
        ensures
            r == self@.phase,
    {
        self.phase
    }

    /// Whether the surface must be rebuilt before the next frame.
    pub fn is_stale(&self) -> (r: bool)
        ensures
            r == self@.stale,
    {
        self.stale
    }

    pub fn index_count(&self) -> (r: u32)
        ensures
            r == self@.index_count,
    {
        self.index_count
    }

    /// Reconfigures the surface at `width` x `height`: the projection's
    /// aspect becomes `width / height` and the depth texture is rebuilt at
    /// that size. A size with no pixels is refused and nothing changes.
    pub fn resize(&mut self, width: u32, height: u32) -> (r: Result<(), ResizeError>)
        ensures
            r is Err <==> (width == 0 || height == 0),
            r is Err ==> final(self)@ == old(self)@,
            r is Ok ==> final(self)@ == old(self)@.resized(Extent { width, height }),
            final(self)@.wf(),
    {
        proof {
            use_type_invariant(&*self);
        }
        if width == 0 || height == 0 {
            return Err(ResizeError::ZeroSize);
        }
        let e = Extent { width, height };
        *self = RenderState {
            surface: e,
            aspect: Aspect { num: width, den: height },
            depth: e,
            phase: self.phase,
            stale: false,
            index_count: self.index_count,
        };
        Ok(())
    }

    /// The plan of a frame that starts now.
    fn frame_plan(&self) -> (r: FramePlan)
        ensures
            r == self@.plan(),
    {
        FramePlan {
            reconfigure_first: self.stale,
            target: self.surface,
            texture_group: TEXTURE_GROUP,
            projection_group: PROJECTION_GROUP,
            first_index: 0,
            index_count: self.index_count,
            instance_count: 1,
        }
    }

    /// Answers one window signal: a resize reconfigures, a redraw starts a
    /// frame when none is in flight, a close request or the Escape key exits.
    pub fn handle(&mut self, signal: WindowSignal) -> (r: Command)
        ensures
            r == old(self)@.command_for(signal),
            final(self)@ == old(self)@.after(signal),
            final(self)@.wf(),
    {
        proof {
            use_type_invariant(&*self);
        }
        match signal {
            WindowSignal::Resized { width, height } => {
                match self.resize(width, height) {
                    Ok(()) => Command::Reconfigure(Extent { width, height }),
                    Err(_) => Command::Skip,
                }
            },
            WindowSignal::RedrawRequested => {
                if self.phase == FramePhase::Idle {
                    let plan = self.frame_plan();
                    self.phase = FramePhase::Acquiring;
                    self.stale = false;
                    Command::Draw(plan)
                } else {
                    Command::Skip
                }
            },
            WindowSignal::CloseRequested => Command::Exit,
            WindowSignal::KeyPressed { escape } => {
                if escape {
                    Command::Exit
                } else {
                    Command::Skip
                }
            },
            WindowSignal::Other => Command::Skip,
        }
    }

    /// Moves the frame in flight on by one step. A failed acquisition drops
    /// the frame and marks the surface for a rebuild before the next one. A
    /// signal that cannot come in the current phase is refused and nothing
    /// changes.
    pub fn advance(&mut self, signal: FrameSignal) -> (r: Result<FramePhase, FrameError>)
        ensures
            old(self)@.advanced(signal) is None <==> r is Err,
            old(self)@.advanced(signal) is None ==> final(self)@ == old(self)@,
            old(self)@.advanced(signal) matches Some(m) ==> final(self)@ == m && r == Ok::<
                FramePhase,
                FrameError,
            >(m.phase),
            final(self)@.wf(),
    {
        proof {
            use_type_invariant(&*self);
        }
        let next = match (self.phase, signal) {
            (FramePhase::Acquiring, FrameSignal::Acquired) => FramePhase::Recording,
            (FramePhase::Acquiring, FrameSignal::AcquireFailed) => {
                self.stale = true;
                FramePhase::Idle
            },
            (FramePhase::Recording, FrameSignal::Submitted) => FramePhase::Submitted,
            (FramePhase::Submitted, FrameSignal::Presented) => FramePhase::Presented,
            (FramePhase::Presented, FrameSignal::Finished) => FramePhase::Idle,
            _ => {
                return Err(FrameError::OutOfOrder);
            },
        };
        self.phase = next;
        Ok(next)
    }
}

} // verus!
