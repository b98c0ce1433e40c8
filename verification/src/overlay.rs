//! The overlay: its life from creation to teardown, told as a state machine.
//!
//! An [`Overlay`] owns three resources, acquired in this order and released
//! in the opposite one: the overlay window (the *surface*), the graphics
//! *context*, and the rendering *device*. Handles are plain integers and 0
//! stands for "none".
//!
//! Every step takes the host's [`Reply`] to the previous batch of actions
//! and returns the next batch. What a step does is written down once, as a
//! function on [`OverlayState`]; the executable methods are proved to follow
//! it, and the laws in [`crate::laws`] are proved about it.

use vstd::prelude::*;
use crate::color::TRANSPARENT;
use crate::error::OverlayError;
use crate::geometry::Rect;
use crate::protocol::{
    Action, Margins, Placement, PresentParameters, Reply, WindowSpec, D3DADAPTER_DEFAULT,
    D3DCREATE_HARDWARE_VERTEXPROCESSING, D3DDEVTYPE_HAL, D3DFMT_A8R8G8B8,
    D3DPRESENT_INTERVAL_IMMEDIATE, D3DSWAPEFFECT_DISCARD, HWND_TOPMOST, OPAQUE, WS_EX_LAYERED,
    WS_EX_TRANSPARENT, WS_POPUP, WS_VISIBLE,
};

verus! {

/// Where an overlay is in its life.
#[derive(Clone, Copy, Debug, PartialEq, Eq, Structural)]
pub enum Stage {
    /// Nothing has been asked of the host yet.
    Fresh,
    /// The window class is being registered.
    Registering,
    /// The target's rectangle is being read for the first time.
    Measuring,
    /// The overlay window is being created.
    CreatingWindow,
    /// The graphics context is being created.
    CreatingContext,
    /// The rendering device is being created.
    CreatingDevice,
    /// Between two frames: the target's rectangle is being read.
    Syncing,
    /// Inside a frame: the scene is open and the drawing callback runs.
    InScene,
    /// The graphics could not be set up. Context and device are gone or
    /// never were; the overlay window still stands, for the construction to
    /// take down.
    GraphicsFailed,
    /// Stopped for good. No resource is held.
    Halted,
}

/// Everything an overlay knows.
#[derive(Clone, Copy, Debug, PartialEq, Eq, Structural)]
pub struct OverlayState {
    /// The window that is overlaid. Not owned.
    pub target: usize,
    /// The overlay window, or 0.
    pub surface: usize,
    /// The graphics context, or 0.
    pub context: usize,
    /// The rendering device, or 0.
    pub device: usize,
    /// The frame rate. Nothing measures it, so it stays 0.
    pub fps: i32,
    /// How far below the target's top edge the overlay is placed.
    pub offset: i32,
    /// The target's rectangle as it was last read.
    pub rect: Rect,
    /// The stage of life.
    pub stage: Stage,
    /// Whether a stop has been requested.
    pub stopping: bool,
    /// Why the overlay halted, if it halted on a failure.
    pub failure: Option<OverlayError>,
}

impl OverlayState {
    /// The state of an overlay for `target` of which nothing exists yet.
    pub open spec fn fresh(target: usize, offset: i32) -> OverlayState {
        OverlayState {
            target,
            surface: 0,
            context: 0,
            device: 0,
            fps: 0,
            offset,
            rect: Rect { left: 0, top: 0, right: 0, bottom: 0 },
            stage: Stage::Fresh,
            stopping: false,
            failure: None,
        }
    }

    /// The states an overlay can be in. The stage tells which resources
    /// exist: the surface from `CreatingContext` on, the context from
    /// `CreatingDevice` on, the device exactly in `Syncing` and `InScene`,
    /// the surface alone after a failure of the graphics, and none of them
    /// once halted. A failure is on record only where one has happened.
    pub open spec fn wf(self) -> bool {
        &&& self.fps == 0
        &&& self.rect.sound()
        &&& (self.failure is Some ==> self.stage == Stage::Halted || self.stage
            == Stage::GraphicsFailed)
        &&& match self.stage {
            Stage::Fresh | Stage::Registering | Stage::Measuring | Stage::CreatingWindow
            | Stage::Halted => self.surface == 0 && self.context == 0 && self.device == 0,
            Stage::CreatingContext => self.surface != 0 && self.context == 0 && self.device == 0,
            Stage::CreatingDevice => self.surface != 0 && self.context != 0 && self.device == 0,
            Stage::Syncing | Stage::InScene => self.surface != 0 && self.context != 0
                && self.device != 0,
            Stage::GraphicsFailed => self.surface != 0 && self.context == 0 && self.device == 0
                && self.failure is Some,
        }
    }

    /// The actions that release whatever is held: the device, then the
    /// context, then the surface. A handle that is 0 is passed over.
    pub open spec fn teardown(self) -> Seq<Action> {
        (if self.device != 0 {
            seq![Action::ReleaseDevice { device: self.device }]
        } else {
            Seq::<Action>::empty()
        }) + (if self.context != 0 {
            seq![Action::ReleaseContext { context: self.context }]
        } else {
            Seq::<Action>::empty()
        }) + (if self.surface != 0 {
            seq![Action::DestroyWindow { window: self.surface }]
        } else {
            Seq::<Action>::empty()
        })
    }

    /// The state after teardown: halted, holding nothing, with `failure` as
    /// the reason.
    pub open spec fn halted(self, failure: Option<OverlayError>) -> OverlayState {
        OverlayState { surface: 0, context: 0, device: 0, stage: Stage::Halted, failure, ..self }
    }

    /// Stopping: release everything and halt.
    pub open spec fn stop(self, failure: Option<OverlayError>) -> (OverlayState, Seq<Action>) {
        (self.halted(failure), self.teardown())
    }

    /// Staying put: nothing changes and nothing is asked of the host.
    pub open spec fn idle(self) -> (OverlayState, Seq<Action>) {
        (self, Seq::<Action>::empty())
    }

    /// The overlay window for a target at `rect`: at the target's position
    /// and of its size, without border, visible, layered and click-through.
    pub open spec fn window_spec(rect: Rect) -> WindowSpec {
        WindowSpec {
            x: rect.left,
            y: rect.top,
            width: rect.spec_width() as i32,
            height: rect.spec_height() as i32,
            style: WS_POPUP | WS_VISIBLE,
            ex_style: WS_EX_LAYERED | WS_EX_TRANSPARENT,
        }
    }

    /// The frame margins for a target at `rect`. The bottom margin is the
    /// full height of the window, so the frame covers the client area.
    pub open spec fn margins(rect: Rect) -> Margins {
        Margins {
            left: rect.left,
            right: rect.top,
            top: rect.spec_width() as i32,
            bottom: rect.spec_height() as i32,
        }
    }

    /// The presentation of a device for a target at `rect`: windowed, one
    /// back buffer of the target's size with an alpha channel, discarded
    /// after presenting, presented at once.
    pub open spec fn present_parameters(rect: Rect) -> PresentParameters {
        PresentParameters {
            back_buffer_width: rect.spec_width() as u32,
            back_buffer_height: rect.spec_height() as u32,
            back_buffer_format: D3DFMT_A8R8G8B8,
            back_buffer_count: 1,
            swap_effect: D3DSWAPEFFECT_DISCARD,
            windowed: true,
            presentation_interval: D3DPRESENT_INTERVAL_IMMEDIATE,
        }
    }

    /// Whether the overlay can be placed over a target at `rect`: the
    /// rectangle is sound and the shifted top edge is a coordinate.
    pub open spec fn placeable(self, rect: Rect) -> bool {
        &&& rect.sound()
        &&& i32::MIN <= rect.top + self.offset <= i32::MAX
    }

    /// Where the overlay window goes for a target at `rect`: the target's
    /// left edge, its top edge shifted down by the offset, its width and its
    /// height, in the topmost band.
    pub open spec fn placement(self, rect: Rect) -> Placement {
        Placement {
            insert_after: HWND_TOPMOST,
            x: rect.left,
            y: (rect.top + self.offset) as i32,
            width: rect.spec_width() as i32,
            height: rect.spec_height() as i32,
            flags: 0,
        }
    }

    /// The action that moves the overlay window over a target at `rect`, or
    /// `None` if there is no overlay window or `rect` is not placeable.
    pub open spec fn sync(self, rect: Rect) -> Option<Action> {
        if self.surface != 0 && self.placeable(rect) {
            Some(Action::SetWindowPos { window: self.surface, placement: self.placement(rect) })
        } else {
            None
        }
    }

    /// What the graphics part of the construction does with a reply.
    ///
    /// While the context is awaited, a context handle leads on to the
    /// creation of the device. While the device is awaited, a device that
    /// was created without error completes the overlay, and the first
    /// rectangle for the frame loop is asked for. Any other reply is the
    /// failure of the stage. A context that could not be created leaves
    /// nothing to release; a device that could not be created has the
    /// context released. In both cases the overlay window is left standing:
    /// to take it down is the part of the construction as a whole. In every
    /// other stage nothing happens.
    pub open spec fn initialized(self, reply: Reply) -> (OverlayState, Seq<Action>) {
        match self.stage {
            Stage::CreatingContext => match reply {
                Reply::ContextCreated { context } if context != 0 => (
                    OverlayState { stage: Stage::CreatingDevice, context, ..self },
                    seq![
                        Action::CreateDevice {
                            context,
                            window: self.surface,
                            adapter: D3DADAPTER_DEFAULT,
                            device_type: D3DDEVTYPE_HAL,
                            behavior: D3DCREATE_HARDWARE_VERTEXPROCESSING,
                            parameters: Self::present_parameters(self.rect),
                        },
                    ],
                ),
                _ => (
                    OverlayState {
                        stage: Stage::GraphicsFailed,
                        failure: Some(OverlayError::ContextCreation),
                        ..self
                    },
                    Seq::<Action>::empty(),
                ),
            },
            Stage::CreatingDevice => match reply {
                Reply::DeviceCreated { status, device } if status >= 0 && device != 0 => (
                    OverlayState { stage: Stage::Syncing, device, ..self },
                    seq![Action::QueryTargetRect { target: self.target }],
                ),
                _ => (
                    OverlayState {
                        stage: Stage::GraphicsFailed,
                        context: 0,
                        failure: Some(OverlayError::DeviceCreation),
                        ..self
                    },
                    seq![Action::ReleaseContext { context: self.context }],
                ),
            },
            _ => self.idle(),
        }
    }

    /// What the construction does with a reply.
    ///
    /// A fresh overlay without a target halts at once; with a target it
    /// registers the window class. Then, one reply after the other: the
    /// class being in place leads to the first reading of the target's
    /// rectangle, a usable rectangle to the creation of the window, a window
    /// handle to the dressing of the window and the creation of the graphics
    /// context, and from there `initialized` takes over. Any other reply is
    /// the failure of the stage, and the construction halts. Where it is
    /// the graphics that failed, the construction adds to what `initialized`
    /// released the release of what is left, the overlay window. Once the
    /// overlay is complete or halted nothing happens.
    pub open spec fn constructed(self, reply: Reply) -> (OverlayState, Seq<Action>) {
        match self.stage {
            Stage::Fresh => if self.target == 0 {
                self.stop(Some(OverlayError::TargetNotFound))
            } else {
                (
                    OverlayState { stage: Stage::Registering, ..self },
                    seq![Action::DisableGhosting, Action::RegisterClass],
                )
            },
            Stage::Registering => if reply.class_in_place() {
                (
                    OverlayState { stage: Stage::Measuring, ..self },
                    seq![Action::QueryTargetRect { target: self.target }],
                )
            } else {
                self.stop(Some(OverlayError::ClassRegistration))
            },
            Stage::Measuring => match reply.usable_rect() {
                Some(rect) => (
                    OverlayState { stage: Stage::CreatingWindow, rect, ..self },
                    seq![Action::CreateWindow { spec: Self::window_spec(rect) }],
                ),
                None => self.stop(Some(OverlayError::StaleTarget)),
            },
            Stage::CreatingWindow => match reply {
                Reply::WindowCreated { window } if window != 0 => (
                    OverlayState { stage: Stage::CreatingContext, surface: window, ..self },
                    seq![
                        Action::ExtendFrame { window, margins: Self::margins(self.rect) },
                        Action::SetOpacity { window, alpha: OPAQUE },
                        Action::ShowWindow { window },
                        Action::CreateContext,
                    ],
                ),
                _ => self.stop(Some(OverlayError::WindowCreation)),
            },
            Stage::CreatingContext | Stage::CreatingDevice => {
                let graphics = self.initialized(reply);
                if graphics.0.stage == Stage::GraphicsFailed {
                    (graphics.0.halted(graphics.0.failure), graphics.1 + graphics.0.teardown())
                } else {
                    graphics
                }
            },
            Stage::GraphicsFailed => self.stop(self.failure),
            _ => self.idle(),
        }
    }

    /// The beginning of a frame for a target at `rect`: between two frames
    /// and with a placeable rectangle, the overlay window is moved over the
    /// target, the whole back buffer is cleared to transparent, and the
    /// scene is opened. Otherwise nothing happens.
    pub open spec fn begun(self, rect: Rect) -> (OverlayState, Seq<Action>) {
        if self.stage == Stage::Syncing && self.placeable(rect) {
            (
                OverlayState { stage: Stage::InScene, rect, ..self },
                seq![
                    Action::SetWindowPos { window: self.surface, placement: self.placement(rect) },
                    Action::Clear { device: self.device, region: None, color: TRANSPARENT },
                    Action::BeginScene { device: self.device },
                ],
            )
        } else {
            self.idle()
        }
    }

    /// The end of a frame: inside a frame, the scene is closed and the back
    /// buffer is presented. Otherwise nothing happens.
    pub open spec fn ended(self) -> (OverlayState, Seq<Action>) {
        if self.stage == Stage::InScene {
            (
                OverlayState { stage: Stage::Syncing, ..self },
                seq![Action::EndScene { device: self.device }, Action::Present { device: self.device }],
            )
        } else {
            self.idle()
        }
    }

    /// What the frame loop does with a reply.
    ///
    /// Between two frames a requested stop is honoured; else a placeable
    /// rectangle begins the next frame and the drawing callback is invoked;
    /// any other reply means that the target is gone, and the overlay is
    /// torn down. Inside a frame the reply says that the callback has
    /// returned: the frame is ended and the target's rectangle is asked for
    /// again. Before the overlay is complete and after it has halted nothing
    /// happens.
    pub open spec fn drawn(self, reply: Reply) -> (OverlayState, Seq<Action>) {
        match self.stage {
            Stage::Syncing => if self.stopping {
                self.stop(None)
            } else {
                match reply.usable_rect() {
                    Some(rect) if self.placeable(rect) => (
                        self.begun(rect).0,
                        self.begun(rect).1.push(Action::InvokeCallback),
                    ),
                    _ => self.stop(Some(OverlayError::StaleTarget)),
                }
            },
            Stage::InScene => (
                self.ended().0,
                self.ended().1.push(Action::QueryTargetRect { target: self.target }),
            ),
            _ => self.idle(),
        }
    }

    /// The action that fills the rectangle `[x, x + w) x [y, y + h)` of the
    /// back buffer with `color`, or `None` if there is no device to draw
    /// with or an edge of the rectangle is not a coordinate.
    pub open spec fn filled_box(self, x: i32, y: i32, w: i32, h: i32, color: u32) -> Option<Action> {
        if self.device != 0 && Rect::fits(x, y, w, h) {
            Some(
                Action::Clear {
                    device: self.device,
                    region: Some(
                        Rect { left: x, top: y, right: (x + w) as i32, bottom: (y + h) as i32 },
                    ),
                    color,
                },
            )
        } else {
            None
        }
    }

    /// Whether all four sides of the outline of `[x, x + w) x [y, y + h)`
    /// with thickness `t` can be drawn: there is a device, and the far edges
    /// of the rectangle, the inner edges of its left and top side and the
    /// inner edges of its right and bottom side are coordinates.
    pub open spec fn can_outline(self, x: i32, y: i32, w: i32, h: i32, t: i32) -> bool {
        &&& self.device != 0
        &&& Rect::fits(x, y, w, h)
        &&& Rect::fits(x, y, t, t)
        &&& i32::MIN <= x + w - t <= i32::MAX
        &&& i32::MIN <= y + h - t <= i32::MAX
    }

    /// The actions that draw the outline of `[x, x + w) x [y, y + h)`: four
    /// filled boxes, `t` thick, for the left, right, top and bottom side,
    /// each along its side of the rectangle and inside it. The right side
    /// ends at `x + w` and the bottom side at `y + h`, so every corner of
    /// the outline belongs to one upright side and one level side. `None` if
    /// one of the four cannot be drawn.
    pub open spec fn outlined_box(self, x: i32, y: i32, w: i32, h: i32, t: i32, color: u32) -> Option<
        Seq<Action>,
    > {
        if self.can_outline(x, y, w, h, t) {
            Some(
                seq![
                    self.filled_box(x, y, t, h, color).unwrap(),
                    self.filled_box((x + w - t) as i32, y, t, h, color).unwrap(),
                    self.filled_box(x, y, w, t, color).unwrap(),
                    self.filled_box(x, (y + h - t) as i32, w, t, color).unwrap(),
                ],
            )
        } else {
            None
        }
    }

    /// What one step of the overlay's life does with a reply: the frame
    /// loop's step once the overlay is complete, the construction's step
    /// before that.
    pub open spec fn stepped(self, reply: Reply) -> (OverlayState, Seq<Action>) {
        match self.stage {
            Stage::Syncing | Stage::InScene => self.drawn(reply),
            _ => self.constructed(reply),
        }
    }
}

/// An overlay over one target window.
///
/// An overlay is the single owner of its three resources, so it can be
/// neither copied nor cloned.
#[derive(Debug)]
pub struct Overlay {
    state: OverlayState,
}

impl View for Overlay {
    type V = OverlayState;

    closed spec fn view(&self) -> OverlayState {
        self.state
    }
}

impl Default for Overlay {
    /// An overlay without a target: nothing exists, and nothing will.
    fn default() -> (overlay: Overlay)
        ensures
            overlay@ == OverlayState::fresh(0, 0),
    {
        Overlay::new(0)
    }
}

impl Overlay {
    #[verifier::type_invariant]
    spec fn inv(self) -> bool {
        self.state.wf()
    }

    /// An overlay for `target`, placed exactly over it. Nothing exists yet;
    /// `create_overlay` brings it into being.
    pub fn new(target: usize) -> (overlay: Overlay)
        ensures
            overlay@ == OverlayState::fresh(target, 0),
    {
        Overlay::with_offset(target, 0)
    }

    /// An overlay for `target`, placed `offset` pixels below its top edge.
    pub fn with_offset(target: usize, offset: i32) -> (overlay: Overlay)
        ensures
            overlay@ == OverlayState::fresh(target, offset),
    {
        Overlay {
            state: OverlayState {
                target,
                surface: 0,
                context: 0,
                device: 0,
                fps: 0,
                offset,
                rect: Rect::zero(),
                stage: Stage::Fresh,
                stopping: false,
                failure: None,
            },
        }
    }

    /// The whole state, which is always well-formed.
    pub fn state(&self) -> (state: OverlayState)
        ensures
            state == self@,
            state.wf(),
    {
        proof {
            use_type_invariant(self);
        }
        self.state
    }

    /// The frame rate. Nothing measures it, so it is 0.
    pub fn get_fps(&self) -> (fps: i32)
        ensures
            fps == self@.fps,
            fps == 0,
    {
        proof {
            use_type_invariant(self);
        }
        self.state.fps
    }

    /// The handle of the graphics context, 0 if there is none.
    pub fn get_d3d(&self) -> (context: usize)
        ensures
            context == self@.context,
    {
        self.state.context
    }

    /// The handle of the rendering device, 0 if there is none.
    pub fn get_device(&self) -> (device: usize)
        ensures
            device == self@.device,
    {
        self.state.device
    }

    /// The target's rectangle as the host last reported it; all zero before
    /// the first report.
    pub fn get_rect(&self) -> (rect: Rect)
        ensures
            rect == self@.rect,
            rect.sound(),
    {
        proof {
            use_type_invariant(self);
        }
        self.state.rect
    }

    /// The handle of the overlay window, 0 if there is none.
    pub fn get_overlay(&self) -> (window: usize)
        ensures
            window == self@.surface,
    {
        self.state.surface
    }

    /// The handle of the target window.
    pub fn get_target(&self) -> (target: usize)
        ensures
            target == self@.target,
    {
        self.state.target
    }

    /// Asks the overlay to stop. The frame loop honours the request the
    /// next time it is between two frames.
    pub fn request_stop(&mut self)
        ensures
            final(self)@ == (OverlayState { stopping: true, ..old(self)@ }),
    {
        proof {
            use_type_invariant(&*self);
        }
        let s: OverlayState = self.state;
        self.state = OverlayState { stopping: true, ..s };
    }

    /// Tears the overlay down: returns the actions that release the device,
    /// the context and the overlay window, in this order and only those that
    /// exist, and forgets the three handles. The reason for an earlier halt
    /// is kept.
    ///
    /// Tearing down an overlay that holds nothing returns no action, so a
    /// second call is harmless.
    pub fn destroy(&mut self) -> (actions: Vec<Action>)
        ensures
            actions@ == old(self)@.teardown(),
            final(self)@ == old(self)@.halted(old(self)@.failure),
    {
        let failure: Option<OverlayError> = self.state.failure;
        self.halt(failure)
    }

    /// Releases everything and halts with `failure` as the reason.
    fn halt(&mut self, failure: Option<OverlayError>) -> (actions: Vec<Action>)
        ensures
            actions@ == old(self)@.teardown(),
            final(self)@ == old(self)@.halted(failure),
    {
        let actions: Vec<Action> = self.halt_after(Vec::new(), failure);
        assert(actions@ =~= old(self)@.teardown());
        actions
    }

    /// Releases everything and halts with `failure` as the reason; the
    /// releases follow the actions that are `done` already.
    fn halt_after(&mut self, done: Vec<Action>, failure: Option<OverlayError>) -> (actions: Vec<
        Action,
    >)
        ensures
            actions@ == done@ + old(self)@.teardown(),
            final(self)@ == old(self)@.halted(failure),
    {
        proof {
            use_type_invariant(&*self);
        }
        let s: OverlayState = self.state;
        let mut actions: Vec<Action> = done;
        if s.device != 0 {
            actions.push(Action::ReleaseDevice { device: s.device });
        }
        if s.context != 0 {
            actions.push(Action::ReleaseContext { context: s.context });
        }
        if s.surface != 0 {
            actions.push(Action::DestroyWindow { window: s.surface });
        }
        assert(actions@ =~= done@ + s.teardown());
        self.state = OverlayState {
            surface: 0,
            context: 0,
            device: 0,
            stage: Stage::Halted,
            failure,
            ..s
        };
        actions
    }

    /// Replaces the state. The new state has to be well-formed.
    fn enter(&mut self, next: OverlayState)
        requires
            next.wf(),
        ensures
            final(self)@ == next,
    {
        self.state = next;
    }

    /// Moves the overlay window over a target at `rect`.
    ///
    /// Returns the action that puts the window at the target's left edge and
    /// at its top edge shifted down by the overlay's offset, gives it the
    /// target's width and height, and raises it to the topmost band. Returns
    /// `None` if there is no overlay window, if `rect` is not sound, or if
    /// the shifted top edge is not a coordinate.
    pub fn ensure_position(&self, rect: Rect) -> (action: Option<Action>)
        ensures
            action == self@.sync(rect),
    {
        let s: OverlayState = self.state;
        if s.surface == 0 || !rect.is_sound() {
            return None;
        }
        match rect.top.checked_add(s.offset) {
            Some(y) => Some(
                Action::SetWindowPos {
                    window: s.surface,
                    placement: Placement {
                        insert_after: HWND_TOPMOST,
                        x: rect.left,
                        y,
                        width: rect.width() as i32,
                        height: rect.height() as i32,
                        flags: 0,
                    },
                },
            ),
            None => None,
        }
    }

    /// Begins a frame for a target at `rect`.
    ///
    /// Between two frames and with a rectangle over which the overlay can be
    /// placed, returns the three actions that move the overlay window over
    /// the target, clear the whole back buffer to transparent and open the
    /// scene, and enters the frame. In any other case nothing changes and
    /// no action is returned.
    pub fn begin_drawing(&mut self, rect: Rect) -> (actions: Vec<Action>)
        ensures
            final(self)@ == old(self)@.begun(rect).0,
            actions@ == old(self)@.begun(rect).1,
    {
        proof {
            use_type_invariant(&*self);
        }
        let s: OverlayState = self.state;
        let mut actions: Vec<Action> = Vec::new();
        if s.stage == Stage::Syncing {
            if let Some(position) = self.ensure_position(rect) {
                actions.push(position);
                actions.push(Action::Clear { device: s.device, region: None, color: TRANSPARENT });
                actions.push(Action::BeginScene { device: s.device });
                self.enter(OverlayState { stage: Stage::InScene, rect, ..s });
                assert(actions@ =~= s.begun(rect).1);
                return actions;
            }
        }
        assert(actions@ =~= s.begun(rect).1);
        actions
    }

    /// Ends the frame.
    ///
    /// Inside a frame, returns the two actions that close the scene and
    /// present the back buffer, and leaves the frame. In any other case
    /// nothing changes and no action is returned.
    pub fn end_drawing(&mut self) -> (actions: Vec<Action>)
        ensures
            final(self)@ == old(self)@.ended().0,
            actions@ == old(self)@.ended().1,
    {
        proof {
            use_type_invariant(&*self);
        }
        let s: OverlayState = self.state;
        let mut actions: Vec<Action> = Vec::new();
        if s.stage == Stage::InScene {
            actions.push(Action::EndScene { device: s.device });
            actions.push(Action::Present { device: s.device });
            self.enter(OverlayState { stage: Stage::Syncing, ..s });
        }
        assert(actions@ =~= s.ended().1);
        actions
    }

    /// Runs the frame loop one step further.
    ///
    /// `reply` is the host's answer to the last action of the previous
    /// batch; the returned batch is what the host has to do next. The host
    /// calls `draw` again and again until the overlay has halted. See
    /// `OverlayState::drawn` for what each step does.
    pub fn draw(&mut self, reply: Reply) -> (actions: Vec<Action>)
        ensures
            final(self)@ == old(self)@.drawn(reply).0,
            actions@ == old(self)@.drawn(reply).1,
    {
        proof {
            use_type_invariant(&*self);
        }
        let s: OverlayState = self.state;
        match s.stage {
            Stage::Syncing => {
                if s.stopping {
                    return self.halt(None);
                }
                if let Some(rect) = reply.rect() {
                    if self.ensure_position(rect).is_some() {
                        let mut actions: Vec<Action> = self.begin_drawing(rect);
                        actions.push(Action::InvokeCallback);
                        return actions;
                    }
                }
                self.halt(Some(OverlayError::StaleTarget))
            },
            Stage::InScene => {
                let mut actions: Vec<Action> = self.end_drawing();
                actions.push(Action::QueryTargetRect { target: s.target });
                actions
            },
            _ => Vec::new(),
        }
    }

    /// Fills the rectangle `[x, x + w) x [y, y + h)` of the back buffer.
    ///
    /// Returns the clear that sets exactly the pixels of that rectangle to
    /// `color`, alpha included, with the rectangle as its clip region. A `w`
    /// or `h` that is not positive gives a region without pixels. Returns
    /// `None` if the overlay has no device, or if `x + w` or `y + h` is not
    /// a coordinate.
    pub fn draw_filled_box(&self, x: i32, y: i32, w: i32, h: i32, color: u32) -> (action: Option<
        Action,
    >)
        ensures
            action == self@.filled_box(x, y, w, h, color),
    {
        let device: usize = self.state.device;
        if device == 0 {
            return None;
        }
        match Rect::from_size(x, y, w, h) {
            Some(region) => Some(Action::Clear { device, region: Some(region), color }),
            None => None,
        }
    }

    /// Draws the outline of the rectangle `[x, x + w) x [y, y + h)`.
    ///
    /// Returns four filled boxes, each `t` thick and each inside the
    /// rectangle: the left side from `x`, the right side up to `x + w`, the
    /// top side from `y` and the bottom side up to `y + h`, in this order.
    /// With `0 < t`, `t <= w` and `t <= h` the four make a closed ring, and
    /// each corner of it is covered by two of them. Returns `None`, and
    /// draws nothing, if one of the four cannot be drawn.
    pub fn draw_box(&self, x: i32, y: i32, w: i32, h: i32, t: i32, color: u32) -> (actions: Option<
        Vec<Action>,
    >)
        ensures
            actions is Some == self@.outlined_box(x, y, w, h, t, color) is Some,
            actions matches Some(v) ==> v@ == self@.outlined_box(x, y, w, h, t, color).unwrap(),
    {
        let (far_x, far_y) = match (x.checked_add(w), y.checked_add(h)) {
            (Some(far_x), Some(far_y)) => (far_x, far_y),
            _ => { return None; },
        };
        let (right, bottom) = match (far_x.checked_sub(t), far_y.checked_sub(t)) {
            (Some(right), Some(bottom)) => (right, bottom),
            _ => { return None; },
        };
        let sides = (
            self.draw_filled_box(x, y, t, h, color),
            self.draw_filled_box(right, y, t, h, color),
            self.draw_filled_box(x, y, w, t, color),
            self.draw_filled_box(x, bottom, w, t, color),
        );
        match sides {
            (Some(left_side), Some(right_side), Some(top_side), Some(bottom_side)) => {
                let mut actions: Vec<Action> = Vec::new();
                actions.push(left_side);
                actions.push(right_side);
                actions.push(top_side);
                actions.push(bottom_side);
                assert(actions@ =~= self@.outlined_box(x, y, w, h, t, color).unwrap());
                Some(actions)
            },
            _ => None,
        }
    }

    /// Takes the graphics part of the construction one step further.
    ///
    /// `reply` is the host's answer to the creation of the context or of the
    /// device. A failure releases the context, if there is one, and leaves
    /// the overlay window to the caller: the stage is then `GraphicsFailed`,
    /// and `create_overlay`, `step` or `destroy` takes the window down. See
    /// `OverlayState::initialized` for what each step does.
    pub fn init_dx9(&mut self, reply: Reply) -> (actions: Vec<Action>)
        ensures
            final(self)@ == old(self)@.initialized(reply).0,
            actions@ == old(self)@.initialized(reply).1,
    {
        proof {
            use_type_invariant(&*self);
        }
        let s: OverlayState = self.state;
        match s.stage {
            Stage::CreatingContext => {
                match reply {
                    Reply::ContextCreated { context } => {
                        if context != 0 {
                            let mut actions: Vec<Action> = Vec::new();
                            actions.push(
                                Action::CreateDevice {
                                    context,
                                    window: s.surface,
                                    adapter: D3DADAPTER_DEFAULT,
                                    device_type: D3DDEVTYPE_HAL,
                                    behavior: D3DCREATE_HARDWARE_VERTEXPROCESSING,
                                    parameters: present_parameters_for(s.rect),
                                },
                            );
                            self.enter(OverlayState { stage: Stage::CreatingDevice, context, ..s });
                            assert(actions@ =~= s.initialized(reply).1);
                            return actions;
                        }
                    },
                    _ => {},
                }
                self.enter(
                    OverlayState {
                        stage: Stage::GraphicsFailed,
                        failure: Some(OverlayError::ContextCreation),
                        ..s
                    },
                );
                Vec::new()
            },
            Stage::CreatingDevice => {
                match reply {
                    Reply::DeviceCreated { status, device } => {
                        if status >= 0 && device != 0 {
                            let mut actions: Vec<Action> = Vec::new();
                            actions.push(Action::QueryTargetRect { target: s.target });
                            self.enter(OverlayState { stage: Stage::Syncing, device, ..s });
                            assert(actions@ =~= s.initialized(reply).1);
                            return actions;
                        }
                    },
                    _ => {},
                }
                let mut actions: Vec<Action> = Vec::new();
                actions.push(Action::ReleaseContext { context: s.context });
                self.enter(
                    OverlayState {
                        stage: Stage::GraphicsFailed,
                        context: 0,
                        failure: Some(OverlayError::DeviceCreation),
                        ..s
                    },
                );
                assert(actions@ =~= s.initialized(reply).1);
                actions
            },
            _ => Vec::new(),
        }
    }

    /// Takes the construction of the overlay one step further.
    ///
    /// `reply` is the host's answer to the last action of the previous
    /// batch, `Reply::Nothing` on the first call; the returned batch is what
    /// the host has to do next. The host calls `create_overlay` until the
    /// overlay is complete, which shows in its stage being `Syncing`, or has
    /// halted. A construction that fails leaves nothing behind: the batch of
    /// the failing step releases what the earlier steps had acquired. See
    /// `OverlayState::constructed` for what each step does.
    pub fn create_overlay(&mut self, reply: Reply) -> (actions: Vec<Action>)
        ensures
            final(self)@ == old(self)@.constructed(reply).0,
            actions@ == old(self)@.constructed(reply).1,
    {
        proof {
            use_type_invariant(&*self);
        }
        let s: OverlayState = self.state;
        match s.stage {
            Stage::Fresh => {
                if s.target == 0 {
                    return self.halt(Some(OverlayError::TargetNotFound));
                }
                let mut actions: Vec<Action> = Vec::new();
                actions.push(Action::DisableGhosting);
                actions.push(Action::RegisterClass);
                self.enter(OverlayState { stage: Stage::Registering, ..s });
                assert(actions@ =~= s.constructed(reply).1);
                actions
            },
            Stage::Registering => {
                if !reply.is_class_in_place() {
                    return self.halt(Some(OverlayError::ClassRegistration));
                }
                let mut actions: Vec<Action> = Vec::new();
                actions.push(Action::QueryTargetRect { target: s.target });
                self.enter(OverlayState { stage: Stage::Measuring, ..s });
                assert(actions@ =~= s.constructed(reply).1);
                actions
            },
            Stage::Measuring => {
                match reply.rect() {
                    Some(rect) => {
                        let mut actions: Vec<Action> = Vec::new();
                        actions.push(Action::CreateWindow { spec: window_spec_for(rect) });
                        self.enter(OverlayState { stage: Stage::CreatingWindow, rect, ..s });
                        assert(actions@ =~= s.constructed(reply).1);
                        actions
                    },
                    None => self.halt(Some(OverlayError::StaleTarget)),
                }
            },
            Stage::CreatingWindow => {
                match reply {
                    Reply::WindowCreated { window } => {
                        if window != 0 {
                            let mut actions: Vec<Action> = Vec::new();
                            actions.push(Action::ExtendFrame { window, margins: margins_for(s.rect) });
                            actions.push(Action::SetOpacity { window, alpha: OPAQUE });
                            actions.push(Action::ShowWindow { window });
                            actions.push(Action::CreateContext);
                            self.enter(
                                OverlayState { stage: Stage::CreatingContext, surface: window, ..s },
                            );
                            assert(actions@ =~= s.constructed(reply).1);
                            return actions;
                        }
                    },
                    _ => {},
                }
                self.halt(Some(OverlayError::WindowCreation))
            },
            Stage::CreatingContext | Stage::CreatingDevice => {
                let actions: Vec<Action> = self.init_dx9(reply);
                if self.state.stage == Stage::GraphicsFailed {
                    let failure: Option<OverlayError> = self.state.failure;
                    self.halt_after(actions, failure)
                } else {
                    actions
                }
            },
            Stage::GraphicsFailed => {
                let failure: Option<OverlayError> = s.failure;
                self.halt(failure)
            },
            _ => Vec::new(),
        }
    }

    /// Takes the overlay one step further, whatever its stage.
    ///
    /// This is all a host needs: it starts with `Reply::Nothing`, carries
    /// out each batch in order, hands the answer to the last action of the
    /// batch to the next call, and goes on until the stage is `Halted`.
    /// While the overlay is under construction the step is that of
    /// `create_overlay`, afterwards that of `draw`.
    pub fn step(&mut self, reply: Reply) -> (actions: Vec<Action>)
        ensures
            final(self)@ == old(self)@.stepped(reply).0,
            actions@ == old(self)@.stepped(reply).1,
    {
        match self.state.stage {
            Stage::Syncing | Stage::InScene => self.draw(reply),
            _ => self.create_overlay(reply),
        }
    }
}

/// Describes the overlay window for a target at `rect`.
fn window_spec_for(rect: Rect) -> (spec: WindowSpec)
    requires
        rect.sound(),
    ensures
        spec == OverlayState::window_spec(rect),
{
    WindowSpec {
        x: rect.left,
        y: rect.top,
        width: rect.width() as i32,
        height: rect.height() as i32,
        style: WS_POPUP | WS_VISIBLE,
        ex_style: WS_EX_LAYERED | WS_EX_TRANSPARENT,
    }
}

/// Computes the frame margins for a target at `rect`.
fn margins_for(rect: Rect) -> (margins: Margins)
    requires
        rect.sound(),
    ensures
        margins == OverlayState::margins(rect),
{
    Margins {
        left: rect.left,
        right: rect.top,
        top: rect.width() as i32,
        bottom: rect.height() as i32,
    }
}

/// Describes the presentation of a device for a target at `rect`.
fn present_parameters_for(rect: Rect) -> (parameters: PresentParameters)
    requires
        rect.sound(),
    ensures
        parameters == OverlayState::present_parameters(rect),
{
    PresentParameters {
        back_buffer_width: rect.width() as u32,
        back_buffer_height: rect.height() as u32,
        back_buffer_format: D3DFMT_A8R8G8B8,
        back_buffer_count: 1,
        swap_effect: D3DSWAPEFFECT_DISCARD,
        windowed: true,
        presentation_interval: D3DPRESENT_INTERVAL_IMMEDIATE,
    }
}

} // verus!
