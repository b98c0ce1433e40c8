//! What holds of every overlay.
//!
//! The laws are stated over [`OverlayState`] and over the pixels of a back
//! buffer, the same functions that the contracts of the executable methods
//! are written in.

use vstd::prelude::*;
use crate::color::TRANSPARENT;
use crate::error::OverlayError;
use crate::geometry::Rect;
use crate::overlay::{OverlayState, Stage};
use crate::protocol::{
    Action, Reply, D3DADAPTER_DEFAULT, D3DCREATE_HARDWARE_VERTEXPROCESSING, D3DDEVTYPE_HAL,
    HWND_TOPMOST, OPAQUE,
};
use crate::surface::{painted, painted_row, rendered, rendered_all, shaped};

verus! {

/// The place of a releasing action in the order of teardown: the device
/// goes first, the context second, the overlay window last.
pub open spec fn release_rank(action: Action) -> int {
    match action {
        Action::ReleaseDevice { .. } => 0,
        Action::ReleaseContext { .. } => 1,
        Action::DestroyWindow { .. } => 2,
        _ => -1,
    }
}

/// Every step leads from a well-formed state to a well-formed state, so the
/// stage of an overlay always tells which resources it holds: there is a
/// device exactly while the frame loop runs, never a device without a
/// context, and never a context without a surface.
pub proof fn lemma_steps_preserve_wf(s: OverlayState, reply: Reply, rect: Rect)
    requires
        s.wf(),
    ensures
        s.constructed(reply).0.wf(),
        s.initialized(reply).0.wf(),
        s.begun(rect).0.wf(),
        s.ended().0.wf(),
        s.drawn(reply).0.wf(),
        s.stepped(reply).0.wf(),
        s.halted(s.failure).wf(),
        (s.device != 0) == (s.stage == Stage::Syncing || s.stage == Stage::InScene),
        s.device != 0 ==> s.context != 0,
        s.context != 0 ==> s.surface != 0,
{
}

/// Teardown releases nothing that does not exist: of an overlay that holds
/// no device, no context and no surface, such as one that was never
/// created, it consists of no action at all. It releases everything that
/// does exist, so after it nothing is left to release and a second teardown
/// is empty.
pub proof fn lemma_teardown_is_idempotent(s: OverlayState, failure: Option<OverlayError>)
    ensures
        (s.device == 0 && s.context == 0 && s.surface == 0) ==> s.teardown() == Seq::<
            Action,
        >::empty(),
        OverlayState::fresh(s.target, s.offset).teardown() == Seq::<Action>::empty(),
        s.halted(failure).teardown() == Seq::<Action>::empty(),
        s.halted(failure).halted(failure) == s.halted(failure),
{
    assert(s.halted(failure).teardown() =~= Seq::<Action>::empty());
    assert(OverlayState::fresh(s.target, s.offset).teardown() =~= Seq::<Action>::empty());
    if s.device == 0 && s.context == 0 && s.surface == 0 {
        assert(s.teardown() =~= Seq::<Action>::empty());
    }
}

/// Teardown is made of releases only, each of a handle that is not 0, and
/// it keeps the order of dependency: the device is released before the
/// context and the context before the surface. Each of the three that
/// exists is released, and released once.
pub proof fn lemma_teardown_order(s: OverlayState)
    ensures
        forall|i: int|
            0 <= i < s.teardown().len() ==> (#[trigger] s.teardown()[i]).releases()
                && s.teardown()[i].handle() != 0,
        forall|i: int, j: int|
            0 <= i < j < s.teardown().len() ==> release_rank(s.teardown()[i]) < release_rank(
                s.teardown()[j],
            ),
        s.teardown().contains(Action::ReleaseDevice { device: s.device }) == (s.device != 0),
        s.teardown().contains(Action::ReleaseContext { context: s.context }) == (s.context != 0),
        s.teardown().contains(Action::DestroyWindow { window: s.surface }) == (s.surface != 0),
        s.teardown().len() == (if s.device != 0 {
            1int
        } else {
            0int
        }) + (if s.context != 0 {
            1int
        } else {
            0int
        }) + (if s.surface != 0 {
            1int
        } else {
            0int
        }),
{
    let t = s.teardown();
    let d = Action::ReleaseDevice { device: s.device };
    let c = Action::ReleaseContext { context: s.context };
    let w = Action::DestroyWindow { window: s.surface };
    if s.device != 0 {
        assert(t[0] == d);
        if s.context != 0 {
            assert(t[1] == c);
            if s.surface != 0 {
                assert(t[2] == w);
            }
        } else if s.surface != 0 {
            assert(t[1] == w);
        }
    } else if s.context != 0 {
        assert(t[0] == c);
        if s.surface != 0 {
            assert(t[1] == w);
        }
    } else if s.surface != 0 {
        assert(t[0] == w);
    }
}

/// A step that halts the overlay tears it down: its batch is the teardown
/// of the state it started from, and the state it ends in holds nothing. So
/// a construction that fails leaves no resource behind, whatever the stage
/// it fails in.
pub proof fn lemma_halting_releases_everything(s: OverlayState, reply: Reply)
    requires
        s.wf(),
    ensures
        s.constructed(reply).0.stage == Stage::Halted ==> s.constructed(reply).1 == s.teardown()
            && s.constructed(reply).0 == s.halted(s.constructed(reply).0.failure),
        s.drawn(reply).0.stage == Stage::Halted ==> s.drawn(reply).1 == s.teardown() && s.drawn(
            reply,
        ).0 == s.halted(s.drawn(reply).0.failure),
{
}

/// A failure of the graphics leaves the overlay window alone. Whether the
/// context or the device could not be created, the graphics step ends in
/// `GraphicsFailed` with the surface it started with; it releases the
/// context if, and only if, there was one, and it destroys no window. To
/// take the window down is the part of the construction: its batch is that
/// of the graphics step followed by the one destruction of the window, and
/// it ends halted with the failure on record. So the whole releases the
/// context once and the window once.
pub proof fn lemma_graphics_failure_leaves_the_surface(s: OverlayState, reply: Reply)
    requires
        s.wf(),
        s.stage == Stage::CreatingContext || s.stage == Stage::CreatingDevice,
    ensures
        s.stage == Stage::CreatingContext ==> (s.initialized(reply).0.stage
            == Stage::GraphicsFailed) == !(reply matches Reply::ContextCreated { context }
            && context != 0),
        s.stage == Stage::CreatingDevice ==> (s.initialized(reply).0.stage == Stage::GraphicsFailed)
            == !(reply matches Reply::DeviceCreated { status, device } && status >= 0 && device
            != 0),
        s.initialized(reply).0.stage == Stage::GraphicsFailed ==> {
            let graphics = s.initialized(reply);
            &&& graphics.0.surface == s.surface
            &&& graphics.0.surface != 0
            &&& graphics.0.context == 0
            &&& graphics.0.device == 0
            &&& graphics.0.failure == Some(
                if s.stage == Stage::CreatingContext {
                    OverlayError::ContextCreation
                } else {
                    OverlayError::DeviceCreation
                },
            )
            &&& graphics.1 == (if s.stage == Stage::CreatingContext {
                Seq::<Action>::empty()
            } else {
                seq![Action::ReleaseContext { context: s.context }]
            })
            &&& s.constructed(reply).1 == graphics.1.push(
                Action::DestroyWindow { window: s.surface },
            )
            &&& s.constructed(reply).0 == s.halted(graphics.0.failure)
            &&& graphics.0.constructed(reply).1 == seq![Action::DestroyWindow { window: s.surface }]
            &&& graphics.0.constructed(reply).0 == s.halted(graphics.0.failure)
        },
{
    let graphics = s.initialized(reply);
    if graphics.0.stage == Stage::GraphicsFailed {
        assert(graphics.0.teardown() =~= seq![Action::DestroyWindow { window: s.surface }]);
        assert(s.constructed(reply).1 =~= graphics.1.push(
            Action::DestroyWindow { window: s.surface },
        ));
    }
}

/// A construction on which every reply is favourable runs through these
/// actions, in this order, and ends between two frames with the three
/// handles that the host reported: the class is registered, the target is
/// measured, the window is created over the target and dressed, the context
/// is created, and last the device, with a back buffer of the target's
/// size.
pub proof fn lemma_construction_sequence(
    target: usize,
    offset: i32,
    registration: Reply,
    rect: Rect,
    window: usize,
    context: usize,
    status: i32,
    device: usize,
)
    requires
        target != 0,
        registration.class_in_place(),
        rect.sound(),
        window != 0,
        context != 0,
        status >= 0,
        device != 0,
    ensures
        ({
            let s0 = OverlayState::fresh(target, offset);
            let a = s0.constructed(Reply::Nothing);
            let b = a.0.constructed(registration);
            let c = b.0.constructed(Reply::TargetRect { found: true, rect });
            let d = c.0.constructed(Reply::WindowCreated { window });
            let e = d.0.constructed(Reply::ContextCreated { context });
            let f = e.0.constructed(Reply::DeviceCreated { status, device });
            &&& f.0 == (OverlayState {
                surface: window,
                context,
                device,
                rect,
                stage: Stage::Syncing,
                ..s0
            })
            &&& a.1 + b.1 + c.1 + d.1 + e.1 + f.1 == seq![
                Action::DisableGhosting,
                Action::RegisterClass,
                Action::QueryTargetRect { target },
                Action::CreateWindow { spec: OverlayState::window_spec(rect) },
                Action::ExtendFrame { window, margins: OverlayState::margins(rect) },
                Action::SetOpacity { window, alpha: OPAQUE },
                Action::ShowWindow { window },
                Action::CreateContext,
                Action::CreateDevice {
                    context,
                    window,
                    adapter: D3DADAPTER_DEFAULT,
                    device_type: D3DDEVTYPE_HAL,
                    behavior: D3DCREATE_HARDWARE_VERTEXPROCESSING,
                    parameters: OverlayState::present_parameters(rect),
                },
                Action::QueryTargetRect { target },
            ]
        }),
{
    let s0 = OverlayState::fresh(target, offset);
    let a = s0.constructed(Reply::Nothing);
    let b = a.0.constructed(registration);
    let c = b.0.constructed(Reply::TargetRect { found: true, rect });
    let d = c.0.constructed(Reply::WindowCreated { window });
    let e = d.0.constructed(Reply::ContextCreated { context });
    let f = e.0.constructed(Reply::DeviceCreated { status, device });
    assert(a.1 + b.1 + c.1 + d.1 + e.1 + f.1 =~= seq![
        Action::DisableGhosting,
        Action::RegisterClass,
        Action::QueryTargetRect { target },
        Action::CreateWindow { spec: OverlayState::window_spec(rect) },
        Action::ExtendFrame { window, margins: OverlayState::margins(rect) },
        Action::SetOpacity { window, alpha: OPAQUE },
        Action::ShowWindow { window },
        Action::CreateContext,
        Action::CreateDevice {
            context,
            window,
            adapter: D3DADAPTER_DEFAULT,
            device_type: D3DDEVTYPE_HAL,
            behavior: D3DCREATE_HARDWARE_VERTEXPROCESSING,
            parameters: OverlayState::present_parameters(rect),
        },
        Action::QueryTargetRect { target },
    ]);
}

/// After one synchronisation the overlay window has the rectangle of the
/// target, shifted down by the overlay's offset. A synchronisation moves
/// the window exactly when there is a window and the target's rectangle is
/// placeable, which with an offset of 0 means no more than sound; and
/// whenever it moves the window, it puts the window's left edge on the
/// target's, its top edge on the target's plus the offset, and likewise its
/// right and bottom edge, in the topmost band.
pub proof fn lemma_sync_matches_target(s: OverlayState, rect: Rect)
    ensures
        s.sync(rect) is Some == (s.surface != 0 && s.placeable(rect)),
        s.offset == 0 ==> s.placeable(rect) == rect.sound(),
        s.sync(rect) is Some ==> (s.sync(rect) matches Some(
            Action::SetWindowPos { window, placement },
        ) && {
            &&& window == s.surface
            &&& placement.insert_after == HWND_TOPMOST
            &&& placement.flags == 0
            &&& placement.x == rect.left
            &&& placement.y == rect.top + s.offset
            &&& placement.width == rect.right - rect.left
            &&& placement.height == rect.bottom - rect.top
            &&& placement.x + placement.width == rect.right
            &&& placement.y + placement.height == rect.bottom + s.offset
        }),
{
}

/// The frame loop keeps its order. Starting between two frames, the actions
/// of one frame and of the beginning of the next are exactly these: the
/// overlay is moved over the target, the back buffer is cleared to
/// transparent and the scene opened, all before the callback is invoked;
/// the scene is closed and the back buffer presented only when the callback
/// has returned; and only after that does the next frame begin, with the
/// rectangle that was read in between.
pub proof fn lemma_frame_order(s: OverlayState, first: Rect, returned: Reply, second: Rect)
    requires
        s.stage == Stage::Syncing,
        !s.stopping,
        s.placeable(first),
        s.placeable(second),
    ensures
        ({
            let a = s.drawn(Reply::TargetRect { found: true, rect: first });
            let b = a.0.drawn(returned);
            let c = b.0.drawn(Reply::TargetRect { found: true, rect: second });
            &&& a.0 == (OverlayState { stage: Stage::InScene, rect: first, ..s })
            &&& b.0 == (OverlayState { stage: Stage::Syncing, rect: first, ..s })
            &&& c.0 == (OverlayState { stage: Stage::InScene, rect: second, ..s })
            &&& a.1 + b.1 + c.1 == seq![
                Action::SetWindowPos { window: s.surface, placement: s.placement(first) },
                Action::Clear { device: s.device, region: None, color: TRANSPARENT },
                Action::BeginScene { device: s.device },
                Action::InvokeCallback,
                Action::EndScene { device: s.device },
                Action::Present { device: s.device },
                Action::QueryTargetRect { target: s.target },
                Action::SetWindowPos { window: s.surface, placement: s.placement(second) },
                Action::Clear { device: s.device, region: None, color: TRANSPARENT },
                Action::BeginScene { device: s.device },
                Action::InvokeCallback,
            ]
        }),
{
    let a = s.drawn(Reply::TargetRect { found: true, rect: first });
    let b = a.0.drawn(returned);
    let c = b.0.drawn(Reply::TargetRect { found: true, rect: second });
    assert(a.1 + b.1 + c.1 =~= seq![
        Action::SetWindowPos { window: s.surface, placement: s.placement(first) },
        Action::Clear { device: s.device, region: None, color: TRANSPARENT },
        Action::BeginScene { device: s.device },
        Action::InvokeCallback,
        Action::EndScene { device: s.device },
        Action::Present { device: s.device },
        Action::QueryTargetRect { target: s.target },
        Action::SetWindowPos { window: s.surface, placement: s.placement(second) },
        Action::Clear { device: s.device, region: None, color: TRANSPARENT },
        Action::BeginScene { device: s.device },
        Action::InvokeCallback,
    ]);
}

/// The beginning of a frame clears the back buffer. `begun` either begins
/// no frame, which is the case exactly when no frame is due or the target's
/// rectangle is not placeable, and then it changes nothing and asks for
/// nothing; or its actions leave every pixel of the back buffer
/// transparent, whatever the buffer held before, and its shape as it was.
pub proof fn lemma_frame_starts_transparent(s: OverlayState, rect: Rect, before: Seq<Seq<u32>>, x: int, y: int)
    requires
        0 <= y < before.len(),
        0 <= x < before[y].len(),
    ensures
        (s.begun(rect).1.len() > 0) == (s.stage == Stage::Syncing && s.placeable(rect)),
        s.begun(rect).1.len() == 0 ==> s.begun(rect).0 == s,
        s.begun(rect).1.len() > 0 ==> {
            &&& rendered_all(before, s.begun(rect).1).len() == before.len()
            &&& rendered_all(before, s.begun(rect).1)[y].len() == before[y].len()
            &&& rendered_all(before, s.begun(rect).1)[y][x] == TRANSPARENT
        },
{
    if s.stage == Stage::Syncing && s.placeable(rect) {
        let actions = s.begun(rect).1;
        let one = actions.drop_last();
        let two = one.drop_last();
        assert(two.drop_last() =~= Seq::<Action>::empty());
        reveal_with_fuel(rendered_all, 4);
        assert(rendered_all(before, two) == before);
        assert(rendered_all(before, one) == painted(before, None, TRANSPARENT));
        assert(rendered_all(before, actions) == painted(before, None, TRANSPARENT));
    }
}

/// A filled box paints its rectangle and nothing else. There is an action
/// exactly when there is a device and both far edges of the rectangle are
/// coordinates; and carrying that action out leaves the buffer's shape as
/// it is, sets every pixel inside `[x, x + w) x [y, y + h)` to exactly
/// `color`, and leaves every pixel outside as it was. Where the rectangle
/// reaches beyond the buffer, the part inside the buffer is painted.
pub proof fn lemma_filled_box_paints_exactly(
    s: OverlayState,
    before: Seq<Seq<u32>>,
    x: i32,
    y: i32,
    w: i32,
    h: i32,
    color: u32,
    i: int,
    j: int,
)
    requires
        0 <= j < before.len(),
        0 <= i < before[j].len(),
    ensures
        s.filled_box(x, y, w, h, color) is Some == (s.device != 0 && Rect::fits(x, y, w, h)),
        s.filled_box(x, y, w, h, color) matches Some(action) ==> {
            &&& rendered(before, action).len() == before.len()
            &&& rendered(before, action)[j].len() == before[j].len()
            &&& rendered(before, action)[j][i] == (if x <= i < x + w && y <= j < y + h {
                color
            } else {
                before[j][i]
            })
        },
{
}

/// Inside the back buffer a filled box can always be drawn. With a device,
/// and with a rectangle that lies within a buffer of `width` by `height`
/// pixels, `filled_box` gives an action; carried out, that action sets
/// every pixel inside the rectangle to exactly `color`, alpha included, and
/// leaves every pixel outside bit for bit as it was.
pub proof fn lemma_filled_box_within_bounds(
    s: OverlayState,
    before: Seq<Seq<u32>>,
    width: nat,
    height: nat,
    x: i32,
    y: i32,
    w: i32,
    h: i32,
    color: u32,
    i: int,
    j: int,
)
    requires
        s.device != 0,
        shaped(before, width, height),
        0 <= x,
        0 <= y,
        0 <= w,
        0 <= h,
        x + w <= width,
        y + h <= height,
        0 <= i < width,
        0 <= j < height,
    ensures
        s.filled_box(x, y, w, h, color) is Some,
        shaped(rendered(before, s.filled_box(x, y, w, h, color).unwrap()), width, height),
        rendered(before, s.filled_box(x, y, w, h, color).unwrap())[j][i] == (if x <= i < x + w && y
            <= j < y + h {
            color
        } else {
            before[j][i]
        }),
{
    let after = rendered(before, s.filled_box(x, y, w, h, color).unwrap());
    assert forall|k: int| 0 <= k < height implies (#[trigger] after[k]).len() == width by {
        assert(before[k].len() == width);
    }
}

/// A clear whose clip rectangle has no width or no height changes nothing.
pub proof fn lemma_empty_region_paints_nothing(before: Seq<Seq<u32>>, region: Rect, color: u32)
    requires
        region.spec_width() <= 0 || region.spec_height() <= 0,
    ensures
        painted(before, Some(region), color) == before,
{
    assert forall|y: int| 0 <= y < before.len() implies #[trigger] painted(
        before,
        Some(region),
        color,
    )[y] == before[y] by {
        assert(painted_row(before[y], Some(region), color, y) =~= before[y]);
    }
    assert(painted(before, Some(region), color) =~= before);
}

/// The four sides of the outline of `[x, x + w) x [y, y + h)` with
/// thickness `t`, as rectangles: left, right, top, bottom. Each runs along
/// its side of the rectangle, inside it, over the side's whole length.
pub open spec fn sides(x: i32, y: i32, w: i32, h: i32, t: i32) -> Seq<Rect> {
    seq![
        Rect { left: x, top: y, right: (x + t) as i32, bottom: (y + h) as i32 },
        Rect { left: (x + w - t) as i32, top: y, right: (x + w) as i32, bottom: (y + h) as i32 },
        Rect { left: x, top: y, right: (x + w) as i32, bottom: (y + t) as i32 },
        Rect { left: x, top: (y + h - t) as i32, right: (x + w) as i32, bottom: (y + h) as i32 },
    ]
}

/// Whether the pixel in column `i` of row `j` lies on the outline of
/// `[x, x + w) x [y, y + h)` with thickness `t`: inside the rectangle, and
/// not in the part of it that the four sides leave open in the middle.
pub open spec fn on_outline(x: int, y: int, w: int, h: int, t: int, i: int, j: int) -> bool {
    &&& x <= i < x + w
    &&& y <= j < y + h
    &&& !(x + t <= i < x + w - t && y + t <= j < y + h - t)
}

/// An outline is four filled boxes and nothing else. It can be drawn
/// exactly when each of the four can; and then it is, in this order, the
/// filled box of the left side, of the right side, of the top side and of
/// the bottom side, which are four clears on the overlay's device with the
/// rectangles of `sides` as clip regions.
pub proof fn lemma_outline_is_four_filled_boxes(
    s: OverlayState,
    x: i32,
    y: i32,
    w: i32,
    h: i32,
    t: i32,
    color: u32,
)
    ensures
        s.outlined_box(x, y, w, h, t, color) is Some == s.can_outline(x, y, w, h, t),
        s.can_outline(x, y, w, h, t) == {
            &&& i32::MIN <= x + w - t <= i32::MAX
            &&& i32::MIN <= y + h - t <= i32::MAX
            &&& s.filled_box(x, y, t, h, color) is Some
            &&& s.filled_box((x + w - t) as i32, y, t, h, color) is Some
            &&& s.filled_box(x, y, w, t, color) is Some
            &&& s.filled_box(x, (y + h - t) as i32, w, t, color) is Some
        },
        s.can_outline(x, y, w, h, t) ==> s.outlined_box(x, y, w, h, t, color).unwrap() == seq![
            s.filled_box(x, y, t, h, color).unwrap(),
            s.filled_box((x + w - t) as i32, y, t, h, color).unwrap(),
            s.filled_box(x, y, w, t, color).unwrap(),
            s.filled_box(x, (y + h - t) as i32, w, t, color).unwrap(),
        ],
        s.can_outline(x, y, w, h, t) ==> s.outlined_box(x, y, w, h, t, color).unwrap() == Seq::new(
            4,
            |k: int|
                Action::Clear { device: s.device, region: Some(sides(x, y, w, h, t)[k]), color },
        ),
{
    if s.can_outline(x, y, w, h, t) {
        assert(s.outlined_box(x, y, w, h, t, color).unwrap() =~= Seq::new(
            4,
            |k: int|
                Action::Clear { device: s.device, region: Some(sides(x, y, w, h, t)[k]), color },
        ));
    }
}

/// Inside the back buffer an outline is a closed ring. With a device, a
/// thickness of at least one pixel and of no more than the rectangle's
/// width and height, and a rectangle that lies within a buffer of `width`
/// by `height` pixels, the outline can be drawn; carried out, its four
/// actions set every pixel on the outline to `color` and leave every other
/// pixel as it was. Each of the four `t` by `t` corners of the outline lies
/// in two of the four sides, one upright and one level.
pub proof fn lemma_outline_is_a_closed_ring(
    s: OverlayState,
    before: Seq<Seq<u32>>,
    width: nat,
    height: nat,
    x: i32,
    y: i32,
    w: i32,
    h: i32,
    t: i32,
    color: u32,
    i: int,
    j: int,
)
    requires
        s.device != 0,
        shaped(before, width, height),
        0 <= x,
        0 <= y,
        0 < t <= w,
        t <= h,
        x + w <= width,
        y + h <= height,
        0 <= i < width,
        0 <= j < height,
    ensures
        s.outlined_box(x, y, w, h, t, color) is Some,
        shaped(rendered_all(before, s.outlined_box(x, y, w, h, t, color).unwrap()), width, height),
        rendered_all(before, s.outlined_box(x, y, w, h, t, color).unwrap())[j][i] == (if on_outline(
            x as int,
            y as int,
            w as int,
            h as int,
            t as int,
            i,
            j,
        ) {
            color
        } else {
            before[j][i]
        }),
        (x <= i < x + t && y <= j < y + t) ==> sides(x, y, w, h, t)[0].contains(i, j) && sides(
            x,
            y,
            w,
            h,
            t,
        )[2].contains(i, j),
        (x + w - t <= i < x + w && y <= j < y + t) ==> sides(x, y, w, h, t)[1].contains(i, j)
            && sides(x, y, w, h, t)[2].contains(i, j),
        (x <= i < x + t && y + h - t <= j < y + h) ==> sides(x, y, w, h, t)[0].contains(i, j)
            && sides(x, y, w, h, t)[3].contains(i, j),
        (x + w - t <= i < x + w && y + h - t <= j < y + h) ==> sides(x, y, w, h, t)[1].contains(
            i,
            j,
        ) && sides(x, y, w, h, t)[3].contains(i, j),
{
    lemma_outline_is_four_filled_boxes(s, x, y, w, h, t, color);
    let four = s.outlined_box(x, y, w, h, t, color).unwrap();
    let three = four.drop_last();
    let two = three.drop_last();
    let one = two.drop_last();
    assert(one.drop_last() =~= Seq::<Action>::empty());
    let r = sides(x, y, w, h, t);
    let b0 = before;
    let b1 = painted(b0, Some(r[0]), color);
    let b2 = painted(b1, Some(r[1]), color);
    let b3 = painted(b2, Some(r[2]), color);
    let b4 = painted(b3, Some(r[3]), color);
    reveal_with_fuel(rendered_all, 5);
    assert(rendered_all(b0, one) == b1);
    assert(rendered_all(b0, two) == b2);
    assert(rendered_all(b0, three) == b3);
    assert(rendered_all(b0, four) == b4);
    assert forall|k: int| 0 <= k < height implies (#[trigger] b4[k]).len() == width by {
        assert(b0[k].len() == width);
        assert(b1[k].len() == width);
        assert(b2[k].len() == width);
        assert(b3[k].len() == width);
    }
    assert(b1[j][i] == (if r[0].contains(i, j) {
        color
    } else {
        b0[j][i]
    }));
    assert(b2[j][i] == (if r[1].contains(i, j) {
        color
    } else {
        b1[j][i]
    }));
    assert(b3[j][i] == (if r[2].contains(i, j) {
        color
    } else {
        b2[j][i]
    }));
    assert(b4[j][i] == (if r[3].contains(i, j) {
        color
    } else {
        b3[j][i]
    }));
}

/// An outline without thickness is no drawing at all: with `t` at 0, or
/// below, carrying out its four actions leaves every pixel of the buffer as
/// it was.
pub proof fn lemma_outline_without_thickness_paints_nothing(
    s: OverlayState,
    before: Seq<Seq<u32>>,
    x: i32,
    y: i32,
    w: i32,
    h: i32,
    t: i32,
    color: u32,
)
    requires
        s.outlined_box(x, y, w, h, t, color) is Some,
        t <= 0,
    ensures
        s.outlined_box(x, y, w, h, t, color).unwrap().len() == 4,
        rendered_all(before, s.outlined_box(x, y, w, h, t, color).unwrap()) == before,
{
    lemma_outline_is_four_filled_boxes(s, x, y, w, h, t, color);
    let four = s.outlined_box(x, y, w, h, t, color).unwrap();
    let three = four.drop_last();
    let two = three.drop_last();
    let one = two.drop_last();
    assert(one.drop_last() =~= Seq::<Action>::empty());
    let r = sides(x, y, w, h, t);
    lemma_empty_region_paints_nothing(before, r[0], color);
    lemma_empty_region_paints_nothing(before, r[1], color);
    lemma_empty_region_paints_nothing(before, r[2], color);
    lemma_empty_region_paints_nothing(before, r[3], color);
    reveal_with_fuel(rendered_all, 5);
    assert(rendered_all(before, one) == before);
    assert(rendered_all(before, two) == before);
    assert(rendered_all(before, three) == before);
    assert(rendered_all(before, four) == before);
}

} // verus!
