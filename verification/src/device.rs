//! Model of the native 2D drawing collaborator.
//!
//! The drawing service is opaque: the library models it as an arena of
//! handle slots, where a handle is the index of its slot and a released
//! slot is never reused. Allocation and frame-end outcomes that in the
//! real service depend on the device driver are scripted through explicit
//! outcome plans, so that every lifecycle decision taken on top of them is
//! verified for each possible outcome.

use vstd::prelude::*;

verus! {

/// A solid colour with per-mille channels (`0 ..= 1000` each).
#[derive(Clone, Copy, PartialEq, Eq, Structural, Debug)]
pub struct Color {
    pub r: u16,
    pub g: u16,
    pub b: u16,
    pub a: u16,
}

/// The light gray used for the primary brush.
pub open spec fn light_gray() -> Color {
    Color { r: 745, g: 823, b: 863, a: 1000 }
}

/// The red accent used for the secondary brush.
pub open spec fn accent_red() -> Color {
    Color { r: 941, g: 353, b: 392, a: 1000 }
}

/// The white that every frame is cleared to.
pub open spec fn clear_white() -> Color {
    Color { r: 1000, g: 1000, b: 1000, a: 1000 }
}

pub fn light_gray_color() -> (c: Color)
    ensures
        c == light_gray(),
{
    Color { r: 745, g: 823, b: 863, a: 1000 }
}

pub fn accent_red_color() -> (c: Color)
    ensures
        c == accent_red(),
{
    Color { r: 941, g: 353, b: 392, a: 1000 }
}

pub fn clear_white_color() -> (c: Color)
    ensures
        c == clear_white(),
{
    Color { r: 1000, g: 1000, b: 1000, a: 1000 }
}

/// What a live device handle is: the process-wide factory, a render target
/// bound to one window surface at a pixel size, or a solid-colour brush
/// subordinate to the render target it was created from.
#[derive(Clone, Copy, PartialEq, Eq, Structural, Debug)]
pub enum HandleKind {
    Factory,
    RenderTarget { window: u64, width: u32, height: u32 },
    Brush { target: usize, color: Color },
}

/// The result reported when a frame is ended: success, the device-loss
/// signal that demands the render target be recreated, or any other failure.
#[derive(Clone, Copy, PartialEq, Eq, Structural, Debug)]
pub enum EndDrawCode {
    Success,
    RecreateTarget,
    OtherFailure,
}

/// The slot at `i` is not a brush whose render target is gone.
pub open spec fn brush_slot_ok(s: Seq<Option<HandleKind>>, i: int) -> bool {
    match s[i] {
        Some(HandleKind::Brush { target, color: _ }) => target < s.len() && (s[target as int]
            matches Some(HandleKind::RenderTarget { .. })),
        _ => true,
    }
}

/// Arena invariant: no brush outlives the render target it belongs to.
pub open spec fn slots_wf(s: Seq<Option<HandleKind>>) -> bool {
    forall|i: int| 0 <= i < s.len() ==> brush_slot_ok(s, i)
}

/// Slot `i` holds a brush subordinate to render target `id`.
pub open spec fn brush_targeting(s: Seq<Option<HandleKind>>, i: int, id: usize) -> bool {
    s[i] matches Some(HandleKind::Brush { target, color: _ }) && target == id
}

/// No live brush is subordinate to render target `id`.
pub open spec fn no_brush_targets(s: Seq<Option<HandleKind>>, id: usize) -> bool {
    forall|i: int| 0 <= i < s.len() ==> !brush_targeting(s, i, id)
}

/// Appending a handle keeps the arena invariant, provided the new slot
/// itself respects it.
proof fn lemma_slots_wf_push(s: Seq<Option<HandleKind>>, k: Option<HandleKind>)
    requires
        slots_wf(s),
        brush_slot_ok(s.push(k), s.len() as int),
    ensures
        slots_wf(s.push(k)),
{
    let t = s.push(k);
    assert forall|i: int| 0 <= i < t.len() implies brush_slot_ok(t, i) by {
        if i < s.len() {
            assert(brush_slot_ok(s, i));
        }
    }
}

/// Clearing a slot keeps the arena invariant, provided no brush still
/// points at it.
proof fn lemma_slots_wf_clear(s: Seq<Option<HandleKind>>, id: usize)
    requires
        id < s.len(),
        slots_wf(s),
        (s[id as int] matches Some(HandleKind::RenderTarget { .. })) ==> no_brush_targets(s, id),
    ensures
        slots_wf(s.update(id as int, None)),
{
    let t = s.update(id as int, None);
    assert forall|i: int| 0 <= i < t.len() implies brush_slot_ok(t, i) by {
        assert(brush_slot_ok(s, i));
        match t[i] {
            Some(HandleKind::Brush { target, color: _ }) => {
                if target == id {
                    assert(brush_targeting(s, i, id));
                    assert(false);
                }
            },
            _ => {},
        }
    }
}

/// Number of live handles in an arena.
pub open spec fn live_count_seq(s: Seq<Option<HandleKind>>) -> nat
    decreases s.len(),
{
    if s.len() == 0 {
        0
    } else {
        live_count_seq(s.drop_last()) + (if s.last() is Some {
            1nat
        } else {
            0nat
        })
    }
}

/// Replacing a render target's size in place keeps the arena invariant.
proof fn lemma_slots_wf_resize(
    s: Seq<Option<HandleKind>>,
    id: usize,
    window: u64,
    width: u32,
    height: u32,
)
    requires
        id < s.len(),
        slots_wf(s),
        s[id as int] matches Some(HandleKind::RenderTarget { .. }),
    ensures
        slots_wf(s.update(id as int, Some(HandleKind::RenderTarget { window, width, height }))),
{
    let t = s.update(id as int, Some(HandleKind::RenderTarget { window, width, height }));
    assert forall|i: int| 0 <= i < t.len() implies brush_slot_ok(t, i) by {
        assert(brush_slot_ok(s, i));
    }
}

/// Mathematical state of the modelled drawing service.
#[verifier::ext_equal]
pub ghost struct DeviceModel {
    /// One slot per handle ever allocated; `None` once released.
    pub slots: Seq<Option<HandleKind>>,
    /// Scripted outcomes for the next factory creations (`true` = fail).
    pub factory_fail_plan: Seq<bool>,
    /// Scripted outcomes for the next render-target creations.
    pub render_target_fail_plan: Seq<bool>,
    /// Scripted outcomes for the next brush creations.
    pub brush_fail_plan: Seq<bool>,
    /// Scripted results for the next frame ends.
    pub end_draw_plan: Seq<EndDrawCode>,
    /// Colour of the most recent clear, if any.
    pub last_clear: Option<Color>,
    /// Whether a frame is currently open (between begin and end).
    pub in_draw: bool,
}

/// Head of an outcome plan; an exhausted plan means success.
pub open spec fn plan_fails(p: Seq<bool>) -> bool {
    p.len() > 0 && p[0]
}

/// An outcome plan after one outcome has been consumed.
pub open spec fn plan_rest<T>(p: Seq<T>) -> Seq<T> {
    if p.len() > 0 {
        p.remove(0)
    } else {
        p
    }
}

impl DeviceModel {
    /// Handle `id` has been allocated and not yet released.
    pub open spec fn live(self, id: int) -> bool {
        0 <= id < self.slots.len() && self.slots[id] is Some
    }

    /// Device invariant: no brush outlives the render target it belongs to.
    pub open spec fn wf(self) -> bool {
        slots_wf(self.slots)
    }

    /// The arena can still hand out `extra` fresh handle indices. Every
    /// device reachable through the executable interface satisfies this,
    /// since its slots live in one allocation.
    pub open spec fn has_capacity(self, extra: nat) -> bool {
        self.slots.len() + extra <= usize::MAX
    }
}

/// The drawing service as the library sees it: an arena of scoped handles
/// plus the scripted driver outcomes.
pub struct Device {
    slots: Vec<Option<HandleKind>>,
    factory_fail_plan: Vec<bool>,
    render_target_fail_plan: Vec<bool>,
    brush_fail_plan: Vec<bool>,
    end_draw_plan: Vec<EndDrawCode>,
    last_clear: Option<Color>,
    in_draw: bool,
}

impl View for Device {
    type V = DeviceModel;

    closed spec fn view(&self) -> DeviceModel {
        DeviceModel {
            slots: self.slots@,
            factory_fail_plan: self.factory_fail_plan@,
            render_target_fail_plan: self.render_target_fail_plan@,
            brush_fail_plan: self.brush_fail_plan@,
            end_draw_plan: self.end_draw_plan@,
            last_clear: self.last_clear,
            in_draw: self.in_draw,
        }
    }
}

/// A freshly started drawing service: no handles, no scripted outcomes.
pub open spec fn empty_device() -> DeviceModel {
    DeviceModel {
        slots: Seq::empty(),
        factory_fail_plan: Seq::empty(),
        render_target_fail_plan: Seq::empty(),
        brush_fail_plan: Seq::empty(),
        end_draw_plan: Seq::empty(),
        last_clear: None,
        in_draw: false,
    }
}

/// Factory creation: consumes one scripted outcome; on success a fresh
/// handle occupies a new slot.
pub open spec fn create_factory_model(d: DeviceModel) -> (DeviceModel, Option<usize>) {
    if plan_fails(d.factory_fail_plan) {
        (DeviceModel { factory_fail_plan: plan_rest(d.factory_fail_plan), ..d }, None)
    } else {
        (
            DeviceModel {
                slots: d.slots.push(Some(HandleKind::Factory)),
                factory_fail_plan: plan_rest(d.factory_fail_plan),
                ..d
            },
            Some(d.slots.len() as usize),
        )
    }
}

/// Render-target creation: consumes one scripted outcome; on success a
/// fresh handle bound to `window` at the given pixel size occupies a new
/// slot.
pub open spec fn create_render_target_model(
    d: DeviceModel,
    window: u64,
    width: u32,
    height: u32,
) -> (DeviceModel, Option<usize>) {
    if plan_fails(d.render_target_fail_plan) {
        (DeviceModel { render_target_fail_plan: plan_rest(d.render_target_fail_plan), ..d }, None)
    } else {
        (
            DeviceModel {
                slots: d.slots.push(Some(HandleKind::RenderTarget { window, width, height })),
                render_target_fail_plan: plan_rest(d.render_target_fail_plan),
                ..d
            },
            Some(d.slots.len() as usize),
        )
    }
}

/// Brush creation: consumes one scripted outcome; on success a fresh
/// handle subordinate to render target `target` occupies a new slot.
pub open spec fn create_brush_model(d: DeviceModel, target: usize, color: Color) -> (
    DeviceModel,
    Option<usize>,
) {
    if plan_fails(d.brush_fail_plan) {
        (DeviceModel { brush_fail_plan: plan_rest(d.brush_fail_plan), ..d }, None)
    } else {
        (
            DeviceModel {
                slots: d.slots.push(Some(HandleKind::Brush { target, color })),
                brush_fail_plan: plan_rest(d.brush_fail_plan),
                ..d
            },
            Some(d.slots.len() as usize),
        )
    }
}

/// Release of handle `id`: its slot is cleared and never reused.
pub open spec fn release_model(d: DeviceModel, id: usize) -> DeviceModel {
    DeviceModel { slots: d.slots.update(id as int, None), ..d }
}

/// Opening a frame on a render target.
pub open spec fn begin_draw_model(d: DeviceModel) -> DeviceModel {
    DeviceModel { in_draw: true, ..d }
}

/// Clearing the open frame to one colour.
pub open spec fn clear_model(d: DeviceModel, color: Color) -> DeviceModel {
    DeviceModel { last_clear: Some(color), ..d }
}

/// Closing the frame: the reported code is the next scripted one, or
/// success once the script is exhausted.
pub open spec fn end_draw_model(d: DeviceModel) -> (DeviceModel, EndDrawCode) {
    (
        DeviceModel { end_draw_plan: plan_rest(d.end_draw_plan), in_draw: false, ..d },
        if d.end_draw_plan.len() > 0 {
            d.end_draw_plan[0]
        } else {
            EndDrawCode::Success
        },
    )
}

/// Resizing render target `id` to a new pixel size; its window binding is
/// kept.
pub open spec fn resize_model(d: DeviceModel, id: usize, width: u32, height: u32) -> DeviceModel {
    match d.slots[id as int] {
        Some(HandleKind::RenderTarget { window, width: _, height: _ }) => DeviceModel {
            slots: d.slots.update(
                id as int,
                Some(HandleKind::RenderTarget { window, width, height }),
            ),
            ..d
        },
        _ => d,
    }
}

impl Device {
    pub fn new() -> (d: Device)
        ensures
            d@ == empty_device(),
            d@.wf(),
    {
        let d = Device {
            slots: Vec::new(),
            factory_fail_plan: Vec::new(),
            render_target_fail_plan: Vec::new(),
            brush_fail_plan: Vec::new(),
            end_draw_plan: Vec::new(),
            last_clear: None,
            in_draw: false,
        };
        proof {
            assert(d@ =~= empty_device());
        }
        d
    }

    /// Pops the head of a boolean outcome plan; exhausted means success.
    fn take_outcome(plan: &mut Vec<bool>) -> (fail: bool)
        ensures
            fail == plan_fails(old(plan)@),
            final(plan)@ == plan_rest(old(plan)@),
    {
        if plan.len() > 0 {
            plan.remove(0)
        } else {
            false
        }
    }

    /// Creates the drawing factory, or reports the scripted failure.
    pub fn create_factory(&mut self) -> (r: Option<usize>)
        requires
            old(self)@.wf(),
        ensures
            final(self)@.wf(),
            ({
                let (d, id) = create_factory_model(old(self)@);
                final(self)@ == d && r == id
            }),
            (r matches Some(i) ==> i == old(self)@.slots.len()),
    {
        let fail = Self::take_outcome(&mut self.factory_fail_plan);
        if fail {
            proof {
                assert(self@ =~= create_factory_model(old(self)@).0);
            }
            None
        } else {
            let id = self.slots.len();
            self.slots.push(Some(HandleKind::Factory));
            proof {
                assert(self@ =~= create_factory_model(old(self)@).0);
                lemma_slots_wf_push(old(self)@.slots, Some(HandleKind::Factory));
            }
            Some(id)
        }
    }

    /// Creates a render target bound to `window` at the given pixel size,
    /// or reports the scripted failure.
    pub fn create_render_target(&mut self, window: u64, width: u32, height: u32) -> (r: Option<
        usize,
    >)
        requires
            old(self)@.wf(),
        ensures
            final(self)@.wf(),
            ({
                let (d, id) = create_render_target_model(old(self)@, window, width, height);
                final(self)@ == d && r == id
            }),
            (r matches Some(i) ==> i == old(self)@.slots.len()),
    {
        let fail = Self::take_outcome(&mut self.render_target_fail_plan);
        if fail {
            proof {
                assert(self@ =~= create_render_target_model(
                    old(self)@,
                    window,
                    width,
                    height,
                ).0);
            }
            None
        } else {
            let id = self.slots.len();
            self.slots.push(Some(HandleKind::RenderTarget { window, width, height }));
            proof {
                assert(self@ =~= create_render_target_model(
                    old(self)@,
                    window,
                    width,
                    height,
                ).0);
                lemma_slots_wf_push(
                    old(self)@.slots,
                    Some(HandleKind::RenderTarget { window, width, height }),
                );
            }
            Some(id)
        }
    }

    /// Creates a solid-colour brush subordinate to live render target
    /// `target`, or reports the scripted failure.
    pub fn create_brush(&mut self, target: usize, color: Color) -> (r: Option<usize>)
        requires
            old(self)@.wf(),
            old(self)@.live(target as int),
            old(self)@.slots[target as int] matches Some(HandleKind::RenderTarget { .. }),
        ensures
            final(self)@.wf(),
            ({
                let (d, id) = create_brush_model(old(self)@, target, color);
                final(self)@ == d && r == id
            }),
            (r matches Some(i) ==> i == old(self)@.slots.len()),
    {
        let fail = Self::take_outcome(&mut self.brush_fail_plan);
        if fail {
            proof {
                assert(self@ =~= create_brush_model(old(self)@, target, color).0);
            }
            None
        } else {
            let id = self.slots.len();
            self.slots.push(Some(HandleKind::Brush { target, color }));
            proof {
                assert(self@ =~= create_brush_model(old(self)@, target, color).0);
                lemma_slots_wf_push(old(self)@.slots, Some(HandleKind::Brush { target, color }));
            }
            Some(id)
        }
    }

    /// Opens a frame on live render target `id`.
    pub fn begin_draw(&mut self, id: usize)
        requires
            old(self)@.wf(),
            old(self)@.live(id as int),
            old(self)@.slots[id as int] matches Some(HandleKind::RenderTarget { .. }),
            !old(self)@.in_draw,
        ensures
            final(self)@.wf(),
            final(self)@ == begin_draw_model(old(self)@),
    {
        self.in_draw = true;
        proof {
            assert(self@ =~= begin_draw_model(old(self)@));
        }
    }

    /// Clears the open frame on live render target `id` to `color`.
    pub fn clear(&mut self, id: usize, color: Color)
        requires
            old(self)@.wf(),
            old(self)@.live(id as int),
            old(self)@.slots[id as int] matches Some(HandleKind::RenderTarget { .. }),
            old(self)@.in_draw,
        ensures
            final(self)@.wf(),
            final(self)@ == clear_model(old(self)@, color),
    {
        self.last_clear = Some(color);
        proof {
            assert(self@ =~= clear_model(old(self)@, color));
        }
    }

    /// Closes the open frame on live render target `id` and reports the
    /// device's code: success, the device-loss signal, or another failure.
    pub fn end_draw(&mut self, id: usize) -> (code: EndDrawCode)
        requires
            old(self)@.wf(),
            old(self)@.live(id as int),
            old(self)@.slots[id as int] matches Some(HandleKind::RenderTarget { .. }),
            old(self)@.in_draw,
        ensures
            final(self)@.wf(),
            ({
                let (d, c) = end_draw_model(old(self)@);
                final(self)@ == d && code == c
            }),
    {
        self.in_draw = false;
        let code = if self.end_draw_plan.len() > 0 {
            self.end_draw_plan.remove(0)
        } else {
            EndDrawCode::Success
        };
        proof {
            assert(self@ =~= end_draw_model(old(self)@).0);
        }
        code
    }

    /// Resizes live render target `id` to a new pixel size.
    pub fn resize(&mut self, id: usize, width: u32, height: u32)
        requires
            old(self)@.wf(),
            old(self)@.live(id as int),
            old(self)@.slots[id as int] matches Some(HandleKind::RenderTarget { .. }),
        ensures
            final(self)@.wf(),
            final(self)@ == resize_model(old(self)@, id, width, height),
    {
        let slot = self.slots[id];
        if let Some(HandleKind::RenderTarget { window, width: _, height: _ }) = slot {
            self.slots[id] = Some(HandleKind::RenderTarget { window, width, height });
            proof {
                assert(self@ =~= resize_model(old(self)@, id, width, height));
                lemma_slots_wf_resize(old(self)@.slots, id, window, width, height);
            }
        }
    }

    /// Releases handle `id`. A render target may be released only after
    /// every brush subordinate to it.
    pub fn release(&mut self, id: usize)
        requires
            old(self)@.wf(),
            old(self)@.live(id as int),
            (old(self)@.slots[id as int] matches Some(HandleKind::RenderTarget { .. }))
                ==> no_brush_targets(old(self)@.slots, id),
        ensures
            final(self)@.wf(),
            final(self)@ == release_model(old(self)@, id),
    {
        self.slots[id] = None;
        proof {
            assert(self@ =~= release_model(old(self)@, id));
            lemma_slots_wf_clear(old(self)@.slots, id);
        }
    }

    /// Scripts the outcome of the next unscripted factory creation.
    pub fn script_factory_outcome(&mut self, fail: bool)
        ensures
            final(self)@ == (DeviceModel {
                factory_fail_plan: old(self)@.factory_fail_plan.push(fail),
                ..old(self)@
            }),
    {
        self.factory_fail_plan.push(fail);
        proof {
            assert(self@ =~= (DeviceModel {
                factory_fail_plan: old(self)@.factory_fail_plan.push(fail),
                ..old(self)@
            }));
        }
    }

    /// Scripts the outcome of the next unscripted render-target creation.
    pub fn script_render_target_outcome(&mut self, fail: bool)
        ensures
            final(self)@ == (DeviceModel {
                render_target_fail_plan: old(self)@.render_target_fail_plan.push(fail),
                ..old(self)@
            }),
    {
        self.render_target_fail_plan.push(fail);
        proof {
            assert(self@ =~= (DeviceModel {
                render_target_fail_plan: old(self)@.render_target_fail_plan.push(fail),
                ..old(self)@
            }));
        }
    }

    /// Scripts the outcome of the next unscripted brush creation.
    pub fn script_brush_outcome(&mut self, fail: bool)
        ensures
            final(self)@ == (DeviceModel {
                brush_fail_plan: old(self)@.brush_fail_plan.push(fail),
                ..old(self)@
            }),
    {
        self.brush_fail_plan.push(fail);
        proof {
            assert(self@ =~= (DeviceModel {
                brush_fail_plan: old(self)@.brush_fail_plan.push(fail),
                ..old(self)@
            }));
        }
    }

    /// Scripts the code of the next unscripted frame end.
    pub fn script_end_draw_code(&mut self, code: EndDrawCode)
        ensures
            final(self)@ == (DeviceModel {
                end_draw_plan: old(self)@.end_draw_plan.push(code),
                ..old(self)@
            }),
    {
        self.end_draw_plan.push(code);
        proof {
            assert(self@ =~= (DeviceModel {
                end_draw_plan: old(self)@.end_draw_plan.push(code),
                ..old(self)@
            }));
        }
    }

    /// What handle `id` currently is, or `None` for a released or never
    /// allocated handle.
    pub fn slot(&self, id: usize) -> (r: Option<HandleKind>)
        ensures
            r == (if (id as int) < self@.slots.len() {
                self@.slots[id as int]
            } else {
                None::<HandleKind>
            }),
    {
        if id < self.slots.len() {
            self.slots[id]
        } else {
            None
        }
    }

    /// How many handles have ever been allocated.
    pub fn slot_count(&self) -> (n: usize)
        ensures
            n == self@.slots.len(),
    {
        self.slots.len()
    }

    /// How many handles are currently live.
    pub fn live_count(&self) -> (n: usize)
        ensures
            n == live_count_seq(self@.slots),
    {
        let mut n: usize = 0;
        let mut i: usize = 0;
        while i < self.slots.len()
            invariant
                i <= self@.slots.len(),
                n <= i,
                n == live_count_seq(self@.slots.subrange(0, i as int)),
            decreases self@.slots.len() - i,
        {
            if self.slots[i].is_some() {
                n = n + 1;
            }
            i = i + 1;
            proof {
                let pre = self@.slots.subrange(0, i - 1);
                let cur = self@.slots.subrange(0, i as int);
                assert(cur.drop_last() =~= pre);
                assert(cur.last() == self@.slots[i - 1]);
            }
        }
        proof {
            assert(self@.slots.subrange(0, self@.slots.len() as int) =~= self@.slots);
        }
        n
    }

    /// Whether a frame is currently open.
    pub fn is_drawing(&self) -> (r: bool)
        ensures
            r == self@.in_draw,
    {
        self.in_draw
    }

    /// The colour of the most recent clear, if any frame was ever cleared.
    pub fn last_clear_color(&self) -> (r: Option<Color>)
        ensures
            r == self@.last_clear,
    {
        self.last_clear
    }
}

} // verus!
