use vstd::prelude::*;

use crate::controller::{
    spec_drain, spec_loaded, spec_opt_target, spec_target_for, spec_themed, Frame,
    ModalDisplayStyle, NavError, NavEvent, NavTarget, Point, Screen, ScreenView, TargetView,
    TransitionState,
};
use crate::events::QueueView;
use crate::theme::Theme;

verus! {

/// Identifier of the signaling layer a navigation stack listens on.
#[derive(Clone, Copy, Debug, PartialEq, Eq, Structural)]
pub struct EventLayer {
    pub id: u32,
}

impl EventLayer {
    pub fn new() -> (l: EventLayer)
        ensures
            l == (EventLayer { id: 0 }),
    {
        EventLayer { id: 0 }
    }
}

/// Stack-based coordinator of controller lifecycle, ordering and modal
/// presentation: the sole authority for push, pop, present and dismiss
/// transitions.
pub struct NavController {
    /// Layout bounds, immutable after construction.
    pub frame: Frame,
    /// The controllers in the navigation stack, root first.
    pub controllers: Vec<Screen>,
    /// Optional controller overlaid above the whole stack.
    pub modal_controller: Option<Screen>,
    /// Index of the front controller in the stack.
    pub front_idx: usize,
    /// Phase of the modal presentation in progress, if any.
    pub transition: TransitionState,
    /// The signaling layer of this stack.
    pub event_layer: EventLayer,
    /// A transition decided during the previous tick, to be executed on
    /// the next one.
    pub next_target: Option<NavTarget>,
}

/// The mathematical value of a `NavController`.
#[verifier::ext_equal]
pub struct NavView {
    pub frame: Frame,
    pub controllers: Seq<ScreenView>,
    pub modal: Option<ScreenView>,
    pub front_idx: int,
    pub transition: TransitionState,
    pub event_layer: u32,
    pub next_target: Option<TargetView>,
}

impl View for NavController {
    type V = NavView;

    open spec fn view(&self) -> NavView {
        NavView {
            frame: self.frame,
            controllers: self.controllers@.map_values(|s: Screen| s@),
            modal: match self.modal_controller {
                Option::Some(m) => Option::Some(m@),
                Option::None => Option::None,
            },
            front_idx: self.front_idx as int,
            transition: self.transition,
            event_layer: self.event_layer.id,
            next_target: spec_opt_target(self.next_target),
        }
    }
}

/// The index invariant of the stack: the front index addresses a stack
/// entry whenever the stack is non-empty, and rests at zero before the
/// root arrives.
pub open spec fn nav_inv(v: NavView) -> bool {
    &&& (v.controllers.len() == 0 ==> v.front_idx == 0)
    &&& (v.controllers.len() > 0 ==> 0 <= v.front_idx < v.controllers.len())
}

/// The shape every stack reachable from a root has: at least the root
/// remains, and the front controller is the newest entry.
pub open spec fn nav_rooted(v: NavView) -> bool {
    &&& v.controllers.len() >= 1
    &&& v.front_idx == v.controllers.len() - 1
}

/// A stack as it leaves the constructor: empty, unfocused, no modal, no
/// pending transition.
pub open spec fn spec_init_nav(frame: Frame) -> NavView {
    NavView {
        frame,
        controllers: Seq::empty(),
        modal: Option::None,
        front_idx: 0,
        transition: TransitionState::Idle,
        event_layer: 0,
        next_target: Option::None,
    }
}

/// The stack after a push: the new controller, already through its
/// `view_will_load`, is appended and becomes the front.
pub open spec fn spec_push(v: NavView, s: ScreenView) -> NavView {
    NavView {
        controllers: v.controllers.push(spec_loaded(s)),
        front_idx: v.controllers.len() as int,
        ..v
    }
}

/// The stack after a pop: the newest entry leaves and the one before it
/// becomes the front.
pub open spec fn spec_pop(v: NavView) -> NavView {
    NavView {
        controllers: v.controllers.drop_last(),
        front_idx: v.controllers.len() - 2,
        ..v
    }
}

/// The stack after a plain-overlay presentation: the modal slot holds the
/// presented controller, already through its `view_will_load`, and the
/// transition enters `Starting`; the base stack is untouched.
pub open spec fn spec_present(v: NavView, s: ScreenView) -> NavView {
    NavView { modal: Option::Some(spec_loaded(s)), transition: TransitionState::Starting, ..v }
}

/// The stack after the modal is dismissed: the modal slot is cleared and
/// the transition returns to `Idle`; the base stack is untouched.
pub open spec fn spec_dismiss(v: NavView) -> NavView {
    NavView { modal: Option::None, transition: TransitionState::Idle, ..v }
}

impl NavController {
    /// A new, empty navigation stack bound to the given bounds.
    pub fn new(frame: Frame) -> (nav: NavController)
        ensures
            nav@ == spec_init_nav(frame),
    {
        let nav = NavController {
            frame,
            controllers: Vec::new(),
            modal_controller: None,
            front_idx: 0,
            transition: TransitionState::Idle,
            event_layer: EventLayer::new(),
            next_target: None,
        };
        proof {
            assert(nav@ =~= spec_init_nav(frame));
        }
        nav
    }

    /// Appends `controller` to the stack, makes it the front, and fires
    /// its `view_will_load` before its first update or render. Defined
    /// only on the base stack: while a modal holds exclusive focus the
    /// request is refused and nothing changes.
    pub fn push_controller(&mut self, controller: Screen) -> (r: Result<(), NavError>)
        ensures
            old(self)@.modal is None ==> r is Ok
                && final(self)@ == spec_push(old(self)@, controller@),
            old(self)@.modal is Some ==> r == Err::<(), NavError>(NavError::ModalActive)
                && final(self)@ == old(self)@,
    {
        if self.modal_controller.is_some() {
            return Err(NavError::ModalActive);
        }
        let mut c = controller;
        c.view_will_load();
        self.controllers.push(c);
        self.front_idx = self.controllers.len() - 1;
        proof {
            assert(self.controllers@.map_values(|s: Screen| s@)
                =~= old(self).controllers@.map_values(|s: Screen| s@).push(spec_loaded(controller@)));
            assert(self@ =~= spec_push(old(self)@, controller@));
        }
        Ok(())
    }

    /// Removes the newest stack entry and makes the one before it the
    /// front. The root is never removed: asked to pop the last remaining
    /// controller, it reports `InvalidPop` and changes nothing; while a
    /// modal holds exclusive focus it reports `ModalActive`.
    pub fn pop_controller(&mut self) -> (r: Result<(), NavError>)
        ensures
            old(self)@.modal is Some ==> r == Err::<(), NavError>(NavError::ModalActive)
                && final(self)@ == old(self)@,
            old(self)@.modal is None && old(self)@.controllers.len() <= 1 ==> r == Err::<(), NavError>(NavError::InvalidPop)
                && final(self)@ == old(self)@,
            old(self)@.modal is None && old(self)@.controllers.len() > 1 ==> r is Ok
                && final(self)@ == spec_pop(old(self)@),
    {
        if self.modal_controller.is_some() {
            return Err(NavError::ModalActive);
        }
        if self.controllers.len() <= 1 {
            return Err(NavError::InvalidPop);
        }
        let _ = self.controllers.pop();
        self.front_idx = self.controllers.len() - 1;
        proof {
            assert(self.controllers@.map_values(|s: Screen| s@)
                =~= old(self).controllers@.map_values(|s: Screen| s@).drop_last());
            assert(self@ =~= spec_pop(old(self)@));
        }
        Ok(())
    }

    /// Presents `controller` modally above the whole stack. Only the plain
    /// overlay style is implemented: the controller goes through
    /// `view_will_load`, takes the modal slot, and the transition enters
    /// `Starting`. Any other style is refused explicitly and nothing
    /// changes.
    pub fn present_controller(&mut self, controller: Screen, style: ModalDisplayStyle) -> (r:
        Result<(), NavError>)
        ensures
            style is Plain ==> r is Ok
                && final(self)@ == spec_present(old(self)@, controller@),
            !(style is Plain) ==> r == Err::<(), NavError>(NavError::UnsupportedModalStyle)
                && final(self)@ == old(self)@,
    {
        match style {
            ModalDisplayStyle::Plain => {
                let mut c = controller;
                c.view_will_load();
                self.modal_controller = Some(c);
                self.transition = TransitionState::Starting;
                proof {
                    assert(self@ =~= spec_present(old(self)@, controller@));
                }
                Ok(())
            },
            _ => Err(NavError::UnsupportedModalStyle),
        }
    }

    /// Clears the modal slot and resets the transition; the base stack and
    /// its front index are exactly as they were before the presentation.
    pub fn dismiss_modal(&mut self)
        ensures
            final(self)@ == spec_dismiss(old(self)@),
    {
        self.modal_controller = None;
        self.transition = TransitionState::Idle;
        proof {
            assert(self@ =~= spec_dismiss(old(self)@));
        }
    }

    /// Fires `view_will_load` on the front controller, if the stack has
    /// one; on an empty or mis-indexed stack this is a guarded no-op.
    pub fn view_will_load(&mut self)
        ensures
            final(self)@ == spec_nav_load(old(self)@),
    {
        if self.front_idx < self.controllers.len() {
            let mut s = self.controllers.remove(self.front_idx);
            s.view_will_load();
            self.controllers.insert(self.front_idx, s);
            proof {
                let ghost f = |s: Screen| s@;
                let ghost cs = old(self).controllers@.map_values(f);
                assert(old(self).controllers@.remove(self.front_idx as int).map_values(f)
                    =~= cs.remove(self.front_idx as int));
                assert(self.controllers@.map_values(f)
                    =~= cs.remove(self.front_idx as int).insert(self.front_idx as int, s@));
                assert(cs.remove(self.front_idx as int).insert(self.front_idx as int, s@)
                    =~= cs.update(self.front_idx as int, spec_loaded(cs[self.front_idx as int])));
                assert(self@ =~= spec_nav_load(old(self)@));
            }
        }
    }

    /// Passes the shared theme down to the front controller. The stack
    /// must hold at least one controller.
    pub fn set_theme(&mut self, theme: &Theme)
        requires
            old(self)@.controllers.len() > 0,
            nav_inv(old(self)@),
        ensures
            final(self)@ == (NavView {
                controllers: old(self)@.controllers.update(
                    old(self)@.front_idx,
                    spec_themed(old(self)@.controllers[old(self)@.front_idx], *theme),
                ),
                ..old(self)@
            }),
    {
        let mut s = self.controllers.remove(self.front_idx);
        s.set_theme(theme);
        self.controllers.insert(self.front_idx, s);
        proof {
            let ghost f = |s: Screen| s@;
            let ghost cs = old(self).controllers@.map_values(f);
            assert(old(self).controllers@.remove(self.front_idx as int).map_values(f)
                =~= cs.remove(self.front_idx as int));
            assert(self.controllers@.map_values(f)
                =~= cs.remove(self.front_idx as int).insert(self.front_idx as int, s@));
            assert(cs.remove(self.front_idx as int).insert(self.front_idx as int, s@)
                =~= cs.update(self.front_idx as int, spec_themed(cs[self.front_idx as int], *theme)));
            assert(self@ =~= (NavView {
                controllers: cs.update(
                    self.front_idx as int,
                    spec_themed(cs[self.front_idx as int], *theme),
                ),
                ..old(self)@
            }));
        }
    }

    /// Hook fired when a parent stack is about to transition around this
    /// one. The stack itself does nothing with it.
    pub fn view_will_transition(&mut self, _event: NavEvent)
        ensures
            final(self)@ == old(self)@,
    {
    }

    /// The paint plan for one frame, back to front: the front controller
    /// always paints first, and the modal, if present, paints after it,
    /// so the modal is guaranteed to appear on top.
    pub fn render(&self) -> (plan: Vec<u32>)
        requires
            self@.controllers.len() > 0,
            nav_inv(self@),
        ensures
            plan@ == spec_render_order(self@),
    {
        let front = &self.controllers[self.front_idx];
        let mut plan = front.render();
        if let Some(m) = &self.modal_controller {
            let mut over = m.render();
            plan.append(&mut over);
        }
        proof {
            assert(plan@ =~= spec_render_order(self@));
        }
        plan
    }

    /// Routes a hover to the controller holding exclusive focus: the
    /// modal if present, otherwise the front controller. The result says
    /// whether that controller consumed the point, unchanged.
    pub fn handle_mouse_at(&self, pt: &Point) -> (consumed: bool)
        requires
            self@.controllers.len() > 0,
            nav_inv(self@),
        ensures
            consumed == spec_mouse_hit(self@, *pt),
    {
        match &self.modal_controller {
            Some(m) => m.handle_mouse_at(pt),
            None => {
                let front = &self.controllers[self.front_idx];
                front.handle_mouse_at(pt)
            },
        }
    }

    /// Routes a press exactly as `handle_mouse_at` routes a hover.
    pub fn handle_mouse_down(&self, pt: &Point) -> (consumed: bool)
        requires
            self@.controllers.len() > 0,
            nav_inv(self@),
        ensures
            consumed == spec_mouse_hit(self@, *pt),
    {
        match &self.modal_controller {
            Some(m) => m.handle_mouse_down(pt),
            None => {
                let front = &self.controllers[self.front_idx];
                front.handle_mouse_down(pt)
            },
        }
    }

    /// Routes a release exactly as `handle_mouse_at` routes a hover.
    pub fn handle_mouse_up(&self, pt: &Point) -> (consumed: bool)
        requires
            self@.controllers.len() > 0,
            nav_inv(self@),
        ensures
            consumed == spec_mouse_hit(self@, *pt),
    {
        match &self.modal_controller {
            Some(m) => m.handle_mouse_up(pt),
            None => {
                let front = &self.controllers[self.front_idx];
                front.handle_mouse_up(pt)
            },
        }
    }

    /// Routes a scroll to the controller holding exclusive focus.
    pub fn handle_mouse_scroll(&self, pt: &Point)
        requires
            self@.controllers.len() > 0,
            nav_inv(self@),
    {
        match &self.modal_controller {
            Some(m) => m.handle_mouse_scroll(pt),
            None => {
                let front = &self.controllers[self.front_idx];
                front.handle_mouse_scroll(pt)
            },
        }
    }

    /// One update tick, driven once per frame by the hosting loop. First
    /// the transition deferred on the previous tick, if any, is executed;
    /// then exactly one controller receives `update` - the modal if
    /// present, otherwise the front controller; finally the navigation
    /// event that controller drained, if any, takes effect: `Back` pops,
    /// `Close` dismisses, and `Next` or `Modal` defer the controller's
    /// proposed destination to the next tick. Refused stack mutations are
    /// reported, in order, in the result.
    #[verifier::rlimit(50)]
    pub fn update(&mut self) -> (errs: Vec<NavError>)
        requires
            nav_inv(old(self)@),
            old(self)@.controllers.len() > 0,
        ensures
            final(self)@ == spec_frame_tick(old(self)@).0,
            errs@ == spec_frame_tick(old(self)@).1,
    {
        let mut errs: Vec<NavError> = Vec::new();
        let ghost v1 = spec_tick_deferred(old(self)@).0;
        let ghost e1 = spec_tick_deferred(old(self)@).1;

        // the transition deferred on the previous tick
        let t = self.next_target.take();
        proof {
            assert(self@ =~= (NavView { next_target: Option::None, ..old(self)@ }));
        }
        match t {
            None => {},
            Some(nt) => {
                let NavTarget { event, controller } = nt;
                match event {
                    NavEvent::Back => {
                        if let Err(e) = self.pop_controller() {
                            errs.push(e);
                        }
                    },
                    NavEvent::Close => {
                        self.dismiss_modal();
                    },
                    NavEvent::Next => {
                        if let Err(e) = self.push_controller(controller) {
                            errs.push(e);
                        }
                    },
                    NavEvent::Modal => {
                        let _ = self.present_controller(controller, ModalDisplayStyle::Plain);
                    },
                }
            },
        }
        proof {
            assert(self@ == v1);
            assert(errs@ =~= opt_err_seq(e1));
            assert(nav_inv(v1));
            assert(v1.controllers.len() > 0);
        }

        // exclusive focus: the modal if present, else the front controller
        let ghost v2 = spec_tick_focus(v1).0;
        let ghost ev2 = spec_tick_focus(v1).1;
        let ghost focused2 = spec_tick_focus(v1).2;
        let (ev, tgt): (Option<NavEvent>, Option<NavTarget>) = if self.modal_controller.is_some() {
            let mut m = self.modal_controller.take().unwrap();
            let ev = m.update();
            let tgt: Option<NavTarget> = match ev {
                Some(NavEvent::Next) => m.nav_target_for_event(NavEvent::Next),
                Some(NavEvent::Modal) => m.nav_target_for_event(NavEvent::Modal),
                _ => None,
            };
            self.modal_controller = Some(m);
            proof {
                assert(self@ =~= v2);
            }
            (ev, tgt)
        } else {
            let ghost pre = self.controllers@;
            let mut s = self.controllers.remove(self.front_idx);
            let ev = s.update();
            let tgt: Option<NavTarget> = match ev {
                Some(NavEvent::Next) => s.nav_target_for_event(NavEvent::Next),
                Some(NavEvent::Modal) => s.nav_target_for_event(NavEvent::Modal),
                _ => None,
            };
            self.controllers.insert(self.front_idx, s);
            proof {
                let ghost f = |s: Screen| s@;
                let ghost cs = v1.controllers;
                assert(pre.map_values(f) =~= cs);
                assert(pre.remove(self.front_idx as int).map_values(f)
                    =~= cs.remove(self.front_idx as int));
                assert(self.controllers@.map_values(f)
                    =~= cs.remove(self.front_idx as int).insert(self.front_idx as int, s@));
                assert(cs.remove(self.front_idx as int).insert(self.front_idx as int, s@)
                    =~= cs.update(self.front_idx as int, s@));
                assert(self@ =~= v2);
            }
            (ev, tgt)
        };
        proof {
            assert(ev == ev2);
            assert(spec_opt_target(tgt) == (match ev2 {
                Option::Some(NavEvent::Next) => spec_target_for(focused2, NavEvent::Next),
                Option::Some(NavEvent::Modal) => spec_target_for(focused2, NavEvent::Modal),
                _ => Option::<TargetView>::None,
            }));
        }

        // the drained navigation event, if any
        match ev {
            None => {},
            Some(NavEvent::Back) => {
                if let Err(e) = self.pop_controller() {
                    errs.push(e);
                }
            },
            Some(NavEvent::Close) => {
                self.dismiss_modal();
            },
            Some(NavEvent::Next) => {
                self.next_target = tgt;
            },
            Some(NavEvent::Modal) => {
                self.next_target = tgt;
            },
        }
        proof {
            assert(self@ =~= spec_frame_tick(old(self)@).0);
            assert(errs@ =~= spec_frame_tick(old(self)@).1);
        }
        errs
    }
}

/// The stack after `view_will_load`: the front controller, if the index
/// addresses one, goes through its own loading hook.
pub open spec fn spec_nav_load(v: NavView) -> NavView {
    if 0 <= v.front_idx < v.controllers.len() {
        NavView {
            controllers: v.controllers.update(
                v.front_idx,
                spec_loaded(v.controllers[v.front_idx]),
            ),
            ..v
        }
    } else {
        v
    }
}

/// The paint order of one frame: the front controller, then the modal if
/// one is present.
pub open spec fn spec_render_order(v: NavView) -> Seq<u32> {
    match v.modal {
        Option::Some(m) => seq![v.controllers[v.front_idx].id, m.id],
        Option::None => seq![v.controllers[v.front_idx].id],
    }
}

/// Where input lands and whether it is consumed: the modal holds exclusive
/// focus when present, otherwise the front controller is asked.
pub open spec fn spec_mouse_hit(v: NavView, pt: Point) -> bool {
    match v.modal {
        Option::Some(m) => m.frame.spec_contains(pt),
        Option::None => v.controllers[v.front_idx].frame.spec_contains(pt),
    }
}

/// A screen after its own per-frame update, paired with the navigation
/// event it drained, if any.
pub open spec fn spec_screen_update(s: ScreenView) -> (ScreenView, Option<NavEvent>) {
    let (q2, sel2, ev) = spec_drain(s.queue.events, s.selected);
    (
        ScreenView { queue: QueueView { events: q2, ..s.queue }, selected: sel2, ..s },
        ev,
    )
}

/// An error as zero or one entries of an error report.
pub open spec fn opt_err_seq(e: Option<NavError>) -> Seq<NavError> {
    match e {
        Option::Some(x) => seq![x],
        Option::None => Seq::empty(),
    }
}

/// Executing one deferred transition descriptor against the stack:
/// `Next` pushes and `Modal` presents the carried controller, `Back` pops
/// and `Close` dismisses; refused stack mutations report their error and
/// leave the stack unchanged.
pub open spec fn spec_exec_target(v: NavView, t: TargetView) -> (NavView, Option<NavError>) {
    match t.event {
        NavEvent::Back => {
            if v.modal is Some {
                (v, Option::Some(NavError::ModalActive))
            } else if v.controllers.len() <= 1 {
                (v, Option::Some(NavError::InvalidPop))
            } else {
                (spec_pop(v), Option::None)
            }
        },
        NavEvent::Close => (spec_dismiss(v), Option::None),
        NavEvent::Next => {
            if v.modal is Some {
                (v, Option::Some(NavError::ModalActive))
            } else {
                (spec_push(v, t.controller), Option::None)
            }
        },
        NavEvent::Modal => (spec_present(v, t.controller), Option::None),
    }
}

/// First phase of a tick: the transition deferred on the previous tick,
/// if any, is taken out and executed.
pub open spec fn spec_tick_deferred(v: NavView) -> (NavView, Option<NavError>) {
    let v0 = NavView { next_target: Option::None, ..v };
    match v.next_target {
        Option::Some(t) => spec_exec_target(v0, t),
        Option::None => (v0, Option::None),
    }
}

/// Second phase of a tick: exactly one controller receives `update` - the
/// modal if present, since it holds exclusive focus, otherwise the front
/// controller. Returns the stack, the navigation event that controller
/// drained, and that controller's new value.
pub open spec fn spec_tick_focus(v: NavView) -> (NavView, Option<NavEvent>, ScreenView) {
    match v.modal {
        Option::Some(m) => {
            let (m2, ev) = spec_screen_update(m);
            (NavView { modal: Option::Some(m2), ..v }, ev, m2)
        },
        Option::None => {
            let (f2, ev) = spec_screen_update(v.controllers[v.front_idx]);
            (
                NavView { controllers: v.controllers.update(v.front_idx, f2), ..v },
                ev,
                f2,
            )
        },
    }
}

/// Third phase of a tick: the drained navigation event, if any, takes
/// effect. `Back` pops and `Close` dismisses at once; `Next` and `Modal`
/// ask the focused controller for a destination and defer it to the next
/// tick, so at most one stack mutation happens per frame.
pub open spec fn spec_tick_nav(v: NavView, ev: Option<NavEvent>, focused: ScreenView) -> (
    NavView,
    Option<NavError>,
) {
    match ev {
        Option::None => (v, Option::None),
        Option::Some(NavEvent::Back) => {
            if v.modal is Some {
                (v, Option::Some(NavError::ModalActive))
            } else if v.controllers.len() <= 1 {
                (v, Option::Some(NavError::InvalidPop))
            } else {
                (spec_pop(v), Option::None)
            }
        },
        Option::Some(NavEvent::Close) => (spec_dismiss(v), Option::None),
        Option::Some(ne) => (
            NavView { next_target: spec_target_for(focused, ne), ..v },
            Option::None,
        ),
    }
}

/// One full update tick of the stack, and the errors it reports: execute
/// the deferred transition, update the controller holding exclusive
/// focus, then act on the navigation event it drained.
pub open spec fn spec_frame_tick(v: NavView) -> (NavView, Seq<NavError>) {
    let (v1, e1) = spec_tick_deferred(v);
    let (v2, ev, focused) = spec_tick_focus(v1);
    let (v3, e3) = spec_tick_nav(v2, ev, focused);
    (v3, opt_err_seq(e1) + opt_err_seq(e3))
}


/// One base-stack operation, as the stack laws below range over them.
/// Each mirrors the corresponding method exactly, guard included: a push
/// is refused while a modal is active, and a pop is refused while a modal
/// is active or only the root remains, in which case the stack is
/// unchanged.
pub enum StackOp {
    Push(ScreenView),
    Pop,
}

/// One operation applied to the stack.
pub open spec fn apply_stack_op(v: NavView, op: StackOp) -> NavView {
    match op {
        StackOp::Push(s) => if v.modal is None {
            spec_push(v, s)
        } else {
            v
        },
        StackOp::Pop => if v.modal is None && v.controllers.len() > 1 {
            spec_pop(v)
        } else {
            v
        },
    }
}

/// A whole sequence of operations applied to the stack, in order.
pub open spec fn apply_stack_ops(v: NavView, ops: Seq<StackOp>) -> NavView
    decreases ops.len(),
{
    if ops.len() == 0 {
        v
    } else {
        apply_stack_op(apply_stack_ops(v, ops.drop_last()), ops.last())
    }
}

/// Every sequence of push and pop operations keeps a rooted stack rooted:
/// the length never drops below one and the front index is always a valid
/// index (the newest entry).
pub proof fn lemma_stack_ops_keep_root(v: NavView, ops: Seq<StackOp>)
    requires
        nav_rooted(v),
    ensures
        nav_rooted(apply_stack_ops(v, ops)),
        apply_stack_ops(v, ops).controllers.len() >= 1,
        0 <= apply_stack_ops(v, ops).front_idx < apply_stack_ops(v, ops).controllers.len(),
    decreases ops.len(),
{
    if ops.len() > 0 {
        lemma_stack_ops_keep_root(v, ops.drop_last());
    }
}

/// Starting from one root controller pushed onto a fresh stack, every
/// sequence of push and pop operations leaves `front_idx` a valid index
/// and the stack length at least one.
pub proof fn lemma_rooted_stack_always_valid(frame: Frame, root: ScreenView, ops: Seq<StackOp>)
    ensures
        ({
            let v = apply_stack_ops(spec_push(spec_init_nav(frame), root), ops);
            &&& v.controllers.len() >= 1
            &&& 0 <= v.front_idx < v.controllers.len()
            &&& nav_rooted(v)
        }),
{
    lemma_stack_ops_keep_root(spec_push(spec_init_nav(frame), root), ops);
}

/// A push immediately followed by a pop restores the stack exactly: same
/// contents, same front index, and in particular the same front
/// controller as before the push.
pub proof fn lemma_push_then_pop_restores_front(v: NavView, c: ScreenView)
    requires
        nav_rooted(v),
        v.modal is None,
    ensures
        spec_pop(spec_push(v, c)) == v,
        spec_pop(spec_push(v, c)).controllers[spec_pop(spec_push(v, c)).front_idx]
            == v.controllers[v.front_idx],
{
    assert(v.controllers.push(spec_loaded(c)).drop_last() =~= v.controllers);
    assert(spec_pop(spec_push(v, c)) =~= v);
}

/// A plain-overlay presentation followed by a dismissal leaves the base
/// stack contents and the front index exactly as they were before the
/// presentation, with no modal left and the transition back at rest.
pub proof fn lemma_present_then_dismiss_preserves_stack(v: NavView, c: ScreenView)
    ensures
        spec_dismiss(spec_present(v, c)).controllers == v.controllers,
        spec_dismiss(spec_present(v, c)).front_idx == v.front_idx,
        spec_dismiss(spec_present(v, c)).modal is None,
        spec_dismiss(spec_present(v, c)).transition is Idle,
{
}

/// A full update tick keeps the stack sound: the stack never empties and
/// the front index remains a valid index, whatever was queued, routed or
/// deferred.
pub proof fn lemma_frame_tick_keeps_inv(v: NavView)
    requires
        nav_inv(v),
        v.controllers.len() > 0,
    ensures
        nav_inv(spec_frame_tick(v).0),
        spec_frame_tick(v).0.controllers.len() > 0,
{
}

} // verus!
