use vstd::prelude::*;

use crate::events::{Action, Event, EventQueue, QueueView};
use crate::theme::Theme;

verus! {

/// How a modally presented controller is brought on screen. Only the plain
/// overlay is supported; asking for any other style is reported as an
/// error rather than silently ignored.
#[derive(Clone, Copy, Debug, PartialEq, Eq, Structural)]
pub enum ModalDisplayStyle {
    Plain,
    CoverVertical,
    FlipHorizontal,
    CrossDissolve,
}

/// Phase marker for an in-progress modal presentation. A presentation
/// starts in `Starting`; dismissing the modal resets it to `Idle`.
#[derive(Clone, Copy, Debug, PartialEq, Eq, Structural)]
pub enum TransitionState {
    Idle,
    Starting,
    Running,
    Finishing,
    Completed,
}

/// A navigation intent drained from a controller's event queue.
#[derive(Clone, Copy, Debug, PartialEq, Eq, Structural)]
pub enum NavEvent {
    Back,
    Next,
    Modal,
    Close,
}

/// The anticipated, recoverable failures of stack transitions. A broken
/// stack index, by contrast, is not a value here: the stack's invariant
/// rules it out, so no code path ever observes one.
#[derive(Clone, Copy, Debug, PartialEq, Eq, Structural)]
pub enum NavError {
    /// `pop_controller` was asked to remove the root controller.
    InvalidPop,
    /// `present_controller` was asked for a style other than the plain
    /// overlay.
    UnsupportedModalStyle,
    /// A base-stack mutation was requested while a modal holds exclusive
    /// focus.
    ModalActive,
}

/// Button tag that requests a modal presentation.
pub const MODAL: u32 = 1;

/// Button tag that requests navigating back.
pub const BACK_BUTTON: u32 = 10;

/// Button tag that requests closing the modal.
pub const CLOSE_BUTTON: u32 = 11;

/// Button tag that requests navigating forward.
pub const NEXT_BUTTON: u32 = 20;

/// A point in window coordinates, in whole pixels.
#[derive(Clone, Copy, Debug, PartialEq, Eq, Structural)]
pub struct Point {
    pub x: i32,
    pub y: i32,
}

/// An axis-aligned window region: origin and size in whole pixels.
#[derive(Clone, Copy, Debug, PartialEq, Eq, Structural)]
pub struct Frame {
    pub x: i32,
    pub y: i32,
    pub w: i32,
    pub h: i32,
}

impl Frame {
    /// Whether `pt` lies inside this region (the right and bottom edges
    /// are exclusive).
    pub open spec fn spec_contains(self, pt: Point) -> bool {
        &&& self.x <= pt.x < self.x + self.w
        &&& self.y <= pt.y < self.y + self.h
    }

    pub fn new(x: i32, y: i32, w: i32, h: i32) -> (f: Frame)
        ensures
            f == (Frame { x, y, w, h }),
    {
        Frame { x, y, w, h }
    }

    pub fn contains(&self, pt: &Point) -> (r: bool)
        ensures
            r == self.spec_contains(*pt),
    {
        (pt.x as i64) >= (self.x as i64) && (pt.x as i64) < (self.x as i64) + (self.w as i64)
            && (pt.y as i64) >= (self.y as i64) && (pt.y as i64) < (self.y as i64) + (self.h as i64)
    }
}

/// Four-sided pixel inset.
#[derive(Clone, Copy, Debug, PartialEq, Eq, Structural)]
pub struct Insets {
    pub left: u32,
    pub top: u32,
    pub right: u32,
    pub bottom: u32,
}

/// A descriptive entry for the navigation bar. `tag` identifies the click;
/// `button` is a handle to the pre-sized widget owned by the nav-bar
/// renderer, which consumes these entries.
#[derive(Clone, Copy, Debug, PartialEq, Eq, Structural)]
pub struct NavItem {
    pub tag: u32,
    pub button: u32,
    pub padding: Insets,
}

impl NavItem {
    pub fn new(tag: u32, button: u32) -> (item: NavItem)
        ensures
            item == (NavItem {
                tag,
                button,
                padding: Insets { left: 0, top: 0, right: 0, bottom: 0 },
            }),
    {
        NavItem { tag, button, padding: Insets { left: 0, top: 0, right: 0, bottom: 0 } }
    }
}

/// Where a screen wants to go when a navigation event fires. The
/// destination is described by plain values from which the destination
/// screen is built at decision time.
pub struct Route {
    pub event: NavEvent,
    pub target_id: u32,
    pub target_title: String,
}

/// The mathematical value of a `Route`.
#[verifier::ext_equal]
pub struct RouteView {
    pub event: NavEvent,
    pub target_id: u32,
    pub target_title: Seq<char>,
}

impl View for Route {
    type V = RouteView;

    open spec fn view(&self) -> RouteView {
        RouteView {
            event: self.event,
            target_id: self.target_id,
            target_title: self.target_title@,
        }
    }
}

/// One navigable screen: the concrete unit behind the controller
/// capability. Different screens of the shell differ only in this data;
/// the widgets they draw live with the rendering collaborator and are
/// referred to by handles.
pub struct Screen {
    /// Identity of the screen; also the subscription handle of its queue.
    pub id: u32,
    /// Title for the nav bar to display.
    pub title: String,
    /// The screen's bounds, fixed at construction.
    pub frame: Frame,
    /// Whether `view_will_load` has fired.
    pub loaded: bool,
    /// Background color adopted from the last applied theme, `0xRRGGBB`.
    pub bg_color: u32,
    /// The screen's own accumulator of widget events.
    pub queue: EventQueue,
    /// Nav-bar entries, left side, left to right.
    pub left_items: Vec<NavItem>,
    /// Nav-bar entries, right side, left to right.
    pub right_items: Vec<NavItem>,
    /// Destinations this screen knows how to navigate to.
    pub routes: Vec<Route>,
    /// The row most recently chosen by a `Selected` action, if any.
    pub selected: Option<usize>,
}

/// The mathematical value of a `Screen`.
#[verifier::ext_equal]
pub struct ScreenView {
    pub id: u32,
    pub title: Seq<char>,
    pub frame: Frame,
    pub loaded: bool,
    pub bg_color: u32,
    pub queue: QueueView,
    pub left_items: Seq<NavItem>,
    pub right_items: Seq<NavItem>,
    pub routes: Seq<RouteView>,
    pub selected: Option<usize>,
}

impl View for Screen {
    type V = ScreenView;

    open spec fn view(&self) -> ScreenView {
        ScreenView {
            id: self.id,
            title: self.title@,
            frame: self.frame,
            loaded: self.loaded,
            bg_color: self.bg_color,
            queue: self.queue@,
            left_items: self.left_items@,
            right_items: self.right_items@,
            routes: self.routes@.map_values(|r: Route| r@),
            selected: self.selected,
        }
    }
}

/// A screen after its `view_will_load` hook has fired.
pub open spec fn spec_loaded(s: ScreenView) -> ScreenView {
    ScreenView { loaded: true, ..s }
}

/// A screen after a theme is applied: it adopts the theme's background and
/// retains nothing else of the theme, which is re-queried on each change.
pub open spec fn spec_themed(s: ScreenView, theme: Theme) -> ScreenView {
    ScreenView { bg_color: theme.bg_color, ..s }
}

/// A freshly built screen, before `view_will_load`.
pub open spec fn spec_fresh_screen(id: u32, title: Seq<char>, frame: Frame) -> ScreenView {
    ScreenView {
        id,
        title,
        frame,
        loaded: false,
        bg_color: 0,
        queue: QueueView {
            id,
            delegate: Option::None,
            handlers: Seq::empty(),
            events: Seq::empty(),
        },
        left_items: Seq::empty(),
        right_items: Seq::empty(),
        routes: Seq::empty(),
        selected: Option::None,
    }
}

/// The navigation intent behind a button tag, if the tag is one of the
/// recognized navigation commands.
pub open spec fn spec_nav_event_for_tag(tag: u32) -> Option<NavEvent> {
    if tag == MODAL {
        Option::Some(NavEvent::Modal)
    } else if tag == BACK_BUTTON {
        Option::Some(NavEvent::Back)
    } else if tag == CLOSE_BUTTON {
        Option::Some(NavEvent::Close)
    } else if tag == NEXT_BUTTON {
        Option::Some(NavEvent::Next)
    } else {
        Option::None
    }
}

/// The navigation intent behind an event, if any. `Selected` actions and
/// unrecognized button tags are local matters, handled by the screen
/// itself.
pub open spec fn spec_nav_event_of(e: Event) -> Option<NavEvent> {
    match e.action {
        Action::Button(tag) => spec_nav_event_for_tag(tag),
        Action::Selected(_) => Option::None,
    }
}

/// What handling one local (non-navigation) event does to the screen's
/// selection: a `Selected` action records its row; anything else changes
/// nothing.
pub open spec fn spec_local_effect(e: Event, selected: Option<usize>) -> Option<usize> {
    match e.action {
        Action::Selected(i) => Option::Some(i),
        Action::Button(_) => selected,
    }
}

/// One frame's drain of a queue under the one-navigation-event-per-frame
/// policy: local events are handled (and consumed) until the first
/// navigation-relevant event, which is consumed and reported; everything
/// after it stays queued for later frames. Returns the remaining queue,
/// the selection after the handled local events, and the navigation event,
/// if one was found.
pub open spec fn spec_drain(q: Seq<Event>, selected: Option<usize>) -> (
    Seq<Event>,
    Option<usize>,
    Option<NavEvent>,
)
    decreases q.len(),
{
    if q.len() == 0 {
        (q, selected, Option::None)
    } else {
        match spec_nav_event_of(q[0]) {
            Option::Some(ne) => (q.skip(1), selected, Option::Some(ne)),
            Option::None => spec_drain(q.skip(1), spec_local_effect(q[0], selected)),
        }
    }
}

/// The first route of `routes` that answers `event`, if any.
pub open spec fn spec_first_route(routes: Seq<RouteView>, event: NavEvent) -> Option<RouteView>
    decreases routes.len(),
{
    if routes.len() == 0 {
        Option::None
    } else if routes[0].event == event {
        Option::Some(routes[0])
    } else {
        spec_first_route(routes.skip(1), event)
    }
}

/// A deferred transition descriptor: the navigation event that asked for
/// it, paired with the already-constructed destination controller. It is
/// executed, then discarded, by the navigation stack on its next update
/// tick.
pub struct NavTarget {
    pub event: NavEvent,
    pub controller: Screen,
}

/// The mathematical value of a `NavTarget`.
#[verifier::ext_equal]
pub struct TargetView {
    pub event: NavEvent,
    pub controller: ScreenView,
}

impl View for NavTarget {
    type V = TargetView;

    open spec fn view(&self) -> TargetView {
        TargetView { event: self.event, controller: self.controller@ }
    }
}

/// The view of an optional target.
pub open spec fn spec_opt_target(t: Option<NavTarget>) -> Option<TargetView> {
    match t {
        Option::Some(nt) => Option::Some(nt@),
        Option::None => Option::None,
    }
}

/// The target a screen proposes for `event`: the first matching route,
/// turned into a freshly built destination screen occupying the source
/// screen's frame.
pub open spec fn spec_target_for(s: ScreenView, event: NavEvent) -> Option<TargetView> {
    match spec_first_route(s.routes, event) {
        Option::Some(r) => Option::Some(
            TargetView {
                event,
                controller: spec_fresh_screen(r.target_id, r.target_title, s.frame),
            },
        ),
        Option::None => Option::None,
    }
}

/// Exec counterpart of `spec_nav_event_of`.
pub fn nav_event_of(e: &Event) -> (r: Option<NavEvent>)
    ensures
        r == spec_nav_event_of(*e),
{
    match e.action {
        Action::Button(tag) => {
            if tag == MODAL {
                Some(NavEvent::Modal)
            } else if tag == BACK_BUTTON {
                Some(NavEvent::Back)
            } else if tag == CLOSE_BUTTON {
                Some(NavEvent::Close)
            } else if tag == NEXT_BUTTON {
                Some(NavEvent::Next)
            } else {
                None
            }
        },
        Action::Selected(_) => None,
    }
}

impl Screen {
    /// A fresh screen with the given identity, title and bounds, its own
    /// empty event queue reachable under handle `id`, and nothing else.
    pub fn new(id: u32, title: String, frame: Frame) -> (s: Screen)
        ensures
            s@ == spec_fresh_screen(id, title@, frame),
    {
        let s = Screen {
            id,
            title,
            frame,
            loaded: false,
            bg_color: 0,
            queue: EventQueue::new(id),
            left_items: Vec::new(),
            right_items: Vec::new(),
            routes: Vec::new(),
            selected: None,
        };
        proof {
            assert(s@ =~= spec_fresh_screen(id, s.title@, frame));
        }
        s
    }

    /// Adds a nav-bar entry on the left side.
    pub fn add_left_item(&mut self, item: NavItem)
        ensures
            final(self)@ == (ScreenView {
                left_items: old(self)@.left_items.push(item),
                ..old(self)@
            }),
    {
        self.left_items.push(item);
        proof {
            assert(self@ =~= (ScreenView {
                left_items: old(self)@.left_items.push(item),
                ..old(self)@
            }));
        }
    }

    /// Adds a nav-bar entry on the right side.
    pub fn add_right_item(&mut self, item: NavItem)
        ensures
            final(self)@ == (ScreenView {
                right_items: old(self)@.right_items.push(item),
                ..old(self)@
            }),
    {
        self.right_items.push(item);
        proof {
            assert(self@ =~= (ScreenView {
                right_items: old(self)@.right_items.push(item),
                ..old(self)@
            }));
        }
    }

    /// Declares a destination this screen can navigate to when `event`
    /// fires.
    pub fn add_route(&mut self, event: NavEvent, target_id: u32, target_title: String)
        ensures
            final(self)@ == (ScreenView {
                routes: old(self)@.routes.push(
                    RouteView { event, target_id, target_title: target_title@ },
                ),
                ..old(self)@
            }),
    {
        let ghost tv = target_title@;
        self.routes.push(Route { event, target_id, target_title });
        proof {
            assert(self.routes@.map_values(|r: Route| r@) =~= old(self)@.routes.push(
                RouteView { event, target_id, target_title: tv },
            ));
            assert(self@ =~= (ScreenView {
                routes: old(self)@.routes.push(RouteView { event, target_id, target_title: tv }),
                ..old(self)@
            }));
        }
    }

    /// The title for the nav bar to display.
    pub fn screen_title(&self) -> (t: &String)
        ensures
            t@ == self@.title,
    {
        &self.title
    }

    /// The nav-bar entries to appear on the left, left to right.
    pub fn left_nav_items(&self) -> (items: &Vec<NavItem>)
        ensures
            items@ == self@.left_items,
    {
        &self.left_items
    }

    /// The nav-bar entries to appear on the right, left to right.
    pub fn right_nav_items(&self) -> (items: &Vec<NavItem>)
        ensures
            items@ == self@.right_items,
    {
        &self.right_items
    }

    /// First stage of the view lifecycle, fired once, right after the
    /// screen becomes reachable from the stack and before its first update
    /// or render.
    pub fn view_will_load(&mut self)
        ensures
            final(self)@ == spec_loaded(old(self)@),
    {
        self.loaded = true;
        proof {
            assert(self@ =~= spec_loaded(old(self)@));
        }
    }

    /// Applies the shared theme passed down from above. The screen adopts
    /// the theme's values and keeps no reference to the theme itself.
    pub fn set_theme(&mut self, theme: &Theme)
        ensures
            final(self)@ == spec_themed(old(self)@, *theme),
    {
        self.bg_color = theme.bg_color;
        proof {
            assert(self@ =~= spec_themed(old(self)@, *theme));
        }
    }

    /// Hook fired when the stack is about to push, pop or present around
    /// this screen. The base screen does nothing with it.
    pub fn view_will_transition(&mut self, _event: NavEvent)
        ensures
            final(self)@ == old(self)@,
    {
    }

    /// One frame's event pass under the one-navigation-event-per-frame
    /// policy: handles and consumes local events (row selections,
    /// unrecognized buttons) until the first navigation-relevant event,
    /// consumes that one and returns it; whatever follows it stays queued
    /// for later frames.
    pub fn update(&mut self) -> (ev: Option<NavEvent>)
        ensures
            ({
                let (q2, sel2, ev2) = spec_drain(old(self)@.queue.events, old(self)@.selected);
                &&& final(self)@ == (ScreenView {
                    queue: QueueView { events: q2, ..old(self)@.queue },
                    selected: sel2,
                    ..old(self)@
                })
                &&& ev == ev2
            }),
    {
        let mut result: Option<NavEvent> = None;
        proof {
            assert(self@ =~= (ScreenView {
                queue: QueueView { events: self@.queue.events, ..old(self)@.queue },
                selected: self@.selected,
                ..old(self)@
            }));
        }
        while result.is_none() && self.queue.events.len() > 0
            invariant
                result is None ==> spec_drain(old(self)@.queue.events, old(self)@.selected)
                    == spec_drain(self@.queue.events, self@.selected),
                result is Some ==> spec_drain(old(self)@.queue.events, old(self)@.selected) == (
                    self@.queue.events,
                    self@.selected,
                    result,
                ),
                self@ == (ScreenView {
                    queue: QueueView { events: self@.queue.events, ..old(self)@.queue },
                    selected: self@.selected,
                    ..old(self)@
                }),
            decreases self.queue.events.len(),
        {
            let ghost q0 = self.queue.events@;
            let e = self.queue.events.remove(0);
            proof {
                assert(q0.remove(0) =~= q0.skip(1));
            }
            match nav_event_of(&e) {
                Some(ne) => {
                    result = Some(ne);
                },
                None => {
                    match e.action {
                        Action::Selected(i) => {
                            self.selected = Some(i);
                        },
                        Action::Button(_) => {},
                    }
                },
            }
            proof {
                assert(self@ =~= (ScreenView {
                    queue: QueueView { events: self@.queue.events, ..old(self)@.queue },
                    selected: self@.selected,
                    ..old(self)@
                }));
            }
        }
        result
    }

    /// The paint plan of this screen alone: its own identity.
    pub fn render(&self) -> (plan: Vec<u32>)
        ensures
            plan@ == seq![self@.id],
    {
        let mut plan: Vec<u32> = Vec::new();
        plan.push(self.id);
        proof {
            assert(plan@ =~= seq![self@.id]);
        }
        plan
    }

    /// Hover hit test: consumed exactly when the point is inside this
    /// screen's bounds.
    pub fn handle_mouse_at(&self, pt: &Point) -> (consumed: bool)
        ensures
            consumed == self.frame.spec_contains(*pt),
    {
        self.frame.contains(pt)
    }

    /// Press hit test: consumed exactly when the point is inside this
    /// screen's bounds.
    pub fn handle_mouse_down(&self, pt: &Point) -> (consumed: bool)
        ensures
            consumed == self.frame.spec_contains(*pt),
    {
        self.frame.contains(pt)
    }

    /// Release hit test: consumed exactly when the point is inside this
    /// screen's bounds.
    pub fn handle_mouse_up(&self, pt: &Point) -> (consumed: bool)
        ensures
            consumed == self.frame.spec_contains(*pt),
    {
        self.frame.contains(pt)
    }

    /// Scroll hook. The base screen has nothing that scrolls.
    pub fn handle_mouse_scroll(&self, _pt: &Point) {
    }

    /// The deferred-transition decision: if this screen has a route for
    /// `event`, the destination controller is built immediately, in this
    /// screen's frame, and paired with the event; the stack executes the
    /// pair on its next tick.
    pub fn nav_target_for_event(&self, event: NavEvent) -> (t: Option<NavTarget>)
        ensures
            spec_opt_target(t) == spec_target_for(self@, event),
    {
        let mut i: usize = 0;
        proof {
            assert(self@.routes.skip(0) =~= self@.routes);
        }
        while i < self.routes.len()
            invariant
                i <= self.routes.len(),
                spec_first_route(self@.routes, event) == spec_first_route(
                    self@.routes.skip(i as int),
                    event,
                ),
            decreases self.routes.len() - i,
        {
            let r = &self.routes[i];
            if r.event == event {
                let controller = Screen::new(r.target_id, r.target_title.clone(), self.frame);
                proof {
                    assert(self@.routes.skip(i as int)[0] == self@.routes[i as int]);
                }
                return Some(NavTarget { event, controller });
            }
            i = i + 1;
            proof {
                assert(self@.routes.skip(i as int - 1)[0] == self@.routes[i as int - 1]);
                assert(self@.routes.skip(i as int - 1).skip(1) =~= self@.routes.skip(i as int));
            }
        }
        proof {
            assert(self@.routes.skip(i as int) =~= Seq::<RouteView>::empty());
        }
        None
    }
}

} // verus!
