//! The composed panel: alignment and placement options, and the
//! container that couples a [`crate::TabView`] with a [`crate::TabBar`].
//!
//! The panel owns the channels between bar and registry, mirrors every
//! structural change into both so their key sequences stay in lockstep
//! (that lockstep is the panel's invariant, [`TabPanel::wf`]), and runs
//! the focus state machine between the bar and the content region.
//!
//! Work that only the host toolkit can do — drawing, measuring child
//! views, handing focus to a child — is returned to the caller as an
//! explicit step ([`EventStep`], [`TakeFocusStep`]) and resumed with
//! the outcome.

use vstd::prelude::*;
use crate::bar::TabBar;
use crate::chan;
use crate::event::{Direction, Event, EventResult, Key, MouseKind};
use crate::geometry::{sat_add, sat_sub, XY};
use crate::{IdNotFound, TabView};

verus! {

/// Where a run of controls starts inside the space available to it.
#[derive(Clone, Copy, Debug, PartialEq, Eq, Structural)]
pub enum Align {
    Start,
    Center,
    End,
}

/// Which edge of the panel the selector bar occupies.
#[derive(Clone, Copy, Debug, PartialEq, Eq, Structural)]
pub enum Placement {
    VerticalLeft,
    VerticalRight,
    HorizontalTop,
    HorizontalBottom,
}

/// What [`Align::get_offset`] returns: `0` whenever the content
/// overflows the container, otherwise the start offset chosen by the
/// alignment.
pub open spec fn spec_offset(align: Align, content: int, container: int) -> int {
    if container < content {
        0
    } else {
        match align {
            Align::Start => 0,
            Align::Center => (container - content) / 2,
            Align::End => container - content,
        }
    }
}

impl Align {
    /// The start offset of a `content`-cell run aligned inside a
    /// `container`-cell extent.
    ///
    /// The offset never pushes the run past the container: when the
    /// content fits, `offset + content <= container`; when it does not
    /// fit, the offset is clamped to `0` and the overflow is left to
    /// the caller to crop.
    pub fn get_offset(self, content: usize, container: usize) -> (r: usize)
        ensures
            r == spec_offset(self, content as int, container as int),
            content <= container ==> r + content <= container,
            container < content ==> r == 0,
    {
        if container < content {
            0
        } else {
            match self {
                Align::Start => 0,
                Align::Center => (container - content) / 2,
                Align::End => container - content,
            }
        }
    }
}

impl Placement {
    /// Whether the bar runs horizontally along the top or bottom edge.
    pub open spec fn is_horizontal(self) -> bool {
        self is HorizontalTop || self is HorizontalBottom
    }

    /// Executable form of [`Placement::is_horizontal`].
    pub fn check_horizontal(self) -> (r: bool)
        ensures
            r == self.is_horizontal(),
    {
        match self {
            Placement::HorizontalTop | Placement::HorizontalBottom => true,
            Placement::VerticalLeft | Placement::VerticalRight => false,
        }
    }
}

/// The key that, from the bar, points away from the bar's edge into
/// the content region.
pub open spec fn toward_content_key(p: Placement, evt: Event) -> bool {
    match evt {
        Event::Key(k) => match p {
            Placement::HorizontalTop => k is Down,
            Placement::HorizontalBottom => k is Up,
            Placement::VerticalLeft => k is Right,
            Placement::VerticalRight => k is Left,
        },
        _ => false,
    }
}

/// The key that, from the content region, points back toward the
/// bar's edge.
pub open spec fn toward_bar_key(p: Placement, evt: Event) -> bool {
    match evt {
        Event::Key(k) => match p {
            Placement::HorizontalTop => k is Up,
            Placement::HorizontalBottom => k is Down,
            Placement::VerticalLeft => k is Left,
            Placement::VerticalRight => k is Right,
        },
        _ => false,
    }
}

/// How a bar with cursor `cursor` over `n` controls reacts to the key
/// `k`: the cursor afterwards, and whether the key was consumed.
/// `Enter` activates the control under the cursor; the keys along the
/// bar's axis move the cursor one control, clamped at the ends.
pub open spec fn bar_key_step(cursor: Option<int>, n: int, horizontal: bool, k: Key) -> (
    Option<int>,
    bool,
) {
    if k is Enter {
        (cursor, cursor is Some)
    } else if (k is Left && horizontal) || (k is Up && !horizontal) {
        match cursor {
            Some(i) => if i > 0 {
                (Some(i - 1), true)
            } else {
                (cursor, false)
            },
            None => (cursor, false),
        }
    } else if (k is Right && horizontal) || (k is Down && !horizontal) {
        match cursor {
            Some(i) => if i + 1 < n {
                (Some(i + 1), true)
            } else {
                (cursor, false)
            },
            None => (cursor, false),
        }
    } else {
        (cursor, false)
    }
}

/// The direction a focus hand-off into the content arrives from, for
/// each bar placement.
pub open spec fn content_entry_dir(p: Placement) -> Direction {
    match p {
        Placement::HorizontalTop => Direction::Up,
        Placement::HorizontalBottom => Direction::Down,
        Placement::VerticalLeft => Direction::Left,
        Placement::VerticalRight => Direction::Right,
    }
}

/// The offset by which the panel relativizes an event before handing
/// it to the bar.
pub open spec fn bar_evt_offset(p: Placement, tab_size: XY) -> XY {
    match p {
        Placement::HorizontalTop | Placement::VerticalLeft => XY { x: 0usize, y: 0usize },
        Placement::HorizontalBottom => XY { x: 0usize, y: sat_add(tab_size.y as int, 1) as usize },
        Placement::VerticalRight => XY { x: sat_add(tab_size.x as int, 1) as usize, y: 0usize },
    }
}

/// The offset by which the panel relativizes an event before handing
/// it to the content region.
pub open spec fn tab_evt_offset(p: Placement, bar_size: XY) -> XY {
    match p {
        Placement::HorizontalTop => XY { x: 1usize, y: bar_size.y },
        Placement::VerticalLeft => XY { x: bar_size.x, y: 1usize },
        Placement::HorizontalBottom | Placement::VerticalRight => XY { x: 1usize, y: 1usize },
    }
}

/// Which region a focus-grabbing pointer event lands in.
#[derive(Clone, Copy, Debug, PartialEq, Eq, Structural)]
pub enum GrabTarget {
    Bar,
    Content,
}

/// What the panel asks of its caller while handling one event.
///
/// The caller performs the requested outside step on the content view
/// and resumes with the outcome; `Done` carries the final result.
#[derive(Clone, Copy, Debug, PartialEq, Eq, Structural)]
pub enum EventStep {
    /// The event is fully handled.
    Done(EventResult),
    /// Ask the content view to take focus after a pointer grab, then
    /// call [`TabPanel::on_grab_resolved`].
    AskContentGrab,
    /// Ask the content view to take focus from direction `dir`, then
    /// call [`TabPanel::on_focus_resolved`].
    AskContentFocus { dir: Direction },
    /// Hand `evt` to the content view, then call
    /// [`TabPanel::on_content_resolved`] with whether it consumed it.
    /// `base` carries the result of the grab phase, to be folded into
    /// the final result.
    ForwardToContent { evt: Event, base: EventResult },
}

/// What the panel asks of its caller while taking focus.
#[derive(Clone, Copy, Debug, PartialEq, Eq, Structural)]
pub enum TakeFocusStep {
    /// Focus is settled; the panel accepted it with this result.
    Done(EventResult),
    /// Ask the content view to take focus from direction `dir`, then
    /// call [`TabPanel::on_take_focus_resolved`].
    AskContent { dir: Direction },
}

/// The composed tab panel: a registry of child views, a selector bar
/// on one edge, the channels wiring them, and the input-focus state.
pub struct TabPanel<V> {
    bar: TabBar,
    bar_size: XY,
    tab_size: XY,
    tx: crossbeam::channel::Sender<String>,
    tabs: TabView<V>,
    bar_focused: bool,
    bar_align: Align,
    bar_placement: Placement,
}

impl<V> TabPanel<V> {
    /// The enclosed registry, as a specification value.
    pub closed spec fn registry(&self) -> TabView<V> {
        self.tabs
    }

    /// The enclosed bar, as a specification value.
    pub closed spec fn bar_state(&self) -> TabBar {
        self.bar
    }

    /// Whether the bar currently holds input focus (otherwise the
    /// content region does).
    pub closed spec fn bar_has_focus(&self) -> bool {
        self.bar_focused
    }

    /// The bar's region size as of the last measuring pass.
    pub closed spec fn spec_bar_size(&self) -> XY {
        self.bar_size
    }

    /// The content region size as of the last layout pass.
    pub closed spec fn spec_tab_size(&self) -> XY {
        self.tab_size
    }

    /// The configured bar placement.
    pub closed spec fn spec_placement(&self) -> Placement {
        self.bar_placement
    }

    /// The configured bar alignment.
    pub closed spec fn spec_align(&self) -> Align {
        self.bar_align
    }

    /// The display order of the enclosed registry.
    pub open spec fn order(&self) -> Seq<Seq<char>> {
        self.registry().order()
    }

    /// The active key of the enclosed registry.
    pub open spec fn active(&self) -> Option<Seq<char>> {
        self.registry().active()
    }

    /// The stored views of the enclosed registry.
    pub open spec fn views_seq(&self) -> Seq<V> {
        self.registry().views_seq()
    }

    /// Whether `k` is registered.
    pub open spec fn has_key(&self, k: Seq<char>) -> bool {
        self.registry().has_key(k)
    }

    /// The panel invariant: registry and bar are well-formed, the
    /// bar's controls carry exactly the registry's keys in the same
    /// order (the lockstep property), and the bar agrees with the
    /// panel on placement and alignment.
    pub open spec fn wf(&self) -> bool {
        &&& self.registry().wf()
        &&& self.bar_state().wf()
        &&& self.bar_state().keys() == self.registry().order()
        &&& self.bar_state().spec_placement() == self.spec_placement()
        &&& self.bar_state().spec_align() == self.spec_align()
    }

    /// An empty panel: registry and bar wired by two fresh channels,
    /// bar on top, start-aligned, holding focus.
    pub fn new() -> (r: TabPanel<V>)
        ensures
            r.wf(),
            r.order() == Seq::<Seq<char>>::empty(),
            r.views_seq() == Seq::<V>::empty(),
            r.active() is None,
            r.bar_has_focus(),
            r.spec_placement() == Placement::HorizontalTop,
            r.spec_align() == Align::Start,
    {
        let mut tabs: TabView<V> = TabView::new();
        let (tx, rx) = chan::key_channel();
        let (active_tx, active_rx) = chan::key_channel();
        tabs.set_bar_rx(rx);
        tabs.set_active_key_tx(active_tx);
        let bar = TabBar::new(active_rx).with_placement(Placement::HorizontalTop).with_alignment(
            Align::Start,
        );
        TabPanel {
            bar,
            bar_size: XY::new(1, 1),
            tab_size: XY::new(1, 1),
            tabs,
            tx,
            bar_focused: true,
            bar_align: Align::Start,
            bar_placement: Placement::HorizontalTop,
        }
    }

    /// The currently active tab key.
    pub fn active_tab(&self) -> (r: Option<&str>)
        ensures
            match r {
                Some(s) => self.active() == Some(s@),
                None => self.active() is None,
            },
    {
        self.tabs.active_tab()
    }

    /// The view stored under the active key, if a key is active.
    pub fn active_view(&self) -> (r: Option<&V>)
        requires
            self.wf(),
        ensures
            self.active() is None ==> r is None,
            self.active() matches Some(k) ==> r matches Some(v) && *v == self.views_seq()[self.order().index_of(k)],
    {
        self.tabs.active_view()
    }

    /// Mutable access to the view stored under the active key.
    pub fn active_view_mut(&mut self) -> (r: Option<&mut V>)
        requires
            old(self).wf(),
        ensures
            old(self).active() is None ==> r is None && *final(self) == *old(self),
            old(self).active() matches Some(k) ==> ({
                let i = old(self).order().index_of(k);
                r is Some && *r.unwrap() == old(self).views_seq()[i] && final(self).views_seq()
                    =~= old(self).views_seq().update(i, *final(r.unwrap())) && final(self).order()
                    =~= old(self).order() && final(self).active() == old(self).active() && final(self).bar_state() == old(self).bar_state()
            }),
    {
        self.tabs.active_view_mut()
    }

    /// The stored views, in display order.
    pub fn views(&self) -> (r: Vec<&V>)
        ensures
            r@.len() == self.views_seq().len(),
            forall|i: int| 0 <= i < r@.len() ==> *r@[i] == self.views_seq()[i],
    {
        self.tabs.views()
    }

    /// Mutable access to the view at position `i` of the display order.
    pub fn view_mut_at(&mut self, i: usize) -> (r: &mut V)
        requires
            old(self).wf(),
            i < old(self).views_seq().len(),
        ensures
            *r == old(self).views_seq()[i as int],
            final(self).views_seq() =~= old(self).views_seq().update(i as int, *final(r)),
            final(self).order() =~= old(self).order(),
            final(self).active() == old(self).active(),
            final(self).bar_state() == old(self).bar_state(),
    {
        self.tabs.view_mut_at(i)
    }

    /// How many tabs are registered.
    pub fn len(&self) -> (r: usize)
        ensures
            r == self.order().len(),
    {
        self.tabs.len()
    }

    /// Set the active tab of the enclosed registry; the bar's
    /// highlight follows over the notification channel on the next
    /// layout pass.
    pub fn set_active_tab(&mut self, id: &str) -> (r: Result<(), IdNotFound>)
        requires
            old(self).wf(),
        ensures
            final(self).wf(),
            final(self).order() == old(self).order(),
            final(self).views_seq() == old(self).views_seq(),
            final(self).bar_state() == old(self).bar_state(),
            final(self).bar_has_focus() == old(self).bar_has_focus(),
            r is Ok <==> old(self).has_key(id@),
            r is Ok ==> final(self).active() == Some(id@),
            r matches Err(e) ==> e.id@ == id@ && *final(self) == *old(self),
    {
        self.tabs.set_active_tab(id)
    }

    /// Chainable variant of [`TabPanel::set_active_tab`]: hands the
    /// panel back either way so construction can continue.
    pub fn with_active_tab(self, id: &str) -> (r: Result<TabPanel<V>, TabPanel<V>>)
        requires
            self.wf(),
        ensures
            r matches Ok(t) ==> self.has_key(id@) && t.wf() && t.order() == self.order()
                && t.views_seq() == self.views_seq() && t.active() == Some(id@),
            r matches Err(t) ==> !self.has_key(id@) && t == self,
    {
        let mut s = self;
        match s.set_active_tab(id) {
            Ok(_) => Ok(s),
            Err(_) => Err(s),
        }
    }

    /// Register `view` under `key`, mirror a control for it into the
    /// bar (new keys only), and make it active.
    pub fn add_tab(&mut self, key: String, view: V)
        requires
            old(self).wf(),
        ensures
            final(self).wf(),
            final(self).active() == Some(key@),
            old(self).has_key(key@) ==> final(self).order() == old(self).order() && final(self).views_seq() == old(self).views_seq().update(old(self).order().index_of(key@), view),
            !old(self).has_key(key@) ==> final(self).order() == old(self).order().push(key@)
                && final(self).views_seq() == old(self).views_seq().push(view),
    {
        let is_new = self.tabs.position_of(&key).is_none();
        if is_new {
            self.bar.add_button(chan::clone_sender(&self.tx), key.clone());
        }
        self.tabs.add_tab(key, view);
    }

    /// Chainable variant of [`TabPanel::add_tab`].
    pub fn with_tab(self, key: String, view: V) -> (r: TabPanel<V>)
        requires
            self.wf(),
        ensures
            r.wf(),
            r.active() == Some(key@),
            self.has_key(key@) ==> r.order() == self.order() && r.views_seq()
                == self.views_seq().update(self.order().index_of(key@), view),
            !self.has_key(key@) ==> r.order() == self.order().push(key@) && r.views_seq()
                == self.views_seq().push(view),
    {
        let mut s = self;
        s.add_tab(key, view);
        s
    }

    /// Register `view` under `key` at position `pos` (clamped to the
    /// end), mirror a control into the bar at the same position (new
    /// keys only), and make it active.
    pub fn add_tab_at(&mut self, key: String, view: V, pos: usize)
        requires
            old(self).wf(),
        ensures
            final(self).wf(),
            final(self).active() == Some(key@),
            old(self).has_key(key@) ==> final(self).order() == old(self).order() && final(self).views_seq() == old(self).views_seq().update(old(self).order().index_of(key@), view),
            !old(self).has_key(key@) ==> ({
                let p = crate::clamped(pos as int, old(self).order().len() as int);
                final(self).order() == old(self).order().insert(p, key@) && final(self).views_seq()
                    == old(self).views_seq().insert(p, view)
            }),
    {
        let is_new = self.tabs.position_of(&key).is_none();
        if is_new {
            self.bar.add_button_at(chan::clone_sender(&self.tx), key.clone(), pos);
        }
        self.tabs.add_tab_at(key, view, pos);
    }

    /// Chainable variant of [`TabPanel::add_tab_at`].
    pub fn with_tab_at(self, key: String, view: V, pos: usize) -> (r: TabPanel<V>)
        requires
            self.wf(),
        ensures
            r.wf(),
            r.active() == Some(key@),
            self.has_key(key@) ==> r.order() == self.order() && r.views_seq()
                == self.views_seq().update(self.order().index_of(key@), view),
            !self.has_key(key@) ==> ({
                let p = crate::clamped(pos as int, self.order().len() as int);
                r.order() == self.order().insert(p, key@) && r.views_seq()
                    == self.views_seq().insert(p, view)
            }),
    {
        let mut s = self;
        s.add_tab_at(key, view, pos);
        s
    }

    /// Remove the tab registered under `id` and its bar control.
    ///
    /// Removing the active tab leaves the panel with no active key.
    pub fn remove_tab(&mut self, id: &str) -> (r: Result<(), IdNotFound>)
        requires
            old(self).wf(),
        ensures
            final(self).wf(),
            r is Ok <==> old(self).has_key(id@),
            r is Ok ==> ({
                let i = old(self).order().index_of(id@);
                final(self).order() == old(self).order().remove(i) && final(self).views_seq()
                    == old(self).views_seq().remove(i)
            }),
            r is Ok ==> (if old(self).active() == Some(id@) {
                final(self).active() is None
            } else {
                final(self).active() == old(self).active()
            }),
            r matches Err(e) ==> e.id@ == id@ && final(self).order() == old(self).order()
                && final(self).views_seq() == old(self).views_seq() && final(self).active() == old(self).active(),
    {
        proof {
            if old(self).has_key(id@) {
                crate::lemma_unique_index(
                    old(self).order(),
                    id@,
                    old(self).order().index_of(id@),
                );
                old(self).order().index_of_first_ensures(id@);
                crate::lemma_unique_index(
                    old(self).order(),
                    id@,
                    old(self).order().index_of_first(id@).unwrap(),
                );
            } else {
                old(self).order().index_of_first_ensures(id@);
            }
        }
        self.bar.remove_button(id);
        self.tabs.remove_tab(id)
    }

    /// Exchange the display positions of `fst` and `snd`, in registry
    /// and bar alike; a no-op unless both keys are registered.
    pub fn swap_tabs(&mut self, fst: &str, snd: &str)
        requires
            old(self).wf(),
        ensures
            final(self).wf(),
            final(self).active() == old(self).active(),
            old(self).has_key(fst@) && old(self).has_key(snd@) ==> ({
                let i = old(self).order().index_of(fst@);
                let j = old(self).order().index_of(snd@);
                final(self).order() == old(self).order().update(i, old(self).order()[j]).update(
                    j,
                    old(self).order()[i],
                ) && final(self).views_seq() == old(self).views_seq().update(
                    i,
                    old(self).views_seq()[j],
                ).update(j, old(self).views_seq()[i])
            }),
            !(old(self).has_key(fst@) && old(self).has_key(snd@)) ==> final(self).order() == old(self).order() && final(self).views_seq() == old(self).views_seq(),
    {
        proof {
            old(self).order().index_of_first_ensures(fst@);
            old(self).order().index_of_first_ensures(snd@);
            if old(self).has_key(fst@) {
                crate::lemma_unique_index(
                    old(self).order(),
                    fst@,
                    old(self).order().index_of_first(fst@).unwrap(),
                );
            }
            if old(self).has_key(snd@) {
                crate::lemma_unique_index(
                    old(self).order(),
                    snd@,
                    old(self).order().index_of_first(snd@).unwrap(),
                );
            }
        }
        self.tabs.swap_tabs(fst, snd);
        self.bar.swap_button(fst, snd);
    }

    /// Advance the active tab to the next in display order, wrapping.
    pub fn next(&mut self)
        requires
            old(self).wf(),
        ensures
            final(self).wf(),
            final(self).order() == old(self).order(),
            final(self).views_seq() == old(self).views_seq(),
            old(self).active() is None ==> final(self).active() is None,
            old(self).active() matches Some(k) ==> ({
                let i = old(self).order().index_of(k);
                let n = old(self).order().len() as int;
                final(self).active() == Some(old(self).order()[crate::next_index(i, n)])
            }),
    {
        self.tabs.next()
    }

    /// Move the active tab back to the previous in display order,
    /// wrapping.
    pub fn prev(&mut self)
        requires
            old(self).wf(),
        ensures
            final(self).wf(),
            final(self).order() == old(self).order(),
            final(self).views_seq() == old(self).views_seq(),
            old(self).active() is None ==> final(self).active() is None,
            old(self).active() matches Some(k) ==> ({
                let i = old(self).order().index_of(k);
                let n = old(self).order().len() as int;
                final(self).active() == Some(old(self).order()[crate::prev_index(i, n)])
            }),
    {
        self.tabs.prev()
    }

    /// Set the bar alignment.
    pub fn set_bar_alignment(&mut self, align: Align)
        requires
            old(self).wf(),
        ensures
            final(self).wf(),
            final(self).spec_align() == align,
            final(self).spec_placement() == old(self).spec_placement(),
            final(self).registry() == old(self).registry(),
            final(self).bar_has_focus() == old(self).bar_has_focus(),
    {
        self.bar_align = align;
        self.bar.set_alignment(align);
    }

    /// Chainable variant of [`TabPanel::set_bar_alignment`].
    pub fn with_bar_alignment(self, align: Align) -> (r: TabPanel<V>)
        requires
            self.wf(),
        ensures
            r.wf(),
            r.spec_align() == align,
            r.spec_placement() == self.spec_placement(),
            r.registry() == self.registry(),
    {
        let mut s = self;
        s.set_bar_alignment(align);
        s
    }

    /// Set the edge the bar occupies.
    pub fn set_bar_placement(&mut self, placement: Placement)
        requires
            old(self).wf(),
        ensures
            final(self).wf(),
            final(self).spec_placement() == placement,
            final(self).spec_align() == old(self).spec_align(),
            final(self).registry() == old(self).registry(),
            final(self).bar_has_focus() == old(self).bar_has_focus(),
    {
        self.bar_placement = placement;
        self.bar.set_placement(placement);
    }

    /// Chainable variant of [`TabPanel::set_bar_placement`].
    pub fn with_bar_placement(self, placement: Placement) -> (r: TabPanel<V>)
        requires
            self.wf(),
        ensures
            r.wf(),
            r.spec_placement() == placement,
            r.spec_align() == self.spec_align(),
            r.registry() == self.registry(),
    {
        let mut s = self;
        s.set_bar_placement(placement);
        s
    }

    /// A copy of the current display order.
    pub fn tab_order(&self) -> (r: Vec<String>)
        ensures
            r@.len() == self.order().len(),
            forall|i: int| 0 <= i < r@.len() ==> r@[i]@ == self.order()[i],
    {
        self.tabs.tab_order()
    }

    /// Drain at most one pending bar request into the registry (see
    /// [`TabView::poll_bar_request`]); called once per layout pass,
    /// before the content view is measured.
    pub fn poll_bar_request(&mut self)
        requires
            old(self).wf(),
        ensures
            final(self).wf(),
            final(self).order() == old(self).order(),
            final(self).views_seq() == old(self).views_seq(),
            final(self).bar_state() == old(self).bar_state(),
            final(self).active() == old(self).active() || (final(self).active() matches Some(k)
                && old(self).has_key(k)),
    {
        self.tabs.poll_bar_request()
    }

    /// Whether the bar currently holds input focus.
    pub fn is_bar_focused(&self) -> (r: bool)
        ensures
            r == self.bar_has_focus(),
    {
        self.bar_focused
    }

    /// The enclosed selector bar, for rendering.
    pub fn selector_bar(&self) -> (r: &TabBar)
        ensures
            *r == self.bar_state(),
    {
        &self.bar
    }

    /// The bar's region size as of the last measuring pass.
    pub fn bar_region_size(&self) -> (r: XY)
        ensures
            r == self.spec_bar_size(),
    {
        self.bar_size
    }

    /// The content region size as of the last layout pass.
    pub fn tab_region_size(&self) -> (r: XY)
        ensures
            r == self.spec_tab_size(),
    {
        self.tab_size
    }

    /// The configured bar placement.
    pub fn bar_placement(&self) -> (r: Placement)
        ensures
            r == self.spec_placement(),
    {
        self.bar_placement
    }

    /// The configured bar alignment.
    pub fn bar_alignment(&self) -> (r: Align)
        ensures
            r == self.spec_align(),
    {
        self.bar_align
    }

    /// Measure the panel: recompute the bar's layout from the
    /// controls' sizes and combine it with the content's requirement
    /// along the axis the placement implies, plus a two-cell border.
    ///
    /// `tab_req` is the active view's required size, measured by the
    /// caller after [`TabPanel::poll_bar_request`]; `child_sizes` are
    /// the bar controls' required sizes, in display order.
    pub fn required_size(&mut self, cst: XY, tab_req: XY, child_sizes: &Vec<XY>) -> (r: XY)
        requires
            old(self).wf(),
            child_sizes@.len() == old(self).order().len(),
        ensures
            final(self).wf(),
            final(self).registry() == old(self).registry(),
            final(self).bar_state().keys() == old(self).bar_state().keys(),
            final(self).spec_placement() == old(self).spec_placement(),
            final(self).spec_align() == old(self).spec_align(),
            final(self).spec_tab_size() == old(self).spec_tab_size(),
            final(self).bar_has_focus() == old(self).bar_has_focus(),
            ({
                let horizontal = old(self).spec_placement().is_horizontal();
                let bs = if old(self).order().len() == 0 {
                    XY { x: 1usize, y: 1usize }
                } else if horizontal {
                    XY { x: cst.x, y: crate::bar::stack_run(child_sizes@, true).y }
                } else {
                    XY { x: crate::bar::stack_run(child_sizes@, false).x, y: cst.y }
                };
                final(self).spec_bar_size() == bs && r == (if horizontal {
                    crate::bar::stack_dir(
                        crate::bar::stack_dir(bs, tab_req, false),
                        XY { x: sat_add(tab_req.x as int, 2) as usize, y: 1usize },
                        false,
                    )
                } else {
                    crate::bar::stack_dir(
                        crate::bar::stack_dir(bs, tab_req, true),
                        XY { x: 1usize, y: sat_add(tab_req.y as int, 2) as usize },
                        false,
                    )
                })
            }),
    {
        let bs = self.bar.required_size(cst, child_sizes);
        self.bar_size = bs;
        if self.bar_placement.check_horizontal() {
            self.bar_size.stack_vertical(tab_req).stack_vertical(
                XY::new(tab_req.x.saturating_add(2), 1),
            )
        } else {
            self.bar_size.stack_horizontal(tab_req).stack_vertical(
                XY::new(1, tab_req.y.saturating_add(2)),
            )
        }
    }

    /// Partition the available size `vec` between bar and content:
    /// lay the bar out under its share and remember the content's
    /// share. Returns `(bar constraint, content size)`; the caller
    /// forwards the content size to the active view's own layout.
    pub fn layout(&mut self, vec: XY) -> (r: (XY, XY))
        requires
            old(self).wf(),
        ensures
            final(self).wf(),
            final(self).order() == old(self).order(),
            final(self).views_seq() == old(self).views_seq(),
            final(self).active() == old(self).active(),
            final(self).bar_state().keys() == old(self).bar_state().keys(),
            final(self).spec_placement() == old(self).spec_placement(),
            final(self).spec_align() == old(self).spec_align(),
            final(self).spec_bar_size() == old(self).spec_bar_size(),
            final(self).bar_has_focus() == old(self).bar_has_focus(),
            final(self).bar_state().spec_last_size() == r.0,
            r.0 == (if old(self).spec_placement().is_horizontal() {
                XY {
                    x: sat_sub(vec.x as int, 2) as usize,
                    y: old(self).spec_bar_size().y,
                }
            } else {
                XY {
                    x: old(self).spec_bar_size().x,
                    y: sat_sub(vec.y as int, 2) as usize,
                }
            }),
            r.1 == final(self).spec_tab_size(),
            final(self).spec_tab_size() == (if old(self).spec_placement().is_horizontal() {
                XY {
                    x: sat_sub(vec.x as int, 2) as usize,
                    y: sat_sub(sat_sub(vec.y as int, old(self).spec_bar_size().y as int), 1) as usize,
                }
            } else {
                XY {
                    x: sat_sub(sat_sub(vec.x as int, old(self).spec_bar_size().x as int), 1) as usize,
                    y: sat_sub(vec.y as int, 2) as usize,
                }
            }),
    {
        let horizontal = self.bar_placement.check_horizontal();
        let bar_cst = if horizontal {
            XY::new(vec.x.saturating_sub(2), self.bar_size.y)
        } else {
            XY::new(self.bar_size.x, vec.y.saturating_sub(2))
        };
        self.bar.layout(bar_cst);
        let ts = if horizontal {
            XY::new(vec.x.saturating_sub(2), vec.y.saturating_sub(self.bar_size.y).saturating_sub(1))
        } else {
            XY::new(vec.x.saturating_sub(self.bar_size.x).saturating_sub(1), vec.y.saturating_sub(2))
        };
        self.tab_size = ts;
        self.tabs.layout();
        (bar_cst, ts)
    }

    /// Whether bar or registry changed since the last layout pass (the
    /// active view may still want one for its own reasons).
    pub fn needs_relayout(&self) -> (r: bool)
        ensures
            r == (self.bar_state().needs_redraw() || self.registry().needs_redraw()),
    {
        self.bar.needs_relayout() || self.tabs.needs_relayout()
    }
}

impl<V> Default for TabPanel<V> {
    /// Same as [`TabPanel::new`].
    fn default() -> (r: TabPanel<V>)
        ensures
            r.wf(),
            r.order() == Seq::<Seq<char>>::empty(),
            r.views_seq() == Seq::<V>::empty(),
            r.active() is None,
            r.bar_has_focus(),
    {
        TabPanel::new()
    }
}

/// `v` clamped from above to `hi` (both already non-negative).
pub open spec fn clamp_hi(v: int, hi: int) -> int {
    if v > hi {
        hi
    } else {
        v
    }
}

impl<V> TabPanel<V> {
    /// The offset and crop of the bar's sub-region when the panel is
    /// drawn at `size`.
    pub fn bar_area(&self, size: XY) -> (r: (XY, XY))
        ensures
            r.0 == (match self.spec_placement() {
                Placement::HorizontalTop => XY { x: 1usize, y: 0usize },
                Placement::HorizontalBottom => XY {
                    x: 1usize,
                    y: clamp_hi(
                        sat_sub(size.y as int, self.spec_bar_size().y as int),
                        sat_sub(size.y as int, 1),
                    ) as usize,
                },
                Placement::VerticalLeft => XY { x: 0usize, y: 1usize },
                Placement::VerticalRight => XY {
                    x: clamp_hi(
                        sat_sub(size.x as int, self.spec_bar_size().x as int),
                        sat_sub(size.x as int, 1),
                    ) as usize,
                    y: 1usize,
                },
            }),
            r.1 == (if self.spec_placement().is_horizontal() {
                XY { x: sat_sub(size.x as int, 2) as usize, y: self.spec_bar_size().y }
            } else {
                XY { x: self.spec_bar_size().x, y: sat_sub(size.y as int, 2) as usize }
            }),
    {
        let off = match self.bar_placement {
            Placement::HorizontalTop => XY::new(1, 0),
            Placement::HorizontalBottom => XY::new(
                1,
                min_usize(size.y.saturating_sub(self.bar_size.y), size.y.saturating_sub(1)),
            ),
            Placement::VerticalLeft => XY::new(0, 1),
            Placement::VerticalRight => XY::new(
                min_usize(size.x.saturating_sub(self.bar_size.x), size.x.saturating_sub(1)),
                1,
            ),
        };
        let crop = if self.bar_placement.check_horizontal() {
            XY::new(size.x.saturating_sub(2), self.bar_size.y)
        } else {
            XY::new(self.bar_size.x, size.y.saturating_sub(2))
        };
        (off, crop)
    }

    /// The offset and crop of the content sub-region when the panel is
    /// drawn at `size`.
    pub fn tab_area(&self, size: XY) -> (r: (XY, XY))
        ensures
            r.0 == (match self.spec_placement() {
                Placement::HorizontalTop => XY { x: 1usize, y: self.spec_bar_size().y },
                Placement::VerticalLeft => XY { x: self.spec_bar_size().x, y: 1usize },
                Placement::HorizontalBottom | Placement::VerticalRight => XY {
                    x: 1usize,
                    y: 1usize,
                },
            }),
            r.1 == (if self.spec_placement().is_horizontal() {
                XY {
                    x: sat_sub(size.x as int, 2) as usize,
                    y: sat_sub(sat_sub(size.y as int, self.spec_bar_size().y as int), 1) as usize,
                }
            } else {
                XY {
                    x: sat_sub(sat_sub(size.x as int, self.spec_bar_size().x as int), 1) as usize,
                    y: sat_sub(size.y as int, 2) as usize,
                }
            }),
    {
        let off = match self.bar_placement {
            Placement::HorizontalTop => XY::new(1, self.bar_size.y),
            Placement::VerticalLeft => XY::new(self.bar_size.x, 1),
            Placement::HorizontalBottom | Placement::VerticalRight => XY::new(1, 1),
        };
        let crop = if self.bar_placement.check_horizontal() {
            XY::new(
                size.x.saturating_sub(2),
                size.y.saturating_sub(self.bar_size.y).saturating_sub(1),
            )
        } else {
            XY::new(
                size.x.saturating_sub(self.bar_size.x).saturating_sub(1),
                size.y.saturating_sub(2),
            )
        };
        (off, crop)
    }

    /// The four corners of the content frame when the panel is drawn
    /// at `size`, as `(top left, top right, bottom left, bottom
    /// right)`; the frame is open along the edge the bar occupies.
    pub fn frame_corners(&self, size: XY) -> (r: (XY, XY, XY, XY))
        ensures
            ({
                let right_x = sat_sub(size.x as int, 1) as usize;
                let bottom_y = sat_sub(size.y as int, 1) as usize;
                match self.spec_placement() {
                    Placement::HorizontalTop => {
                        let top_y = sat_sub(self.spec_bar_size().y as int, 1) as usize;
                        r == (
                            XY { x: 0usize, y: top_y },
                            XY { x: right_x, y: top_y },
                            XY { x: 0usize, y: bottom_y },
                            XY { x: right_x, y: bottom_y },
                        )
                    },
                    Placement::HorizontalBottom => {
                        let lowest = clamp_hi(
                            sat_sub(size.y as int, self.spec_bar_size().y as int),
                            sat_sub(size.y as int, 1),
                        ) as usize;
                        r == (
                            XY { x: 0usize, y: 0usize },
                            XY { x: right_x, y: 0usize },
                            XY { x: 0usize, y: lowest },
                            XY { x: right_x, y: lowest },
                        )
                    },
                    Placement::VerticalLeft => {
                        let left_x = sat_sub(self.spec_bar_size().x as int, 1) as usize;
                        r == (
                            XY { x: left_x, y: 0usize },
                            XY { x: right_x, y: 0usize },
                            XY { x: left_x, y: bottom_y },
                            XY { x: right_x, y: bottom_y },
                        )
                    },
                    Placement::VerticalRight => {
                        let right = clamp_hi(
                            sat_sub(size.x as int, self.spec_bar_size().x as int),
                            sat_sub(size.x as int, 1),
                        ) as usize;
                        r == (
                            XY { x: 0usize, y: 0usize },
                            XY { x: right, y: 0usize },
                            XY { x: 0usize, y: bottom_y },
                            XY { x: right, y: bottom_y },
                        )
                    },
                }
            }),
    {
        let right_x = size.x.saturating_sub(1);
        let bottom_y = size.y.saturating_sub(1);
        match self.bar_placement {
            Placement::HorizontalTop => {
                let top_y = self.bar_size.y.saturating_sub(1);
                (XY::new(0, top_y), XY::new(right_x, top_y), XY::new(0, bottom_y), XY::new(
                    right_x,
                    bottom_y,
                ))
            },
            Placement::HorizontalBottom => {
                let lowest = min_usize(size.y.saturating_sub(self.bar_size.y), bottom_y);
                (XY::new(0, 0), XY::new(right_x, 0), XY::new(0, lowest), XY::new(right_x, lowest))
            },
            Placement::VerticalLeft => {
                let left_x = self.bar_size.x.saturating_sub(1);
                (XY::new(left_x, 0), XY::new(right_x, 0), XY::new(left_x, bottom_y), XY::new(
                    right_x,
                    bottom_y,
                ))
            },
            Placement::VerticalRight => {
                let right = min_usize(size.x.saturating_sub(self.bar_size.x), right_x);
                (XY::new(0, 0), XY::new(right, 0), XY::new(0, bottom_y), XY::new(right, bottom_y))
            },
        }
    }
}

/// The smaller of two lengths.
fn min_usize(a: usize, b: usize) -> (r: usize)
    ensures
        r == clamp_hi(a as int, b as int),
{
    if a > b {
        b
    } else {
        a
    }
}

/// Whether a focus request from direction `d` is delegated to the
/// content view first: directions pointing from the bar's edge into
/// the content always are, directions along the bar's edge only when
/// the content already held focus.
pub open spec fn focus_asks_content(p: Placement, d: Direction, bar_focused: bool) -> bool {
    match p {
        Placement::HorizontalTop => d is Down || ((d is Left || d is Right) && !bar_focused),
        Placement::HorizontalBottom => d is Up || ((d is Left || d is Right) && !bar_focused),
        Placement::VerticalLeft => d is Right || ((d is Up || d is Down) && !bar_focused),
        Placement::VerticalRight => d is Left || ((d is Up || d is Down) && !bar_focused),
    }
}

/// Whether a focus request from direction `d` points toward the bar's
/// edge and therefore always selects the bar.
pub open spec fn focus_selects_bar(p: Placement, d: Direction) -> bool {
    match p {
        Placement::HorizontalTop => d is Up,
        Placement::HorizontalBottom => d is Down,
        Placement::VerticalLeft => d is Left,
        Placement::VerticalRight => d is Right,
    }
}

impl<V> TabPanel<V> {
    /// Which region a focus-grabbing pointer event lands in, by the
    /// placement-specific geometry of the last layout pass.
    pub open spec fn grab_decision(&self, offset: XY, position: XY) -> GrabTarget {
        if self.spec_placement() is VerticalRight || self.spec_placement() is HorizontalBottom {
            if position.strictly_gt(offset) && self.spec_tab_size().x >= position.x - offset.x
                && self.spec_tab_size().y >= position.y - offset.y {
                GrabTarget::Content
            } else {
                GrabTarget::Bar
            }
        } else {
            if position.fits(offset) && sat_sub(self.spec_bar_size().x as int, 1) >= position.x
                - offset.x && sat_sub(self.spec_bar_size().y as int, 1) >= position.y - offset.y {
                GrabTarget::Bar
            } else {
                GrabTarget::Content
            }
        }
    }

    /// Executable form of [`TabPanel::grab_decision`].
    fn check_grab(&self, offset: XY, position: XY) -> (r: GrabTarget)
        ensures
            r == self.grab_decision(offset, position),
    {
        match self.bar_placement {
            Placement::VerticalRight | Placement::HorizontalBottom => {
                if position.check_strictly_gt(offset) {
                    let rel = XY::new(position.x - offset.x, position.y - offset.y);
                    if self.tab_size.check_fits(rel) {
                        GrabTarget::Content
                    } else {
                        GrabTarget::Bar
                    }
                } else {
                    GrabTarget::Bar
                }
            },
            Placement::HorizontalTop | Placement::VerticalLeft => {
                if position.check_fits(offset) {
                    let rel = XY::new(position.x - offset.x, position.y - offset.y);
                    let inner = self.bar_size.minus(XY::new(1, 1));
                    if inner.check_fits(rel) {
                        GrabTarget::Bar
                    } else {
                        GrabTarget::Content
                    }
                } else {
                    GrabTarget::Content
                }
            },
        }
    }

    /// The direction a hand-off into the content arrives from.
    fn entry_dir(&self) -> (d: Direction)
        ensures
            d == content_entry_dir(self.spec_placement()),
    {
        match self.bar_placement {
            Placement::HorizontalTop => Direction::Up,
            Placement::HorizontalBottom => Direction::Down,
            Placement::VerticalLeft => Direction::Left,
            Placement::VerticalRight => Direction::Right,
        }
    }

    /// The offset for relativizing events handed to the bar.
    fn bar_offset(&self) -> (r: XY)
        ensures
            r == bar_evt_offset(self.spec_placement(), self.spec_tab_size()),
    {
        match self.bar_placement {
            Placement::HorizontalTop | Placement::VerticalLeft => XY::new(0, 0),
            Placement::HorizontalBottom => XY::new(0, self.tab_size.y.saturating_add(1)),
            Placement::VerticalRight => XY::new(self.tab_size.x.saturating_add(1), 0),
        }
    }

    /// The offset for relativizing events handed to the content.
    fn tab_offset(&self) -> (r: XY)
        ensures
            r == tab_evt_offset(self.spec_placement(), self.spec_bar_size()),
    {
        match self.bar_placement {
            Placement::HorizontalTop => XY::new(1, self.bar_size.y),
            Placement::VerticalLeft => XY::new(self.bar_size.x, 1),
            Placement::HorizontalBottom | Placement::VerticalRight => XY::new(1, 1),
        }
    }

    /// Route an event to whichever region holds focus.
    ///
    /// With the bar focused the bar handles it here; if the bar leaves
    /// it unhandled and it points into the content, the caller is
    /// asked to offer the content focus. With the content focused the
    /// event is handed out for forwarding. `base` is the grab phase's
    /// result, folded into the final one.
    fn route(&mut self, evt: &Event, base: EventResult) -> (s: EventStep)
        requires
            old(self).wf(),
        ensures
            final(self).wf(),
            final(self).registry() == old(self).registry(),
            final(self).bar_state().keys() == old(self).bar_state().keys(),
            final(self).bar_state().spec_active() == old(self).bar_state().spec_active(),
            final(self).spec_placement() == old(self).spec_placement(),
            final(self).spec_align() == old(self).spec_align(),
            final(self).spec_bar_size() == old(self).spec_bar_size(),
            final(self).spec_tab_size() == old(self).spec_tab_size(),
            final(self).bar_has_focus() == old(self).bar_has_focus(),
            !old(self).bar_has_focus() ==> *final(self) == *old(self) && s == (
            EventStep::ForwardToContent {
                evt: evt.spec_relativized(
                    tab_evt_offset(old(self).spec_placement(), old(self).spec_bar_size()),
                ),
                base,
            }),
            old(self).bar_has_focus() ==> ((toward_content_key(old(self).spec_placement(), *evt)
                ==> s == (EventStep::AskContentFocus {
                dir: content_entry_dir(old(self).spec_placement()),
            })) && (!toward_content_key(old(self).spec_placement(), *evt) ==> s is Done) && (
            s matches EventStep::Done(res) ==> (base is Consumed ==> res is Consumed))),
            old(self).bar_has_focus() ==> (*evt matches Event::Key(k) ==> ({
                let (nc, consumed) = bar_key_step(
                    old(self).bar_state().spec_cursor(),
                    old(self).bar_state().keys().len() as int,
                    old(self).spec_placement().is_horizontal(),
                    k,
                );
                final(self).bar_state().spec_cursor() == nc && (consumed ==> s == EventStep::Done(
                    EventResult::Consumed,
                )) && (!consumed && !toward_content_key(old(self).spec_placement(), *evt) ==> s
                    == EventStep::Done(base))
            })),
    {
        if self.bar_focused {
            let bar_off = self.bar_offset();
            let bar_evt = evt.relativized(bar_off);
            let br = self.bar.on_event(bar_evt);
            match br {
                EventResult::Consumed => {
                    proof {
                        assert(!toward_content_key(self.bar_placement, *evt));
                    }
                    EventStep::Done(EventResult::Consumed)
                },
                EventResult::Ignored => {
                    let is_away = match (*evt, self.bar_placement) {
                        (Event::Key(Key::Down), Placement::HorizontalTop) => true,
                        (Event::Key(Key::Up), Placement::HorizontalBottom) => true,
                        (Event::Key(Key::Right), Placement::VerticalLeft) => true,
                        (Event::Key(Key::Left), Placement::VerticalRight) => true,
                        _ => false,
                    };
                    if is_away {
                        EventStep::AskContentFocus { dir: self.entry_dir() }
                    } else {
                        EventStep::Done(base)
                    }
                },
            }
        } else {
            let off = self.tab_offset();
            EventStep::ForwardToContent { evt: evt.relativized(off), base }
        }
    }

    /// Handle one input event, as far as the panel can on its own.
    ///
    /// A refresh is consumed outright (the caller forwards it to both
    /// regions). A focus-grabbing pointer event first moves focus to
    /// the region under it — via the caller when that region is the
    /// content. The event is then routed to the focused region; see
    /// [`TabPanel::route`]'s step values for what the caller does with
    /// the returned step.
    pub fn on_event(&mut self, evt: &Event) -> (s: EventStep)
        requires
            old(self).wf(),
        ensures
            final(self).wf(),
            final(self).registry() == old(self).registry(),
            final(self).bar_state().keys() == old(self).bar_state().keys(),
            final(self).bar_state().spec_active() == old(self).bar_state().spec_active(),
            final(self).spec_placement() == old(self).spec_placement(),
            final(self).spec_align() == old(self).spec_align(),
            final(self).spec_bar_size() == old(self).spec_bar_size(),
            final(self).spec_tab_size() == old(self).spec_tab_size(),
            *evt == Event::Refresh ==> s == EventStep::Done(EventResult::Consumed) && *final(self)
                == *old(self),
            old(self).bar_has_focus() ==> (*evt matches Event::Key(k) ==> ({
                let (nc, consumed) = bar_key_step(
                    old(self).bar_state().spec_cursor(),
                    old(self).bar_state().keys().len() as int,
                    old(self).spec_placement().is_horizontal(),
                    k,
                );
                final(self).bar_state().spec_cursor() == nc && (consumed ==> s == EventStep::Done(
                    EventResult::Consumed,
                )) && (!consumed && !toward_content_key(old(self).spec_placement(), *evt) ==> s
                    == EventStep::Done(EventResult::Ignored))
            })),
            (match *evt {
                Event::Mouse { offset, position, kind } => if kind.grabs_focus() {
                    match old(self).grab_decision(offset, position) {
                        GrabTarget::Bar => final(self).bar_has_focus() && s is Done,
                        GrabTarget::Content => s == EventStep::AskContentGrab && final(self).bar_has_focus() == old(self).bar_has_focus(),
                    }
                } else {
                    final(self).bar_has_focus() == old(self).bar_has_focus() && (if old(self).bar_has_focus() {
                        s is Done
                    } else {
                        s == (EventStep::ForwardToContent {
                            evt: evt.spec_relativized(
                                tab_evt_offset(
                                    old(self).spec_placement(),
                                    old(self).spec_bar_size(),
                                ),
                            ),
                            base: EventResult::Ignored,
                        })
                    })
                },
                Event::Key(_) | Event::Other => final(self).bar_has_focus() == old(self).bar_has_focus() && (if old(self).bar_has_focus() {
                    (toward_content_key(old(self).spec_placement(), *evt) ==> s == (
                    EventStep::AskContentFocus {
                        dir: content_entry_dir(old(self).spec_placement()),
                    })) && (!toward_content_key(old(self).spec_placement(), *evt) ==> s is Done)
                } else {
                    s == (EventStep::ForwardToContent {
                        evt: evt.spec_relativized(
                            tab_evt_offset(old(self).spec_placement(), old(self).spec_bar_size()),
                        ),
                        base: EventResult::Ignored,
                    })
                }),
                Event::Refresh => s == EventStep::Done(EventResult::Consumed),
            }),
    {
        if let Event::Refresh = evt {
            return EventStep::Done(EventResult::Consumed);
        }
        if let Event::Mouse { offset, position, kind } = evt {
            let grabs = match kind {
                MouseKind::Press => true,
                _ => false,
            };
            if grabs {
                match self.check_grab(*offset, *position) {
                    GrabTarget::Bar => {
                        self.bar_focused = true;
                    },
                    GrabTarget::Content => {
                        return EventStep::AskContentGrab;
                    },
                }
            }
        }
        self.route(evt, EventResult::Ignored)
    }

    /// Resume [`TabPanel::on_event`] after an `AskContentGrab` step:
    /// `accepted` says whether the content view took the focus. On
    /// acceptance the content becomes the focused region and the grab
    /// counts as consumed; either way the event is then routed.
    pub fn on_grab_resolved(&mut self, evt: &Event, accepted: bool) -> (s: EventStep)
        requires
            old(self).wf(),
        ensures
            final(self).wf(),
            final(self).registry() == old(self).registry(),
            final(self).bar_state().keys() == old(self).bar_state().keys(),
            final(self).bar_state().spec_active() == old(self).bar_state().spec_active(),
            final(self).spec_placement() == old(self).spec_placement(),
            final(self).spec_align() == old(self).spec_align(),
            final(self).spec_bar_size() == old(self).spec_bar_size(),
            final(self).spec_tab_size() == old(self).spec_tab_size(),
            accepted ==> !final(self).bar_has_focus() && s == (EventStep::ForwardToContent {
                evt: evt.spec_relativized(
                    tab_evt_offset(old(self).spec_placement(), old(self).spec_bar_size()),
                ),
                base: EventResult::Consumed,
            }),
            !accepted ==> final(self).bar_has_focus() == old(self).bar_has_focus() && (if old(self).bar_has_focus() {
                (toward_content_key(old(self).spec_placement(), *evt) ==> s == (
                EventStep::AskContentFocus {
                    dir: content_entry_dir(old(self).spec_placement()),
                })) && (!toward_content_key(old(self).spec_placement(), *evt) ==> s is Done)
            } else {
                s == (EventStep::ForwardToContent {
                    evt: evt.spec_relativized(
                        tab_evt_offset(old(self).spec_placement(), old(self).spec_bar_size()),
                    ),
                    base: EventResult::Ignored,
                })
            }),
            !accepted && old(self).bar_has_focus() ==> (*evt matches Event::Key(k) ==> ({
                let (nc, consumed) = bar_key_step(
                    old(self).bar_state().spec_cursor(),
                    old(self).bar_state().keys().len() as int,
                    old(self).spec_placement().is_horizontal(),
                    k,
                );
                final(self).bar_state().spec_cursor() == nc && (consumed ==> s == EventStep::Done(
                    EventResult::Consumed,
                )) && (!consumed && !toward_content_key(old(self).spec_placement(), *evt) ==> s
                    == EventStep::Done(EventResult::Ignored))
            })),
    {
        let base = if accepted {
            self.bar_focused = false;
            EventResult::Consumed
        } else {
            EventResult::Ignored
        };
        self.route(evt, base)
    }

    /// Resume [`TabPanel::on_event`] after an `AskContentFocus` step:
    /// if the content accepted the focus, it becomes the focused
    /// region and the event is consumed; otherwise nothing changes and
    /// the event stays unconsumed.
    pub fn on_focus_resolved(&mut self, accepted: bool) -> (r: EventResult)
        requires
            old(self).wf(),
        ensures
            final(self).wf(),
            final(self).registry() == old(self).registry(),
            final(self).bar_state() == old(self).bar_state(),
            final(self).spec_placement() == old(self).spec_placement(),
            final(self).spec_align() == old(self).spec_align(),
            final(self).spec_bar_size() == old(self).spec_bar_size(),
            final(self).spec_tab_size() == old(self).spec_tab_size(),
            accepted ==> !final(self).bar_has_focus() && r is Consumed,
            !accepted ==> *final(self) == *old(self) && r is Ignored,
    {
        if accepted {
            self.bar_focused = false;
            EventResult::Consumed
        } else {
            EventResult::Ignored
        }
    }

    /// Resume [`TabPanel::on_event`] after a `ForwardToContent` step:
    /// `consumed` says whether the content view consumed the forwarded
    /// event, `evt` is the original (panel-relative) event and `base`
    /// the step's carried result. An unconsumed key toward the bar's
    /// edge moves focus back to the bar unconditionally.
    pub fn on_content_resolved(&mut self, evt: &Event, consumed: bool, base: EventResult) -> (r:
        EventResult)
        requires
            old(self).wf(),
        ensures
            final(self).wf(),
            final(self).registry() == old(self).registry(),
            final(self).bar_state() == old(self).bar_state(),
            final(self).spec_placement() == old(self).spec_placement(),
            final(self).spec_align() == old(self).spec_align(),
            final(self).spec_bar_size() == old(self).spec_bar_size(),
            final(self).spec_tab_size() == old(self).spec_tab_size(),
            consumed ==> *final(self) == *old(self) && r is Consumed,
            !consumed ==> ((toward_bar_key(old(self).spec_placement(), *evt) ==> final(self).bar_has_focus() && r is Consumed) && (!toward_bar_key(
                old(self).spec_placement(),
                *evt,
            ) ==> *final(self) == *old(self) && (r is Consumed <==> base is Consumed))),
    {
        if consumed {
            return base.and(EventResult::Consumed);
        }
        let to_bar = match (*evt, self.bar_placement) {
            (Event::Key(Key::Up), Placement::HorizontalTop) => true,
            (Event::Key(Key::Down), Placement::HorizontalBottom) => true,
            (Event::Key(Key::Left), Placement::VerticalLeft) => true,
            (Event::Key(Key::Right), Placement::VerticalRight) => true,
            _ => false,
        };
        if to_bar {
            self.bar_focused = true;
            base.and(EventResult::Consumed)
        } else {
            base.and(EventResult::Ignored)
        }
    }

    /// Handle a focus request from the host, arriving from direction
    /// `d`.
    ///
    /// Directions pointing into the content are delegated to the
    /// content view first (`AskContent`); the direction toward the
    /// bar's edge always selects the bar; anything else leaves the
    /// focus split as it is. The panel itself always accepts focus.
    pub fn take_focus(&mut self, d: Direction) -> (s: TakeFocusStep)
        requires
            old(self).wf(),
        ensures
            final(self).wf(),
            final(self).registry() == old(self).registry(),
            final(self).bar_state() == old(self).bar_state(),
            final(self).spec_placement() == old(self).spec_placement(),
            final(self).spec_align() == old(self).spec_align(),
            final(self).spec_bar_size() == old(self).spec_bar_size(),
            final(self).spec_tab_size() == old(self).spec_tab_size(),
            focus_asks_content(old(self).spec_placement(), d, old(self).bar_has_focus()) ==> s == (
            TakeFocusStep::AskContent { dir: d }) && *final(self) == *old(self),
            !focus_asks_content(old(self).spec_placement(), d, old(self).bar_has_focus())
                && focus_selects_bar(old(self).spec_placement(), d) ==> final(self).bar_has_focus()
                && s == TakeFocusStep::Done(EventResult::Consumed),
            !focus_asks_content(old(self).spec_placement(), d, old(self).bar_has_focus())
                && !focus_selects_bar(old(self).spec_placement(), d) ==> *final(self) == *old(self)
                && s == TakeFocusStep::Done(EventResult::Consumed),
    {
        let asks = match self.bar_placement {
            Placement::HorizontalTop => match d {
                Direction::Down => true,
                Direction::Left | Direction::Right => !self.bar_focused,
                _ => false,
            },
            Placement::HorizontalBottom => match d {
                Direction::Up => true,
                Direction::Left | Direction::Right => !self.bar_focused,
                _ => false,
            },
            Placement::VerticalLeft => match d {
                Direction::Right => true,
                Direction::Up | Direction::Down => !self.bar_focused,
                _ => false,
            },
            Placement::VerticalRight => match d {
                Direction::Left => true,
                Direction::Up | Direction::Down => !self.bar_focused,
                _ => false,
            },
        };
        if asks {
            return TakeFocusStep::AskContent { dir: d };
        }
        let selects_bar = match (self.bar_placement, d) {
            (Placement::HorizontalTop, Direction::Up) => true,
            (Placement::HorizontalBottom, Direction::Down) => true,
            (Placement::VerticalLeft, Direction::Left) => true,
            (Placement::VerticalRight, Direction::Right) => true,
            _ => false,
        };
        if selects_bar {
            self.bar_focused = true;
        }
        TakeFocusStep::Done(EventResult::Consumed)
    }

    /// Resume [`TabPanel::take_focus`] after an `AskContent` step: on
    /// acceptance the content holds focus, on refusal the bar does.
    pub fn on_take_focus_resolved(&mut self, accepted: bool) -> (r: EventResult)
        requires
            old(self).wf(),
        ensures
            final(self).wf(),
            final(self).registry() == old(self).registry(),
            final(self).bar_state() == old(self).bar_state(),
            final(self).spec_placement() == old(self).spec_placement(),
            final(self).spec_align() == old(self).spec_align(),
            final(self).spec_bar_size() == old(self).spec_bar_size(),
            final(self).spec_tab_size() == old(self).spec_tab_size(),
            accepted ==> !final(self).bar_has_focus() && r is Consumed,
            !accepted ==> final(self).bar_has_focus() && r is Ignored,
    {
        if accepted {
            self.bar_focused = false;
            EventResult::Consumed
        } else {
            self.bar_focused = true;
            EventResult::Ignored
        }
    }
}

} // verus!
