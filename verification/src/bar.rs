//! The selector bar: one selectable control per registered key.
//!
//! The bar tracks two independent indices: the *cursor* (which control
//! keyboard focus is on) and the *active* index (which control is
//! highlighted as the displayed tab). It computes its own layout from
//! the controls' sizes, hit-tests pointer events against the computed
//! positions, and receives active-key updates over a channel.

use vstd::prelude::*;
use crate::chan;
use crate::event::{Event, EventResult, Key, MouseKind};
use crate::geometry::{sat_add, spec_max, XY};
use crate::panel::{spec_offset, Align, Placement};

verus! {

/// The structural operations a selector bar offers; `tx` is the sender
/// a control uses to announce its key when activated.
pub trait Bar {
    fn add_button(&mut self, tx: crossbeam::channel::Sender<String>, key: String);

    fn remove_button(&mut self, key: &str);

    fn swap_button(&mut self, left: &str, right: &str);

    fn add_button_at(&mut self, tx: crossbeam::channel::Sender<String>, key: String, pos: usize);
}

/// One control of the bar: its key, the sender its activation fires,
/// and its position as of the last layout pass (a render-time cache).
struct ButtonEntry {
    key: String,
    tx: crossbeam::channel::Sender<String>,
    pos: XY,
}

/// Accumulate `s` onto `acc` along the bar's primary axis.
pub open spec fn stack_dir(acc: XY, s: XY, horizontal: bool) -> XY {
    if horizontal {
        XY { x: sat_add(acc.x as int, s.x as int) as usize, y: spec_max(acc.y as int, s.y as int) as usize }
    } else {
        XY { x: spec_max(acc.x as int, s.x as int) as usize, y: sat_add(acc.y as int, s.y as int) as usize }
    }
}

/// The total extent of a run of control sizes along the bar's primary
/// axis (the transverse component is the maximum over the run).
pub open spec fn stack_run(sizes: Seq<XY>, horizontal: bool) -> XY
    decreases sizes.len(),
{
    if sizes.len() == 0 {
        XY { x: 0usize, y: 0usize }
    } else {
        stack_dir(stack_run(sizes.drop_last(), horizontal), sizes.last(), horizontal)
    }
}

/// The selector bar.
pub struct TabBar {
    children: Vec<ButtonEntry>,
    bar_size: XY,
    align: Align,
    last_rendered_size: XY,
    // the controls' sizes as of the last layout pass
    sizes: Vec<XY>,
    placement: Placement,
    cursor: Option<usize>,
    active: Option<usize>,
    rx: crossbeam::channel::Receiver<String>,
    invalidated: bool,
}

impl TabBar {
    /// The keys of the controls, in bar order.
    pub closed spec fn keys(&self) -> Seq<Seq<char>> {
        self.children@.map_values(|b: ButtonEntry| b.key@)
    }

    /// The control with keyboard focus, if any.
    pub closed spec fn spec_cursor(&self) -> Option<int> {
        match self.cursor {
            Some(i) => Some(i as int),
            None => None,
        }
    }

    /// The highlighted (active-tab) control, if any.
    pub closed spec fn spec_active(&self) -> Option<int> {
        match self.active {
            Some(i) => Some(i as int),
            None => None,
        }
    }

    /// The control sizes cached by the last layout pass.
    pub closed spec fn spec_sizes(&self) -> Seq<XY> {
        self.sizes@
    }

    /// The control positions cached by the last layout pass: entry `i`
    /// holds the run of sizes `0..=i` stacked along the primary axis.
    pub closed spec fn spec_positions(&self) -> Seq<XY> {
        self.children@.map_values(|b: ButtonEntry| b.pos)
    }

    /// The total extent of all controls, from the last layout pass.
    pub closed spec fn spec_bar_size(&self) -> XY {
        self.bar_size
    }

    /// The configured alignment.
    pub closed spec fn spec_align(&self) -> Align {
        self.align
    }

    /// The configured placement.
    pub closed spec fn spec_placement(&self) -> Placement {
        self.placement
    }

    /// The size most recently given to [`TabBar::layout`].
    pub closed spec fn spec_last_size(&self) -> XY {
        self.last_rendered_size
    }

    /// Whether the bar changed since the last layout pass.
    pub closed spec fn needs_redraw(&self) -> bool {
        self.invalidated
    }

    /// The bar invariant: cursor and active index, when present, name
    /// an existing control.
    pub open spec fn wf(&self) -> bool {
        &&& (self.spec_cursor() matches Some(i) ==> 0 <= i < self.keys().len())
        &&& (self.spec_active() matches Some(i) ==> 0 <= i < self.keys().len())
    }

    /// A bar with no controls, listening on `rx` for active-key
    /// updates; placed horizontally on top, aligned to the start.
    pub fn new(rx: crossbeam::channel::Receiver<String>) -> (r: TabBar)
        ensures
            r.wf(),
            r.keys() == Seq::<Seq<char>>::empty(),
            r.spec_cursor() is None,
            r.spec_active() is None,
            r.spec_align() == Align::Start,
            r.spec_placement() == Placement::HorizontalTop,
            r.spec_bar_size() == (XY { x: 0usize, y: 0usize }),
            r.spec_last_size() == (XY { x: 0usize, y: 0usize }),
            r.needs_redraw(),
    {
        let r = TabBar {
            children: Vec::new(),
            sizes: Vec::new(),
            cursor: None,
            active: None,
            align: Align::Start,
            placement: Placement::HorizontalTop,
            bar_size: XY::zero(),
            last_rendered_size: XY::zero(),
            rx,
            invalidated: true,
        };
        proof {
            assert(r.keys() =~= Seq::<Seq<char>>::empty());
        }
        r
    }

    /// Chainable variant of [`TabBar::set_alignment`].
    pub fn with_alignment(self, align: Align) -> (r: TabBar)
        ensures
            r.spec_align() == align,
            r.needs_redraw(),
            r.keys() == self.keys(),
            r.spec_cursor() == self.spec_cursor(),
            r.spec_active() == self.spec_active(),
            r.spec_placement() == self.spec_placement(),
            r.spec_sizes() == self.spec_sizes(),
            r.spec_positions() == self.spec_positions(),
            r.spec_bar_size() == self.spec_bar_size(),
            r.spec_last_size() == self.spec_last_size(),
            self.wf() ==> r.wf(),
    {
        let mut s = self;
        s.align = align;
        s.invalidated = true;
        s
    }

    /// Set the alignment; the cached layout becomes stale.
    pub fn set_alignment(&mut self, align: Align)
        ensures
            final(self).spec_align() == align,
            final(self).needs_redraw(),
            final(self).spec_placement() == old(self).spec_placement(),
            final(self).keys() == old(self).keys(),
            final(self).spec_cursor() == old(self).spec_cursor(),
            final(self).spec_active() == old(self).spec_active(),
            final(self).spec_sizes() == old(self).spec_sizes(),
            final(self).spec_positions() == old(self).spec_positions(),
            final(self).spec_bar_size() == old(self).spec_bar_size(),
            final(self).spec_last_size() == old(self).spec_last_size(),
            old(self).wf() ==> final(self).wf(),
    {
        self.align = align;
        self.invalidated = true;
    }

    /// Chainable variant of [`TabBar::set_placement`].
    pub fn with_placement(self, placement: Placement) -> (r: TabBar)
        ensures
            r.spec_placement() == placement,
            r.needs_redraw(),
            r.keys() == self.keys(),
            r.spec_cursor() == self.spec_cursor(),
            r.spec_active() == self.spec_active(),
            r.spec_align() == self.spec_align(),
            r.spec_sizes() == self.spec_sizes(),
            r.spec_positions() == self.spec_positions(),
            r.spec_bar_size() == self.spec_bar_size(),
            r.spec_last_size() == self.spec_last_size(),
            self.wf() ==> r.wf(),
    {
        let mut s = self;
        s.placement = placement;
        s.invalidated = true;
        s
    }

    /// Set the placement; the cached layout becomes stale.
    pub fn set_placement(&mut self, placement: Placement)
        ensures
            final(self).spec_placement() == placement,
            final(self).needs_redraw(),
            final(self).spec_align() == old(self).spec_align(),
            final(self).keys() == old(self).keys(),
            final(self).spec_cursor() == old(self).spec_cursor(),
            final(self).spec_active() == old(self).spec_active(),
            final(self).spec_sizes() == old(self).spec_sizes(),
            final(self).spec_positions() == old(self).spec_positions(),
            final(self).spec_bar_size() == old(self).spec_bar_size(),
            final(self).spec_last_size() == old(self).spec_last_size(),
            old(self).wf() ==> final(self).wf(),
    {
        self.placement = placement;
        self.invalidated = true;
    }

    /// Move the keyboard cursor one control back, clamped at the first
    /// control (no wraparound); consumed exactly when it moved.
    fn decrement_idx(&mut self) -> (r: EventResult)
        requires
            old(self).wf(),
        ensures
            final(self).wf(),
            final(self).keys() == old(self).keys(),
            final(self).spec_active() == old(self).spec_active(),
            final(self).spec_align() == old(self).spec_align(),
            final(self).spec_placement() == old(self).spec_placement(),
            final(self).spec_sizes() == old(self).spec_sizes(),
            final(self).spec_positions() == old(self).spec_positions(),
            final(self).spec_bar_size() == old(self).spec_bar_size(),
            final(self).spec_last_size() == old(self).spec_last_size(),
            match old(self).spec_cursor() {
                Some(i) => if i > 0 {
                    r is Consumed && final(self).spec_cursor() == Some(i - 1) && final(self).needs_redraw()
                } else {
                    r is Ignored && *final(self) == *old(self)
                },
                None => r is Ignored && *final(self) == *old(self),
            },
    {
        if let Some(index) = self.cursor {
            if index > 0 {
                self.cursor = Some(index - 1);
                self.invalidated = true;
                EventResult::Consumed
            } else {
                EventResult::Ignored
            }
        } else {
            EventResult::Ignored
        }
    }

    /// Move the keyboard cursor one control forward, clamped at the
    /// last control (no wraparound); consumed exactly when it moved.
    fn increment_idx(&mut self) -> (r: EventResult)
        requires
            old(self).wf(),
        ensures
            final(self).wf(),
            final(self).keys() == old(self).keys(),
            final(self).spec_active() == old(self).spec_active(),
            final(self).spec_align() == old(self).spec_align(),
            final(self).spec_placement() == old(self).spec_placement(),
            final(self).spec_sizes() == old(self).spec_sizes(),
            final(self).spec_positions() == old(self).spec_positions(),
            final(self).spec_bar_size() == old(self).spec_bar_size(),
            final(self).spec_last_size() == old(self).spec_last_size(),
            match old(self).spec_cursor() {
                Some(i) => if i + 1 < old(self).keys().len() {
                    r is Consumed && final(self).spec_cursor() == Some(i + 1) && final(self).needs_redraw()
                } else {
                    r is Ignored && *final(self) == *old(self)
                },
                None => r is Ignored && *final(self) == *old(self),
            },
    {
        if let Some(index) = self.cursor {
            let n = self.children.len();
            proof {
                assert(self.spec_cursor() == Some(index as int));
                assert(index < n);
            }
            if index + 1 < n {
                self.cursor = Some(index + 1);
                self.invalidated = true;
                EventResult::Consumed
            } else {
                EventResult::Ignored
            }
        } else {
            EventResult::Ignored
        }
    }

    /// Append a control for `key`; activating it will send `key` on
    /// `tx`. The new control takes both the cursor and the highlight.
    pub fn add_button(&mut self, tx: crossbeam::channel::Sender<String>, key: String)
        requires
            old(self).wf(),
        ensures
            final(self).wf(),
            final(self).keys() == old(self).keys().push(key@),
            final(self).spec_cursor() == Some(old(self).keys().len() as int),
            final(self).spec_active() == Some(old(self).keys().len() as int),
            final(self).spec_align() == old(self).spec_align(),
            final(self).spec_placement() == old(self).spec_placement(),
            final(self).needs_redraw(),
    {
        let ghost pre = *self;
        self.children.push(ButtonEntry { key, tx, pos: XY::zero() });
        self.cursor = Some(self.children.len() - 1);
        self.active = Some(self.children.len() - 1);
        self.invalidated = true;
        proof {
            assert(self.keys() =~= pre.keys().push(key@));
        }
    }

    /// Insert a control for `key` at position `pos` (clamped to the
    /// end); the new control takes both the cursor and the highlight.
    pub fn add_button_at(&mut self, tx: crossbeam::channel::Sender<String>, key: String, pos: usize)
        requires
            old(self).wf(),
        ensures
            final(self).wf(),
            ({
                let p = crate::clamped(pos as int, old(self).keys().len() as int);
                final(self).keys() == old(self).keys().insert(p, key@) && final(self).spec_cursor()
                    == Some(p) && final(self).spec_active() == Some(p)
            }),
            final(self).spec_align() == old(self).spec_align(),
            final(self).spec_placement() == old(self).spec_placement(),
            final(self).needs_redraw(),
    {
        let ghost pre = *self;
        let p = if pos < self.children.len() {
            pos
        } else {
            self.children.len()
        };
        self.cursor = Some(p);
        self.active = Some(p);
        self.children.insert(p, ButtonEntry { key, tx, pos: XY::zero() });
        self.invalidated = true;
        proof {
            assert(self.keys() =~= pre.keys().insert(p as int, key@));
        }
    }

    /// Remove the first control whose key is `key`, if any.
    ///
    /// Cursor and highlight slide across the removal: an index past the
    /// removed position moves back by one so it keeps naming the same
    /// control, and one naming the removed control is cleared.
    pub fn remove_button(&mut self, key: &str)
        requires
            old(self).wf(),
        ensures
            final(self).wf(),
            final(self).spec_align() == old(self).spec_align(),
            final(self).spec_placement() == old(self).spec_placement(),
            final(self).needs_redraw(),
            !old(self).keys().contains(key@) ==> final(self).keys() == old(self).keys() && final(self).spec_cursor() == old(self).spec_cursor() && final(self).spec_active() == old(self).spec_active(),
            old(self).keys().contains(key@) ==> ({
                let i = old(self).keys().index_of_first(key@).unwrap();
                final(self).keys() == old(self).keys().remove(i) && final(self).spec_cursor()
                    == shift_index(old(self).spec_cursor(), i) && final(self).spec_active()
                    == shift_index(old(self).spec_active(), i)
            }),
    {
        let k: String = key.to_owned();
        proof {
            old(self).keys().index_of_first_ensures(k@);
        }
        if let Some(pos) = self.find_first(&k) {
            let ghost pre = *self;
            if let Some(idx) = self.cursor {
                if idx == pos {
                    self.cursor = None;
                } else if idx > pos {
                    self.cursor = Some(idx - 1);
                }
            }
            match self.active {
                Some(a) if a == pos => {
                    self.active = None;
                },
                Some(a) if a > pos => {
                    self.active = Some(a - 1);
                },
                _ => {},
            }
            self.children.remove(pos);
            proof {
                assert(self.keys() =~= pre.keys().remove(pos as int));
            }
        }
        self.invalidated = true;
    }

    /// Exchange the positions of the controls keyed `left` and `right`;
    /// a no-op unless both are present. Cursor and highlight indices
    /// are not remapped (they keep naming positions, as the bar is
    /// rebuilt or re-notified by its owner after structural changes).
    pub fn swap_button(&mut self, left: &str, right: &str)
        requires
            old(self).wf(),
        ensures
            final(self).wf(),
            final(self).spec_cursor() == old(self).spec_cursor(),
            final(self).spec_active() == old(self).spec_active(),
            final(self).spec_align() == old(self).spec_align(),
            final(self).spec_placement() == old(self).spec_placement(),
            final(self).needs_redraw(),
            old(self).keys().contains(left@) && old(self).keys().contains(right@) ==> ({
                let i = old(self).keys().index_of_first(left@).unwrap();
                let j = old(self).keys().index_of_first(right@).unwrap();
                final(self).keys() == old(self).keys().update(i, old(self).keys()[j]).update(
                    j,
                    old(self).keys()[i],
                )
            }),
            !(old(self).keys().contains(left@) && old(self).keys().contains(right@)) ==> final(self).keys() == old(self).keys(),
    {
        let kl: String = left.to_owned();
        let kr: String = right.to_owned();
        let li = self.find_first(&kl);
        let ri = self.find_first(&kr);
        proof {
            old(self).keys().index_of_first_ensures(kl@);
            old(self).keys().index_of_first_ensures(kr@);
        }
        if let (Some(i), Some(j)) = (li, ri) {
            if i != j {
                let ghost pre = *self;
                let a = if i < j {
                    i
                } else {
                    j
                };
                let b = if i < j {
                    j
                } else {
                    i
                };
                let eb = self.children.remove(b);
                let ea = self.children.remove(a);
                self.children.insert(a, eb);
                self.children.insert(b, ea);
                proof {
                    assert(self.children@ =~= pre.children@.update(
                        a as int,
                        pre.children@[b as int],
                    ).update(b as int, pre.children@[a as int]));
                    assert(self.keys() =~= pre.keys().update(i as int, pre.keys()[j as int]).update(
                        j as int,
                        pre.keys()[i as int],
                    ));
                }
            } else {
                proof {
                    assert(self.keys().update(i as int, self.keys()[j as int]).update(
                        j as int,
                        self.keys()[i as int],
                    ) =~= self.keys());
                }
            }
        }
        self.invalidated = true;
    }

    /// The position of the first control keyed `key`, if any.
    fn find_first(&self, key: &String) -> (r: Option<usize>)
        ensures
            r matches Some(i) ==> self.keys().index_of_first(key@) == Some(i as int),
            r is Some <==> self.keys().contains(key@),
    {
        proof {
            self.keys().index_of_first_ensures(key@);
        }
        let mut i: usize = 0;
        while i < self.children.len()
            invariant
                i <= self.children.len(),
                forall|j: int| 0 <= j < i ==> self.keys()[j] != key@,
            decreases self.children.len() - i,
        {
            if self.children[i].key == *key {
                proof {
                    assert(self.keys().contains(key@)) by {
                        assert(self.keys()[i as int] == key@);
                    }
                    self.keys().index_of_first_ensures(key@);
                    let fi = self.keys().index_of_first(key@).unwrap();
                    assert(fi == i) by {
                        if fi < i {
                            assert(self.keys()[fi] == key@);
                            assert(false);
                        }
                        if fi > i {
                            assert(self.keys()[i as int] != key@);
                            assert(false);
                        }
                    }
                }
                return Some(i);
            }
            i += 1;
        }
        None
    }
}

impl TabBar {
    /// Drain the notification channel down to the most recent pending
    /// message, if any, and move the highlight to the control with that
    /// key (every matching control, last match winning, as a bar built
    /// by hand may carry duplicate keys).
    ///
    /// Older queued messages are discarded on purpose: only the latest
    /// active key matters, and several may pile up before the first
    /// layout pass.
    fn poll_highlight(&mut self)
        requires
            old(self).wf(),
        ensures
            final(self).wf(),
            final(self).keys() == old(self).keys(),
            final(self).spec_cursor() == old(self).spec_cursor(),
            final(self).spec_sizes() == old(self).spec_sizes(),
            final(self).spec_positions() == old(self).spec_positions(),
            final(self).spec_bar_size() == old(self).spec_bar_size(),
            final(self).spec_align() == old(self).spec_align(),
            final(self).spec_placement() == old(self).spec_placement(),
            final(self).spec_last_size() == old(self).spec_last_size(),
            final(self).spec_active() == old(self).spec_active() || (final(self).spec_active()
                matches Some(i) && 0 <= i < old(self).keys().len()),
            old(self).needs_redraw() ==> final(self).needs_redraw(),
    {
        let mut extra = chan::pending_keys(&self.rx);
        while extra > 1
            decreases extra,
        {
            let _ = chan::try_recv_key(&self.rx);
            extra = extra - 1;
        }
        if let Some(new_active) = chan::try_recv_key(&self.rx) {
            self.invalidated = true;
            let ghost mid = *self;
            let mut i: usize = 0;
            while i < self.children.len()
                invariant
                    i <= self.children.len(),
                    self.children@ == mid.children@,
                    self.cursor == mid.cursor,
                    self.sizes@ == mid.sizes@,
                    self.bar_size == mid.bar_size,
                    self.align == mid.align,
                    self.placement == mid.placement,
                    self.last_rendered_size == mid.last_rendered_size,
                    self.invalidated == mid.invalidated,
                    self.active == mid.active || (self.active matches Some(a) && a
                        < self.children@.len()),
                decreases self.children.len() - i,
            {
                if self.children[i].key == new_active {
                    self.active = Some(i);
                }
                i += 1;
            }
        }
    }

    /// Recompute the layout caches from the controls' sizes and report
    /// the bar's own required size under the constraint `cst`.
    ///
    /// `child_sizes` holds the required size of each control, in bar
    /// order. The sizes are accumulated along the primary axis; each
    /// control's cached position becomes the extent of the run up to
    /// and including itself. Along the primary axis the bar asks for
    /// the full constraint, transversally for its tallest (widest)
    /// control. An empty bar reports a minimal 1-by-1 footprint.
    ///
    /// Pending highlight notifications are drained first, so the
    /// highlight may move to some existing control.
    #[verifier::loop_isolation(false)]
    pub fn required_size(&mut self, cst: XY, child_sizes: &Vec<XY>) -> (r: XY)
        requires
            old(self).wf(),
            child_sizes@.len() == old(self).keys().len(),
        ensures
            final(self).wf(),
            final(self).keys() == old(self).keys(),
            final(self).spec_cursor() == old(self).spec_cursor(),
            final(self).spec_align() == old(self).spec_align(),
            final(self).spec_placement() == old(self).spec_placement(),
            final(self).spec_last_size() == old(self).spec_last_size(),
            final(self).spec_active() == old(self).spec_active() || (final(self).spec_active()
                matches Some(i) && 0 <= i < old(self).keys().len()),
            old(self).keys().len() == 0 ==> r == (XY { x: 1usize, y: 1usize }) && final(self).spec_sizes() == Seq::<XY>::empty() && final(self).spec_bar_size() == old(self).spec_bar_size(),
            old(self).keys().len() > 0 ==> ({
                let horizontal = old(self).spec_placement().is_horizontal();
                let total = stack_run(child_sizes@, horizontal);
                final(self).spec_sizes() == child_sizes@ && final(self).spec_bar_size() == total
                    && (forall|i: int|
                    0 <= i < child_sizes@.len() ==> final(self).spec_positions()[i] == stack_run(
                        child_sizes@.take(i + 1),
                        horizontal,
                    )) && r == (if horizontal {
                    XY { x: cst.x, y: total.y }
                } else {
                    XY { x: total.x, y: cst.y }
                })
            }),
    {
        self.poll_highlight();
        self.sizes.clear();
        if self.children.len() == 0 {
            proof {
                assert(self.spec_sizes() =~= Seq::<XY>::empty());
            }
            return XY::new(1, 1);
        }
        let ghost mid = *self;
        let horizontal = self.placement.check_horizontal();
        let mut acc = XY::zero();
        let mut i: usize = 0;
        proof {
            assert(child_sizes@.take(0) =~= Seq::<XY>::empty());
        }
        while i < self.children.len()
            invariant
                i <= self.children.len(),
                self.children@.len() == mid.children@.len(),
                self.keys() == mid.keys(),
                self.cursor == mid.cursor,
                self.active == mid.active,
                self.align == mid.align,
                self.placement == mid.placement,
                self.bar_size == mid.bar_size,
                self.last_rendered_size == mid.last_rendered_size,
                self.invalidated == mid.invalidated,
                self.sizes@ == child_sizes@.take(i as int),
                acc == stack_run(child_sizes@.take(i as int), horizontal),
                forall|j: int|
                    0 <= j < i ==> self.spec_positions()[j] == stack_run(
                        child_sizes@.take(j + 1),
                        horizontal,
                    ),
            decreases self.children.len() - i,
        {
            let ghost iter_pre = *self;
            let s = child_sizes[i];
            let acc2 = if horizontal {
                acc.stack_horizontal(s)
            } else {
                acc.stack_vertical(s)
            };
            let t = &mut self.children[i];
            t.pos = acc2;
            self.sizes.push(s);
            proof {
                assert(child_sizes@.take(i + 1).drop_last() =~= child_sizes@.take(i as int));
                assert(child_sizes@.take(i + 1).last() == child_sizes@[i as int]);
                assert(self.sizes@ =~= child_sizes@.take(i + 1));
                assert(acc2 == stack_run(child_sizes@.take(i + 1), horizontal));
                assert(self.keys() =~= iter_pre.keys());
                assert forall|j: int|
                    0 <= j < i + 1 implies self.spec_positions()[j] == stack_run(
                    child_sizes@.take(j + 1),
                    horizontal,
                ) by {
                    if j < i {
                        assert(self.children@[j] == iter_pre.children@[j]);
                        assert(iter_pre.spec_positions()[j] == stack_run(
                            child_sizes@.take(j + 1),
                            horizontal,
                        ));
                    } else {
                        assert(self.children@[i as int].pos == acc2);
                    }
                }
            }
            acc = acc2;
            i += 1;
        }
        let ghost done = *self;
        self.bar_size = acc;
        proof {
            assert(child_sizes@.take(child_sizes@.len() as int) =~= child_sizes@);
            assert(self.spec_sizes() == child_sizes@);
            assert(self.spec_positions() == done.spec_positions());
            assert forall|j: int|
                0 <= j < child_sizes@.len() implies self.spec_positions()[j] == stack_run(
                child_sizes@.take(j + 1),
                horizontal,
            ) by {
                assert(done.spec_positions()[j] == stack_run(child_sizes@.take(j + 1), horizontal));
            }
        }
        if horizontal {
            XY::new(cst.x, self.bar_size.y)
        } else {
            XY::new(self.bar_size.x, cst.y)
        }
    }

    /// Record a layout pass at size `vec`; hit-testing uses this size
    /// to align the run of controls.
    pub fn layout(&mut self, vec: XY)
        ensures
            final(self).spec_last_size() == vec,
            !final(self).needs_redraw(),
            final(self).spec_align() == old(self).spec_align(),
            final(self).spec_placement() == old(self).spec_placement(),
            final(self).keys() == old(self).keys(),
            final(self).spec_cursor() == old(self).spec_cursor(),
            final(self).spec_active() == old(self).spec_active(),
            final(self).spec_sizes() == old(self).spec_sizes(),
            final(self).spec_positions() == old(self).spec_positions(),
            final(self).spec_bar_size() == old(self).spec_bar_size(),
            old(self).wf() ==> final(self).wf(),
    {
        self.invalidated = false;
        self.last_rendered_size = vec;
    }

    /// Whether the bar changed since the last layout pass.
    pub fn needs_relayout(&self) -> (r: bool)
        ensures
            r == self.needs_redraw(),
    {
        self.invalidated
    }

    /// The run extent the alignment offset is computed against: the
    /// controls' total primary extent plus one separator per boundary.
    pub open spec fn hit_axis_content(&self) -> int {
        if self.spec_placement().is_horizontal() {
            sat_add(sat_add(self.spec_bar_size().x as int, self.keys().len() as int), 1)
        } else {
            sat_add(sat_add(self.spec_bar_size().y as int, self.keys().len() as int), 1)
        }
    }

    /// The alignment offset applied to every control position during
    /// drawing and hit-testing.
    pub open spec fn hit_align_offset(&self) -> int {
        spec_offset(
            self.spec_align(),
            self.hit_axis_content(),
            if self.spec_placement().is_horizontal() {
                self.spec_last_size().x as int
            } else {
                self.spec_last_size().y as int
            },
        )
    }

    /// Whether a pointer at screen position `position`, relative to a
    /// bar drawn at screen offset `offset`, lands on control `i`: the
    /// pointer may not precede the bar's origin, and the control's
    /// aligned, separator-shifted corner must cover the relative point.
    pub open spec fn hit(&self, i: int, offset: XY, position: XY) -> bool {
        let p = self.spec_positions()[i];
        let tx = if self.spec_placement().is_horizontal() {
            sat_add(sat_add(p.x as int, i + 1), self.hit_align_offset())
        } else {
            p.x as int
        };
        let ty = if self.spec_placement().is_horizontal() {
            p.y as int
        } else {
            sat_add(sat_add(p.y as int, i + 1), self.hit_align_offset())
        };
        &&& position.x >= offset.x
        &&& position.y >= offset.y
        &&& tx >= position.x - offset.x
        &&& ty >= position.y - offset.y
    }

    /// The first control from position `i` on that the pointer lands
    /// on, if any.
    pub open spec fn first_hit_from(&self, offset: XY, position: XY, i: int) -> Option<int>
        decreases self.keys().len() - i,
    {
        if i < 0 || i >= self.keys().len() {
            None
        } else if self.hit(i, offset, position) {
            Some(i)
        } else {
            self.first_hit_from(offset, position, i + 1)
        }
    }

    /// The first control the pointer lands on, if any.
    pub open spec fn first_hit(&self, offset: XY, position: XY) -> Option<int> {
        self.first_hit_from(offset, position, 0)
    }

    /// React to one input event.
    ///
    /// - A left-button release on a control moves the cursor there,
    ///   activates the control (its key goes out on its sender) and is
    ///   consumed; any other mouse event is ignored.
    /// - `Enter` activates the control under the cursor.
    /// - Arrow keys along the bar's axis move the cursor one control,
    ///   clamped at the ends; transverse arrows are ignored so the
    ///   panel can turn them into focus changes.
    #[verifier::loop_isolation(false)]
    pub fn on_event(&mut self, evt: Event) -> (r: EventResult)
        requires
            old(self).wf(),
        ensures
            final(self).wf(),
            final(self).keys() == old(self).keys(),
            final(self).spec_active() == old(self).spec_active(),
            final(self).spec_align() == old(self).spec_align(),
            final(self).spec_placement() == old(self).spec_placement(),
            final(self).spec_sizes() == old(self).spec_sizes(),
            final(self).spec_positions() == old(self).spec_positions(),
            final(self).spec_bar_size() == old(self).spec_bar_size(),
            final(self).spec_last_size() == old(self).spec_last_size(),
            match evt {
                Event::Mouse { offset, position, kind } => if kind is ReleaseLeft && old(self).first_hit(offset, position) is Some {
                    r is Consumed && final(self).spec_cursor() == old(self).first_hit(
                        offset,
                        position,
                    ) && final(self).needs_redraw()
                } else {
                    r is Ignored && *final(self) == *old(self)
                },
                Event::Key(k) => if k is Enter {
                    if old(self).spec_cursor() is Some {
                        r is Consumed && final(self).spec_cursor() == old(self).spec_cursor()
                            && final(self).needs_redraw()
                    } else {
                        r is Ignored && *final(self) == *old(self)
                    }
                } else if (k is Left && old(self).spec_placement().is_horizontal()) || (k is Up
                    && !old(self).spec_placement().is_horizontal()) {
                    match old(self).spec_cursor() {
                        Some(i) => if i > 0 {
                            r is Consumed && final(self).spec_cursor() == Some(i - 1) && final(self).needs_redraw()
                        } else {
                            r is Ignored && *final(self) == *old(self)
                        },
                        None => r is Ignored && *final(self) == *old(self),
                    }
                } else if (k is Right && old(self).spec_placement().is_horizontal()) || (k is Down
                    && !old(self).spec_placement().is_horizontal()) {
                    match old(self).spec_cursor() {
                        Some(i) => if i + 1 < old(self).keys().len() {
                            r is Consumed && final(self).spec_cursor() == Some(i + 1) && final(self).needs_redraw()
                        } else {
                            r is Ignored && *final(self) == *old(self)
                        },
                        None => r is Ignored && *final(self) == *old(self),
                    }
                } else {
                    r is Ignored && *final(self) == *old(self)
                },
                _ => r is Ignored && *final(self) == *old(self),
            },
    {
        match evt {
            Event::Mouse { offset, position, kind } => {
                match kind {
                    MouseKind::ReleaseLeft => {
                        if let Some(rel) = position.checked_sub(offset) {
                            let n = self.children.len();
                            let horizontal = self.placement.check_horizontal();
                            let content = if horizontal {
                                self.bar_size.x.saturating_add(n).saturating_add(1)
                            } else {
                                self.bar_size.y.saturating_add(n).saturating_add(1)
                            };
                            let container = if horizontal {
                                self.last_rendered_size.x
                            } else {
                                self.last_rendered_size.y
                            };
                            let off = self.align.get_offset(content, container);
                            let mut found: Option<usize> = None;
                            let mut i: usize = 0;
                            while i < n
                                invariant
                                    i <= n,
                                    n == self.keys().len(),
                                    *self == *old(self),
                                    match found {
                                        Some(f) => f < i && self.hit(f as int, offset, position)
                                            && (forall|j: int|
                                            0 <= j < f ==> !self.hit(j, offset, position)),
                                        None => forall|j: int|
                                            0 <= j < i ==> !self.hit(j, offset, position),
                                    },
                                decreases n - i,
                            {
                                if found.is_none() {
                                    let p = self.children[i].pos;
                                    let target = if horizontal {
                                        p.plus(XY::new(i + 1, 0)).plus(XY::new(off, 0))
                                    } else {
                                        p.plus(XY::new(0, i + 1)).plus(XY::new(0, off))
                                    };
                                    if target.check_fits(rel) {
                                        proof {
                                            assert(self.hit(i as int, offset, position));
                                        }
                                        found = Some(i);
                                    }
                                }
                                i += 1;
                            }
                            match found {
                                Some(idx) => {
                                    proof {
                                        lemma_first_hit_skip(self, offset, position, 0, idx as int);
                                    }
                                    self.invalidated = true;
                                    self.cursor = Some(idx);
                                    let k2 = self.children[idx].key.clone();
                                    let _ = chan::send_key(&self.children[idx].tx, k2);
                                    EventResult::Consumed
                                },
                                None => {
                                    proof {
                                        lemma_first_hit_skip(self, offset, position, 0, n as int);
                                    }
                                    EventResult::Ignored
                                },
                            }
                        } else {
                            proof {
                                assert forall|j: int|
                                    0 <= j < self.keys().len() implies !self.hit(
                                    j,
                                    offset,
                                    position,
                                ) by {}
                                lemma_first_hit_skip(
                                    self,
                                    offset,
                                    position,
                                    0,
                                    self.keys().len() as int,
                                );
                            }
                            EventResult::Ignored
                        }
                    },
                    _ => EventResult::Ignored,
                }
            },
            Event::Key(k) => {
                match k {
                    Key::Enter => {
                        if let Some(focus) = self.cursor {
                            self.invalidated = true;
                            let k2 = self.children[focus].key.clone();
                            let _ = chan::send_key(&self.children[focus].tx, k2);
                            EventResult::Consumed
                        } else {
                            EventResult::Ignored
                        }
                    },
                    Key::Left => {
                        if self.placement.check_horizontal() {
                            self.decrement_idx()
                        } else {
                            EventResult::Ignored
                        }
                    },
                    Key::Up => {
                        if !self.placement.check_horizontal() {
                            self.decrement_idx()
                        } else {
                            EventResult::Ignored
                        }
                    },
                    Key::Right => {
                        if self.placement.check_horizontal() {
                            self.increment_idx()
                        } else {
                            EventResult::Ignored
                        }
                    },
                    Key::Down => {
                        if !self.placement.check_horizontal() {
                            self.increment_idx()
                        } else {
                            EventResult::Ignored
                        }
                    },
                }
            },
            _ => EventResult::Ignored,
        }
    }
}

/// If no control in `k..i` is hit, the scan from `k` and the scan from
/// `i` find the same first hit.
proof fn lemma_first_hit_skip(bar: &TabBar, offset: XY, position: XY, k: int, i: int)
    requires
        0 <= k <= i <= bar.keys().len(),
        forall|j: int| k <= j < i ==> !bar.hit(j, offset, position),
    ensures
        bar.first_hit_from(offset, position, k) == bar.first_hit_from(offset, position, i),
    decreases i - k,
{
    if k < i {
        assert(!bar.hit(k, offset, position));
        lemma_first_hit_skip(bar, offset, position, k + 1, i);
    }
}

/// Slide an optional index across the removal of position `removed`:
/// indices past it move back by one, an index equal to it is dropped.
pub open spec fn shift_index(idx: Option<int>, removed: int) -> Option<int> {
    match idx {
        Some(i) => if i == removed {
            None
        } else if i > removed {
            Some(i - 1)
        } else {
            Some(i)
        },
        None => None,
    }
}

/// Whether the separator before control `idx` borders the highlighted
/// control (the highlighted one itself or its left/upper neighbour).
pub open spec fn borders_active(active: Option<usize>, idx: usize) -> bool {
    match active {
        Some(a) => a == idx || a + 1 == idx,
        None => false,
    }
}

impl TabBar {
    /// The glyph drawn before control `idx` of a horizontal bar: heavy
    /// next to the highlighted control, and a tee where the run meets
    /// the frame at the first control.
    pub fn h_separator(active: Option<usize>, idx: usize) -> (r: char)
        ensures
            idx == 0 ==> r == (if active == Some(0usize) {
                '\u{2528}'
            } else {
                '\u{2524}'
            }),
            idx > 0 ==> r == (if borders_active(active, idx) {
                '\u{2503}'
            } else {
                '\u{2502}'
            }),
    {
        let hot = match active {
            Some(a) => a == idx || (idx > 0 && a == idx - 1),
            None => false,
        };
        if idx == 0 {
            if hot {
                '\u{2528}'
            } else {
                '\u{2524}'
            }
        } else {
            if hot {
                '\u{2503}'
            } else {
                '\u{2502}'
            }
        }
    }

    /// The glyph closing a horizontal bar after its last control.
    pub fn h_end_cap(active: Option<usize>, last: usize) -> (r: char)
        ensures
            r == (if active == Some(last) {
                '\u{2520}'
            } else {
                '\u{251c}'
            }),
    {
        let hot = match active {
            Some(a) => a == last,
            None => false,
        };
        if hot {
            '\u{2520}'
        } else {
            '\u{251c}'
        }
    }

    /// The rule drawn before control `idx` of a vertical bar: heavy
    /// next to the highlighted control.
    pub fn v_separator(active: Option<usize>, idx: usize) -> (r: char)
        ensures
            r == (if borders_active(active, idx) {
                '\u{2501}'
            } else {
                '\u{2500}'
            }),
    {
        let hot = match active {
            Some(a) => a == idx || (idx > 0 && a == idx - 1),
            None => false,
        };
        if hot {
            '\u{2501}'
        } else {
            '\u{2500}'
        }
    }

    /// The glyph joining a vertical bar's first rule to the frame.
    pub fn v_start_connector(active: Option<usize>) -> (r: char)
        ensures
            r == (if active == Some(0usize) {
                '\u{2537}'
            } else {
                '\u{2534}'
            }),
    {
        if let Some(a) = active {
            if a == 0 {
                return '\u{2537}';
            }
        }
        '\u{2534}'
    }

    /// The glyph joining a vertical bar's closing rule to the frame.
    pub fn v_end_connector(active: Option<usize>, last: usize) -> (r: char)
        ensures
            r == (if active == Some(last) {
                '\u{252f}'
            } else {
                '\u{252c}'
            }),
    {
        let hot = match active {
            Some(a) => a == last,
            None => false,
        };
        if hot {
            '\u{252f}'
        } else {
            '\u{252c}'
        }
    }

    /// The configured placement.
    pub fn placement(&self) -> (r: Placement)
        ensures
            r == self.spec_placement(),
    {
        self.placement
    }

    /// The configured alignment.
    pub fn alignment(&self) -> (r: Align)
        ensures
            r == self.spec_align(),
    {
        self.align
    }

    /// The control with keyboard focus, if any.
    pub fn cursor_index(&self) -> (r: Option<usize>)
        ensures
            match r {
                Some(i) => self.spec_cursor() == Some(i as int),
                None => self.spec_cursor() is None,
            },
    {
        self.cursor
    }

    /// The highlighted (active-tab) control, if any.
    pub fn active_index(&self) -> (r: Option<usize>)
        ensures
            match r {
                Some(i) => self.spec_active() == Some(i as int),
                None => self.spec_active() is None,
            },
    {
        self.active
    }

    /// How many controls the bar holds.
    pub fn button_count(&self) -> (r: usize)
        ensures
            r == self.keys().len(),
    {
        self.children.len()
    }

    /// The key of control `i`.
    pub fn button_key(&self, i: usize) -> (r: &str)
        requires
            i < self.keys().len(),
        ensures
            r@ == self.keys()[i as int],
    {
        self.children[i].key.as_str()
    }

    /// The cached position of control `i` (see
    /// [`TabBar::required_size`]).
    pub fn button_position(&self, i: usize) -> (r: XY)
        requires
            i < self.keys().len(),
        ensures
            r == self.spec_positions()[i as int],
    {
        self.children[i].pos
    }

    /// The cached size of control `i`.
    pub fn button_size(&self, i: usize) -> (r: XY)
        requires
            i < self.spec_sizes().len(),
        ensures
            r == self.spec_sizes()[i as int],
    {
        self.sizes[i]
    }

    /// The cached total extent of all controls.
    pub fn total_size(&self) -> (r: XY)
        ensures
            r == self.spec_bar_size(),
    {
        self.bar_size
    }

    /// The size of the last layout pass.
    pub fn last_size(&self) -> (r: XY)
        ensures
            r == self.spec_last_size(),
    {
        self.last_rendered_size
    }

    /// Restore the bar invariant from any state: an index past the end
    /// of the controls is dropped.
    fn normalize(&mut self)
        ensures
            final(self).wf(),
            old(self).wf() ==> *final(self) == *old(self),
    {
        if let Some(c) = self.cursor {
            if c >= self.children.len() {
                self.cursor = None;
            }
        }
        if let Some(a) = self.active {
            if a >= self.children.len() {
                self.active = None;
            }
        }
    }
}

impl Bar for TabBar {
    fn add_button(&mut self, tx: crossbeam::channel::Sender<String>, key: String) {
        self.normalize();
        TabBar::add_button(self, tx, key)
    }

    fn remove_button(&mut self, key: &str) {
        self.normalize();
        TabBar::remove_button(self, key)
    }

    fn swap_button(&mut self, left: &str, right: &str) {
        self.normalize();
        TabBar::swap_button(self, left, right)
    }

    fn add_button_at(&mut self, tx: crossbeam::channel::Sender<String>, key: String, pos: usize) {
        self.normalize();
        TabBar::add_button_at(self, tx, key, pos)
    }
}

} // verus!
