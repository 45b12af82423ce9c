//! A tabbing container: several child views share one display slot, a
//! selector bar switches between them, and a panel composes the two.
//!
//! The crate is organised bottom-up:
//! - [`TabView`] owns the keyed children, their display order and the
//!   active key;
//! - [`TabBar`] owns one selectable control per key and computes the bar
//!   layout for a placement and an alignment;
//! - [`TabPanel`] wires the two together over a pair of channels and
//!   arbitrates input focus between bar and content.
//!
//! Drawing and the host toolkit's view protocol are left to a thin
//! adapter around this crate; everything here works on plain values.

use vstd::prelude::*;

mod bar;
mod chan;
mod error;
mod event;
mod geometry;
mod panel;

pub use bar::{Bar, TabBar};
pub use error::IdNotFound;
pub use event::{Direction, Event, EventResult, Key, MouseKind};
pub use geometry::XY;
pub use panel::{Align, EventStep, Placement, TabPanel, TakeFocusStep};

verus! {

/// One registered tab: a key and the child view stored under it.
///
/// The host toolkit's child views are opaque to this crate; the
/// registry is generic over the payload it owns on their behalf.
struct Tab<V> {
    key: String,
    view: V,
}

/// The tab registry: an ordered sequence of keyed child views and an
/// optional active key naming the one currently displayed.
///
/// The display order and the key-to-view association live in one
/// sequence of entries, so every key in the display order has exactly
/// one view and vice versa; [`TabView::wf`] additionally rules out
/// duplicate keys and dangling active keys.
pub struct TabView<V> {
    current_id: Option<String>,
    tabs: Vec<Tab<V>>,
    bar_rx: Option<crossbeam::channel::Receiver<String>>,
    active_key_tx: Option<crossbeam::channel::Sender<String>>,
    invalidated: bool,
}

/// The display-order index reached by stepping forward once from `i`,
/// cyclically, in a sequence of length `n`.
pub open spec fn next_index(i: int, n: int) -> int {
    if i + 1 == n {
        0
    } else {
        i + 1
    }
}

/// The display-order index reached by stepping backward once from `i`,
/// cyclically, in a sequence of length `n`.
pub open spec fn prev_index(i: int, n: int) -> int {
    if i == 0 {
        n - 1
    } else {
        i - 1
    }
}

impl<V> TabView<V> {
    /// The display order: the registered keys, in render/cycle order.
    pub closed spec fn order(&self) -> Seq<Seq<char>> {
        self.tabs@.map_values(|t: Tab<V>| t.key@)
    }

    /// The stored views, aligned index-by-index with [`TabView::order`].
    pub closed spec fn views_seq(&self) -> Seq<V> {
        self.tabs@.map_values(|t: Tab<V>| t.view)
    }

    /// The active key, if any.
    pub closed spec fn active(&self) -> Option<Seq<char>> {
        match self.current_id {
            Some(ref s) => Some(s@),
            None => None,
        }
    }

    /// Whether `k` is currently registered.
    pub open spec fn has_key(&self, k: Seq<char>) -> bool {
        self.order().contains(k)
    }

    /// Whether the registry has been structurally changed since the last
    /// layout pass.
    pub closed spec fn needs_redraw(&self) -> bool {
        self.invalidated
    }

    /// The registry invariant: no key occurs twice in the display order,
    /// and the active key (if any) is registered.
    pub open spec fn wf(&self) -> bool {
        &&& self.order().no_duplicates()
        &&& (self.active() matches Some(k) ==> self.has_key(k))
    }

    /// An empty registry: no tabs, no active key, no channels.
    pub fn new() -> (r: TabView<V>)
        ensures
            r.wf(),
            r.order() == Seq::<Seq<char>>::empty(),
            r.views_seq() == Seq::<V>::empty(),
            r.active() is None,
            r.needs_redraw(),
    {
        let r = TabView {
            current_id: None,
            tabs: Vec::new(),
            bar_rx: None,
            active_key_tx: None,
            invalidated: true,
        };
        proof {
            assert(r.order() =~= Seq::<Seq<char>>::empty());
            assert(r.views_seq() =~= Seq::<V>::empty());
        }
        r
    }

    /// The position of `key` in the display order, if it is registered.
    pub(crate) fn position_of(&self, key: &String) -> (r: Option<usize>)
        ensures
            r matches Some(i) ==> i < self.order().len() && self.order()[i as int] == key@,
            r is Some <==> self.has_key(key@),
    {
        let mut i: usize = 0;
        while i < self.tabs.len()
            invariant
                i <= self.tabs.len(),
                forall|j: int| 0 <= j < i ==> self.order()[j] != key@,
            decreases self.tabs.len() - i,
        {
            if self.tabs[i].key == *key {
                proof {
                    assert(self.has_key(key@)) by {
                        assert(self.order()[i as int] == key@);
                    }
                }
                return Some(i);
            }
            i += 1;
        }
        None
    }

    /// The currently active tab key.
    pub fn active_tab(&self) -> (r: Option<&str>)
        ensures
            match r {
                Some(s) => self.active() == Some(s@),
                None => self.active() is None,
            },
    {
        match &self.current_id {
            Some(s) => Some(s.as_str()),
            None => None,
        }
    }

    /// Set the active (displayed) tab.
    ///
    /// Succeeds exactly when `id` is registered; on success the active
    /// key becomes `id` and, if a notifier is configured, the key is
    /// sent to it best-effort. On failure nothing changes.
    pub fn set_active_tab(&mut self, id: &str) -> (r: Result<(), IdNotFound>)
        requires
            old(self).wf(),
        ensures
            final(self).wf(),
            final(self).order() == old(self).order(),
            final(self).views_seq() == old(self).views_seq(),
            r is Ok <==> old(self).has_key(id@),
            r is Ok ==> final(self).active() == Some(id@) && final(self).needs_redraw(),
            r matches Err(e) ==> e.id@ == id@ && *final(self) == *old(self),
    {
        let key: String = id.to_owned();
        match self.position_of(&key) {
            Some(_) => {
                if let Some(tx) = &self.active_key_tx {
                    let _ = chan::send_key(tx, key.clone());
                }
                self.current_id = Some(key);
                self.invalidated = true;
                Ok(())
            },
            None => Err(IdNotFound { id: key }),
        }
    }

    /// Register `view` under `key` and make `key` active.
    ///
    /// A new key is appended to the display order; an existing key keeps
    /// its position and only its view (and the active state) changes.
    /// This never fails.
    pub fn add_tab(&mut self, key: String, view: V)
        requires
            old(self).wf(),
        ensures
            final(self).wf(),
            final(self).active() == Some(key@),
            final(self).needs_redraw(),
            old(self).has_key(key@) ==> final(self).order() == old(self).order() && final(self).views_seq() == old(self).views_seq().update(
                old(self).order().index_of(key@),
                view,
            ),
            !old(self).has_key(key@) ==> final(self).order() == old(self).order().push(key@)
                && final(self).views_seq() == old(self).views_seq().push(view),
    {
        match self.position_of(&key) {
            Some(i) => {
                let ghost pre = *self;
                let t = &mut self.tabs[i];
                t.view = view;
                proof {
                    lemma_unique_index(pre.order(), key@, i as int);
                    assert(self.order() =~= pre.order());
                    assert(self.views_seq() =~= pre.views_seq().update(i as int, view));
                }
                self.current_id = Some(key);
                self.invalidated = true;
            },
            None => {
                let ghost pre = *self;
                self.tabs.push(Tab { key: key.clone(), view });
                proof {
                    assert(self.order() =~= pre.order().push(key@));
                    assert(self.views_seq() =~= pre.views_seq().push(view));
                }
                self.current_id = Some(key);
                self.invalidated = true;
                proof {
                    assert(self.wf()) by {
                        assert forall|a: int, b: int|
                            0 <= a < b < self.order().len() implies self.order()[a]
                            != self.order()[b] by {
                            if b == pre.order().len() {
                                assert(!pre.order().contains(key@));
                                assert(self.order()[a] == pre.order()[a]);
                            }
                        }
                        assert(self.order()[self.order().len() - 1] == key@);
                    }
                }
            },
        }
    }

    /// Chainable variant of [`TabView::add_tab`].
    pub fn with_tab(self, key: String, view: V) -> (r: TabView<V>)
        requires
            self.wf(),
        ensures
            r.wf(),
            r.active() == Some(key@),
            self.has_key(key@) ==> r.order() == self.order() && r.views_seq()
                == self.views_seq().update(self.order().index_of(key@), view),
            !self.has_key(key@) ==> r.order() == self.order().push(key@) && r.views_seq()
                == self.views_seq().push(view),
    {
        let mut s = self;
        s.add_tab(key, view);
        s
    }

    /// Register `view` under `key` at position `pos` in the display
    /// order and make `key` active.
    ///
    /// A position past the end appends instead of failing; an existing
    /// key keeps its old position and only its view changes.
    pub fn add_tab_at(&mut self, key: String, view: V, pos: usize)
        requires
            old(self).wf(),
        ensures
            final(self).wf(),
            final(self).active() == Some(key@),
            final(self).needs_redraw(),
            old(self).has_key(key@) ==> final(self).order() == old(self).order() && final(self).views_seq() == old(self).views_seq().update(
                old(self).order().index_of(key@),
                view,
            ),
            !old(self).has_key(key@) ==> ({
                let p = clamped(pos as int, old(self).order().len() as int);
                final(self).order() == old(self).order().insert(p, key@) && final(self).views_seq()
                    == old(self).views_seq().insert(p, view)
            }),
    {
        if let Some(tx) = &self.active_key_tx {
            let _ = chan::send_key(tx, key.clone());
        }
        match self.position_of(&key) {
            Some(i) => {
                let ghost pre = *self;
                let t = &mut self.tabs[i];
                t.view = view;
                proof {
                    lemma_unique_index(pre.order(), key@, i as int);
                    assert(self.order() =~= pre.order());
                    assert(self.views_seq() =~= pre.views_seq().update(i as int, view));
                }
                self.current_id = Some(key);
                self.invalidated = true;
            },
            None => {
                let ghost pre = *self;
                let ghost p = clamped(pos as int, pre.order().len() as int);
                if pos < self.tabs.len() {
                    self.tabs.insert(pos, Tab { key: key.clone(), view });
                } else {
                    self.tabs.push(Tab { key: key.clone(), view });
                }
                proof {
                    assert(self.order() =~= pre.order().insert(p, key@));
                    assert(self.views_seq() =~= pre.views_seq().insert(p, view));
                }
                self.current_id = Some(key);
                self.invalidated = true;
                proof {
                    pre.order().insert_ensures(p, key@);
                    assert(self.wf()) by {
                        assert forall|a: int, b: int|
                            0 <= a < b < self.order().len() implies self.order()[a]
                            != self.order()[b] by {
                            assert(!pre.order().contains(key@));
                            if a < p {
                                assert(self.order()[a] == pre.order()[a]);
                            } else if a > p {
                                assert(self.order()[a] == pre.order()[a - 1]);
                            }
                            if b < p {
                                assert(self.order()[b] == pre.order()[b]);
                            } else if b > p {
                                assert(self.order()[b] == pre.order()[b - 1]);
                            }
                        }
                        assert(self.order()[p] == key@);
                    }
                }
            },
        }
    }

    /// Chainable variant of [`TabView::add_tab_at`].
    pub fn with_tab_at(self, key: String, view: V, pos: usize) -> (r: TabView<V>)
        requires
            self.wf(),
        ensures
            r.wf(),
            r.active() == Some(key@),
            self.has_key(key@) ==> r.order() == self.order() && r.views_seq()
                == self.views_seq().update(self.order().index_of(key@), view),
            !self.has_key(key@) ==> ({
                let p = clamped(pos as int, self.order().len() as int);
                r.order() == self.order().insert(p, key@) && r.views_seq()
                    == self.views_seq().insert(p, view)
            }),
    {
        let mut s = self;
        s.add_tab_at(key, view, pos);
        s
    }

    /// Chainable variant of [`TabView::set_active_tab`]: hands the
    /// registry back unchanged (except for the active key on success) so
    /// construction can continue either way.
    pub fn with_active_tab(self, id: &str) -> (r: Result<TabView<V>, TabView<V>>)
        requires
            self.wf(),
        ensures
            r matches Ok(t) ==> self.has_key(id@) && t.wf() && t.order() == self.order()
                && t.views_seq() == self.views_seq() && t.active() == Some(id@),
            r matches Err(t) ==> !self.has_key(id@) && t == self,
    {
        let mut s = self;
        match s.set_active_tab(id) {
            Ok(_) => Ok(s),
            Err(_) => Err(s),
        }
    }
    /// Remove the tab registered under `id`.
    ///
    /// Fails exactly when `id` is not registered; on success the entry
    /// leaves the display order, and if `id` was the active key the
    /// registry is left with no active key (a replacement is never
    /// auto-selected). Removing a non-active key never changes the
    /// active key.
    pub fn remove_tab(&mut self, id: &str) -> (r: Result<(), IdNotFound>)
        requires
            old(self).wf(),
        ensures
            final(self).wf(),
            r is Ok <==> old(self).has_key(id@),
            r is Ok ==> ({
                let i = old(self).order().index_of(id@);
                final(self).order() == old(self).order().remove(i) && final(self).views_seq()
                    == old(self).views_seq().remove(i) && final(self).needs_redraw()
            }),
            r is Ok ==> (if old(self).active() == Some(id@) {
                final(self).active() is None
            } else {
                final(self).active() == old(self).active()
            }),
            r matches Err(e) ==> e.id@ == id@ && *final(self) == *old(self),
    {
        let key: String = id.to_owned();
        match self.position_of(&key) {
            Some(i) => {
                let ghost pre = *self;
                let _removed = self.tabs.remove(i);
                let was_active = match &self.current_id {
                    Some(cur) => *cur == key,
                    None => false,
                };
                if was_active {
                    self.current_id = None;
                }
                self.invalidated = true;
                proof {
                    lemma_unique_index(pre.order(), key@, i as int);
                    pre.tabs@.remove_ensures(i as int);
                    pre.order().remove_ensures(i as int);
                    assert(self.order() =~= pre.order().remove(i as int));
                    assert(self.views_seq() =~= pre.views_seq().remove(i as int));
                    assert(self.wf()) by {
                        assert forall|a: int, b: int|
                            0 <= a < b < self.order().len() implies self.order()[a]
                            != self.order()[b] by {
                            assert(self.order()[a] == if a < i {
                                pre.order()[a]
                            } else {
                                pre.order()[a + 1]
                            });
                            assert(self.order()[b] == if b < i {
                                pre.order()[b]
                            } else {
                                pre.order()[b + 1]
                            });
                        }
                        if self.active() is Some {
                            let k = self.active().unwrap();
                            let j = choose|j: int|
                                0 <= j < pre.order().len() && pre.order()[j] == k;
                            assert(pre.order()[i as int] == key@);
                            assert(j != i);
                            if j < i {
                                assert(self.order()[j] == k);
                            } else {
                                assert(self.order()[j - 1] == k);
                            }
                        }
                    }
                }
                Ok(())
            },
            None => Err(IdNotFound { id: key }),
        }
    }

    /// Exchange the display-order positions of `fst` and `snd`.
    ///
    /// A no-op unless both keys are registered; the active key (and
    /// every key-to-view association) is unaffected either way.
    pub fn swap_tabs(&mut self, fst: &str, snd: &str)
        requires
            old(self).wf(),
        ensures
            final(self).wf(),
            final(self).active() == old(self).active(),
            old(self).has_key(fst@) && old(self).has_key(snd@) ==> ({
                let i = old(self).order().index_of(fst@);
                let j = old(self).order().index_of(snd@);
                final(self).order() == old(self).order().update(i, old(self).order()[j]).update(
                    j,
                    old(self).order()[i],
                ) && final(self).views_seq() == old(self).views_seq().update(
                    i,
                    old(self).views_seq()[j],
                ).update(j, old(self).views_seq()[i])
            }),
            !(old(self).has_key(fst@) && old(self).has_key(snd@)) ==> *final(self) == *old(self),
    {
        let kf: String = fst.to_owned();
        let ks: String = snd.to_owned();
        let fst_pos = self.position_of(&kf);
        let snd_pos = self.position_of(&ks);
        if let (Some(i), Some(j)) = (fst_pos, snd_pos) {
            proof {
                lemma_unique_index(self.order(), kf@, i as int);
                lemma_unique_index(self.order(), ks@, j as int);
            }
            // The peer bar may highlight by position, so re-announce the
            // active key (best-effort) when it is one of the two moved.
            if let Some(cur) = &self.current_id {
                if *cur == kf || *cur == ks {
                    if let Some(tx) = &self.active_key_tx {
                        let _ = chan::send_key(tx, cur.clone());
                    }
                }
            }
            if i != j {
                let ghost pre = *self;
                let a = if i < j {
                    i
                } else {
                    j
                };
                let b = if i < j {
                    j
                } else {
                    i
                };
                let tb = self.tabs.remove(b);
                let ta = self.tabs.remove(a);
                self.tabs.insert(a, tb);
                self.tabs.insert(b, ta);
                proof {
                    assert(self.tabs@ =~= pre.tabs@.update(a as int, pre.tabs@[b as int]).update(
                        b as int,
                        pre.tabs@[a as int],
                    ));
                    assert(self.order() =~= pre.order().update(
                        i as int,
                        pre.order()[j as int],
                    ).update(j as int, pre.order()[i as int]));
                    assert(self.views_seq() =~= pre.views_seq().update(
                        i as int,
                        pre.views_seq()[j as int],
                    ).update(j as int, pre.views_seq()[i as int]));
                    assert(self.wf()) by {
                        assert forall|x: int, y: int|
                            0 <= x < y < self.order().len() implies self.order()[x]
                            != self.order()[y] by {}
                        if self.active() is Some {
                            let k = self.active().unwrap();
                            let w = choose|w: int|
                                0 <= w < pre.order().len() && pre.order()[w] == k;
                            if w == i {
                                assert(self.order()[j as int] == k);
                            } else if w == j {
                                assert(self.order()[i as int] == k);
                            } else {
                                assert(self.order()[w] == k);
                            }
                        }
                    }
                }
            } else {
                proof {
                    assert(self.order().update(i as int, self.order()[j as int]).update(
                        j as int,
                        self.order()[i as int],
                    ) =~= self.order());
                    assert(self.views_seq().update(i as int, self.views_seq()[j as int]).update(
                        j as int,
                        self.views_seq()[i as int],
                    ) =~= self.views_seq());
                }
            }
        }
    }

    /// A copy of the current display order.
    ///
    /// The copy does not track later changes to the registry.
    pub fn tab_order(&self) -> (r: Vec<String>)
        ensures
            r@.len() == self.order().len(),
            forall|i: int| 0 <= i < r@.len() ==> r@[i]@ == self.order()[i],
    {
        let mut out: Vec<String> = Vec::new();
        let mut i: usize = 0;
        while i < self.tabs.len()
            invariant
                i <= self.tabs.len(),
                out@.len() == i,
                forall|j: int| 0 <= j < i ==> out@[j]@ == self.order()[j],
            decreases self.tabs.len() - i,
        {
            out.push(self.tabs[i].key.clone());
            i += 1;
        }
        out
    }

    /// Advance the active key to the next one in display order,
    /// wrapping at the end. A no-op when no key is active.
    pub fn next(&mut self)
        requires
            old(self).wf(),
        ensures
            final(self).wf(),
            final(self).order() == old(self).order(),
            final(self).views_seq() == old(self).views_seq(),
            old(self).active() is None ==> *final(self) == *old(self),
            old(self).active() matches Some(k) ==> ({
                let i = old(self).order().index_of(k);
                let n = old(self).order().len() as int;
                final(self).active() == Some(old(self).order()[next_index(i, n)]) && final(self).needs_redraw()
            }),
    {
        let cur = match &self.current_id {
            Some(c) => Some(c.clone()),
            None => None,
        };
        if let Some(cur_key) = cur {
            let idx = match self.position_of(&cur_key) {
                Some(i) => i,
                None => {
                    // the active key is always registered
                    proof {
                        assert(false);
                    }
                    self.tabs.len()
                },
            };
            proof {
                lemma_unique_index(self.order(), cur_key@, idx as int);
            }
            let n = self.tabs.len();
            let t = if idx + 1 == n {
                0
            } else {
                idx + 1
            };
            let key = self.tabs[t].key.clone();
            proof {
                assert(self.order()[t as int] == key@);
            }
            match self.set_active_tab(key.as_str()) {
                Ok(_) => {},
                Err(_) => {
                    proof {
                        assert(false);
                    }
                },
            }
        }
    }

    /// Move the active key back to the previous one in display order,
    /// wrapping at the start. A no-op when no key is active.
    pub fn prev(&mut self)
        requires
            old(self).wf(),
        ensures
            final(self).wf(),
            final(self).order() == old(self).order(),
            final(self).views_seq() == old(self).views_seq(),
            old(self).active() is None ==> *final(self) == *old(self),
            old(self).active() matches Some(k) ==> ({
                let i = old(self).order().index_of(k);
                let n = old(self).order().len() as int;
                final(self).active() == Some(old(self).order()[prev_index(i, n)]) && final(self).needs_redraw()
            }),
    {
        let cur = match &self.current_id {
            Some(c) => Some(c.clone()),
            None => None,
        };
        if let Some(cur_key) = cur {
            let idx = match self.position_of(&cur_key) {
                Some(i) => i,
                None => {
                    // the active key is always registered
                    proof {
                        assert(false);
                    }
                    self.tabs.len()
                },
            };
            proof {
                lemma_unique_index(self.order(), cur_key@, idx as int);
            }
            let n = self.tabs.len();
            let t = if idx == 0 {
                n - 1
            } else {
                idx - 1
            };
            let key = self.tabs[t].key.clone();
            proof {
                assert(self.order()[t as int] == key@);
            }
            match self.set_active_tab(key.as_str()) {
                Ok(_) => {},
                Err(_) => {
                    proof {
                        assert(false);
                    }
                },
            }
        }
    }

    /// Install the receiver on which a bar requests active-key changes.
    pub fn set_bar_rx(&mut self, rx: crossbeam::channel::Receiver<String>)
        ensures
            final(self).order() == old(self).order(),
            final(self).views_seq() == old(self).views_seq(),
            final(self).active() == old(self).active(),
            final(self).needs_redraw() == old(self).needs_redraw(),
            old(self).wf() ==> final(self).wf(),
    {
        self.bar_rx = Some(rx);
    }

    /// Install the sender on which active-key changes are announced.
    pub fn set_active_key_tx(&mut self, tx: crossbeam::channel::Sender<String>)
        ensures
            final(self).order() == old(self).order(),
            final(self).views_seq() == old(self).views_seq(),
            final(self).active() == old(self).active(),
            final(self).needs_redraw() == old(self).needs_redraw(),
            old(self).wf() ==> final(self).wf(),
    {
        self.active_key_tx = Some(tx);
    }

    /// Drain at most one pending externally requested key change and
    /// apply it; a request naming an unregistered key is ignored.
    ///
    /// Called once per layout pass. Whatever the channel yields, the
    /// registry stays well-formed, the tabs are untouched, and the
    /// active key is either unchanged or some registered key.
    pub fn poll_bar_request(&mut self)
        requires
            old(self).wf(),
        ensures
            final(self).wf(),
            final(self).order() == old(self).order(),
            final(self).views_seq() == old(self).views_seq(),
            final(self).active() == old(self).active() || (final(self).active() matches Some(k)
                && old(self).has_key(k)),
    {
        let msg = match &self.bar_rx {
            Some(rx) => chan::try_recv_key(rx),
            None => None,
        };
        if let Some(k) = msg {
            let _ = self.set_active_tab(k.as_str());
        }
    }

    /// Record that a layout pass has happened.
    pub fn layout(&mut self)
        ensures
            final(self).order() == old(self).order(),
            final(self).views_seq() == old(self).views_seq(),
            final(self).active() == old(self).active(),
            !final(self).needs_redraw(),
            old(self).wf() ==> final(self).wf(),
    {
        self.invalidated = false;
    }

    /// Whether the registry changed structurally since the last layout
    /// pass (the active view may still want one for its own reasons).
    pub fn needs_relayout(&self) -> (r: bool)
        ensures
            r == self.needs_redraw(),
    {
        self.invalidated
    }

    /// The stored views, in display order.
    pub fn views(&self) -> (r: Vec<&V>)
        ensures
            r@.len() == self.views_seq().len(),
            forall|i: int| 0 <= i < r@.len() ==> *r@[i] == self.views_seq()[i],
    {
        let mut out: Vec<&V> = Vec::new();
        let mut i: usize = 0;
        while i < self.tabs.len()
            invariant
                i <= self.tabs.len(),
                out@.len() == i,
                forall|j: int| 0 <= j < i ==> *out@[j] == self.views_seq()[j],
            decreases self.tabs.len() - i,
        {
            out.push(&self.tabs[i].view);
            i += 1;
        }
        out
    }

    /// The view stored under the active key, if a key is active.
    pub fn active_view(&self) -> (r: Option<&V>)
        requires
            self.wf(),
        ensures
            self.active() is None ==> r is None,
            self.active() matches Some(k) ==> r matches Some(v) && *v == self.views_seq()[self.order().index_of(k)],
    {
        let idx = match &self.current_id {
            Some(cur) => self.position_of(cur),
            None => None,
        };
        match idx {
            Some(i) => {
                proof {
                    lemma_unique_index(self.order(), self.active().unwrap(), i as int);
                }
                Some(&self.tabs[i].view)
            },
            None => None,
        }
    }

    /// Mutable access to the view stored under the active key.
    pub fn active_view_mut(&mut self) -> (r: Option<&mut V>)
        requires
            old(self).wf(),
        ensures
            old(self).active() is None ==> r is None && *final(self) == *old(self),
            old(self).active() matches Some(k) ==> ({
                let i = old(self).order().index_of(k);
                r is Some && *r.unwrap() == old(self).views_seq()[i] && final(self).views_seq()
                    =~= old(self).views_seq().update(i, *final(r.unwrap())) && final(self).order()
                    =~= old(self).order() && final(self).active() == old(self).active()
            }),
    {
        let idx = match &self.current_id {
            Some(cur) => self.position_of(cur),
            None => None,
        };
        match idx {
            Some(i) => {
                proof {
                    lemma_unique_index(self.order(), self.active().unwrap(), i as int);
                }
                let t = &mut self.tabs[i];
                Some(&mut t.view)
            },
            None => None,
        }
    }

    /// Mutable access to the view at position `i` of the display order.
    pub fn view_mut_at(&mut self, i: usize) -> (r: &mut V)
        requires
            old(self).wf(),
            i < old(self).views_seq().len(),
        ensures
            *r == old(self).views_seq()[i as int],
            final(self).views_seq() =~= old(self).views_seq().update(i as int, *final(r)),
            final(self).order() =~= old(self).order(),
            final(self).active() == old(self).active(),
    {
        let t = &mut self.tabs[i];
        &mut t.view
    }

    /// How many tabs are registered.
    pub fn len(&self) -> (r: usize)
        ensures
            r == self.order().len(),
    {
        self.tabs.len()
    }
}

impl<V> Default for TabView<V> {
    /// Same as [`TabView::new`].
    fn default() -> (r: TabView<V>)
        ensures
            r.wf(),
            r.order() == Seq::<Seq<char>>::empty(),
            r.views_seq() == Seq::<V>::empty(),
            r.active() is None,
    {
        TabView::new()
    }
}

/// Law: stepping forward then backward (or backward then forward) from
/// any registered active key returns to that key, in any registry with
/// duplicate-free display order — the cyclic round-trip law for
/// [`TabView::next`] and [`TabView::prev`].
///
/// `order` is the display order and `k` the active key before the first
/// step; the `ensures` follows the two steps through the contracts of
/// `next` and `prev`: the first step lands on the key at the adjacent
/// index, the second looks that key up again and steps back.
pub proof fn lemma_next_prev_roundtrip(order: Seq<Seq<char>>, k: Seq<char>)
    requires
        order.no_duplicates(),
        order.contains(k),
    ensures
        ({
            let n = order.len() as int;
            let i = order.index_of(k);
            order[prev_index(order.index_of(order[next_index(i, n)]), n)] == k
        }),
        ({
            let n = order.len() as int;
            let i = order.index_of(k);
            order[next_index(order.index_of(order[prev_index(i, n)]), n)] == k
        }),
{
    let n = order.len() as int;
    let i = order.index_of(k);
    assert(0 <= i < n && order[i] == k);
    let fwd = next_index(i, n);
    lemma_unique_index(order, order[fwd], fwd);
    assert(prev_index(next_index(i, n), n) == i);
    let bwd = prev_index(i, n);
    lemma_unique_index(order, order[bwd], bwd);
    assert(next_index(prev_index(i, n), n) == i);
}

/// `pos` clamped to the valid insertion range `0..=len`.
pub open spec fn clamped(pos: int, len: int) -> int {
    if pos <= len {
        pos
    } else {
        len
    }
}

/// In a duplicate-free sequence, any position holding `k` is the one
/// `index_of` names.
pub(crate) proof fn lemma_unique_index(s: Seq<Seq<char>>, k: Seq<char>, i: int)
    requires
        s.no_duplicates(),
        0 <= i < s.len(),
        s[i] == k,
    ensures
        s.contains(k),
        s.index_of(k) == i,
{
    assert(s.contains(k));
    let j = s.index_of(k);
    assert(s[j] == k);
    if j != i {
        assert(s[j] != s[i]);
    }
}

} // verus!
