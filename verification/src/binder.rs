//! The binder: owner of the page registry and of the active-page navigation
//! state machine.  Navigating runs the outgoing page's on-leave hook to
//! completion strictly before the incoming page's load hook; the order is
//! recorded in a ghost history of hooks run.

use vstd::prelude::*;

verus! {

use core::marker::PhantomData;
use crate::registry::Registry;
use crate::section::SectionRegistry;
use crate::Command;
use crate::Content;
use crate::Downcast;
use crate::Element;
use crate::Entity;
use crate::Info;
use crate::Page;
use crate::Task;
use crate::section;

/// What one navigation produced: a command emitted by the outgoing page,
/// for the host to dispatch, and the load task requested by the incoming
/// page, for the host to schedule.
pub struct Transition<M> {
    /// The command the outgoing page emitted when it was left.
    pub command: Command<M>,
    /// The background task the incoming page requested on becoming active.
    pub task: Option<Task<M>>,
}

/// A lifecycle hook the binder ran, as recorded in its ghost history.
pub enum Hook {
    /// The page behind the handle had its on-leave hook run.
    Left(Entity),
    /// The page behind the handle had its load hook run.
    Loaded(Entity),
}

/// The orchestrator owning a registry of pages and tracking which one is
/// active.  `M` is the host's message type; `P` is the page-set type the
/// application stores, every variant of which implements [`Page`].
pub struct Binder<M, P> {
    pages: Registry<P>,
    active: Option<Entity>,
    history: Ghost<Seq<Hook>>,
    marker: PhantomData<M>,
}

impl<M, P: Page<M>> Binder<M, P> {
    /// The handle last activated, if any; it may have gone stale since.
    pub closed spec fn spec_active(self) -> Option<Entity> {
        self.active
    }

    /// `e` presently names a stored page.
    pub closed spec fn spec_live(self, e: Entity) -> bool {
        self.pages.spec_live(e.0)
    }

    /// The page a live handle `e` names.
    pub closed spec fn spec_at(self, e: Entity) -> P
        recommends
            self.spec_live(e),
    {
        self.pages.spec_at(e.0)
    }

    /// `e` named a page once, and can never name one again.
    pub closed spec fn spec_dead(self, e: Entity) -> bool {
        self.pages.spec_dead(e.0)
    }

    /// Every lifecycle hook run so far, oldest first.
    pub closed spec fn spec_history(self) -> Seq<Hook> {
        self.history@
    }

    /// The page behind the active handle, when that handle is live.
    pub open spec fn spec_active_page(self) -> Option<P> {
        match self.spec_active() {
            Some(a) => if self.spec_live(a) {
                Some(self.spec_at(a))
            } else {
                None
            },
            None => None,
        }
    }

    /// The hooks one navigation to `e` runs, in order: first the on-leave
    /// hook of the live outgoing page, then the load hook of the live
    /// incoming page.
    pub open spec fn spec_hooks_of(self, e: Entity) -> Seq<Hook> {
        let leave = match self.spec_active() {
            Some(a) => if a != e && self.spec_live(a) {
                seq![Hook::Left(a)]
            } else {
                Seq::empty()
            },
            None => Seq::empty(),
        };
        let load = if self.spec_live(e) {
            seq![Hook::Loaded(e)]
        } else {
            Seq::empty()
        };
        leave + load
    }

    /// A binder with no pages and no active page.
    pub fn new() -> (r: Binder<M, P>)
        ensures
            r.spec_active() is None,
            forall|e: Entity| !r.spec_live(e) && !r.spec_dead(e),
            r.spec_history() == Seq::<Hook>::empty(),
    {
        Binder {
            pages: Registry::new(),
            active: None,
            history: Ghost(Seq::empty()),
            marker: PhantomData,
        }
    }

    /// Takes ownership of a page and returns a fresh handle for it: one
    /// that was neither live nor dead before, so it is distinct from every
    /// handle this binder has ever issued.  Nothing else changes.
    pub fn insert(&mut self, page: P) -> (e: Entity)
        ensures
            final(self).spec_live(e),
            final(self).spec_at(e) == page,
            !old(self).spec_live(e),
            !old(self).spec_dead(e),
            forall|g: Entity| g != e
                ==> (final(self).spec_live(g) <==> old(self).spec_live(g)),
            forall|g: Entity| old(self).spec_live(g)
                ==> final(self).spec_at(g) == old(self).spec_at(g),
            forall|g: Entity| final(self).spec_dead(g) <==> old(self).spec_dead(g),
            final(self).spec_active() == old(self).spec_active(),
            final(self).spec_history() == old(self).spec_history(),
    {
        Entity(self.pages.insert(page))
    }

    /// Removes and returns the page a live handle names, after which the
    /// handle is dead; with a handle that is not live, removes nothing.
    /// The active handle is left as it is: if its page was the one removed,
    /// later lookups through it simply find nothing.
    pub fn remove(&mut self, e: Entity) -> (r: Option<P>)
        ensures
            old(self).spec_live(e) ==> {
                &&& r == Some(old(self).spec_at(e))
                &&& !final(self).spec_live(e)
                &&& final(self).spec_dead(e)
                &&& forall|g: Entity| g != e
                    ==> (final(self).spec_live(g) <==> old(self).spec_live(g))
                &&& forall|g: Entity| g != e && old(self).spec_live(g)
                    ==> final(self).spec_at(g) == old(self).spec_at(g)
                &&& forall|g: Entity| old(self).spec_dead(g) ==> final(self).spec_dead(g)
                &&& final(self).spec_active() == old(self).spec_active()
                &&& final(self).spec_history() == old(self).spec_history()
            },
            !old(self).spec_live(e) ==> r is None && *final(self) == *old(self),
    {
        self.pages.remove(e.0)
    }

    /// The handle last activated, if any.
    pub fn active(&self) -> (r: Option<Entity>)
        ensures
            r == self.spec_active(),
    {
        self.active
    }

    /// The metadata of the page a live handle names; `None` for any other
    /// handle.
    pub fn info(&self, e: Entity) -> (r: Option<Info>)
        ensures
            self.spec_live(e) ==> r == Some(self.spec_at(e).spec_info()),
            !self.spec_live(e) ==> r is None,
    {
        match self.pages.get(e.0) {
            Some(p) => Some(p.info()),
            None => None,
        }
    }

    /// The ordered sections of the active page, obtained by letting that
    /// page fill `sections`; `None` when no live page is active or the
    /// active page is a leaf.  Sections already stored are never removed,
    /// and every returned handle is live.
    pub fn content(&self, sections: &mut SectionRegistry) -> (r: Option<Content>)
        ensures
            forall|e: section::Entity| old(sections).spec_live(e)
                ==> final(sections).spec_live(e),
            r matches Some(c) ==> forall|i: int| 0 <= i < c@.len()
                ==> final(sections).spec_live(c@[i]),
            self.spec_active_page() is None
                ==> r is None && *final(sections) == *old(sections),
    {
        match self.active {
            Some(a) => match self.pages.get(a.0) {
                Some(p) => p.content(sections),
                None => None,
            },
            None => None,
        }
    }

    /// The overlay the active page wants rendered, if a live page is
    /// active and it wants one.
    pub fn context_drawer(&self) -> (r: Option<Element<M>>)
        ensures
            self.spec_active_page() is None ==> r is None,
    {
        match self.active {
            Some(a) => match self.pages.get(a.0) {
                Some(p) => p.context_drawer(),
                None => None,
            },
            None => None,
        }
    }

    /// Attempts a checked downcast of the active page to the concrete type
    /// `T`.  "Not present" — an invalid or stale active handle, or a page
    /// of some other type — yields `None`; the two causes are deliberately
    /// indistinguishable to the caller.
    pub fn page<T>(&self) -> (r: Option<&T>) where P: Downcast<T>
        ensures
            match self.spec_active_page() {
                Some(p) => {
                    &&& p.spec_is() ==> (r matches Some(t) && *t == p.spec_get())
                    &&& !p.spec_is() ==> r is None
                },
                None => r is None,
            },
    {
        match self.active {
            Some(a) => match self.pages.get(a.0) {
                Some(p) => p.cast_ref(),
                None => None,
            },
            None => None,
        }
    }

    /// Attempts a checked downcast of the page behind `e` to the concrete
    /// type `T`: a usable reference exactly when `e` names a page stored
    /// as a `T`.  An invalid or stale handle and a page of another type
    /// both yield `None`.
    pub fn page_at<T>(&self, e: Entity) -> (r: Option<&T>) where P: Downcast<T>
        ensures
            self.spec_live(e) && self.spec_at(e).spec_is()
                ==> (r matches Some(t) && *t == self.spec_at(e).spec_get()),
            self.spec_live(e) && !self.spec_at(e).spec_is() ==> r is None,
            !self.spec_live(e) ==> r is None,
    {
        match self.pages.get(e.0) {
            Some(p) => p.cast_ref(),
            None => None,
        }
    }

    /// Attempts a checked downcast of the active page to the concrete type
    /// `T`, mutably.  On a match, whatever the caller leaves in the borrow
    /// is afterwards the page behind the active handle; otherwise nothing
    /// changes and the caller gets `None`.
    pub fn page_mut<T>(&mut self) -> (r: Option<&mut T>) where P: Downcast<T>
        ensures
            old(self).spec_active_page() is None
                ==> r is None && *final(self) == *old(self),
            old(self).spec_active_page() matches Some(p) && !p.spec_is() ==> ({
                &&& r is None
                &&& forall|g: Entity|
                    final(self).spec_live(g) <==> old(self).spec_live(g)
                &&& forall|g: Entity| old(self).spec_live(g)
                    ==> final(self).spec_at(g) == old(self).spec_at(g)
                &&& forall|g: Entity|
                    final(self).spec_dead(g) <==> old(self).spec_dead(g)
                &&& final(self).spec_active() == old(self).spec_active()
                &&& final(self).spec_history() == old(self).spec_history()
            }),
            old(self).spec_active() is Some
                && old(self).spec_live(old(self).spec_active()->0)
                && old(self).spec_at(old(self).spec_active()->0).spec_is() ==> ({
                let a = old(self).spec_active()->0;
                &&& r matches Some(t) && *t == old(self).spec_at(a).spec_get()
                    && final(self).spec_at(a)
                        == old(self).spec_at(a).spec_put(*final(t))
                &&& final(self).spec_live(a)
                &&& forall|g: Entity| g != a
                    ==> (final(self).spec_live(g) <==> old(self).spec_live(g))
                &&& forall|g: Entity| g != a && old(self).spec_live(g)
                    ==> final(self).spec_at(g) == old(self).spec_at(g)
                &&& forall|g: Entity|
                    final(self).spec_dead(g) <==> old(self).spec_dead(g)
                &&& final(self).spec_active() == old(self).spec_active()
                &&& final(self).spec_history() == old(self).spec_history()
            }),
    {
        let a = match self.active {
            Some(a) => a,
            None => {
                return None;
            },
        };
        if self.pages.contains(a.0) {
            let p = self.pages.borrow_mut(a.0);
            p.cast_mut()
        } else {
            None
        }
    }

    /// The navigation transition, strictly ordered: (1) if a page is
    /// active and differs from `e`, run its on-leave hook and capture its
    /// command; (2) make `e` the active handle; (3) run the load hook of
    /// the page `e` names, if any, capturing its task.  Activating the
    /// already-active handle is a no-op with an empty command: neither
    /// hook runs.
    pub fn activate(&mut self, e: Entity) -> (t: Transition<M>)
        ensures
            old(self).spec_active() == Some(e) ==> (*final(self) == *old(self)
                && t.command is NoOp
                && t.task is None),
            old(self).spec_active() != Some(e) ==> {
                &&& final(self).spec_active() == Some(e)
                &&& final(self).spec_history()
                    == old(self).spec_history() + old(self).spec_hooks_of(e)
                &&& forall|g: Entity|
                    final(self).spec_live(g) <==> old(self).spec_live(g)
                &&& forall|g: Entity|
                    final(self).spec_dead(g) <==> old(self).spec_dead(g)
                &&& forall|g: Entity| old(self).spec_live(g)
                        && old(self).spec_active() != Some(g)
                    ==> final(self).spec_at(g) == old(self).spec_at(g)
            },
            old(self).spec_active() != Some(e)
                    && old(self).spec_active() is Some
                    && old(self).spec_live(old(self).spec_active()->0) ==> ({
                let a = old(self).spec_active()->0;
                &&& final(self).spec_at(a)
                    == old(self).spec_at(a).spec_on_leave().0
                &&& t.command == old(self).spec_at(a).spec_on_leave().1
            }),
            old(self).spec_active() != Some(e)
                    && old(self).spec_active_page() is None
                ==> t.command is NoOp,
            old(self).spec_active() != Some(e) && old(self).spec_live(e)
                ==> t.task == old(self).spec_at(e).spec_load(e),
            old(self).spec_active() != Some(e) && !old(self).spec_live(e)
                ==> t.task is None,
    {
        let already_active = match self.active {
            Some(a) => a == e,
            None => false,
        };
        if already_active {
            return Transition { command: Command::NoOp, task: None };
        }
        let command = match self.active {
            Some(a) => {
                if self.pages.contains(a.0) {
                    let outgoing = self.pages.borrow_mut(a.0);
                    let command = outgoing.on_leave();
                    self.history = Ghost(self.history@.push(Hook::Left(a)));
                    command
                } else {
                    Command::NoOp
                }
            },
            None => Command::NoOp,
        };
        self.active = Some(e);
        let task = match self.pages.get(e.0) {
            Some(incoming) => {
                let task = incoming.load(e);
                proof {
                    self.history@ = self.history@.push(Hook::Loaded(e));
                }
                task
            },
            None => None,
        };
        Transition { command, task }
    }

    /// Law: stale-handle safety.  A handle whose page was removed is dead,
    /// stays dead across every operation (each one above preserves the dead
    /// set or grows it), and a dead handle is never live — so a lookup with
    /// it finds nothing, never a later occupant of its slot.
    pub proof fn lemma_dead_handle_finds_nothing(self, e: Entity)
        ensures
            self.spec_dead(e) ==> !self.spec_live(e),
    {
        self.pages.lemma_dead_not_live(e.0);
    }

    /// Law: one navigation from a live page `a` to a different live page
    /// `e` runs exactly two hooks, the on-leave hook of `a` strictly
    /// before the load hook of `e`.
    pub proof fn lemma_leave_before_load(self, a: Entity, e: Entity)
        requires
            self.spec_active() == Some(a),
            a != e,
            self.spec_live(a),
            self.spec_live(e),
        ensures
            self.spec_hooks_of(e) == seq![Hook::Left(a), Hook::Loaded(e)],
    {
        assert(self.spec_hooks_of(e) =~= seq![Hook::Left(a), Hook::Loaded(e)]);
    }
}

/// Convenience capability: a page registers itself into a binder — and, as
/// default navigation bookkeeping, becomes active when it is the first page
/// registered — in one step.
pub trait AutoBind<M>: Page<M> {
    /// Inserts the page; when the binder had no active page yet, also
    /// activates the fresh handle, which runs the new page's load hook.
    fn auto_bind(self, binder: &mut Binder<M, Self>) -> (r: (Entity, Transition<M>))
        default_ensures
            final(binder).spec_live(r.0),
            final(binder).spec_at(r.0) == self,
            !old(binder).spec_live(r.0),
            !old(binder).spec_dead(r.0),
            forall|g: Entity| g != r.0
                ==> (final(binder).spec_live(g) <==> old(binder).spec_live(g)),
            forall|g: Entity| old(binder).spec_live(g)
                ==> final(binder).spec_at(g) == old(binder).spec_at(g),
            old(binder).spec_active() is None ==> (final(binder).spec_active()
                == Some(r.0)
                && r.1.command is NoOp
                && r.1.task == self.spec_load(r.0)),
            old(binder).spec_active() matches Some(_)
                ==> (final(binder).spec_active() == old(binder).spec_active()
                && r.1.command is NoOp
                && r.1.task is None),
    {
        let e = binder.insert(self);
        let first = match binder.active() {
            Some(_) => false,
            None => true,
        };
        if first {
            let transition = binder.activate(e);
            (e, transition)
        } else {
            (e, Transition { command: Command::NoOp, task: None })
        }
    }
}

} // verus!
