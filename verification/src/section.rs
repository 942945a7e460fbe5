//! Sections: the renderable sub-units a page is composed of.  Each page's
//! sections live in a registry of their own, so section handles are scoped to
//! the registry that issued them and never name a page.

use vstd::prelude::*;

verus! {

use crate::registry::Handle;
use crate::registry::Registry;

/// The unique ID of a section.
#[derive(Clone, Copy, PartialEq, Eq, Structural, Debug, Hash)]
pub struct Entity(pub(crate) Handle);

/// A renderable unit scoped to one page's section registry: a title together
/// with the descriptive lines shown or searched under it.
pub struct Section {
    /// The heading under which the section is rendered.
    pub title: String,
    /// Descriptive lines belonging to the section, in display order.
    pub descriptions: Vec<String>,
    /// Handles of further sections nested under this one, in display order.
    pub children: Vec<Entity>,
}

impl Section {
    /// A section with the given heading and nothing under it yet.
    pub fn new(title: String) -> (r: Section)
        ensures
            r.title == title,
            r.descriptions@ == Seq::<String>::empty(),
            r.children@ == Seq::<Entity>::empty(),
    {
        Section { title, descriptions: Vec::new(), children: Vec::new() }
    }
}

/// The registry a page's sections live in.  Handles issued here are valid
/// only for this registry; a handle whose section was removed is dead for
/// good and can never name a later occupant of its slot.
pub struct SectionRegistry {
    sections: Registry<Section>,
}

impl SectionRegistry {
    /// `e` presently names a stored section.
    pub closed spec fn spec_live(self, e: Entity) -> bool {
        self.sections.spec_live(e.0)
    }

    /// The section a live handle `e` names.
    pub closed spec fn spec_at(self, e: Entity) -> Section
        recommends
            self.spec_live(e),
    {
        self.sections.spec_at(e.0)
    }

    /// `e` named a section once, and can never name one again.
    pub closed spec fn spec_dead(self, e: Entity) -> bool {
        self.sections.spec_dead(e.0)
    }

    /// An empty registry: no handle is live, none is dead.
    pub fn new() -> (r: SectionRegistry)
        ensures
            forall|e: Entity| !r.spec_live(e) && !r.spec_dead(e),
    {
        SectionRegistry { sections: Registry::new() }
    }

    /// Stores `section` and returns a fresh handle: one that was neither live
    /// nor dead before, so it is distinct from every handle this registry has
    /// ever issued.  All other handles keep their standing and value.
    pub fn insert(&mut self, section: Section) -> (e: Entity)
        ensures
            final(self).spec_live(e),
            final(self).spec_at(e) == section,
            !old(self).spec_live(e),
            !old(self).spec_dead(e),
            forall|g: Entity| g != e
                ==> (final(self).spec_live(g) <==> old(self).spec_live(g)),
            forall|g: Entity| old(self).spec_live(g)
                ==> final(self).spec_at(g) == old(self).spec_at(g),
            forall|g: Entity| final(self).spec_dead(g) <==> old(self).spec_dead(g),
    {
        Entity(self.sections.insert(section))
    }

    /// Removes and returns the section a live handle names, after which the
    /// handle is dead; with a handle that is not live, removes nothing.
    pub fn remove(&mut self, e: Entity) -> (r: Option<Section>)
        ensures
            old(self).spec_live(e) ==> {
                &&& r == Some(old(self).spec_at(e))
                &&& !final(self).spec_live(e)
                &&& final(self).spec_dead(e)
                &&& forall|g: Entity| g != e
                    ==> (final(self).spec_live(g) <==> old(self).spec_live(g))
                &&& forall|g: Entity| g != e && old(self).spec_live(g)
                    ==> final(self).spec_at(g) == old(self).spec_at(g)
                &&& forall|g: Entity| old(self).spec_dead(g) ==> final(self).spec_dead(g)
            },
            !old(self).spec_live(e) ==> r is None && *final(self) == *old(self),
    {
        self.sections.remove(e.0)
    }

    /// Borrows the section a live handle names; `None` for any other handle.
    pub fn get(&self, e: Entity) -> (r: Option<&Section>)
        ensures
            self.spec_live(e) ==> (r matches Some(s) && *s == self.spec_at(e)),
            !self.spec_live(e) ==> r is None,
    {
        self.sections.get(e.0)
    }

    /// Mutably borrows the section a live handle names — whatever the
    /// caller leaves in the borrow is afterwards stored there — or `None`,
    /// changing nothing, for any other handle.
    pub fn get_mut(&mut self, e: Entity) -> (r: Option<&mut Section>)
        ensures
            old(self).spec_live(e) ==> (r matches Some(s)
                && *s == old(self).spec_at(e)
                && final(self).spec_live(e)
                && final(self).spec_at(e) == *final(s)
                && (forall|g: Entity| g != e
                    ==> (final(self).spec_live(g) <==> old(self).spec_live(g)))
                && (forall|g: Entity| g != e && old(self).spec_live(g)
                    ==> final(self).spec_at(g) == old(self).spec_at(g))
                && (forall|g: Entity|
                    final(self).spec_dead(g) <==> old(self).spec_dead(g))),
            !old(self).spec_live(e) ==> r is None && *final(self) == *old(self),
    {
        self.sections.get_mut(e.0)
    }

    /// Law: stale-handle safety for sections.  A dead handle is never
    /// live, so a lookup with it finds nothing, never a later occupant.
    pub proof fn lemma_dead_handle_finds_nothing(self, e: Entity)
        ensures
            self.spec_dead(e) ==> !self.spec_live(e),
    {
        self.sections.lemma_dead_not_live(e.0);
    }

    /// `true` exactly when `e` is live.
    pub fn contains(&self, e: Entity) -> (r: bool)
        ensures
            r == self.spec_live(e),
    {
        self.sections.contains(e.0)
    }
}

} // verus!
