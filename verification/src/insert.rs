//! The capability a page's constructor or `content` method uses to build a
//! section, attach it to a section registry, and receive its handle.

use vstd::prelude::*;

verus! {

use crate::section::Entity;
use crate::section::Section;
use crate::section::SectionRegistry;

/// A fluent builder that assembles one section and attaches it to a
/// registry.  Attaching never touches sections already stored, so handles
/// obtained earlier keep their values.
pub struct Insert {
    section: Section,
}

impl Insert {
    /// The section assembled so far.
    pub closed spec fn spec_section(self) -> Section {
        self.section
    }

    /// Begins a section with the given heading.
    pub fn new(title: String) -> (r: Insert)
        ensures
            r.spec_section().title == title,
            r.spec_section().descriptions@ == Seq::<String>::empty(),
            r.spec_section().children@ == Seq::<Entity>::empty(),
    {
        Insert { section: Section::new(title) }
    }

    /// Appends one descriptive line.
    pub fn description(self, description: String) -> (r: Insert)
        ensures
            r.spec_section().title == self.spec_section().title,
            r.spec_section().descriptions@
                == self.spec_section().descriptions@.push(description),
            r.spec_section().children@ == self.spec_section().children@,
    {
        let mut section = self.section;
        section.descriptions.push(description);
        Insert { section }
    }

    /// Nests an already-attached section under the one being assembled.
    pub fn child(self, child: Entity) -> (r: Insert)
        ensures
            r.spec_section().title == self.spec_section().title,
            r.spec_section().descriptions@ == self.spec_section().descriptions@,
            r.spec_section().children@ == self.spec_section().children@.push(child),
    {
        let mut section = self.section;
        section.children.push(child);
        Insert { section }
    }

    /// Attaches the assembled section to `sections` and returns its fresh
    /// handle; nothing else in the registry changes.
    pub fn apply(self, sections: &mut SectionRegistry) -> (e: Entity)
        ensures
            final(sections).spec_live(e),
            final(sections).spec_at(e) == self.spec_section(),
            !old(sections).spec_live(e),
            !old(sections).spec_dead(e),
            forall|g: Entity| g != e
                ==> (final(sections).spec_live(g) <==> old(sections).spec_live(g)),
            forall|g: Entity| old(sections).spec_live(g)
                ==> final(sections).spec_at(g) == old(sections).spec_at(g),
            forall|g: Entity| final(sections).spec_dead(g) <==> old(sections).spec_dead(g),
    {
        sections.insert(self.section)
    }
}

} // verus!
