//! Page/section registry for an application shell.
//!
//! Pages — independently written screens — are stored behind stable,
//! generation-tagged handles, composed from ordered lists of sections, and
//! transitioned between by a [`Binder`], which runs each page's on-leave hook
//! before the incoming page's load request and routes messages to the
//! concrete page behind a handle by checked downcast.

pub mod binder;
pub mod insert;
pub mod registry;
pub mod section;

pub use binder::AutoBind;
pub use binder::Binder;
pub use binder::Transition;
pub use insert::Insert;
pub use section::Section;
pub use section::SectionRegistry;

use vstd::prelude::*;

verus! {

/// The unique ID of a page.
#[derive(Clone, Copy, PartialEq, Eq, Structural, Debug, Hash)]
pub struct Entity(pub(crate) registry::Handle);

/// A collection of sections which a page may be comprised of, in display
/// order.
pub type Content = Vec<section::Entity>;

/// A request by a page to run a computation in the background: a one-shot
/// unit of work that resolves to exactly one message, delivered back into
/// the page's update path.  Dropping the task before it is scheduled is the
/// only way to cancel it.
pub struct Task<M> {
    message: M,
}

impl<M> Task<M> {
    /// The one message the task resolves to.
    pub closed spec fn spec_message(self) -> M {
        self.message
    }

    /// A task that resolves to `message`.
    pub fn new(message: M) -> (r: Task<M>)
        ensures
            r.spec_message() == message,
    {
        Task { message }
    }

    /// Consumes the task, yielding its one message.
    pub fn resolve(self) -> (r: M)
        ensures
            r == self.spec_message(),
    {
        self.message
    }
}

/// A command a page hands back to the host: nothing, or one message for the
/// host to dispatch through the normal update path.
pub enum Command<M> {
    /// No follow-up work.
    NoOp,
    /// One message to dispatch.
    Message(M),
}

impl<M> Command<M> {
    /// The command that requests nothing.
    pub fn none() -> (r: Command<M>)
        ensures
            r is NoOp,
    {
        Command::NoOp
    }

    /// `true` exactly for the command that requests nothing.
    pub fn is_noop(&self) -> (r: bool)
        ensures
            r == (self is NoOp),
    {
        match self {
            Command::NoOp => true,
            Command::Message(_) => false,
        }
    }
}

/// A tree of visual nodes, as handed to the rendering collaborator: plain
/// text, a button that delivers a message when pressed, or a column of
/// further nodes.
pub enum Element<M> {
    /// A plain text node.
    Text(String),
    /// A labelled button delivering a message when pressed.
    Button(String, M),
    /// A vertical arrangement of further nodes.
    Column(Vec<Element<M>>),
}

/// Information about a page; including its title, icon, and description.
///
/// `id` and `icon_name` identify the page and are set once at construction;
/// the presentation fields are filled in afterwards through the fluent
/// setters.  `id` is the one value expected to stay stable across
/// application runs.
pub struct Info {
    /// An identifier that is the same between application runs.  Keeping it
    /// unique among the pages registered at one time is the caller's
    /// responsibility.
    pub id: String,
    /// The icon associated with the page.
    pub icon_name: String,
    /// The title of the page.
    pub title: String,
    /// A description of the page.
    pub description: String,
    /// The parent of the page, forming a navigation tree.  Keeping parent
    /// chains acyclic is the caller's responsibility; nothing here walks
    /// them.
    pub parent: Option<Entity>,
}

impl Info {
    pub fn new(id: String, icon_name: String) -> (r: Info)
        ensures
            r.id == id,
            r.icon_name == icon_name,
            r.title@ == Seq::<char>::empty(),
            r.description@ == Seq::<char>::empty(),
            r.parent is None,
    {
        Info {
            title: String::new(),
            icon_name,
            id,
            description: String::new(),
            parent: None,
        }
    }

    /// Sets the title, leaving every other field as it was.
    pub fn title(self, title: String) -> (r: Info)
        ensures
            r.title == title,
            r.id == self.id,
            r.icon_name == self.icon_name,
            r.description == self.description,
            r.parent == self.parent,
    {
        Info { title, ..self }
    }

    /// Sets the description, leaving every other field as it was.
    pub fn description(self, description: String) -> (r: Info)
        ensures
            r.description == description,
            r.id == self.id,
            r.icon_name == self.icon_name,
            r.title == self.title,
            r.parent == self.parent,
    {
        Info { description, ..self }
    }

    /// Sets the parent page, leaving every other field as it was.
    pub fn parent(self, parent: Entity) -> (r: Info)
        ensures
            r.parent == Some(parent),
            r.id == self.id,
            r.icon_name == self.icon_name,
            r.title == self.title,
            r.description == self.description,
    {
        Info { parent: Some(parent), ..self }
    }
}

/// The capability every concrete page implements.
///
/// The three spec functions are the page's model: what `info`, `on_leave`
/// and `load` observe or do, so that the binder's own contracts can say
/// exactly which hooks ran and what they produced.  An implementation
/// outside this crate takes on the obligation to meet each contract.
pub trait Page<M>: Sized {
    /// Model of the page's descriptive metadata.
    spec fn spec_info(&self) -> Info;

    /// Model of the on-leave transition: the state the page is left in and
    /// the command it emits.
    spec fn spec_on_leave(&self) -> (Self, Command<M>);

    /// Model of the load request the page makes when it becomes active,
    /// given its own handle.
    spec fn spec_load(&self, page: Entity) -> Option<Task<M>>;

    /// Information about the page: pure and idempotent, callable every
    /// frame.
    fn info(&self) -> (r: Info)
        ensures
            r == self.spec_info(),
    ;

    /// The ordered sections the page is composed of, or `None` for a leaf
    /// page.  A page may insert new sections or reuse ones it inserted
    /// before; it never removes a section already stored, so every handle
    /// that was live stays live, and every handle it returns is live.
    fn content(&self, sections: &mut SectionRegistry) -> (r: Option<Content>)
        ensures
            forall|e: section::Entity| old(sections).spec_live(e)
                ==> final(sections).spec_live(e),
            r matches Some(c) ==> forall|i: int| 0 <= i < c@.len()
                ==> final(sections).spec_live(c@[i]),
        default_ensures
            r is None,
            *final(sections) == *old(sections),
    {
        None
    }

    /// A modal or contextual overlay to render beside the page, or `None`
    /// when the page wants no drawer shown.
    fn context_drawer(&self) -> (r: Option<Element<M>>)
        default_ensures
            r is None,
    {
        None
    }

    /// The background work the page requests on becoming active: exactly
    /// what its model says, so the binder's caller knows which task it is
    /// responsible for scheduling.
    fn load(&self, page: Entity) -> (r: Option<Task<M>>)
        ensures
            r == self.spec_load(page),
    ;

    /// Emit a command when the page is left.  Leaves the page in the state
    /// its model says and hands back the model's command.
    fn on_leave(&mut self) -> (r: Command<M>)
        ensures
            (*final(self), r) == old(self).spec_on_leave(),
    ;
}

/// Safe downcasting from a page-set type to one of the concrete page types
/// it can hold.  A mismatch is "not present", never a failure: the casts
/// return `None` and leave the value untouched.
pub trait Downcast<T>: Sized {
    /// The held value is a `T`.
    spec fn spec_is(&self) -> bool;

    /// The `T` held (meaningful only when `spec_is` holds).
    spec fn spec_get(&self) -> T;

    /// The value with its held `T` replaced by `t`.
    spec fn spec_put(&self, t: T) -> Self;

    /// Borrows the held `T`, or `None` when the value holds some other
    /// type.
    fn cast_ref(&self) -> (r: Option<&T>)
        ensures
            self.spec_is() ==> (r matches Some(t) && *t == self.spec_get()),
            !self.spec_is() ==> r is None,
    ;

    /// Mutably borrows the held `T`, or `None` — leaving the value
    /// untouched — when it holds some other type.  Whatever the caller
    /// leaves in the borrow is afterwards the held `T`.
    fn cast_mut(&mut self) -> (r: Option<&mut T>)
        ensures
            old(self).spec_is() ==> (r matches Some(t)
                && *t == old(self).spec_get()
                && *final(self) == old(self).spec_put(*final(t))),
            !old(self).spec_is() ==> r is None && *final(self) == *old(self),
    ;
}

} // verus!
