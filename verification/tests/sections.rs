//! Section registries, the `Insert` builder, page metadata, and the small
//! host-facing value types.

use page::Command;
use page::Element;
use page::Info;
use page::Insert;
use page::Section;
use page::SectionRegistry;
use page::Task;

#[test]
fn section_handles_pairwise_distinct() {
    let mut sections = SectionRegistry::new();
    let mut handles = Vec::new();
    for i in 0..6 {
        handles.push(sections.insert(Section::new(format!("s{}", i))));
    }
    for i in 0..handles.len() {
        for j in 0..handles.len() {
            if i != j {
                assert_ne!(handles[i], handles[j]);
            }
        }
    }
}

#[test]
fn stale_section_handle_finds_nothing() {
    let mut sections = SectionRegistry::new();
    let a = sections.insert(Section::new("appearance".to_string()));
    let b = sections.insert(Section::new("behaviour".to_string()));
    assert!(sections.remove(a).is_some());
    let c = sections.insert(Section::new("colours".to_string()));
    assert_ne!(c, a, "a stale handle was reissued");
    assert!(sections.get(a).is_none());
    assert!(!sections.contains(a));
    assert_eq!(sections.get(b).unwrap().title, "behaviour");
    assert_eq!(sections.get(c).unwrap().title, "colours");
}

#[test]
fn remove_returns_the_section_once() {
    let mut sections = SectionRegistry::new();
    let a = sections.insert(Section::new("one".to_string()));
    let removed = sections.remove(a).unwrap();
    assert_eq!(removed.title, "one");
    assert!(sections.remove(a).is_none());
}

#[test]
fn insert_builder_assembles_and_attaches() {
    let mut sections = SectionRegistry::new();
    let child = Insert::new("child".to_string()).apply(&mut sections);
    let parent = Insert::new("parent".to_string())
        .description("first line".to_string())
        .description("second line".to_string())
        .child(child)
        .apply(&mut sections);

    assert_ne!(parent, child);
    let stored = sections.get(parent).unwrap();
    assert_eq!(stored.title, "parent");
    assert_eq!(stored.descriptions, vec!["first line".to_string(), "second line".to_string()]);
    assert_eq!(stored.children, vec![child]);
    // Attaching the parent left the child untouched.
    assert_eq!(sections.get(child).unwrap().title, "child");
}

#[test]
fn info_new_and_setters() {
    let info = Info::new("network".to_string(), "icon-network".to_string());
    assert_eq!(info.id, "network");
    assert_eq!(info.icon_name, "icon-network");
    assert_eq!(info.title, "");
    assert_eq!(info.description, "");
    assert!(info.parent.is_none());

    let titled = info
        .title("Network".to_string())
        .description("Wi-Fi and wired".to_string());
    assert_eq!(titled.id, "network");
    assert_eq!(titled.icon_name, "icon-network");
    assert_eq!(titled.title, "Network");
    assert_eq!(titled.description, "Wi-Fi and wired");
    assert!(titled.parent.is_none());
}

#[test]
fn info_is_idempotent_without_mutation() {
    let a = Info::new("power".to_string(), "icon-power".to_string());
    let b = Info::new("power".to_string(), "icon-power".to_string());
    assert_eq!(a.id, b.id);
    assert_eq!(a.icon_name, b.icon_name);
    assert_eq!(a.title, b.title);
    assert_eq!(a.description, b.description);
    assert_eq!(a.parent, b.parent);
}

#[test]
fn command_none_is_noop() {
    let none: Command<u32> = Command::none();
    assert!(none.is_noop());
    let message: Command<u32> = Command::Message(5);
    assert!(!message.is_noop());
}

#[test]
fn task_resolves_to_its_one_message() {
    let task = Task::new(42u32);
    assert_eq!(task.resolve(), 42);
}

#[test]
fn element_tree_builds() {
    let tree: Element<u32> = Element::Column(vec![
        Element::Text("hello".to_string()),
        Element::Button("press".to_string(), 3),
    ]);
    match tree {
        Element::Column(children) => assert_eq!(children.len(), 2),
        _ => panic!("expected a column"),
    }
}
