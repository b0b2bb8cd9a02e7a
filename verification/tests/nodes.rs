use std::sync::mpsc::channel;

use starship::toolbox::errors::TreeError;
use starship::toolbox::events::{variant_of, Event, EventVariants};
use starship::toolbox::observers::Observable;
use starship::toolbox::project::{Field, Project, Type};
use starship::toolbox::tree::node::{Node, NodeFeature};
use starship::toolbox::tree::page::{Page, Route, Title};
use starship::toolbox::tree::shape::ShapeNode;
use starship::toolbox::tree::text::TextNode;

/// Runs the callbacks of the notified observers.
fn notify(ids: &[String], callbacks: &[(String, Box<dyn Fn()>)]) {
    for id in ids {
        for (cid, cb) in callbacks {
            if cid == id {
                cb();
            }
        }
    }
}

#[test]
fn add_child() {
    let mut parent_node = ShapeNode::create();
    let child_node = TextNode::create();

    let parent_id = parent_node.id().clone();
    let child_id = child_node.id().clone();

    parent_node
        .add_child(child_node, None)
        .expect("add_child() failed");

    let children = parent_node
        .get_children()
        .expect("node does not support children");

    assert_eq!(children.len(), 1, "child not added to children");

    let borrowed_child = &children[0];
    assert_eq!(
        borrowed_child.id(),
        &child_id,
        "incorrect child id: expected '{}' but id is '{}'",
        child_id,
        borrowed_child.id()
    );

    let parent = borrowed_child.parent().expect("child node has no parent");
    assert!(parent == parent_id, "parent is not the same as the actual parent");
}

#[test]
fn remove_child() {
    let mut parent_node = ShapeNode::create();
    let child_node = TextNode::create();

    let child_id = child_node.id().clone();

    parent_node
        .add_child(child_node, None)
        .expect("add_child() failed");

    parent_node.remove_child(child_id);

    let children = parent_node
        .get_children()
        .expect("node does not support children");

    assert_eq!(children.len(), 0, "child not removed from children");
}

#[test]
fn add_observer() {
    let mut borrowed_node = ShapeNode::create();

    let (tx, rx) = channel();
    let closure = move || {
        tx.send("works!").unwrap();
    };

    let id = borrowed_node.register(NodeFeature::Metadata).id.clone();
    let callbacks: Vec<(String, Box<dyn Fn()>)> = vec![(id, Box::new(closure))];
    let ids = borrowed_node.commit_changes(NodeFeature::Metadata);
    notify(&ids, &callbacks);

    assert_eq!(rx.recv().unwrap(), "works!");
}

#[test]
fn remove_observer() {
    let mut borrowed_node = ShapeNode::create();

    let (tx, rx) = channel();
    let closure = move || {
        tx.send("works!").unwrap();
    };

    let observer = borrowed_node.register(NodeFeature::Metadata).id.clone();
    let callbacks: Vec<(String, Box<dyn Fn()>)> = vec![(observer.clone(), Box::new(closure))];

    // while registered, the observer is notified
    let ids = borrowed_node.commit_changes(NodeFeature::Metadata);
    notify(&ids, &callbacks);
    assert_eq!(rx.try_recv().unwrap(), "works!");

    borrowed_node.unregister(&observer);
    let ids = borrowed_node.commit_changes(NodeFeature::Metadata);
    notify(&ids, &callbacks);

    rx.try_recv().expect_err("channel not empty");
}

#[test]
fn observers_of_other_features_are_not_notified() {
    let mut node = ShapeNode::create();
    let a = node.register(NodeFeature::Metadata).id.clone();
    let _b = node.register(NodeFeature::Styles).id.clone();
    let c = node.register(NodeFeature::Metadata).id.clone();
    assert_eq!(node.commit_changes(NodeFeature::Metadata), vec![a, c]);
    assert_eq!(node.commit_changes(NodeFeature::Children), Vec::<String>::new());
}

#[test]
fn new_ids_are_url_safe() {
    let node = ShapeNode::create();
    assert_eq!(node.id().chars().count(), 21);
    assert!(node.id().chars().all(|c| c == '_' || c == '-' || c.is_ascii_alphanumeric()));
}

#[test]
fn rename_notifies_metadata_observers() {
    let mut node = ShapeNode::create();
    let id = node.register(NodeFeature::Metadata).id.clone();
    let notified = node.set_name("Box".to_string());
    assert_eq!(node.name(), "Box");
    assert_eq!(notified, vec![id]);
    let mut text = TextNode::create();
    text.register(NodeFeature::Metadata);
    assert!(text.set_name("Label".to_string()).is_empty());
    assert_eq!(text.name(), "Label");
}

#[test]
fn text_nodes_have_no_children() {
    let mut text = TextNode::create();
    assert!(text.get_children().is_none());
    assert!(matches!(text.add_child(ShapeNode::create(), None), Err(TreeError::ChildrenUnsupported)));
}

#[test]
fn child_gets_parent_page_and_index() {
    let mut parent = ShapeNode::create();
    parent.set_page(Some("page-1".to_string()));
    let first = TextNode::create();
    let second = TextNode::create();
    let first_id = first.id().clone();
    let second_id = second.id().clone();
    parent.add_child(first, None).unwrap();
    let mut second = second;
    let watcher = second.register(NodeFeature::Metadata).id.clone();
    let notified = parent.add_child(second, Some(0)).unwrap();
    assert_eq!(notified, vec![watcher.clone(), watcher]);
    let children = parent.get_children().unwrap();
    assert_eq!(children[0].id(), &second_id);
    assert_eq!(children[1].id(), &first_id);
    assert_eq!(children[0].page(), Some("page-1".to_string()));
    assert_eq!(children[0].parent(), Some(parent.id().clone()));
}

#[test]
fn remove_child_removes_only_that_id() {
    let mut parent = ShapeNode::create();
    let a = TextNode::create();
    let b = ShapeNode::create();
    let a_id = a.id().clone();
    let b_id = b.id().clone();
    parent.add_child(a, None).unwrap();
    parent.add_child(b, None).unwrap();
    parent.remove_child(a_id);
    let children = parent.get_children().unwrap();
    assert_eq!(children.len(), 1);
    assert_eq!(children[0].id(), &b_id);
}

#[test]
fn node_features_and_events() {
    let shape = ShapeNode::create();
    assert_eq!(shape.features().len(), 5);
    assert!(shape.features().contains(&NodeFeature::Children));
    assert_eq!(
        shape.get_events(),
        vec![EventVariants::Clicked, EventVariants::RightClicked, EventVariants::Hovered, EventVariants::Scrolled]
    );
    let text = TextNode::create();
    assert_eq!(text.get_events().len(), 3);
}

#[test]
fn page_route_and_title() {
    let page = Page::create("My Home Page".to_string(), None);
    assert_eq!(page.name(), "My Home Page");
    match &page.title {
        Title::Basic { content } => assert_eq!(content, "My Home Page"),
    }
    assert_eq!(page.route.len(), 1);
    match &page.route[0] {
        Route::Basic { path } => assert_eq!(path, "my_home_page"),
        _ => panic!("route is not basic"),
    }
    assert!(page.parent().is_none());
    assert_eq!(page.get_events(), vec![EventVariants::Scrolled]);
}

#[test]
fn page_children() {
    let mut page = Page::create("P".to_string(), None);
    let node = ShapeNode::create();
    let id = node.id().clone();
    page.add_child(node, None).unwrap();
    assert_eq!(page.get_children().unwrap().len(), 1);
    page.remove_child(id);
    assert_eq!(page.get_children().unwrap().len(), 0);
}

#[test]
fn project_add_page() {
    let mut project = Project::create("Site".to_string(), Type::Library);
    assert_eq!(project.version(), 0);
    assert!(matches!(project.project_type(), Type::Library));
    assert_eq!(project.name(), "Site");
    project.set_name("Web".to_string());
    assert_eq!(project.name(), "Web");
    let page = Page::create("Index".to_string(), None);
    project.add_page(page);
    let pages = project.pages().unwrap();
    assert_eq!(pages.len(), 1);
    assert_eq!(pages[0].project(), Some(project.id().clone()));
}

#[test]
fn project_observers() {
    let mut project = Project::create("Site".to_string(), Type::Component);
    let id = project.register(Field::Name).id.clone();
    assert_eq!(project.commit_changes(Field::Name), vec![id.clone()]);
    project.unregister(&id);
    assert!(project.commit_changes(Field::Name).is_empty());
}

#[test]
fn removing_an_added_child_restores_the_children() {
    let mut page = Page::create("Home".to_string(), None);
    let first = ShapeNode::create();
    let first_id = first.id().clone();
    page.add_child(first, None).unwrap();
    let added = TextNode::create();
    let added_id = added.id().clone();
    page.add_child(added, Some(0)).unwrap();
    assert_eq!(page.get_children().unwrap().len(), 2);
    page.remove_child(added_id);
    let children = page.get_children().unwrap();
    assert_eq!(children.len(), 1);
    assert_eq!(children[0].id(), &first_id);
}

#[test]
fn event_kinds() {
    assert_eq!(variant_of(&Event::Clicked { mouse_x: 1, mouse_y: 2 }), EventVariants::Clicked);
    assert_eq!(variant_of(&Event::Changed), EventVariants::Changed);
    assert_eq!(variant_of(&Event::Scrolled { view_x: 0, view_y: 9 }), EventVariants::Scrolled);
}

#[test]
fn a_node_cannot_adopt_its_parent() {
    let grand = ShapeNode::create();
    let mut child = ShapeNode::create();
    child.set_parent(grand.id().clone());
    let before = child.get_children().unwrap().len();
    assert_eq!(child.add_child(grand, None).unwrap_err(), TreeError::Loop);
    assert_eq!(child.get_children().unwrap().len(), before);
}

#[test]
fn text_nodes_refuse_children_at_any_index() {
    let mut text = TextNode::create();
    assert_eq!(text.add_child(ShapeNode::create(), Some(5)).unwrap_err(), TreeError::ChildrenUnsupported);
    assert_eq!(text.add_child(ShapeNode::create(), None).unwrap_err(), TreeError::ChildrenUnsupported);
    assert!(text.get_children().is_none());
}
