//! Text nodes: leaves that display text.
use vstd::prelude::*;
use crate::ids::{new_id, is_generated_id};
use crate::toolbox::errors::TreeError;
use crate::toolbox::events::EventVariants;
use crate::toolbox::observers::{Observer, Observable, push_observer, remove_observers, ids_for};
use super::node::{Node, NodeFeature, NodeInfo, ValidNode, metadata_ids, ids_view};
use super::shape::copy_opt;

verus! {

/// A text node. Text nodes cannot have children.
pub struct TextNode {
    id: String,
    name: String,
    observers: Vec<Observer<NodeFeature>>,
    parent: Option<String>,
    page: Option<String>,
}

pub open spec fn text_events() -> Seq<EventVariants> {
    seq![EventVariants::Clicked, EventVariants::RightClicked, EventVariants::Hovered]
}

impl TextNode {
    /// The node's state apart from its observers.
    pub closed spec fn core_info(&self) -> NodeInfo {
        NodeInfo { id: self.id, name: self.name, parent: self.parent, page: self.page, children: None }
    }

    /// Creates a text node named `Text` with a fresh identifier, no observers, no parent and
    /// no page.
    pub fn create() -> (r: ValidNode)
        ensures
            r is TextNode,
            is_generated_id(r.info().id@, 21),
            r.info().name@ == "Text"@,
            r.info().parent is None,
            r.info().page is None,
            r.info().children is None,
            r.observer_list() == Seq::<Observer<NodeFeature>>::empty(),
    {
        ValidNode::TextNode(TextNode {
            id: new_id(21),
            name: String::from_str("Text"),
            observers: Vec::new(),
            parent: None,
            page: None,
        })
    }
}

impl Observable<NodeFeature> for TextNode {
    closed spec fn observer_list(&self) -> Seq<Observer<NodeFeature>> {
        self.observers@
    }

    fn register(&mut self, item: NodeFeature) -> (r: &Observer<NodeFeature>)
        ensures
            final(self).info() == old(self).info(),
    {
        push_observer(&mut self.observers, item);
        let n = self.observers.len();
        proof {
            assert(self.observers@ =~= old(self).observers@.push(self.observers@[n - 1]));
        }
        &self.observers[n - 1]
    }

    fn unregister(&mut self, id: &str)
        ensures
            final(self).info() == old(self).info(),
    {
        remove_observers(&mut self.observers, id);
    }

    fn commit_changes(&self, item: NodeFeature) -> (r: Vec<String>) {
        ids_for(&self.observers, item)
    }
}

impl Node for TextNode {
    open spec fn info(&self) -> NodeInfo {
        self.core_info()
    }

    open spec fn feature_list(&self) -> Option<Seq<NodeFeature>> {
        None
    }

    open spec fn event_list(&self) -> Seq<EventVariants> {
        text_events()
    }

    fn id(&self) -> (r: &String) {
        &self.id
    }

    fn features(&self) -> (r: Vec<NodeFeature>) {
        // a text node does not list its features, so no caller meets `requires`
        Vec::new()
    }

    fn name(&self) -> (r: &String) {
        &self.name
    }

    fn parent(&self) -> (r: Option<String>) {
        copy_opt(&self.parent)
    }

    fn page(&self) -> (r: Option<String>) {
        copy_opt(&self.page)
    }

    /// Renaming a text node notifies no one.
    fn set_name(&mut self, name: String) -> (notify: Vec<String>)
        ensures
            notify@.len() == 0,
    {
        self.name = name;
        Vec::new()
    }

    fn set_parent(&mut self, parent: String) -> (notify: Vec<String>) {
        self.parent = Some(parent);
        self.commit_changes(NodeFeature::Metadata)
    }

    fn set_page(&mut self, page: Option<String>) -> (notify: Vec<String>) {
        self.page = page;
        self.commit_changes(NodeFeature::Metadata)
    }

    fn get_children(&self) -> (r: Option<&Vec<ValidNode>>) {
        None
    }

    fn add_child(&mut self, node: ValidNode, index: Option<usize>) -> (r: Result<Vec<String>, TreeError>)
        ensures
            r == Err::<Vec<String>, TreeError>(TreeError::ChildrenUnsupported),
    {
        Err(TreeError::ChildrenUnsupported)
    }

    fn remove_child(&mut self, id: String) {
    }

    fn get_events(&self) -> (r: Vec<EventVariants>) {
        let v = vec![EventVariants::Clicked, EventVariants::RightClicked, EventVariants::Hovered];
        assert(v@ =~= text_events());
        v
    }
}

} // verus!
