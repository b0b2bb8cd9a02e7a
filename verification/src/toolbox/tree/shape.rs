//! Shape nodes: rectangles that can hold children.
use vstd::prelude::*;
use crate::ids::{new_id, is_generated_id};
use crate::text::str_eq;
use crate::toolbox::errors::TreeError;
use crate::toolbox::events::EventVariants;
use crate::toolbox::observers::{
    Observer, Observable, push_observer, remove_observers, ids_for, without_id, notified_ids,
};
use super::node::{Node, NodeFeature, NodeInfo, ValidNode, without_child, metadata_ids, ids_view, child_added, closes_loop};

verus! {

/// A shape node.
pub struct ShapeNode {
    id: String,
    name: String,
    observers: Vec<Observer<NodeFeature>>,
    parent: Option<String>,
    page: Option<String>,
    children: Vec<ValidNode>,
}

pub open spec fn shape_features() -> Seq<NodeFeature> {
    seq![
        NodeFeature::Styles,
        NodeFeature::Events,
        NodeFeature::Properties,
        NodeFeature::Metadata,
        NodeFeature::Children,
    ]
}

pub open spec fn shape_events() -> Seq<EventVariants> {
    seq![
        EventVariants::Clicked,
        EventVariants::RightClicked,
        EventVariants::Hovered,
        EventVariants::Scrolled,
    ]
}

/// A copy of an optional string.
pub fn copy_opt(s: &Option<String>) -> (r: Option<String>)
    ensures
        r == *s,
{
    match s {
        Some(v) => Some(v.clone()),
        None => None,
    }
}

impl ShapeNode {
    /// The node's state apart from its observers.
    pub closed spec fn core_info(&self) -> NodeInfo {
        NodeInfo {
            id: self.id,
            name: self.name,
            parent: self.parent,
            page: self.page,
            children: Some(self.children@),
        }
    }

    /// Creates a shape node with a fresh identifier, no observers, no parent, no page and no
    /// children. Its name is `Text`.
    pub fn create() -> (r: ValidNode)
        ensures
            r is ShapeNode,
            is_generated_id(r.info().id@, 21),
            r.info().name@ == "Text"@,
            r.info().parent is None,
            r.info().page is None,
            r.info().children == Some(Seq::<ValidNode>::empty()),
            r.observer_list() == Seq::<Observer<NodeFeature>>::empty(),
    {
        let node = ShapeNode {
            id: new_id(21),
            name: String::from_str("Text"),
            observers: Vec::new(),
            parent: None,
            page: None,
            children: Vec::new(),
        };
        ValidNode::ShapeNode(node)
    }
}

impl Observable<NodeFeature> for ShapeNode {
    closed spec fn observer_list(&self) -> Seq<Observer<NodeFeature>> {
        self.observers@
    }

    fn register(&mut self, item: NodeFeature) -> (r: &Observer<NodeFeature>)
        ensures
            final(self).info() == old(self).info(),
    {
        push_observer(&mut self.observers, item);
        let n = self.observers.len();
        proof {
            assert(self.observers@ =~= old(self).observers@.push(self.observers@[n - 1]));
        }
        &self.observers[n - 1]
    }

    fn unregister(&mut self, id: &str)
        ensures
            final(self).info() == old(self).info(),
    {
        remove_observers(&mut self.observers, id);
    }

    fn commit_changes(&self, item: NodeFeature) -> (r: Vec<String>) {
        ids_for(&self.observers, item)
    }
}

impl Node for ShapeNode {
    open spec fn info(&self) -> NodeInfo {
        self.core_info()
    }

    open spec fn feature_list(&self) -> Option<Seq<NodeFeature>> {
        Some(shape_features())
    }

    open spec fn event_list(&self) -> Seq<EventVariants> {
        shape_events()
    }

    fn id(&self) -> (r: &String) {
        &self.id
    }

    fn features(&self) -> (r: Vec<NodeFeature>) {
        let v = vec![
            NodeFeature::Styles,
            NodeFeature::Events,
            NodeFeature::Properties,
            NodeFeature::Metadata,
            NodeFeature::Children,
        ];
        assert(v@ =~= shape_features());
        v
    }

    fn name(&self) -> (r: &String) {
        &self.name
    }

    fn parent(&self) -> (r: Option<String>) {
        copy_opt(&self.parent)
    }

    fn page(&self) -> (r: Option<String>) {
        copy_opt(&self.page)
    }

    fn set_name(&mut self, name: String) -> (notify: Vec<String>)
        ensures
            ids_view(notify@) == metadata_ids(old(self).observer_list()),
    {
        self.name = name;
        self.commit_changes(NodeFeature::Metadata)
    }

    fn set_parent(&mut self, parent: String) -> (notify: Vec<String>) {
        self.parent = Some(parent);
        self.commit_changes(NodeFeature::Metadata)
    }

    fn set_page(&mut self, page: Option<String>) -> (notify: Vec<String>) {
        self.page = page;
        self.commit_changes(NodeFeature::Metadata)
    }

    fn get_children(&self) -> (r: Option<&Vec<ValidNode>>) {
        Some(&self.children)
    }

    fn add_child(&mut self, node: ValidNode, index: Option<usize>) -> (r: Result<Vec<String>, TreeError>)
        ensures
            match r {
                Err(e) => e == TreeError::Loop && closes_loop(old(self).info(), node),
                Ok(notify) => child_added(old(self).info(), final(self).info(), node, index, ids_view(notify@)),
            },
    {
        if str_eq(node.id().as_str(), self.id.as_str()) {
            return Err(TreeError::Loop);
        }
        let is_parent = match &self.parent {
            Some(p) => str_eq(p.as_str(), node.id().as_str()),
            None => false,
        };
        if is_parent {
            return Err(TreeError::Loop);
        }
        let mut child = node;
        let mut notify = child.set_parent(self.id.clone());
        let mut more = child.set_page(copy_opt(&self.page));
        let ghost first = notify@;
        let ghost second = more@;
        notify.append(&mut more);
        proof {
            assert(ids_view(notify@) =~= ids_view(first) + ids_view(second));
        }
        let at = match index {
            Some(i) => i,
            None => self.children.len(),
        };
        self.children.insert(at, child);
        Ok(notify)
    }

    fn remove_child(&mut self, id: String) {
        let ghost initial = self.children@;
        let mut kept: Vec<ValidNode> = Vec::new();
        while self.children.len() > 0
            invariant
                without_child(initial, id@) == without_child(self.children@, id@) + kept@,
                initial == old(self).children@,
                self.id == old(self).id,
                self.name == old(self).name,
                self.parent == old(self).parent,
                self.page == old(self).page,
                self.observers == old(self).observers,
            decreases self.children.len(),
        {
            let ghost before = self.children@;
            let c = self.children.pop().unwrap();
            proof {
                assert(before.drop_last() =~= self.children@);
                assert(before.last() == c);
            }
            if !str_eq(c.id().as_str(), id.as_str()) {
                let ghost k = kept@;
                kept.insert(0, c);
                proof {
                    assert(without_child(self.children@, id@).push(c) + k =~= without_child(self.children@, id@) + kept@);
                }
            }
        }
        proof {
            assert(without_child(self.children@, id@) + kept@ =~= kept@);
        }
        self.children = kept;
    }

    fn get_events(&self) -> (r: Vec<EventVariants>) {
        let v = vec![
            EventVariants::Clicked,
            EventVariants::RightClicked,
            EventVariants::Hovered,
            EventVariants::Scrolled,
        ];
        assert(v@ =~= shape_events());
        v
    }
}

} // verus!
