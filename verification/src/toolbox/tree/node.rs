//! The node interface and the node kinds.
//!
//! Nodes own their children. A node refers to its parent and its page by their identifiers.
use vstd::prelude::*;
use crate::toolbox::errors::TreeError;
use crate::toolbox::events::EventVariants;
use crate::toolbox::observers::{Observer, Observable, ObservedItem, notified_ids, without_id};
use super::shape::ShapeNode;
use super::text::TextNode;

verus! {

/// The aspects of a node that observers can follow.
#[derive(Clone, Copy, Debug, PartialEq, Eq, Structural)]
pub enum NodeFeature {
    Styles,
    Children,
    Events,
    Properties,
    Metadata,
}

impl ObservedItem for NodeFeature {
    fn same_item(&self, other: &Self) -> (r: bool) {
        *self == *other
    }
}

/// The state of a node apart from its observers. `children` is `None` for nodes that cannot
/// have children.
pub struct NodeInfo {
    pub id: String,
    pub name: String,
    pub parent: Option<String>,
    pub page: Option<String>,
    pub children: Option<Seq<ValidNode>>,
}

/// The number of children of a node (0 for nodes without children).
pub open spec fn child_count(info: NodeInfo) -> nat {
    match info.children {
        Some(c) => c.len(),
        None => 0,
    }
}

/// The state of a node of either kind.
pub open spec fn node_info(v: ValidNode) -> NodeInfo {
    match v {
        ValidNode::TextNode(n) => n.core_info(),
        ValidNode::ShapeNode(n) => n.core_info(),
    }
}

/// The nodes of `children` whose identifier is not `id`.
pub open spec fn without_child(children: Seq<ValidNode>, id: Seq<char>) -> Seq<ValidNode>
    decreases children.len(),
{
    if children.len() == 0 {
        children
    } else {
        let rest = without_child(children.drop_last(), id);
        if node_info(children.last()).id@ != id {
            rest.push(children.last())
        } else {
            rest
        }
    }
}

/// Law: removing the children with identifier `id` after inserting a node with that
/// identifier leaves what removing them before would have left.
pub proof fn lemma_remove_undoes_insert(children: Seq<ValidNode>, i: int, node: ValidNode, id: Seq<char>)
    requires
        0 <= i <= children.len(),
        node_info(node).id@ == id,
    ensures
        without_child(children.insert(i, node), id) == without_child(children, id),
    decreases children.len(),
{
    let grown = children.insert(i, node);
    if i == children.len() {
        assert(grown.drop_last() =~= children);
    } else {
        assert(grown.drop_last() =~= children.drop_last().insert(i, node));
        assert(grown.last() == children.last());
        lemma_remove_undoes_insert(children.drop_last(), i, node, id);
    }
}

/// Law: removing an identifier that no child has leaves the children as they are; so adding
/// a node with a fresh identifier and removing it again restores the children.
pub proof fn lemma_remove_absent_child(children: Seq<ValidNode>, id: Seq<char>)
    requires
        forall|k: int| 0 <= k < children.len() ==> node_info(#[trigger] children[k]).id@ != id,
    ensures
        without_child(children, id) == children,
    decreases children.len(),
{
    if children.len() > 0 {
        let rest = children.drop_last();
        assert forall|k: int| 0 <= k < rest.len() implies node_info(#[trigger] rest[k]).id@ != id by {
            assert(rest[k] == children[k]);
        }
        lemma_remove_absent_child(rest, id);
        assert(node_info(children[children.len() - 1]).id@ != id);
        assert(rest.push(children.last()) =~= children);
    }
}

/// The identifiers of the observers to notify of a metadata change.
pub open spec fn metadata_ids(obs: Seq<Observer<NodeFeature>>) -> Seq<Seq<char>> {
    notified_ids(obs, NodeFeature::Metadata)
}

/// The character views of a list of strings.
pub open spec fn ids_view(v: Seq<String>) -> Seq<Seq<char>> {
    v.map_values(|s: String| s@)
}

/// How `after` results from adding `node` at `index` to a node in state `before` that can have
/// children: the child, with its parent and page set to those of the new parent, is inserted
/// there, and `notify` names the child's metadata observers once for each of the two changes.
/// Whether adding `node` under a node in state `before` closes a loop that the node can see:
/// the node would be its own child, or its parent's parent. A node knows its parent only by
/// identifier and nothing of the ancestors above it, so a loop through them is not seen here.
pub open spec fn closes_loop(before: NodeInfo, node: ValidNode) -> bool {
    ||| node.info().id@ == before.id@
    ||| (before.parent matches Some(p) && p@ == node.info().id@)
}

pub open spec fn child_added(
    before: NodeInfo,
    after: NodeInfo,
    node: ValidNode,
    index: Option<usize>,
    notify: Seq<Seq<char>>,
) -> bool {
    let old_children = before.children.unwrap();
    let at = match index {
        Some(i) => i as int,
        None => old_children.len() as int,
    };
    &&& !closes_loop(before, node)
    &&& after.children matches Some(c) && {
        &&& c == old_children.insert(at, c[at])
        &&& c[at].info() == (NodeInfo { parent: Some(before.id), page: before.page, ..node.info() })
        &&& c[at].observer_list() == node.observer_list()
        &&& (c[at] is TextNode <==> node is TextNode)
        &&& after == (NodeInfo { children: Some(c), ..before })
    }
    &&& notify == metadata_ids(node.observer_list()) + metadata_ids(node.observer_list())
}

/// A node of a page.
pub trait Node: Observable<NodeFeature> {
    spec fn info(&self) -> NodeInfo;

    /// The features the node lists, if it lists them: a text node does not.
    spec fn feature_list(&self) -> Option<Seq<NodeFeature>>;

    spec fn event_list(&self) -> Seq<EventVariants>;

    /// The node's identifier.
    fn id(&self) -> (r: &String)
        ensures
            *r == self.info().id,
    ;

    /// The features the node supports, which says which operations are valid for it. Only
    /// nodes that list their features can be asked.
    fn features(&self) -> (r: Vec<NodeFeature>)
        requires
            self.feature_list() is Some,
        ensures
            self.feature_list() == Some(r@),
    ;

    /// The node's name.
    fn name(&self) -> (r: &String)
        ensures
            *r == self.info().name,
    ;

    /// The identifier of the parent node, if any.
    fn parent(&self) -> (r: Option<String>)
        ensures
            r == self.info().parent,
    ;

    /// The identifier of the page the node belongs to, if any.
    fn page(&self) -> (r: Option<String>)
        ensures
            r == self.info().page,
    ;

    /// Renames the node; returns the observers to notify.
    fn set_name(&mut self, name: String) -> (notify: Vec<String>)
        ensures
            final(self).info() == (NodeInfo { name, ..old(self).info() }),
            final(self).observer_list() == old(self).observer_list(),
    ;

    /// Sets the parent; returns the observers to notify (those of the metadata).
    fn set_parent(&mut self, parent: String) -> (notify: Vec<String>)
        ensures
            final(self).info() == (NodeInfo { parent: Some(parent), ..old(self).info() }),
            final(self).observer_list() == old(self).observer_list(),
            ids_view(notify@) == metadata_ids(old(self).observer_list()),
    ;

    /// Sets the page; returns the observers to notify (those of the metadata).
    fn set_page(&mut self, page: Option<String>) -> (notify: Vec<String>)
        ensures
            final(self).info() == (NodeInfo { page, ..old(self).info() }),
            final(self).observer_list() == old(self).observer_list(),
            ids_view(notify@) == metadata_ids(old(self).observer_list()),
    ;

    /// The children, for nodes that can have them.
    fn get_children(&self) -> (r: Option<&Vec<ValidNode>>)
        ensures
            match r {
                Some(v) => self.info().children == Some(v@),
                None => self.info().children is None,
            },
    ;

    /// Adds `node` as a child at `index` (at the end for `None`). On success the child's
    /// parent and page are set to this node's and the observers to notify are returned. For a
    /// node that can have children, `index` is at most the number of children. A node
    /// without children support answers `ChildrenUnsupported`; a shape node refuses with
    /// `Loop` a node that would be its own child or its parent's child (see `closes_loop`):
    /// ancestors above the parent are known to the tree alone, not to a node.
    fn add_child(&mut self, node: ValidNode, index: Option<usize>) -> (r: Result<Vec<String>, TreeError>)
        requires
            old(self).info().children is Some ==> (index matches Some(i) ==> i <= child_count(old(self).info())),
        ensures
            final(self).observer_list() == old(self).observer_list(),
            r is Err ==> final(self).info() == old(self).info(),
    ;

    /// Removes the children with identifier `id`.
    fn remove_child(&mut self, id: String)
        ensures
            final(self).observer_list() == old(self).observer_list(),
            final(self).info() == (NodeInfo {
                children: match old(self).info().children {
                    Some(c) => Some(without_child(c, id@)),
                    None => None,
                },
                ..old(self).info()
            }),
    ;

    /// The events the node handles.
    fn get_events(&self) -> (r: Vec<EventVariants>)
        ensures
            r@ == self.event_list(),
    ;
}

/// A node of either kind.
pub enum ValidNode {
    TextNode(TextNode),
    ShapeNode(ShapeNode),
}

impl Observable<NodeFeature> for ValidNode {
    open spec fn observer_list(&self) -> Seq<Observer<NodeFeature>> {
        match self {
            ValidNode::TextNode(n) => n.observer_list(),
            ValidNode::ShapeNode(n) => n.observer_list(),
        }
    }

    fn register(&mut self, item: NodeFeature) -> (r: &Observer<NodeFeature>)
        ensures
            final(self).info() == old(self).info(),
            (*final(self)) is TextNode <==> (*old(self)) is TextNode,
    {
        match self {
            ValidNode::TextNode(v) => v.register(item),
            ValidNode::ShapeNode(v) => v.register(item),
        }
    }

    fn unregister(&mut self, id: &str)
        ensures
            final(self).info() == old(self).info(),
            (*final(self)) is TextNode <==> (*old(self)) is TextNode,
    {
        match self {
            ValidNode::TextNode(v) => v.unregister(id),
            ValidNode::ShapeNode(v) => v.unregister(id),
        }
    }

    fn commit_changes(&self, item: NodeFeature) -> (r: Vec<String>) {
        match self {
            ValidNode::TextNode(v) => v.commit_changes(item),
            ValidNode::ShapeNode(v) => v.commit_changes(item),
        }
    }
}

impl Node for ValidNode {
    open spec fn info(&self) -> NodeInfo {
        node_info(*self)
    }

    open spec fn feature_list(&self) -> Option<Seq<NodeFeature>> {
        match self {
            ValidNode::TextNode(n) => n.feature_list(),
            ValidNode::ShapeNode(n) => n.feature_list(),
        }
    }

    open spec fn event_list(&self) -> Seq<EventVariants> {
        match self {
            ValidNode::TextNode(n) => n.event_list(),
            ValidNode::ShapeNode(n) => n.event_list(),
        }
    }

    fn id(&self) -> (r: &String) {
        match self {
            ValidNode::TextNode(n) => n.id(),
            ValidNode::ShapeNode(n) => n.id(),
        }
    }

    fn features(&self) -> (r: Vec<NodeFeature>) {
        match self {
            ValidNode::TextNode(n) => n.features(),
            ValidNode::ShapeNode(n) => n.features(),
        }
    }

    fn name(&self) -> (r: &String) {
        match self {
            ValidNode::TextNode(n) => n.name(),
            ValidNode::ShapeNode(n) => n.name(),
        }
    }

    fn parent(&self) -> (r: Option<String>) {
        match self {
            ValidNode::TextNode(n) => n.parent(),
            ValidNode::ShapeNode(n) => n.parent(),
        }
    }

    fn page(&self) -> (r: Option<String>) {
        match self {
            ValidNode::TextNode(n) => n.page(),
            ValidNode::ShapeNode(n) => n.page(),
        }
    }

    fn set_name(&mut self, name: String) -> (notify: Vec<String>)
        ensures
            (*final(self)) is TextNode <==> (*old(self)) is TextNode,
            (*old(self)) is TextNode ==> notify@.len() == 0,
            (*old(self)) is ShapeNode ==> ids_view(notify@) == metadata_ids(old(self).observer_list()),
    {
        match self {
            ValidNode::TextNode(n) => n.set_name(name),
            ValidNode::ShapeNode(n) => n.set_name(name),
        }
    }

    fn set_parent(&mut self, parent: String) -> (notify: Vec<String>)
        ensures
            (*final(self)) is TextNode <==> (*old(self)) is TextNode,
    {
        match self {
            ValidNode::TextNode(n) => n.set_parent(parent),
            ValidNode::ShapeNode(n) => n.set_parent(parent),
        }
    }

    fn set_page(&mut self, page: Option<String>) -> (notify: Vec<String>)
        ensures
            (*final(self)) is TextNode <==> (*old(self)) is TextNode,
    {
        match self {
            ValidNode::TextNode(n) => n.set_page(page),
            ValidNode::ShapeNode(n) => n.set_page(page),
        }
    }

    fn get_children(&self) -> (r: Option<&Vec<ValidNode>>) {
        match self {
            ValidNode::TextNode(n) => n.get_children(),
            ValidNode::ShapeNode(n) => n.get_children(),
        }
    }

    fn add_child(&mut self, node: ValidNode, index: Option<usize>) -> (r: Result<Vec<String>, TreeError>)
        ensures
            (*final(self)) is TextNode <==> (*old(self)) is TextNode,
            (*old(self)) is TextNode ==> r == Err::<Vec<String>, TreeError>(TreeError::ChildrenUnsupported),
            (*old(self)) is ShapeNode ==> match r {
                Err(e) => e == TreeError::Loop && closes_loop(old(self).info(), node),
                Ok(notify) => child_added(old(self).info(), final(self).info(), node, index, ids_view(notify@)),
            },
    {
        match self {
            ValidNode::TextNode(n) => n.add_child(node, index),
            ValidNode::ShapeNode(n) => n.add_child(node, index),
        }
    }

    fn remove_child(&mut self, id: String)
        ensures
            (*final(self)) is TextNode <==> (*old(self)) is TextNode,
    {
        match self {
            ValidNode::TextNode(n) => n.remove_child(id),
            ValidNode::ShapeNode(n) => n.remove_child(id),
        }
    }

    fn get_events(&self) -> (r: Vec<EventVariants>) {
        match self {
            ValidNode::TextNode(n) => n.get_events(),
            ValidNode::ShapeNode(n) => n.get_events(),
        }
    }
}

} // verus!
