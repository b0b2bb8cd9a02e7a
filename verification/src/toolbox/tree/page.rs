//! Pages: the roots of node trees.
use vstd::prelude::*;
use crate::ids::{new_id, is_generated_id};
use crate::text::{str_eq, route_path, route_path_of};
use crate::toolbox::errors::TreeError;
use crate::toolbox::events::EventVariants;
use crate::toolbox::observers::{Observer, Observable, push_observer, remove_observers, ids_for};
use super::node::{Node, NodeFeature, ValidNode, without_child, metadata_ids, ids_view, node_info};
use super::shape::copy_opt;

verus! {

/// A part of a page's route.
pub enum Route {
    Basic { path: String },
    Typed { name: String, value_type: String },
    IdRef { name: String, id: String },
}

/// A page's title.
pub enum Title {
    Basic { content: String },
}

/// A page of a project, holding a tree of nodes.
pub struct Page {
    id: String,
    name: String,
    observers: Vec<Observer<NodeFeature>>,
    children: Vec<ValidNode>,
    project: Option<String>,
    pub title: Title,
    pub route: Vec<Route>,
}

/// The state of a page.
pub struct PageView {
    pub id: String,
    pub name: String,
    pub children: Seq<ValidNode>,
    pub project: Option<String>,
    pub observers: Seq<Observer<NodeFeature>>,
    pub title: Title,
    pub route: Seq<Route>,
}

impl View for Page {
    type V = PageView;

    closed spec fn view(&self) -> PageView {
        PageView {
            id: self.id,
            name: self.name,
            children: self.children@,
            project: self.project,
            observers: self.observers@,
            title: self.title,
            route: self.route@,
        }
    }
}

pub open spec fn page_features() -> Seq<NodeFeature> {
    seq![
        NodeFeature::Styles,
        NodeFeature::Events,
        NodeFeature::Properties,
        NodeFeature::Metadata,
        NodeFeature::Children,
    ]
}

impl Page {
    /// Creates a page named `name` in the project with identifier `project`. Its title is
    /// the name and its route the single path made from the name.
    pub fn create(name: String, project: Option<String>) -> (r: Page)
        ensures
            is_generated_id(r@.id@, 21),
            r@.name == name,
            r@.children == Seq::<ValidNode>::empty(),
            r@.project == project,
            r@.observers == Seq::<Observer<NodeFeature>>::empty(),
            r@.title matches Title::Basic { content } && content == name,
            r@.route.len() == 1,
            r@.route[0] matches Route::Basic { path } && path@ == route_path_of(name@),
    {
        let path = route_path(name.as_str());
        let content = name.clone();
        Page {
            id: new_id(21),
            name,
            observers: Vec::new(),
            children: Vec::new(),
            project,
            title: Title::Basic { content },
            route: vec![Route::Basic { path }],
        }
    }

    /// The identifier of the project the page belongs to.
    pub fn project(&self) -> (r: Option<String>)
        ensures
            r == self@.project,
    {
        copy_opt(&self.project)
    }

    /// Moves the page to the project with identifier `project`.
    pub fn set_project(&mut self, project: Option<String>)
        ensures
            final(self)@ == (PageView { project, ..old(self)@ }),
    {
        self.project = project;
    }

    /// The page's identifier.
    pub fn id(&self) -> (r: &String)
        ensures
            *r == self@.id,
    {
        &self.id
    }

    /// The features a page supports.
    pub fn features(&self) -> (r: Vec<NodeFeature>)
        ensures
            r@ == page_features(),
    {
        let v = vec![
            NodeFeature::Styles,
            NodeFeature::Events,
            NodeFeature::Properties,
            NodeFeature::Metadata,
            NodeFeature::Children,
        ];
        assert(v@ =~= page_features());
        v
    }

    /// The page's name.
    pub fn name(&self) -> (r: &String)
        ensures
            *r == self@.name,
    {
        &self.name
    }

    /// A page has no parent.
    pub fn parent(&self) -> (r: Option<String>)
        ensures
            r is None,
    {
        None
    }

    /// Renames the page; returns the observers to notify (those of the metadata).
    pub fn set_name(&mut self, name: String) -> (notify: Vec<String>)
        ensures
            final(self)@ == (PageView { name, ..old(self)@ }),
            ids_view(notify@) == metadata_ids(old(self)@.observers),
    {
        self.name = name;
        self.commit_changes(NodeFeature::Metadata)
    }

    /// The page's top-level nodes.
    pub fn get_children(&self) -> (r: Option<&Vec<ValidNode>>)
        ensures
            r matches Some(v) && v@ == self@.children,
    {
        Some(&self.children)
    }

    /// Inserts `node` at `index` (at the end for `None`) among the page's top-level nodes.
    /// A node with the page's own identifier is refused: a page cannot be its own parent.
    pub fn add_child(&mut self, node: ValidNode, index: Option<usize>) -> (r: Result<(), TreeError>)
        requires
            index matches Some(i) ==> i <= old(self)@.children.len(),
        ensures
            match r {
                Err(e) => e == TreeError::SelfParent && node_info(node).id@ == old(self)@.id@
                    && final(self)@ == old(self)@,
                Ok(()) => node_info(node).id@ != old(self)@.id@ && final(self)@ == (PageView {
                    children: old(self)@.children.insert(
                        match index {
                            Some(i) => i as int,
                            None => old(self)@.children.len() as int,
                        },
                        node,
                    ),
                    ..old(self)@
                }),
            },
    {
        if str_eq(node.id().as_str(), self.id.as_str()) {
            return Err(TreeError::SelfParent);
        }
        let at = match index {
            Some(i) => i,
            None => self.children.len(),
        };
        self.children.insert(at, node);
        Ok(())
    }

    /// Removes the top-level nodes with identifier `id`.
    pub fn remove_child(&mut self, id: String)
        ensures
            final(self)@ == (PageView { children: without_child(old(self)@.children, id@), ..old(self)@ }),
    {
        let ghost initial = self.children@;
        let mut kept: Vec<ValidNode> = Vec::new();
        while self.children.len() > 0
            invariant
                without_child(initial, id@) == without_child(self.children@, id@) + kept@,
                initial == old(self).children@,
                self.id == old(self).id,
                self.name == old(self).name,
                self.project == old(self).project,
                self.observers == old(self).observers,
                self.title == old(self).title,
                self.route == old(self).route,
            decreases self.children.len(),
        {
            let ghost before = self.children@;
            let c = self.children.pop().unwrap();
            proof {
                assert(before.drop_last() =~= self.children@);
                assert(before.last() == c);
            }
            if !str_eq(c.id().as_str(), id.as_str()) {
                let ghost k = kept@;
                kept.insert(0, c);
                proof {
                    assert(without_child(self.children@, id@).push(c) + k =~= without_child(self.children@, id@) + kept@);
                }
            }
        }
        proof {
            assert(without_child(self.children@, id@) + kept@ =~= kept@);
        }
        self.children = kept;
    }

    /// The events a page handles.
    pub fn get_events(&self) -> (r: Vec<EventVariants>)
        ensures
            r@ == seq![EventVariants::Scrolled],
    {
        vec![EventVariants::Scrolled]
    }
}

impl Observable<NodeFeature> for Page {
    closed spec fn observer_list(&self) -> Seq<Observer<NodeFeature>> {
        self.observers@
    }

    fn register(&mut self, item: NodeFeature) -> (r: &Observer<NodeFeature>)
        ensures
            final(self)@ == (PageView { observers: final(self)@.observers, ..old(self)@ }),
            final(self)@.observers == final(self).observer_list(),
            old(self)@.observers == old(self).observer_list(),
    {
        push_observer(&mut self.observers, item);
        let n = self.observers.len();
        proof {
            assert(self.observers@ =~= old(self).observers@.push(self.observers@[n - 1]));
        }
        &self.observers[n - 1]
    }

    fn unregister(&mut self, id: &str)
        ensures
            final(self)@ == (PageView { observers: final(self)@.observers, ..old(self)@ }),
            final(self)@.observers == final(self).observer_list(),
            old(self)@.observers == old(self).observer_list(),
    {
        remove_observers(&mut self.observers, id);
    }

    fn commit_changes(&self, item: NodeFeature) -> (r: Vec<String>)
        ensures
            self@.observers == self.observer_list(),
    {
        ids_for(&self.observers, item)
    }
}

} // verus!
