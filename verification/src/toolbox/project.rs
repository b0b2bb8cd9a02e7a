//! Projects: a named, versioned collection of pages.
use vstd::prelude::*;
use crate::ids::{new_id, is_generated_id};
use crate::toolbox::observers::{Observer, Observable, ObservedItem, push_observer, remove_observers, ids_for};
use crate::toolbox::tree::page::{Page, PageView};

verus! {

/// What a project builds.
#[derive(Clone, Copy, Debug, PartialEq, Eq, Structural)]
pub enum Type {
    Component,
    Library,
}

/// The fields of a project that observers can follow.
#[derive(Clone, Copy, Debug, PartialEq, Eq, Structural)]
pub enum Field {
    Name,
    Version,
    Type,
    Pages,
}

impl ObservedItem for Field {
    fn same_item(&self, other: &Self) -> (r: bool) {
        *self == *other
    }
}

/// A project. Pages refer to their project by its identifier.
pub struct Project {
    id: String,
    name: String,
    version: u16,
    project_type: Type,
    pages: Option<Vec<Page>>,
    observers: Vec<Observer<Field>>,
}

/// The state of a project.
pub struct ProjectView {
    pub id: String,
    pub name: String,
    pub version: u16,
    pub project_type: Type,
    pub pages: Option<Seq<Page>>,
    pub observers: Seq<Observer<Field>>,
}

impl View for Project {
    type V = ProjectView;

    closed spec fn view(&self) -> ProjectView {
        ProjectView {
            id: self.id,
            name: self.name,
            version: self.version,
            project_type: self.project_type,
            pages: match self.pages {
                Some(p) => Some(p@),
                None => None,
            },
            observers: self.observers@,
        }
    }
}

impl Project {
    /// Creates a project at version 0 with no pages and no observers.
    pub fn create(name: String, project_type: Type) -> (r: Project)
        ensures
            is_generated_id(r@.id@, 21),
            r@.name == name,
            r@.version == 0,
            r@.project_type == project_type,
            r@.pages == Some(Seq::<Page>::empty()),
            r@.observers == Seq::<Observer<Field>>::empty(),
    {
        let project = Project {
            id: new_id(21),
            name,
            project_type,
            version: 0,
            pages: Some(Vec::new()),
            observers: Vec::new(),
        };
        proof {
            assert(project@.pages == Some(Seq::<Page>::empty()));
        }
        project
    }

    /// The project's identifier.
    pub fn id(&self) -> (r: &String)
        ensures
            *r == self@.id,
    {
        &self.id
    }

    /// The project's name.
    pub fn name(&self) -> (r: String)
        ensures
            r == self@.name,
    {
        self.name.clone()
    }

    /// Renames the project.
    pub fn set_name(&mut self, name: String)
        ensures
            final(self)@ == (ProjectView { name, ..old(self)@ }),
    {
        self.name = name;
    }

    /// The project's version.
    pub fn version(&self) -> (r: u16)
        ensures
            r == self@.version,
    {
        self.version
    }

    /// What the project builds.
    pub fn project_type(&self) -> (r: Type)
        ensures
            r == self@.project_type,
    {
        self.project_type
    }

    /// The project's pages.
    pub fn pages(&self) -> (r: Option<&Vec<Page>>)
        ensures
            match r {
                Some(v) => self@.pages == Some(v@),
                None => self@.pages is None,
            },
    {
        match &self.pages {
            Some(p) => Some(p),
            None => None,
        }
    }

    /// Adds a page at the end and moves it to this project. Nothing happens to a project
    /// without a page list.
    pub fn add_page(&mut self, page: Page)
        ensures
            match old(self)@.pages {
                Some(ps) => final(self)@.pages matches Some(after) && {
                    &&& after.len() == ps.len() + 1
                    &&& after.drop_last() == ps
                    &&& after.last()@ == (PageView { project: Some(old(self)@.id), ..page@ })
                    &&& final(self)@ == (ProjectView { pages: Some(after), ..old(self)@ })
                },
                None => final(self)@ == old(self)@,
            },
    {
        let id = self.id.clone();
        match &mut self.pages {
            Some(pages) => {
                let mut page = page;
                page.set_project(Some(id));
                pages.push(page);
                proof {
                    assert(pages@.drop_last() =~= old(self).pages.unwrap()@);
                }
            },
            None => {},
        }
    }
}

impl Observable<Field> for Project {
    closed spec fn observer_list(&self) -> Seq<Observer<Field>> {
        self.observers@
    }

    fn register(&mut self, item: Field) -> (r: &Observer<Field>)
        ensures
            final(self)@ == (ProjectView { observers: final(self)@.observers, ..old(self)@ }),
            final(self)@.observers == final(self).observer_list(),
            old(self)@.observers == old(self).observer_list(),
    {
        push_observer(&mut self.observers, item);
        let n = self.observers.len();
        proof {
            assert(self.observers@ =~= old(self).observers@.push(self.observers@[n - 1]));
        }
        &self.observers[n - 1]
    }

    fn unregister(&mut self, id: &str)
        ensures
            final(self)@ == (ProjectView { observers: final(self)@.observers, ..old(self)@ }),
            final(self)@.observers == final(self).observer_list(),
            old(self)@.observers == old(self).observer_list(),
    {
        remove_observers(&mut self.observers, id);
    }

    fn commit_changes(&self, item: Field) -> (r: Vec<String>)
        ensures
            self@.observers == self.observer_list(),
    {
        ids_for(&self.observers, item)
    }
}

} // verus!
