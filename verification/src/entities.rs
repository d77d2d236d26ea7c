//! The entity store's data: organizations and the tasks they own.

use vstd::prelude::*;

verus! {

/// The status a task is given at creation. No transition graph is imposed:
/// the four values are an unordered enumeration.
#[derive(Clone, Copy, Debug, PartialEq, Eq, Structural)]
pub enum Status {
    Pending,
    Active,
    Completed,
    Abandoned,
}

/// A task: an immutable identifier, a title, a status and a free-text
/// assignee label. Owned exclusively by its parent organization.
#[derive(Debug)]
pub struct Task {
    pub id: u128,
    pub title: String,
    pub status: Status,
    pub assignee: String,
}

/// The mathematical value of a [`Task`].
#[verifier::ext_equal]
pub struct TaskV {
    pub id: u128,
    pub title: Seq<char>,
    pub status: Status,
    pub assignee: Seq<char>,
}

impl View for Task {
    type V = TaskV;

    open spec fn view(&self) -> TaskV {
        TaskV { id: self.id, title: self.title@, status: self.status, assignee: self.assignee@ }
    }
}

impl Task {
    /// Builds a task from a caller-supplied identifier and its fields.
    pub fn new(id: u128, title: String, status: Status, assignee: String) -> (t: Task)
        ensures
            t@ == (TaskV { id, title: title@, status, assignee: assignee@ }),
    {
        Task { id, title, status, assignee }
    }
}

/// An organization: an immutable identifier, a name, and the ordered
/// sequence of tasks it owns (insertion order is display order).
#[derive(Debug)]
pub struct Org {
    pub id: u128,
    pub name: String,
    pub tasks: Vec<Task>,
}

/// The mathematical value of an [`Org`].
#[verifier::ext_equal]
pub struct OrgV {
    pub id: u128,
    pub name: Seq<char>,
    pub tasks: Seq<TaskV>,
}

impl View for Org {
    type V = OrgV;

    open spec fn view(&self) -> OrgV {
        OrgV { id: self.id, name: self.name@, tasks: self.tasks@.map_values(|t: Task| t@) }
    }
}

impl Org {
    /// Builds an organization with no tasks from a caller-supplied
    /// identifier and name.
    pub fn new(id: u128, name: String) -> (o: Org)
        ensures
            o@ == (OrgV { id, name: name@, tasks: Seq::<TaskV>::empty() }),
    {
        let o = Org { id, name, tasks: Vec::new() };
        proof {
            assert(o@.tasks =~= Seq::<TaskV>::empty());
        }
        o
    }
}

} // verus!
