//! The root application state, the page the user is on, the closed set of
//! user-intent messages, and the declarative effects the controller may
//! request of the presentation layer.

use vstd::prelude::*;

use crate::entities::Org;
use crate::entities::OrgV;
use crate::entities::Status;

verus! {

/// What the window currently shows. A page holds an identifier reference,
/// not the entity itself: the reference is resolved against the entity
/// store at render time, and a dangling reference is a valid state.
#[derive(Clone, Copy, Debug, PartialEq, Eq, Structural)]
pub enum Page {
    Home,
    Org(u128),
    Task(u128),
}

/// A declarative request for an imperative action performed by the
/// presentation layer outside the controller.
#[derive(Clone, Copy, Debug, PartialEq, Eq, Structural)]
pub enum Effect {
    /// Nothing is requested.
    Nothing,
    /// Move input focus to the new-organization name field.
    FocusOrgNameInput,
}

/// The closed set of user-intent messages: the only way any collaborator
/// may influence the application state.
#[derive(Debug)]
pub enum Message {
    GoHome,
    GoToOrgPage(u128),
    GoToTaskPage(u128),
    OpenNewOrgModal,
    CloseNewOrgModal,
    CreateNewOrg,
    OpenNewTaskModal,
    CloseNewTaskModal,
    CreateNewTask(String, Status, String),
    NewOrgNameInputChange(String),
}

/// The mathematical value of a [`Message`].
pub enum MessageV {
    GoHome,
    GoToOrgPage(u128),
    GoToTaskPage(u128),
    OpenNewOrgModal,
    CloseNewOrgModal,
    CreateNewOrg,
    OpenNewTaskModal,
    CloseNewTaskModal,
    CreateNewTask(Seq<char>, Status, Seq<char>),
    NewOrgNameInputChange(Seq<char>),
}

impl View for Message {
    type V = MessageV;

    open spec fn view(&self) -> MessageV {
        match self {
            Message::GoHome => MessageV::GoHome,
            Message::GoToOrgPage(id) => MessageV::GoToOrgPage(*id),
            Message::GoToTaskPage(id) => MessageV::GoToTaskPage(*id),
            Message::OpenNewOrgModal => MessageV::OpenNewOrgModal,
            Message::CloseNewOrgModal => MessageV::CloseNewOrgModal,
            Message::CreateNewOrg => MessageV::CreateNewOrg,
            Message::OpenNewTaskModal => MessageV::OpenNewTaskModal,
            Message::CloseNewTaskModal => MessageV::CloseNewTaskModal,
            Message::CreateNewTask(title, status, assignee) => MessageV::CreateNewTask(
                title@,
                *status,
                assignee@,
            ),
            Message::NewOrgNameInputChange(text) => MessageV::NewOrgNameInputChange(text@),
        }
    }
}

/// The root aggregate: everything the application mutates lives here, and
/// only the controller's update step mutates it.
#[derive(Debug)]
pub struct Jagra {
    /// The page the view projection renders.
    pub page: Page,
    /// Scratch text bound to the new-organization form.
    pub org_name: String,
    /// Whether the new-organization modal is open.
    pub new_org_modal_open: bool,
    /// Whether the new-task modal is open.
    pub new_task_modal_open: bool,
    /// The entity store: all organizations, insertion order preserved.
    pub orgs: Vec<Org>,
}

/// The mathematical value of the whole application state.
#[verifier::ext_equal]
pub struct JagraV {
    pub page: Page,
    pub org_name: Seq<char>,
    pub new_org_modal_open: bool,
    pub new_task_modal_open: bool,
    pub orgs: Seq<OrgV>,
}

impl View for Jagra {
    type V = JagraV;

    open spec fn view(&self) -> JagraV {
        JagraV {
            page: self.page,
            org_name: self.org_name@,
            new_org_modal_open: self.new_org_modal_open,
            new_task_modal_open: self.new_task_modal_open,
            orgs: self.orgs@.map_values(|o: Org| o@),
        }
    }
}

/// The state the application starts in: the home page, both modals closed,
/// an empty draft, and an empty entity store.
pub open spec fn initial_state() -> JagraV {
    JagraV {
        page: Page::Home,
        org_name: Seq::<char>::empty(),
        new_org_modal_open: false,
        new_task_modal_open: false,
        orgs: Seq::<OrgV>::empty(),
    }
}

impl Jagra {
    /// Constructs the initial state.
    pub fn new() -> (s: Jagra)
        ensures
            s@ == initial_state(),
    {
        let s = Jagra {
            page: Page::Home,
            org_name: String::new(),
            new_org_modal_open: false,
            new_task_modal_open: false,
            orgs: Vec::new(),
        };
        proof {
            assert(s@.orgs =~= Seq::<OrgV>::empty());
        }
        s
    }

    /// The window title.
    pub fn title(&self) -> (t: String)
        ensures
            t@ == "Jagra"@,
    {
        String::from_str("Jagra")
    }
}

} // verus!
