use jagra::Effect;
use jagra::Jagra;
use jagra::Message;
use jagra::Page;
use jagra::Status;

#[test]
fn initial_state_shape() {
    let s = Jagra::new();
    assert_eq!(s.page, Page::Home);
    assert_eq!(s.org_name, "");
    assert!(!s.new_org_modal_open);
    assert!(!s.new_task_modal_open);
    assert_eq!(s.orgs.len(), 0);
}

#[test]
fn window_title() {
    let s = Jagra::new();
    assert_eq!(s.title(), "Jagra");
}

#[test]
fn end_to_end_scenario() {
    let mut s = Jagra::new();
    s.update_with_id(Message::NewOrgNameInputChange(String::from("Acme")), 0);
    assert_eq!(s.org_name, "Acme");
    s.update_with_id(Message::CreateNewOrg, 7);
    assert_eq!(s.orgs.len(), 1);
    assert_eq!(s.orgs[0].name, "Acme");
    assert_eq!(s.orgs[0].id, 7);
    assert_eq!(s.org_name, "");
    s.update_with_id(Message::GoToOrgPage(7), 0);
    assert_eq!(s.page, Page::Org(7));
    s.update_with_id(
        Message::CreateNewTask(String::from("Ship v1"), Status::Pending, String::from("Alice")),
        9,
    );
    assert_eq!(s.orgs[0].tasks.len(), 1);
    assert_eq!(s.orgs[0].tasks[0].id, 9);
    assert_eq!(s.orgs[0].tasks[0].title, "Ship v1");
    assert_eq!(s.orgs[0].tasks[0].status, Status::Pending);
    assert_eq!(s.orgs[0].tasks[0].assignee, "Alice");
}

#[test]
fn double_create_org_resets_draft() {
    let mut s = Jagra::new();
    s.update_with_id(Message::NewOrgNameInputChange(String::from("First")), 0);
    s.update_with_id(Message::CreateNewOrg, 1);
    assert_eq!(s.org_name, "");
    s.update_with_id(Message::CreateNewOrg, 2);
    assert_eq!(s.orgs.len(), 2);
    assert_eq!(s.orgs[0].name, "First");
    assert_eq!(s.orgs[1].name, "");
}

#[test]
fn create_task_on_home_is_noop() {
    let mut s = Jagra::new();
    s.update_with_id(Message::NewOrgNameInputChange(String::from("Org A")), 0);
    s.update_with_id(Message::CreateNewOrg, 1);
    assert_eq!(s.page, Page::Home);
    s.update_with_id(
        Message::CreateNewTask(String::from("Lost"), Status::Active, String::from("Bob")),
        5,
    );
    assert_eq!(s.orgs.len(), 1);
    assert_eq!(s.orgs[0].tasks.len(), 0);
}

#[test]
fn create_task_on_dangling_org_page_is_noop() {
    let mut s = Jagra::new();
    s.update_with_id(Message::NewOrgNameInputChange(String::from("Org A")), 0);
    s.update_with_id(Message::CreateNewOrg, 1);
    s.update_with_id(Message::GoToOrgPage(999), 0);
    s.update_with_id(
        Message::CreateNewTask(String::from("Lost"), Status::Pending, String::from("Bob")),
        5,
    );
    assert_eq!(s.orgs[0].tasks.len(), 0);
}

#[test]
fn create_task_appends_as_last_and_touches_one_org() {
    let mut s = Jagra::new();
    s.update_with_id(Message::NewOrgNameInputChange(String::from("Org A")), 0);
    s.update_with_id(Message::CreateNewOrg, 1);
    s.update_with_id(Message::NewOrgNameInputChange(String::from("Org B")), 0);
    s.update_with_id(Message::CreateNewOrg, 2);
    s.update_with_id(Message::GoToOrgPage(2), 0);
    s.update_with_id(
        Message::CreateNewTask(String::from("One"), Status::Pending, String::from("Ann")),
        10,
    );
    s.update_with_id(
        Message::CreateNewTask(String::from("Two"), Status::Active, String::from("Ben")),
        11,
    );
    assert_eq!(s.orgs[0].tasks.len(), 0);
    assert_eq!(s.orgs[1].tasks.len(), 2);
    assert_eq!(s.orgs[1].tasks[0].title, "One");
    assert_eq!(s.orgs[1].tasks[1].title, "Two");
    assert_eq!(s.orgs[1].tasks[1].id, 11);
}

#[test]
fn create_task_goes_to_first_org_with_equal_ids() {
    let mut s = Jagra::new();
    s.update_with_id(Message::NewOrgNameInputChange(String::from("Twin A")), 0);
    s.update_with_id(Message::CreateNewOrg, 4);
    s.update_with_id(Message::NewOrgNameInputChange(String::from("Twin B")), 0);
    s.update_with_id(Message::CreateNewOrg, 4);
    s.update_with_id(Message::GoToOrgPage(4), 0);
    s.update_with_id(
        Message::CreateNewTask(String::from("Here"), Status::Pending, String::from("Cy")),
        6,
    );
    assert_eq!(s.orgs[0].tasks.len(), 1);
    assert_eq!(s.orgs[1].tasks.len(), 0);
}

#[test]
fn open_modals_are_mutually_exclusive() {
    let mut s = Jagra::new();
    let e = s.update_with_id(Message::OpenNewOrgModal, 0);
    assert_eq!(e, Effect::FocusOrgNameInput);
    assert!(s.new_org_modal_open);
    assert!(!s.new_task_modal_open);
    let e = s.update_with_id(Message::OpenNewTaskModal, 0);
    assert_eq!(e, Effect::Nothing);
    assert!(!s.new_org_modal_open);
    assert!(s.new_task_modal_open);
    let e = s.update_with_id(Message::OpenNewOrgModal, 0);
    assert_eq!(e, Effect::FocusOrgNameInput);
    assert!(s.new_org_modal_open);
    assert!(!s.new_task_modal_open);
}

#[test]
fn close_modal_messages_close_their_modal() {
    let mut s = Jagra::new();
    s.update_with_id(Message::OpenNewOrgModal, 0);
    s.update_with_id(Message::CloseNewOrgModal, 0);
    assert!(!s.new_org_modal_open);
    s.update_with_id(Message::OpenNewTaskModal, 0);
    s.update_with_id(Message::CloseNewTaskModal, 0);
    assert!(!s.new_task_modal_open);
}

#[test]
fn close_org_modal_twice_is_idempotent() {
    let mut s = Jagra::new();
    s.update_with_id(Message::NewOrgNameInputChange(String::from("Draft")), 0);
    s.update_with_id(Message::OpenNewOrgModal, 0);
    s.update_with_id(Message::CloseNewOrgModal, 0);
    let page = s.page;
    let org_name = s.org_name.clone();
    let org_modal = s.new_org_modal_open;
    let task_modal = s.new_task_modal_open;
    let n_orgs = s.orgs.len();
    s.update_with_id(Message::CloseNewOrgModal, 0);
    assert_eq!(s.page, page);
    assert_eq!(s.org_name, org_name);
    assert_eq!(s.new_org_modal_open, org_modal);
    assert_eq!(s.new_task_modal_open, task_modal);
    assert_eq!(s.orgs.len(), n_orgs);
}

#[test]
fn draft_persists_across_modal_close() {
    let mut s = Jagra::new();
    s.update_with_id(Message::OpenNewOrgModal, 0);
    s.update_with_id(Message::NewOrgNameInputChange(String::from("Kept")), 0);
    s.update_with_id(Message::CloseNewOrgModal, 0);
    assert_eq!(s.org_name, "Kept");
    s.update_with_id(Message::OpenNewOrgModal, 0);
    assert_eq!(s.org_name, "Kept");
}

#[test]
fn navigation_is_unconditional() {
    let mut s = Jagra::new();
    s.update_with_id(Message::GoToOrgPage(12345), 0);
    assert_eq!(s.page, Page::Org(12345));
    s.update_with_id(Message::GoToTaskPage(54321), 0);
    assert_eq!(s.page, Page::Task(54321));
    s.update_with_id(Message::GoHome, 0);
    assert_eq!(s.page, Page::Home);
}

#[test]
fn navigation_messages_request_no_effect() {
    let mut s = Jagra::new();
    assert_eq!(s.update_with_id(Message::GoHome, 0), Effect::Nothing);
    assert_eq!(s.update_with_id(Message::GoToOrgPage(1), 0), Effect::Nothing);
    assert_eq!(s.update_with_id(Message::GoToTaskPage(1), 0), Effect::Nothing);
    assert_eq!(s.update_with_id(Message::CloseNewOrgModal, 0), Effect::Nothing);
    assert_eq!(s.update_with_id(Message::CreateNewOrg, 1), Effect::Nothing);
}

#[test]
fn find_org_returns_first_match_or_nothing() {
    let mut s = Jagra::new();
    s.update_with_id(Message::NewOrgNameInputChange(String::from("Acme")), 0);
    s.update_with_id(Message::CreateNewOrg, 3);
    s.update_with_id(Message::NewOrgNameInputChange(String::from("Shadow")), 0);
    s.update_with_id(Message::CreateNewOrg, 3);
    let found = s.find_org(3).expect("identifier 3 is in the store");
    assert_eq!(found.name, "Acme");
    assert!(s.find_org(99).is_none());
}

#[test]
fn generated_identifiers_are_distinct() {
    let mut s = Jagra::new();
    s.update(Message::NewOrgNameInputChange(String::from("One")));
    s.update(Message::CreateNewOrg);
    s.update(Message::NewOrgNameInputChange(String::from("Two")));
    s.update(Message::CreateNewOrg);
    assert_eq!(s.orgs.len(), 2);
    assert_ne!(s.orgs[0].id, s.orgs[1].id);
    s.update(Message::GoToOrgPage(s.orgs[0].id));
    s.update(Message::CreateNewTask(
        String::from("T"),
        Status::Completed,
        String::from("Dee"),
    ));
    assert_eq!(s.orgs[0].tasks.len(), 1);
    assert_ne!(s.orgs[0].tasks[0].id, s.orgs[0].id);
    assert_ne!(s.orgs[0].tasks[0].id, s.orgs[1].id);
}
