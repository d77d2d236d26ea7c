use jagra::Jagra;
use jagra::Message;
use jagra::ModalState;
use jagra::RenderPage;
use jagra::Status;

fn with_two_orgs() -> Jagra {
    let mut s = Jagra::new();
    s.update_with_id(Message::NewOrgNameInputChange(String::from("Acme")), 0);
    s.update_with_id(Message::CreateNewOrg, 1);
    s.update_with_id(Message::NewOrgNameInputChange(String::from("Globex")), 0);
    s.update_with_id(Message::CreateNewOrg, 2);
    s
}

#[test]
fn home_lists_org_names_in_insertion_order() {
    let s = with_two_orgs();
    let r = s.project();
    match r.base {
        RenderPage::Home { org_names } => {
            assert_eq!(org_names, vec![String::from("Acme"), String::from("Globex")]);
        }
        other => panic!("expected the home page, got {:?}", other),
    }
    assert!(matches!(r.modal, ModalState::NoModal));
}

#[test]
fn empty_store_renders_empty_home_list() {
    let s = Jagra::new();
    let r = s.project();
    match r.base {
        RenderPage::Home { org_names } => assert_eq!(org_names.len(), 0),
        other => panic!("expected the home page, got {:?}", other),
    }
}

#[test]
fn org_page_resolves_name_and_task_titles() {
    let mut s = with_two_orgs();
    s.update_with_id(Message::GoToOrgPage(2), 0);
    s.update_with_id(
        Message::CreateNewTask(String::from("Plan"), Status::Pending, String::from("Ann")),
        10,
    );
    s.update_with_id(
        Message::CreateNewTask(String::from("Build"), Status::Active, String::from("Ben")),
        11,
    );
    let r = s.project();
    match r.base {
        RenderPage::OrgFound { name, task_titles } => {
            assert_eq!(name, "Globex");
            assert_eq!(task_titles, vec![String::from("Plan"), String::from("Build")]);
        }
        other => panic!("expected a resolved org page, got {:?}", other),
    }
}

#[test]
fn dangling_org_page_renders_not_found() {
    let mut s = with_two_orgs();
    s.update_with_id(Message::GoToOrgPage(12345), 0);
    let r = s.project();
    assert!(matches!(r.base, RenderPage::OrgNotFound));
}

#[test]
fn task_page_resolves_across_orgs() {
    let mut s = with_two_orgs();
    s.update_with_id(Message::GoToOrgPage(2), 0);
    s.update_with_id(
        Message::CreateNewTask(String::from("Deep"), Status::Abandoned, String::from("Cy")),
        42,
    );
    s.update_with_id(Message::GoToTaskPage(42), 0);
    let r = s.project();
    match r.base {
        RenderPage::TaskFound { title, status, assignee } => {
            assert_eq!(title, "Deep");
            assert_eq!(status, Status::Abandoned);
            assert_eq!(assignee, "Cy");
        }
        other => panic!("expected a resolved task page, got {:?}", other),
    }
}

#[test]
fn dangling_task_page_renders_not_found() {
    let mut s = with_two_orgs();
    s.update_with_id(Message::GoToTaskPage(42), 0);
    let r = s.project();
    assert!(matches!(r.base, RenderPage::TaskNotFound));
}

#[test]
fn org_modal_overlay_carries_the_draft() {
    let mut s = Jagra::new();
    s.update_with_id(Message::OpenNewOrgModal, 0);
    s.update_with_id(Message::NewOrgNameInputChange(String::from("Typing")), 0);
    let r = s.project();
    assert!(matches!(r.base, RenderPage::Home { .. }));
    match r.modal {
        ModalState::NewOrg { draft } => assert_eq!(draft, "Typing"),
        other => panic!("expected the new-org modal, got {:?}", other),
    }
}

#[test]
fn task_modal_overlay_renders() {
    let mut s = Jagra::new();
    s.update_with_id(Message::OpenNewTaskModal, 0);
    let r = s.project();
    assert!(matches!(r.modal, ModalState::NewTask));
    s.update_with_id(Message::CloseNewTaskModal, 0);
    let r = s.project();
    assert!(matches!(r.modal, ModalState::NoModal));
}

#[test]
fn base_page_is_preserved_under_the_modal() {
    let mut s = with_two_orgs();
    s.update_with_id(Message::GoToOrgPage(1), 0);
    s.update_with_id(Message::OpenNewOrgModal, 0);
    let r = s.project();
    match r.base {
        RenderPage::OrgFound { name, .. } => assert_eq!(name, "Acme"),
        other => panic!("expected a resolved org page, got {:?}", other),
    }
    assert!(matches!(r.modal, ModalState::NewOrg { .. }));
    s.update_with_id(Message::CloseNewOrgModal, 0);
    let r = s.project();
    match r.base {
        RenderPage::OrgFound { name, .. } => assert_eq!(name, "Acme"),
        other => panic!("expected a resolved org page, got {:?}", other),
    }
    assert!(matches!(r.modal, ModalState::NoModal));
}
