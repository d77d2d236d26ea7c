//! The library's stated laws: identifier uniqueness across every
//! transition, the exact shape of task creation and its no-op case, the
//! mutual exclusion of the two modals, tolerance of dangling navigation,
//! and idempotence of closing a modal.

use vstd::prelude::*;

use crate::controller::first_org_index;
use crate::controller::lemma_first_org_index;
use crate::controller::next_state;
use crate::controller::org_resolves;
use crate::entities::Status;
use crate::entities::TaskV;
use crate::render::render_base;
use crate::render::RenderPageV;
use crate::render::task_resolves;
use crate::state::initial_state;
use crate::state::JagraV;
use crate::state::MessageV;
use crate::state::Page;

verus! {

/// Whether some entity in the state, organization or task, carries this
/// identifier.
pub open spec fn has_id(s: JagraV, id: u128) -> bool {
    ||| exists|k: int| 0 <= k < s.orgs.len() && s.orgs[k].id == id
    ||| exists|k: int, j: int|
        0 <= k < s.orgs.len() && 0 <= j < s.orgs[k].tasks.len() && s.orgs[k].tasks[j].id == id
}

/// Every identifier in the state names exactly one entity: organizations
/// are pairwise distinct, tasks are pairwise distinct across the whole
/// store, and no organization shares an identifier with a task.
pub open spec fn ids_unique(s: JagraV) -> bool {
    &&& forall|a: int, b: int|
        0 <= a < s.orgs.len() && 0 <= b < s.orgs.len() && a != b ==> s.orgs[a].id != s.orgs[b].id
    &&& forall|a: int, i: int, b: int, j: int|
        0 <= a < s.orgs.len() && 0 <= i < s.orgs[a].tasks.len() && 0 <= b < s.orgs.len() && 0 <= j
            < s.orgs[b].tasks.len() && (a != b || i != j) ==> s.orgs[a].tasks[i].id
            != s.orgs[b].tasks[j].id
    &&& forall|a: int, b: int, j: int|
        0 <= a < s.orgs.len() && 0 <= b < s.orgs.len() && 0 <= j < s.orgs[b].tasks.len()
            ==> s.orgs[a].id != s.orgs[b].tasks[j].id
}

/// The initial state holds no identifier at all, so they are vacuously
/// unique: the base case for uniqueness over every message sequence.
pub proof fn lemma_initial_ids_unique()
    ensures
        ids_unique(initial_state()),
        forall|id: u128| !has_id(initial_state(), id),
{
}

/// One controller step keeps identifiers unique: whatever the message,
/// if the state's identifiers are unique and the generated identifier is
/// not yet in use, the next state's identifiers are unique too. By
/// induction from the initial state, every created organization (and
/// task) receives a distinct identifier, for every message sequence.
pub proof fn lemma_update_preserves_unique_ids(s: JagraV, m: MessageV, fresh: u128)
    requires
        ids_unique(s),
        !has_id(s, fresh),
    ensures
        ids_unique(next_state(s, m, fresh)),
{
    let s2 = next_state(s, m, fresh);
    match m {
        MessageV::CreateNewOrg => {
            let n = s.orgs.len() as int;
            assert forall|a: int, b: int|
                0 <= a < s2.orgs.len() && 0 <= b < s2.orgs.len() && a != b implies s2.orgs[a].id
                != s2.orgs[b].id by {
                if a == n {
                    if s.orgs[b].id == fresh {
                        assert(has_id(s, fresh));
                    }
                } else if b == n {
                    if s.orgs[a].id == fresh {
                        assert(has_id(s, fresh));
                    }
                }
            }
            assert(s2.orgs[n].tasks.len() == 0);
            assert forall|a: int, i: int, b: int, j: int|
                0 <= a < s2.orgs.len() && 0 <= i < s2.orgs[a].tasks.len() && 0 <= b
                    < s2.orgs.len() && 0 <= j < s2.orgs[b].tasks.len() && (a != b || i != j)
                implies s2.orgs[a].tasks[i].id != s2.orgs[b].tasks[j].id by {
                assert(a < n && b < n);
            }
            assert forall|a: int, b: int, j: int|
                0 <= a < s2.orgs.len() && 0 <= b < s2.orgs.len() && 0 <= j
                    < s2.orgs[b].tasks.len() implies s2.orgs[a].id != s2.orgs[b].tasks[j].id by {
                assert(b < n);
                if a == n {
                    if s.orgs[b].tasks[j].id == fresh {
                        assert(has_id(s, fresh));
                    }
                }
            }
        },
        MessageV::CreateNewTask(title, status, assignee) => {
            match s.page {
                Page::Org(id) => {
                    if org_resolves(s.orgs, id) {
                        lemma_first_org_index(s.orgs, id);
                        let k = first_org_index(s.orgs, id);
                        let m0 = s.orgs[k].tasks.len() as int;
                        assert forall|x: int| 0 <= x < s2.orgs.len() implies s2.orgs[x].id
                            == s.orgs[x].id by {}
                        assert forall|a: int, i: int, b: int, j: int|
                            0 <= a < s2.orgs.len() && 0 <= i < s2.orgs[a].tasks.len() && 0 <= b
                                < s2.orgs.len() && 0 <= j < s2.orgs[b].tasks.len() && (a != b || i
                                != j) implies s2.orgs[a].tasks[i].id != s2.orgs[b].tasks[j].id by {
                            if a == k && i == m0 {
                                if s.orgs[b].tasks[j].id == fresh {
                                    assert(has_id(s, fresh));
                                }
                            } else if b == k && j == m0 {
                                if s.orgs[a].tasks[i].id == fresh {
                                    assert(has_id(s, fresh));
                                }
                            } else {
                                assert(s2.orgs[a].tasks[i] == s.orgs[a].tasks[i]);
                                assert(s2.orgs[b].tasks[j] == s.orgs[b].tasks[j]);
                            }
                        }
                        assert forall|a: int, b: int, j: int|
                            0 <= a < s2.orgs.len() && 0 <= b < s2.orgs.len() && 0 <= j
                                < s2.orgs[b].tasks.len() implies s2.orgs[a].id
                            != s2.orgs[b].tasks[j].id by {
                            if b == k && j == m0 {
                                if s.orgs[a].id == fresh {
                                    assert(has_id(s, fresh));
                                }
                            } else {
                                assert(s2.orgs[b].tasks[j] == s.orgs[b].tasks[j]);
                            }
                        }
                    }
                },
                _ => {},
            }
        },
        _ => {},
    }
}

/// Two organization creations in a row: the first resets the draft, so
/// without retyping the first new organization carries the typed name and
/// the second carries the empty name.
pub proof fn lemma_rapid_double_create_org(s: JagraV, id1: u128, id2: u128)
    ensures
        ({
            let s1 = next_state(s, MessageV::CreateNewOrg, id1);
            let s2 = next_state(s1, MessageV::CreateNewOrg, id2);
            &&& s1.org_name == Seq::<char>::empty()
            &&& s2.orgs.len() == s.orgs.len() + 2
            &&& s2.orgs[s.orgs.len() as int].name == s.org_name
            &&& s2.orgs[s.orgs.len() as int + 1].name == Seq::<char>::empty()
        }),
{
}

/// Creating a task while the current page is not an existing
/// organization's page — the home page, a task page, or a dangling
/// organization reference — changes nothing at all.
pub proof fn lemma_create_task_off_org_page(
    s: JagraV,
    title: Seq<char>,
    status: Status,
    assignee: Seq<char>,
    fresh: u128,
)
    requires
        match s.page {
            Page::Org(id) => !org_resolves(s.orgs, id),
            _ => true,
        },
    ensures
        next_state(s, MessageV::CreateNewTask(title, status, assignee), fresh) == s,
{
}

/// Creating a task while an existing organization's page is open appends
/// it as the last task of that organization — the first one carrying the
/// page's identifier — and touches nothing else.
pub proof fn lemma_create_task_appends(
    s: JagraV,
    title: Seq<char>,
    status: Status,
    assignee: Seq<char>,
    fresh: u128,
    id: u128,
)
    requires
        s.page == Page::Org(id),
        org_resolves(s.orgs, id),
    ensures
        ({
            let k = first_org_index(s.orgs, id);
            let s2 = next_state(s, MessageV::CreateNewTask(title, status, assignee), fresh);
            &&& s2.orgs.len() == s.orgs.len()
            &&& s2.orgs[k].id == s.orgs[k].id
            &&& s2.orgs[k].name == s.orgs[k].name
            &&& s2.orgs[k].tasks == s.orgs[k].tasks.push(TaskV { id: fresh, title, status, assignee })
            &&& forall|l: int| 0 <= l < s.orgs.len() && l != k ==> s2.orgs[l] == s.orgs[l]
            &&& s2.page == s.page
            &&& s2.org_name == s.org_name
            &&& s2.new_org_modal_open == s.new_org_modal_open
            &&& s2.new_task_modal_open == s.new_task_modal_open
        }),
{
    lemma_first_org_index(s.orgs, id);
}

/// Opening either modal forcibly closes the other, whatever state the
/// flags were in.
pub proof fn lemma_open_modal_forces_other_closed(s: JagraV, fresh: u128)
    ensures
        !next_state(s, MessageV::OpenNewOrgModal, fresh).new_task_modal_open,
        !next_state(s, MessageV::OpenNewTaskModal, fresh).new_org_modal_open,
{
}

/// At most one modal is open: the mutual-exclusion invariant holds after
/// every transition of the table.
pub proof fn lemma_modal_mutual_exclusion(s: JagraV, m: MessageV, fresh: u128)
    requires
        !(s.new_org_modal_open && s.new_task_modal_open),
    ensures
        !(next_state(s, m, fresh).new_org_modal_open && next_state(
            s,
            m,
            fresh,
        ).new_task_modal_open),
{
}

/// Navigating to an organization identifier that does not resolve
/// succeeds — the page changes, nothing else does — and the view
/// projection renders the "not found" fallback for it.
pub proof fn lemma_go_to_absent_org_page(s: JagraV, id: u128, fresh: u128)
    requires
        !org_resolves(s.orgs, id),
    ensures
        ({
            let s2 = next_state(s, MessageV::GoToOrgPage(id), fresh);
            &&& s2 == (JagraV { page: Page::Org(id), ..s })
            &&& render_base(s2) == RenderPageV::OrgNotFound
        }),
{
}

/// Navigating to a task identifier that no task carries succeeds, and the
/// view projection renders the "not found" fallback for it.
pub proof fn lemma_go_to_absent_task_page(s: JagraV, id: u128, fresh: u128)
    requires
        !task_resolves(s.orgs, id),
    ensures
        ({
            let s2 = next_state(s, MessageV::GoToTaskPage(id), fresh);
            &&& s2 == (JagraV { page: Page::Task(id), ..s })
            &&& render_base(s2) == RenderPageV::TaskNotFound
        }),
{
}

/// Closing the new-organization modal is idempotent: applying it twice
/// leaves the state identical to applying it once.
pub proof fn lemma_close_org_modal_idempotent(s: JagraV, id1: u128, id2: u128)
    ensures
        next_state(next_state(s, MessageV::CloseNewOrgModal, id1), MessageV::CloseNewOrgModal, id2)
            == next_state(s, MessageV::CloseNewOrgModal, id1),
{
}

} // verus!
