//! The controller: a total state-transition function. Every message has a
//! defined transition; the only silent no-op is a task created while no
//! existing organization's page is open.

use vstd::prelude::*;

use crate::entities::Org;
use crate::entities::OrgV;
use crate::entities::Task;
use crate::entities::TaskV;
use crate::state::Effect;
use crate::state::Jagra;
use crate::state::JagraV;
use crate::state::Message;
use crate::state::MessageV;
use crate::state::Page;

verus! {

/// Whether some organization in the store carries this identifier.
pub open spec fn org_resolves(orgs: Seq<OrgV>, id: u128) -> bool {
    exists|k: int| 0 <= k < orgs.len() && orgs[k].id == id
}

/// The position of the first organization carrying this identifier
/// (meaningful only when one resolves).
pub open spec fn first_org_index(orgs: Seq<OrgV>, id: u128) -> int
    decreases orgs.len(),
{
    if orgs.len() == 0 {
        0
    } else if orgs[0].id == id {
        0
    } else {
        1 + first_org_index(orgs.drop_first(), id)
    }
}

/// When an identifier resolves, `first_org_index` really is the first
/// position that carries it.
pub proof fn lemma_first_org_index(orgs: Seq<OrgV>, id: u128)
    requires
        org_resolves(orgs, id),
    ensures
        ({
            let k = first_org_index(orgs, id);
            &&& 0 <= k < orgs.len()
            &&& orgs[k].id == id
            &&& forall|j: int| 0 <= j < k ==> orgs[j].id != id
        }),
    decreases orgs.len(),
{
    if orgs[0].id == id {
    } else {
        let w = choose|w: int| 0 <= w < orgs.len() && orgs[w].id == id;
        assert(orgs.drop_first()[w - 1] == orgs[w]);
        assert(org_resolves(orgs.drop_first(), id));
        lemma_first_org_index(orgs.drop_first(), id);
        let k1 = first_org_index(orgs.drop_first(), id);
        assert(orgs[k1 + 1] == orgs.drop_first()[k1]);
        assert forall|j: int| 0 <= j < k1 + 1 implies orgs[j].id != id by {
            if j >= 1 {
                assert(orgs.drop_first()[j - 1] == orgs[j]);
            }
        }
    }
}

/// The organization with one more task appended at the end.
pub open spec fn with_task(o: OrgV, t: TaskV) -> OrgV {
    OrgV { tasks: o.tasks.push(t), ..o }
}

/// The transition function of the controller: the state after `m` is
/// applied to `s`, where `fresh` is the identifier the external generator
/// supplied for whatever entity the message creates (ignored by the
/// messages that create none).
pub open spec fn next_state(s: JagraV, m: MessageV, fresh: u128) -> JagraV {
    match m {
        MessageV::GoHome => JagraV { page: Page::Home, ..s },
        MessageV::GoToOrgPage(id) => JagraV { page: Page::Org(id), ..s },
        MessageV::GoToTaskPage(id) => JagraV { page: Page::Task(id), ..s },
        MessageV::OpenNewOrgModal => JagraV {
            new_org_modal_open: true,
            new_task_modal_open: false,
            ..s
        },
        MessageV::CloseNewOrgModal => JagraV { new_org_modal_open: false, ..s },
        MessageV::CreateNewOrg => JagraV {
            org_name: Seq::<char>::empty(),
            orgs: s.orgs.push(OrgV { id: fresh, name: s.org_name, tasks: Seq::<TaskV>::empty() }),
            ..s
        },
        MessageV::OpenNewTaskModal => JagraV {
            new_org_modal_open: false,
            new_task_modal_open: true,
            ..s
        },
        MessageV::CloseNewTaskModal => JagraV { new_task_modal_open: false, ..s },
        MessageV::CreateNewTask(title, status, assignee) => match s.page {
            Page::Org(id) => if org_resolves(s.orgs, id) {
                let k = first_org_index(s.orgs, id);
                let t = TaskV { id: fresh, title, status, assignee };
                JagraV { orgs: s.orgs.update(k, with_task(s.orgs[k], t)), ..s }
            } else {
                s
            },
            _ => s,
        },
        MessageV::NewOrgNameInputChange(text) => JagraV { org_name: text, ..s },
    }
}

/// The side effect the controller requests of the presentation layer for a
/// message: opening the new-organization modal asks for focus on its name
/// input, and nothing else asks for anything.
pub open spec fn next_effect(m: MessageV) -> Effect {
    match m {
        MessageV::OpenNewOrgModal => Effect::FocusOrgNameInput,
        _ => Effect::Nothing,
    }
}

/// Relies on uuid::Uuid::new_v4 for a freshly generated version-4
/// identifier, read out as a plain 128-bit value with uuid::Uuid::as_u128.
/// The identifier is drawn from the operating system's randomness, so
/// nothing is promised of the value.
#[verifier::external_body]
fn fresh_id() -> u128 {
    uuid::Uuid::new_v4().as_u128()
}

impl Jagra {
    /// Looks an organization up by identifier: the first one carrying it,
    /// in insertion order, or nothing — rather than a failure — when none
    /// does.
    pub fn find_org(&self, id: u128) -> (r: Option<&Org>)
        ensures
            match r {
                Some(o) => {
                    &&& org_resolves(self@.orgs, id)
                    &&& o@ == self@.orgs[first_org_index(self@.orgs, id)]
                },
                None => !org_resolves(self@.orgs, id),
            },
    {
        let n = self.orgs.len();
        let mut i: usize = 0;
        while i < n && self.orgs[i].id != id
            invariant
                i <= n,
                n == self.orgs@.len(),
                forall|j: int| 0 <= j < i ==> self.orgs@[j].id != id,
            decreases n - i,
        {
            i += 1;
        }
        if i < n {
            proof {
                assert(self@.orgs[i as int].id == id);
                assert(org_resolves(self@.orgs, id));
                lemma_first_org_index(self@.orgs, id);
                let k = first_org_index(self@.orgs, id);
                assert(k == i) by {
                    if k < i {
                        assert(self@.orgs[k].id != id);
                    }
                }
            }
            Some(&self.orgs[i])
        } else {
            proof {
                assert(!org_resolves(self@.orgs, id));
            }
            None
        }
    }

    /// Applies one message to the state, with the identifier for whatever
    /// entity the message creates supplied by the caller. Returns the
    /// effect the presentation layer is asked to perform.
    pub fn update_with_id(&mut self, message: Message, fresh: u128) -> (e: Effect)
        ensures
            final(self)@ == next_state(old(self)@, message@, fresh),
            e == next_effect(message@),
    {
        match message {
            Message::GoHome => {
                self.page = Page::Home;
                Effect::Nothing
            },
            Message::GoToOrgPage(id) => {
                self.page = Page::Org(id);
                Effect::Nothing
            },
            Message::GoToTaskPage(id) => {
                self.page = Page::Task(id);
                Effect::Nothing
            },
            Message::OpenNewOrgModal => {
                self.new_task_modal_open = false;
                self.new_org_modal_open = true;
                Effect::FocusOrgNameInput
            },
            Message::CloseNewOrgModal => {
                self.new_org_modal_open = false;
                Effect::Nothing
            },
            Message::CreateNewOrg => {
                let name = self.org_name.clone();
                self.orgs.push(Org::new(fresh, name));
                self.org_name = String::new();
                proof {
                    let want = next_state(old(self)@, MessageV::CreateNewOrg, fresh);
                    assert(self@.orgs =~= want.orgs);
                    assert(self@ =~= want);
                }
                Effect::Nothing
            },
            Message::OpenNewTaskModal => {
                self.new_org_modal_open = false;
                self.new_task_modal_open = true;
                Effect::Nothing
            },
            Message::CloseNewTaskModal => {
                self.new_task_modal_open = false;
                Effect::Nothing
            },
            Message::CreateNewTask(title, status, assignee) => {
                let ghost titlev = title@;
                let ghost assigneev = assignee@;
                match self.page {
                    Page::Org(id) => {
                        let n = self.orgs.len();
                        let mut i: usize = 0;
                        while i < n && self.orgs[i].id != id
                            invariant
                                n == self.orgs@.len(),
                                i <= n,
                                forall|j: int| 0 <= j < i ==> self.orgs@[j].id != id,
                            decreases n - i,
                        {
                            i += 1;
                        }
                        if i < n {
                            let ghost pre = self@;
                            let t = Task::new(fresh, title, status, assignee);
                            let org = &mut self.orgs[i];
                            org.tasks.push(t);
                            proof {
                                assert(pre.orgs[i as int].id == id);
                                assert(org_resolves(pre.orgs, id));
                                lemma_first_org_index(pre.orgs, id);
                                let k = first_org_index(pre.orgs, id);
                                assert(k == i) by {
                                    if k < i {
                                        assert(pre.orgs[k].id != id);
                                    }
                                }
                                let want = next_state(old(self)@, message@, fresh);
                                assert(self@.orgs[i as int] =~= want.orgs[i as int]);
                                assert(self@.orgs =~= want.orgs);
                                assert(self@ =~= want);
                            }
                        } else {
                            proof {
                                assert(!org_resolves(self@.orgs, id));
                            }
                        }
                    },
                    _ => {},
                }
                Effect::Nothing
            },
            Message::NewOrgNameInputChange(text) => {
                self.org_name = text;
                Effect::Nothing
            },
        }
    }

    /// Applies one message to the state, drawing the identifier for
    /// whatever entity the message creates from the external generator.
    pub fn update(&mut self, message: Message) -> (e: Effect)
        ensures
            exists|id: u128| final(self)@ == next_state(old(self)@, message@, id),
            e == next_effect(message@),
    {
        let ghost m = message@;
        let id = fresh_id();
        let e = self.update_with_id(message, id);
        proof {
            assert(self@ == next_state(old(self)@, m, id));
        }
        e
    }
}

} // verus!
