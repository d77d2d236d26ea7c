//! The view projection: a pure function from the application state to a
//! renderable description. Identifier references held by the current page
//! are resolved here, lazily; a reference that no longer resolves renders
//! as a "not found" fallback instead of failing.

use vstd::prelude::*;

use crate::controller::first_org_index;
use crate::controller::lemma_first_org_index;
use crate::controller::org_resolves;
use crate::entities::OrgV;
use crate::entities::Status;
use crate::entities::Task;
use crate::entities::TaskV;
use crate::state::Jagra;
use crate::state::JagraV;
use crate::state::Page;

verus! {

/// Whether this organization owns a task carrying this identifier.
pub open spec fn task_in_org(o: OrgV, id: u128) -> bool {
    exists|j: int| 0 <= j < o.tasks.len() && o.tasks[j].id == id
}

/// Whether any task, across all organizations, carries this identifier.
pub open spec fn task_resolves(orgs: Seq<OrgV>, id: u128) -> bool {
    exists|k: int| 0 <= k < orgs.len() && task_in_org(orgs[k], id)
}

/// The position of the first task carrying this identifier within one
/// organization's task sequence (meaningful only when one is there).
pub open spec fn first_task_index(tasks: Seq<TaskV>, id: u128) -> int
    decreases tasks.len(),
{
    if tasks.len() == 0 {
        0
    } else if tasks[0].id == id {
        0
    } else {
        1 + first_task_index(tasks.drop_first(), id)
    }
}

/// The position of the first organization owning a task that carries this
/// identifier (meaningful only when one resolves).
pub open spec fn first_task_org_index(orgs: Seq<OrgV>, id: u128) -> int
    decreases orgs.len(),
{
    if orgs.len() == 0 {
        0
    } else if task_in_org(orgs[0], id) {
        0
    } else {
        1 + first_task_org_index(orgs.drop_first(), id)
    }
}

/// The task an identifier resolves to: the first matching task of the
/// first organization, in display order, that owns one.
pub open spec fn resolved_task(orgs: Seq<OrgV>, id: u128) -> TaskV {
    let o = orgs[first_task_org_index(orgs, id)];
    o.tasks[first_task_index(o.tasks, id)]
}

/// When a task with the identifier is present, `first_task_index` really
/// is the first position carrying it.
pub proof fn lemma_first_task_index(tasks: Seq<TaskV>, id: u128)
    requires
        exists|j: int| 0 <= j < tasks.len() && tasks[j].id == id,
    ensures
        ({
            let j = first_task_index(tasks, id);
            &&& 0 <= j < tasks.len()
            &&& tasks[j].id == id
            &&& forall|l: int| 0 <= l < j ==> tasks[l].id != id
        }),
    decreases tasks.len(),
{
    if tasks[0].id == id {
    } else {
        let w = choose|w: int| 0 <= w < tasks.len() && tasks[w].id == id;
        assert(tasks.drop_first()[w - 1] == tasks[w]);
        lemma_first_task_index(tasks.drop_first(), id);
        let j1 = first_task_index(tasks.drop_first(), id);
        assert(tasks[j1 + 1] == tasks.drop_first()[j1]);
        assert forall|l: int| 0 <= l < j1 + 1 implies tasks[l].id != id by {
            if l >= 1 {
                assert(tasks.drop_first()[l - 1] == tasks[l]);
            }
        }
    }
}

/// When the identifier resolves to some task, `first_task_org_index`
/// really is the first organization owning one.
pub proof fn lemma_first_task_org_index(orgs: Seq<OrgV>, id: u128)
    requires
        task_resolves(orgs, id),
    ensures
        ({
            let k = first_task_org_index(orgs, id);
            &&& 0 <= k < orgs.len()
            &&& task_in_org(orgs[k], id)
            &&& forall|l: int| 0 <= l < k ==> !task_in_org(orgs[l], id)
        }),
    decreases orgs.len(),
{
    if task_in_org(orgs[0], id) {
    } else {
        let w = choose|w: int| 0 <= w < orgs.len() && task_in_org(orgs[w], id);
        assert(orgs.drop_first()[w - 1] == orgs[w]);
        assert(task_resolves(orgs.drop_first(), id));
        lemma_first_task_org_index(orgs.drop_first(), id);
        let k1 = first_task_org_index(orgs.drop_first(), id);
        assert(orgs[k1 + 1] == orgs.drop_first()[k1]);
        assert forall|l: int| 0 <= l < k1 + 1 implies !task_in_org(orgs[l], id) by {
            if l >= 1 {
                assert(orgs.drop_first()[l - 1] == orgs[l]);
            }
        }
    }
}

/// The page-dependent part of a render description.
#[derive(Debug)]
pub enum RenderPage {
    /// The home page: the organizations' names, in display order, beside
    /// the control that opens the new-organization modal.
    Home { org_names: Vec<String> },
    /// An organization page whose identifier resolved.
    OrgFound { name: String, task_titles: Vec<String> },
    /// The fallback for an organization identifier that does not resolve.
    OrgNotFound,
    /// A task page whose identifier resolved.
    TaskFound { title: String, status: Status, assignee: String },
    /// The fallback for a task identifier that does not resolve.
    TaskNotFound,
}

/// The modal overlay wrapped around the base page, if any. At most one
/// modal is shown; the new-organization modal carries the draft name.
#[derive(Debug)]
pub enum ModalState {
    NoModal,
    NewOrg { draft: String },
    NewTask,
}

/// Everything the presentation layer needs to draw one frame.
#[derive(Debug)]
pub struct RenderDescription {
    pub base: RenderPage,
    pub modal: ModalState,
}

/// The mathematical value of a [`RenderPage`].
#[verifier::ext_equal]
pub enum RenderPageV {
    Home { org_names: Seq<Seq<char>> },
    OrgFound { name: Seq<char>, task_titles: Seq<Seq<char>> },
    OrgNotFound,
    TaskFound { title: Seq<char>, status: Status, assignee: Seq<char> },
    TaskNotFound,
}

/// The mathematical value of a [`ModalState`].
#[verifier::ext_equal]
pub enum ModalStateV {
    NoModal,
    NewOrg { draft: Seq<char> },
    NewTask,
}

/// The mathematical value of a [`RenderDescription`].
#[verifier::ext_equal]
pub struct RenderDescriptionV {
    pub base: RenderPageV,
    pub modal: ModalStateV,
}

impl View for RenderPage {
    type V = RenderPageV;

    open spec fn view(&self) -> RenderPageV {
        match self {
            RenderPage::Home { org_names } => RenderPageV::Home {
                org_names: org_names@.map_values(|s: String| s@),
            },
            RenderPage::OrgFound { name, task_titles } => RenderPageV::OrgFound {
                name: name@,
                task_titles: task_titles@.map_values(|s: String| s@),
            },
            RenderPage::OrgNotFound => RenderPageV::OrgNotFound,
            RenderPage::TaskFound { title, status, assignee } => RenderPageV::TaskFound {
                title: title@,
                status: *status,
                assignee: assignee@,
            },
            RenderPage::TaskNotFound => RenderPageV::TaskNotFound,
        }
    }
}

impl View for ModalState {
    type V = ModalStateV;

    open spec fn view(&self) -> ModalStateV {
        match self {
            ModalState::NoModal => ModalStateV::NoModal,
            ModalState::NewOrg { draft } => ModalStateV::NewOrg { draft: draft@ },
            ModalState::NewTask => ModalStateV::NewTask,
        }
    }
}

impl View for RenderDescription {
    type V = RenderDescriptionV;

    open spec fn view(&self) -> RenderDescriptionV {
        RenderDescriptionV { base: self.base@, modal: self.modal@ }
    }
}

/// The base page the projection derives from the state: the home list, or
/// the resolved entity, or the "not found" fallback.
pub open spec fn render_base(s: JagraV) -> RenderPageV {
    match s.page {
        Page::Home => RenderPageV::Home { org_names: s.orgs.map_values(|o: OrgV| o.name) },
        Page::Org(id) => if org_resolves(s.orgs, id) {
            let o = s.orgs[first_org_index(s.orgs, id)];
            RenderPageV::OrgFound {
                name: o.name,
                task_titles: o.tasks.map_values(|t: TaskV| t.title),
            }
        } else {
            RenderPageV::OrgNotFound
        },
        Page::Task(id) => if task_resolves(s.orgs, id) {
            let t = resolved_task(s.orgs, id);
            RenderPageV::TaskFound { title: t.title, status: t.status, assignee: t.assignee }
        } else {
            RenderPageV::TaskNotFound
        },
    }
}

/// The modal overlay the projection derives from the state. The
/// new-organization modal takes precedence; the flags are mutually
/// exclusive in every reachable state anyway.
pub open spec fn render_modal(s: JagraV) -> ModalStateV {
    if s.new_org_modal_open {
        ModalStateV::NewOrg { draft: s.org_name }
    } else if s.new_task_modal_open {
        ModalStateV::NewTask
    } else {
        ModalStateV::NoModal
    }
}

/// The full render description derived from the state.
pub open spec fn render(s: JagraV) -> RenderDescriptionV {
    RenderDescriptionV { base: render_base(s), modal: render_modal(s) }
}

/// The position of the first task in this sequence carrying the
/// identifier, if any does.
fn first_task_pos(tasks: &Vec<Task>, id: u128) -> (r: Option<usize>)
    ensures
        match r {
            Some(j) => {
                &&& j < tasks@.len()
                &&& tasks@[j as int]@.id == id
                &&& forall|l: int| 0 <= l < j ==> tasks@[l]@.id != id
            },
            None => forall|l: int| 0 <= l < tasks@.len() ==> tasks@[l]@.id != id,
        },
{
    let n = tasks.len();
    let mut j: usize = 0;
    while j < n && tasks[j].id != id
        invariant
            j <= n,
            n == tasks@.len(),
            forall|l: int| 0 <= l < j ==> tasks@[l]@.id != id,
        decreases n - j,
    {
        j += 1;
    }
    if j < n {
        Some(j)
    } else {
        None
    }
}

impl Jagra {
    /// The page-dependent part of the projection.
    fn base_page(&self) -> (r: RenderPage)
        ensures
            r@ == render_base(self@),
    {
        match self.page {
            Page::Home => {
                let n = self.orgs.len();
                let mut names: Vec<String> = Vec::new();
                let mut i: usize = 0;
                while i < n
                    invariant
                        i <= n,
                        n == self.orgs@.len(),
                        names@.len() == i as int,
                        forall|j: int| 0 <= j < i ==> names@[j]@ == self.orgs@[j]@.name,
                    decreases n - i,
                {
                    names.push(self.orgs[i].name.clone());
                    i += 1;
                }
                let r = RenderPage::Home { org_names: names };
                proof {
                    assert(names@.map_values(|s2: String| s2@) =~= self@.orgs.map_values(
                        |o: OrgV| o.name,
                    ));
                    assert(r@ =~= render_base(self@));
                }
                r
            },
            Page::Org(id) => {
                let n = self.orgs.len();
                let mut i: usize = 0;
                while i < n && self.orgs[i].id != id
                    invariant
                        i <= n,
                        n == self.orgs@.len(),
                        forall|j: int| 0 <= j < i ==> self.orgs@[j].id != id,
                    decreases n - i,
                {
                    i += 1;
                }
                if i < n {
                    let o = &self.orgs[i];
                    let m = o.tasks.len();
                    let mut titles: Vec<String> = Vec::new();
                    let mut j: usize = 0;
                    while j < m
                        invariant
                            j <= m,
                            m == o.tasks@.len(),
                            titles@.len() == j as int,
                            forall|l: int| 0 <= l < j ==> titles@[l]@ == o.tasks@[l]@.title,
                        decreases m - j,
                    {
                        titles.push(o.tasks[j].title.clone());
                        j += 1;
                    }
                    let r = RenderPage::OrgFound { name: o.name.clone(), task_titles: titles };
                    proof {
                        assert(self@.orgs[i as int].id == id);
                        assert(org_resolves(self@.orgs, id));
                        lemma_first_org_index(self@.orgs, id);
                        let k = first_org_index(self@.orgs, id);
                        assert(k == i) by {
                            if k < i {
                                assert(self@.orgs[k].id != id);
                            }
                        }
                        assert(titles@.map_values(|s2: String| s2@) =~= self@.orgs[i as int].tasks
                            .map_values(|t: TaskV| t.title));
                        assert(r@ =~= render_base(self@));
                    }
                    r
                } else {
                    proof {
                        assert(!org_resolves(self@.orgs, id));
                    }
                    RenderPage::OrgNotFound
                }
            },
            Page::Task(id) => {
                let n = self.orgs.len();
                let mut k: usize = 0;
                while k < n
                    invariant
                        k <= n,
                        n == self.orgs@.len(),
                        self.page == Page::Task(id),
                        forall|l: int| 0 <= l < k ==> !task_in_org(self@.orgs[l], id),
                    decreases n - k,
                {
                    let pos = first_task_pos(&self.orgs[k].tasks, id);
                    match pos {
                        Some(j) => {
                            let t = &self.orgs[k].tasks[j];
                            let r = RenderPage::TaskFound {
                                title: t.title.clone(),
                                status: t.status,
                                assignee: t.assignee.clone(),
                            };
                            proof {
                                assert(self@.orgs[k as int].tasks[j as int].id == id);
                                assert(task_in_org(self@.orgs[k as int], id));
                                assert(task_resolves(self@.orgs, id));
                                lemma_first_task_org_index(self@.orgs, id);
                                let ko = first_task_org_index(self@.orgs, id);
                                assert(ko == k) by {
                                    if ko < k {
                                        assert(!task_in_org(self@.orgs[ko], id));
                                    }
                                }
                                lemma_first_task_index(self@.orgs[k as int].tasks, id);
                                let jo = first_task_index(self@.orgs[k as int].tasks, id);
                                assert(jo == j) by {
                                    if jo < j {
                                        assert(self@.orgs[k as int].tasks[jo].id != id);
                                    }
                                }
                                assert(self@.orgs[k as int] == self.orgs@[k as int]@);
                                assert(self@.orgs[k as int].tasks[j as int] == self.orgs@[
                                    k as int
                                ].tasks@[j as int]@);
                                assert(resolved_task(self@.orgs, id) == self@.orgs[
                                    k as int
                                ].tasks[j as int]);
                                assert(r@ =~= render_base(self@));
                            }
                            return r;
                        },
                        None => {
                            proof {
                                assert(!task_in_org(self@.orgs[k as int], id));
                            }
                        },
                    }
                    k += 1;
                }
                proof {
                    assert(!task_resolves(self@.orgs, id));
                }
                RenderPage::TaskNotFound
            },
        }
    }

    /// The modal overlay the projection derives from the state.
    fn modal_state(&self) -> (r: ModalState)
        ensures
            r@ == render_modal(self@),
    {
        if self.new_org_modal_open {
            ModalState::NewOrg { draft: self.org_name.clone() }
        } else if self.new_task_modal_open {
            ModalState::NewTask
        } else {
            ModalState::NoModal
        }
    }

    /// The view projection: derives from the state everything the
    /// presentation layer needs to draw one frame.
    pub fn project(&self) -> (r: RenderDescription)
        ensures
            r@ == render(self@),
    {
        RenderDescription { base: self.base_page(), modal: self.modal_state() }
    }
}

} // verus!
