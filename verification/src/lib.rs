//! Core of a single-window task tracker: organizations hold tasks, a
//! controller applies user-intent messages to one application state, and a
//! view projection turns the state into a renderable description.

mod controller;
mod entities;
mod laws;
mod render;
mod state;

pub use laws::has_id;
pub use laws::ids_unique;
pub use laws::lemma_close_org_modal_idempotent;
pub use laws::lemma_create_task_appends;
pub use laws::lemma_create_task_off_org_page;
pub use laws::lemma_go_to_absent_org_page;
pub use laws::lemma_go_to_absent_task_page;
pub use laws::lemma_initial_ids_unique;
pub use laws::lemma_modal_mutual_exclusion;
pub use laws::lemma_open_modal_forces_other_closed;
pub use laws::lemma_rapid_double_create_org;
pub use laws::lemma_update_preserves_unique_ids;

pub use render::first_task_index;
pub use render::first_task_org_index;
pub use render::lemma_first_task_index;
pub use render::lemma_first_task_org_index;
pub use render::ModalState;
pub use render::ModalStateV;
pub use render::render;
pub use render::render_base;
pub use render::render_modal;
pub use render::RenderDescription;
pub use render::RenderDescriptionV;
pub use render::RenderPage;
pub use render::RenderPageV;
pub use render::resolved_task;
pub use render::task_in_org;
pub use render::task_resolves;

pub use controller::first_org_index;
pub use controller::lemma_first_org_index;
pub use controller::next_effect;
pub use controller::next_state;
pub use controller::org_resolves;
pub use controller::with_task;

pub use entities::Org;
pub use entities::OrgV;
pub use entities::Status;
pub use entities::Task;
pub use entities::TaskV;
pub use state::Effect;
pub use state::initial_state;
pub use state::Jagra;
pub use state::JagraV;
pub use state::Message;
pub use state::MessageV;
pub use state::Page;
