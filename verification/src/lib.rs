//! A minimal reactive-state primitive: a mutable value cell that broadcasts
//! version-tagged change notifications to any number of independent
//! subscribers, plus a derivation mechanism that keeps one cell's value
//! computed from another's.
//!
//! The cell stores its value in a lock-free atomic slot and publishes on a
//! versioned broadcast channel; both primitives come from outside crates and
//! stand behind a small trusted layer in `primitives`. The protocol itself —
//! silent writes, publication, what a subscriber observes and when — is
//! verified against the mathematical model in `model`.

mod cell;
mod model;
mod primitives;

pub use cell::StateAtomic;
pub use cell::Subscriber;
pub use model::StateModel;
pub use model::notifications_in;
pub use model::observe_next;
pub use model::observed_run;
pub use model::put_step;
pub use model::puts_applied;
pub use model::update_step;
pub use model::lemma_no_duplicate_delivery;
pub use model::lemma_quiet_run;
pub use model::lemma_runs_agree;
pub use model::lemma_single_wakeup;
pub use model::lemma_observation_fresh;
pub use model::lemma_publish_is_observed;
pub use model::lemma_put_step_unobserved;
pub use model::lemma_silent_writes_unobserved;
pub use model::lemma_subscribers_agree;
pub use model::lemma_writes_coalesce;
pub use primitives::pos_index;
pub use primitives::recv_log;
pub use primitives::sent_log;
pub use primitives::slot_value;
pub use primitives::NotifyReceiver;
pub use primitives::NotifySender;
