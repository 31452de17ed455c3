//! Lifecycle orchestration for a desktop proxy manager: UI readiness, the
//! window-creation guard, deep-link scheduling and the restart flows, written
//! as decision functions over plain values so that every rule is proved.

pub mod clock;
pub mod context;
pub mod deep_link;
pub mod guard;
pub mod link;
pub mod mode;
pub mod notice;
pub mod readiness;
pub mod restart;
pub mod scheduler;
pub mod scheme;
pub mod startup;
pub mod system;
pub mod text;
pub mod window;
