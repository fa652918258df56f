//! A registry of quiz questions whose answers are kept only as digests.
//!
//! Educators append questions; anybody may read a prompt or have an answer
//! attempt graded. The registry never stores or returns a plaintext answer.

pub mod digest;
pub mod error;
pub mod identity;
pub mod model;
pub mod registry;
pub mod roles;

pub use crate::error::Error;
pub use crate::identity::AccountId;
pub use crate::registry::{Question, Quiz};
pub use crate::roles::PowerLevel;
