//! The entities that the adapters read and write.

pub mod attestation;
pub mod class;
pub mod class_kind;
pub mod curriculum_module;
pub mod discipline;
pub mod id;
pub mod legacy;
pub mod passport;
pub mod person;
pub mod student;
pub mod study_group;
pub mod teacher;
pub mod university;
pub mod user;

pub use id::{Id, NonZeroId};
