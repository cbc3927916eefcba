//! Persistence adapters and HTTP-facing helpers of a university management service.

pub mod api;
pub mod domain;
pub mod error;
pub mod adapters;
pub mod v1;
pub mod decimal;
pub mod attestation;
pub mod class;
pub mod class_kind;
pub mod curriculum_module;
pub mod discipline;
pub mod person;
pub mod university;
pub mod user;
pub mod passport;
pub mod student;
pub mod study_group;
pub mod teacher;
pub mod query;
pub mod save;
pub mod grouping;
