//! A small discussion-board backend: entities, their stored form, the
//! repositories that keep them in SQLite, the service rules and credentials.

pub mod auth;
pub mod config;
pub mod ident;
pub mod models;
pub mod ordering;
pub mod services;
pub mod storage;
pub mod text;
pub mod timestamp;
