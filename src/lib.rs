//! Project metadata extraction and reconciliation: manifest parsing, license
//! classification, repository URL identification and record merging.

pub mod text;
pub mod converter;
pub mod dispatch;
pub mod history;
pub mod license;
pub mod manifests;
pub mod merger;
pub mod node;
pub mod parts;
pub mod pattern;
pub mod repository;
pub mod project;
