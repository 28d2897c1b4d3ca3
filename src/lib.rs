//! A file-storage service core: a key-to-path registry and the decisions
//! that the upload and download handlers make around it.

pub mod database;
pub mod service;
