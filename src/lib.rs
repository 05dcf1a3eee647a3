//! Transactional management of reverse-proxy virtual hosts for nginx.
//!
//! The library decides and the caller acts: every step that touches the file system or
//! runs a process is requested by a verified state machine and performed by the caller,
//! which reports the outcome back. The only outside call made here reads the local clock
//! to name snapshots.
pub mod apply;
pub mod backup;
pub mod cli;
pub mod console;
pub mod diagnostics;
pub mod models;
pub mod nginx_conf;
pub mod requirements;
pub mod ssl;
pub mod template;
pub mod text;
pub mod validator;
