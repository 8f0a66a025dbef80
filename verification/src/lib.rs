//! The file commands of a desktop application, written without I/O.
//!
//! A command is carried out in steps. Each step either names one request for
//! the host (a filesystem primitive, or the host's own path service) or gives
//! the command's reply. The host performs the request and hands its answer
//! to the session that came with it, which gives the next step. What is asked
//! of the host, in which order, and what becomes of each answer is decided
//! here and proved against `model`; `disk` states what the commands do to an
//! idealised filesystem, and `laws` proves what follows.

pub mod commands;
pub mod disk;
pub mod laws;
pub mod listing;
pub mod model;
pub mod path;
pub mod step;
