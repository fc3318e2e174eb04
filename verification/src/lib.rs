//! Verified core of the LLM Wiki desktop workbench.

pub mod access;
pub mod assistance;
pub mod codex;
pub mod conversation;
pub mod current_work;
pub mod digest;
pub mod evidence;
pub mod execution;
pub mod images;
pub mod overview;
pub mod projection;
pub mod protocol;
pub mod publication;
pub mod redact;
pub mod relations;
pub mod requests;
pub mod review;
pub mod review_preview;
pub mod run;
pub mod service;
pub mod session;
pub mod startup;
pub mod targets;
pub mod store;
pub mod task;
pub mod task_context;
pub mod task_ops;
pub mod workbench;
pub mod text;
pub mod vault;
pub mod work_state;
