//! Export and publish orchestration for document projects: configuration
//! rules, credential addressing, the job registry, and the decision logic of
//! each delivery backend, with machine-checked contracts.

pub mod config;
pub mod credentials;
pub mod deploy;
pub mod digest;
pub mod export;
pub mod ftp;
pub mod git;
pub mod jobs;
pub mod named;
pub mod paths;
pub mod project;
pub mod publish;
pub mod response;
pub mod text;
pub mod transfer;
pub mod webhook;
