//! Git integration and branch automation: branch-name generation, credential
//! negotiation, working-tree status classification and branch bookkeeping.
pub mod text;
pub mod naming;
pub mod negotiation;
pub mod status;
pub mod branches;
pub mod history;
pub mod creation;
pub mod service;
pub mod models;
pub mod services;
