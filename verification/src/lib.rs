//! Verified core of the `acme-svc` service skeleton: error classification, the todo domain and
//! its in-memory store, configuration rules, the problem-details error model of the HTTP layer
//! and the decisions of the server lifecycle.

pub mod api;
pub mod bus;
pub mod clock;
pub mod config;
pub mod domain_error;
pub mod error;
pub mod event;
pub mod id;
pub mod lifecycle;
pub mod repository;
pub mod service;
pub mod text;
pub mod todo;
