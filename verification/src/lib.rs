//! Verified core of an institutional operations platform: error model,
//! capability grants, command plans, service state and catalog logic.

pub mod text;
pub mod command_plan;
pub mod infra;
pub mod ui_e2e;
pub mod security_book;
pub mod error_model;
pub mod ordered;
pub mod capability;
pub mod contracts;
pub mod services;
pub mod engineering;
pub mod governance;
pub mod weather;
pub mod meteorological;
pub mod weather_app;
pub mod bindings;
pub mod lattice;
pub mod component_descriptors;
pub mod runtime_security;
pub mod event_log;
pub mod platform;
pub mod boundaries;
pub mod catalog;
pub mod gateway;
pub mod instrumentation;
