//! Verified core of the uniproc desktop shell: the decisions, bookkeeping and
//! naming rules behind its features, actors, settings and UI adapters.

pub mod text;
pub mod trace_settings;
pub mod lifecycle;
pub mod named_table;
pub mod window_registry;
pub mod codegen;
pub mod window_actions;
pub mod reactor;
pub mod settings;
pub mod icons;
pub mod table_layout;
pub mod processes;
pub mod tabs;
pub mod services;
pub mod app;
pub mod feature;
