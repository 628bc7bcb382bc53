//! Rules behind the project's code generators: how generated items are
//! named, which UI bindings an actor wires, how a manifest is parsed from
//! its token trees and what its entries and an actor's associated types
//! generate, how a binder's type states go, and which signatures feature
//! and handler functions may have. Turning the macro input into token
//! trees, loading the bindings schema and writing the tokens stay with the
//! generators.

pub mod case;
pub mod naming;
pub mod bindings;
pub mod manifest;
pub mod manifest_parse;
pub mod binder;
pub mod signatures;
pub mod adapters;
