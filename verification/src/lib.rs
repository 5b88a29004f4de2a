//! Rewrites the exports of an ECMAScript module so that every exported value
//! passes through a wrapper function imported at the top of the module.
//!
//! `ast` holds the syntax tree that the pass works on, `config` the wrapper's
//! configuration, `rules` what the pass does as mathematics, `visitor` the
//! pass itself and `laws` what is proved of it on every module.

pub mod ast;
pub mod config;
pub mod laws;
pub mod rules;
pub mod visitor;

pub use crate::config::{
    default_exclude_paths, default_export_name, default_import_as, default_import_from,
    default_include_paths, Config,
};
pub use crate::visitor::{wrap_with_mockify, TransformVisitor};
