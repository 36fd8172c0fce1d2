//! Marks the elements of JSX markup with the place they come from.
//!
//! A pass over a parsed module gives each qualifying opening tag the attribute
//! `data-source="path:line"`: tags with an all-lowercase name, and tags named after a
//! binding imported from one of the configured UI libraries. Excluded names, tags that
//! already carry the attribute and tags without a place in the source text are left alone.
//!
//! The module is handed over as plain values (see [`transform::Program`]); walking the
//! host's syntax tree, asking its source map and reading its configuration are left to the
//! caller.

pub mod ast;
pub mod config;
pub mod laws;
pub mod name_set;
pub mod path;
pub mod source;
pub mod text;
pub mod transform;
pub mod visitor;

pub use crate::config::{parse_config, PluginConfig, Settings};
pub use crate::path::relative_path;
pub use crate::transform::{process_transform, Metadata, Node, Program};
pub use crate::visitor::ReactSourceStringVisitor;
