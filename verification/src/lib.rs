//! Planning logic of a declarative configuration-management tool: actions
//! described in manifests are turned into ordered steps (atoms guarded by
//! initializers and finalizers), package and group providers decide which
//! commands to run, and manifests are ordered by their dependencies.
pub mod steps;
pub mod macos;
pub mod text;
pub mod contexts;
pub mod package;
pub mod error;
pub mod host;
pub mod providers;
pub mod package_actions;
pub mod group;
pub mod actions;
pub mod manifest;
pub mod files;
pub mod link;
pub mod apply;
pub mod dag;
pub mod binary;
pub mod plugin;
pub mod keyed;
pub mod plugin_spec;
pub mod plugins;
pub mod cli;
pub mod atoms;
pub mod zip;
pub mod template;
pub mod example;
pub mod depgraph;
