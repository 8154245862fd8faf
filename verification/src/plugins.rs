//! Plugins loaded as functions by name, and the parsing of the names under
//! which plugins are installed.
use crate::providers::contains_str;
use crate::steps::{bare, Atom, AtomModel, Step, StepModel};
use crate::text::{clone_strings, split_once, split_once_spec};
use vstd::prelude::*;

verus! {

/// A call, written in a manifest, of a function that a plugin provides.
#[derive(Debug, PartialEq, Eq)]
pub struct PluginAction {
    pub name: String,
    pub arguments: Option<Vec<String>>,
}

/// The arguments of a call: those written, or none.
pub open spec fn call_arguments(arguments: Option<Vec<String>>) -> Seq<Seq<char>> {
    match arguments {
        Some(a) => a.deep_view(),
        None => seq![],
    }
}

impl PluginAction {
    /// One step that calls the function, where a plugin provides a function
    /// of that name among `functions`; else no step.
    pub fn plan(&self, functions: &Vec<String>) -> (r: Vec<Step>)
        ensures
            functions.deep_view().contains(self.name@) ==> r.deep_view() == seq![
                bare(AtomModel::PluginCall { name: self.name@, arguments: call_arguments(self.arguments) }),
            ],
            !functions.deep_view().contains(self.name@) ==> r@.len() == 0,
    {
        if contains_str(functions, self.name.as_str()) {
            let arguments = match &self.arguments {
                Some(a) => clone_strings(a),
                None => Vec::new(),
            };
            assert(arguments.deep_view() =~= call_arguments(self.arguments));
            let r = vec![Step::bare(Atom::PluginCall { name: self.name.clone(), arguments })];
            assert(r.deep_view() =~= seq![
                bare(AtomModel::PluginCall { name: self.name@, arguments: call_arguments(self.arguments) }),
            ]);
            r
        } else {
            Vec::new()
        }
    }
}

/// The parts of the name under which a plugin is installed,
/// `username/repository` or `username/repository:tag`: the directory name
/// of the plugin (the repository) and the tag, if any.
#[derive(Debug, PartialEq, Eq)]
pub struct PluginCoordinates {
    pub plugin_name: String,
    pub tag: Option<String>,
}

/// Why a plugin name cannot be installed.
#[derive(PartialEq, Eq, Structural, Clone, Copy, Debug)]
pub enum PluginNameError {
    /// The name is not of the form `username/repository[:tag]`.
    InvalidSchema,
}

/// The parts of a plugin name: after the first `/`, the text up to the
/// first `:` is the plugin's name and the rest its tag; with no `:`, the
/// whole text after the `/` is the name.
pub open spec fn plugin_coordinates(name: Seq<char>) -> Option<(Seq<char>, Option<Seq<char>>)> {
    match split_once_spec(name, '/') {
        None => None,
        Some((_, repo)) => match split_once_spec(repo, ':') {
            Some((n, t)) => Some((n, Some(t))),
            None => Some((repo, None)),
        },
    }
}

/// Reads the name under which a plugin is to be installed.
pub fn parse_plugin_name(name: &str) -> (r: Result<PluginCoordinates, PluginNameError>)
    ensures
        match plugin_coordinates(name@) {
            None => r == Err::<PluginCoordinates, PluginNameError>(PluginNameError::InvalidSchema),
            Some((n, t)) => r matches Ok(c) && c.plugin_name@ == n && c.tag.deep_view() == t,
        },
{
    match split_once(name, '/') {
        None => Err(PluginNameError::InvalidSchema),
        Some((_, repo)) => match split_once(repo.as_str(), ':') {
            Some((n, t)) => Ok(PluginCoordinates { plugin_name: n, tag: Some(t) }),
            None => Ok(PluginCoordinates { plugin_name: repo, tag: None }),
        },
    }
}

} // verus!
