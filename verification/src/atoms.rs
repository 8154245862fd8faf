//! Atoms whose planning looks at the machine: a symbolic link, and the
//! initializer that checks that a file exists.
use crate::host::{path_exists, paths_equal, same_path};
use crate::steps::Exec;
use vstd::prelude::*;

verus! {

/// Atoms that run a command.
pub trait CommandAtom {}

impl CommandAtom for Exec {}

/// A symbolic link at `target` that points to `source`.
#[derive(Debug, PartialEq, Eq)]
pub struct Link {
    pub source: String,
    pub target: String,
}

/// Whether the link needs to be made, from what is found on the machine:
/// not where the source is missing; yes where nothing is at the target;
/// where something is, only if it is a link (`link_matches` is `Some`) that
/// does not point to the source.
pub open spec fn link_needed(source_exists: bool, target_exists: bool, link_matches: Option<bool>) -> bool {
    if !source_exists {
        false
    } else if !target_exists {
        true
    } else {
        match link_matches {
            None => false,
            Some(m) => !m,
        }
    }
}

/// The link is needed exactly where the source exists and the target is
/// either missing or a link that does not point to the source.
pub proof fn lemma_link_needed_exactly(source_exists: bool, target_exists: bool, link_matches: Option<bool>)
    ensures
        link_needed(source_exists, target_exists, link_matches) == (source_exists && (!target_exists
            || link_matches == Some(false))),
{
}

/// A link that is needed while its target is missing is no longer needed
/// once the target has been made a link that points to the source.
pub proof fn lemma_made_link_is_not_needed_again()
    ensures
        link_needed(true, false, None),
        !link_needed(true, true, Some(true)),
{
}

impl Link {
    /// The path the atom works on: the link's source.
    pub fn get_path(&self) -> (r: &String)
        ensures
            r == &self.source,
    {
        &self.source
    }

    /// What the atom does, in words.
    pub fn to_string(&self) -> (r: String)
        ensures
            r@ == "The file "@ + self.target@ + " contents needs to be linked from "@ + self.source@,
    {
        String::from_str("The file ").concat(self.target.as_str()).concat(" contents needs to be linked from ").concat(
            self.source.as_str(),
        )
    }

    /// Whether the link needs to be made.
    pub fn decide(source_exists: bool, target_exists: bool, link_matches: Option<bool>) -> (r: bool)
        ensures
            r == link_needed(source_exists, target_exists, link_matches),
    {
        if !source_exists {
            false
        } else if !target_exists {
            true
        } else {
            match link_matches {
                None => false,
                Some(m) => !m,
            }
        }
    }

    /// Whether the link needs to be made, given whether the source and the
    /// target exist and what the target links to, where it is a link. Whether
    /// that link points to the source is decided by comparing the two as
    /// paths.
    pub fn plan_with(&self, source_exists: bool, target_exists: bool, target_link: Option<String>) -> (r: bool)
        ensures
            r == link_needed(
                source_exists,
                target_exists,
                match target_link {
                    Some(l) => Some(paths_equal(l@, self.source@)),
                    None => None,
                },
            ),
            r == (source_exists && (!target_exists || (target_link matches Some(l) && !paths_equal(
                l@,
                self.source@,
            )))),
            target_exists && (target_link matches Some(l) && l@ == self.source@) ==> !r,
    {
        let link_matches = match &target_link {
            Some(l) => Some(same_path(l.as_str(), self.source.as_str())),
            None => None,
        };
        Link::decide(source_exists, target_exists, link_matches)
    }
}

/// The initializer that lets a step run only where a file exists.

pub struct FileExists(pub String);

impl FileExists {
    /// Whether anything is found at the path; this never fails.
    pub fn initialize(&self) -> (r: Result<bool, String>)
        ensures
            r is Ok,
    {
        Ok(path_exists(self.0.as_str()))
    }
}

} // verus!
