//! The table of fragments of a project.
use vstd::prelude::*;
use crate::adsorbate::AdsInfo;

verus! {

/// The table of fragments: where their models are, and what is known of
/// each.
#[derive(Debug, Clone)]
pub struct AdsTab<S> {
    /// Where the models of the fragments are.
    pub source_directory: String,
    /// Where the assembled models go, where that is given.
    pub target_directory: Option<String>,
    /// The fragments, where the table lists any.
    pub adsorbates: Option<Vec<AdsInfo<S>>>,
}

impl<S> AdsTab<S> {
    /// The fragments, where the table lists any.
    pub fn adsorbates(&self) -> (r: Option<&Vec<AdsInfo<S>>>)
        ensures
            r == match self.adsorbates {
                Some(list) => Some(&list),
                None => None,
            },
    {
        self.adsorbates.as_ref()
    }

    /// Where the models of the fragments are.
    pub fn source_directory(&self) -> (r: &str)
        ensures
            r@ == self.source_directory@,
    {
        self.source_directory.as_str()
    }

    /// Where the assembled models go, where that is given.
    pub fn target_directory(&self) -> (r: Option<&String>)
        ensures
            r == match self.target_directory {
                Some(dir) => Some(&dir),
                None => None,
            },
    {
        self.target_directory.as_ref()
    }
}

} // verus!
