//! A library for one repository-maintenance chore: clone a repository,
//! create a branch, apply a search/replace across its files, commit, push,
//! and open a pull request.
//!
//! The library holds the run's decisions and derived values — which files
//! are rewrite candidates, what each file's new content is and whether it
//! must be written, how each stage's failure is classified, the refspec,
//! the URLs and the request body, and the order of the stages — each with
//! a verified contract. The filesystem, network and version-control work
//! around those decisions is the caller's.

use vstd::prelude::*;

pub mod errors;
pub mod params;
pub mod pipeline;
pub mod request;
pub mod rewrite;
pub mod walker;

verus! {

} // verus!
