//! The HTTP query boundary.
//!
//! The web framework, its routing and the response encoding are external
//! collaborators; only the shell types they are handed live here, so that
//! the repository they borrow is the same one the read dispatcher feeds.

use vstd::prelude::*;

verus! {

/// The payload of a successful query response.
#[derive(Debug, Clone, PartialEq, Eq, Structural)]
pub struct EnvironmentApiData;

/// The query endpoint: a thin shell around the storage sink it reads from.
pub struct EnvironmentApi<R> {
    pub repository: R,
}

} // verus!
