//! A repository on local storage: its working-directory path and the
//! identity it was fetched under. Fetching itself (cloning over the
//! network) is an external collaborator; it hands these plain values in.

use vstd::prelude::*;

verus! {

/// A fetched repository: where it lies on disk and whose it is.
#[derive(Debug, Clone)]
pub struct LocalRepo {
    path: String,
    owner: String,
    name: String,
}

impl LocalRepo {
    /// The repository name, as derived from its locator.
    pub fn name(&self) -> (r: &str)
        ensures
            r@ == self.spec_name(),
    {
        self.name.as_str()
    }

    /// The repository owner, as derived from its locator.
    pub fn owner(&self) -> (r: &str)
        ensures
            r@ == self.spec_owner(),
    {
        self.owner.as_str()
    }

    /// The local working-directory path the repository lies under.
    pub fn path(&self) -> (r: &str)
        ensures
            r@ == self.spec_path(),
    {
        self.path.as_str()
    }

    /// Bundles an already-fetched repository's path and identity.
    pub fn new(path: String, owner: String, name: String) -> (r: Self)
        ensures
            r.spec_path() == path@,
            r.spec_owner() == owner@,
            r.spec_name() == name@,
    {
        Self { path, owner, name }
    }

    /// The path, for contracts.
    pub closed spec fn spec_path(&self) -> Seq<char> {
        self.path@
    }

    /// The owner, for contracts.
    pub closed spec fn spec_owner(&self) -> Seq<char> {
        self.owner@
    }

    /// The name, for contracts.
    pub closed spec fn spec_name(&self) -> Seq<char> {
        self.name@
    }
}

} // verus!
