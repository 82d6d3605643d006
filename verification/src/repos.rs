//! The parent identity: which repository a request is about.

use vstd::prelude::*;

verus! {

/// The mathematical value of a [`RepoIdentity`].
pub ghost struct RepoIdentityView {
    pub owner: Seq<char>,
    pub repo: Seq<char>,
}

/// An immutable (owner, repository-name) pair. Every scope and builder
/// derived from it borrows it; none copies it.
pub struct RepoIdentity {
    owner: String,
    repo: String,
}

impl View for RepoIdentity {
    type V = RepoIdentityView;

    closed spec fn view(&self) -> RepoIdentityView {
        RepoIdentityView { owner: self.owner@, repo: self.repo@ }
    }
}

impl RepoIdentity {
    /// Binds an owner and a repository name.
    pub fn new(owner: String, repo: String) -> (r: Self)
        ensures
            r@ == (RepoIdentityView { owner: owner@, repo: repo@ }),
    {
        RepoIdentity { owner, repo }
    }

    /// The owner's name.
    pub fn owner(&self) -> (r: &str)
        ensures
            r@ == self@.owner,
    {
        self.owner.as_str()
    }

    /// The repository's name.
    pub fn repo(&self) -> (r: &str)
        ensures
            r@ == self@.repo,
    {
        self.repo.as_str()
    }
}

} // verus!
