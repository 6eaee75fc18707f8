//! The data model: repository snapshots, branches, classification results,
//! branch-comparison outcomes and the transient device-authorization artifacts.

use vstd::prelude::*;

verus! {

/// An immutable snapshot of one repository, reduced to the fields the
/// classification rules read: identity, the fork flag, and the optional
/// upstream parent reference.
#[derive(Debug)]
pub struct Repository {
    /// The repository's short name.
    pub name: String,
    /// The `owner/name` form, when the forge supplied it.
    pub full_name: Option<String>,
    /// The owner's login, when the forge supplied it.
    pub owner: Option<String>,
    /// Whether this repository is a fork.
    pub fork: bool,
    /// The upstream parent, present only for forks with a resolvable upstream.
    pub parent: Option<RepoRef>,
}

/// A reference to another repository, as carried in a fork's parent field.
#[derive(Debug)]
pub struct RepoRef {
    /// The referenced repository's short name.
    pub name: String,
    /// The referenced repository's owner login, when supplied.
    pub owner: Option<String>,
}

/// One branch of a repository. Only the name matters to classification.
#[derive(Debug)]
pub struct Branch {
    /// The branch name.
    pub name: String,
}

/// The outcome of comparing one fork branch against its upstream
/// counterpart: either an ahead-by commit count, or the finding that the
/// branch cannot be resolved upstream.
#[derive(Debug, Clone, Copy, PartialEq, Eq, Structural)]
pub enum CompareOutcome {
    /// The branch exists upstream and is ahead by this many commits.
    AheadBy(u64),
    /// The branch could not be resolved upstream; classification treats
    /// this as positive evidence of divergence.
    MissingUpstream,
}

/// A fork together with its classification verdict, produced exactly once
/// per fork and immutable thereafter.
#[derive(Debug)]
pub struct ForkInfo {
    /// The classified repository snapshot.
    pub repo: Repository,
    /// Whether the fork carries no commits diverging from upstream.
    pub is_useless: bool,
}

impl Clone for RepoRef {
    /// An exact copy of the reference.
    fn clone(&self) -> (res: Self)
        ensures
            res == *self,
    {
        RepoRef {
            name: self.name.clone(),
            owner: match &self.owner {
                Some(o) => Some(o.clone()),
                None => None,
            },
        }
    }
}

impl Clone for Repository {
    /// An exact copy of the snapshot.
    fn clone(&self) -> (res: Self)
        ensures
            res == *self,
    {
        Repository {
            name: self.name.clone(),
            full_name: match &self.full_name {
                Some(f) => Some(f.clone()),
                None => None,
            },
            owner: match &self.owner {
                Some(o) => Some(o.clone()),
                None => None,
            },
            fork: self.fork,
            parent: match &self.parent {
                Some(p) => Some(p.clone()),
                None => None,
            },
        }
    }
}

impl Clone for Branch {
    /// An exact copy of the branch.
    fn clone(&self) -> (res: Self)
        ensures
            res == *self,
    {
        Branch { name: self.name.clone() }
    }
}

impl Clone for ForkInfo {
    /// An exact copy of the classified fork.
    fn clone(&self) -> (res: Self)
        ensures
            res == *self,
    {
        ForkInfo { repo: self.repo.clone(), is_useless: self.is_useless }
    }
}

/// The displayed name of a repository: its `owner/name` form when present,
/// its short name otherwise.
pub open spec fn display_name(repo: Repository) -> Seq<char> {
    match repo.full_name {
        Some(f) => f@,
        None => repo.name@,
    }
}

impl ForkInfo {
    /// The fork's displayed name.
    pub fn full_name(&self) -> (r: &str)
        ensures
            r@ == display_name(self.repo),
    {
        match &self.repo.full_name {
            Some(f) => f.as_str(),
            None => self.repo.name.as_str(),
        }
    }

    /// The fork owner's login, when the snapshot carries one.
    pub fn owner_login(&self) -> (r: Option<&str>)
        ensures
            match r {
                Some(s) => self.repo.owner matches Some(o) && s@ == o@,
                None => self.repo.owner is None,
            },
    {
        match &self.repo.owner {
            Some(o) => Some(o.as_str()),
            None => None,
        }
    }
}

/// Why a fork's classification could not even be attempted: a comparison
/// reference cannot be formed without the owner logins on both sides.
#[derive(Debug, Clone, PartialEq, Eq, Structural)]
pub enum AnalyzeError {
    /// The fork snapshot carries no owner login.
    MissingOwner,
    /// The fork's parent reference carries no owner login.
    MissingParentOwner,
}

/// The artifacts returned by the device-authorization issuance endpoint.
/// They exist only for the duration of the authorization flow.
#[derive(Debug, Clone)]
pub struct DeviceCode {
    /// The code the client presents when polling for a token.
    pub device_code: String,
    /// The code the human enters on the verification page.
    pub user_code: String,
    /// Where the human authorizes the client.
    pub verification_uri: String,
    /// The whole authorization window, in seconds from issuance.
    pub expires_in: u64,
    /// The initial poll interval, in seconds.
    pub interval: u64,
}

} // verus!
