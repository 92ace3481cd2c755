//! The specification repository: where the document is checked out from, and
//! the decision whether an existing checkout is reused or a fresh clone is
//! made.  The caller performs the actual version-control work.

use vstd::prelude::*;

use crate::conformance::test::runner::join;
use crate::conformance::test::runner::join_x;

verus! {

/// The URL of the canonical specification repository.
pub open spec fn default_url() -> Seq<char> {
    "https://github.com/openwdl/wdl.git"@
}

/// The directory name the checkout gets under a fresh temporary directory.
pub open spec fn checkout_name() -> Seq<char> {
    seq!['w', 'd', 'l']
}

/// How the repository is brought onto disk.
pub enum CheckoutAction {
    /// The target directory exists: open it as a repository checked out on an
    /// earlier run.
    Open,
    /// The target directory does not exist: clone the repository there, at
    /// depth one.
    Clone,
}

/// The abstract form of a [`Repository`].
pub struct RepositoryV {
    /// The local directory holding an existing checkout, if any.
    pub local_dir: Option<Seq<char>>,
    /// The remote URL.
    pub url: Seq<char>,
}

/// The specification repository.
pub struct Repository {
    /// The local directory.
    ///
    /// An absent local directory signifies that a temporary directory should
    /// be used for the checkout.
    local_dir: Option<String>,
    /// The remote URL.
    url: String,
}

impl View for Repository {
    type V = RepositoryV;

    closed spec fn view(&self) -> RepositoryV {
        RepositoryV { local_dir: self.local_dir.deep_view(), url: self.url@ }
    }
}

impl Repository {
    /// Builds a repository description; the URL defaults to the canonical
    /// specification repository.
    pub fn new(local_dir: Option<String>, url: Option<String>) -> (r: Repository)
        ensures
            r@.local_dir == local_dir.deep_view(),
            match url {
                Some(u) => r@.url == u@,
                None => r@.url == default_url(),
            },
    {
        let url = match url {
            Some(u) => u,
            None => "https://github.com/openwdl/wdl.git".to_owned(),
        };
        Repository { local_dir, url }
    }

    /// Gets a reference to the local directory.
    pub fn local_dir(&self) -> (r: Option<&String>)
        ensures
            match r {
                Some(p) => self@.local_dir == Some(p@),
                None => self@.local_dir is None,
            },
    {
        self.local_dir.as_ref()
    }

    /// Gets a reference to the URL.
    pub fn url(&self) -> (r: &str)
        ensures
            r@ == self@.url,
    {
        self.url.as_str()
    }

    /// The directory the checkout lives in: the configured local directory,
    /// or the repository's name under the given temporary directory.
    pub fn checkout_target(&self, temp_dir: &str) -> (r: String)
        ensures
            r@ == match self@.local_dir {
                Some(p) => p,
                None => join(temp_dir@, checkout_name()),
            },
    {
        match &self.local_dir {
            Some(p) => p.clone(),
            None => {
                let r = join_x(temp_dir, "wdl");
                proof {
                    reveal_strlit("wdl");
                    assert("wdl"@ =~= checkout_name());
                }
                r
            },
        }
    }

    /// The checkout decision: an existing target directory is assumed to be a
    /// checkout from an earlier run and is opened; otherwise the repository
    /// is cloned there.
    pub fn checkout_action(&self, target_exists: bool) -> (r: CheckoutAction)
        ensures
            r is Open <==> target_exists,
    {
        if target_exists {
            CheckoutAction::Open
        } else {
            CheckoutAction::Clone
        }
    }
}

} // verus!
