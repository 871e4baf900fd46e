use vstd::prelude::*;
use vstd::string::StringExecFns;

verus! {

/// The key that comments attach to: one line of one file at one commit of a
/// repository. `sha` is the resolved commit identifier.
#[derive(Clone, Debug)]
pub struct LineInRepo {
    pub repo_user: String,
    pub repo_name: String,
    pub sha: String,
    pub path: String,
    pub line: usize,
}

impl LineInRepo {
    /// Two anchors are the same when all five fields are equal.
    pub open spec fn same_anchor(&self, other: &LineInRepo) -> bool {
        &&& self.repo_user@ == other.repo_user@
        &&& self.repo_name@ == other.repo_name@
        &&& self.sha@ == other.sha@
        &&& self.path@ == other.path@
        &&& self.line == other.line
    }
}

/// A hosted repository, by owner and name.
pub struct GithubRepository<'a> {
    pub user: &'a str,
    pub name: &'a str,
}

/// `owner/name`.
pub open spec fn full_name_of(user: Seq<char>, name: Seq<char>) -> Seq<char> {
    user + seq!['/'] + name
}

impl<'a> GithubRepository<'a> {
    /// The repository written as `owner/name`.
    pub fn full_name(&self) -> (r: String)
        ensures
            r@ == full_name_of(self.user@, self.name@),
    {
        let mut s = String::from_str(self.user);
        let slash = "/";
        proof {
            reveal_strlit("/");
        }
        s.append(slash);
        s.append(self.name);
        proof {
            assert(slash@ =~= seq!['/']);
        }
        s
    }
}

} // verus!
