//! Accounts, and the registry that holds them during one run.

use crate::error::ProvisionError;
use crate::text::same_text;
use vstd::prelude::*;

verus! {

/// A Git identity: a name, bound to one SSH key and one codebase directory.
/// The name identifies the account; it stands in file names and in
/// configuration sections.
#[derive(Debug, PartialEq, Eq)]
pub struct GitAccount {
    pub name: String,
    pub email: String,
    /// The path of the private key.
    pub ssh_key: String,
    /// The directory under which the identity is in force.
    pub codebase_dir_path: String,
}

/// A `GitAccount` as a mathematical value.
pub struct GitAccountView {
    pub name: Seq<char>,
    pub email: Seq<char>,
    pub ssh_key: Seq<char>,
    pub codebase_dir_path: Seq<char>,
}

impl View for GitAccount {
    type V = GitAccountView;

    open spec fn view(&self) -> GitAccountView {
        GitAccountView {
            name: self.name@,
            email: self.email@,
            ssh_key: self.ssh_key@,
            codebase_dir_path: self.codebase_dir_path@,
        }
    }
}

/// The registry of accounts of one run, with the home directory that all
/// home-relative paths start from. Nothing of it is kept between runs: the
/// files on disk are the record.
pub struct GitAccountManager {
    accounts: Vec<GitAccount>,
    home_dir: String,
}

/// A `GitAccountManager` as a mathematical value.
pub struct GitAccountManagerView {
    /// The accounts by name.
    pub accounts: Map<Seq<char>, GitAccountView>,
    pub home_dir: Seq<char>,
}

/// Whether an account named `name` stands at `i` in `accounts`.
spec fn named_at(accounts: Seq<GitAccount>, name: Seq<char>, i: int) -> bool {
    0 <= i < accounts.len() && accounts[i].name@ == name
}

/// The accounts by name.
spec fn by_name(accounts: Seq<GitAccount>) -> Map<Seq<char>, GitAccountView> {
    Map::new(
        |name: Seq<char>| exists|i: int| named_at(accounts, name, i),
        |name: Seq<char>| accounts[choose|i: int| named_at(accounts, name, i)]@,
    )
}

impl View for GitAccountManager {
    type V = GitAccountManagerView;

    closed spec fn view(&self) -> GitAccountManagerView {
        GitAccountManagerView { accounts: by_name(self.accounts@), home_dir: self.home_dir@ }
    }
}

impl GitAccountManager {
    /// No two accounts of the registry share a name.
    #[verifier::type_invariant]
    spec fn names_differ(&self) -> bool {
        forall|i: int, j: int|
            0 <= i < j < self.accounts@.len() ==> self.accounts@[i].name@ != self.accounts@[j].name@
    }

    /// An empty registry for the home directory `home_dir`.
    pub fn new(home_dir: String) -> (manager: Self)
        ensures
            manager@.home_dir == home_dir@,
            manager@.accounts == Map::<Seq<char>, GitAccountView>::empty(),
    {
        let manager = GitAccountManager { accounts: Vec::new(), home_dir };
        assert(manager@.accounts =~= Map::<Seq<char>, GitAccountView>::empty());
        manager
    }

    /// A registry for the home directory `home`, where one is known. Without
    /// one there is no registry, and so nothing can be provisioned.
    pub fn for_home(home: Option<String>) -> (made: Result<Self, ProvisionError>)
        ensures
            match made {
                Ok(manager) => home matches Some(dir) && manager@.home_dir == dir@
                    && manager@.accounts == Map::<Seq<char>, GitAccountView>::empty(),
                Err(e) => home is None && e@ == crate::error::ProvisionErrorView::EnvironmentError,
            },
    {
        match home {
            Some(dir) => Ok(GitAccountManager::new(dir)),
            None => Err(ProvisionError::EnvironmentError),
        }
    }

    /// The home directory.
    pub fn home_dir(&self) -> (dir: &str)
        ensures
            dir@ == self@.home_dir,
    {
        self.home_dir.as_str()
    }

    /// Where the account named `name` stands, if the registry holds one.
    fn position(&self, name: &str) -> (at: Option<usize>)
        ensures
            match at {
                Some(i) => named_at(self.accounts@, name@, i as int),
                None => forall|i: int| !named_at(self.accounts@, name@, i),
            },
    {
        let mut i: usize = 0;
        while i < self.accounts.len()
            invariant
                i <= self.accounts.len(),
                forall|j: int| 0 <= j < i ==> !named_at(self.accounts@, name@, j),
            decreases self.accounts.len() - i,
        {
            if same_text(self.accounts[i].name.as_str(), name) {
                return Some(i);
            }
            i += 1;
        }
        None
    }

    /// Every account of the registry stands under its own name.
    pub proof fn lemma_keyed_by_name(&self, name: Seq<char>)
        requires
            self@.accounts.contains_key(name),
        ensures
            self@.accounts[name].name == name,
    {
        let chosen = choose|k: int| named_at(self.accounts@, name, k);
        assert(named_at(self.accounts@, name, chosen));
    }

    /// The account named `name`, if the registry holds one.
    pub fn account(&self, name: &str) -> (found: Option<&GitAccount>)
        ensures
            match found {
                Some(account) => self@.accounts.contains_key(name@) && account@
                    == self@.accounts[name@] && account.name@ == name@,
                None => !self@.accounts.contains_key(name@),
            },
    {
        proof {
            use_type_invariant(self);
        }
        match self.position(name) {
            Some(i) => {
                proof {
                    let chosen = choose|k: int| named_at(self.accounts@, name@, k);
                    assert(named_at(self.accounts@, name@, i as int));
                    assert(chosen == i);
                }
                Some(&self.accounts[i])
            },
            None => None,
        }
    }

    /// Records an account under `name`. An account that the registry held
    /// under that name is replaced: the last one recorded counts.
    pub fn add_account(&mut self, name: &str, email: &str, ssh_key: &str, codebase_dir_path: String)
        ensures
            final(self)@.home_dir == old(self)@.home_dir,
            final(self)@.accounts == old(self)@.accounts.insert(
                name@,
                GitAccountView {
                    name: name@,
                    email: email@,
                    ssh_key: ssh_key@,
                    codebase_dir_path: codebase_dir_path@,
                },
            ),
    {
        proof {
            use_type_invariant(&*self);
        }
        let account = GitAccount {
            name: String::from_str(name),
            email: String::from_str(email),
            ssh_key: String::from_str(ssh_key),
            codebase_dir_path,
        };
        let ghost before = self.accounts@;
        let ghost added = account@;
        let at = self.position(name);
        let mut accounts: Vec<GitAccount> = Vec::new();
        std::mem::swap(&mut accounts, &mut self.accounts);
        let ghost slot: int;
        match at {
            Some(i) => {
                accounts[i] = account;
                proof {
                    slot = i as int;
                }
            },
            None => {
                accounts.push(account);
                proof {
                    slot = before.len() as int;
                }
            },
        }
        proof {
            let after = accounts@;
            assert(named_at(after, name@, slot));
            assert(after[slot]@ == added);
            assert forall|k: int| 0 <= k < after.len() && k != slot implies k < before.len()
                && after[k] == before[k] && before[k].name@ != name@ by {
                if at is None {
                    assert(!named_at(before, name@, k));
                }
            }
            assert forall|n: Seq<char>| #[trigger]
                by_name(after).contains_key(n) == by_name(before).insert(
                    name@,
                    added,
                ).contains_key(n) by {
                if by_name(after).contains_key(n) {
                    let k = choose|k: int| named_at(after, n, k);
                    if n != name@ {
                        assert(named_at(before, n, k));
                    }
                }
                if n != name@ && by_name(before).contains_key(n) {
                    let k = choose|k: int| named_at(before, n, k);
                    assert(named_at(after, n, k));
                }
            }
            assert forall|n: Seq<char>| #[trigger]
                by_name(after).contains_key(n) implies by_name(after)[n] == by_name(before).insert(
                name@,
                added,
            )[n] by {
                let k = choose|k: int| named_at(after, n, k);
                if n != name@ {
                    let j = choose|j: int| named_at(before, n, j);
                    assert(named_at(before, n, k));
                    assert(named_at(before, n, j));
                    assert(j == k);
                } else {
                    assert(k == slot);
                }
            }
            assert(by_name(after) =~= by_name(before).insert(name@, added));
        }
        self.accounts = accounts;
    }
}

} // verus!
