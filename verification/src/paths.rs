//! Where the files of an identity lie: paths as text, joined with `/`.

use crate::text::to_chars;
use vstd::prelude::*;

verus! {

/// Whether `path` begins at the root.
pub open spec fn is_absolute(path: Seq<char>) -> bool {
    path.len() > 0 && path[0] == '/'
}

/// `rel` adjoined to `base`. An absolute `rel` stands for itself; otherwise
/// the two are put together, with one `/` between them unless `base` is
/// empty or ends in one.
pub open spec fn spec_join(base: Seq<char>, rel: Seq<char>) -> Seq<char> {
    if is_absolute(rel) {
        rel
    } else if base.len() == 0 || base.last() == '/' {
        base + rel
    } else {
        base + seq!['/'] + rel
    }
}

/// The directory that holds the keys: `.ssh` under the home directory.
pub open spec fn spec_ssh_dir(home: Seq<char>) -> Seq<char> {
    spec_join(home, ".ssh"@)
}

/// The private key of the account `name`. The public key lies beside it,
/// under the same name with `.pub` after it.
pub open spec fn spec_key_file(home: Seq<char>, name: Seq<char>) -> Seq<char> {
    spec_join(spec_ssh_dir(home), "id_ed25519_"@ + name)
}

/// The Git configuration of one codebase directory.
pub open spec fn spec_local_gitconfig(codebase: Seq<char>) -> Seq<char> {
    spec_join(codebase, ".gitconfig"@)
}

/// The user's own Git configuration.
pub open spec fn spec_global_gitconfig(home: Seq<char>) -> Seq<char> {
    spec_join(home, ".gitconfig"@)
}

/// The configuration of the SSH client.
pub open spec fn spec_ssh_config(home: Seq<char>) -> Seq<char> {
    spec_join(home, ".ssh/config"@)
}

/// The key directory is the home directory with `.ssh` after it, and the
/// key of an account lies in it under `id_ed25519_` and the account's name:
/// both depend on the home directory and the name alone.
pub proof fn lemma_key_file_layout(home: Seq<char>, name: Seq<char>)
    ensures
        spec_ssh_dir(home) == if home.len() == 0 || home.last() == '/' {
            home + ".ssh"@
        } else {
            home + seq!['/'] + ".ssh"@
        },
        spec_key_file(home, name) == spec_ssh_dir(home) + seq!['/'] + "id_ed25519_"@ + name,
{
    reveal_strlit(".ssh");
    reveal_strlit("id_ed25519_");
    let dir = spec_ssh_dir(home);
    let file = "id_ed25519_"@ + name;
    assert(!is_absolute(".ssh"@));
    assert(file[0] == 'i');
    assert(dir.last() == 'h');
}

/// Adjoins `rel` to `base`.
pub fn join(base: &str, rel: &str) -> (path: String)
    ensures
        path@ == spec_join(base@, rel@),
{
    let r = to_chars(rel);
    if r.len() > 0 && r[0] == '/' {
        return String::from_str(rel);
    }
    let b = to_chars(base);
    let mut path = String::from_str(base);
    if b.len() > 0 && b[b.len() - 1] != '/' {
        proof {
            reveal_strlit("/");
            assert("/"@ =~= seq!['/']);
        }
        path.append("/");
    }
    path.append(rel);
    path
}

/// The directory that holds the keys.
pub fn ssh_dir(home: &str) -> (path: String)
    ensures
        path@ == spec_ssh_dir(home@),
{
    join(home, ".ssh")
}

/// The private key of the account `name`.
pub fn key_file(home: &str, name: &str) -> (path: String)
    ensures
        path@ == spec_key_file(home@, name@),
{
    let dir = ssh_dir(home);
    let mut file = String::from_str("id_ed25519_");
    file.append(name);
    join(dir.as_str(), file.as_str())
}

/// The Git configuration of the codebase directory `codebase`.
pub fn local_gitconfig(codebase: &str) -> (path: String)
    ensures
        path@ == spec_local_gitconfig(codebase@),
{
    join(codebase, ".gitconfig")
}

/// The user's own Git configuration.
pub fn global_gitconfig(home: &str) -> (path: String)
    ensures
        path@ == spec_global_gitconfig(home@),
{
    join(home, ".gitconfig")
}

/// The configuration of the SSH client.
pub fn ssh_config(home: &str) -> (path: String)
    ensures
        path@ == spec_ssh_config(home@),
{
    join(home, ".ssh/config")
}

} // verus!
