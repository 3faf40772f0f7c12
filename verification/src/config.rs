//! The text that provisioning adds to the configuration files of Git and of
//! the SSH client, and what a file holds once it has been added.

use crate::text::{contains, lemma_contains_middle, text_contains};
use vstd::prelude::*;

verus! {

/// The block for a codebase's own Git configuration: clones from
/// `git@github.com:` go through the account's host alias, and commits carry
/// the account's name and email.
pub open spec fn spec_local_block(name: Seq<char>, email: Seq<char>) -> Seq<char> {
    "[url \"git@github.com-"@ + name + ":\"]\n    insteadOf = git@github.com:\n[user]\n name = "@
        + name + "\n email = "@ + email + "\n"@
}

/// The stanza for the user's own Git configuration: inside `codebase`, Git
/// also reads the file `local_config`.
pub open spec fn spec_include_stanza(codebase: Seq<char>, local_config: Seq<char>) -> Seq<char> {
    "[includeIf \"gitdir/i:"@ + codebase + "\"]\n    path = "@ + local_config + "\n\n"@
}

/// The line that opens the block of `host` in the SSH client's
/// configuration. A file that holds it anywhere counts as configured.
pub open spec fn spec_host_line(host: Seq<char>) -> Seq<char> {
    "Host "@ + host
}

/// The block that sends connections to `host` to GitHub with the key
/// `key_file`.
pub open spec fn spec_host_block(host: Seq<char>, key_file: Seq<char>) -> Seq<char> {
    "\n"@ + spec_host_line(host)
        + "\n    HostName github.com\n    User git\n    AddKeysToAgent yes\n    UseKeychain yes\n    IdentityFile "@
        + key_file + "\n"@
}

/// Whether the SSH client's configuration `existing` already names `host`.
pub open spec fn spec_host_configured(existing: Seq<char>, host: Seq<char>) -> bool {
    contains(existing, spec_host_line(host))
}

/// What the SSH client's configuration holds after `host` has been
/// provisioned with `key_file`: the block is added at the end, unless the
/// file names the host already.
pub open spec fn spec_ssh_config_after(
    existing: Seq<char>,
    host: Seq<char>,
    key_file: Seq<char>,
) -> Seq<char> {
    if spec_host_configured(existing, host) {
        existing
    } else {
        existing + spec_host_block(host, key_file)
    }
}

/// The block for a codebase's own Git configuration.
pub fn local_block(name: &str, email: &str) -> (block: String)
    ensures
        block@ == spec_local_block(name@, email@),
{
    let mut block = String::from_str("[url \"git@github.com-");
    block.append(name);
    block.append(":\"]\n    insteadOf = git@github.com:\n[user]\n name = ");
    block.append(name);
    block.append("\n email = ");
    block.append(email);
    block.append("\n");
    block
}

/// The stanza for the user's own Git configuration.
pub fn include_stanza(codebase: &str, local_config: &str) -> (stanza: String)
    ensures
        stanza@ == spec_include_stanza(codebase@, local_config@),
{
    let mut stanza = String::from_str("[includeIf \"gitdir/i:");
    stanza.append(codebase);
    stanza.append("\"]\n    path = ");
    stanza.append(local_config);
    stanza.append("\n\n");
    stanza
}

/// The line that opens the block of `host`.
pub fn host_line(host: &str) -> (line: String)
    ensures
        line@ == spec_host_line(host@),
{
    let mut line = String::from_str("Host ");
    line.append(host);
    line
}

/// The block that sends connections to `host` to GitHub with the key
/// `key_file`.
pub fn host_block(host: &str, key_file: &str) -> (block: String)
    ensures
        block@ == spec_host_block(host@, key_file@),
{
    let line = host_line(host);
    let mut block = String::from_str("\n");
    block.append(line.as_str());
    block.append(
        "\n    HostName github.com\n    User git\n    AddKeysToAgent yes\n    UseKeychain yes\n    IdentityFile ",
    );
    block.append(key_file);
    block.append("\n");
    block
}

/// Whether the SSH client's configuration `existing` already names `host`.
pub fn host_configured(existing: &str, host: &str) -> (r: bool)
    ensures
        r == spec_host_configured(existing@, host@),
{
    let line = host_line(host);
    text_contains(existing, line.as_str())
}

/// A block for a codebase's Git configuration is never empty.
pub proof fn lemma_local_block_nonempty(name: Seq<char>, email: Seq<char>)
    ensures
        spec_local_block(name, email).len() > 0,
{
    reveal_strlit("\n");
}

/// A stanza for the user's Git configuration is never empty.
pub proof fn lemma_include_stanza_nonempty(codebase: Seq<char>, local_config: Seq<char>)
    ensures
        spec_include_stanza(codebase, local_config).len() > 0,
{
    reveal_strlit("\n\n");
}

/// Once `host` has been provisioned, the SSH client's configuration names
/// it, whatever the file held before.
pub proof fn lemma_host_configured_after(existing: Seq<char>, host: Seq<char>, key_file: Seq<char>)
    ensures
        spec_host_configured(spec_ssh_config_after(existing, host, key_file), host),
{
    if !spec_host_configured(existing, host) {
        let line = spec_host_line(host);
        let tail =
            "\n    HostName github.com\n    User git\n    AddKeysToAgent yes\n    UseKeychain yes\n    IdentityFile "@
            + key_file + "\n"@;
        lemma_contains_middle(existing + "\n"@, line, tail);
        assert(existing + spec_host_block(host, key_file) =~= existing + "\n"@ + line + tail);
    }
}

/// Provisioning the SSH client's configuration for a host a second time
/// changes nothing: the block is added at most once, and the second pass
/// leaves the file as the first one left it, whichever keys the two passes
/// name.
pub proof fn lemma_ssh_config_idempotent(
    existing: Seq<char>,
    host: Seq<char>,
    first_key: Seq<char>,
    second_key: Seq<char>,
)
    ensures
        spec_ssh_config_after(spec_ssh_config_after(existing, host, first_key), host, second_key)
            == spec_ssh_config_after(existing, host, first_key),
{
    lemma_host_configured_after(existing, host, first_key);
}

} // verus!
