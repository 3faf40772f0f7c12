//! The single steps of provisioning: the command or the text that each one
//! needs, and what the machine's answer to it amounts to.

use crate::account::{GitAccount, GitAccountManager, GitAccountManagerView, GitAccountView};
use crate::action::{
    lemma_append_only_adds, spec_only_added_to, Command, CommandView, Event, EventView, FileAppend,
    FileAppendView,
};
use crate::config::{
    host_block, host_configured, include_stanza, lemma_host_configured_after,
    lemma_include_stanza_nonempty, lemma_local_block_nonempty, local_block, spec_host_block,
    spec_host_configured, spec_include_stanza, spec_local_block, spec_ssh_config_after,
};
use crate::error::{ProvisionError, ProvisionErrorView};
use crate::paths::{
    global_gitconfig, key_file, local_gitconfig, spec_global_gitconfig, spec_key_file,
    spec_local_gitconfig, spec_ssh_config, ssh_config,
};
use vstd::prelude::*;

verus! {

/// The error of a key that could not be made, with what the machine said.
pub open spec fn spec_key_generation_error(event: EventView) -> ProvisionErrorView {
    ProvisionErrorView::KeyGenerationError("Failed to generate SSH key: "@ + event.diagnostic())
}

/// The error of a key that the agent did not take, with what the machine
/// said.
pub open spec fn spec_agent_registration_error(event: EventView) -> ProvisionErrorView {
    ProvisionErrorView::AgentRegistrationError(
        "Failed to add SSH key to agent: "@ + event.diagnostic(),
    )
}

/// The error of configuration that could not be written, with what the
/// machine said.
pub open spec fn spec_config_write_error(event: EventView) -> ProvisionErrorView {
    ProvisionErrorView::ConfigWriteError("Failed to write configuration: "@ + event.diagnostic())
}

/// The error of configuration that could not be read, with what the
/// machine said.
pub open spec fn spec_config_read_error(event: EventView) -> ProvisionErrorView {
    ProvisionErrorView::ConfigWriteError("Failed to read configuration: "@ + event.diagnostic())
}

/// What the making of the key directory amounts to.
pub open spec fn spec_key_directory_made(event: EventView) -> Result<(), ProvisionErrorView> {
    if event is Completed {
        Ok(())
    } else {
        Err(spec_key_generation_error(event))
    }
}

/// The command that makes the key of the account `name`: an Ed25519 pair
/// with `email` as its comment and no passphrase, the private key at the
/// account's key file.
pub open spec fn spec_keygen_command(
    home: Seq<char>,
    name: Seq<char>,
    email: Seq<char>,
) -> CommandView {
    CommandView {
        program: "ssh-keygen"@,
        args: seq![
            "-t"@,
            "ed25519"@,
            "-C"@,
            email,
            "-f"@,
            spec_key_file(home, name),
            "-N"@,
            ""@,
        ],
    }
}

/// What the key generator's run amounts to: the path of the private key if
/// the utility exited with success, and otherwise an error that holds what
/// it printed.
pub open spec fn spec_generate_ssh_key(
    home: Seq<char>,
    name: Seq<char>,
    event: EventView,
) -> Result<Seq<char>, ProvisionErrorView> {
    if event.exited_with_success() {
        Ok(spec_key_file(home, name))
    } else {
        Err(spec_key_generation_error(event))
    }
}

/// The command that hands the private key at `key` to the agent.
pub open spec fn spec_agent_command(key: Seq<char>) -> CommandView {
    CommandView { program: "ssh-add"@, args: seq![key] }
}

/// What the agent utility's run amounts to.
pub open spec fn spec_add_ssh_agent(event: EventView) -> Result<(), ProvisionErrorView> {
    if event.exited_with_success() {
        Ok(())
    } else {
        Err(spec_agent_registration_error(event))
    }
}

/// What the making of a codebase directory or the writing of a
/// configuration file amounts to.
pub open spec fn spec_config_written(event: EventView) -> Result<(), ProvisionErrorView> {
    if event is Completed {
        Ok(())
    } else {
        Err(spec_config_write_error(event))
    }
}

/// The block of `account`, to be added to the Git configuration of its
/// codebase directory.
pub open spec fn spec_setup_local_gitconfig(account: GitAccountView) -> FileAppendView {
    FileAppendView {
        path: spec_local_gitconfig(account.codebase_dir_path),
        content: spec_local_block(account.name, account.email),
    }
}

/// The stanza that includes `local_config` inside `codebase`, to be added
/// to the user's own Git configuration.
pub open spec fn spec_setup_global_gitconfig(
    home: Seq<char>,
    codebase: Seq<char>,
    local_config: Seq<char>,
) -> FileAppendView {
    FileAppendView {
        path: spec_global_gitconfig(home),
        content: spec_include_stanza(codebase, local_config),
    }
}

/// What binds an account to its codebase directory: the directory to make,
/// and the additions to the two Git configurations.
#[derive(Debug, PartialEq, Eq)]
pub struct DirectoryBinding {
    pub directory: String,
    pub local: FileAppend,
    pub global: FileAppend,
}

/// A `DirectoryBinding` as a mathematical value.
pub struct DirectoryBindingView {
    pub directory: Seq<char>,
    pub local: FileAppendView,
    pub global: FileAppendView,
}

impl View for DirectoryBinding {
    type V = DirectoryBindingView;

    open spec fn view(&self) -> DirectoryBindingView {
        DirectoryBindingView {
            directory: self.directory@,
            local: self.local@,
            global: self.global@,
        }
    }
}

/// The binding of the account registered as `name`, or the error that the
/// registry holds no such account.
pub open spec fn spec_associate_account_with_dir(
    manager: GitAccountManagerView,
    name: Seq<char>,
) -> Result<DirectoryBindingView, ProvisionErrorView> {
    if manager.accounts.contains_key(name) {
        let account = manager.accounts[name];
        Ok(
            DirectoryBindingView {
                directory: account.codebase_dir_path,
                local: spec_setup_local_gitconfig(account),
                global: spec_setup_global_gitconfig(
                    manager.home_dir,
                    account.codebase_dir_path,
                    spec_local_gitconfig(account.codebase_dir_path),
                ),
            },
        )
    } else {
        Err(ProvisionErrorView::AccountNotFoundError(name))
    }
}

/// What is to be added to the SSH client's configuration, which holds
/// `existing`, for `host` and the key of the account registered as `name`:
/// the block of the host, or nothing where the file names the host already.
pub open spec fn spec_setup_ssh_config(
    manager: GitAccountManagerView,
    name: Seq<char>,
    host: Seq<char>,
    existing: Seq<char>,
) -> Result<Option<FileAppendView>, ProvisionErrorView> {
    if !manager.accounts.contains_key(name) {
        Err(ProvisionErrorView::AccountNotFoundError(name))
    } else if spec_host_configured(existing, host) {
        Ok(None)
    } else {
        Ok(
            Some(
                FileAppendView {
                    path: spec_ssh_config(manager.home_dir),
                    content: spec_host_block(host, manager.accounts[name].ssh_key),
                },
            ),
        )
    }
}

/// What a file holds after a change that may be none.
pub open spec fn spec_file_after(existing: Seq<char>, change: Option<FileAppendView>) -> Seq<
    char,
> {
    match change {
        Some(append) => append.applied_to(existing),
        None => existing,
    }
}

/// `prefix` and, after it, what the machine said.
fn failure_text(prefix: &str, event: &Event) -> (text: String)
    ensures
        text@ == prefix@ + event@.diagnostic(),
{
    let mut text = String::from_str(prefix);
    let said = event.diagnostic();
    text.append(said.as_str());
    text
}

/// The error of a key that could not be made.
pub fn key_generation_error(event: &Event) -> (error: ProvisionError)
    ensures
        error@ == spec_key_generation_error(event@),
{
    ProvisionError::KeyGenerationError(failure_text("Failed to generate SSH key: ", event))
}

/// The error of a key that the agent did not take.
pub fn agent_registration_error(event: &Event) -> (error: ProvisionError)
    ensures
        error@ == spec_agent_registration_error(event@),
{
    ProvisionError::AgentRegistrationError(failure_text("Failed to add SSH key to agent: ", event))
}

/// The error of configuration that could not be written.
pub fn config_write_error(event: &Event) -> (error: ProvisionError)
    ensures
        error@ == spec_config_write_error(event@),
{
    ProvisionError::ConfigWriteError(failure_text("Failed to write configuration: ", event))
}

/// The error of configuration that could not be read.
pub fn config_read_error(event: &Event) -> (error: ProvisionError)
    ensures
        error@ == spec_config_read_error(event@),
{
    ProvisionError::ConfigWriteError(failure_text("Failed to read configuration: ", event))
}

/// What the making of the key directory amounts to: success if and only if
/// the event is `Completed`.
pub fn key_directory_made(event: &Event) -> (made: Result<(), ProvisionError>)
    ensures
        match made {
            Ok(()) => spec_key_directory_made(event@) is Ok,
            Err(e) => spec_key_directory_made(event@) == Err::<(), ProvisionErrorView>(e@),
        },
{
    match event {
        Event::Completed => Ok(()),
        _ => Err(key_generation_error(event)),
    }
}

/// What the making of a codebase directory or the writing of a
/// configuration file amounts to: success if and only if the event is
/// `Completed`.
pub fn config_written(event: &Event) -> (written: Result<(), ProvisionError>)
    ensures
        match written {
            Ok(()) => spec_config_written(event@) is Ok,
            Err(e) => spec_config_written(event@) == Err::<(), ProvisionErrorView>(e@),
        },
{
    match event {
        Event::Completed => Ok(()),
        _ => Err(config_write_error(event)),
    }
}

impl GitAccountManager {
    /// The command that makes the key of the account `account_name`. The
    /// generator is not told to spare a key that lies at the path already.
    pub fn keygen_command(&self, account_name: &str, email: &str) -> (command: Command)
        ensures
            command@ == spec_keygen_command(self@.home_dir, account_name@, email@),
    {
        let mut args: Vec<String> = Vec::new();
        args.push(String::from_str("-t"));
        args.push(String::from_str("ed25519"));
        args.push(String::from_str("-C"));
        args.push(String::from_str(email));
        args.push(String::from_str("-f"));
        args.push(key_file(self.home_dir(), account_name));
        args.push(String::from_str("-N"));
        args.push(String::from_str(""));
        let command = Command { program: String::from_str("ssh-keygen"), args };
        assert(command@.args =~= spec_keygen_command(self@.home_dir, account_name@, email@).args);
        command
    }

    /// What the key generator's run for the account `account_name` amounts
    /// to. The path of the private key is returned if and only if the
    /// utility exited with success; it depends on the home directory and
    /// the account's name alone. Otherwise the error holds, after a few
    /// words, what the utility printed.
    pub fn generate_ssh_key(&self, account_name: &str, event: &Event) -> (key: Result<
        String,
        ProvisionError,
    >)
        ensures
            match key {
                Ok(path) => spec_generate_ssh_key(self@.home_dir, account_name@, event@) == Ok::<
                    Seq<char>,
                    ProvisionErrorView,
                >(path@),
                Err(e) => spec_generate_ssh_key(self@.home_dir, account_name@, event@) == Err::<
                    Seq<char>,
                    ProvisionErrorView,
                >(e@),
            },
    {
        match event {
            Event::Exited { success: true, .. } => Ok(key_file(self.home_dir(), account_name)),
            _ => Err(key_generation_error(event)),
        }
    }

    /// The command that hands the private key at `ssh_key_file` to the
    /// agent.
    pub fn agent_command(&self, ssh_key_file: &str) -> (command: Command)
        ensures
            command@ == spec_agent_command(ssh_key_file@),
    {
        let mut args: Vec<String> = Vec::new();
        args.push(String::from_str(ssh_key_file));
        let command = Command { program: String::from_str("ssh-add"), args };
        assert(command@.args =~= spec_agent_command(ssh_key_file@).args);
        command
    }

    /// What the agent utility's run amounts to: success if and only if it
    /// exited with success, as it does not where no agent is running.
    /// Otherwise the error holds, after a few words, what the utility
    /// printed. The key that was made stays in either case.
    pub fn add_ssh_agent(&self, event: &Event) -> (added: Result<(), ProvisionError>)
        ensures
            match added {
                Ok(()) => spec_add_ssh_agent(event@) is Ok,
                Err(e) => spec_add_ssh_agent(event@) == Err::<(), ProvisionErrorView>(e@),
            },
    {
        match event {
            Event::Exited { success: true, .. } => Ok(()),
            _ => Err(agent_registration_error(event)),
        }
    }

    /// The block of `account`, to be added to the Git configuration of its
    /// codebase directory. The block is the same at every call: a file that
    /// holds it already gets it once more.
    pub fn setup_local_gitconfig(&self, account: &GitAccount) -> (append: FileAppend)
        ensures
            append@ == spec_setup_local_gitconfig(account@),
    {
        FileAppend {
            path: local_gitconfig(account.codebase_dir_path.as_str()),
            content: local_block(account.name.as_str(), account.email.as_str()),
        }
    }

    /// The stanza that includes the configuration file at
    /// `local_gitconfig_path_str` inside the directory `codebase_path_str`,
    /// to be added to the user's own Git configuration. The stanza is the
    /// same at every call: a file that holds it already gets it once more.
    pub fn setup_global_gitconfig(
        &self,
        codebase_path_str: &str,
        local_gitconfig_path_str: &str,
    ) -> (append: FileAppend)
        ensures
            append@ == spec_setup_global_gitconfig(
                self@.home_dir,
                codebase_path_str@,
                local_gitconfig_path_str@,
            ),
    {
        FileAppend {
            path: global_gitconfig(self.home_dir()),
            content: include_stanza(codebase_path_str, local_gitconfig_path_str),
        }
    }

    /// What binds the account registered as `account_name` to its codebase
    /// directory. Fails if and only if the registry holds no such account.
    pub fn associate_account_with_dir(&self, account_name: &str) -> (binding: Result<
        DirectoryBinding,
        ProvisionError,
    >)
        ensures
            match binding {
                Ok(b) => spec_associate_account_with_dir(self@, account_name@) == Ok::<
                    DirectoryBindingView,
                    ProvisionErrorView,
                >(b@),
                Err(e) => spec_associate_account_with_dir(self@, account_name@) == Err::<
                    DirectoryBindingView,
                    ProvisionErrorView,
                >(e@),
            },
    {
        match self.account(account_name) {
            Some(account) => {
                let local = self.setup_local_gitconfig(account);
                let global = self.setup_global_gitconfig(
                    account.codebase_dir_path.as_str(),
                    local.path.as_str(),
                );
                Ok(DirectoryBinding { directory: account.codebase_dir_path.clone(), local, global })
            },
            None => Err(ProvisionError::AccountNotFoundError(String::from_str(account_name))),
        }
    }

    /// What is to be added to the SSH client's configuration, which holds
    /// `existing`, for `host` and the key of the account registered as
    /// `name`. Fails if and only if the registry holds no such account.
    /// Nothing is to be added if and only if `existing` holds `Host `
    /// followed by `host` anywhere, compared character for character.
    pub fn setup_ssh_config(&self, name: &str, host: &str, existing: &str) -> (append: Result<
        Option<FileAppend>,
        ProvisionError,
    >)
        ensures
            match append {
                Ok(Some(a)) => spec_setup_ssh_config(self@, name@, host@, existing@) == Ok::<
                    Option<FileAppendView>,
                    ProvisionErrorView,
                >(Some(a@)),
                Ok(None) => spec_setup_ssh_config(self@, name@, host@, existing@) == Ok::<
                    Option<FileAppendView>,
                    ProvisionErrorView,
                >(None),
                Err(e) => spec_setup_ssh_config(self@, name@, host@, existing@) == Err::<
                    Option<FileAppendView>,
                    ProvisionErrorView,
                >(e@),
            },
    {
        match self.account(name) {
            None => Err(ProvisionError::AccountNotFoundError(String::from_str(name))),
            Some(account) => {
                if host_configured(existing, host) {
                    Ok(None)
                } else {
                    Ok(
                        Some(
                            FileAppend {
                                path: ssh_config(self.home_dir()),
                                content: host_block(host, account.ssh_key.as_str()),
                            },
                        ),
                    )
                }
            },
        }
    }
}

/// The key generator is told to write the private key to the very path
/// that a successful run returns.
pub proof fn lemma_key_written_where_returned(
    home: Seq<char>,
    name: Seq<char>,
    email: Seq<char>,
    event: EventView,
)
    requires
        event.exited_with_success(),
    ensures
        spec_generate_ssh_key(home, name, event) == Ok::<Seq<char>, ProvisionErrorView>(
            spec_key_file(home, name),
        ),
        spec_keygen_command(home, name, email).args[4] == "-f"@,
        spec_keygen_command(home, name, email).args[5] == spec_key_file(home, name),
{
}

/// Git configuration is only ever added to. Once the block of `account`
/// has been appended to a file that held `existing_local`, and the stanza of
/// its codebase to one that held `existing_global`, each file is longer than
/// before and begins with what it held, byte for byte. Nothing is compared
/// or left out: a second run for the same account adds the same text again.
pub proof fn lemma_git_config_append_only(
    home: Seq<char>,
    account: GitAccountView,
    existing_local: Seq<char>,
    existing_global: Seq<char>,
)
    ensures
        spec_only_added_to(
            existing_local,
            spec_setup_local_gitconfig(account).applied_to(existing_local),
        ),
        spec_only_added_to(
            existing_global,
            spec_setup_global_gitconfig(
                home,
                account.codebase_dir_path,
                spec_local_gitconfig(account.codebase_dir_path),
            ).applied_to(existing_global),
        ),
{
    lemma_local_block_nonempty(account.name, account.email);
    lemma_include_stanza_nonempty(
        account.codebase_dir_path,
        spec_local_gitconfig(account.codebase_dir_path),
    );
    lemma_append_only_adds(spec_setup_local_gitconfig(account), existing_local);
    lemma_append_only_adds(
        spec_setup_global_gitconfig(
            home,
            account.codebase_dir_path,
            spec_local_gitconfig(account.codebase_dir_path),
        ),
        existing_global,
    );
}

/// The SSH client's configuration is written for a host once. After the
/// change that a first call names has been made to a file that held
/// `existing`, the file holds what it held and at most one block more, and a
/// second call for the same host names no change: the file stays as the
/// first call left it.
pub proof fn lemma_ssh_config_written_once(
    manager: GitAccountManagerView,
    name: Seq<char>,
    host: Seq<char>,
    existing: Seq<char>,
)
    requires
        manager.accounts.contains_key(name),
    ensures
        ({
            let first = spec_setup_ssh_config(manager, name, host, existing);
            let after = spec_file_after(existing, first->Ok_0);
            let second = spec_setup_ssh_config(manager, name, host, after);
            &&& first is Ok
            &&& after == spec_ssh_config_after(existing, host, manager.accounts[name].ssh_key)
            &&& second == Ok::<Option<FileAppendView>, ProvisionErrorView>(None)
            &&& spec_file_after(after, second->Ok_0) == after
        }),
{
    lemma_host_configured_after(existing, host, manager.accounts[name].ssh_key);
}

} // verus!
