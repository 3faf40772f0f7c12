use git_account_manager::{
    Action, Command, Event, FileAppend, GitAccountManager, ProvisionError, Stage,
};

/// A machine in memory: files by path, and the answers of the two utilities.
struct Machine {
    files: Vec<(String, String)>,
    dirs: Vec<String>,
    commands: Vec<Command>,
    keygen_exits_ok: bool,
    agent_exits_ok: bool,
}

fn fresh_machine() -> Machine {
    Machine { files: Vec::new(), dirs: Vec::new(), commands: Vec::new(), keygen_exits_ok: true, agent_exits_ok: true }
}

fn file<'a>(machine: &'a Machine, path: &str) -> Option<&'a str> {
    machine.files.iter().find(|(p, _)| p == path).map(|(_, c)| c.as_str())
}

fn perform(machine: &mut Machine, action: Action) -> Event {
    match action {
        Action::CreateDir(path) => {
            machine.dirs.push(path);
            Event::Completed
        }
        Action::Run(command) => {
            let ok = if command.program == "ssh-keygen" { machine.keygen_exits_ok } else { machine.agent_exits_ok };
            if ok && command.program == "ssh-keygen" {
                let key = command.args[5].clone();
                machine.files.push((format!("{}.pub", key), String::from("ssh-ed25519 AAAA")));
                machine.files.push((key, String::from("PRIVATE")));
            }
            let stderr = if ok { String::new() } else { format!("{} failed", command.program) };
            machine.commands.push(command);
            Event::Exited { success: ok, stdout: String::new(), stderr }
        }
        Action::ReadFile(path) => Event::Contents(file(machine, &path).map(String::from)),
        Action::AppendFile(append) => {
            match machine.files.iter_mut().find(|(p, _)| *p == append.path) {
                Some((_, content)) => content.push_str(&append.content),
                None => machine.files.push((append.path, append.content)),
            }
            Event::Completed
        }
        Action::Finish => Event::Completed,
    }
}

fn provision(
    manager: &mut GitAccountManager,
    machine: &mut Machine,
    name: &str,
    email: &str,
    codebase_dir: &str,
    host: &str,
) -> Result<Vec<Stage>, ProvisionError> {
    let mut stage = Stage::Start;
    let mut event = Event::Start;
    let mut seen = Vec::new();
    loop {
        let (next, action) = manager.setup_account(name, email, codebase_dir, host, stage, &event)?;
        seen.push(next);
        if action == Action::Finish {
            return Ok(seen);
        }
        event = perform(machine, action);
        stage = next;
    }
}

const LOCAL_BLOCK: &str = "[url \"git@github.com-acc1:\"]\n    insteadOf = git@github.com:\n[user]\n name = acc1\n email = a@example.com\n";
const GLOBAL_STANZA: &str = "[includeIf \"gitdir/i:/home/u/Code/acc1\"]\n    path = /home/u/Code/acc1/.gitconfig\n\n";
const HOST_BLOCK: &str = "\nHost github.com-acc1\n    HostName github.com\n    User git\n    AddKeysToAgent yes\n    UseKeychain yes\n    IdentityFile /home/u/.ssh/id_ed25519_acc1\n";

#[test]
fn provisioning_a_fresh_home_writes_every_file() {
    let mut manager = GitAccountManager::new(String::from("/home/u"));
    let mut machine = fresh_machine();
    let stages = provision(&mut manager, &mut machine, "acc1", "a@example.com", "/home/u/Code/acc1", "github.com-acc1");
    assert_eq!(
        stages,
        Ok(vec![
            Stage::KeyDirectory,
            Stage::KeyGeneration,
            Stage::AgentRegistration,
            Stage::CodebaseDirectory,
            Stage::LocalConfig,
            Stage::GlobalConfig,
            Stage::SshConfigRead,
            Stage::SshConfigWrite,
            Stage::Done,
        ])
    );
    assert_eq!(machine.dirs, vec![String::from("/home/u/.ssh"), String::from("/home/u/Code/acc1")]);
    assert_eq!(file(&machine, "/home/u/.ssh/id_ed25519_acc1"), Some("PRIVATE"));
    assert!(file(&machine, "/home/u/.ssh/id_ed25519_acc1.pub").is_some());
    assert_eq!(file(&machine, "/home/u/Code/acc1/.gitconfig"), Some(LOCAL_BLOCK));
    assert_eq!(file(&machine, "/home/u/.gitconfig"), Some(GLOBAL_STANZA));
    assert_eq!(file(&machine, "/home/u/.ssh/config"), Some(HOST_BLOCK));
    assert_eq!(machine.files.len(), 5);

    let local = file(&machine, "/home/u/Code/acc1/.gitconfig").unwrap();
    assert!(local.contains("[user]\n name = acc1\n email = a@example.com"));
    assert!(local.contains("[url \"git@github.com-acc1:\"]"));
    assert!(local.contains("insteadOf = git@github.com:"));
    let global = file(&machine, "/home/u/.gitconfig").unwrap();
    assert!(global.contains("[includeIf \"gitdir/i:/home/u/Code/acc1\"]"));
    assert!(global.contains("path = /home/u/Code/acc1/.gitconfig"));
    let ssh = file(&machine, "/home/u/.ssh/config").unwrap();
    assert!(ssh.contains("Host github.com-acc1\n"));
    assert!(ssh.contains("IdentityFile /home/u/.ssh/id_ed25519_acc1"));
}

#[test]
fn provisioning_runs_the_two_utilities_in_order() {
    let mut manager = GitAccountManager::new(String::from("/home/u"));
    let mut machine = fresh_machine();
    provision(&mut manager, &mut machine, "acc1", "a@example.com", "/home/u/Code/acc1", "github.com-acc1").unwrap();
    assert_eq!(machine.commands.len(), 2);
    assert_eq!(machine.commands[0].program, "ssh-keygen");
    assert_eq!(
        machine.commands[0].args,
        vec!["-t", "ed25519", "-C", "a@example.com", "-f", "/home/u/.ssh/id_ed25519_acc1", "-N", ""]
    );
    assert_eq!(machine.commands[1].program, "ssh-add");
    assert_eq!(machine.commands[1].args, vec!["/home/u/.ssh/id_ed25519_acc1"]);
}

#[test]
fn provisioning_records_the_account() {
    let mut manager = GitAccountManager::new(String::from("/home/u"));
    let mut machine = fresh_machine();
    provision(&mut manager, &mut machine, "acc1", "a@example.com", "Code/acc1", "github.com-acc1").unwrap();
    let account = manager.account("acc1").unwrap();
    assert_eq!(account.name, "acc1");
    assert_eq!(account.email, "a@example.com");
    assert_eq!(account.ssh_key, "/home/u/.ssh/id_ed25519_acc1");
    assert_eq!(account.codebase_dir_path, "/home/u/Code/acc1");
    assert_eq!(file(&machine, "/home/u/Code/acc1/.gitconfig"), Some(LOCAL_BLOCK));
}

#[test]
fn provisioning_under_a_tilde_home_names_the_key_by_it() {
    let mut manager = GitAccountManager::new(String::from("~"));
    let mut machine = fresh_machine();
    provision(&mut manager, &mut machine, "acc1", "a@example.com", "/home/u/Code/acc1", "github.com-acc1").unwrap();
    assert!(file(&machine, "~/.ssh/id_ed25519_acc1").is_some());
    assert!(file(&machine, "~/.ssh/id_ed25519_acc1.pub").is_some());
    let ssh = file(&machine, "~/.ssh/config").unwrap();
    assert!(ssh.contains("Host github.com-acc1"));
    assert!(ssh.contains("IdentityFile ~/.ssh/id_ed25519_acc1"));
    assert!(file(&machine, "~/.gitconfig").unwrap().contains("/home/u/Code/acc1/.gitconfig"));
}

#[test]
fn failed_key_generation_stops_the_run() {
    let mut manager = GitAccountManager::new(String::from("/home/u"));
    let mut machine = fresh_machine();
    machine.keygen_exits_ok = false;
    let outcome = provision(&mut manager, &mut machine, "acc1", "a@example.com", "/home/u/Code/acc1", "github.com-acc1");
    assert_eq!(
        outcome,
        Err(ProvisionError::KeyGenerationError(String::from(
            "Failed to generate SSH key: , ssh-keygen failed"
        )))
    );
    assert_eq!(machine.commands.len(), 1);
    assert_eq!(machine.commands[0].program, "ssh-keygen");
    assert!(machine.files.is_empty());
    assert_eq!(machine.dirs, vec![String::from("/home/u/.ssh")]);
    assert!(manager.account("acc1").is_none());
}

#[test]
fn failed_agent_registration_stops_the_run_and_keeps_the_key() {
    let mut manager = GitAccountManager::new(String::from("/home/u"));
    let mut machine = fresh_machine();
    machine.agent_exits_ok = false;
    let outcome = provision(&mut manager, &mut machine, "acc1", "a@example.com", "/home/u/Code/acc1", "github.com-acc1");
    assert_eq!(
        outcome,
        Err(ProvisionError::AgentRegistrationError(String::from(
            "Failed to add SSH key to agent: , ssh-add failed"
        )))
    );
    assert_eq!(machine.commands.len(), 2);
    assert_eq!(file(&machine, "/home/u/.ssh/id_ed25519_acc1"), Some("PRIVATE"));
    assert_eq!(machine.files.len(), 2);
    assert!(manager.account("acc1").is_none());
}

#[test]
fn second_run_repeats_git_blocks_but_not_the_host_block() {
    let mut manager = GitAccountManager::new(String::from("/home/u"));
    let mut machine = fresh_machine();
    provision(&mut manager, &mut machine, "acc1", "a@example.com", "/home/u/Code/acc1", "github.com-acc1").unwrap();
    let ssh_after_first = String::from(file(&machine, "/home/u/.ssh/config").unwrap());
    let stages = provision(&mut manager, &mut machine, "acc1", "a@example.com", "/home/u/Code/acc1", "github.com-acc1").unwrap();
    assert_eq!(stages.last(), Some(&Stage::Done));
    assert!(!stages.contains(&Stage::SshConfigWrite));
    assert_eq!(file(&machine, "/home/u/.ssh/config"), Some(ssh_after_first.as_str()));
    assert_eq!(file(&machine, "/home/u/Code/acc1/.gitconfig"), Some(format!("{}{}", LOCAL_BLOCK, LOCAL_BLOCK).as_str()));
    assert_eq!(file(&machine, "/home/u/.gitconfig"), Some(format!("{}{}", GLOBAL_STANZA, GLOBAL_STANZA).as_str()));
}

#[test]
fn existing_files_keep_what_they_hold() {
    let mut manager = GitAccountManager::new(String::from("/home/u"));
    let mut machine = fresh_machine();
    machine.files.push((String::from("/home/u/.gitconfig"), String::from("[core]\n    editor = vi\n")));
    machine.files.push((String::from("/home/u/.ssh/config"), String::from("Host work\n    User me\n")));
    provision(&mut manager, &mut machine, "acc1", "a@example.com", "/home/u/Code/acc1", "github.com-acc1").unwrap();
    assert_eq!(
        file(&machine, "/home/u/.gitconfig"),
        Some(format!("[core]\n    editor = vi\n{}", GLOBAL_STANZA).as_str())
    );
    assert_eq!(
        file(&machine, "/home/u/.ssh/config"),
        Some(format!("Host work\n    User me\n{}", HOST_BLOCK).as_str())
    );
}

#[test]
fn two_accounts_share_one_home() {
    let mut manager = GitAccountManager::new(String::from("/home/u"));
    let mut machine = fresh_machine();
    provision(&mut manager, &mut machine, "acc1", "a@example.com", "/home/u/Code/acc1", "github.com-acc1").unwrap();
    provision(&mut manager, &mut machine, "acc2", "b@example.com", "Code/acc2", "github.com-acc2").unwrap();
    assert!(manager.account("acc1").is_some());
    assert_eq!(manager.account("acc2").unwrap().codebase_dir_path, "/home/u/Code/acc2");
    let ssh = file(&machine, "/home/u/.ssh/config").unwrap();
    assert_eq!(ssh.matches("\nHost ").count(), 2);
    assert!(ssh.contains("IdentityFile /home/u/.ssh/id_ed25519_acc2"));
    let global = file(&machine, "/home/u/.gitconfig").unwrap();
    assert!(global.contains("gitdir/i:/home/u/Code/acc1"));
    assert!(global.contains("gitdir/i:/home/u/Code/acc2"));
}

fn step(
    manager: &mut GitAccountManager,
    stage: Stage,
    event: Event,
) -> Result<(Stage, Action), ProvisionError> {
    manager.setup_account("acc1", "a@example.com", "Code/acc1", "github.com-acc1", stage, &event)
}

fn exited_ok() -> Event {
    Event::Exited { success: true, stdout: String::new(), stderr: String::new() }
}

#[test]
fn start_asks_for_the_key_directory_whatever_the_event() {
    let mut manager = GitAccountManager::new(String::from("/home/u"));
    let expected = Ok((Stage::KeyDirectory, Action::CreateDir(String::from("/home/u/.ssh"))));
    assert_eq!(step(&mut manager, Stage::Start, Event::Start), expected);
    assert_eq!(step(&mut manager, Stage::Start, Event::Completed), expected);
    assert_eq!(step(&mut manager, Stage::Start, Event::Failed(String::from("x"))), expected);
}

#[test]
fn key_directory_that_cannot_be_made_is_a_key_generation_error() {
    let mut manager = GitAccountManager::new(String::from("/home/u"));
    assert_eq!(
        step(&mut manager, Stage::KeyDirectory, Event::Failed(String::from("Permission denied"))),
        Err(ProvisionError::KeyGenerationError(String::from(
            "Failed to generate SSH key: Permission denied"
        )))
    );
}

#[test]
fn agent_registration_records_the_account_and_asks_for_the_directory() {
    let mut manager = GitAccountManager::new(String::from("/home/u"));
    assert_eq!(
        step(&mut manager, Stage::AgentRegistration, exited_ok()),
        Ok((Stage::CodebaseDirectory, Action::CreateDir(String::from("/home/u/Code/acc1"))))
    );
    let account = manager.account("acc1").unwrap();
    assert_eq!(account.ssh_key, "/home/u/.ssh/id_ed25519_acc1");
    assert_eq!(account.codebase_dir_path, "/home/u/Code/acc1");
}

#[test]
fn only_agent_registration_changes_the_registry() {
    let stages = [
        Stage::Start,
        Stage::KeyDirectory,
        Stage::KeyGeneration,
        Stage::CodebaseDirectory,
        Stage::LocalConfig,
        Stage::GlobalConfig,
        Stage::SshConfigRead,
        Stage::SshConfigWrite,
        Stage::Done,
    ];
    for stage in stages.iter() {
        for event in [Event::Start, Event::Completed, exited_ok(), Event::Contents(None)] {
            let mut manager = GitAccountManager::new(String::from("/home/u"));
            let _ = step(&mut manager, *stage, event);
            assert!(manager.account("acc1").is_none(), "{:?}", stage);
        }
    }
}

#[test]
fn config_stages_need_the_account_in_the_registry() {
    let missing = Err(ProvisionError::AccountNotFoundError(String::from("acc1")));
    let mut manager = GitAccountManager::new(String::from("/home/u"));
    assert_eq!(step(&mut manager, Stage::CodebaseDirectory, Event::Completed), missing);
    assert_eq!(step(&mut manager, Stage::LocalConfig, Event::Completed), missing);
    assert_eq!(step(&mut manager, Stage::SshConfigRead, Event::Contents(None)), missing);
    assert_eq!(
        step(&mut manager, Stage::SshConfigRead, Event::Contents(Some(String::from("Host github.com-acc1")))),
        missing
    );
}

#[test]
fn config_stages_fail_with_config_write_errors() {
    let mut manager = GitAccountManager::new(String::from("/home/u"));
    manager.add_account("acc1", "a@example.com", "/k", String::from("/d"));
    let denied = || Event::Failed(String::from("Permission denied"));
    let written = Err(ProvisionError::ConfigWriteError(String::from(
        "Failed to write configuration: Permission denied",
    )));
    assert_eq!(step(&mut manager, Stage::CodebaseDirectory, denied()), written);
    assert_eq!(step(&mut manager, Stage::LocalConfig, denied()), written);
    assert_eq!(step(&mut manager, Stage::GlobalConfig, denied()), written);
    assert_eq!(step(&mut manager, Stage::SshConfigWrite, denied()), written);
    assert_eq!(
        step(&mut manager, Stage::SshConfigRead, denied()),
        Err(ProvisionError::ConfigWriteError(String::from(
            "Failed to read configuration: Permission denied"
        )))
    );
}

#[test]
fn config_stages_write_what_the_registry_holds() {
    let mut manager = GitAccountManager::new(String::from("/home/u"));
    manager.add_account("acc1", "other@example.com", "/keys/k1", String::from("/srv/code"));
    assert_eq!(
        step(&mut manager, Stage::CodebaseDirectory, Event::Completed),
        Ok((
            Stage::LocalConfig,
            Action::AppendFile(FileAppend {
                path: String::from("/srv/code/.gitconfig"),
                content: String::from(
                    "[url \"git@github.com-acc1:\"]\n    insteadOf = git@github.com:\n[user]\n name = acc1\n email = other@example.com\n"
                ),
            })
        ))
    );
    assert_eq!(
        step(&mut manager, Stage::LocalConfig, Event::Completed),
        Ok((
            Stage::GlobalConfig,
            Action::AppendFile(FileAppend {
                path: String::from("/home/u/.gitconfig"),
                content: String::from("[includeIf \"gitdir/i:/srv/code\"]\n    path = /srv/code/.gitconfig\n\n"),
            })
        ))
    );
    assert_eq!(
        step(&mut manager, Stage::GlobalConfig, Event::Completed),
        Ok((Stage::SshConfigRead, Action::ReadFile(String::from("/home/u/.ssh/config"))))
    );
    assert_eq!(
        step(&mut manager, Stage::SshConfigRead, Event::Contents(None)),
        Ok((
            Stage::SshConfigWrite,
            Action::AppendFile(FileAppend {
                path: String::from("/home/u/.ssh/config"),
                content: String::from(
                    "\nHost github.com-acc1\n    HostName github.com\n    User git\n    AddKeysToAgent yes\n    UseKeychain yes\n    IdentityFile /keys/k1\n"
                ),
            })
        ))
    );
    assert_eq!(
        step(&mut manager, Stage::SshConfigRead, Event::Contents(Some(String::from("Host github.com-acc1\n")))),
        Ok((Stage::Done, Action::Finish))
    );
    assert_eq!(step(&mut manager, Stage::SshConfigWrite, Event::Completed), Ok((Stage::Done, Action::Finish)));
}

#[test]
fn done_stays_done() {
    let mut manager = GitAccountManager::new(String::from("/home/u"));
    assert_eq!(step(&mut manager, Stage::Done, Event::Completed), Ok((Stage::Done, Action::Finish)));
    assert_eq!(step(&mut manager, Stage::Done, Event::Failed(String::from("x"))), Ok((Stage::Done, Action::Finish)));
}
