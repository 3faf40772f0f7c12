//! Provisioning an account, one step after another.
//!
//! A run goes through a fixed line of stages. At each, the library names the
//! next action; the caller carries it out and reports the event that came of
//! it. The first failure ends the run: nothing later is asked for, and what
//! was written before stays on disk.

use crate::account::{GitAccountManager, GitAccountManagerView, GitAccountView};
use crate::action::{Action, ActionView, Event, EventView, FileAppendView, Stage};
use crate::config::{spec_host_block, spec_host_configured};
use crate::error::{ProvisionError, ProvisionErrorView};
use crate::paths::{
    join, key_file, spec_join, spec_key_file, spec_local_gitconfig, spec_ssh_config, spec_ssh_dir,
    ssh_config, ssh_dir,
};
use crate::steps::{
    config_read_error, config_written, key_directory_made, spec_add_ssh_agent,
    spec_agent_command, spec_associate_account_with_dir, spec_config_read_error,
    spec_config_written, spec_generate_ssh_key, spec_key_directory_made,
    spec_key_generation_error, spec_keygen_command, spec_setup_global_gitconfig,
    spec_setup_local_gitconfig, spec_setup_ssh_config,
};
use vstd::prelude::*;

verus! {

/// The account that a run records once its key is made and registered. A
/// codebase directory that is not absolute is taken from the home
/// directory.
pub open spec fn spec_provisioned_account(
    home: Seq<char>,
    name: Seq<char>,
    email: Seq<char>,
    codebase_dir: Seq<char>,
) -> GitAccountView {
    GitAccountView {
        name,
        email,
        ssh_key: spec_key_file(home, name),
        codebase_dir_path: spec_join(home, codebase_dir),
    }
}

/// What a file holds by the event of reading it: nothing where there is no
/// file.
pub open spec fn spec_contents(text: Option<Seq<char>>) -> Seq<char> {
    match text {
        Some(t) => t,
        None => Seq::empty(),
    }
}

/// The registry after one step of a run. Only the step that follows the
/// key's registration with the agent records the account.
pub open spec fn spec_registry_after(
    manager: GitAccountManagerView,
    name: Seq<char>,
    email: Seq<char>,
    codebase_dir: Seq<char>,
    stage: Stage,
    event: EventView,
) -> GitAccountManagerView {
    if stage == Stage::AgentRegistration && event.exited_with_success() {
        GitAccountManagerView {
            accounts: manager.accounts.insert(
                name,
                spec_provisioned_account(manager.home_dir, name, email, codebase_dir),
            ),
            home_dir: manager.home_dir,
        }
    } else {
        manager
    }
}

/// One step of a run: the stage that follows `stage` with the action to
/// carry out next, or the error that ends the run.
pub open spec fn spec_setup_account(
    manager: GitAccountManagerView,
    name: Seq<char>,
    email: Seq<char>,
    codebase_dir: Seq<char>,
    host: Seq<char>,
    stage: Stage,
    event: EventView,
) -> Result<(Stage, ActionView), ProvisionErrorView> {
    let home = manager.home_dir;
    match stage {
        Stage::Start => Ok((Stage::KeyDirectory, ActionView::CreateDir(spec_ssh_dir(home)))),
        Stage::KeyDirectory => match spec_key_directory_made(event) {
            Ok(()) => Ok(
                (Stage::KeyGeneration, ActionView::Run(spec_keygen_command(home, name, email))),
            ),
            Err(e) => Err(e),
        },
        Stage::KeyGeneration => match spec_generate_ssh_key(home, name, event) {
            Ok(key) => Ok((Stage::AgentRegistration, ActionView::Run(spec_agent_command(key)))),
            Err(e) => Err(e),
        },
        Stage::AgentRegistration => match spec_add_ssh_agent(event) {
            Ok(()) => Ok(
                (
                    Stage::CodebaseDirectory,
                    ActionView::CreateDir(
                        spec_provisioned_account(home, name, email, codebase_dir).codebase_dir_path,
                    ),
                ),
            ),
            Err(e) => Err(e),
        },
        Stage::CodebaseDirectory => match spec_config_written(event) {
            Ok(()) => match spec_associate_account_with_dir(manager, name) {
                Ok(binding) => Ok((Stage::LocalConfig, ActionView::AppendFile(binding.local))),
                Err(e) => Err(e),
            },
            Err(e) => Err(e),
        },
        Stage::LocalConfig => match spec_config_written(event) {
            Ok(()) => match spec_associate_account_with_dir(manager, name) {
                Ok(binding) => Ok((Stage::GlobalConfig, ActionView::AppendFile(binding.global))),
                Err(e) => Err(e),
            },
            Err(e) => Err(e),
        },
        Stage::GlobalConfig => match spec_config_written(event) {
            Ok(()) => Ok((Stage::SshConfigRead, ActionView::ReadFile(spec_ssh_config(home)))),
            Err(e) => Err(e),
        },
        Stage::SshConfigRead => match event {
            EventView::Contents(text) => match spec_setup_ssh_config(
                manager,
                name,
                host,
                spec_contents(text),
            ) {
                Ok(Some(append)) => Ok((Stage::SshConfigWrite, ActionView::AppendFile(append))),
                Ok(None) => Ok((Stage::Done, ActionView::Finish)),
                Err(e) => Err(e),
            },
            _ => Err(spec_config_read_error(event)),
        },
        Stage::SshConfigWrite => match spec_config_written(event) {
            Ok(()) => Ok((Stage::Done, ActionView::Finish)),
            Err(e) => Err(e),
        },
        Stage::Done => Ok((Stage::Done, ActionView::Finish)),
    }
}

/// The outcome of a step as a mathematical value.
pub open spec fn spec_step_view(
    step: Result<(Stage, Action), ProvisionError>,
) -> Result<(Stage, ActionView), ProvisionErrorView> {
    match step {
        Ok((stage, action)) => Ok((stage, action@)),
        Err(e) => Err(e@),
    }
}

/// The stage that follows `stage` in a run where every action is carried
/// out.
pub open spec fn spec_following(stage: Stage) -> Stage {
    match stage {
        Stage::Start => Stage::KeyDirectory,
        Stage::KeyDirectory => Stage::KeyGeneration,
        Stage::KeyGeneration => Stage::AgentRegistration,
        Stage::AgentRegistration => Stage::CodebaseDirectory,
        Stage::CodebaseDirectory => Stage::LocalConfig,
        Stage::LocalConfig => Stage::GlobalConfig,
        Stage::GlobalConfig => Stage::SshConfigRead,
        Stage::SshConfigRead => Stage::SshConfigWrite,
        Stage::SshConfigWrite => Stage::Done,
        Stage::Done => Stage::Done,
    }
}

impl GitAccountManager {
    /// Takes a provisioning run one step further. The run is for the
    /// account `name` with `email`, the codebase directory `codebase_dir`
    /// (taken from the home directory unless it is absolute) and the host
    /// alias `host`; `stage` says how far it has come, and `event` what came
    /// of the action that the step before asked for. A run begins at
    /// `Stage::Start`, where the event is not read.
    ///
    /// Returns the stage that the run is in now and the action to carry out
    /// next, or the error that ends the run. A step fails if its event is
    /// not the success of the action it waits for, or if a step that writes
    /// configuration finds no account under `name`. The registry changes in
    /// one step only: the account is recorded once the agent has taken the
    /// key.
    pub fn setup_account(
        &mut self,
        name: &str,
        email: &str,
        codebase_dir: &str,
        host: &str,
        stage: Stage,
        event: &Event,
    ) -> (step: Result<(Stage, Action), ProvisionError>)
        ensures
            spec_step_view(step) == spec_setup_account(
                old(self)@,
                name@,
                email@,
                codebase_dir@,
                host@,
                stage,
                event@,
            ),
            final(self)@ == spec_registry_after(
                old(self)@,
                name@,
                email@,
                codebase_dir@,
                stage,
                event@,
            ),
    {
        match stage {
            Stage::Start => Ok((Stage::KeyDirectory, Action::CreateDir(ssh_dir(self.home_dir())))),
            Stage::KeyDirectory => match key_directory_made(event) {
                Ok(()) => Ok((Stage::KeyGeneration, Action::Run(self.keygen_command(name, email)))),
                Err(e) => Err(e),
            },
            Stage::KeyGeneration => match self.generate_ssh_key(name, event) {
                Ok(key) => Ok(
                    (Stage::AgentRegistration, Action::Run(self.agent_command(key.as_str()))),
                ),
                Err(e) => Err(e),
            },
            Stage::AgentRegistration => match self.add_ssh_agent(event) {
                Ok(()) => {
                    let key = key_file(self.home_dir(), name);
                    let directory = join(self.home_dir(), codebase_dir);
                    self.add_account(name, email, key.as_str(), directory.clone());
                    Ok((Stage::CodebaseDirectory, Action::CreateDir(directory)))
                },
                Err(e) => Err(e),
            },
            Stage::CodebaseDirectory => match config_written(event) {
                Ok(()) => match self.associate_account_with_dir(name) {
                    Ok(binding) => Ok((Stage::LocalConfig, Action::AppendFile(binding.local))),
                    Err(e) => Err(e),
                },
                Err(e) => Err(e),
            },
            Stage::LocalConfig => match config_written(event) {
                Ok(()) => match self.associate_account_with_dir(name) {
                    Ok(binding) => Ok((Stage::GlobalConfig, Action::AppendFile(binding.global))),
                    Err(e) => Err(e),
                },
                Err(e) => Err(e),
            },
            Stage::GlobalConfig => match config_written(event) {
                Ok(()) => Ok((Stage::SshConfigRead, Action::ReadFile(ssh_config(self.home_dir())))),
                Err(e) => Err(e),
            },
            Stage::SshConfigRead => match event {
                Event::Contents(text) => {
                    let existing: &str = match text {
                        Some(t) => t.as_str(),
                        None => "",
                    };
                    proof {
                        reveal_strlit("");
                        assert(existing@ =~= spec_contents(event@->Contents_0));
                    }
                    match self.setup_ssh_config(name, host, existing) {
                        Ok(Some(append)) => Ok((Stage::SshConfigWrite, Action::AppendFile(append))),
                        Ok(None) => Ok((Stage::Done, Action::Finish)),
                        Err(e) => Err(e),
                    }
                },
                _ => Err(config_read_error(event)),
            },
            Stage::SshConfigWrite => match config_written(event) {
                Ok(()) => Ok((Stage::Done, Action::Finish)),
                Err(e) => Err(e),
            },
            Stage::Done => Ok((Stage::Done, Action::Finish)),
        }
    }
}

/// Where a run stands after some events: the registry, the stage, the
/// actions that were asked for in order, and the error if a step failed.
pub struct RunView {
    pub manager: GitAccountManagerView,
    pub stage: Stage,
    pub actions: Seq<ActionView>,
    pub failure: Option<ProvisionErrorView>,
}

/// A run from `stage` on, fed the events `events` one after another. The
/// first step that fails ends it: the events after that one are not read,
/// and nothing more is asked for.
pub open spec fn spec_run(
    manager: GitAccountManagerView,
    name: Seq<char>,
    email: Seq<char>,
    codebase_dir: Seq<char>,
    host: Seq<char>,
    stage: Stage,
    events: Seq<EventView>,
) -> RunView
    decreases events.len(),
{
    if events.len() == 0 {
        RunView { manager, stage, actions: Seq::empty(), failure: None }
    } else {
        match spec_setup_account(manager, name, email, codebase_dir, host, stage, events[0]) {
            Err(e) => RunView { manager, stage, actions: Seq::empty(), failure: Some(e) },
            Ok((next, action)) => {
                let rest = spec_run(
                    spec_registry_after(manager, name, email, codebase_dir, stage, events[0]),
                    name,
                    email,
                    codebase_dir,
                    host,
                    next,
                    events.drop_first(),
                );
                RunView {
                    manager: rest.manager,
                    stage: rest.stage,
                    actions: seq![action] + rest.actions,
                    failure: rest.failure,
                }
            },
        }
    }
}

/// A key generator that does not exit with success ends the run with a
/// `KeyGenerationError` that holds what the utility printed. The step asks
/// for nothing more, so the key is not handed to the agent and no
/// configuration is written, and the registry stays as it was.
pub proof fn lemma_failed_key_generation_ends_run(
    manager: GitAccountManagerView,
    name: Seq<char>,
    email: Seq<char>,
    codebase_dir: Seq<char>,
    host: Seq<char>,
    event: EventView,
)
    requires
        !event.exited_with_success(),
    ensures
        spec_setup_account(manager, name, email, codebase_dir, host, Stage::KeyGeneration, event)
            == Err::<(Stage, ActionView), ProvisionErrorView>(spec_key_generation_error(event)),
        spec_key_generation_error(event) is KeyGenerationError,
        spec_registry_after(manager, name, email, codebase_dir, Stage::KeyGeneration, event)
            == manager,
{
}

/// A step that fails leaves the registry as it was, at every stage.
pub proof fn lemma_failure_leaves_registry(
    manager: GitAccountManagerView,
    name: Seq<char>,
    email: Seq<char>,
    codebase_dir: Seq<char>,
    host: Seq<char>,
    stage: Stage,
    event: EventView,
)
    requires
        spec_setup_account(manager, name, email, codebase_dir, host, stage, event) is Err,
    ensures
        spec_registry_after(manager, name, email, codebase_dir, stage, event) == manager,
{
}

/// A run keeps to one order: a step that succeeds leads to the stage that
/// follows, but for the one that skips the writing of the SSH client's
/// configuration because the file names the host already.
pub proof fn lemma_stages_in_order(
    manager: GitAccountManagerView,
    name: Seq<char>,
    email: Seq<char>,
    codebase_dir: Seq<char>,
    host: Seq<char>,
    stage: Stage,
    event: EventView,
)
    requires
        spec_setup_account(manager, name, email, codebase_dir, host, stage, event) is Ok,
    ensures
        ({
            let next = spec_setup_account(
                manager,
                name,
                email,
                codebase_dir,
                host,
                stage,
                event,
            )->Ok_0.0;
            ||| next == spec_following(stage)
            ||| {
                &&& stage == Stage::SshConfigRead
                &&& next == Stage::Done
                &&& event matches EventView::Contents(text)
                &&& spec_host_configured(spec_contents(text), host)
            }
        }),
{
}

/// The events tell that every action up to the reading of the SSH client's
/// configuration was carried out. The first event is not read.
pub open spec fn spec_carried_out(events: Seq<EventView>) -> bool {
    &&& events.len() >= 8
    &&& events[1] is Completed
    &&& events[2].exited_with_success()
    &&& events[3].exited_with_success()
    &&& events[4] is Completed
    &&& events[5] is Completed
    &&& events[6] is Completed
    &&& events[7] is Contents
}

/// What a run asks for up to the reading of the SSH client's
/// configuration, in order: the key directory, the key, its registration
/// with the agent, the codebase directory, the block in the codebase's Git
/// configuration, the stanza in the user's own, and the reading.
pub open spec fn spec_actions_up_to_reading(
    home: Seq<char>,
    name: Seq<char>,
    email: Seq<char>,
    codebase_dir: Seq<char>,
) -> Seq<ActionView> {
    let account = spec_provisioned_account(home, name, email, codebase_dir);
    seq![
        ActionView::CreateDir(spec_ssh_dir(home)),
        ActionView::Run(spec_keygen_command(home, name, email)),
        ActionView::Run(spec_agent_command(account.ssh_key)),
        ActionView::CreateDir(account.codebase_dir_path),
        ActionView::AppendFile(spec_setup_local_gitconfig(account)),
        ActionView::AppendFile(
            spec_setup_global_gitconfig(
                home,
                account.codebase_dir_path,
                spec_local_gitconfig(account.codebase_dir_path),
            ),
        ),
        ActionView::ReadFile(spec_ssh_config(home)),
    ]
}

/// A run in which every action is carried out keeps to one order and
/// records the account. Up to the reading of the SSH client's configuration
/// it asks for the same actions on every machine. Where that file names the
/// host already, the run is finished and the file is not written; otherwise
/// the run asks for the block of the host to be added, and is finished once
/// that is done.
pub proof fn lemma_run_of_success(
    manager: GitAccountManagerView,
    name: Seq<char>,
    email: Seq<char>,
    codebase_dir: Seq<char>,
    host: Seq<char>,
    events: Seq<EventView>,
)
    requires
        spec_carried_out(events),
        if spec_host_configured(spec_contents(events[7]->Contents_0), host) {
            events.len() == 8
        } else {
            events.len() == 9 && events[8] is Completed
        },
    ensures
        ({
            let home = manager.home_dir;
            let account = spec_provisioned_account(home, name, email, codebase_dir);
            let run = spec_run(manager, name, email, codebase_dir, host, Stage::Start, events);
            &&& run.failure is None
            &&& run.stage == Stage::Done
            &&& run.manager.home_dir == home
            &&& run.manager.accounts == manager.accounts.insert(name, account)
            &&& run.actions == spec_actions_up_to_reading(home, name, email, codebase_dir) + (
            if spec_host_configured(spec_contents(events[7]->Contents_0), host) {
                seq![ActionView::Finish]
            } else {
                seq![
                    ActionView::AppendFile(
                        FileAppendView {
                            path: spec_ssh_config(home),
                            content: spec_host_block(host, account.ssh_key),
                        },
                    ),
                    ActionView::Finish,
                ]
            })
        }),
{
    let home = manager.home_dir;
    let account = spec_provisioned_account(home, name, email, codebase_dir);
    let after = GitAccountManagerView {
        accounts: manager.accounts.insert(name, account),
        home_dir: home,
    };
    let configured = spec_host_configured(spec_contents(events[7]->Contents_0), host);
    let e0 = events;
    let e1 = e0.drop_first();
    let e2 = e1.drop_first();
    let e3 = e2.drop_first();
    let e4 = e3.drop_first();
    let e5 = e4.drop_first();
    let e6 = e5.drop_first();
    let e7 = e6.drop_first();
    let e8 = e7.drop_first();
    let r7 = spec_run(after, name, email, codebase_dir, host, Stage::SshConfigRead, e7);
    let tail = if configured {
        seq![ActionView::Finish]
    } else {
        seq![
            ActionView::AppendFile(
                FileAppendView {
                    path: spec_ssh_config(home),
                    content: spec_host_block(host, account.ssh_key),
                },
            ),
            ActionView::Finish,
        ]
    };
    if configured {
        assert(e8.len() == 0);
        let r8 = spec_run(after, name, email, codebase_dir, host, Stage::Done, e8);
        assert(r7.actions =~= seq![ActionView::Finish] + r8.actions);
    } else {
        let e9 = e8.drop_first();
        assert(e9.len() == 0);
        let r9 = spec_run(after, name, email, codebase_dir, host, Stage::Done, e9);
        let r8 = spec_run(after, name, email, codebase_dir, host, Stage::SshConfigWrite, e8);
        assert(r8.actions =~= seq![ActionView::Finish] + r9.actions);
        assert(r7.actions =~= seq![
            ActionView::AppendFile(
                FileAppendView {
                    path: spec_ssh_config(home),
                    content: spec_host_block(host, account.ssh_key),
                },
            ),
        ] + r8.actions);
    }
    assert(r7.actions =~= tail);
    assert(r7.stage == Stage::Done && r7.failure is None && r7.manager == after);
    let r6 = spec_run(after, name, email, codebase_dir, host, Stage::GlobalConfig, e6);
    assert(r6.actions =~= seq![ActionView::ReadFile(spec_ssh_config(home))] + r7.actions);
    let r5 = spec_run(after, name, email, codebase_dir, host, Stage::LocalConfig, e5);
    assert(r5.actions =~= seq![
        ActionView::AppendFile(
            spec_setup_global_gitconfig(
                home,
                account.codebase_dir_path,
                spec_local_gitconfig(account.codebase_dir_path),
            ),
        ),
    ] + r6.actions);
    let r4 = spec_run(after, name, email, codebase_dir, host, Stage::CodebaseDirectory, e4);
    assert(r4.actions =~= seq![ActionView::AppendFile(spec_setup_local_gitconfig(account))]
        + r5.actions);
    let r3 = spec_run(manager, name, email, codebase_dir, host, Stage::AgentRegistration, e3);
    assert(spec_registry_after(manager, name, email, codebase_dir, Stage::AgentRegistration, e3[0])
        == after);
    assert(r3.actions =~= seq![ActionView::CreateDir(account.codebase_dir_path)] + r4.actions);
    let r2 = spec_run(manager, name, email, codebase_dir, host, Stage::KeyGeneration, e2);
    assert(r2.actions =~= seq![ActionView::Run(spec_agent_command(account.ssh_key))] + r3.actions);
    let r1 = spec_run(manager, name, email, codebase_dir, host, Stage::KeyDirectory, e1);
    assert(r1.actions =~= seq![ActionView::Run(spec_keygen_command(home, name, email))]
        + r2.actions);
    let r0 = spec_run(manager, name, email, codebase_dir, host, Stage::Start, e0);
    assert(r0.actions =~= seq![ActionView::CreateDir(spec_ssh_dir(home))] + r1.actions);
    assert(r0.actions =~= spec_actions_up_to_reading(home, name, email, codebase_dir) + tail);
}

/// Once the key generator has not exited with success, a run asks for
/// nothing more, whatever events are fed to it afterwards: the key
/// directory and the key generator's run are all that it has asked for, the
/// key is not handed to the agent, no configuration is read or written, and
/// the registry stays as it was.
pub proof fn lemma_run_ends_at_failed_key_generation(
    manager: GitAccountManagerView,
    name: Seq<char>,
    email: Seq<char>,
    codebase_dir: Seq<char>,
    host: Seq<char>,
    first: EventView,
    failed: EventView,
    later: Seq<EventView>,
)
    requires
        !failed.exited_with_success(),
    ensures
        ({
            let run = spec_run(
                manager,
                name,
                email,
                codebase_dir,
                host,
                Stage::Start,
                seq![first, EventView::Completed, failed] + later,
            );
            &&& run.failure == Some(spec_key_generation_error(failed))
            &&& run.stage == Stage::KeyGeneration
            &&& run.manager == manager
            &&& run.actions == seq![
                ActionView::CreateDir(spec_ssh_dir(manager.home_dir)),
                ActionView::Run(spec_keygen_command(manager.home_dir, name, email)),
            ]
        }),
{
    let e0 = seq![first, EventView::Completed, failed] + later;
    let e1 = e0.drop_first();
    let e2 = e1.drop_first();
    assert(e2[0] == failed);
    let r2 = spec_run(manager, name, email, codebase_dir, host, Stage::KeyGeneration, e2);
    assert(r2.actions =~= Seq::<ActionView>::empty());
    let r1 = spec_run(manager, name, email, codebase_dir, host, Stage::KeyDirectory, e1);
    assert(r1.actions =~= seq![
        ActionView::Run(spec_keygen_command(manager.home_dir, name, email)),
    ] + r2.actions);
    let r0 = spec_run(manager, name, email, codebase_dir, host, Stage::Start, e0);
    assert(r0.actions =~= seq![ActionView::CreateDir(spec_ssh_dir(manager.home_dir))]
        + r1.actions);
}

} // verus!
