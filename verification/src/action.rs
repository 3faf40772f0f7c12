//! What a provisioning run asks of the machine, and what the machine
//! answers.

use crate::text::{lemma_bytes_of_concat, lemma_bytes_of_nonempty};
use vstd::prelude::*;
use vstd::utf8::encode_utf8;

verus! {

/// A utility to run, with its arguments in order.
#[derive(Debug, PartialEq, Eq)]
pub struct Command {
    pub program: String,
    pub args: Vec<String>,
}

/// A `Command` as a mathematical value.
pub struct CommandView {
    pub program: Seq<char>,
    pub args: Seq<Seq<char>>,
}

impl View for Command {
    type V = CommandView;

    open spec fn view(&self) -> CommandView {
        CommandView { program: self.program@, args: self.args.deep_view() }
    }
}

/// Text to add at the end of a file. A file that does not exist yet is
/// made; what a file holds already stays as it is.
#[derive(Debug, PartialEq, Eq)]
pub struct FileAppend {
    pub path: String,
    pub content: String,
}

/// A `FileAppend` as a mathematical value.
pub struct FileAppendView {
    pub path: Seq<char>,
    pub content: Seq<char>,
}

impl View for FileAppend {
    type V = FileAppendView;

    open spec fn view(&self) -> FileAppendView {
        FileAppendView { path: self.path@, content: self.content@ }
    }
}

impl FileAppendView {
    /// What the file holds once the text has been added, if it held
    /// `existing` before.
    pub open spec fn applied_to(self, existing: Seq<char>) -> Seq<char> {
        existing + self.content
    }
}

/// What comes of adding text to a file that held `existing`: the file is
/// longer than it was, and it begins with what it held, both as characters
/// and as the bytes on disk.
pub open spec fn spec_only_added_to(existing: Seq<char>, after: Seq<char>) -> bool {
    &&& after.len() > existing.len()
    &&& after.subrange(0, existing.len() as int) == existing
    &&& encode_utf8(after).len() > encode_utf8(existing).len()
    &&& encode_utf8(after).subrange(0, encode_utf8(existing).len() as int) == encode_utf8(
        existing,
    )
}

/// Adding text that is not empty to a file only adds to it.
pub proof fn lemma_append_only_adds(append: FileAppendView, existing: Seq<char>)
    requires
        append.content.len() > 0,
    ensures
        spec_only_added_to(existing, append.applied_to(existing)),
{
    let after = append.applied_to(existing);
    assert(after.subrange(0, existing.len() as int) =~= existing);
    lemma_bytes_of_concat(existing, append.content);
    lemma_bytes_of_nonempty(append.content);
    assert(encode_utf8(after).subrange(0, encode_utf8(existing).len() as int) =~= encode_utf8(
        existing,
    ));
}

/// The next thing to do on the machine.
#[derive(Debug, PartialEq, Eq)]
pub enum Action {
    /// Make the directory, and those above it that are missing.
    CreateDir(String),
    /// Run the utility to its end and capture what it prints.
    Run(Command),
    /// Read the file, if there is one.
    ReadFile(String),
    /// Add the text at the end of the file.
    AppendFile(FileAppend),
    /// Nothing is left to do: the account is provisioned.
    Finish,
}

/// An `Action` as a mathematical value.
pub enum ActionView {
    CreateDir(Seq<char>),
    Run(CommandView),
    ReadFile(Seq<char>),
    AppendFile(FileAppendView),
    Finish,
}

impl View for Action {
    type V = ActionView;

    open spec fn view(&self) -> ActionView {
        match self {
            Action::CreateDir(path) => ActionView::CreateDir(path@),
            Action::Run(command) => ActionView::Run(command@),
            Action::ReadFile(path) => ActionView::ReadFile(path@),
            Action::AppendFile(append) => ActionView::AppendFile(append@),
            Action::Finish => ActionView::Finish,
        }
    }
}

/// What came of the last action.
#[derive(Debug, PartialEq, Eq)]
pub enum Event {
    /// Nothing has been asked for yet.
    Start,
    /// The directory is there, or the text was added.
    Completed,
    /// The utility ran to its end.
    Exited { success: bool, stdout: String, stderr: String },
    /// The file was read; `None` where there is no such file.
    Contents(Option<String>),
    /// The action could not be carried out; holds the system's words for it.
    Failed(String),
}

/// An `Event` as a mathematical value.
pub enum EventView {
    Start,
    Completed,
    Exited { success: bool, stdout: Seq<char>, stderr: Seq<char> },
    Contents(Option<Seq<char>>),
    Failed(Seq<char>),
}

impl View for Event {
    type V = EventView;

    open spec fn view(&self) -> EventView {
        match self {
            Event::Start => EventView::Start,
            Event::Completed => EventView::Completed,
            Event::Exited { success, stdout, stderr } => EventView::Exited {
                success: *success,
                stdout: stdout@,
                stderr: stderr@,
            },
            Event::Contents(Some(text)) => EventView::Contents(Some(text@)),
            Event::Contents(None) => EventView::Contents(None),
            Event::Failed(reason) => EventView::Failed(reason@),
        }
    }
}

impl EventView {
    /// The utility exited with success.
    pub open spec fn exited_with_success(self) -> bool {
        self matches EventView::Exited { success, .. } && success
    }

    /// What the machine said of the action: the standard output and the
    /// standard error of a utility, in that order with `, ` between them;
    /// the system's words for an action that could not be carried out; and
    /// nothing otherwise.
    pub open spec fn diagnostic(self) -> Seq<char> {
        match self {
            EventView::Exited { stdout, stderr, .. } => stdout + ", "@ + stderr,
            EventView::Failed(reason) => reason,
            _ => Seq::empty(),
        }
    }
}

impl Event {
    /// What the machine said of the action, unchanged.
    pub fn diagnostic(&self) -> (text: String)
        ensures
            text@ == self@.diagnostic(),
    {
        match self {
            Event::Exited { stdout, stderr, .. } => {
                let mut text = stdout.clone();
                text.append(", ");
                text.append(stderr.as_str());
                text
            },
            Event::Failed(reason) => reason.clone(),
            _ => String::new(),
        }
    }
}

/// How far a provisioning run has come: the stage names the action whose
/// outcome the run waits for.
#[derive(Clone, Copy, Debug, PartialEq, Eq, Structural)]
pub enum Stage {
    /// Nothing has been asked for yet.
    Start,
    /// The key directory is being made.
    KeyDirectory,
    /// The key generator is running.
    KeyGeneration,
    /// The key is being handed to the agent.
    AgentRegistration,
    /// The codebase directory is being made.
    CodebaseDirectory,
    /// The codebase's own Git configuration is being written.
    LocalConfig,
    /// The user's own Git configuration is being written.
    GlobalConfig,
    /// The SSH client's configuration is being read.
    SshConfigRead,
    /// The SSH client's configuration is being written.
    SshConfigWrite,
    /// The account is provisioned.
    Done,
}

} // verus!
