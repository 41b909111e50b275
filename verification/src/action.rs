//! What a session can ask for.

use crate::command::{Attribute, SequenceItem};
use crate::message::{Flag, FlagSet, StoreMode};
use crate::text::{texts, Text};
use vstd::prelude::*;

verus! {

/// A change on disk.
#[derive(Debug, PartialEq, Eq)]
pub enum DiskChange {
    /// Make the directory, and those above it that are missing, with this
    /// mode.
    MakeDir { path: String, mode: u32 },
    /// Remove the file.
    Unlink(String),
    /// Remove the empty directory.
    RemoveDir(String),
}

/// A [`DiskChange`], as the contracts see it.
pub enum DiskChangeView {
    MakeDir { path: Text, mode: u32 },
    Unlink(Text),
    RemoveDir(Text),
}

impl View for DiskChange {
    type V = DiskChangeView;

    open spec fn view(&self) -> DiskChangeView {
        match self {
            DiskChange::MakeDir { path, mode } => DiskChangeView::MakeDir { path: path@, mode: *mode },
            DiskChange::Unlink(path) => DiskChangeView::Unlink(path@),
            DiskChange::RemoveDir(path) => DiskChangeView::RemoveDir(path@),
        }
    }
}

/// The next thing to be done for a session.
#[derive(Debug, PartialEq, Eq)]
pub enum Action {
    /// Write the text to the client and flush.
    Send(String),
    /// Read a line from the client.
    ReadLine,
    /// End the connection.
    Close,
    /// Look the user up and check the password.
    Login { email: String, password: String },
    /// Open the folder at the path, under the name.
    OpenFolder { name: String, path: String, examine: bool },
    /// Read the directory.
    ReadDirectory(String),
    /// Make the change on disk.
    Change(DiskChange),
    /// Look at the mail directory and everything below it.
    Survey(String),
    /// Remove the messages of the folder that are marked as deleted.
    Expunge,
    /// Bring the folder up to date with the disk.
    Synchronize,
    /// Parse the `FETCH` command.
    ParseFetch(String),
    /// Count the messages of the folder.
    CountMessages,
    /// List the numbers of the set: as sequence numbers of a folder of so many
    /// messages, or without a bound.
    Expand { items: Vec<SequenceItem>, bound: Option<usize> },
    /// Store the flags of the messages, which go by UID or sequence number.
    Store { sequence: Vec<usize>, mode: StoreMode, silent: bool, flags: FlagSet, uid: bool },
    /// Fetch the attributes of the message at the index.
    FetchMessage { index: usize, attributes: Vec<Attribute> },
    /// Find the index of the message with the UID.
    FindIndex(usize),
    /// Find the UID of the message at the index.
    FindUid(usize),
    /// Parse the sequence set, the name of the data item and the words for
    /// flags of a `STORE`.
    ParseStore { sequence_set: String, name: String, words: Vec<String> },
}

/// An [`Action`], as the contracts see it.
pub enum ActionView {
    Send(Text),
    ReadLine,
    Close,
    Login { email: Text, password: Text },
    OpenFolder { name: Text, path: Text, examine: bool },
    ReadDirectory(Text),
    Change(DiskChangeView),
    Survey(Text),
    Expunge,
    Synchronize,
    ParseFetch(Text),
    CountMessages,
    Expand { items: Seq<SequenceItem>, bound: Option<usize> },
    Store { sequence: Seq<usize>, mode: StoreMode, silent: bool, flags: Set<Flag>, uid: bool },
    FetchMessage { index: usize, attributes: Seq<Attribute> },
    FindIndex(usize),
    FindUid(usize),
    ParseStore { sequence_set: Text, name: Text, words: Seq<Text> },
}

impl View for Action {
    type V = ActionView;

    open spec fn view(&self) -> ActionView {
        match self {
            Action::Send(text) => ActionView::Send(text@),
            Action::ReadLine => ActionView::ReadLine,
            Action::Close => ActionView::Close,
            Action::Login { email, password } => ActionView::Login {
                email: email@,
                password: password@,
            },
            Action::OpenFolder { name, path, examine } => ActionView::OpenFolder {
                name: name@,
                path: path@,
                examine: *examine,
            },
            Action::ReadDirectory(path) => ActionView::ReadDirectory(path@),
            Action::Change(change) => ActionView::Change(change@),
            Action::Survey(path) => ActionView::Survey(path@),
            Action::Expunge => ActionView::Expunge,
            Action::Synchronize => ActionView::Synchronize,
            Action::ParseFetch(text) => ActionView::ParseFetch(text@),
            Action::CountMessages => ActionView::CountMessages,
            Action::Expand { items, bound } => ActionView::Expand { items: items@, bound: *bound },
            Action::Store { sequence, mode, silent, flags, uid } => ActionView::Store {
                sequence: sequence@,
                mode: *mode,
                silent: *silent,
                flags: flags@,
                uid: *uid,
            },
            Action::FetchMessage { index, attributes } => ActionView::FetchMessage {
                index: *index,
                attributes: attributes@,
            },
            Action::FindIndex(uid) => ActionView::FindIndex(*uid),
            Action::FindUid(index) => ActionView::FindUid(*index),
            Action::ParseStore { sequence_set, name, words } => ActionView::ParseStore {
                sequence_set: sequence_set@,
                name: name@,
                words: texts(words@),
            },
        }
    }
}

impl ActionView {
    /// Whether the action is done to the selected folder.
    pub open spec fn needs_folder(self) -> bool {
        ||| self is Expunge
        ||| self is Synchronize
        ||| self is CountMessages
        ||| self is Store
        ||| self is FetchMessage
        ||| self is FindIndex
        ||| self is FindUid
    }
}

/// A change is seen as it is, field by field.
pub proof fn changes_are_seen_as_they_are(path: String, mode: u32)
    ensures
        (DiskChange::MakeDir { path, mode })@ == (DiskChangeView::MakeDir { path: path@, mode }),
        DiskChange::Unlink(path)@ == DiskChangeView::Unlink(path@),
        DiskChange::RemoveDir(path)@ == DiskChangeView::RemoveDir(path@),
{
}

/// An action that carries text is seen as it is, field by field.
pub proof fn actions_with_text_are_seen_as_they_are(a: String, b: String, c: bool, words: Vec<String>)
    ensures
        Action::Send(a)@ == ActionView::Send(a@),
        (Action::Login { email: a, password: b })@ == (ActionView::Login {
            email: a@,
            password: b@,
        }),
        (Action::OpenFolder { name: a, path: b, examine: c })@ == (ActionView::OpenFolder {
            name: a@,
            path: b@,
            examine: c,
        }),
        Action::ReadDirectory(a)@ == ActionView::ReadDirectory(a@),
        Action::Survey(a)@ == ActionView::Survey(a@),
        Action::ParseFetch(a)@ == ActionView::ParseFetch(a@),
        (Action::ParseStore { sequence_set: a, name: b, words })@ == (ActionView::ParseStore {
            sequence_set: a@,
            name: b@,
            words: words@.map_values(|word: String| word@),
        }),
{
}

/// An action on messages is seen as it is, field by field.
pub proof fn actions_on_messages_are_seen_as_they_are(
    items: Vec<SequenceItem>,
    bound: Option<usize>,
    sequence: Vec<usize>,
    mode: StoreMode,
    silent: bool,
    flags: FlagSet,
    uid: bool,
    index: usize,
    attributes: Vec<Attribute>,
)
    ensures
        (Action::Expand { items, bound })@ == (ActionView::Expand { items: items@, bound }),
        (Action::Store { sequence, mode, silent, flags, uid })@ == (ActionView::Store {
            sequence: sequence@,
            mode,
            silent,
            flags: flags@,
            uid,
        }),
        (Action::FetchMessage { index, attributes })@ == (ActionView::FetchMessage {
            index,
            attributes: attributes@,
        }),
        Action::FindIndex(index)@ == ActionView::FindIndex(index),
        Action::FindUid(index)@ == ActionView::FindUid(index),
{
}

} // verus!
