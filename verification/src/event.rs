//! What a session can be told.

use crate::command::{FetchCommand, SequenceItem};
use crate::listing::Survey;
use crate::message::{Flag, StoreMode};
use vstd::prelude::*;

verus! {

/// What became of a login.
#[derive(Debug)]
pub enum LoginOutcome {
    /// The name and password are not of a form that any user could have.
    Malformed,
    /// There is no such user.
    Unknown,
    /// There is such a user.
    Known {
        /// Whether the password is theirs.
        verified: bool,
        /// Where their mail is.
        maildir: String,
    },
}

/// What there is to say of a folder that was just opened.
#[derive(Debug)]
pub struct FolderStatus {
    /// How many messages it holds.
    pub exists: usize,
    /// How many of them are recent.
    pub recent: usize,
    /// The response on the first message that is not seen.
    pub unseen: String,
    /// The response code for what may be done to it.
    pub read_status: String,
}

/// The parts of a `STORE`, each as far as it could be parsed.
#[derive(Debug)]
pub struct StoreWords {
    pub sequence_set: Option<Vec<SequenceItem>>,
    pub mode: Option<StoreMode>,
    /// One for each word; `None` where it names no flag.
    pub flags: Vec<Option<Flag>>,
}

/// Something that happened: the connection was made, or the last action of
/// the session came to an end.
#[derive(Debug)]
pub enum Event {
    /// The client is connected.
    Connected,
    /// All was written and flushed.
    Sent,
    /// A line was read; it is empty at the end of the stream.
    Line(String),
    /// Reading, writing or flushing failed.
    StreamFailed,
    LoginDone(LoginOutcome),
    /// The folder was opened, or cannot be.
    FolderOpened(Option<FolderStatus>),
    /// The paths of what a directory holds; `None` where it cannot be read.
    DirectoryRead(Option<Vec<String>>),
    /// Whether a change on disk could be made.
    DiskChanged(bool),
    Surveyed(Survey),
    /// The sequence numbers of the messages that were expunged.
    Expunged(Vec<usize>),
    Synchronized,
    /// The command, or `None` where it does not parse.
    FetchParsed(Option<FetchCommand>),
    /// How many messages the folder holds.
    Counted(usize),
    /// The numbers of a sequence set.
    Expanded(Vec<usize>),
    /// The flags were stored; the responses on it.
    Stored(String),
    /// The data of a message.
    Fetched(String),
    /// The index of the message with a UID, if there is one.
    IndexFound(Option<usize>),
    /// The UID of a message.
    UidFound(usize),
    StoreParsed(StoreWords),
}

} // verus!
