//! The course of a session: what it holds, and what each event makes of it.

use crate::action::{ActionView, DiskChangeView};
use crate::command::{
    body_sections, command_named, open_range_start, some_beyond, words, Attribute, Command,
    FetchCommand, SequenceItem,
};
use crate::event::{Event, FolderStatus, LoginOutcome, StoreWords};
use crate::listing::{responses, Survey};
use crate::message::{known_flags, Flag, StoreMode};
use crate::path::{final_name, joined_path, normal_path};
use crate::pattern::regex_compiles;
use crate::text::{
    decimal_text, lowered, pieces, replaced, replaced_first, texts, trimmed, trimmed_of, Text,
};
use vstd::prelude::*;

verus! {

/// The selected folder, as the contracts see it.
pub struct FolderView {
    pub name: Text,
    pub path: Text,
    pub examine: bool,
}

/// What the messages are expunged for.
#[derive(Clone, Copy, Debug, PartialEq, Eq, Structural)]
pub enum Purpose {
    Logout,
    Check,
    Close,
    Report,
}

/// A `FETCH` of the messages of a list, on its way.
pub struct BatchView {
    pub tag: Text,
    /// Whether the messages go by UID.
    pub uid: bool,
    pub sequence: Seq<usize>,
    pub attributes: Seq<Attribute>,
    /// The place in the list of the next message.
    pub next: nat,
    /// The responses so far.
    pub response: Text,
}

/// A `FETCH` of all messages from some index on, on its way.
pub struct SpanView {
    pub tag: Text,
    pub attributes: Seq<Attribute>,
    /// The index of the next message.
    pub index: usize,
    /// How many messages the folder holds.
    pub count: usize,
    /// The responses so far.
    pub response: Text,
}

/// What a session waits for.
pub enum PhaseView {
    /// For the client to connect.
    Fresh,
    /// For the greeting to be sent.
    Greeting,
    /// For a reply to be sent.
    Sending,
    Reading,
    /// For the client to connect again.
    Closed,
    LoggingIn { tag: Text, email: Text },
    Selecting { tag: Text, folder: FolderView },
    ReadingNew { tag: Text, new: Text, cur: Text },
    ReadingCur { tag: Text, new: Text, cur: Text, files: Seq<Text> },
    /// For a change on disk, with `done` of them behind it.
    Changing { changes: Seq<DiskChangeView>, done: nat, success: Text, failure: Text },
    Surveying { tag: Text, pattern: Text },
    Expunging { tag: Text, purpose: Purpose },
    Synchronizing { tag: Text, close: bool },
    ParsingFetch { tag: Text, uid: bool },
    Counting { tag: Text, items: Seq<SequenceItem>, attributes: Seq<Attribute> },
    Expanding { tag: Text, uid: bool, attributes: Seq<Attribute> },
    /// For `\Seen` to be set, `left` more times with this one.
    Marking { batch: BatchView, left: nat },
    Fetching(BatchView),
    FindingIndex(BatchView),
    FetchingFound { batch: BatchView, index: usize },
    CountingSpan { tag: Text, first: usize, attributes: Seq<Attribute> },
    FindingStart { tag: Text, first: usize, count: usize, attributes: Seq<Attribute> },
    FetchingSpan(SpanView),
    FindingUid { span: SpanView, message: Text },
    ParsingStore { tag: Text, silent: bool, uid: bool },
    ExpandingStore { tag: Text, mode: StoreMode, silent: bool, flags: Set<Flag>, uid: bool },
    Storing { tag: Text },
}

/// A session, as the contracts see it.
pub struct SessionView {
    /// Whether the client has asked to log out.
    pub logout: bool,
    /// Where the mail of the user is, once they have logged in.
    pub maildir: Option<Text>,
    /// The selected folder.
    pub folder: Option<FolderView>,
    pub phase: PhaseView,
}

/// A session that was just made.
pub open spec fn fresh() -> SessionView {
    SessionView { logout: false, maildir: None, folder: None, phase: PhaseView::Fresh }
}

/// A session and what it asks for.
pub type Step = (SessionView, ActionView);

/// `s`, waiting for something else.
pub open spec fn waiting(s: SessionView, phase: PhaseView) -> SessionView {
    SessionView { phase, ..s }
}

// ---------------------------------------------------------------- replying
/// The text goes to the client.
pub open spec fn replied(s: SessionView, text: Text) -> Step {
    (waiting(s, PhaseView::Sending), ActionView::Send(text))
}

/// The connection ends.
pub open spec fn closed(s: SessionView) -> Step {
    (waiting(s, PhaseView::Closed), ActionView::Close)
}

/// The command is answered with `BAD`.
pub open spec fn refused(s: SessionView, tag: Text) -> Step {
    replied(s, tag + " BAD Invalid command\r\n"@)
}

/// An argument without the quotes around it.
pub open spec fn unquoted(word: Text) -> Text {
    trimmed_of(word, '"')
}

// ------------------------------------------------------------------- login
/// `LOGIN`: the user is looked up.
pub open spec fn login_asked(s: SessionView, tag: Text, args: Seq<Text>) -> Step {
    if args.len() < 2 {
        refused(s, tag)
    } else {
        let email = unquoted(args[0]);
        (
            waiting(s, PhaseView::LoggingIn { tag, email }),
            ActionView::Login { email, password: unquoted(args[1]) },
        )
    }
}

/// The mail directory after a login: that of a user who gave their password,
/// none after any other attempt, and the one before where the attempt was
/// malformed.
pub open spec fn maildir_after(before: Option<Text>, outcome: LoginOutcome) -> Option<Text> {
    match outcome {
        LoginOutcome::Malformed => before,
        LoginOutcome::Known { verified: true, maildir } => Some(maildir@),
        _ => None,
    }
}

/// The user is told whether they are logged in.
pub open spec fn login_done(s: SessionView, tag: Text, email: Text, outcome: LoginOutcome) -> Step {
    let maildir = maildir_after(s.maildir, outcome);
    let text = if outcome !is Malformed && maildir is Some {
        tag + " OK logged in successfully as "@ + email + "\r\n"@
    } else {
        tag + " NO invalid username or password\r\n"@
    };
    replied(SessionView { maildir, ..s }, text)
}

// ------------------------------------------------------------------ select
/// `SELECT` and `EXAMINE`: the folder is opened at its place below the mail
/// directory, which `INBOX` stands for.
pub open spec fn select_asked(s: SessionView, tag: Text, args: Seq<Text>, examine: bool) -> Step {
    match s.maildir {
        Some(maildir) if args.len() >= 1 => {
            let name = unquoted(args[0]);
            let path = joined_path(maildir, replaced_first(name, "INBOX"@, "."@));
            (
                waiting(
                    s,
                    PhaseView::Selecting { tag, folder: FolderView { name, path, examine } },
                ),
                ActionView::OpenFolder { name, path, examine },
            )
        },
        _ => refused(s, tag),
    }
}

/// The responses on a folder that was selected.
pub open spec fn select_text(tag: Text, status: FolderStatus) -> Text {
    "* "@ + decimal_text(status.exists as nat) + " EXISTS\r\n* "@ + decimal_text(
        status.recent as nat,
    ) + " RECENT\r\n"@ + status.unseen@
        + "* FLAGS (\\Answered \\Deleted \\Draft \\Flagged \\Seen)\r\n"@
        + "* OK [PERMANENTFLAGS (\\Answered \\Deleted \\Draft \\Flagged \\Seen)] Permanent flags\r\n"@
        + tag + " OK "@ + status.read_status@ + " SELECT command was successful\r\n"@
}

/// The folder is the selected one from here on; where it could not be opened,
/// none is.
pub open spec fn select_done(
    s: SessionView,
    tag: Text,
    folder: FolderView,
    status: Option<FolderStatus>,
) -> Step {
    match status {
        Some(status) => replied(
            SessionView { folder: Some(folder), ..s },
            select_text(tag, status),
        ),
        None => replied(SessionView { folder: None, ..s }, tag + " NO error finding mailbox\r\n"@),
    }
}

// ------------------------------------------------------- create and delete
/// Where the mailbox `name` is on disk.
pub open spec fn mailbox_path(maildir: Text, name: Text) -> Text {
    joined_path(maildir, replaced_first(name, "INBOX"@, ""@))
}

/// The changes from the place `done` on are made, one after the other.
pub open spec fn changed_from(
    s: SessionView,
    changes: Seq<DiskChangeView>,
    done: nat,
    success: Text,
    failure: Text,
) -> Step {
    if done < changes.len() {
        (
            waiting(s, PhaseView::Changing { changes, done, success, failure }),
            ActionView::Change(changes[done as int]),
        )
    } else {
        replied(s, success)
    }
}

/// After a change the next is made; after one that failed none is.
pub open spec fn change_done(
    s: SessionView,
    changes: Seq<DiskChangeView>,
    done: nat,
    success: Text,
    failure: Text,
    ok: bool,
) -> Step {
    if ok {
        changed_from(s, changes, done + 1, success, failure)
    } else {
        replied(s, failure)
    }
}

/// The directories that a new mailbox consists of.
pub open spec fn create_changes(path: Text) -> Seq<DiskChangeView> {
    seq![
        DiskChangeView::MakeDir { path: joined_path(path, "new"@), mode: 0o755 },
        DiskChangeView::MakeDir { path: joined_path(path, "cur"@), mode: 0o755 },
    ]
}

/// `CREATE`: the directories of the mailbox are made.
pub open spec fn create_asked(s: SessionView, tag: Text, args: Seq<Text>) -> Step {
    match s.maildir {
        Some(maildir) if args.len() >= 1 => changed_from(
            s,
            create_changes(mailbox_path(maildir, unquoted(args[0]))),
            0,
            tag + " OK CREATE successful.\r\n"@,
            tag + " NO Could not create folder.\r\n"@,
        ),
        _ => refused(s, tag),
    }
}

/// The reply to a `DELETE` that could not be done.
pub open spec fn delete_refused(tag: Text) -> Text {
    tag + " NO Invalid folder.\r\n"@
}

/// `DELETE`: the files of the mailbox are looked for, in `new` first.
pub open spec fn delete_asked(s: SessionView, tag: Text, args: Seq<Text>) -> Step {
    match s.maildir {
        Some(maildir) if args.len() >= 1 => {
            let path = mailbox_path(maildir, unquoted(args[0]));
            let new = joined_path(path, "new"@);
            let cur = joined_path(path, "cur"@);
            (
                waiting(s, PhaseView::ReadingNew { tag, new, cur }),
                ActionView::ReadDirectory(new),
            )
        },
        _ => refused(s, tag),
    }
}

/// Then they are looked for in `cur`.
pub open spec fn new_read(
    s: SessionView,
    tag: Text,
    new: Text,
    cur: Text,
    found: Option<Seq<Text>>,
) -> Step {
    match found {
        Some(files) => (
            waiting(s, PhaseView::ReadingCur { tag, new, cur, files }),
            ActionView::ReadDirectory(cur),
        ),
        None => replied(s, delete_refused(tag)),
    }
}

/// The removal of each of the files.
pub open spec fn unlinks(files: Seq<Text>) -> Seq<DiskChangeView> {
    files.map_values(|path: Text| DiskChangeView::Unlink(path))
}

/// What takes a mailbox away: its files first, then its directories.
pub open spec fn delete_changes(
    new: Text,
    cur: Text,
    new_files: Seq<Text>,
    cur_files: Seq<Text>,
) -> Seq<DiskChangeView> {
    unlinks(new_files) + unlinks(cur_files) + seq![
        DiskChangeView::RemoveDir(new),
        DiskChangeView::RemoveDir(cur),
    ]
}

/// Then all of it is removed.
pub open spec fn cur_read(
    s: SessionView,
    tag: Text,
    new: Text,
    cur: Text,
    files: Seq<Text>,
    found: Option<Seq<Text>>,
) -> Step {
    match found {
        Some(more) => changed_from(
            s,
            delete_changes(new, cur, files, more),
            0,
            tag + " OK DELETE successsful.\r\n"@,
            delete_refused(tag),
        ),
        None => replied(s, delete_refused(tag)),
    }
}

// -------------------------------------------------------------------- list
/// The pattern for the paths that a `LIST` asks for: the name of the mail
/// directory, the reference and the mailbox, with a slash or none between
/// them, at the end of the path. In the mailbox `*` stands for anything and
/// `%` for anything without a slash.
pub open spec fn list_pattern(root_name: Text, reference: Text, mailbox: Text) -> Text {
    let wild = replaced(replaced(mailbox, "*"@, ".*"@), "%"@, "[^/]*"@);
    root_name + "/?"@ + reference + "/?"@ + replaced(wild, "INBOX"@, ""@) + "$"@
}

/// A `LIST` for a pattern, given whether that is a valid one.
pub open spec fn list_started(
    s: SessionView,
    tag: Text,
    maildir: Text,
    pattern: Text,
    valid: bool,
) -> Step {
    if valid {
        (
            waiting(s, PhaseView::Surveying { tag, pattern }),
            ActionView::Survey(normal_path(maildir)),
        )
    } else {
        refused(s, tag)
    }
}

/// `LIST`: the mail directory is looked through. Without a mailbox the reply
/// only says what separates the parts of a name.
pub open spec fn list_asked(s: SessionView, tag: Text, args: Seq<Text>) -> Step {
    match s.maildir {
        Some(maildir) if args.len() >= 2 => {
            let reference = unquoted(args[0]);
            let mailbox = unquoted(args[1]);
            if mailbox.len() == 0 {
                replied(
                    s,
                    "* LIST (\\Noselect) \"/\" \""@ + reference + "\"\r\n"@ + tag
                        + " OK List successful\r\n"@,
                )
            } else {
                match final_name(maildir) {
                    Some(root_name) => {
                        let pattern = list_pattern(root_name, reference, mailbox);
                        list_started(s, tag, maildir, pattern, regex_compiles(pattern))
                    },
                    None => refused(s, tag),
                }
            }
        },
        _ => refused(s, tag),
    }
}

/// The lines one after the other.
pub open spec fn lines(list: Seq<Text>) -> Text
    decreases list.len(),
{
    if list.len() == 0 {
        Seq::empty()
    } else {
        lines(list.drop_last()) + list.last() + "\r\n"@
    }
}

/// The mailboxes that were asked for are listed.
pub open spec fn list_done(s: SessionView, tag: Text, pattern: Text, survey: Survey) -> Step {
    replied(s, lines(responses(s.maildir, survey, pattern)) + tag + " OK list successful\r\n"@)
}

// -------------------------------------------------------- expunge and check
/// The messages of the folder are expunged, if one is selected.
pub open spec fn expunge_asked(s: SessionView, tag: Text, purpose: Purpose) -> Step {
    if s.folder is Some {
        (waiting(s, PhaseView::Expunging { tag, purpose }), ActionView::Expunge)
    } else {
        refused(s, tag)
    }
}

/// The reply to a `LOGOUT`.
pub open spec fn logout_text(tag: Text) -> Text {
    "* BYE Server logging out\r\n"@ + tag + " OK Server logged out\r\n"@
}

/// `LOGOUT`: the folder is expunged, if one is selected.
pub open spec fn logout_asked(s: SessionView, tag: Text) -> Step {
    let out = SessionView { logout: true, ..s };
    if s.folder is Some {
        expunge_asked(out, tag, Purpose::Logout)
    } else {
        replied(out, logout_text(tag))
    }
}

/// The responses on the messages that were expunged.
pub open spec fn expunge_lines(numbers: Seq<usize>) -> Text
    decreases numbers.len(),
{
    if numbers.len() == 0 {
        Seq::empty()
    } else {
        expunge_lines(numbers.drop_last()) + "* "@ + decimal_text(numbers.last() as nat)
            + " EXPUNGE\r\n"@
    }
}

/// `LOGOUT` and `EXPUNGE` are done with that; for `CHECK` and `CLOSE` the folder
/// is brought up to date.
pub open spec fn expunge_done(s: SessionView, tag: Text, purpose: Purpose, numbers: Seq<usize>) -> Step {
    match purpose {
        Purpose::Logout => replied(s, logout_text(tag)),
        Purpose::Check => (
            waiting(s, PhaseView::Synchronizing { tag, close: false }),
            ActionView::Synchronize,
        ),
        Purpose::Close => (
            waiting(s, PhaseView::Synchronizing { tag, close: true }),
            ActionView::Synchronize,
        ),
        Purpose::Report => replied(
            s,
            expunge_lines(numbers) + tag + " OK expunge completed\r\n"@,
        ),
    }
}

/// `CHECK` and `CLOSE` are done; after the latter no folder is selected.
pub open spec fn synchronized(s: SessionView, tag: Text, close: bool) -> Step {
    if close {
        replied(SessionView { folder: None, ..s }, tag + " OK close completed\r\n"@)
    } else {
        replied(s, tag + " OK Check completed\r\n"@)
    }
}

// ------------------------------------------------------------------- fetch
/// `FETCH` and its arguments, with a space before each.
pub open spec fn fetch_words(args: Seq<Text>) -> Text
    decreases args.len(),
{
    if args.len() == 0 {
        "FETCH"@
    } else {
        fetch_words(args.drop_last()) + " "@ + args.last()
    }
}

/// `FETCH` and `UID FETCH`: the command is parsed.
pub open spec fn fetch_asked(s: SessionView, tag: Text, args: Seq<Text>, uid: bool) -> Step {
    (
        waiting(s, PhaseView::ParsingFetch { tag, uid }),
        ActionView::ParseFetch(trimmed(fetch_words(args))),
    )
}

/// The messages are counted where the numbers of the set depend on it; else the
/// set is expanded.
pub open spec fn fetch_parsed(s: SessionView, tag: Text, uid: bool, parsed: Option<FetchCommand>) -> Step {
    match parsed {
        Some(command) if s.folder is Some => {
            let items = command.sequence_set@;
            let attributes = command.attributes@;
            if !uid {
                (
                    waiting(s, PhaseView::Counting { tag, items, attributes }),
                    ActionView::CountMessages,
                )
            } else {
                match open_range_start(items) {
                    Some(first) => (
                        waiting(s, PhaseView::CountingSpan { tag, first, attributes }),
                        ActionView::CountMessages,
                    ),
                    None => (
                        waiting(s, PhaseView::Expanding { tag, uid: true, attributes }),
                        ActionView::Expand { items, bound: None },
                    ),
                }
            }
        },
        _ => refused(s, tag),
    }
}

/// The set is expanded for a folder of so many messages, unless it reaches
/// beyond the last of them.
pub open spec fn counted(
    s: SessionView,
    tag: Text,
    items: Seq<SequenceItem>,
    attributes: Seq<Attribute>,
    count: usize,
) -> Step {
    if some_beyond(items, count) {
        refused(s, tag)
    } else {
        (
            waiting(s, PhaseView::Expanding { tag, uid: false, attributes }),
            ActionView::Expand { items, bound: Some(count) },
        )
    }
}

/// The number before `n`, and the largest before 0.
pub open spec fn before(n: usize) -> usize {
    if n == 0 {
        usize::MAX
    } else {
        (n - 1) as usize
    }
}

/// The number after `n`, and 0 after the largest.
pub open spec fn after(n: usize) -> usize {
    if n == usize::MAX {
        0
    } else {
        (n + 1) as usize
    }
}

/// The next message of the list is fetched, or found first where the list is
/// one of UIDs. After the last the command is complete.
pub open spec fn batch_continued(s: SessionView, batch: BatchView) -> Step {
    if batch.next < batch.sequence.len() {
        let number = batch.sequence[batch.next as int];
        if batch.uid {
            (waiting(s, PhaseView::FindingIndex(batch)), ActionView::FindIndex(number))
        } else {
            (
                waiting(s, PhaseView::Fetching(batch)),
                ActionView::FetchMessage { index: before(number), attributes: batch.attributes },
            )
        }
    } else if batch.uid {
        replied(s, batch.response + batch.tag + " OK UID FETCH completed\r\n"@)
    } else {
        replied(s, batch.response + batch.tag + " OK FETCH completed\n"@)
    }
}

/// `\Seen` is set on the messages of the list `left` times; then they are
/// fetched.
pub open spec fn batch_marked(s: SessionView, batch: BatchView, left: nat) -> Step {
    if left > 0 {
        (
            waiting(s, PhaseView::Marking { batch, left }),
            ActionView::Store {
                sequence: batch.sequence,
                mode: StoreMode::Add,
                silent: true,
                flags: Set::empty().insert(Flag::Seen),
                uid: batch.uid,
            },
        )
    } else {
        batch_continued(s, batch)
    }
}

/// The messages are marked and fetched, unless there is none.
pub open spec fn expanded(
    s: SessionView,
    tag: Text,
    uid: bool,
    attributes: Seq<Attribute>,
    sequence: Seq<usize>,
) -> Step {
    if sequence.len() == 0 {
        refused(s, tag)
    } else {
        batch_marked(
            s,
            BatchView { tag, uid, sequence, attributes, next: 0, response: Seq::empty() },
            body_sections(attributes),
        )
    }
}

/// The list, one message further on, with more to say.
pub open spec fn batch_advanced(batch: BatchView, more: Text) -> BatchView {
    BatchView { next: batch.next + 1, response: batch.response + more, ..batch }
}

/// The response on a message that was fetched by its sequence number.
pub open spec fn fetch_line(number: usize, message: Text) -> Text {
    "* "@ + decimal_text(number as nat) + " FETCH ("@ + message + ")\r\n"@
}

/// There is a response on the message, and the list goes on.
pub open spec fn batch_fetched(s: SessionView, batch: BatchView, message: Text) -> Step {
    batch_continued(
        s,
        batch_advanced(batch, fetch_line(batch.sequence[batch.next as int], message)),
    )
}

/// The message with the UID is fetched; a UID that no message has is passed
/// over.
pub open spec fn batch_index_found(s: SessionView, batch: BatchView, index: Option<usize>) -> Step {
    match index {
        Some(index) => (
            waiting(s, PhaseView::FetchingFound { batch, index }),
            ActionView::FetchMessage { index, attributes: batch.attributes },
        ),
        None => batch_continued(s, BatchView { next: batch.next + 1, ..batch }),
    }
}

/// The response on a message that was fetched by its UID.
pub open spec fn uid_fetch_line(index: usize, message: Text, uid: usize) -> Text {
    "* "@ + decimal_text(after(index) as nat) + " FETCH ("@ + message + "UID "@ + decimal_text(
        uid as nat,
    ) + ")\r\n"@
}

/// There is a response on the message, and the list goes on.
pub open spec fn batch_found_fetched(
    s: SessionView,
    batch: BatchView,
    index: usize,
    message: Text,
) -> Step {
    batch_continued(
        s,
        batch_advanced(
            batch,
            uid_fetch_line(index, message, batch.sequence[batch.next as int]),
        ),
    )
}

// ------------------------------------------- fetch from a UID to the last
/// The first message is looked for, unless the folder is empty.
pub open spec fn span_counted(
    s: SessionView,
    tag: Text,
    first: usize,
    attributes: Seq<Attribute>,
    count: usize,
) -> Step {
    if count == 0 {
        refused(s, tag)
    } else {
        (
            waiting(s, PhaseView::FindingStart { tag, first, count, attributes }),
            ActionView::FindIndex(first),
        )
    }
}

/// The next message is fetched; after the last the command is complete.
pub open spec fn span_continued(s: SessionView, span: SpanView) -> Step {
    if span.index < span.count {
        (
            waiting(s, PhaseView::FetchingSpan(span)),
            ActionView::FetchMessage { index: span.index, attributes: span.attributes },
        )
    } else {
        replied(s, span.response + span.tag + " OK UID FETCH completed\r\n"@)
    }
}

/// Where the span begins. UID 1 stands for the first message even where no
/// message has it.
pub open spec fn span_start(first: usize, found: Option<usize>) -> Option<usize> {
    if found is None && first == 1 {
        Some(0)
    } else {
        found
    }
}

/// The messages from there on are fetched.
pub open spec fn start_found(
    s: SessionView,
    tag: Text,
    first: usize,
    count: usize,
    attributes: Seq<Attribute>,
    found: Option<usize>,
) -> Step {
    match span_start(first, found) {
        Some(index) => span_continued(
            s,
            SpanView { tag, attributes, index, count, response: Seq::empty() },
        ),
        None => refused(s, tag),
    }
}

/// The UID of the message is looked for.
pub open spec fn span_fetched(s: SessionView, span: SpanView, message: Text) -> Step {
    (waiting(s, PhaseView::FindingUid { span, message }), ActionView::FindUid(span.index))
}

/// The response on a message of a span.
pub open spec fn span_line(index: usize, message: Text, uid: usize) -> Text {
    "* "@ + decimal_text(after(index) as nat) + " FETCH ("@ + message + " UID "@ + decimal_text(
        uid as nat,
    ) + ")\r\n"@
}

/// The span, one message further on, with more to say.
pub open spec fn span_advanced(span: SpanView, more: Text) -> SpanView {
    SpanView { index: after(span.index), response: span.response + more, ..span }
}

/// There is a response on the message, and the span goes on.
pub open spec fn span_uid_found(s: SessionView, span: SpanView, message: Text, uid: usize) -> Step {
    span_continued(s, span_advanced(span, span_line(span.index, message, uid)))
}

// ------------------------------------------------------------------- store
/// `STORE` and `UID STORE`: the words are parsed, unless the name of the data
/// item is followed by anything but one `.SILENT`.
pub open spec fn store_asked(s: SessionView, tag: Text, args: Seq<Text>, uid: bool) -> Step {
    if args.len() < 3 {
        refused(s, tag)
    } else {
        let item = pieces(lowered(unquoted(args[1])), '.');
        if item.len() > 2 || (item.len() == 2 && item[1] != "silent"@) {
            refused(s, tag)
        } else {
            (
                waiting(s, PhaseView::ParsingStore { tag, silent: item.len() == 2, uid }),
                ActionView::ParseStore {
                    sequence_set: unquoted(args[0]),
                    name: item[0],
                    words: pieces(trimmed_of(trimmed_of(unquoted(args[2]), '('), ')'), ' '),
                },
            )
        }
    }
}

/// The set is expanded; what does not parse is refused, but for flags that
/// nobody knows.
pub open spec fn store_parsed(s: SessionView, tag: Text, silent: bool, uid: bool, parsed: StoreWords) -> Step {
    match (parsed.mode, s.folder, parsed.sequence_set) {
        (Some(mode), Some(_), Some(items)) => (
            waiting(
                s,
                PhaseView::ExpandingStore {
                    tag,
                    mode,
                    silent,
                    flags: known_flags(parsed.flags@),
                    uid,
                },
            ),
            ActionView::Expand { items: items@, bound: None },
        ),
        _ => refused(s, tag),
    }
}

/// The flags are stored.
pub open spec fn store_expanded(
    s: SessionView,
    tag: Text,
    mode: StoreMode,
    silent: bool,
    flags: Set<Flag>,
    uid: bool,
    sequence: Seq<usize>,
) -> Step {
    (
        waiting(s, PhaseView::Storing { tag }),
        ActionView::Store { sequence, mode, silent, flags, uid },
    )
}

/// The responses on it come before the tag.
pub open spec fn stored(s: SessionView, tag: Text, text: Text) -> Step {
    replied(s, text + tag + " OK STORE complete\r\n"@)
}

// ---------------------------------------------------------------- dispatch
/// `UID`: the next word says what is to be done by UID.
pub open spec fn uid_asked(s: SessionView, tag: Text, args: Seq<Text>) -> Step {
    if args.len() == 0 {
        refused(s, tag)
    } else {
        match command_named(args[0]) {
            Command::Fetch => fetch_asked(s, tag, args.skip(1), true),
            Command::Store => store_asked(s, tag, args.skip(1), true),
            _ => refused(s, tag),
        }
    }
}

/// What the command `command` with the arguments `args` makes of a session.
pub open spec fn commanded(s: SessionView, tag: Text, command: Command, args: Seq<Text>) -> Step {
    match command {
        Command::Noop => replied(s, tag + " OK NOOP\r\n"@),
        Command::Capability => replied(
            s,
            "* CAPABILITY IMAP4rev1 CHILDREN\r\n"@ + tag + " OK Capability successful\r\n"@,
        ),
        Command::Login => login_asked(s, tag, args),
        Command::Logout => logout_asked(s, tag),
        Command::Select => select_asked(s, tag, args, false),
        Command::Examine => select_asked(s, tag, args, true),
        Command::Create => create_asked(s, tag, args),
        Command::Delete => delete_asked(s, tag, args),
        Command::List => list_asked(s, tag, args),
        Command::Check => expunge_asked(s, tag, Purpose::Check),
        Command::Close => expunge_asked(s, tag, Purpose::Close),
        Command::Expunge => expunge_asked(s, tag, Purpose::Report),
        Command::Fetch => fetch_asked(s, tag, args, false),
        Command::Uid => uid_asked(s, tag, args),
        Command::Store => store_asked(s, tag, args, false),
        Command::Unknown => refused(s, tag),
    }
}

/// What a line of the client makes of a session.
pub open spec fn interpreted(s: SessionView, line: Text) -> Step {
    let w = words(line);
    if w.len() < 2 {
        refused(s, w[0])
    } else {
        commanded(s, w[0], command_named(w[1]), w.skip(2))
    }
}

/// The greeting.
pub open spec fn greeting() -> Text {
    "* OK Server ready.\r\n"@
}

/// The client is greeted.
pub open spec fn greeted(s: SessionView) -> Step {
    (waiting(s, PhaseView::Greeting), ActionView::Send(greeting()))
}

/// What a list of paths holds.
pub open spec fn found_texts(found: Option<Vec<String>>) -> Option<Seq<Text>> {
    match found {
        Some(paths) => Some(texts(paths@)),
        None => None,
    }
}

/// What an event that the session accepts makes of it.
pub open spec fn step(s: SessionView, event: Event) -> Step {
    match s.phase {
        PhaseView::Fresh | PhaseView::Closed => greeted(s),
        PhaseView::Greeting => if event is Sent {
            (waiting(s, PhaseView::Reading), ActionView::ReadLine)
        } else {
            closed(s)
        },
        PhaseView::Sending => if event is Sent && !s.logout {
            (waiting(s, PhaseView::Reading), ActionView::ReadLine)
        } else {
            closed(s)
        },
        PhaseView::Reading => match event {
            Event::Line(line) if line@.len() > 0 => interpreted(s, line@),
            _ => closed(s),
        },
        PhaseView::LoggingIn { tag, email } => login_done(s, tag, email, event->LoginDone_0),
        PhaseView::Selecting { tag, folder } => select_done(
            s,
            tag,
            folder,
            event->FolderOpened_0,
        ),
        PhaseView::ReadingNew { tag, new, cur } => new_read(
            s,
            tag,
            new,
            cur,
            found_texts(event->DirectoryRead_0),
        ),
        PhaseView::ReadingCur { tag, new, cur, files } => cur_read(
            s,
            tag,
            new,
            cur,
            files,
            found_texts(event->DirectoryRead_0),
        ),
        PhaseView::Changing { changes, done, success, failure } => change_done(
            s,
            changes,
            done,
            success,
            failure,
            event->DiskChanged_0,
        ),
        PhaseView::Surveying { tag, pattern } => list_done(s, tag, pattern, event->Surveyed_0),
        PhaseView::Expunging { tag, purpose } => expunge_done(s, tag, purpose, event->Expunged_0@),
        PhaseView::Synchronizing { tag, close } => synchronized(s, tag, close),
        PhaseView::ParsingFetch { tag, uid } => fetch_parsed(s, tag, uid, event->FetchParsed_0),
        PhaseView::Counting { tag, items, attributes } => counted(
            s,
            tag,
            items,
            attributes,
            event->Counted_0,
        ),
        PhaseView::Expanding { tag, uid, attributes } => expanded(
            s,
            tag,
            uid,
            attributes,
            event->Expanded_0@,
        ),
        PhaseView::Marking { batch, left } => batch_marked(s, batch, (left - 1) as nat),
        PhaseView::Fetching(batch) => batch_fetched(s, batch, event->Fetched_0@),
        PhaseView::FindingIndex(batch) => batch_index_found(s, batch, event->IndexFound_0),
        PhaseView::FetchingFound { batch, index } => batch_found_fetched(
            s,
            batch,
            index,
            event->Fetched_0@,
        ),
        PhaseView::CountingSpan { tag, first, attributes } => span_counted(
            s,
            tag,
            first,
            attributes,
            event->Counted_0,
        ),
        PhaseView::FindingStart { tag, first, count, attributes } => start_found(
            s,
            tag,
            first,
            count,
            attributes,
            event->IndexFound_0,
        ),
        PhaseView::FetchingSpan(span) => span_fetched(s, span, event->Fetched_0@),
        PhaseView::FindingUid { span, message } => span_uid_found(
            s,
            span,
            message,
            event->UidFound_0,
        ),
        PhaseView::ParsingStore { tag, silent, uid } => store_parsed(
            s,
            tag,
            silent,
            uid,
            event->StoreParsed_0,
        ),
        PhaseView::ExpandingStore { tag, mode, silent, flags, uid } => store_expanded(
            s,
            tag,
            mode,
            silent,
            flags,
            uid,
            event->Expanded_0@,
        ),
        PhaseView::Storing { tag } => stored(s, tag, event->Stored_0@),
    }
}

// ------------------------------------------------------------- invariants
/// Whether the line is a `LIST` that needs the name of a mail directory which
/// has none.
pub open spec fn lists_nameless(s: SessionView, line: Text) -> bool {
    let w = words(line);
    &&& s.maildir matches Some(maildir) && final_name(maildir) is None
    &&& w.len() >= 4
    &&& command_named(w[1]) == Command::List
    &&& unquoted(w[3]).len() > 0
}

/// Whether the session can go on from the event: it is an answer to what the
/// session asked for last, and none of the few that leave nothing to go on
/// with (a `LIST` in a mail directory without a name, an empty sequence set).
pub open spec fn accepts(s: SessionView, event: Event) -> bool {
    match s.phase {
        PhaseView::Fresh | PhaseView::Closed => event is Connected,
        PhaseView::Greeting | PhaseView::Sending => event is Sent || event is StreamFailed,
        PhaseView::Reading => match event {
            Event::Line(line) => !lists_nameless(s, line@),
            _ => event is StreamFailed,
        },
        PhaseView::LoggingIn { .. } => event is LoginDone,
        PhaseView::Selecting { .. } => event is FolderOpened,
        PhaseView::ReadingNew { .. } => event is DirectoryRead,
        PhaseView::ReadingCur { .. } => event is DirectoryRead,
        PhaseView::Changing { .. } => event is DiskChanged,
        PhaseView::Surveying { .. } => event is Surveyed,
        PhaseView::Expunging { .. } => event is Expunged,
        PhaseView::Synchronizing { .. } => event is Synchronized,
        PhaseView::ParsingFetch { tag, uid } => match event {
            Event::FetchParsed(Some(command)) => uid && s.folder is Some
                ==> command.sequence_set@.len() > 0,
            _ => event is FetchParsed,
        },
        PhaseView::Counting { .. } => event is Counted,
        PhaseView::Expanding { .. } => event is Expanded,
        PhaseView::Marking { .. } => event is Stored,
        PhaseView::Fetching(_) => event is Fetched,
        PhaseView::FindingIndex(_) => event is IndexFound,
        PhaseView::FetchingFound { .. } => event is Fetched,
        PhaseView::CountingSpan { .. } => event is Counted,
        PhaseView::FindingStart { .. } => event is IndexFound,
        PhaseView::FetchingSpan(_) => event is Fetched,
        PhaseView::FindingUid { .. } => event is UidFound,
        PhaseView::ParsingStore { .. } => event is StoreParsed,
        PhaseView::ExpandingStore { .. } => event is Expanded,
        PhaseView::Storing { .. } => event is Stored,
    }
}

/// What holds of every session between two events: what it waits for can
/// still come, and whatever is done to a folder is done with one selected.
pub open spec fn well_formed(s: SessionView) -> bool {
    match s.phase {
        PhaseView::Changing { changes, done, .. } => done < changes.len(),
        PhaseView::Expunging { purpose, .. } => s.folder is Some && (purpose is Logout ==> s.logout),
        PhaseView::Synchronizing { .. } => s.folder is Some,
        PhaseView::Counting { .. } => s.folder is Some,
        PhaseView::Expanding { .. } => s.folder is Some,
        PhaseView::Marking { batch, left } => s.folder is Some && left > 0 && batch.next == 0
            && batch.sequence.len() > 0,
        PhaseView::Fetching(batch) => s.folder is Some && !batch.uid && batch.next
            < batch.sequence.len(),
        PhaseView::FindingIndex(batch) => s.folder is Some && batch.uid && batch.next
            < batch.sequence.len(),
        PhaseView::FetchingFound { batch, .. } => s.folder is Some && batch.uid && batch.next
            < batch.sequence.len(),
        PhaseView::CountingSpan { .. } => s.folder is Some,
        PhaseView::FindingStart { count, .. } => s.folder is Some && count > 0,
        PhaseView::FetchingSpan(span) => s.folder is Some && span.index < span.count,
        PhaseView::FindingUid { span, .. } => s.folder is Some && span.index < span.count,
        PhaseView::ExpandingStore { .. } => s.folder is Some,
        PhaseView::Storing { .. } => s.folder is Some,
        _ => true,
    }
}

} // verus!
