//! What holds of every session.

use crate::action::{ActionView, DiskChangeView};
use crate::command::{
    command_named, is_beyond, only_its_name_names_a_command, words, Attribute, Command,
    FetchCommand, SequenceItem,
};
use crate::event::{Event, StoreWords};
use crate::message::Flag;
use crate::model::{
    self, accepts, commanded, interpreted, refused, step, well_formed, FolderView, PhaseView,
    SessionView, Step,
};
use crate::path::{final_name, normal_path, staying_leads_nowhere};
use crate::text::{joined, lowered, nothing_to_replace, occurs, replaced_first, trimmed_of, Text};
use vstd::prelude::*;

verus! {

// ---------------------------------------------------------------- one step
/// Whether the event is how the action can come to an end.
pub open spec fn is_answer(action: ActionView, event: Event) -> bool {
    match action {
        ActionView::Send(_) => event is Sent || event is StreamFailed,
        ActionView::ReadLine => event is Line || event is StreamFailed,
        ActionView::Close => event is Connected,
        ActionView::Login { .. } => event is LoginDone,
        ActionView::OpenFolder { .. } => event is FolderOpened,
        ActionView::ReadDirectory(_) => event is DirectoryRead,
        ActionView::Change(_) => event is DiskChanged,
        ActionView::Survey(_) => event is Surveyed,
        ActionView::Expunge => event is Expunged,
        ActionView::Synchronize => event is Synchronized,
        ActionView::ParseFetch(_) => event is FetchParsed,
        ActionView::CountMessages => event is Counted,
        ActionView::Expand { .. } => event is Expanded,
        ActionView::Store { .. } => event is Stored,
        ActionView::FetchMessage { .. } => event is Fetched,
        ActionView::FindIndex(_) => event is IndexFound,
        ActionView::FindUid(_) => event is UidFound,
        ActionView::ParseStore { .. } => event is StoreParsed,
    }
}

/// Whether the event leaves nothing to go on with: a `LIST` of some mailbox in a
/// mail directory that has no name, or a `UID FETCH` of an empty set.
pub open spec fn is_dead_end(s: SessionView, event: Event) -> bool {
    match event {
        Event::Line(line) => {
            let w = words(line@);
            &&& s.maildir is Some && final_name(s.maildir->0) is None
            &&& w.len() >= 4
            &&& lowered(w[1]) == "list"@
            &&& trimmed_of(w[3], '"').len() > 0
        },
        Event::FetchParsed(Some(command)) => s.phase is ParsingFetch && s.phase->ParsingFetch_uid
            && s.folder is Some && command.sequence_set@.len() == 0,
        _ => false,
    }
}

/// How far the work for a command has to go: the stages that are left, and
/// within a stage the rounds.
pub open spec fn work_left(phase: PhaseView) -> (nat, int) {
    match phase {
        PhaseView::Fresh | PhaseView::Closed => (0, 0),
        PhaseView::Greeting | PhaseView::Sending | PhaseView::Reading => (0, 0),
        PhaseView::LoggingIn { .. } => (1, 0),
        PhaseView::Selecting { .. } => (1, 0),
        PhaseView::ReadingNew { .. } => (3, 0),
        PhaseView::ReadingCur { .. } => (2, 0),
        PhaseView::Changing { changes, done, .. } => (1, changes.len() - done),
        PhaseView::Surveying { .. } => (1, 0),
        PhaseView::Expunging { .. } => (2, 0),
        PhaseView::Synchronizing { .. } => (1, 0),
        PhaseView::ParsingFetch { .. } => (5, 0),
        PhaseView::Counting { .. } => (4, 0),
        PhaseView::Expanding { .. } => (3, 0),
        PhaseView::Marking { left, .. } => (2, left as int),
        PhaseView::Fetching(batch) => (1, 2 * (batch.sequence.len() - batch.next)),
        PhaseView::FindingIndex(batch) => (1, 2 * (batch.sequence.len() - batch.next)),
        PhaseView::FetchingFound { batch, .. } => (1, 2 * (batch.sequence.len() - batch.next) - 1),
        PhaseView::CountingSpan { .. } => (4, 0),
        PhaseView::FindingStart { .. } => (3, 0),
        PhaseView::FetchingSpan(span) => (1, 2 * (span.count - span.index)),
        PhaseView::FindingUid { span, .. } => (1, 2 * (span.count - span.index) - 1),
        PhaseView::ParsingStore { .. } => (3, 0),
        PhaseView::ExpandingStore { .. } => (2, 0),
        PhaseView::Storing { .. } => (1, 0),
    }
}

/// The plain facts on one step.
spec fn sound(s: SessionView, next: Step) -> bool {
    let (t, action) = next;
    &&& well_formed(t)
    &&& action is Send <==> t.phase is Greeting || t.phase is Sending
    &&& action is ReadLine <==> t.phase is Reading
    &&& action is Close <==> t.phase is Closed
    &&& t.phase !is Fresh
    &&& t.phase is Greeting <==> s.phase is Fresh || s.phase is Closed
    &&& action.needs_folder() ==> t.folder is Some
    &&& t.maildir != s.maildir ==> s.phase is LoggingIn
    &&& t.folder != s.folder ==> s.phase is Selecting || (s.phase is Synchronizing
        && s.phase->Synchronizing_close && t.folder is None)
    &&& s.logout ==> t.logout
    &&& action is ReadLine ==> !t.logout || s.phase is Greeting
}

/// Whether a step waits for the answer exactly if it is one.
spec fn awaits(next: Step, answer: Event) -> bool {
    accepts(next.0, answer) <==> is_answer(next.1, answer) && !is_stuck(next.0, answer)
}

/// [`is_dead_end`], in the words of the model.
spec fn is_stuck(s: SessionView, event: Event) -> bool {
    match event {
        Event::Line(line) => model::lists_nameless(s, line@),
        _ => is_dead_end(s, event),
    }
}

proof fn stuck_at_a_dead_end(s: SessionView, event: Event)
    ensures
        is_stuck(s, event) == is_dead_end(s, event),
{
    if let Event::Line(line) = event {
        let w = words(line@);
        commands_go_by_their_names(w[1]);
        only_its_name_names_a_command(w[1]);
    }
}

/// Whether a step leads the work on towards the reply.
spec fn leads_on(s: SessionView, next: Step) -> bool {
    let left = work_left(s.phase);
    let still = work_left(next.0.phase);
    ||| next.1 is Send
    ||| still.0 < left.0
    ||| still.0 == left.0 && 0 <= still.1 < left.1
}

proof fn lines_are_sound(s: SessionView, line: Text, answer: Event)
    requires
        s.phase is Reading,
    ensures
        sound(s, interpreted(s, line)),
        awaits(interpreted(s, line), answer),
{
}

/// Each phase is looked at by itself.
#[verifier::rlimit(40)]
proof fn answers_are_sound(s: SessionView, event: Event, answer: Event)
    requires
        well_formed(s),
        s.phase !is Reading,
        accepts(s, event),
    ensures
        sound(s, step(s, event)),
        awaits(step(s, event), answer),
        work_left(s.phase).0 > 0 ==> leads_on(s, step(s, event)),
{
    match s.phase {
        PhaseView::Fresh | PhaseView::Closed => {},
        PhaseView::Greeting | PhaseView::Sending | PhaseView::Reading => {},
        PhaseView::LoggingIn { .. } => {},
        PhaseView::Selecting { .. } => {},
        PhaseView::ReadingNew { .. } => {},
        PhaseView::ReadingCur { .. } => {},
        PhaseView::Changing { .. } => {},
        PhaseView::Surveying { .. } => {},
        PhaseView::Expunging { .. } => {},
        PhaseView::Synchronizing { .. } => {},
        PhaseView::ParsingFetch { .. } => {},
        PhaseView::Counting { .. } => {},
        PhaseView::Expanding { .. } => {},
        PhaseView::Marking { .. } => {},
        PhaseView::Fetching(_) => {},
        PhaseView::FindingIndex(_) => {},
        PhaseView::FetchingFound { .. } => {},
        PhaseView::CountingSpan { .. } => {},
        PhaseView::FindingStart { .. } => {},
        PhaseView::FetchingSpan(_) => {},
        PhaseView::FindingUid { .. } => {},
        PhaseView::ParsingStore { .. } => {},
        PhaseView::ExpandingStore { .. } => {},
        PhaseView::Storing { .. } => {},
    }
}

proof fn steps_are_sound(s: SessionView, event: Event, answer: Event)
    requires
        well_formed(s),
        accepts(s, event),
    ensures
        sound(s, step(s, event)),
        awaits(step(s, event), answer),
        work_left(s.phase).0 > 0 ==> leads_on(s, step(s, event)),
{
    if s.phase is Reading {
        if let Event::Line(line) = event {
            lines_are_sound(s, line@, answer);
        }
    } else {
        answers_are_sound(s, event, answer);
    }
}

/// Whatever a line asks for, the session is well-formed after it.
pub proof fn interpreting_gives_well_formed(s: SessionView, line: Text)
    ensures
        well_formed(interpreted(s, line).0),
{
}

/// A step leads from a well-formed session to a well-formed session.
pub proof fn steps_keep_well_formed(s: SessionView, event: Event)
    requires
        well_formed(s),
        accepts(s, event),
    ensures
        well_formed(step(s, event).0),
{
    steps_are_sound(s, event, event);
}

/// The session sends exactly when it then waits for the greeting or a reply to
/// be sent, reads exactly when it then waits for a line, and ends the
/// connection exactly when it then waits for the next one. A connection begins
/// with the greeting, and only that does; so between two lines that the session
/// reads it sends one text.
pub proof fn the_stream_follows_the_phase(s: SessionView, event: Event)
    requires
        well_formed(s),
        accepts(s, event),
    ensures
        ({
            let (t, action) = step(s, event);
            &&& action is Send <==> t.phase is Greeting || t.phase is Sending
            &&& action is ReadLine <==> t.phase is Reading
            &&& action is Close <==> t.phase is Closed
            &&& t.phase !is Fresh
            &&& event is Connected <==> t.phase is Greeting
            &&& event is Connected ==> action == ActionView::Send(model::greeting())
        }),
{
    steps_are_sound(s, event, event);
}

/// Whoever does what the session asks for, and hands back how that came to an
/// end, hands it an event that it accepts, but for the two kinds that leave
/// nothing to go on with; and no other event is accepted.
pub proof fn an_action_awaits_its_answer(s: SessionView, event: Event, answer: Event)
    requires
        well_formed(s),
        accepts(s, event),
    ensures
        accepts(step(s, event).0, answer) <==> is_answer(step(s, event).1, answer) && !is_dead_end(
            step(s, event).0,
            answer,
        ),
{
    steps_are_sound(s, event, answer);
    stuck_at_a_dead_end(step(s, event).0, answer);
}

/// A session that was just made waits for the client to connect, and so does
/// one whose connection has ended.
pub proof fn a_connection_is_awaited_first(s: SessionView, event: Event)
    requires
        s == model::fresh() || s.phase is Closed,
    ensures
        accepts(s, event) <==> event is Connected,
{
}

/// Where the stream fails, or ends, the connection is ended and nothing else
/// is changed.
pub proof fn a_broken_stream_ends_the_connection(s: SessionView, event: Event)
    requires
        accepts(s, event),
        event is StreamFailed || (event matches Event::Line(line) && line@.len() == 0),
    ensures
        step(s, event) == model::closed(s),
{
}

/// What is done to a folder is done only while one is selected.
pub proof fn folder_work_needs_a_folder(s: SessionView, event: Event)
    requires
        well_formed(s),
        accepts(s, event),
        step(s, event).1.needs_folder(),
    ensures
        step(s, event).0.folder is Some,
{
    steps_are_sound(s, event, event);
}

/// The mail directory changes with the outcome of a login and with nothing
/// else.
pub proof fn only_a_login_changes_the_maildir(s: SessionView, event: Event)
    requires
        well_formed(s),
        accepts(s, event),
        s.phase !is LoggingIn,
    ensures
        step(s, event).0.maildir == s.maildir,
{
    steps_are_sound(s, event, event);
}

/// The selected folder changes with the outcome of a selection, and is given
/// up at the end of a `CLOSE`; nothing else changes it.
pub proof fn only_select_and_close_change_the_folder(s: SessionView, event: Event)
    requires
        well_formed(s),
        accepts(s, event),
        step(s, event).0.folder != s.folder,
    ensures
        s.phase is Selecting || (s.phase is Synchronizing && s.phase->Synchronizing_close && step(
            s,
            event,
        ).0.folder is None),
{
    steps_are_sound(s, event, event);
}

/// `LOGOUT` is taken down at once, and never taken back. From then on no line
/// is read but the first after a greeting, and once a reply is sent the
/// connection is ended.
pub proof fn logout_ends_the_connection(s: SessionView, event: Event, tag: Text, args: Seq<Text>)
    requires
        well_formed(s),
        accepts(s, event),
    ensures
        commanded(s, tag, Command::Logout, args).0.logout,
        s.logout ==> step(s, event).0.logout,
        s.logout && step(s, event).1 is ReadLine ==> s.phase is Greeting,
        s.logout && s.phase is Sending ==> step(s, event) == model::closed(s),
{
    steps_are_sound(s, event, event);
}

/// A session can be served again once its connection has ended: it greets and
/// reads whatever went before, and keeps its mail directory and its folder.
/// Where `LOGOUT` was taken down, the next line is answered as any other and
/// then the connection is ended.
pub proof fn a_session_can_be_served_again(s: SessionView, connected: Event, sent: Event, line: Event)
    requires
        s.phase is Closed || s.phase is Fresh,
        connected is Connected,
        sent is Sent,
        line is Line,
        line->Line_0@.len() > 0,
    ensures
        accepts(s, connected),
        step(s, connected) == model::greeted(s),
        ({
            let reading = model::waiting(s, PhaseView::Reading);
            &&& accepts(model::greeted(s).0, sent)
            &&& step(model::greeted(s).0, sent) == (reading, ActionView::ReadLine)
            &&& step(reading, line) == interpreted(reading, line->Line_0@)
        }),
        s.logout ==> step(model::waiting(s, PhaseView::Sending), sent) == model::closed(s),
{
}

/// Every step of the work for a command brings it nearer to its end: the reply
/// goes out, or less is left to do. So every command is answered after
/// finitely many steps.
pub proof fn work_comes_to_an_end(s: SessionView, event: Event)
    requires
        well_formed(s),
        accepts(s, event),
        work_left(s.phase).0 > 0,
    ensures
        ({
            let left = work_left(s.phase);
            let still = work_left(step(s, event).0.phase);
            ||| step(s, event).1 is Send
            ||| still.0 < left.0
            ||| still.0 == left.0 && 0 <= still.1 < left.1
        }),
{
    steps_are_sound(s, event, event);
}

// ------------------------------------------------------- what is refused
/// Before a login there are no mailboxes: nothing can be selected, made, taken
/// away or listed.
pub proof fn mailboxes_need_a_login(s: SessionView, tag: Text, command: Command, args: Seq<Text>)
    requires
        s.maildir is None,
        command is Select || command is Examine || command is Create || command is Delete
            || command is List,
    ensures
        commanded(s, tag, command, args) == refused(s, tag),
{
}

/// Without a selected folder its messages cannot be expunged, fetched or
/// changed.
pub proof fn messages_need_a_folder(
    s: SessionView,
    tag: Text,
    command: Command,
    args: Seq<Text>,
    uid: bool,
    silent: bool,
    fetch: Option<FetchCommand>,
    store: StoreWords,
)
    requires
        s.folder is None,
    ensures
        command is Check || command is Close || command is Expunge ==> commanded(
            s,
            tag,
            command,
            args,
        ) == refused(s, tag),
        model::fetch_parsed(s, tag, uid, fetch) == refused(s, tag),
        model::store_parsed(s, tag, silent, uid, store) == refused(s, tag),
{
}

/// A `FETCH` of a set in which no message falls is refused, and so is one of
/// `n:*` in an empty folder.
pub proof fn fetching_nothing_is_refused(
    s: SessionView,
    tag: Text,
    uid: bool,
    attributes: Seq<Attribute>,
    first: usize,
)
    ensures
        model::expanded(s, tag, uid, attributes, Seq::empty()) == refused(s, tag),
        model::span_counted(s, tag, first, attributes, 0) == refused(s, tag),
{
}

/// A `FETCH` by sequence numbers is refused where any part of its set reaches
/// beyond the last message, whatever else the set holds. The largest number in
/// use, and a range up to it, never do so in a folder with messages.
pub proof fn fetching_beyond_the_last_message_is_refused(
    s: SessionView,
    tag: Text,
    items: Seq<SequenceItem>,
    attributes: Seq<Attribute>,
    count: usize,
    i: int,
    n: usize,
)
    requires
        0 <= i < items.len(),
    ensures
        is_beyond(items[i], count) ==> model::counted(s, tag, items, attributes, count) == refused(
            s,
            tag,
        ),
        is_beyond(SequenceItem::Number(n), count) <==> n > count,
        is_beyond(SequenceItem::Wildcard, count) <==> count == 0,
        is_beyond(
            SequenceItem::Range(
                Box::new(SequenceItem::Number(n)),
                Box::new(SequenceItem::Wildcard),
            ),
            count,
        ) <==> n > count || count == 0,
{
    reveal_with_fuel(is_beyond, 2);
}

/// A refusal changes nothing but what the session waits for.
pub proof fn a_refusal_changes_nothing(s: SessionView, tag: Text)
    ensures
        refused(s, tag).0 == (SessionView { phase: PhaseView::Sending, ..s }),
{
}

// ---------------------------------------------------------------- mailboxes
/// `EXAMINE` is `SELECT` but for the folder being opened to be read only.
pub proof fn examine_is_a_read_only_select(s: SessionView, tag: Text, args: Seq<Text>)
    ensures
        ({
            let select = commanded(s, tag, Command::Select, args);
            let examine = commanded(s, tag, Command::Examine, args);
            match select.1 {
                ActionView::OpenFolder { name, path, examine: read_only } => {
                    &&& !read_only
                    &&& examine.1 == ActionView::OpenFolder { name, path, examine: true }
                    &&& examine.0 == model::waiting(
                        s,
                        PhaseView::Selecting {
                            tag,
                            folder: FolderView { name, path, examine: true },
                        },
                    )
                },
                _ => select == refused(s, tag) && examine == refused(s, tag),
            }
        }),
{
}

/// `DELETE` takes away the directories that `CREATE` with the same name makes,
/// in the same order, after whatever files are in them.
pub proof fn delete_takes_away_what_create_makes(
    s: SessionView,
    tag: Text,
    args: Seq<Text>,
    new_files: Seq<Text>,
    cur_files: Seq<Text>,
)
    requires
        s.maildir is Some,
        args.len() >= 1,
    ensures
        commanded(s, tag, Command::Create, args).0.phase is Changing,
        commanded(s, tag, Command::Delete, args).0.phase is ReadingNew,
        ({
            let made = commanded(s, tag, Command::Create, args).0.phase->Changing_changes;
            let read = commanded(s, tag, Command::Delete, args).0.phase;
            let new = read->ReadingNew_new;
            let cur = read->ReadingNew_cur;
            let gone = model::delete_changes(new, cur, new_files, cur_files);
            &&& made == seq![
                DiskChangeView::MakeDir { path: new, mode: 0o755 },
                DiskChangeView::MakeDir { path: cur, mode: 0o755 },
            ]
            &&& gone.len() == new_files.len() + cur_files.len() + 2
            &&& gone.subrange(gone.len() - 2, gone.len() as int) == seq![
                DiskChangeView::RemoveDir(new),
                DiskChangeView::RemoveDir(cur),
            ]
        }),
{
    let read = commanded(s, tag, Command::Delete, args).0.phase;
    let gone = model::delete_changes(
        read->ReadingNew_new,
        read->ReadingNew_cur,
        new_files,
        cur_files,
    );
    assert(gone.subrange(gone.len() - 2, gone.len() as int) =~= seq![
        DiskChangeView::RemoveDir(read->ReadingNew_new),
        DiskChangeView::RemoveDir(read->ReadingNew_cur),
    ]);
}

/// `SELECT` opens the place at which `CREATE` makes its directories, under any
/// name that `INBOX` does not occur in, and under `INBOX` itself.
pub proof fn select_opens_what_create_makes(s: SessionView, tag: Text, args: Seq<Text>)
    requires
        s.maildir is Some,
        args.len() >= 1,
        !occurs(model::unquoted(args[0]), "INBOX"@) || model::unquoted(args[0]) == "INBOX"@,
    ensures
        commanded(s, tag, Command::Select, args).1 is OpenFolder,
        commanded(s, tag, Command::Create, args).0.phase is Changing,
        commanded(s, tag, Command::Create, args).0.phase->Changing_changes
            == model::create_changes(
            commanded(s, tag, Command::Select, args).1->OpenFolder_path,
        ),
{
    let name = model::unquoted(args[0]);
    if name == "INBOX"@ {
        inbox_is_the_mail_directory(s, tag, args);
    } else {
        nothing_to_replace(name, "INBOX"@, ""@);
        nothing_to_replace(name, "INBOX"@, "."@);
    }
}

/// `INBOX` is the mail directory itself: it is opened there, and its
/// directories are made right below it.
pub proof fn inbox_is_the_mail_directory(s: SessionView, tag: Text, args: Seq<Text>)
    requires
        s.maildir is Some,
        args.len() >= 1,
        model::unquoted(args[0]) == "INBOX"@,
    ensures
        commanded(s, tag, Command::Select, args).1 is OpenFolder,
        commanded(s, tag, Command::Select, args).1->OpenFolder_path == normal_path(s.maildir->0),
        commanded(s, tag, Command::Create, args).0.phase is Changing,
        commanded(s, tag, Command::Create, args).0.phase->Changing_changes
            == model::create_changes(normal_path(s.maildir->0)),
{
    reveal_strlit("INBOX");
    reveal_strlit("");
    assert("INBOX"@.take(5) =~= "INBOX"@);
    assert(replaced_first("INBOX"@, "INBOX"@, "."@) =~= "."@);
    assert(replaced_first("INBOX"@, "INBOX"@, ""@) =~= ""@);
    staying_leads_nowhere(s.maildir->0);
}

// ----------------------------------------------------------------- commands
/// Capitals make no difference to which command a word names.
pub proof fn commands_are_named_in_any_case(word: Text)
    ensures
        command_named(lowered(word)) == command_named(word),
{
    assert(lowered(lowered(word)) =~= lowered(word));
}

/// Each command goes by its name.
pub proof fn commands_go_by_their_names(word: Text)
    ensures
        lowered(word) == "noop"@ ==> command_named(word) is Noop,
        lowered(word) == "capability"@ ==> command_named(word) is Capability,
        lowered(word) == "login"@ ==> command_named(word) is Login,
        lowered(word) == "logout"@ ==> command_named(word) is Logout,
        lowered(word) == "select"@ ==> command_named(word) is Select,
        lowered(word) == "examine"@ ==> command_named(word) is Examine,
        lowered(word) == "create"@ ==> command_named(word) is Create,
        lowered(word) == "delete"@ ==> command_named(word) is Delete,
        lowered(word) == "list"@ ==> command_named(word) is List,
        lowered(word) == "check"@ ==> command_named(word) is Check,
        lowered(word) == "close"@ ==> command_named(word) is Close,
        lowered(word) == "expunge"@ ==> command_named(word) is Expunge,
        lowered(word) == "fetch"@ ==> command_named(word) is Fetch,
        lowered(word) == "uid"@ ==> command_named(word) is Uid,
        lowered(word) == "store"@ ==> command_named(word) is Store,
{
    reveal_strlit("noop");
    reveal_strlit("capability");
    reveal_strlit("login");
    reveal_strlit("logout");
    reveal_strlit("select");
    reveal_strlit("examine");
    reveal_strlit("create");
    reveal_strlit("delete");
    reveal_strlit("list");
    reveal_strlit("check");
    reveal_strlit("close");
    reveal_strlit("expunge");
    reveal_strlit("fetch");
    reveal_strlit("uid");
    reveal_strlit("store");
    // Names differ in their length or else in one of their first three letters.
    assert("uid"@.len() == 3);
    assert("noop"@.len() == 4 && "list"@.len() == 4);
    assert("noop"@[0] != "list"@[0]);
    assert("login"@.len() == 5 && "check"@.len() == 5 && "close"@.len() == 5 && "fetch"@.len() == 5 && "store"@.len() == 5);
    assert("login"@[0] != "check"@[0]);
    assert("login"@[0] != "close"@[0]);
    assert("check"@[1] != "close"@[1]);
    assert("login"@[0] != "fetch"@[0]);
    assert("check"@[0] != "fetch"@[0]);
    assert("close"@[0] != "fetch"@[0]);
    assert("login"@[0] != "store"@[0]);
    assert("check"@[0] != "store"@[0]);
    assert("close"@[0] != "store"@[0]);
    assert("fetch"@[0] != "store"@[0]);
    assert("logout"@.len() == 6 && "select"@.len() == 6 && "create"@.len() == 6 && "delete"@.len() == 6);
    assert("logout"@[0] != "select"@[0]);
    assert("logout"@[0] != "create"@[0]);
    assert("select"@[0] != "create"@[0]);
    assert("logout"@[0] != "delete"@[0]);
    assert("select"@[0] != "delete"@[0]);
    assert("create"@[0] != "delete"@[0]);
    assert("examine"@.len() == 7 && "expunge"@.len() == 7);
    assert("examine"@[2] != "expunge"@[2]);
    assert("capability"@.len() == 10);
}

// -------------------------------------------------------------------- flags
/// The name of a flag.
pub open spec fn flag_name(flag: Flag) -> Text {
    match flag {
        Flag::Answered => "\\Answered"@,
        Flag::Deleted => "\\Deleted"@,
        Flag::Draft => "\\Draft"@,
        Flag::Flagged => "\\Flagged"@,
        Flag::Seen => "\\Seen"@,
    }
}

/// All flags.
pub open spec fn all_flags() -> Seq<Flag> {
    seq![Flag::Answered, Flag::Deleted, Flag::Draft, Flag::Flagged, Flag::Seen]
}

/// The responses on a selected folder name every flag there is.
pub proof fn a_selected_folder_shows_every_flag(flag: Flag)
    ensures
        all_flags().contains(flag),
        ({
            let names = joined(all_flags().map_values(|f: Flag| flag_name(f)), ' ');
            &&& "* FLAGS (\\Answered \\Deleted \\Draft \\Flagged \\Seen)\r\n"@ == "* FLAGS ("@
                + names + ")\r\n"@
            &&& "* OK [PERMANENTFLAGS (\\Answered \\Deleted \\Draft \\Flagged \\Seen)] Permanent flags\r\n"@
                == "* OK [PERMANENTFLAGS ("@ + names + ")] Permanent flags\r\n"@
        }),
{
    let all = all_flags();
    match flag {
        Flag::Answered => assert(all[0] == flag),
        Flag::Deleted => assert(all[1] == flag),
        Flag::Draft => assert(all[2] == flag),
        Flag::Flagged => assert(all[3] == flag),
        Flag::Seen => assert(all[4] == flag),
    }
    reveal_strlit("\\Answered");
    reveal_strlit("\\Deleted");
    reveal_strlit("\\Draft");
    reveal_strlit("\\Flagged");
    reveal_strlit("\\Seen");
    reveal_strlit("* FLAGS (");
    reveal_strlit(")\r\n");
    reveal_strlit("* OK [PERMANENTFLAGS (");
    reveal_strlit(")] Permanent flags\r\n");
    reveal_strlit("* FLAGS (\\Answered \\Deleted \\Draft \\Flagged \\Seen)\r\n");
    reveal_strlit(
        "* OK [PERMANENTFLAGS (\\Answered \\Deleted \\Draft \\Flagged \\Seen)] Permanent flags\r\n",
    );
    let list = all.map_values(|f: Flag| flag_name(f));
    reveal_with_fuel(joined, 6);
    assert(list.drop_last().drop_last().drop_last().drop_last() =~= seq![flag_name(all[0])]);
    let names = joined(list, ' ');
    assert(names =~= flag_name(all[0]).push(' ') + flag_name(all[1]).push(' ') + flag_name(
        all[2],
    ).push(' ') + flag_name(all[3]).push(' ') + flag_name(all[4]));
    assert("* FLAGS (\\Answered \\Deleted \\Draft \\Flagged \\Seen)\r\n"@ =~= "* FLAGS ("@ + names
        + ")\r\n"@);
    assert("* OK [PERMANENTFLAGS (\\Answered \\Deleted \\Draft \\Flagged \\Seen)] Permanent flags\r\n"@
        =~= "* OK [PERMANENTFLAGS ("@ + names + ")] Permanent flags\r\n"@);
}

} // verus!
