//! What each command is for: what it asks for and replies, said of its
//! arguments and of what happens.

use crate::action::{ActionView, DiskChangeView};
use crate::command::{command_named, Command};
use crate::courses::{
    a_failed_change_is_the_last, changes_are_made_in_order, follow, following_goes_on, made,
};
use crate::event::{Event, FolderStatus, LoginOutcome, StoreWords};
use crate::listing::{responses, Survey};
use crate::message::Flag;
use crate::model::{
    self, commanded, interpreted, step, FolderView, PhaseView, SessionView, Step,
};
use crate::path::{final_name, joined_path, normal_path};
use crate::pattern::regex_compiles;
use crate::text::{
    a_text_without_separator_is_one_piece, decimal_text, is_space, joined, lowered, pieces,
    pieces_hold_no_separator, pieces_join_to_the_whole, pieces_on_both_sides_of_a_separator,
    replaced, texts, trimmed_of, Text,
};
use crate::wording::{
    a_line_is_read_word_by_word, is_core, quotes_are_read_past, stands_first_after, stands_nowhere,
    what_is_not_there_is_not_replaced, what_is_there_is_replaced,
};
use vstd::prelude::*;

verus! {

// ------------------------------------------------------------------ answers
/// The text goes to the client, and nothing else changes.
pub open spec fn answered(s: SessionView, text: Text) -> Step {
    (SessionView { phase: PhaseView::Sending, ..s }, ActionView::Send(text))
}

/// The command with this tag is turned down, and nothing else changes.
pub open spec fn turned_down(s: SessionView, tag: Text) -> Step {
    answered(s, tag + " BAD Invalid command\r\n"@)
}

/// A session begins with nothing known, greets, answers and ends the
/// connection, and none of that touches anything but what it waits for.
pub proof fn answers_touch_nothing_else(s: SessionView, tag: Text, text: Text, phase: PhaseView)
    ensures
        model::fresh() == (SessionView {
            logout: false,
            maildir: None,
            folder: None,
            phase: PhaseView::Fresh,
        }),
        model::waiting(s, phase) == (SessionView { phase, ..s }),
        model::replied(s, text) == answered(s, text),
        model::refused(s, tag) == turned_down(s, tag),
        model::closed(s) == (SessionView { phase: PhaseView::Closed, ..s }, ActionView::Close),
        model::greeted(s) == (
            SessionView { phase: PhaseView::Greeting, ..s },
            ActionView::Send("* OK Server ready.\r\n"@),
        ),
{
}

/// A line is a tag, the name of a command and its arguments, with single spaces
/// between them and any white space around them. One that is a tag at most is
/// turned down.
pub proof fn a_line_is_a_tag_a_command_and_its_arguments(
    s: SessionView,
    line: Text,
    list: Seq<Text>,
    from: int,
    to: int,
)
    requires
        list.len() > 0,
        forall|i: int| 0 <= i < list.len() ==> !(#[trigger] list[i]).contains(' '),
        0 <= from <= to <= line.len(),
        line.subrange(from, to) == joined(list, ' '),
        forall|i: int| 0 <= i < from || to <= i < line.len() ==> is_space(#[trigger] line[i]),
        from < to ==> !is_space(line[from]) && !is_space(line[to - 1]),
    ensures
        list.len() == 1 ==> interpreted(s, line) == turned_down(s, list[0]),
        list.len() > 1 ==> interpreted(s, line) == commanded(
            s,
            list[0],
            command_named(list[1]),
            list.subrange(2, list.len() as int),
        ),
{
    a_line_is_read_word_by_word(line, list, from, to);
    if list.len() > 1 {
        assert(list.skip(2) =~= list.subrange(2, list.len() as int));
    }
}

/// A command without the arguments that it needs is turned down, and so is
/// what is no command.
pub proof fn too_few_arguments_are_turned_down(
    s: SessionView,
    tag: Text,
    command: Command,
    args: Seq<Text>,
)
    requires
        match command {
            Command::Select | Command::Examine | Command::Create | Command::Delete | Command::Uid => {
                args.len() < 1
            },
            Command::Login | Command::List => args.len() < 2,
            Command::Store => args.len() < 3,
            Command::Unknown => true,
            _ => false,
        },
    ensures
        commanded(s, tag, command, args) == turned_down(s, tag),
{
}

/// `NOOP` and `CAPABILITY` are answered at once, whatever follows them.
pub proof fn noop_and_capability_are_answered(s: SessionView, tag: Text, args: Seq<Text>)
    ensures
        commanded(s, tag, Command::Noop, args) == answered(s, tag + " OK NOOP\r\n"@),
        commanded(s, tag, Command::Capability, args) == answered(
            s,
            "* CAPABILITY IMAP4rev1 CHILDREN\r\n"@ + tag + " OK Capability successful\r\n"@,
        ),
{
}

// -------------------------------------------------------------------- login
/// `LOGIN` asks about its first argument and its second, character for
/// character, but for the quotes around each. Further arguments do not matter.
pub proof fn login_asks_about_name_and_password(
    s: SessionView,
    tag: Text,
    args: Seq<Text>,
    email: Text,
    password: Text,
)
    requires
        args.len() >= 2,
        is_core(args[0], '"', email),
        is_core(args[1], '"', password),
    ensures
        commanded(s, tag, Command::Login, args) == (
            SessionView { phase: PhaseView::LoggingIn { tag, email }, ..s },
            ActionView::Login { email, password },
        ),
{
    quotes_are_read_past(args[0], email);
    quotes_are_read_past(args[1], password);
}

/// A user who gave their own password gets their mail directory and is told so
/// under the name that they gave. After any other attempt nobody is logged in,
/// but after one of a form that no user could have it is as it was before.
pub proof fn login_takes_the_mail_directory_of_the_user(
    s: SessionView,
    tag: Text,
    email: Text,
    maildir: String,
    args: Seq<Text>,
    password: Text,
)
    requires
        args.len() >= 2,
        is_core(args[0], '"', email),
        is_core(args[1], '"', password),
    ensures
        ({
            let asked = commanded(s, tag, Command::Login, args).0;
            let welcome = tag + " OK logged in successfully as "@ + email + "\r\n"@;
            let no = tag + " NO invalid username or password\r\n"@;
            let known = |verified: bool|
                Event::LoginDone(LoginOutcome::Known { verified, maildir });
            &&& step(asked, known(true)) == answered(
                SessionView { maildir: Some(maildir@), ..s },
                welcome,
            )
            &&& step(asked, known(false)) == answered(SessionView { maildir: None, ..s }, no)
            &&& step(asked, Event::LoginDone(LoginOutcome::Unknown)) == answered(
                SessionView { maildir: None, ..s },
                no,
            )
            &&& step(asked, Event::LoginDone(LoginOutcome::Malformed)) == answered(s, no)
        }),
{
    login_asks_about_name_and_password(s, tag, args, email, password);
}

// ---------------------------------------------------------------- mailboxes
/// Whether `rest` is the name of a mailbox with `stand_in` in the place of its
/// first `INBOX`, if there is one.
pub open spec fn is_on_disk(name: Text, stand_in: Text, rest: Text) -> bool {
    ||| stands_nowhere(name, "INBOX"@) && rest == name
    ||| exists|before: Text, after: Text|
        {
            &&& name == #[trigger] (before + "INBOX"@ + after)
            &&& stands_first_after(before, "INBOX"@, after)
            &&& rest == before + stand_in + after
        }
}

proof fn inbox_gives_way(name: Text, stand_in: Text, rest: Text)
    requires
        is_on_disk(name, stand_in, rest),
    ensures
        crate::text::replaced_first(name, "INBOX"@, stand_in) == rest,
{
    reveal_strlit("INBOX");
    if stands_nowhere(name, "INBOX"@) && rest == name {
        what_is_not_there_is_not_replaced(name, "INBOX"@, stand_in);
    } else {
        let (before, after) = choose|before: Text, after: Text|
            {
                &&& name == #[trigger] (before + "INBOX"@ + after)
                &&& stands_first_after(before, "INBOX"@, after)
                &&& rest == before + stand_in + after
            };
        what_is_there_is_replaced(before, "INBOX"@, after, stand_in);
    }
}

/// `SELECT` and `EXAMINE` open the folder of their first argument, under that
/// name, at its place below the mail directory. What was opened is the
/// selected folder, and the reply tells its numbers; where nothing could be
/// opened no folder is selected.
pub proof fn select_opens_the_folder(
    s: SessionView,
    tag: Text,
    examine: bool,
    args: Seq<Text>,
    maildir: Text,
    name: Text,
    rest: Text,
    status: FolderStatus,
)
    requires
        s.maildir == Some(maildir),
        args.len() >= 1,
        is_core(args[0], '"', name),
        is_on_disk(name, "."@, rest),
    ensures
        ({
            let command = if examine {
                Command::Examine
            } else {
                Command::Select
            };
            let (asked, action) = commanded(s, tag, command, args);
            let path = joined_path(maildir, rest);
            &&& action == (ActionView::OpenFolder { name, path, examine })
            &&& step(asked, Event::FolderOpened(Some(status))) == answered(
                SessionView { folder: Some(FolderView { name, path, examine }), ..s },
                "* "@ + decimal_text(status.exists as nat) + " EXISTS\r\n* "@ + decimal_text(
                    status.recent as nat,
                ) + " RECENT\r\n"@ + status.unseen@
                    + "* FLAGS (\\Answered \\Deleted \\Draft \\Flagged \\Seen)\r\n"@
                    + "* OK [PERMANENTFLAGS (\\Answered \\Deleted \\Draft \\Flagged \\Seen)] Permanent flags\r\n"@
                    + tag + " OK "@ + status.read_status@ + " SELECT command was successful\r\n"@,
            )
            &&& step(asked, Event::FolderOpened(None)) == answered(
                SessionView { folder: None, ..s },
                tag + " NO error finding mailbox\r\n"@,
            )
        }),
{
    quotes_are_read_past(args[0], name);
    inbox_gives_way(name, "."@, rest);
}

/// `CREATE` makes `new` and then `cur` at the place of the mailbox, and then
/// says so. Where one cannot be made it says that, and makes no more.
pub proof fn create_makes_the_directories(
    s: SessionView,
    tag: Text,
    args: Seq<Text>,
    maildir: Text,
    name: Text,
    rest: Text,
)
    requires
        s.maildir == Some(maildir),
        args.len() >= 1,
        is_core(args[0], '"', name),
        is_on_disk(name, ""@, rest),
    ensures
        ({
            let path = joined_path(maildir, rest);
            let start = commanded(s, tag, Command::Create, args);
            let yes = Event::DiskChanged(true);
            let no = Event::DiskChanged(false);
            let failed = answered(s, tag + " NO Could not create folder.\r\n"@);
            &&& start.1 == ActionView::Change(
                DiskChangeView::MakeDir { path: joined_path(path, "new"@), mode: 0o755 },
            )
            &&& follow(start, seq![yes]).1 == ActionView::Change(
                DiskChangeView::MakeDir { path: joined_path(path, "cur"@), mode: 0o755 },
            )
            &&& follow(start, seq![yes, yes]) == answered(s, tag + " OK CREATE successful.\r\n"@)
            &&& follow(start, seq![no]) == failed
            &&& follow(start, seq![yes, no]) == failed
        }),
{
    quotes_are_read_past(args[0], name);
    inbox_gives_way(name, ""@, rest);
    let yes = Event::DiskChanged(true);
    let no = Event::DiskChanged(false);
    reveal_with_fuel(follow, 3);
    assert(seq![yes].drop_last() =~= Seq::empty());
    assert(seq![no].drop_last() =~= Seq::empty());
    assert(seq![yes, yes].drop_last() =~= seq![yes]);
    assert(seq![yes, no].drop_last() =~= seq![yes]);
}

/// `DELETE` looks into `new` and then into `cur` at the place of the mailbox.
/// Where one of them cannot be read the mailbox is none.
pub proof fn delete_looks_into_the_directories(
    s: SessionView,
    tag: Text,
    args: Seq<Text>,
    maildir: Text,
    name: Text,
    rest: Text,
    new_files: Vec<String>,
)
    requires
        s.maildir == Some(maildir),
        args.len() >= 1,
        is_core(args[0], '"', name),
        is_on_disk(name, ""@, rest),
    ensures
        ({
            let path = joined_path(maildir, rest);
            let start = commanded(s, tag, Command::Delete, args);
            let read = Event::DirectoryRead(Some(new_files));
            let unread = Event::DirectoryRead(None);
            let failed = answered(s, tag + " NO Invalid folder.\r\n"@);
            &&& start.1 == ActionView::ReadDirectory(joined_path(path, "new"@))
            &&& follow(start, seq![unread]) == failed
            &&& follow(start, seq![read]).1 == ActionView::ReadDirectory(joined_path(path, "cur"@))
            &&& follow(start, seq![read, unread]) == failed
        }),
{
    quotes_are_read_past(args[0], name);
    inbox_gives_way(name, ""@, rest);
    let read = Event::DirectoryRead(Some(new_files));
    let unread = Event::DirectoryRead(None);
    reveal_with_fuel(follow, 3);
    assert(seq![read].drop_last() =~= Seq::empty());
    assert(seq![unread].drop_last() =~= Seq::empty());
    assert(seq![read, unread].drop_last() =~= seq![read]);
}

proof fn delete_finds_the_files(
    s: SessionView,
    tag: Text,
    args: Seq<Text>,
    maildir: Text,
    name: Text,
    rest: Text,
    new_files: Vec<String>,
    cur_files: Vec<String>,
)
    requires
        s.maildir == Some(maildir),
        args.len() >= 1,
        is_core(args[0], '"', name),
        is_on_disk(name, ""@, rest),
    ensures
        follow(
            commanded(s, tag, Command::Delete, args),
            seq![Event::DirectoryRead(Some(new_files)), Event::DirectoryRead(Some(cur_files))],
        ) == model::changed_from(
            s,
            model::delete_changes(
                joined_path(joined_path(maildir, rest), "new"@),
                joined_path(joined_path(maildir, rest), "cur"@),
                texts(new_files@),
                texts(cur_files@),
            ),
            0,
            tag + " OK DELETE successsful.\r\n"@,
            tag + " NO Invalid folder.\r\n"@,
        ),
{
    quotes_are_read_past(args[0], name);
    inbox_gives_way(name, ""@, rest);
    let first = Event::DirectoryRead(Some(new_files));
    let second = Event::DirectoryRead(Some(cur_files));
    reveal_with_fuel(follow, 3);
    assert(seq![first, second].drop_last() =~= seq![first]);
    assert(seq![first].drop_last() =~= Seq::empty());
}

proof fn removals_in_order(
    new: Text,
    cur: Text,
    new_files: Seq<String>,
    cur_files: Seq<String>,
    count: nat,
)
    requires
        count < new_files.len() + cur_files.len() + 2,
    ensures
        ({
            let changes = model::delete_changes(new, cur, texts(new_files), texts(cur_files));
            let removed = new_files.len();
            let all = new_files.len() + cur_files.len();
            &&& changes.len() == all + 2
            &&& changes[count as int] == if count < removed {
                DiskChangeView::Unlink(new_files[count as int]@)
            } else if count < all {
                DiskChangeView::Unlink(cur_files[count - removed]@)
            } else if count == all {
                DiskChangeView::RemoveDir(new)
            } else {
                DiskChangeView::RemoveDir(cur)
            }
        }),
{
}

/// Then it removes every file that it found in `new`, every file that it found
/// in `cur`, and at last the two directories, one after the other; where one
/// cannot be removed it says so, and removes no more.
pub proof fn delete_removes_every_file(
    s: SessionView,
    tag: Text,
    args: Seq<Text>,
    maildir: Text,
    name: Text,
    rest: Text,
    new_files: Vec<String>,
    cur_files: Vec<String>,
    count: nat,
)
    requires
        s.maildir == Some(maildir),
        args.len() >= 1,
        is_core(args[0], '"', name),
        is_on_disk(name, ""@, rest),
        count < new_files@.len() + cur_files@.len() + 2,
    ensures
        ({
            let path = joined_path(maildir, rest);
            let start = commanded(s, tag, Command::Delete, args);
            let found = seq![
                Event::DirectoryRead(Some(new_files)),
                Event::DirectoryRead(Some(cur_files)),
            ];
            let removed = new_files@.len();
            let all = new_files@.len() + cur_files@.len();
            &&& follow(start, found + made(count)).1 == ActionView::Change(
                if count < removed {
                    DiskChangeView::Unlink(new_files@[count as int]@)
                } else if count < all {
                    DiskChangeView::Unlink(cur_files@[count - removed]@)
                } else if count == all {
                    DiskChangeView::RemoveDir(joined_path(path, "new"@))
                } else {
                    DiskChangeView::RemoveDir(joined_path(path, "cur"@))
                },
            )
            &&& follow(start, found + made(count) + seq![Event::DiskChanged(false)]) == answered(
                s,
                tag + " NO Invalid folder.\r\n"@,
            )
            &&& follow(start, found + made(all + 2)) == answered(
                s,
                tag + " OK DELETE successsful.\r\n"@,
            )
        }),
{
    let start = commanded(s, tag, Command::Delete, args);
    let path = joined_path(maildir, rest);
    let new = joined_path(path, "new"@);
    let cur = joined_path(path, "cur"@);
    let found = seq![
        Event::DirectoryRead(Some(new_files)),
        Event::DirectoryRead(Some(cur_files)),
    ];
    let changes = model::delete_changes(new, cur, texts(new_files@), texts(cur_files@));
    let success = tag + " OK DELETE successsful.\r\n"@;
    let failure = tag + " NO Invalid folder.\r\n"@;
    let all = new_files@.len() + cur_files@.len();
    delete_finds_the_files(s, tag, args, maildir, name, rest, new_files, cur_files);
    removals_in_order(new, cur, new_files@, cur_files@, count);
    following_goes_on(start, found, made(count));
    following_goes_on(start, found, made(all + 2));
    changes_are_made_in_order(s, changes, success, failure, count);
    changes_are_made_in_order(s, changes, success, failure, all + 2);
    let failing = made(count).push(Event::DiskChanged(false));
    following_goes_on(start, found, failing);
    a_failed_change_is_the_last(s, changes, success, failure, count);
    assert(found + made(count) + seq![Event::DiskChanged(false)] =~= found + failing);
}

// --------------------------------------------------------------------- list
/// The mailbox with `.*` for each `*`, with `[^/]*` for each `%`, and with
/// every other character as it is.
pub open spec fn wildcards(mailbox: Text) -> Text
    decreases mailbox.len(),
{
    if mailbox.len() == 0 {
        Seq::empty()
    } else {
        let rest = wildcards(mailbox.skip(1));
        if mailbox[0] == '*' {
            seq!['.', '*'] + rest
        } else if mailbox[0] == '%' {
            seq!['[', '^', '/', ']', '*'] + rest
        } else {
            seq![mailbox[0]] + rest
        }
    }
}

proof fn replaced_past(c: char, rest: Text, from: Text, to: Text)
    requires
        from.len() == 1,
        from[0] != c,
    ensures
        replaced(seq![c] + rest, from, to) == seq![c] + replaced(rest, from, to),
{
    let s = seq![c] + rest;
    assert(s.take(1)[0] == c);
    assert(s.skip(1) =~= rest);
}

proof fn replaced_here(rest: Text, from: Text, to: Text)
    requires
        from.len() == 1,
    ensures
        replaced(from + rest, from, to) == to + replaced(rest, from, to),
{
    let s = from + rest;
    assert(s.take(1) =~= from);
    assert(s.skip(1) =~= rest);
}

proof fn wildcards_are_replaced(mailbox: Text)
    ensures
        replaced(replaced(mailbox, "*"@, ".*"@), "%"@, "[^/]*"@) == wildcards(mailbox),
    decreases mailbox.len(),
{
    reveal_strlit("*");
    reveal_strlit("%");
    reveal_strlit(".*");
    reveal_strlit("[^/]*");
    if mailbox.len() > 0 {
        let c = mailbox[0];
        let rest = mailbox.skip(1);
        let dotted = replaced(rest, "*"@, ".*"@);
        wildcards_are_replaced(rest);
        assert(mailbox =~= seq![c] + rest);
        assert("[^/]*"@ =~= seq!['[', '^', '/', ']', '*']);
        if c == '*' {
            assert(seq![c] =~= "*"@);
            replaced_here(rest, "*"@, ".*"@);
            assert(".*"@ + dotted =~= seq!['.'] + (seq!['*'] + dotted));
            replaced_past('.', seq!['*'] + dotted, "%"@, "[^/]*"@);
            replaced_past('*', dotted, "%"@, "[^/]*"@);
            assert(seq!['.'] + (seq!['*'] + wildcards(rest)) =~= wildcards(mailbox));
        } else {
            replaced_past(c, rest, "*"@, ".*"@);
            if c == '%' {
                assert(seq![c] =~= "%"@);
                replaced_here(dotted, "%"@, "[^/]*"@);
            } else {
                replaced_past(c, dotted, "%"@, "[^/]*"@);
            }
        }
    }
}

/// Text in which nothing stands for anything else is left as it is.
pub proof fn what_is_no_wildcard_stays(mailbox: Text)
    requires
        !mailbox.contains('*'),
        !mailbox.contains('%'),
    ensures
        wildcards(mailbox) == mailbox,
    decreases mailbox.len(),
{
    if mailbox.len() > 0 {
        let rest = mailbox.skip(1);
        assert(mailbox.contains(mailbox[0]));
        assert forall|i: int| 0 <= i < rest.len() implies rest[i] != '*' && rest[i] != '%' by {
            assert(mailbox.contains(mailbox[i + 1]));
        }
        what_is_no_wildcard_stays(rest);
        assert(seq![mailbox[0]] + rest =~= mailbox);
    }
}

/// `LIST` looks through the mail directory for paths that end in its name, the
/// reference and the mailbox, with a slash or none between them. The reference
/// is taken as it is; in the mailbox each wildcard stands for what it may
/// match, `INBOX` for nothing, and every other character for itself. Where
/// that makes no valid pattern the command is turned down.
pub proof fn list_looks_for_the_mailbox(
    s: SessionView,
    tag: Text,
    args: Seq<Text>,
    maildir: Text,
    root_name: Text,
    reference: Text,
    mailbox: Text,
)
    requires
        s.maildir == Some(maildir),
        final_name(maildir) == Some(root_name),
        args.len() >= 2,
        is_core(args[0], '"', reference),
        is_core(args[1], '"', mailbox),
        mailbox.len() > 0,
    ensures
        ({
            let pattern = root_name + "/?"@ + reference + "/?"@ + replaced(
                wildcards(mailbox),
                "INBOX"@,
                ""@,
            ) + "$"@;
            commanded(s, tag, Command::List, args) == if regex_compiles(pattern) {
                (
                    SessionView { phase: PhaseView::Surveying { tag, pattern }, ..s },
                    ActionView::Survey(normal_path(maildir)),
                )
            } else {
                turned_down(s, tag)
            }
        }),
{
    quotes_are_read_past(args[0], reference);
    quotes_are_read_past(args[1], mailbox);
    wildcards_are_replaced(mailbox);
}

/// A mailbox without a wildcard and without `INBOX` is looked for by its own
/// name, character for character.
pub proof fn list_looks_for_a_plain_name_as_it_is(
    s: SessionView,
    tag: Text,
    args: Seq<Text>,
    maildir: Text,
    root_name: Text,
    reference: Text,
    mailbox: Text,
)
    requires
        s.maildir == Some(maildir),
        final_name(maildir) == Some(root_name),
        args.len() >= 2,
        is_core(args[0], '"', reference),
        is_core(args[1], '"', mailbox),
        mailbox.len() > 0,
        !mailbox.contains('*'),
        !mailbox.contains('%'),
        stands_nowhere(mailbox, "INBOX"@),
    ensures
        ({
            let pattern = root_name + "/?"@ + reference + "/?"@ + mailbox + "$"@;
            commanded(s, tag, Command::List, args) == if regex_compiles(pattern) {
                (
                    SessionView { phase: PhaseView::Surveying { tag, pattern }, ..s },
                    ActionView::Survey(normal_path(maildir)),
                )
            } else {
                turned_down(s, tag)
            }
        }),
{
    list_looks_for_the_mailbox(s, tag, args, maildir, root_name, reference, mailbox);
    what_is_no_wildcard_stays(mailbox);
    what_is_not_there_is_not_replaced(mailbox, "INBOX"@, ""@);
}

/// A `LIST` without a mailbox only tells what separates the parts of a name.
pub proof fn list_without_a_mailbox_tells_the_separator(
    s: SessionView,
    tag: Text,
    args: Seq<Text>,
    reference: Text,
)
    requires
        s.maildir is Some,
        args.len() >= 2,
        is_core(args[0], '"', reference),
        is_core(args[1], '"', Seq::empty()),
    ensures
        commanded(s, tag, Command::List, args) == answered(
            s,
            "* LIST (\\Noselect) \"/\" \""@ + reference + "\"\r\n"@ + tag
                + " OK List successful\r\n"@,
        ),
{
    quotes_are_read_past(args[0], reference);
    quotes_are_read_past(args[1], Seq::empty());
}

/// Lines come one after the other, each with its end.
pub proof fn each_line_has_its_end(a: Seq<Text>, b: Seq<Text>, line: Text)
    ensures
        model::lines(Seq::empty()) == Seq::<char>::empty(),
        model::lines(seq![line]) == line + "\r\n"@,
        model::lines(a + b) == model::lines(a) + model::lines(b),
    decreases b.len(),
{
    reveal_with_fuel(model::lines, 2);
    assert(seq![line].drop_last() =~= Seq::empty());
    assert(model::lines(seq![line]) =~= line + "\r\n"@);
    if b.len() == 0 {
        assert(a + b =~= a);
    } else {
        assert((a + b).drop_last() =~= a + b.drop_last());
        each_line_has_its_end(a, b.drop_last(), line);
    }
    assert(model::lines(a + b) =~= model::lines(a) + model::lines(b));
}

/// The reply to a `LIST` is a line for each response on what was found with
/// its pattern.
pub proof fn list_replies_with_what_was_found(
    s: SessionView,
    tag: Text,
    pattern: Text,
    maildir: Text,
    survey: Survey,
)
    requires
        s.phase == (PhaseView::Surveying { tag, pattern }),
        s.maildir == Some(maildir),
    ensures
        step(s, Event::Surveyed(survey)) == answered(
            s,
            model::lines(responses(Some(maildir), survey, pattern)) + tag
                + " OK list successful\r\n"@,
        ),
{
}

/// A `LIST` that was prepared by others is begun with their pattern, or turned
/// down where it is not valid.
pub proof fn a_prepared_list_keeps_its_pattern(
    s: SessionView,
    tag: Text,
    maildir: Text,
    pattern: Text,
)
    ensures
        model::list_started(s, tag, maildir, pattern, true) == (
            SessionView { phase: PhaseView::Surveying { tag, pattern }, ..s },
            ActionView::Survey(normal_path(maildir)),
        ),
        model::list_started(s, tag, maildir, pattern, false) == turned_down(s, tag),
{
}

// ------------------------------------------------------------------ expunge
/// The numbers of messages that are gone come one after the other, each on a
/// line.
pub proof fn each_expunged_number_has_its_line(a: Seq<usize>, b: Seq<usize>, number: usize)
    ensures
        model::expunge_lines(Seq::empty()) == Seq::<char>::empty(),
        model::expunge_lines(seq![number]) == "* "@ + decimal_text(number as nat)
            + " EXPUNGE\r\n"@,
        model::expunge_lines(a + b) == model::expunge_lines(a) + model::expunge_lines(b),
    decreases b.len(),
{
    reveal_with_fuel(model::expunge_lines, 2);
    assert(seq![number].drop_last() =~= Seq::empty());
    assert(model::expunge_lines(seq![number]) =~= "* "@ + decimal_text(number as nat)
        + " EXPUNGE\r\n"@);
    if b.len() == 0 {
        assert(a + b =~= a);
    } else {
        assert((a + b).drop_last() =~= a + b.drop_last());
        each_expunged_number_has_its_line(a, b.drop_last(), number);
    }
    assert(model::expunge_lines(a + b) =~= model::expunge_lines(a) + model::expunge_lines(b));
}

/// `EXPUNGE`, `CHECK` and `CLOSE` expunge the selected folder first; the last
/// two then bring it up to date.
pub proof fn the_folder_is_expunged_first(
    s: SessionView,
    tag: Text,
    command: Command,
    args: Seq<Text>,
    numbers: Vec<usize>,
)
    requires
        command is Expunge || command is Check || command is Close,
    ensures
        ({
            let start = commanded(s, tag, command, args);
            let next = step(start.0, Event::Expunged(numbers));
            let done = step(next.0, Event::Synchronized);
            &&& s.folder is None ==> start == turned_down(s, tag)
            &&& s.folder is Some ==> start.1 is Expunge
            &&& s.folder is Some && command is Expunge ==> next == answered(
                s,
                model::expunge_lines(numbers@) + tag + " OK expunge completed\r\n"@,
            )
            &&& s.folder is Some && command !is Expunge ==> next.1 is Synchronize
            &&& s.folder is Some && command is Check ==> done == answered(
                s,
                tag + " OK Check completed\r\n"@,
            )
            &&& s.folder is Some && command is Close ==> done == answered(
                SessionView { folder: None, ..s },
                tag + " OK close completed\r\n"@,
            )
        }),
{
}

/// `LOGOUT` expunges the selected folder, if there is one, and says goodbye.
pub proof fn logout_says_goodbye(s: SessionView, tag: Text, args: Seq<Text>, numbers: Vec<usize>)
    ensures
        ({
            let start = commanded(s, tag, Command::Logout, args);
            let goodbye = answered(
                SessionView { logout: true, ..s },
                "* BYE Server logging out\r\n"@ + tag + " OK Server logged out\r\n"@,
            );
            &&& s.folder is None ==> start == goodbye
            &&& s.folder is Some ==> start.1 is Expunge && start.0.logout
            &&& s.folder is Some ==> step(start.0, Event::Expunged(numbers)) == goodbye
        }),
{
}

// -------------------------------------------------------------------- store
/// A `STORE` with these arguments, or a `UID STORE`.
pub open spec fn store_command(
    s: SessionView,
    tag: Text,
    word: Text,
    args: Seq<Text>,
    uid: bool,
) -> Step {
    if uid {
        commanded(s, tag, Command::Uid, seq![word] + args)
    } else {
        commanded(s, tag, Command::Store, args)
    }
}

proof fn store_commands_are_stores(s: SessionView, tag: Text, word: Text, args: Seq<Text>, uid: bool)
    requires
        command_named(word) is Store,
    ensures
        store_command(s, tag, word, args, uid) == model::store_asked(s, tag, args, uid),
{
    assert((seq![word] + args).skip(1) =~= args);
}

/// A text with exactly one separator has two pieces.
proof fn two_pieces(s: Text, front: Text, back: Text, sep: char)
    requires
        s == front + seq![sep] + back,
        !front.contains(sep),
        !back.contains(sep),
    ensures
        pieces(s, sep) == seq![front, back],
{
    pieces_on_both_sides_of_a_separator(front, back, sep);
    a_text_without_separator_is_one_piece(front, sep);
    a_text_without_separator_is_one_piece(back, sep);
    assert(seq![front] + seq![back] =~= seq![front, back]);
}

/// `STORE` and `UID STORE` have the set, the data item and the flags parsed.
/// The data item is read in small letters; it is taken by its name, and kept
/// quiet about if `.SILENT` follows that. Parentheses around the flags are
/// left out.
pub proof fn store_reads_set_item_and_flags(
    s: SessionView,
    tag: Text,
    word: Text,
    args: Seq<Text>,
    uid: bool,
    set: Text,
    item: Text,
    name: Text,
    silent: bool,
    value: Text,
)
    requires
        command_named(word) is Store,
        args.len() >= 3,
        is_core(args[0], '"', set),
        is_core(args[1], '"', item),
        is_core(args[2], '"', value),
        !name.contains('.'),
        lowered(item) == if silent {
            name + ".silent"@
        } else {
            name
        },
    ensures
        store_command(s, tag, word, args, uid) == (
            SessionView { phase: PhaseView::ParsingStore { tag, silent, uid }, ..s },
            ActionView::ParseStore {
                sequence_set: set,
                name,
                words: pieces(trimmed_of(trimmed_of(value, '('), ')'), ' '),
            },
        ),
{
    store_commands_are_stores(s, tag, word, args, uid);
    quotes_are_read_past(args[0], set);
    quotes_are_read_past(args[1], item);
    quotes_are_read_past(args[2], value);
    if silent {
        reveal_strlit("silent");
        reveal_strlit(".silent");
        let back = seq!['s', 'i', 'l', 'e', 'n', 't'];
        assert("silent"@ =~= back);
        assert(lowered(item) =~= name + seq!['.'] + back);
        assert forall|i: int| 0 <= i < back.len() implies back[i] != '.' by {}
        two_pieces(lowered(item), name, back, '.');
    } else {
        a_text_without_separator_is_one_piece(name, '.');
    }
}

/// A data item with anything behind a dot but one `.SILENT` is turned down.
pub proof fn store_turns_other_items_down(
    s: SessionView,
    tag: Text,
    word: Text,
    args: Seq<Text>,
    uid: bool,
    item: Text,
)
    requires
        command_named(word) is Store,
        args.len() >= 3,
        is_core(args[1], '"', item),
        lowered(item).contains('.'),
        forall|name: Text|
            !name.contains('.') ==> lowered(item) != #[trigger] (name + ".silent"@),
    ensures
        store_command(s, tag, word, args, uid) == turned_down(s, tag),
{
    store_commands_are_stores(s, tag, word, args, uid);
    quotes_are_read_past(args[1], item);
    let text = lowered(item);
    let parts = pieces(text, '.');
    pieces_join_to_the_whole(text, '.');
    if parts.len() == 1 {
        pieces_hold_no_separator(text, '.', 0);
        assert(joined(parts, '.') == parts[0]);
    } else if parts.len() == 2 {
        pieces_hold_no_separator(text, '.', 0);
        reveal_strlit("silent");
        reveal_strlit(".silent");
        reveal_with_fuel(joined, 2);
        assert(parts.drop_last() =~= seq![parts[0]]);
        if parts[1] == "silent"@ {
            assert(text =~= parts[0] + ".silent"@);
        }
    }
}

/// What was parsed is done to the messages of the set: the flags that are
/// known are stored in the mode that the data item means, silently if it was
/// said so, by UID exactly for a `UID STORE`; and what comes back stands in the
/// reply. Nothing is stored without a folder, or where the set or the data item
/// could not be parsed.
pub proof fn store_does_what_was_parsed(
    s: SessionView,
    tag: Text,
    word: Text,
    args: Seq<Text>,
    uid: bool,
    item: Text,
    name: Text,
    silent: bool,
    parsed: StoreWords,
    sequence: Vec<usize>,
    text: String,
)
    requires
        command_named(word) is Store,
        args.len() >= 3,
        is_core(args[1], '"', item),
        !name.contains('.'),
        lowered(item) == if silent {
            name + ".silent"@
        } else {
            name
        },
    ensures
        ({
            let start = store_command(s, tag, word, args, uid);
            let read = step(start.0, Event::StoreParsed(parsed));
            let listed = step(read.0, Event::Expanded(sequence));
            let done = step(listed.0, Event::Stored(text));
            if s.folder is Some && parsed.mode is Some && parsed.sequence_set is Some {
                &&& read.1 == (ActionView::Expand { items: parsed.sequence_set->0@, bound: None })
                &&& listed.1 is Store
                &&& listed.1->Store_sequence == sequence@
                &&& listed.1->Store_mode == parsed.mode->0
                &&& listed.1->Store_silent == silent
                &&& listed.1->Store_uid == uid
                &&& forall|flag: Flag| #[trigger]
                    listed.1->Store_flags.contains(flag) <==> parsed.flags@.contains(Some(flag))
                &&& done == answered(s, text@ + tag + " OK STORE complete\r\n"@)
            } else {
                read == turned_down(s, tag)
            }
        }),
{
    store_commands_are_stores(s, tag, word, args, uid);
    quotes_are_read_past(args[1], item);
    if silent {
        reveal_strlit("silent");
        reveal_strlit(".silent");
        let back = seq!['s', 'i', 'l', 'e', 'n', 't'];
        assert("silent"@ =~= back);
        assert(lowered(item) =~= name + seq!['.'] + back);
        assert forall|i: int| 0 <= i < back.len() implies back[i] != '.' by {}
        two_pieces(lowered(item), name, back, '.');
    } else {
        a_text_without_separator_is_one_piece(name, '.');
    }
}

/// `UID` is for `FETCH` and `STORE` only.
pub proof fn nothing_else_goes_by_uid(s: SessionView, tag: Text, args: Seq<Text>)
    requires
        args.len() > 0,
        command_named(args[0]) !is Fetch,
        command_named(args[0]) !is Store,
    ensures
        commanded(s, tag, Command::Uid, args) == turned_down(s, tag),
{
}

} // verus!
