//! What the arguments of a command have to do with its outcome.

use crate::action::ActionView;
use crate::command::Command;
use crate::courses::follow;
use crate::event::{Event, FolderStatus};
use crate::model::{
    self, commanded, replied, select_asked, store_asked, unquoted, FolderView, SessionView,
};
use crate::text::{
    decimal_text, lowered, trimming_keeps_the_case, trimming_twice_is_trimming_once,
    what_is_put_around_is_trimmed, Text,
};
use vstd::prelude::*;

verus! {

// ------------------------------------------------------------------- quotes
/// The word in quotes.
pub open spec fn quoted(word: Text) -> Text {
    seq!['"'] + word.push('"')
}

/// Whether `other` is `word`, or that in quotes.
pub open spec fn same_but_for_quotes(word: Text, other: Text) -> bool {
    other == word || other == quoted(word)
}

/// Quotes around a word are taken off, and there is nothing more to take off
/// then.
pub proof fn quotes_are_taken_off(word: Text)
    ensures
        unquoted(quoted(word)) == unquoted(word),
        unquoted(unquoted(word)) == unquoted(word),
{
    what_is_put_around_is_trimmed(word, '"');
    trimming_twice_is_trimming_once(word, '"');
}

/// Quotes around any of its arguments make no difference to a command, but for
/// `FETCH` and `UID`, whose arguments are handed on as they are.
pub proof fn quotes_make_no_difference(
    s: SessionView,
    tag: Text,
    command: Command,
    args: Seq<Text>,
    other: Seq<Text>,
)
    requires
        command !is Fetch,
        command !is Uid,
        other.len() == args.len(),
        forall|i: int|
            0 <= i < args.len() ==> same_but_for_quotes(#[trigger] args[i], #[trigger] other[i]),
    ensures
        commanded(s, tag, command, other) == commanded(s, tag, command, args),
{
    if args.len() > 0 {
        quotes_are_taken_off(args[0]);
        assert(same_but_for_quotes(args[0], other[0]));
    }
    if args.len() > 1 {
        quotes_are_taken_off(args[1]);
        assert(same_but_for_quotes(args[1], other[1]));
    }
    if args.len() > 2 {
        quotes_are_taken_off(args[2]);
        assert(same_but_for_quotes(args[2], other[2]));
    }
}

// -------------------------------------------------------------------- store
/// A `STORE` goes by its first three arguments.
pub proof fn a_store_has_three_arguments(s: SessionView, tag: Text, args: Seq<Text>, uid: bool)
    requires
        args.len() >= 3,
    ensures
        store_asked(s, tag, args, uid) == store_asked(s, tag, args.take(3), uid),
{
}

/// To a `STORE` it makes no difference whether its first three arguments are
/// in quotes, nor whether the data item is in capitals.
pub proof fn a_store_is_read_without_quotes_and_capitals(
    s: SessionView,
    tag: Text,
    args: Seq<Text>,
    other: Seq<Text>,
    uid: bool,
)
    requires
        args.len() >= 3,
        other.len() >= 3,
        same_but_for_quotes(args[0], other[0]),
        lowered(other[1]) == lowered(args[1]) || lowered(other[1]) == lowered(quoted(args[1])),
        same_but_for_quotes(args[2], other[2]),
    ensures
        store_asked(s, tag, other, uid) == store_asked(s, tag, args, uid),
{
    quotes_are_taken_off(args[0]);
    quotes_are_taken_off(args[1]);
    quotes_are_taken_off(args[2]);
    trimming_keeps_the_case(args[1]);
    trimming_keeps_the_case(other[1]);
    trimming_keeps_the_case(quoted(args[1]));
    assert(lowered(unquoted(other[1])) == lowered(unquoted(args[1])));
}

// ------------------------------------------------------------------- select
/// `SELECT` and `EXAMINE` go by their first argument without its quotes.
pub proof fn a_selection_goes_by_its_first_argument(
    s: SessionView,
    tag: Text,
    args: Seq<Text>,
    examine: bool,
)
    requires
        args.len() >= 1,
    ensures
        select_asked(s, tag, args, examine) == select_asked(
            s,
            tag,
            seq![unquoted(args[0])],
            examine,
        ),
{
    quotes_are_taken_off(args[0]);
}

/// A selection leaves the mail directory and the wish to log out as they were,
/// whatever comes of it; the folder is the one that was asked for, or none.
pub proof fn a_selection_changes_the_folder_only(
    s: SessionView,
    tag: Text,
    args: Seq<Text>,
    examine: bool,
    status: Option<FolderStatus>,
)
    requires
        s.maildir is Some,
        args.len() >= 1,
    ensures
        ({
            let (asked, action) = select_asked(s, tag, args, examine);
            let (done, _) = model::step(asked, Event::FolderOpened(status));
            &&& action is OpenFolder
            &&& asked.maildir == s.maildir && asked.logout == s.logout && asked.folder == s.folder
            &&& done.maildir == s.maildir && done.logout == s.logout
            &&& done.folder == if status is Some {
                Some(
                    FolderView {
                        name: unquoted(args[0]),
                        path: action->OpenFolder_path,
                        examine,
                    },
                )
            } else {
                None
            }
        }),
{
}

/// The reply on a folder that was selected, up to its read status.
pub open spec fn select_front(tag: Text, exists: usize, recent: usize, unseen: Text) -> Text {
    "* "@ + decimal_text(exists as nat) + " EXISTS\r\n* "@ + decimal_text(recent as nat)
        + " RECENT\r\n"@ + unseen + "* FLAGS (\\Answered \\Deleted \\Draft \\Flagged \\Seen)\r\n"@
        + "* OK [PERMANENTFLAGS (\\Answered \\Deleted \\Draft \\Flagged \\Seen)] Permanent flags\r\n"@
        + tag + " OK "@
}

/// The replies to `SELECT` and `EXAMINE` on the same folder differ in the read
/// status and in nothing else, and where it cannot be opened they are the same.
pub proof fn select_and_examine_differ_in_the_read_status(
    s: SessionView,
    tag: Text,
    args: Seq<Text>,
    writable: FolderStatus,
    read_only: FolderStatus,
)
    requires
        s.maildir is Some,
        args.len() >= 1,
        writable.exists == read_only.exists,
        writable.recent == read_only.recent,
        writable.unseen@ == read_only.unseen@,
    ensures
        ({
            let select = commanded(s, tag, Command::Select, args);
            let examine = commanded(s, tag, Command::Examine, args);
            let front = select_front(tag, writable.exists, writable.recent, writable.unseen@);
            let end = " SELECT command was successful\r\n"@;
            let gone = replied(
                SessionView { folder: None, ..s },
                tag + " NO error finding mailbox\r\n"@,
            );
            &&& follow(select, seq![Event::FolderOpened(Some(writable))]).1 == ActionView::Send(
                front + writable.read_status@ + end,
            )
            &&& follow(examine, seq![Event::FolderOpened(Some(read_only))]).1 == ActionView::Send(
                front + read_only.read_status@ + end,
            )
            &&& follow(select, seq![Event::FolderOpened(None)]) == gone
            &&& follow(examine, seq![Event::FolderOpened(None)]) == gone
        }),
{
    reveal_with_fuel(follow, 2);
    assert(seq![Event::FolderOpened(Some(writable))].drop_last() =~= Seq::empty());
    assert(seq![Event::FolderOpened(Some(read_only))].drop_last() =~= Seq::empty());
    assert(seq![Event::FolderOpened(None)].drop_last() =~= Seq::empty());
}

} // verus!
