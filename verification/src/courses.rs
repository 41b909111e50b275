//! Whole commands, from the line of the client to the reply.

use crate::action::{ActionView, DiskChangeView};
use crate::command::{
    body_sections, command_named, open_range_start, some_beyond, Command, FetchCommand,
};
use crate::event::{Event, StoreWords};
use crate::message::known_flags;
use crate::model::{
    self, commanded, replied, step, waiting, BatchView, PhaseView, SessionView, SpanView, Step,
};
use crate::path::joined_path;
use crate::text::{decimal_text, texts, Text};
use vstd::prelude::*;

verus! {

/// Where the events lead from `start`, one after the other.
pub open spec fn follow(start: Step, events: Seq<Event>) -> Step
    decreases events.len(),
{
    if events.len() == 0 {
        start
    } else {
        step(follow(start, events.drop_last()).0, events.last())
    }
}

/// To follow events and then more is to follow them all.
pub proof fn following_goes_on(start: Step, events: Seq<Event>, more: Seq<Event>)
    ensures
        follow(start, events + more) == follow(follow(start, events), more),
    decreases more.len(),
{
    if more.len() == 0 {
        assert(events + more =~= events);
    } else {
        assert((events + more).drop_last() =~= events + more.drop_last());
        following_goes_on(start, events, more.drop_last());
    }
}

// ------------------------------------------------------- changes on disk
/// As many changes that were made.
pub open spec fn made(count: nat) -> Seq<Event> {
    Seq::new(count, |i: int| Event::DiskChanged(true))
}

/// The changes are made in their order, and after the last comes the reply
/// that all went well.
pub proof fn changes_are_made_in_order(
    s: SessionView,
    changes: Seq<DiskChangeView>,
    success: Text,
    failure: Text,
    count: nat,
)
    requires
        count <= changes.len(),
    ensures
        follow(model::changed_from(s, changes, 0, success, failure), made(count))
            == model::changed_from(s, changes, count, success, failure),
    decreases count,
{
    if count > 0 {
        let before = (count - 1) as nat;
        changes_are_made_in_order(s, changes, success, failure, before);
        assert(made(count).drop_last() =~= made(before));
    }
}

/// After a change that cannot be made no other is, and the reply says so.
pub proof fn a_failed_change_is_the_last(
    s: SessionView,
    changes: Seq<DiskChangeView>,
    success: Text,
    failure: Text,
    count: nat,
)
    requires
        count < changes.len(),
    ensures
        follow(
            model::changed_from(s, changes, 0, success, failure),
            made(count).push(Event::DiskChanged(false)),
        ) == replied(s, failure),
{
    changes_are_made_in_order(s, changes, success, failure, count);
    assert(made(count).push(Event::DiskChanged(false)).drop_last() =~= made(count));
}

/// `CREATE` makes both directories and then says so.
pub proof fn create_from_line_to_reply(s: SessionView, tag: Text, args: Seq<Text>)
    requires
        s.maildir is Some,
        args.len() >= 1,
    ensures
        follow(commanded(s, tag, Command::Create, args), made(2)) == replied(
            s,
            tag + " OK CREATE successful.\r\n"@,
        ),
{
    let changes = model::create_changes(
        model::mailbox_path(s.maildir->0, model::unquoted(args[0])),
    );
    changes_are_made_in_order(
        s,
        changes,
        tag + " OK CREATE successful.\r\n"@,
        tag + " NO Could not create folder.\r\n"@,
        2,
    );
}

/// `DELETE` removes every file of both directories, and both directories, and
/// then says so.
pub proof fn delete_from_line_to_reply(
    s: SessionView,
    tag: Text,
    args: Seq<Text>,
    new_files: Vec<String>,
    cur_files: Vec<String>,
)
    requires
        s.maildir is Some,
        args.len() >= 1,
    ensures
        follow(
            commanded(s, tag, Command::Delete, args),
            seq![
                Event::DirectoryRead(Some(new_files)),
                Event::DirectoryRead(Some(cur_files)),
            ] + made(new_files@.len() + cur_files@.len() + 2),
        ) == replied(s, tag + " OK DELETE successsful.\r\n"@),
{
    let start = commanded(s, tag, Command::Delete, args);
    let path = model::mailbox_path(s.maildir->0, model::unquoted(args[0]));
    let new = joined_path(path, "new"@);
    let cur = joined_path(path, "cur"@);
    let first = Event::DirectoryRead(Some(new_files));
    let second = Event::DirectoryRead(Some(cur_files));
    let changes = model::delete_changes(
        new,
        cur,
        texts(new_files@),
        texts(cur_files@),
    );
    let success = tag + " OK DELETE successsful.\r\n"@;
    let failure = model::delete_refused(tag);
    reveal_with_fuel(follow, 3);
    assert(seq![first, second].drop_last() =~= seq![first]);
    assert(follow(start, seq![first, second]) == model::changed_from(
        s,
        changes,
        0,
        success,
        failure,
    ));
    let count = new_files@.len() + cur_files@.len() + 2;
    following_goes_on(start, seq![first, second], made(count));
    changes_are_made_in_order(s, changes, success, failure, count);
}

// ------------------------------------------------- fetching by a list
/// The responses on messages that were fetched by their numbers.
pub open spec fn fetch_lines(numbers: Seq<usize>, messages: Seq<String>) -> Text
    decreases messages.len(),
{
    if messages.len() == 0 {
        Seq::empty()
    } else {
        fetch_lines(numbers, messages.drop_last()) + ("* "@ + decimal_text(
            numbers[messages.len() - 1] as nat,
        ) + " FETCH ("@ + messages.last()@ + ")\r\n"@)
    }
}

/// The messages that came.
pub open spec fn came(messages: Seq<String>) -> Seq<Event> {
    messages.map_values(|message: String| Event::Fetched(message))
}

/// The messages of a list are fetched in its order, with a response on each.
pub proof fn messages_are_fetched_in_order(s: SessionView, batch: BatchView, messages: Seq<String>)
    requires
        !batch.uid,
        batch.next == 0,
        batch.response == Seq::<char>::empty(),
        messages.len() <= batch.sequence.len(),
    ensures
        follow(model::batch_continued(s, batch), came(messages)) == model::batch_continued(
            s,
            BatchView {
                next: messages.len(),
                response: fetch_lines(batch.sequence, messages),
                ..batch
            },
        ),
    decreases messages.len(),
{
    if messages.len() > 0 {
        let fewer = messages.drop_last();
        messages_are_fetched_in_order(s, batch, fewer);
        assert(came(messages).drop_last() =~= came(fewer));
        assert(came(messages).last() == Event::Fetched(messages.last()));
    }
}

/// The flags that were stored.
pub open spec fn marked(replies: Seq<String>) -> Seq<Event> {
    replies.map_values(|reply: String| Event::Stored(reply))
}

/// `\Seen` is set as many times as it has to be, and then the fetching begins.
pub proof fn marks_come_before_messages(s: SessionView, batch: BatchView, left: nat, replies: Seq<String>)
    requires
        replies.len() <= left,
    ensures
        follow(model::batch_marked(s, batch, left), marked(replies)) == model::batch_marked(
            s,
            batch,
            (left - replies.len()) as nat,
        ),
    decreases replies.len(),
{
    if replies.len() > 0 {
        let fewer = replies.drop_last();
        marks_come_before_messages(s, batch, left, fewer);
        assert(marked(replies).drop_last() =~= marked(fewer));
        assert(marked(replies).last() == Event::Stored(replies.last()));
    }
}

/// A `FETCH` of a set that reaches beyond the last message is refused, before
/// anything is marked or fetched.
pub proof fn fetch_beyond_the_last_message(
    s: SessionView,
    tag: Text,
    args: Seq<Text>,
    command: FetchCommand,
    count: usize,
)
    requires
        s.folder is Some,
        some_beyond(command.sequence_set@, count),
    ensures
        ({
            let start = commanded(s, tag, Command::Fetch, args);
            let parsed = Event::FetchParsed(Some(command));
            &&& follow(start, seq![parsed]).1 is CountMessages
            &&& follow(start, seq![parsed, Event::Counted(count)]) == model::refused(s, tag)
        }),
{
    let parsed = Event::FetchParsed(Some(command));
    let counted = Event::Counted(count);
    reveal_with_fuel(follow, 3);
    assert(seq![parsed].drop_last() =~= Seq::empty());
    assert(seq![parsed, counted].drop_last() =~= seq![parsed]);
}

/// A `FETCH` sets `\Seen` once for each section of the body that it asks for,
/// then fetches the messages of its set, and replies with a response on each
/// of them in the order of the set.
pub proof fn fetch_from_line_to_reply(
    s: SessionView,
    tag: Text,
    args: Seq<Text>,
    command: FetchCommand,
    count: usize,
    sequence: Vec<usize>,
    marks: Seq<String>,
    messages: Seq<String>,
)
    requires
        s.folder is Some,
        !some_beyond(command.sequence_set@, count),
        sequence@.len() > 0,
        marks.len() == body_sections(command.attributes@),
        messages.len() == sequence@.len(),
    ensures
        follow(
            commanded(s, tag, Command::Fetch, args),
            seq![
                Event::FetchParsed(Some(command)),
                Event::Counted(count),
                Event::Expanded(sequence),
            ] + marked(marks) + came(messages),
        ) == replied(s, fetch_lines(sequence@, messages) + tag + " OK FETCH completed\n"@),
{
    let start = commanded(s, tag, Command::Fetch, args);
    let parsed = Event::FetchParsed(Some(command));
    let counted = Event::Counted(count);
    let expanded = Event::Expanded(sequence);
    let attributes = command.attributes@;
    let batch = BatchView {
        tag,
        uid: false,
        sequence: sequence@,
        attributes,
        next: 0,
        response: Seq::empty(),
    };
    let front = seq![parsed, counted, expanded];
    reveal_with_fuel(follow, 4);
    assert(front.drop_last() =~= seq![parsed, counted]);
    assert(seq![parsed, counted].drop_last() =~= seq![parsed]);
    assert(follow(start, front) == model::batch_marked(s, batch, body_sections(attributes)));
    following_goes_on(start, front, marked(marks));
    marks_come_before_messages(s, batch, body_sections(attributes), marks);
    following_goes_on(start, front + marked(marks), came(messages));
    messages_are_fetched_in_order(s, batch, messages);
}

// --------------------------------------------------- fetching by UIDs
/// What came for one UID: nothing, or the index and the data of its message.
pub type Found = Option<(usize, String)>;

/// The events in which that came.
pub open spec fn found_events(found: Seq<Found>) -> Seq<Event>
    decreases found.len(),
{
    if found.len() == 0 {
        Seq::empty()
    } else {
        found_events(found.drop_last()) + match found.last() {
            Some((index, message)) => seq![Event::IndexFound(Some(index)), Event::Fetched(message)],
            None => seq![Event::IndexFound(None)],
        }
    }
}

/// The sequence number of the message at an index; the largest index is
/// followed by 0.
pub open spec fn next_number(index: usize) -> nat {
    if index == usize::MAX {
        0
    } else {
        (index + 1) as nat
    }
}

/// The responses on the messages that were found.
pub open spec fn found_lines(uids: Seq<usize>, found: Seq<Found>) -> Text
    decreases found.len(),
{
    if found.len() == 0 {
        Seq::empty()
    } else {
        let before = found_lines(uids, found.drop_last());
        match found.last() {
            Some((index, message)) => before + ("* "@ + decimal_text(next_number(index))
                + " FETCH ("@ + message@ + "UID "@ + decimal_text(uids[found.len() - 1] as nat)
                + ")\r\n"@),
            None => before,
        }
    }
}

proof fn one_more_uid_found(s: SessionView, batch: BatchView, index: usize, message: String)
    requires
        batch.uid,
        batch.next < batch.sequence.len(),
    ensures
        follow(
            model::batch_continued(s, batch),
            seq![Event::IndexFound(Some(index)), Event::Fetched(message)],
        ) == model::batch_continued(
            s,
            model::batch_advanced(
                batch,
                model::uid_fetch_line(index, message@, batch.sequence[batch.next as int]),
            ),
        ),
{
    let found = Event::IndexFound(Some(index));
    let fetched = Event::Fetched(message);
    reveal_with_fuel(follow, 3);
    assert(seq![found, fetched].drop_last() =~= seq![found]);
    assert(seq![found].drop_last() =~= Seq::empty());
}

proof fn one_more_uid_missing(s: SessionView, batch: BatchView)
    requires
        batch.uid,
        batch.next < batch.sequence.len(),
    ensures
        follow(model::batch_continued(s, batch), seq![Event::IndexFound(None)])
            == model::batch_continued(s, BatchView { next: batch.next + 1, ..batch }),
{
    reveal_with_fuel(follow, 2);
    assert(seq![Event::IndexFound(None)].drop_last() =~= Seq::empty());
}

/// The UIDs of a list are gone through in its order, with a response on each
/// that a message has.
pub proof fn uids_are_fetched_in_order(s: SessionView, batch: BatchView, found: Seq<Found>)
    requires
        batch.uid,
        batch.next == 0,
        batch.response == Seq::<char>::empty(),
        found.len() <= batch.sequence.len(),
    ensures
        follow(model::batch_continued(s, batch), found_events(found)) == model::batch_continued(
            s,
            BatchView {
                next: found.len(),
                response: found_lines(batch.sequence, found),
                ..batch
            },
        ),
    decreases found.len(),
{
    if found.len() > 0 {
        let fewer = found.drop_last();
        let start = model::batch_continued(s, batch);
        uids_are_fetched_in_order(s, batch, fewer);
        let more = match found.last() {
            Some((index, message)) => seq![Event::IndexFound(Some(index)), Event::Fetched(message)],
            None => seq![Event::IndexFound(None)],
        };
        following_goes_on(start, found_events(fewer), more);
        let here = BatchView {
            next: fewer.len(),
            response: found_lines(batch.sequence, fewer),
            ..batch
        };
        match found.last() {
            Some((index, message)) => {
                one_more_uid_found(s, here, index, message);
            },
            None => {
                one_more_uid_missing(s, here);
            },
        }
    }
}

/// A `UID FETCH` of a list of UIDs sets `\Seen` on them as a `FETCH` does, and
/// replies with a response on each that a message has, in the order of the
/// list.
pub proof fn uid_fetch_from_line_to_reply(
    s: SessionView,
    tag: Text,
    args: Seq<Text>,
    command: FetchCommand,
    uids: Vec<usize>,
    marks: Seq<String>,
    found: Seq<Found>,
)
    requires
        s.folder is Some,
        args.len() > 0,
        command_named(args[0]) is Fetch,
        open_range_start(command.sequence_set@) is None,
        uids@.len() > 0,
        marks.len() == body_sections(command.attributes@),
        found.len() == uids@.len(),
    ensures
        follow(
            commanded(s, tag, Command::Uid, args),
            seq![Event::FetchParsed(Some(command)), Event::Expanded(uids)] + marked(marks)
                + found_events(found),
        ) == replied(s, found_lines(uids@, found) + tag + " OK UID FETCH completed\r\n"@),
{
    let start = commanded(s, tag, Command::Uid, args);
    let parsed = Event::FetchParsed(Some(command));
    let expanded = Event::Expanded(uids);
    let attributes = command.attributes@;
    let batch = BatchView {
        tag,
        uid: true,
        sequence: uids@,
        attributes,
        next: 0,
        response: Seq::empty(),
    };
    let front = seq![parsed, expanded];
    reveal_with_fuel(follow, 3);
    assert(front.drop_last() =~= seq![parsed]);
    assert(follow(start, front) == model::batch_marked(s, batch, body_sections(attributes)));
    following_goes_on(start, front, marked(marks));
    marks_come_before_messages(s, batch, body_sections(attributes), marks);
    following_goes_on(start, front + marked(marks), found_events(found));
    uids_are_fetched_in_order(s, batch, found);
}

// ------------------------------------------- fetching from a UID to the last
/// The events in which messages and their UIDs came.
pub open spec fn span_events(messages: Seq<(String, usize)>) -> Seq<Event>
    decreases messages.len(),
{
    if messages.len() == 0 {
        Seq::empty()
    } else {
        span_events(messages.drop_last()) + seq![
            Event::Fetched(messages.last().0),
            Event::UidFound(messages.last().1),
        ]
    }
}

/// The responses on messages from the index `first` on.
pub open spec fn span_lines(first: usize, messages: Seq<(String, usize)>) -> Text
    decreases messages.len(),
{
    if messages.len() == 0 {
        Seq::empty()
    } else {
        span_lines(first, messages.drop_last()) + ("* "@ + decimal_text(
            next_number((first + messages.len() - 1) as usize),
        ) + " FETCH ("@ + messages.last().0@ + " UID "@ + decimal_text(messages.last().1 as nat)
            + ")\r\n"@)
    }
}

proof fn one_more_of_a_span(s: SessionView, span: SpanView, message: String, uid: usize)
    requires
        span.index < span.count,
    ensures
        follow(
            model::span_continued(s, span),
            seq![Event::Fetched(message), Event::UidFound(uid)],
        ) == model::span_continued(
            s,
            model::span_advanced(span, model::span_line(span.index, message@, uid)),
        ),
{
    let fetched = Event::Fetched(message);
    let found = Event::UidFound(uid);
    reveal_with_fuel(follow, 3);
    assert(seq![fetched, found].drop_last() =~= seq![fetched]);
    assert(seq![fetched].drop_last() =~= Seq::empty());
}

/// The messages of a span are fetched in their order, with a response on each.
pub proof fn spans_are_fetched_in_order(s: SessionView, span: SpanView, messages: Seq<(String, usize)>)
    requires
        span.response == Seq::<char>::empty(),
        span.index + messages.len() <= span.count,
    ensures
        follow(model::span_continued(s, span), span_events(messages)) == model::span_continued(
            s,
            SpanView {
                index: (span.index + messages.len()) as usize,
                response: span_lines(span.index, messages),
                ..span
            },
        ),
    decreases messages.len(),
{
    if messages.len() > 0 {
        let fewer = messages.drop_last();
        let start = model::span_continued(s, span);
        spans_are_fetched_in_order(s, span, fewer);
        let more = seq![Event::Fetched(messages.last().0), Event::UidFound(messages.last().1)];
        following_goes_on(start, span_events(fewer), more);
        let here = SpanView {
            index: (span.index + fewer.len()) as usize,
            response: span_lines(span.index, fewer),
            ..span
        };
        one_more_of_a_span(s, here, messages.last().0, messages.last().1);
    }
}

/// A `UID FETCH` of `n:*` replies with a response on every message from that
/// with the UID `n` to the last of the folder, and from the first where `n` is
/// 1 and no message has that UID.
pub proof fn open_uid_fetch_from_line_to_reply(
    s: SessionView,
    tag: Text,
    args: Seq<Text>,
    command: FetchCommand,
    first: usize,
    count: usize,
    found: Option<usize>,
    start: usize,
    messages: Seq<(String, usize)>,
)
    requires
        s.folder is Some,
        args.len() > 0,
        command_named(args[0]) is Fetch,
        open_range_start(command.sequence_set@) == Some(first),
        count > 0,
        model::span_start(first, found) == Some(start),
        start + messages.len() == count,
    ensures
        follow(
            commanded(s, tag, Command::Uid, args),
            seq![
                Event::FetchParsed(Some(command)),
                Event::Counted(count),
                Event::IndexFound(found),
            ] + span_events(messages),
        ) == replied(s, span_lines(start, messages) + tag + " OK UID FETCH completed\r\n"@),
{
    let beginning = commanded(s, tag, Command::Uid, args);
    let parsed = Event::FetchParsed(Some(command));
    let counted = Event::Counted(count);
    let front = seq![parsed, counted, Event::IndexFound(found)];
    let span = SpanView {
        tag,
        attributes: command.attributes@,
        index: start,
        count,
        response: Seq::empty(),
    };
    reveal_with_fuel(follow, 4);
    assert(front.drop_last() =~= seq![parsed, counted]);
    assert(seq![parsed, counted].drop_last() =~= seq![parsed]);
    assert(follow(beginning, front) == model::span_continued(s, span));
    following_goes_on(beginning, front, span_events(messages));
    spans_are_fetched_in_order(s, span, messages);
}

// --------------------------------------------------------- the other commands
/// Once a reply is sent the next line is read, or after a `LOGOUT` the
/// connection ended.
pub proof fn a_reply_leads_back_to_reading(s: SessionView, text: Text)
    ensures
        follow(replied(s, text), seq![Event::Sent]) == if s.logout {
            model::closed(s)
        } else {
            (waiting(s, PhaseView::Reading), ActionView::ReadLine)
        },
{
    assert(seq![Event::Sent].drop_last() =~= Seq::empty());
    reveal_with_fuel(follow, 2);
}

/// A `STORE` that parses stores the flags that are known among its words, on
/// the messages of its set, and replies with the responses on it.
pub proof fn store_from_line_to_reply(
    s: SessionView,
    tag: Text,
    args: Seq<Text>,
    words: StoreWords,
    sequence: Vec<usize>,
    responses: String,
)
    requires
        s.folder is Some,
        commanded(s, tag, Command::Store, args).1 is ParseStore,
        words.mode is Some,
        words.sequence_set is Some,
    ensures
        ({
            let start = commanded(s, tag, Command::Store, args);
            let silent = start.0.phase->ParsingStore_silent;
            let events = seq![Event::StoreParsed(words), Event::Expanded(sequence)];
            &&& follow(start, seq![Event::StoreParsed(words)]).1 == (ActionView::Expand {
                items: words.sequence_set->0@,
                bound: None,
            })
            &&& follow(start, events).1 == (ActionView::Store {
                sequence: sequence@,
                mode: words.mode->0,
                silent,
                flags: known_flags(words.flags@),
                uid: false,
            })
            &&& follow(start, events.push(Event::Stored(responses))) == replied(
                s,
                responses@ + tag + " OK STORE complete\r\n"@,
            )
        }),
{
    let parsed = Event::StoreParsed(words);
    let expanded = Event::Expanded(sequence);
    reveal_with_fuel(follow, 4);
    assert(seq![parsed].drop_last() =~= Seq::empty());
    assert(seq![parsed, expanded].drop_last() =~= seq![parsed]);
    assert(seq![parsed, expanded].push(Event::Stored(responses)).drop_last() =~= seq![
        parsed,
        expanded,
    ]);
}

/// `EXPUNGE` reports the number of every message that it removed.
pub proof fn expunge_from_line_to_reply(s: SessionView, tag: Text, args: Seq<Text>, numbers: Vec<usize>)
    requires
        s.folder is Some,
    ensures
        follow(commanded(s, tag, Command::Expunge, args), seq![Event::Expunged(numbers)])
            == replied(
            s,
            model::expunge_lines(numbers@) + tag + " OK expunge completed\r\n"@,
        ),
{
    reveal_with_fuel(follow, 2);
    assert(seq![Event::Expunged(numbers)].drop_last() =~= Seq::empty());
}

/// `CHECK` expunges the folder and brings it up to date; it stays selected.
pub proof fn check_from_line_to_reply(s: SessionView, tag: Text, args: Seq<Text>, numbers: Vec<usize>)
    requires
        s.folder is Some,
    ensures
        follow(
            commanded(s, tag, Command::Check, args),
            seq![Event::Expunged(numbers), Event::Synchronized],
        ) == replied(s, tag + " OK Check completed\r\n"@),
{
    reveal_with_fuel(follow, 3);
    assert(seq![Event::Expunged(numbers), Event::Synchronized].drop_last() =~= seq![
        Event::Expunged(numbers),
    ]);
}

/// `CLOSE` expunges the folder, brings it up to date and gives it up.
pub proof fn close_from_line_to_reply(s: SessionView, tag: Text, args: Seq<Text>, numbers: Vec<usize>)
    requires
        s.folder is Some,
    ensures
        follow(
            commanded(s, tag, Command::Close, args),
            seq![Event::Expunged(numbers), Event::Synchronized],
        ) == replied(SessionView { folder: None, ..s }, tag + " OK close completed\r\n"@),
{
    reveal_with_fuel(follow, 3);
    assert(seq![Event::Expunged(numbers), Event::Synchronized].drop_last() =~= seq![
        Event::Expunged(numbers),
    ]);
}

/// `LOGOUT` expunges the folder where one is selected, says goodbye and ends
/// the connection.
pub proof fn logout_from_line_to_end(s: SessionView, tag: Text, args: Seq<Text>, numbers: Vec<usize>)
    ensures
        ({
            let events = if s.folder is Some {
                seq![Event::Expunged(numbers), Event::Sent]
            } else {
                seq![Event::Sent]
            };
            let out = SessionView { logout: true, ..s };
            &&& s.folder is Some ==> commanded(s, tag, Command::Logout, args).1 is Expunge
            &&& follow(
                commanded(s, tag, Command::Logout, args),
                events.drop_last(),
            ) == replied(out, model::logout_text(tag))
            &&& follow(commanded(s, tag, Command::Logout, args), events) == model::closed(out)
        }),
{
    reveal_with_fuel(follow, 3);
    assert(seq![Event::Expunged(numbers), Event::Sent].drop_last() =~= seq![
        Event::Expunged(numbers),
    ]);
    assert(seq![Event::Sent].drop_last() =~= Seq::empty());
    assert(seq![Event::Expunged(numbers)].drop_last() =~= Seq::empty());
}

} // verus!
