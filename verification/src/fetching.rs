//! What a `FETCH` and a `UID FETCH` ask for, one after the other.

use crate::action::ActionView;
use crate::command::{
    any_body_section_is_counted, body_sections, body_sections_are_counted_wherever_they_stand,
    command_named, is_beyond, Attribute, Command, FetchCommand, SequenceItem,
};
use crate::courses::{
    came, follow, following_goes_on, found_events, marked, marks_come_before_messages,
    messages_are_fetched_in_order, span_events, spans_are_fetched_in_order,
    uids_are_fetched_in_order, Found,
};
use crate::event::Event;
use crate::message::{Flag, StoreMode};
use crate::model::{self, commanded, step, BatchView, SessionView, SpanView, Step};
use crate::purpose::{answered, turned_down};
use crate::text::{joined, trimmed, Text};
use vstd::prelude::*;

verus! {

/// A `FETCH` with these arguments, or a `UID FETCH`.
pub open spec fn fetch_command(
    s: SessionView,
    tag: Text,
    word: Text,
    args: Seq<Text>,
    uid: bool,
) -> Step {
    if uid {
        commanded(s, tag, Command::Uid, seq![word] + args)
    } else {
        commanded(s, tag, Command::Fetch, args)
    }
}

proof fn fetch_commands_are_fetches(s: SessionView, tag: Text, word: Text, args: Seq<Text>, uid: bool)
    requires
        command_named(word) is Fetch,
    ensures
        fetch_command(s, tag, word, args, uid) == model::fetch_asked(s, tag, args, uid),
{
    assert((seq![word] + args).skip(1) =~= args);
}

proof fn fetch_words_are_joined(args: Seq<Text>)
    ensures
        model::fetch_words(args) == joined(seq!["FETCH"@] + args, ' '),
    decreases args.len(),
{
    let all = seq!["FETCH"@] + args;
    if args.len() == 0 {
        assert(all =~= seq!["FETCH"@]);
    } else {
        reveal_strlit(" ");
        fetch_words_are_joined(args.drop_last());
        assert(all.drop_last() =~= seq!["FETCH"@] + args.drop_last());
        assert(joined(all.drop_last(), ' ').push(' ') + args.last() =~= joined(all.drop_last(), ' ')
            + " "@ + args.last());
    }
}

/// What is parsed is the word `FETCH` and the arguments as the client wrote
/// them, with single spaces between them. Without a folder, or where it cannot
/// be parsed, the command is turned down.
pub proof fn fetch_has_its_arguments_parsed(
    s: SessionView,
    tag: Text,
    word: Text,
    args: Seq<Text>,
    uid: bool,
    command: FetchCommand,
)
    requires
        command_named(word) is Fetch,
    ensures
        ({
            let (asked, action) = fetch_command(s, tag, word, args, uid);
            &&& action == ActionView::ParseFetch(trimmed(joined(seq!["FETCH"@] + args, ' ')))
            &&& step(asked, Event::FetchParsed(None)) == turned_down(s, tag)
            &&& s.folder is None ==> step(asked, Event::FetchParsed(Some(command))) == turned_down(
                s,
                tag,
            )
        }),
{
    fetch_commands_are_fetches(s, tag, word, args, uid);
    fetch_words_are_joined(args);
}

/// Whether the set begins with `n:*`.
pub open spec fn begins_open(items: Seq<SequenceItem>, n: usize) -> bool {
    items.len() > 0 && items[0] == SequenceItem::Range(
        Box::new(SequenceItem::Number(n)),
        Box::new(SequenceItem::Wildcard),
    )
}

/// Whether no part of the set reaches beyond the last message.
pub open spec fn all_within(items: Seq<SequenceItem>, count: usize) -> bool {
    forall|i: int| 0 <= i < items.len() ==> !is_beyond(#[trigger] items[i], count)
}

/// How the set of a command came to be a list of numbers.
pub open spec fn expansion(command: FetchCommand, uid: bool, count: usize, sequence: Vec<usize>) -> Seq<
    Event,
> {
    if uid {
        seq![Event::FetchParsed(Some(command)), Event::Expanded(sequence)]
    } else {
        seq![Event::FetchParsed(Some(command)), Event::Counted(count), Event::Expanded(sequence)]
    }
}

/// Whether the set of a command is made a list: by sequence numbers where it
/// keeps within the folder, by UIDs where it does not begin with `n:*`.
pub open spec fn is_listed(command: FetchCommand, uid: bool, count: usize) -> bool {
    if uid {
        forall|n: usize| !#[trigger] begins_open(command.sequence_set@, n)
    } else {
        all_within(command.sequence_set@, count)
    }
}

proof fn listed_by_uid(items: Seq<SequenceItem>)
    requires
        forall|n: usize| !#[trigger] begins_open(items, n),
    ensures
        crate::command::open_range_start(items) is None,
{
    if let Some(n) = crate::command::open_range_start(items) {
        assert(begins_open(items, n));
    }
}

/// The set is made a list as the client wrote it: for a `FETCH` within the
/// number of messages that the folder holds, for a `UID FETCH` without a bound.
pub proof fn fetch_has_its_set_listed(
    s: SessionView,
    tag: Text,
    word: Text,
    args: Seq<Text>,
    uid: bool,
    command: FetchCommand,
    count: usize,
)
    requires
        command_named(word) is Fetch,
        s.folder is Some,
        is_listed(command, uid, count),
    ensures
        ({
            let asked = fetch_command(s, tag, word, args, uid).0;
            let (parsed, action) = step(asked, Event::FetchParsed(Some(command)));
            let items = command.sequence_set@;
            &&& uid ==> action == (ActionView::Expand { items, bound: None })
            &&& !uid ==> action is CountMessages
            &&& !uid ==> step(parsed, Event::Counted(count)).1 == (ActionView::Expand {
                items,
                bound: Some(count),
            })
        }),
{
    fetch_commands_are_fetches(s, tag, word, args, uid);
    if uid {
        listed_by_uid(command.sequence_set@);
    }
}

/// Where the list stands before anything is marked.
proof fn list_begun(
    s: SessionView,
    tag: Text,
    word: Text,
    args: Seq<Text>,
    uid: bool,
    command: FetchCommand,
    count: usize,
    sequence: Vec<usize>,
)
    requires
        command_named(word) is Fetch,
        s.folder is Some,
        is_listed(command, uid, count),
    ensures
        follow(
            fetch_command(s, tag, word, args, uid),
            expansion(command, uid, count, sequence),
        ) == model::expanded(s, tag, uid, command.attributes@, sequence@),
{
    fetch_commands_are_fetches(s, tag, word, args, uid);
    let parsed = Event::FetchParsed(Some(command));
    let counted = Event::Counted(count);
    let expanded = Event::Expanded(sequence);
    reveal_with_fuel(follow, 4);
    assert(seq![parsed].drop_last() =~= Seq::empty());
    if uid {
        listed_by_uid(command.sequence_set@);
        assert(seq![parsed, expanded].drop_last() =~= seq![parsed]);
    } else {
        assert(seq![parsed, counted, expanded].drop_last() =~= seq![parsed, counted]);
        assert(seq![parsed, counted].drop_last() =~= seq![parsed]);
    }
}

/// A list without a message is turned down.
pub proof fn fetch_of_an_empty_list_is_turned_down(
    s: SessionView,
    tag: Text,
    word: Text,
    args: Seq<Text>,
    uid: bool,
    command: FetchCommand,
    count: usize,
    sequence: Vec<usize>,
)
    requires
        command_named(word) is Fetch,
        s.folder is Some,
        is_listed(command, uid, count),
        sequence@.len() == 0,
    ensures
        follow(
            fetch_command(s, tag, word, args, uid),
            expansion(command, uid, count, sequence),
        ) == turned_down(s, tag),
{
    list_begun(s, tag, word, args, uid, command, count, sequence);
}

/// How many sections of the body there are among the attributes, wherever they
/// stand.
pub open spec fn sections(attributes: Seq<Attribute>) -> nat {
    attributes.filter(|a: Attribute| a.body_section).len()
}

/// The messages of the list are marked as seen once for each section of the
/// body that is asked for: `\Seen` is added to them, silently and nothing else,
/// by UID exactly for a `UID FETCH`. So if any attribute is such a section,
/// they are marked before anything is fetched.
pub proof fn fetch_of_a_body_marks_as_seen(
    s: SessionView,
    tag: Text,
    word: Text,
    args: Seq<Text>,
    uid: bool,
    command: FetchCommand,
    count: usize,
    sequence: Vec<usize>,
    marks: Seq<String>,
)
    requires
        command_named(word) is Fetch,
        s.folder is Some,
        is_listed(command, uid, count),
        sequence@.len() > 0,
        marks.len() <= sections(command.attributes@),
    ensures
        ({
            let start = fetch_command(s, tag, word, args, uid);
            let events = expansion(command, uid, count, sequence);
            let next = follow(start, events + marked(marks)).1;
            let attributes = command.attributes@;
            &&& marks.len() < sections(attributes) ==> next == (ActionView::Store {
                sequence: sequence@,
                mode: StoreMode::Add,
                silent: true,
                flags: Set::empty().insert(Flag::Seen),
                uid,
            })
            &&& marks.len() == sections(attributes) ==> next !is Store
            &&& (exists|i: int|
                0 <= i < attributes.len() && (#[trigger] attributes[i]).body_section) ==> follow(
                start,
                events,
            ).1 == (ActionView::Store {
                sequence: sequence@,
                mode: StoreMode::Add,
                silent: true,
                flags: Set::empty().insert(Flag::Seen),
                uid,
            })
        }),
{
    let attributes = command.attributes@;
    let start = fetch_command(s, tag, word, args, uid);
    let events = expansion(command, uid, count, sequence);
    let batch = BatchView {
        tag,
        uid,
        sequence: sequence@,
        attributes,
        next: 0,
        response: Seq::empty(),
    };
    body_sections_are_counted_wherever_they_stand(attributes);
    any_body_section_is_counted(attributes);
    list_begun(s, tag, word, args, uid, command, count, sequence);
    following_goes_on(start, events, marked(marks));
    marks_come_before_messages(s, batch, body_sections(attributes), marks);
}

/// Where the list stands once everything is marked.
proof fn list_marked(
    s: SessionView,
    tag: Text,
    word: Text,
    args: Seq<Text>,
    uid: bool,
    command: FetchCommand,
    count: usize,
    sequence: Vec<usize>,
    marks: Seq<String>,
    more: Seq<Event>,
)
    requires
        command_named(word) is Fetch,
        s.folder is Some,
        is_listed(command, uid, count),
        sequence@.len() > 0,
        marks.len() == sections(command.attributes@),
    ensures
        follow(
            fetch_command(s, tag, word, args, uid),
            expansion(command, uid, count, sequence) + marked(marks) + more,
        ) == follow(
            model::batch_continued(
                s,
                BatchView {
                    tag,
                    uid,
                    sequence: sequence@,
                    attributes: command.attributes@,
                    next: 0,
                    response: Seq::empty(),
                },
            ),
            more,
        ),
{
    let attributes = command.attributes@;
    let start = fetch_command(s, tag, word, args, uid);
    let events = expansion(command, uid, count, sequence);
    let batch = BatchView {
        tag,
        uid,
        sequence: sequence@,
        attributes,
        next: 0,
        response: Seq::empty(),
    };
    body_sections_are_counted_wherever_they_stand(attributes);
    list_begun(s, tag, word, args, uid, command, count, sequence);
    following_goes_on(start, events, marked(marks));
    marks_come_before_messages(s, batch, body_sections(attributes), marks);
    following_goes_on(start, events + marked(marks), more);
}

/// A `FETCH` asks for the messages of its list one after the other, each at the
/// index before its number, and for all the attributes of the command.
pub proof fn fetch_asks_for_each_message_of_the_list(
    s: SessionView,
    tag: Text,
    word: Text,
    args: Seq<Text>,
    command: FetchCommand,
    count: usize,
    sequence: Vec<usize>,
    marks: Seq<String>,
    messages: Seq<String>,
)
    requires
        command_named(word) is Fetch,
        s.folder is Some,
        is_listed(command, false, count),
        marks.len() == sections(command.attributes@),
        messages.len() < sequence@.len(),
    ensures
        ({
            let start = fetch_command(s, tag, word, args, false);
            let events = expansion(command, false, count, sequence);
            let number = sequence@[messages.len() as int];
            let (next, action) = follow(start, events + marked(marks) + came(messages));
            &&& action is FetchMessage
            &&& action->FetchMessage_attributes == command.attributes@
            &&& number > 0 ==> action->FetchMessage_index == number - 1
            &&& number == 0 ==> action->FetchMessage_index == usize::MAX
        }),
{
    let batch = BatchView {
        tag,
        uid: false,
        sequence: sequence@,
        attributes: command.attributes@,
        next: 0,
        response: Seq::empty(),
    };
    list_marked(s, tag, word, args, false, command, count, sequence, marks, came(messages));
    messages_are_fetched_in_order(s, batch, messages);
}

/// A `UID FETCH` looks for the UIDs of its list one after the other, and where
/// a message has the UID asks for it at its index, and for all the attributes
/// of the command.
pub proof fn uid_fetch_asks_for_each_message_of_the_list(
    s: SessionView,
    tag: Text,
    word: Text,
    args: Seq<Text>,
    command: FetchCommand,
    count: usize,
    uids: Vec<usize>,
    marks: Seq<String>,
    found: Seq<Found>,
    index: usize,
)
    requires
        command_named(word) is Fetch,
        s.folder is Some,
        is_listed(command, true, count),
        marks.len() == sections(command.attributes@),
        found.len() < uids@.len(),
    ensures
        ({
            let start = fetch_command(s, tag, word, args, true);
            let events = expansion(command, true, count, uids);
            let (next, action) = follow(start, events + marked(marks) + found_events(found));
            &&& action == ActionView::FindIndex(uids@[found.len() as int])
            &&& step(next, Event::IndexFound(Some(index))).1 == (ActionView::FetchMessage {
                index,
                attributes: command.attributes@,
            })
        }),
{
    let batch = BatchView {
        tag,
        uid: true,
        sequence: uids@,
        attributes: command.attributes@,
        next: 0,
        response: Seq::empty(),
    };
    list_marked(s, tag, word, args, true, command, count, uids, marks, found_events(found));
    uids_are_fetched_in_order(s, batch, found);
}

/// A `UID FETCH` of `n:*` counts the messages and looks for the one with the
/// UID `n`. It is turned down where the folder is empty, and where no message
/// has that UID unless it is 1.
pub proof fn open_uid_fetch_looks_for_its_start(
    s: SessionView,
    tag: Text,
    word: Text,
    args: Seq<Text>,
    command: FetchCommand,
    first: usize,
    count: usize,
)
    requires
        command_named(word) is Fetch,
        s.folder is Some,
        begins_open(command.sequence_set@, first),
    ensures
        ({
            let start = fetch_command(s, tag, word, args, true);
            let (parsed, action) = step(start.0, Event::FetchParsed(Some(command)));
            let (counted, search) = step(parsed, Event::Counted(count));
            &&& action is CountMessages
            &&& count == 0 ==> step(parsed, Event::Counted(count)) == turned_down(s, tag)
            &&& count > 0 ==> search == ActionView::FindIndex(first)
            &&& count > 0 && first != 1 ==> step(counted, Event::IndexFound(None)) == turned_down(
                s,
                tag,
            )
        }),
{
    fetch_commands_are_fetches(s, tag, word, args, true);
}

/// Where the span stands before its first message.
proof fn span_begun(
    s: SessionView,
    tag: Text,
    word: Text,
    args: Seq<Text>,
    command: FetchCommand,
    first: usize,
    count: usize,
    found: Option<usize>,
    start: usize,
)
    requires
        command_named(word) is Fetch,
        s.folder is Some,
        begins_open(command.sequence_set@, first),
        count > 0,
        found == Some(start) || (found is None && first == 1 && start == 0),
    ensures
        follow(
            fetch_command(s, tag, word, args, true),
            seq![
                Event::FetchParsed(Some(command)),
                Event::Counted(count),
                Event::IndexFound(found),
            ],
        ) == model::span_continued(
            s,
            SpanView {
                tag,
                attributes: command.attributes@,
                index: start,
                count,
                response: Seq::empty(),
            },
        ),
{
    fetch_commands_are_fetches(s, tag, word, args, true);
    let parsed = Event::FetchParsed(Some(command));
    let counted = Event::Counted(count);
    reveal_with_fuel(follow, 4);
    assert(seq![parsed].drop_last() =~= Seq::empty());
    assert(seq![parsed, counted].drop_last() =~= seq![parsed]);
    assert(seq![parsed, counted, Event::IndexFound(found)].drop_last() =~= seq![parsed, counted]);
}

/// Then it asks for the messages from there to the last one after the other,
/// for all the attributes of the command, and for the UID of each. UID 1 stands
/// for the first message where no message has it. From beyond the last message
/// there is nothing to ask for.
pub proof fn open_uid_fetch_asks_for_every_message_from_its_start(
    s: SessionView,
    tag: Text,
    word: Text,
    args: Seq<Text>,
    command: FetchCommand,
    first: usize,
    count: usize,
    found: Option<usize>,
    start: usize,
    messages: Seq<(String, usize)>,
    message: String,
)
    requires
        command_named(word) is Fetch,
        s.folder is Some,
        begins_open(command.sequence_set@, first),
        count > 0,
        found == Some(start) || (found is None && first == 1 && start == 0),
    ensures
        ({
            let begun = fetch_command(s, tag, word, args, true);
            let front = seq![
                Event::FetchParsed(Some(command)),
                Event::Counted(count),
                Event::IndexFound(found),
            ];
            let (next, action) = follow(begun, front + span_events(messages));
            &&& start + messages.len() < count ==> {
                &&& action is FetchMessage
                &&& action->FetchMessage_index == start + messages.len()
                &&& action->FetchMessage_attributes == command.attributes@
                &&& step(next, Event::Fetched(message)).1 is FindUid
                &&& step(next, Event::Fetched(message)).1->FindUid_0 == start + messages.len()
            }
            &&& start >= count ==> follow(begun, front) == answered(
                s,
                tag + " OK UID FETCH completed\r\n"@,
            )
        }),
{
    let begun = fetch_command(s, tag, word, args, true);
    let front = seq![
        Event::FetchParsed(Some(command)),
        Event::Counted(count),
        Event::IndexFound(found),
    ];
    let span = SpanView {
        tag,
        attributes: command.attributes@,
        index: start,
        count,
        response: Seq::empty(),
    };
    span_begun(s, tag, word, args, command, first, count, found, start);
    following_goes_on(begun, front, span_events(messages));
    if start + messages.len() < count {
        spans_are_fetched_in_order(s, span, messages);
    }
    assert(Seq::<char>::empty() + tag =~= tag);
}

} // verus!
