//! That every command is answered once, with its tag.

use crate::action::ActionView;
use crate::command::{command_named, words, Command};
use crate::courses::follow;
use crate::event::{Event, FolderStatus};
use crate::laws::{interpreting_gives_well_formed, steps_keep_well_formed};
use crate::listing::responses;
use crate::model::{
    self, accepts, commanded, interpreted, step, well_formed, BatchView, PhaseView, SessionView,
    SpanView, Step,
};
use crate::text::{
    begins, decimal_text, pieces_hold_nothing_new, trimmed, trimming_adds_nothing, Text,
};
use vstd::prelude::*;

verus! {

/// Text that is empty or ends with the end of a line.
pub open spec fn whole_lines(text: Text) -> bool {
    text.len() == 0 || (text.len() >= 2 && text[text.len() - 2] == '\r' && text.last() == '\n')
}

/// Text in which no line ends before its end.
pub open spec fn one_line(text: Text) -> bool {
    !text.drop_last().contains('\n')
}

/// The reply to what is refused, after the tag.
pub open spec fn refusal() -> Text {
    " BAD Invalid command\r\n"@
}

/// What may follow a tag: a status, and text up to the end of the line. With
/// `BAD` the text is always the same.
pub open spec fn is_status(rest: Text) -> bool {
    &&& begins(rest, " OK "@) || begins(rest, " NO "@) || rest == refusal()
    &&& rest.last() == '\n'
}

/// What is known of the texts that others put into a reply.
pub struct Tidy {
    /// No line ends in what stands behind the tag.
    pub status: bool,
    /// What a `STORE` hands back are whole lines.
    pub store: bool,
}

/// A reply to the command with this tag: the tag, with a status behind it, and
/// possibly lines before it, but none before a refusal. As far as is known of
/// the texts in the reply, the tag stands at the beginning of a line, and
/// nothing follows that line.
pub open spec fn completes(text: Text, tag: Text, tidy: Tidy) -> bool {
    exists|head: Text, rest: Text|
        {
            &&& text == #[trigger] (head + tag + rest)
            &&& is_status(rest)
            &&& rest == refusal() ==> head.len() == 0
            &&& tidy.store ==> whole_lines(head)
            &&& tidy.status ==> one_line(rest)
        }
}

/// Whether no line ends inside the line of the client.
pub open spec fn is_clean(line: Text) -> bool {
    !trimmed(line).contains('\n')
}

/// Whether the session is at work on the command with this tag.
pub open spec fn serves(phase: PhaseView, tag: Text, tidy: Tidy) -> bool {
    match phase {
        PhaseView::Fresh | PhaseView::Closed => false,
        PhaseView::Greeting | PhaseView::Sending | PhaseView::Reading => false,
        PhaseView::LoggingIn { tag: t, email } => t == tag && (tidy.status ==> !email.contains('\n')),
        PhaseView::Selecting { tag: t, .. } => t == tag,
        PhaseView::ReadingNew { tag: t, .. } => t == tag,
        PhaseView::ReadingCur { tag: t, .. } => t == tag,
        PhaseView::Changing { success, failure, .. } => completes(success, tag, tidy)
            && completes(failure, tag, tidy),
        PhaseView::Surveying { tag: t, .. } => t == tag,
        PhaseView::Expunging { tag: t, .. } => t == tag,
        PhaseView::Synchronizing { tag: t, .. } => t == tag,
        PhaseView::ParsingFetch { tag: t, .. } => t == tag,
        PhaseView::Counting { tag: t, .. } => t == tag,
        PhaseView::Expanding { tag: t, .. } => t == tag,
        PhaseView::Marking { batch, .. } => batch.tag == tag && whole_lines(batch.response),
        PhaseView::Fetching(batch) => batch.tag == tag && whole_lines(batch.response),
        PhaseView::FindingIndex(batch) => batch.tag == tag && whole_lines(batch.response),
        PhaseView::FetchingFound { batch, .. } => batch.tag == tag && whole_lines(batch.response),
        PhaseView::CountingSpan { tag: t, .. } => t == tag,
        PhaseView::FindingStart { tag: t, .. } => t == tag,
        PhaseView::FetchingSpan(span) => span.tag == tag && whole_lines(span.response),
        PhaseView::FindingUid { span, .. } => span.tag == tag && whole_lines(span.response),
        PhaseView::ParsingStore { tag: t, .. } => t == tag,
        PhaseView::ExpandingStore { tag: t, .. } => t == tag,
        PhaseView::Storing { tag: t } => t == tag,
    }
}

/// Whether the step answers the command with this tag or goes on working on
/// it.
pub open spec fn answers(next: Step, tag: Text, tidy: Tidy) -> bool {
    match next.1 {
        ActionView::Send(text) => completes(text, tag, tidy),
        _ => serves(next.0.phase, tag, tidy),
    }
}

/// `OK` or `NO`, and text up to the end of the line.
spec fn is_notice(rest: Text) -> bool {
    &&& begins(rest, " OK "@) || begins(rest, " NO "@)
    &&& rest.last() == '\n'
}

proof fn completed(head: Text, tag: Text, rest: Text, tidy: Tidy)
    requires
        tidy.store ==> whole_lines(head),
        is_notice(rest),
        tidy.status ==> one_line(rest),
    ensures
        completes(head + tag + rest, tag, tidy),
{
    reveal_strlit(" OK ");
    reveal_strlit(" NO ");
    reveal_strlit(" BAD Invalid command\r\n");
    assert(rest[1] == rest.take(4)[1]);
    assert(rest[1] != refusal()[1]);
}

proof fn completed_at_once(tag: Text, rest: Text, tidy: Tidy)
    requires
        is_notice(rest),
        tidy.status ==> one_line(rest),
    ensures
        completes(tag + rest, tag, tidy),
{
    completed(Seq::empty(), tag, rest, tidy);
    assert(Seq::<char>::empty() + tag + rest =~= tag + rest);
}

/// The fixed ones among them.
proof fn notices()
    ensures
        is_notice(" OK NOOP\r\n"@) && one_line(" OK NOOP\r\n"@),
        is_notice(" OK Capability successful\r\n"@) && one_line(" OK Capability successful\r\n"@),
        is_notice(" OK CREATE successful.\r\n"@) && one_line(" OK CREATE successful.\r\n"@),
        is_notice(" OK DELETE successsful.\r\n"@) && one_line(" OK DELETE successsful.\r\n"@),
        is_notice(" OK List successful\r\n"@) && one_line(" OK List successful\r\n"@),
        is_notice(" OK list successful\r\n"@) && one_line(" OK list successful\r\n"@),
        is_notice(" OK Server logged out\r\n"@) && one_line(" OK Server logged out\r\n"@),
        is_notice(" OK expunge completed\r\n"@) && one_line(" OK expunge completed\r\n"@),
        is_notice(" OK close completed\r\n"@) && one_line(" OK close completed\r\n"@),
        is_notice(" OK Check completed\r\n"@) && one_line(" OK Check completed\r\n"@),
        is_notice(" OK UID FETCH completed\r\n"@) && one_line(" OK UID FETCH completed\r\n"@),
        is_notice(" OK FETCH completed\n"@) && one_line(" OK FETCH completed\n"@),
        is_notice(" OK STORE complete\r\n"@) && one_line(" OK STORE complete\r\n"@),
        is_notice(" NO invalid username or password\r\n"@) && one_line(" NO invalid username or password\r\n"@),
        is_notice(" NO error finding mailbox\r\n"@) && one_line(" NO error finding mailbox\r\n"@),
        is_notice(" NO Could not create folder.\r\n"@) && one_line(" NO Could not create folder.\r\n"@),
        is_notice(" NO Invalid folder.\r\n"@) && one_line(" NO Invalid folder.\r\n"@),
{
    reveal_strlit(" OK ");
    reveal_strlit(" NO ");
    reveal_strlit(" OK NOOP\r\n");
    assert(" OK NOOP\r\n"@.take(4) =~= " OK "@);
    reveal_strlit(" OK Capability successful\r\n");
    assert(" OK Capability successful\r\n"@.take(4) =~= " OK "@);
    reveal_strlit(" OK CREATE successful.\r\n");
    assert(" OK CREATE successful.\r\n"@.take(4) =~= " OK "@);
    reveal_strlit(" OK DELETE successsful.\r\n");
    assert(" OK DELETE successsful.\r\n"@.take(4) =~= " OK "@);
    reveal_strlit(" OK List successful\r\n");
    assert(" OK List successful\r\n"@.take(4) =~= " OK "@);
    reveal_strlit(" OK list successful\r\n");
    assert(" OK list successful\r\n"@.take(4) =~= " OK "@);
    reveal_strlit(" OK Server logged out\r\n");
    assert(" OK Server logged out\r\n"@.take(4) =~= " OK "@);
    reveal_strlit(" OK expunge completed\r\n");
    assert(" OK expunge completed\r\n"@.take(4) =~= " OK "@);
    reveal_strlit(" OK close completed\r\n");
    assert(" OK close completed\r\n"@.take(4) =~= " OK "@);
    reveal_strlit(" OK Check completed\r\n");
    assert(" OK Check completed\r\n"@.take(4) =~= " OK "@);
    reveal_strlit(" OK UID FETCH completed\r\n");
    assert(" OK UID FETCH completed\r\n"@.take(4) =~= " OK "@);
    reveal_strlit(" OK FETCH completed\n");
    assert(" OK FETCH completed\n"@.take(4) =~= " OK "@);
    reveal_strlit(" OK STORE complete\r\n");
    assert(" OK STORE complete\r\n"@.take(4) =~= " OK "@);
    reveal_strlit(" NO invalid username or password\r\n");
    assert(" NO invalid username or password\r\n"@.take(4) =~= " NO "@);
    reveal_strlit(" NO error finding mailbox\r\n");
    assert(" NO error finding mailbox\r\n"@.take(4) =~= " NO "@);
    reveal_strlit(" NO Could not create folder.\r\n");
    assert(" NO Could not create folder.\r\n"@.take(4) =~= " NO "@);
    reveal_strlit(" NO Invalid folder.\r\n");
    assert(" NO Invalid folder.\r\n"@.take(4) =~= " NO "@);
}

/// More text that ends with the end of a line leaves whole lines.
proof fn whole_lines_extend(text: Text, more: Text)
    requires
        more.len() >= 2,
        more[more.len() - 2] == '\r',
        more.last() == '\n',
    ensures
        whole_lines(text + more),
{
}

proof fn refusal_answers(s: SessionView, tag: Text, tidy: Tidy)
    ensures
        answers(model::refused(s, tag), tag, tidy),
{
    reveal_strlit(" BAD Invalid command\r\n");
    assert(Seq::<char>::empty() + tag + refusal() =~= tag + refusal());
}

proof fn list_refusal_or_pattern(s: SessionView, tag: Text, args: Seq<Text>, tidy: Tidy)
    ensures
        answers(model::list_asked(s, tag, args), tag, tidy),
{
    refusal_answers(s, tag, tidy);
    if args.len() >= 2 {
        let reference = model::unquoted(args[0]);
        let head = "* LIST (\\Noselect) \"/\" \""@ + reference + "\"\r\n"@;
        reveal_strlit("\"\r\n");
        whole_lines_extend("* LIST (\\Noselect) \"/\" \""@ + reference, "\"\r\n"@);
        notices();
        completed(head, tag, " OK List successful\r\n"@, tidy);
    }
}

proof fn farewell_completes(tag: Text, tidy: Tidy)
    ensures
        completes(model::logout_text(tag), tag, tidy),
{
    reveal_strlit("* BYE Server logging out\r\n");
    notices();
    completed("* BYE Server logging out\r\n"@, tag, " OK Server logged out\r\n"@, tidy);
}

proof fn command_answers(
    s: SessionView,
    tag: Text,
    command: Command,
    args: Seq<Text>,
    tidy: Tidy,
)
    requires
        tidy.status ==> forall|i: int| 0 <= i < args.len() ==> !(#[trigger] args[i]).contains('\n'),
    ensures
        answers(commanded(s, tag, command, args), tag, tidy),
{
    refusal_answers(s, tag, tidy);
    match command {
        Command::Noop => {
            notices();
            completed_at_once(tag, " OK NOOP\r\n"@, tidy);
        },
        Command::Capability => {
            reveal_strlit("* CAPABILITY IMAP4rev1 CHILDREN\r\n");
            notices();
            completed(
                "* CAPABILITY IMAP4rev1 CHILDREN\r\n"@,
                tag,
                " OK Capability successful\r\n"@,
                tidy,
            );
        },
        Command::Login => {
            if tidy.status && args.len() >= 2 {
                trimming_adds_nothing(args[0], '"', '\n');
            }
        },
        Command::Logout => {
            farewell_completes(tag, tidy);
        },
        Command::Create => {
            notices();
            completed_at_once(tag, " OK CREATE successful.\r\n"@, tidy);
            completed_at_once(tag, " NO Could not create folder.\r\n"@, tidy);
        },
        Command::List => {
            list_refusal_or_pattern(s, tag, args, tidy);
        },
        _ => {},
    }
}

/// A line of the client is answered at once, with its first word as the tag,
/// or leads to work for the command with that tag.
pub proof fn a_line_is_answered_or_worked_on(s: SessionView, line: Text, tidy: Tidy)
    requires
        tidy.status ==> is_clean(line),
    ensures
        answers(interpreted(s, line), words(line)[0], tidy),
{
    let w = words(line);
    refusal_answers(s, w[0], tidy);
    if w.len() >= 2 {
        if tidy.status {
            assert forall|i: int| 0 <= i < w.len() implies !(#[trigger] w[i]).contains('\n') by {
                pieces_hold_nothing_new(trimmed(line), ' ', '\n', i);
            }
        }
        command_answers(s, w[0], command_named(w[1]), w.skip(2), tidy);
    }
}

/// A line that is put together of one-line texts.
proof fn notice_in_one_line(start: Text, middle: Text, end: Text)
    requires
        !start.contains('\n'),
        end.len() > 0,
        one_line(end),
    ensures
        !middle.contains('\n') ==> one_line(start + middle + end),
{
    let rest = start + middle + end;
    if !middle.contains('\n') {
        assert forall|k: int| 0 <= k < rest.len() - 1 implies rest[k] != '\n' by {
            if k < start.len() {
                assert(start.contains(start[k]));
            } else if k < start.len() + middle.len() {
                assert(middle.contains(middle[k - start.len()]));
            } else {
                let tail = end.drop_last();
                assert(tail.contains(tail[k - start.len() - middle.len()]));
            }
        }
    }
}

proof fn login_answers(s: SessionView, tag: Text, email: Text, event: Event, tidy: Tidy)
    requires
        tidy.status ==> !email.contains('\n'),
    ensures
        answers(model::login_done(s, tag, email, event->LoginDone_0), tag, tidy),
{
    let start = " OK logged in successfully as "@;
    let rest = start + email + "\r\n"@;
    reveal_strlit(" OK ");
    reveal_strlit(" OK logged in successfully as ");
    reveal_strlit("\r\n");
    assert(rest.take(4) =~= " OK "@);
    notices();
    notice_in_one_line(start, email, "\r\n"@);
    completed_at_once(tag, rest, tidy);
    assert(tag + start + email + "\r\n"@ =~= tag + rest);
    completed_at_once(tag, " NO invalid username or password\r\n"@, tidy);
}

proof fn select_answers(tag: Text, status: FolderStatus, tidy: Tidy)
    requires
        tidy.status ==> !status.read_status@.contains('\n'),
    ensures
        completes(model::select_text(tag, status), tag, tidy),
{
    let flags = "* OK [PERMANENTFLAGS (\\Answered \\Deleted \\Draft \\Flagged \\Seen)] Permanent flags\r\n"@;
    let front = "* "@ + decimal_text(status.exists as nat) + " EXISTS\r\n* "@
        + decimal_text(status.recent as nat) + " RECENT\r\n"@ + status.unseen@
        + "* FLAGS (\\Answered \\Deleted \\Draft \\Flagged \\Seen)\r\n"@;
    reveal_strlit("* OK [PERMANENTFLAGS (\\Answered \\Deleted \\Draft \\Flagged \\Seen)] Permanent flags\r\n");
    whole_lines_extend(front, flags);
    let end = " SELECT command was successful\r\n"@;
    let rest = " OK "@ + status.read_status@ + end;
    reveal_strlit(" OK ");
    reveal_strlit(" SELECT command was successful\r\n");
    assert(rest.take(4) =~= " OK "@);
    notice_in_one_line(" OK "@, status.read_status@, end);
    completed(front + flags, tag, rest, tidy);
    assert(front + flags + tag + " OK "@ + status.read_status@ + end =~= front + flags + tag + rest);
}

proof fn batch_answers(s: SessionView, batch: BatchView, tidy: Tidy)
    requires
        whole_lines(batch.response),
    ensures
        answers(model::batch_continued(s, batch), batch.tag, tidy),
{
    notices();
    completed(batch.response, batch.tag, " OK UID FETCH completed\r\n"@, tidy);
    completed(batch.response, batch.tag, " OK FETCH completed\n"@, tidy);
}

proof fn span_answers(s: SessionView, span: SpanView, tidy: Tidy)
    requires
        whole_lines(span.response),
    ensures
        answers(model::span_continued(s, span), span.tag, tidy),
{
    notices();
    completed(span.response, span.tag, " OK UID FETCH completed\r\n"@, tidy);
}

/// A response on a message ends with the end of a line.
proof fn fetch_lines_end(response: Text, number: usize, message: Text, uid: usize)
    ensures
        whole_lines(response + model::fetch_line(number, message)),
        whole_lines(response + model::uid_fetch_line(number, message, uid)),
        whole_lines(response + model::span_line(number, message, uid)),
{
    reveal_strlit(")\r\n");
    whole_lines_extend(response, model::fetch_line(number, message));
    whole_lines_extend(response, model::uid_fetch_line(number, message, uid));
    whole_lines_extend(response, model::span_line(number, message, uid));
}

proof fn fetch_work_answers(s: SessionView, event: Event, tag: Text, tidy: Tidy)
    requires
        well_formed(s),
        serves(s.phase, tag, tidy),
        s.phase is Marking || s.phase is Fetching || s.phase is FindingIndex
            || s.phase is FetchingFound || s.phase is FetchingSpan || s.phase is FindingUid,
    ensures
        answers(step(s, event), tag, tidy),
{
    match s.phase {
        PhaseView::Marking { batch, .. } => {
            batch_answers(s, batch, tidy);
        },
        PhaseView::Fetching(batch) => {
            let number = batch.sequence[batch.next as int];
            let message = event->Fetched_0@;
            fetch_lines_end(batch.response, number, message, 0);
            batch_answers(
                s,
                model::batch_advanced(batch, model::fetch_line(number, message)),
                tidy,
            );
        },
        PhaseView::FindingIndex(batch) => {
            batch_answers(s, BatchView { next: batch.next + 1, ..batch }, tidy);
        },
        PhaseView::FetchingFound { batch, index } => {
            let uid = batch.sequence[batch.next as int];
            let message = event->Fetched_0@;
            fetch_lines_end(batch.response, index, message, uid);
            batch_answers(
                s,
                model::batch_advanced(batch, model::uid_fetch_line(index, message, uid)),
                tidy,
            );
        },
        PhaseView::FetchingSpan(span) => {},
        PhaseView::FindingUid { span, message } => {
            let uid = event->UidFound_0;
            fetch_lines_end(span.response, span.index, message, uid);
            span_answers(
                s,
                model::span_advanced(span, model::span_line(span.index, message, uid)),
                tidy,
            );
        },
        _ => {},
    }
}

/// Whether what is known of the texts in a reply holds of those in the event.
pub open spec fn fits(s: SessionView, event: Event, tidy: Tidy) -> bool {
    match event {
        Event::Stored(text) => tidy.store && s.phase is Storing ==> whole_lines(text@),
        Event::FolderOpened(Some(status)) => tidy.status ==> !status.read_status@.contains('\n'),
        _ => true,
    }
}

/// Work for a command goes on for that command until it is answered with its
/// tag.
pub proof fn work_ends_with_the_answer(s: SessionView, event: Event, tag: Text, tidy: Tidy)
    requires
        well_formed(s),
        accepts(s, event),
        serves(s.phase, tag, tidy),
        fits(s, event, tidy),
    ensures
        answers(step(s, event), tag, tidy),
{
    refusal_answers(s, tag, tidy);
    match s.phase {
        PhaseView::Fresh | PhaseView::Closed => {},
        PhaseView::Greeting | PhaseView::Sending | PhaseView::Reading => {},
        PhaseView::LoggingIn { email, .. } => {
            login_answers(s, tag, email, event, tidy);
        },
        PhaseView::Selecting { .. } => {
            notices();
            completed_at_once(tag, " NO error finding mailbox\r\n"@, tidy);
            if let Some(status) = event->FolderOpened_0 {
                select_answers(tag, status, tidy);
            }
        },
        PhaseView::ReadingNew { .. } => {
            notices();
            completed_at_once(tag, " NO Invalid folder.\r\n"@, tidy);
        },
        PhaseView::ReadingCur { .. } => {
            notices();
            completed_at_once(tag, " NO Invalid folder.\r\n"@, tidy);
            completed_at_once(tag, " OK DELETE successsful.\r\n"@, tidy);
        },
        PhaseView::Changing { .. } => {},
        PhaseView::Surveying { pattern, .. } => {
            let list = responses(s.maildir, event->Surveyed_0, pattern);
            reveal_strlit("\r\n");
            notices();
            completed(model::lines(list), tag, " OK list successful\r\n"@, tidy);
        },
        PhaseView::Expunging { .. } => {
            let numbers = event->Expunged_0@;
            farewell_completes(tag, tidy);
            reveal_strlit(" EXPUNGE\r\n");
            notices();
            completed(model::expunge_lines(numbers), tag, " OK expunge completed\r\n"@, tidy);
        },
        PhaseView::Synchronizing { .. } => {
            notices();
            completed_at_once(tag, " OK close completed\r\n"@, tidy);
            completed_at_once(tag, " OK Check completed\r\n"@, tidy);
        },
        PhaseView::ParsingFetch { .. } => {},
        PhaseView::Counting { .. } => {},
        PhaseView::Expanding { uid, attributes, .. } => {
            let sequence = event->Expanded_0@;
            batch_answers(
                s,
                BatchView { tag, uid, sequence, attributes, next: 0, response: Seq::empty() },
                tidy,
            );
        },
        PhaseView::CountingSpan { .. } => {},
        PhaseView::FindingStart { count, attributes, .. } => {
            if let Some(index) = model::span_start(s.phase->FindingStart_first, event->IndexFound_0) {
                span_answers(
                    s,
                    SpanView { tag, attributes, index, count, response: Seq::empty() },
                    tidy,
                );
            }
        },
        PhaseView::ParsingStore { .. } => {},
        PhaseView::ExpandingStore { .. } => {},
        PhaseView::Storing { .. } => {
            notices();
            completed(event->Stored_0@, tag, " OK STORE complete\r\n"@, tidy);
        },
        _ => {
            fetch_work_answers(s, event, tag, tidy);
        },
    }
}

/// Whether the events can come one after the other, from `start` on, in the
/// work for one command: each is accepted, none comes after the reply, and what
/// is known of the texts in the reply holds of those in them.
pub open spec fn can_follow(start: Step, events: Seq<Event>, tidy: Tidy) -> bool
    decreases events.len(),
{
    events.len() == 0 || {
        let (s, action) = follow(start, events.drop_last());
        &&& can_follow(start, events.drop_last(), tidy)
        &&& action !is Send
        &&& accepts(s, events.last())
        &&& fits(s, events.last(), tidy)
    }
}

/// Whatever happens in the work for a command, the reply in which it ends
/// carries the tag of the command and one status behind it; and where that is
/// `BAD`, there is nothing else in the reply.
pub proof fn a_command_is_answered_with_its_tag(
    s: SessionView,
    line: Text,
    events: Seq<Event>,
    tidy: Tidy,
)
    requires
        can_follow(interpreted(s, line), events, tidy),
        tidy.status ==> is_clean(line),
    ensures
        well_formed(follow(interpreted(s, line), events).0),
        answers(follow(interpreted(s, line), events), words(line)[0], tidy),
    decreases events.len(),
{
    if events.len() == 0 {
        a_line_is_answered_or_worked_on(s, line, tidy);
        interpreting_gives_well_formed(s, line);
    } else {
        let before = follow(interpreted(s, line), events.drop_last());
        a_command_is_answered_with_its_tag(s, line, events.drop_last(), tidy);
        work_ends_with_the_answer(before.0, events.last(), words(line)[0], tidy);
        steps_keep_well_formed(before.0, events.last());
    }
}

/// A reply in which a status other than `OK` and `NO` follows the tag is the
/// tag and the text of a refusal, and nothing else.
pub proof fn bad_is_all_that_a_refusal_says(text: Text, tag: Text, tidy: Tidy)
    requires
        completes(text, tag, tidy),
    ensures
        text == tag + " BAD Invalid command\r\n"@ || exists|head: Text, rest: Text|
            text == #[trigger] (head + tag + rest) && (begins(rest, " OK "@) || begins(
                rest,
                " NO "@,
            )),
{
    let (head, rest) = choose|head: Text, rest: Text|
        {
            &&& text == #[trigger] (head + tag + rest)
            &&& is_status(rest)
            &&& rest == refusal() ==> head.len() == 0
        };
    if rest == refusal() {
        assert(head + tag + rest =~= tag + rest);
    }
}

} // verus!
