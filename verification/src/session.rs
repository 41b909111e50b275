//! A session with one client.

use crate::action::{Action, ActionView, DiskChange, DiskChangeView};
use crate::command::{
    any_beyond, copy_attributes, count_body_sections, open_range, parse_command, split_words,
    words, Attribute, Command, FetchCommand, SequenceItem,
};
use crate::event::{Event, FolderStatus, LoginOutcome, StoreWords};
use crate::laws::steps_keep_well_formed;
use crate::listing::{list, optional_text, Survey};
use crate::message::{collect_flags, Flag, FlagSet, StoreMode};
use crate::model::{self, BatchView, FolderView, PhaseView, Purpose, SessionView, SpanView};
use crate::path::{file_name, final_name, join, joined_path, normalize};
use crate::pattern::{compiles, replace_inbox};
use crate::text::{
    decimal, decimal_text, lower, replace, replaced_first, same, split, texts, trim, trim_of,
};
use vstd::prelude::*;
use vstd::slice::slice_subrange;

verus! {

/// The selected folder.
#[derive(Debug)]
struct Folder {
    name: String,
    path: String,
    examine: bool,
}

impl View for Folder {
    type V = FolderView;

    closed spec fn view(&self) -> FolderView {
        FolderView { name: self.name@, path: self.path@, examine: self.examine }
    }
}

/// A `FETCH` of the messages of a list, on its way.
#[derive(Debug)]
struct Batch {
    tag: String,
    uid: bool,
    sequence: Vec<usize>,
    attributes: Vec<Attribute>,
    next: usize,
    response: String,
}

impl View for Batch {
    type V = BatchView;

    closed spec fn view(&self) -> BatchView {
        BatchView {
            tag: self.tag@,
            uid: self.uid,
            sequence: self.sequence@,
            attributes: self.attributes@,
            next: self.next as nat,
            response: self.response@,
        }
    }
}

/// A `FETCH` of all messages from some index on, on its way.
#[derive(Debug)]
struct Span {
    tag: String,
    attributes: Vec<Attribute>,
    index: usize,
    count: usize,
    response: String,
}

impl View for Span {
    type V = SpanView;

    closed spec fn view(&self) -> SpanView {
        SpanView {
            tag: self.tag@,
            attributes: self.attributes@,
            index: self.index,
            count: self.count,
            response: self.response@,
        }
    }
}

/// What a session waits for.
#[derive(Debug)]
enum Phase {
    Fresh,
    Greeting,
    Sending,
    Reading,
    Closed,
    LoggingIn { tag: String, email: String },
    Selecting { tag: String, folder: Folder },
    ReadingNew { tag: String, new: String, cur: String },
    ReadingCur { tag: String, new: String, cur: String, files: Vec<String> },
    Changing { changes: Vec<DiskChange>, done: usize, success: String, failure: String },
    Surveying { tag: String, pattern: String },
    Expunging { tag: String, purpose: Purpose },
    Synchronizing { tag: String, close: bool },
    ParsingFetch { tag: String, uid: bool },
    Counting { tag: String, items: Vec<SequenceItem>, attributes: Vec<Attribute> },
    Expanding { tag: String, uid: bool, attributes: Vec<Attribute> },
    Marking { batch: Batch, left: usize },
    Fetching(Batch),
    FindingIndex(Batch),
    FetchingFound { batch: Batch, index: usize },
    CountingSpan { tag: String, first: usize, attributes: Vec<Attribute> },
    FindingStart { tag: String, first: usize, count: usize, attributes: Vec<Attribute> },
    FetchingSpan(Span),
    FindingUid { span: Span, message: String },
    ParsingStore { tag: String, silent: bool, uid: bool },
    ExpandingStore { tag: String, mode: StoreMode, silent: bool, flags: FlagSet, uid: bool },
    Storing { tag: String },
}

/// What the changes of a list are.
spec fn change_views(changes: Seq<DiskChange>) -> Seq<DiskChangeView> {
    changes.map_values(|change: DiskChange| change@)
}

impl View for Phase {
    type V = PhaseView;

    closed spec fn view(&self) -> PhaseView {
        match self {
            Phase::Fresh => PhaseView::Fresh,
            Phase::Greeting => PhaseView::Greeting,
            Phase::Sending => PhaseView::Sending,
            Phase::Reading => PhaseView::Reading,
            Phase::Closed => PhaseView::Closed,
            Phase::LoggingIn { tag, email } => PhaseView::LoggingIn { tag: tag@, email: email@ },
            Phase::Selecting { tag, folder } => PhaseView::Selecting { tag: tag@, folder: folder@ },
            Phase::ReadingNew { tag, new, cur } => PhaseView::ReadingNew {
                tag: tag@,
                new: new@,
                cur: cur@,
            },
            Phase::ReadingCur { tag, new, cur, files } => PhaseView::ReadingCur {
                tag: tag@,
                new: new@,
                cur: cur@,
                files: texts(files@),
            },
            Phase::Changing { changes, done, success, failure } => PhaseView::Changing {
                changes: change_views(changes@),
                done: *done as nat,
                success: success@,
                failure: failure@,
            },
            Phase::Surveying { tag, pattern } => PhaseView::Surveying {
                tag: tag@,
                pattern: pattern@,
            },
            Phase::Expunging { tag, purpose } => PhaseView::Expunging {
                tag: tag@,
                purpose: *purpose,
            },
            Phase::Synchronizing { tag, close } => PhaseView::Synchronizing {
                tag: tag@,
                close: *close,
            },
            Phase::ParsingFetch { tag, uid } => PhaseView::ParsingFetch { tag: tag@, uid: *uid },
            Phase::Counting { tag, items, attributes } => PhaseView::Counting {
                tag: tag@,
                items: items@,
                attributes: attributes@,
            },
            Phase::Expanding { tag, uid, attributes } => PhaseView::Expanding {
                tag: tag@,
                uid: *uid,
                attributes: attributes@,
            },
            Phase::Marking { batch, left } => PhaseView::Marking {
                batch: batch@,
                left: *left as nat,
            },
            Phase::Fetching(batch) => PhaseView::Fetching(batch@),
            Phase::FindingIndex(batch) => PhaseView::FindingIndex(batch@),
            Phase::FetchingFound { batch, index } => PhaseView::FetchingFound {
                batch: batch@,
                index: *index,
            },
            Phase::CountingSpan { tag, first, attributes } => PhaseView::CountingSpan {
                tag: tag@,
                first: *first,
                attributes: attributes@,
            },
            Phase::FindingStart { tag, first, count, attributes } => PhaseView::FindingStart {
                tag: tag@,
                first: *first,
                count: *count,
                attributes: attributes@,
            },
            Phase::FetchingSpan(span) => PhaseView::FetchingSpan(span@),
            Phase::FindingUid { span, message } => PhaseView::FindingUid {
                span: span@,
                message: message@,
            },
            Phase::ParsingStore { tag, silent, uid } => PhaseView::ParsingStore {
                tag: tag@,
                silent: *silent,
                uid: *uid,
            },
            Phase::ExpandingStore { tag, mode, silent, flags, uid } => PhaseView::ExpandingStore {
                tag: tag@,
                mode: *mode,
                silent: *silent,
                flags: flags@,
                uid: *uid,
            },
            Phase::Storing { tag } => PhaseView::Storing { tag: tag@ },
        }
    }
}

/// A session with one client.
///
/// It does nothing by itself: [`Session::handle`] takes what happened last and
/// says what is to be done next.
#[derive(Debug)]
pub struct Session {
    logout: bool,
    maildir: Option<String>,
    folder: Option<Folder>,
    phase: Phase,
}

impl View for Session {
    type V = SessionView;

    closed spec fn view(&self) -> SessionView {
        SessionView {
            logout: self.logout,
            maildir: optional_text(self.maildir),
            folder: match self.folder {
                Some(folder) => Some(folder@),
                None => None,
            },
            phase: self.phase@,
        }
    }
}

/// Whether the session is at work on the messages of a folder.
spec fn handles_messages(phase: PhaseView) -> bool {
    ||| phase is ParsingFetch
    ||| phase is Counting
    ||| phase is Expanding
    ||| phase is Marking
    ||| phase is Fetching
    ||| phase is FindingIndex
    ||| phase is FetchingFound
    ||| phase is CountingSpan
    ||| phase is FindingStart
    ||| phase is FetchingSpan
    ||| phase is FindingUid
    ||| phase is ParsingStore
    ||| phase is ExpandingStore
    ||| phase is Storing
}

/// The tag and what follows it.
fn tagged(tag: &str, rest: &str) -> (res: String)
    ensures
        res@ == tag@ + rest@,
{
    let mut res: String = tag.to_string();
    res.append(rest);
    res
}

/// An argument without the quotes around it.
fn unquote(word: &String) -> (res: String)
    ensures
        res@ == model::unquoted(word@),
{
    trim_of(word.as_str(), '"').to_string()
}

impl Session {
    /// A session before anything was sent.
    pub fn new() -> (res: Session)
        ensures
            res@ == model::fresh(),
            model::well_formed(res@),
    {
        Session { logout: false, maildir: None, folder: None, phase: Phase::Fresh }
    }

    /// Whether a folder is selected.
    pub fn folder_selected(&self) -> (res: bool)
        ensures
            res == (self@.folder is Some),
    {
        self.folder.is_some()
    }

    fn reply(&mut self, text: String) -> (res: Action)
        ensures
            (final(self)@, res@) == model::replied(old(self)@, text@),
    {
        self.phase = Phase::Sending;
        Action::Send(text)
    }

    fn refuse(&mut self, tag: &str) -> (res: Action)
        ensures
            (final(self)@, res@) == model::refused(old(self)@, tag@),
    {
        self.reply(tagged(tag, " BAD Invalid command\r\n"))
    }

    fn greet(&mut self) -> (res: Action)
        ensures
            (final(self)@, res@) == model::greeted(old(self)@),
    {
        self.phase = Phase::Greeting;
        Action::Send("* OK Server ready.\r\n".to_string())
    }

    fn close(&mut self) -> (res: Action)
        ensures
            (final(self)@, res@) == model::closed(old(self)@),
    {
        self.phase = Phase::Closed;
        Action::Close
    }

    // --------------------------------------------------------------- login
    fn login(&mut self, tag: String, args: &[String]) -> (res: Action)
        ensures
            (final(self)@, res@) == model::login_asked(old(self)@, tag@, texts(args@)),
    {
        if args.len() < 2 {
            return self.refuse(tag.as_str());
        }
        let email = unquote(&args[0]);
        let password = unquote(&args[1]);
        self.phase = Phase::LoggingIn { tag, email: email.clone() };
        Action::Login { email, password }
    }

    fn finish_login(&mut self, tag: String, email: String, outcome: LoginOutcome) -> (res: Action)
        ensures
            (final(self)@, res@) == model::login_done(old(self)@, tag@, email@, outcome),
    {
        let success: bool = match outcome {
            LoginOutcome::Malformed => false,
            LoginOutcome::Unknown => {
                self.maildir = None;
                false
            },
            LoginOutcome::Known { verified, maildir } => {
                if verified {
                    self.maildir = Some(maildir);
                    true
                } else {
                    self.maildir = None;
                    false
                }
            },
        };
        if success {
            let mut text = tagged(tag.as_str(), " OK logged in successfully as ");
            text.append(email.as_str());
            text.append("\r\n");
            self.reply(text)
        } else {
            self.reply(tagged(tag.as_str(), " NO invalid username or password\r\n"))
        }
    }

    // -------------------------------------------------------------- select
    fn perform_select(&mut self, tag: String, args: &[String], examine: bool) -> (res: Action)
        ensures
            (final(self)@, res@) == model::select_asked(old(self)@, tag@, texts(args@), examine),
    {
        if args.len() < 1 {
            return self.refuse(tag.as_str());
        }
        match &self.maildir {
            None => self.refuse(tag.as_str()),
            Some(maildir) => {
                let name = unquote(&args[0]);
                let path = folder_path(maildir.as_str(), name.as_str());
                self.select_mailbox(tag, name, path, examine)
            },
        }
    }

    fn select_mailbox(&mut self, tag: String, name: String, path: String, examine: bool) -> (res: Action)
        ensures
            final(self)@ == model::waiting(
                old(self)@,
                PhaseView::Selecting {
                    tag: tag@,
                    folder: FolderView { name: name@, path: path@, examine },
                },
            ),
            res@ == (ActionView::OpenFolder { name: name@, path: path@, examine }),
    {
        let folder = Folder { name: name.clone(), path: path.clone(), examine };
        self.phase = Phase::Selecting { tag, folder };
        Action::OpenFolder { name, path, examine }
    }

    fn finish_select(&mut self, tag: String, folder: Folder, status: Option<FolderStatus>) -> (res: Action)
        ensures
            (final(self)@, res@) == model::select_done(old(self)@, tag@, folder@, status),
    {
        match status {
            None => {
                self.folder = None;
                self.reply(tagged(tag.as_str(), " NO error finding mailbox\r\n"))
            },
            Some(status) => {
                self.folder = Some(folder);
                let mut text: String = "* ".to_string();
                text.append(decimal(status.exists).as_str());
                text.append(" EXISTS\r\n* ");
                text.append(decimal(status.recent).as_str());
                text.append(" RECENT\r\n");
                text.append(status.unseen.as_str());
                // Both name the values of `Flag`.
                text.append("* FLAGS (\\Answered \\Deleted \\Draft \\Flagged \\Seen)\r\n");
                text.append(
                    "* OK [PERMANENTFLAGS (\\Answered \\Deleted \\Draft \\Flagged \\Seen)] Permanent flags\r\n",
                );
                text.append(tag.as_str());
                text.append(" OK ");
                text.append(status.read_status.as_str());
                text.append(" SELECT command was successful\r\n");
                self.reply(text)
            },
        }
    }

    // --------------------------------------------------- create and delete
    fn change_from(
        &mut self,
        changes: Vec<DiskChange>,
        done: usize,
        success: String,
        failure: String,
    ) -> (res: Action)
        ensures
            (final(self)@, res@) == model::changed_from(
                old(self)@,
                change_views(changes@),
                done as nat,
                success@,
                failure@,
            ),
    {
        if done < changes.len() {
            let change = copy_change(&changes[done]);
            self.phase = Phase::Changing { changes, done, success, failure };
            Action::Change(change)
        } else {
            self.reply(success)
        }
    }

    fn create(&mut self, tag: String, args: &[String]) -> (res: Action)
        ensures
            (final(self)@, res@) == model::create_asked(old(self)@, tag@, texts(args@)),
    {
        if args.len() < 1 {
            return self.refuse(tag.as_str());
        }
        match &self.maildir {
            None => self.refuse(tag.as_str()),
            Some(maildir) => {
                let name = unquote(&args[0]);
                let path = mailbox_path(maildir.as_str(), name.as_str());
                let new = join(path.as_str(), "new");
                let cur = join(path.as_str(), "cur");
                let mut changes: Vec<DiskChange> = Vec::new();
                changes.push(DiskChange::MakeDir { path: new, mode: 0o755 });
                changes.push(DiskChange::MakeDir { path: cur, mode: 0o755 });
                assert(change_views(changes@) =~= model::create_changes(path@));
                let success = tagged(tag.as_str(), " OK CREATE successful.\r\n");
                let failure = tagged(tag.as_str(), " NO Could not create folder.\r\n");
                self.change_from(changes, 0, success, failure)
            },
        }
    }

    fn delete(&mut self, tag: String, args: &[String]) -> (res: Action)
        ensures
            (final(self)@, res@) == model::delete_asked(old(self)@, tag@, texts(args@)),
    {
        if args.len() < 1 {
            return self.refuse(tag.as_str());
        }
        match &self.maildir {
            None => self.refuse(tag.as_str()),
            Some(maildir) => {
                let name = unquote(&args[0]);
                let path = mailbox_path(maildir.as_str(), name.as_str());
                let new = join(path.as_str(), "new");
                let cur = join(path.as_str(), "cur");
                self.phase = Phase::ReadingNew { tag, new: new.clone(), cur };
                Action::ReadDirectory(new)
            },
        }
    }

    fn refuse_delete(&mut self, tag: &str) -> (res: Action)
        ensures
            (final(self)@, res@) == model::replied(old(self)@, model::delete_refused(tag@)),
    {
        self.reply(tagged(tag, " NO Invalid folder.\r\n"))
    }

    fn read_new(&mut self, tag: String, new: String, cur: String, found: Option<Vec<String>>) -> (res:
        Action)
        ensures
            (final(self)@, res@) == model::new_read(
                old(self)@,
                tag@,
                new@,
                cur@,
                model::found_texts(found),
            ),
    {
        match found {
            None => self.refuse_delete(tag.as_str()),
            Some(files) => {
                let next = cur.clone();
                self.phase = Phase::ReadingCur { tag, new, cur, files };
                Action::ReadDirectory(next)
            },
        }
    }

    fn read_cur(
        &mut self,
        tag: String,
        new: String,
        cur: String,
        files: Vec<String>,
        found: Option<Vec<String>>,
    ) -> (res: Action)
        ensures
            (final(self)@, res@) == model::cur_read(
                old(self)@,
                tag@,
                new@,
                cur@,
                texts(files@),
                model::found_texts(found),
            ),
    {
        match found {
            None => self.refuse_delete(tag.as_str()),
            Some(more) => {
                let ghost removed = model::unlinks(texts(files@));
                let ghost also_removed = model::unlinks(texts(more@));
                let mut changes: Vec<DiskChange> = Vec::new();
                push_unlinks(&mut changes, &files);
                push_unlinks(&mut changes, &more);
                let ghost unlinked = changes@;
                assert(change_views(unlinked) =~= removed + also_removed);
                changes.push(DiskChange::RemoveDir(new));
                changes.push(DiskChange::RemoveDir(cur));
                assert(change_views(changes@) =~= model::delete_changes(
                    new@,
                    cur@,
                    texts(files@),
                    texts(more@),
                ));
                let success = tagged(tag.as_str(), " OK DELETE successsful.\r\n");
                let failure = tagged(tag.as_str(), " NO Invalid folder.\r\n");
                self.change_from(changes, 0, success, failure)
            },
        }
    }

    fn finish_change(
        &mut self,
        changes: Vec<DiskChange>,
        done: usize,
        success: String,
        failure: String,
        ok: bool,
    ) -> (res: Action)
        requires
            done < changes@.len(),
        ensures
            (final(self)@, res@) == model::change_done(
                old(self)@,
                change_views(changes@),
                done as nat,
                success@,
                failure@,
                ok,
            ),
    {
        if ok {
            assert(done < changes.len());
            self.change_from(changes, done + 1, success, failure)
        } else {
            self.reply(failure)
        }
    }

    // ---------------------------------------------------------------- list
    fn list(&mut self, tag: String, args: &[String]) -> (res: Action)
        requires
            args@.len() >= 2 && model::unquoted(args@[1]@).len() > 0 ==> (
            old(self)@.maildir matches Some(maildir) ==> final_name(maildir) is Some),
        ensures
            (final(self)@, res@) == model::list_asked(old(self)@, tag@, texts(args@)),
    {
        if args.len() < 2 {
            return self.refuse(tag.as_str());
        }
        let reference = unquote(&args[0]);
        let mailbox = unquote(&args[1]);
        match &self.maildir {
            None => self.refuse(tag.as_str()),
            Some(maildir) => {
                if mailbox.as_str().is_empty() {
                    let mut text: String = "* LIST (\\Noselect) \"/\" \"".to_string();
                    text.append(reference.as_str());
                    text.append("\"\r\n");
                    text.append(tag.as_str());
                    text.append(" OK List successful\r\n");
                    return self.reply(text);
                }
                match file_name(maildir.as_str()) {
                    None => self.refuse(tag.as_str()),
                    Some(root_name) => {
                        let pattern = list_pattern(
                            root_name.as_str(),
                            reference.as_str(),
                            mailbox.as_str(),
                        );
                        let valid = compiles(pattern.as_str());
                        let maildir = maildir.clone();
                        self.start_list(tag, maildir, pattern, valid)
                    },
                }
            },
        }
    }

    /// Begins a `LIST` for `pattern` in `maildir`, or refuses it where that is
    /// no valid pattern.
    pub fn start_list(&mut self, tag: String, maildir: String, pattern: String, valid: bool) -> (res:
        Action)
        ensures
            (final(self)@, res@) == model::list_started(
                old(self)@,
                tag@,
                maildir@,
                pattern@,
                valid,
            ),
    {
        if !valid {
            return self.refuse(tag.as_str());
        }
        self.phase = Phase::Surveying { tag, pattern };
        Action::Survey(normalize(maildir.as_str()))
    }

    fn finish_list(&mut self, tag: String, pattern: String, survey: Survey) -> (res: Action)
        ensures
            (final(self)@, res@) == model::list_done(old(self)@, tag@, pattern@, survey),
    {
        let responses = list(&self.maildir, &survey, pattern.as_str());
        let mut text = lines(&responses);
        text.append(tag.as_str());
        text.append(" OK list successful\r\n");
        self.reply(text)
    }

    // --------------------------------------------------- expunge and check
    fn expunge(&mut self, tag: String, purpose: Purpose) -> (res: Action)
        ensures
            (final(self)@, res@) == model::expunge_asked(old(self)@, tag@, purpose),
    {
        if self.folder.is_none() {
            return self.refuse(tag.as_str());
        }
        self.phase = Phase::Expunging { tag, purpose };
        Action::Expunge
    }

    fn say_goodbye(&mut self, tag: &str) -> (res: Action)
        ensures
            (final(self)@, res@) == model::replied(old(self)@, model::logout_text(tag@)),
    {
        let mut text: String = "* BYE Server logging out\r\n".to_string();
        text.append(tag);
        text.append(" OK Server logged out\r\n");
        self.reply(text)
    }

    fn log_out(&mut self, tag: String) -> (res: Action)
        ensures
            (final(self)@, res@) == model::logout_asked(old(self)@, tag@),
    {
        self.logout = true;
        if self.folder.is_some() {
            self.expunge(tag, Purpose::Logout)
        } else {
            self.say_goodbye(tag.as_str())
        }
    }

    fn finish_expunge(&mut self, tag: String, purpose: Purpose, numbers: Vec<usize>) -> (res: Action)
        ensures
            (final(self)@, res@) == model::expunge_done(old(self)@, tag@, purpose, numbers@),
    {
        match purpose {
            Purpose::Logout => self.say_goodbye(tag.as_str()),
            Purpose::Check => {
                self.phase = Phase::Synchronizing { tag, close: false };
                Action::Synchronize
            },
            Purpose::Close => {
                self.phase = Phase::Synchronizing { tag, close: true };
                Action::Synchronize
            },
            Purpose::Report => {
                let mut text = expunge_lines(&numbers);
                text.append(tag.as_str());
                text.append(" OK expunge completed\r\n");
                self.reply(text)
            },
        }
    }

    fn finish_synchronize(&mut self, tag: String, close: bool) -> (res: Action)
        ensures
            (final(self)@, res@) == model::synchronized(old(self)@, tag@, close),
    {
        if close {
            self.folder = None;
            self.reply(tagged(tag.as_str(), " OK close completed\r\n"))
        } else {
            self.reply(tagged(tag.as_str(), " OK Check completed\r\n"))
        }
    }

    // --------------------------------------------------------------- fetch
    fn fetch(&mut self, tag: String, args: &[String], uid: bool) -> (res: Action)
        ensures
            (final(self)@, res@) == model::fetch_asked(old(self)@, tag@, texts(args@), uid),
    {
        let command = fetch_words(args);
        self.phase = Phase::ParsingFetch { tag, uid };
        Action::ParseFetch(trim(command.as_str()).to_string())
    }

    fn finish_parse(&mut self, tag: String, uid: bool, parsed: Option<FetchCommand>) -> (res: Action)
        requires
            uid && old(self)@.folder is Some ==> (parsed matches Some(command)
                ==> command.sequence_set@.len() > 0),
        ensures
            (final(self)@, res@) == model::fetch_parsed(old(self)@, tag@, uid, parsed),
    {
        let command = match parsed {
            Some(command) => command,
            None => {
                return self.refuse(tag.as_str());
            },
        };
        if self.folder.is_none() {
            return self.refuse(tag.as_str());
        }
        let items = command.sequence_set;
        let attributes = command.attributes;
        if !uid {
            self.phase = Phase::Counting { tag, items, attributes };
            return Action::CountMessages;
        }
        match open_range(&items) {
            Some(first) => {
                self.phase = Phase::CountingSpan { tag, first, attributes };
                Action::CountMessages
            },
            None => {
                self.phase = Phase::Expanding { tag, uid: true, attributes };
                Action::Expand { items, bound: None }
            },
        }
    }

    fn finish_count(
        &mut self,
        tag: String,
        items: Vec<SequenceItem>,
        attributes: Vec<Attribute>,
        count: usize,
    ) -> (res: Action)
        ensures
            (final(self)@, res@) == model::counted(
                old(self)@,
                tag@,
                items@,
                attributes@,
                count,
            ),
    {
        if any_beyond(&items, count) {
            return self.refuse(tag.as_str());
        }
        self.phase = Phase::Expanding { tag, uid: false, attributes };
        Action::Expand { items, bound: Some(count) }
    }

    fn continue_batch(&mut self, batch: Batch) -> (res: Action)
        ensures
            (final(self)@, res@) == model::batch_continued(old(self)@, batch@),
    {
        if batch.next < batch.sequence.len() {
            let number: usize = batch.sequence[batch.next];
            if batch.uid {
                self.phase = Phase::FindingIndex(batch);
                Action::FindIndex(number)
            } else {
                let attributes = copy_attributes(&batch.attributes);
                self.phase = Phase::Fetching(batch);
                Action::FetchMessage { index: number.wrapping_sub(1), attributes }
            }
        } else {
            let mut text = batch.response;
            text.append(batch.tag.as_str());
            if batch.uid {
                text.append(" OK UID FETCH completed\r\n");
            } else {
                text.append(" OK FETCH completed\n");
            }
            self.reply(text)
        }
    }

    fn mark_batch(&mut self, batch: Batch, left: usize) -> (res: Action)
        ensures
            (final(self)@, res@) == model::batch_marked(old(self)@, batch@, left as nat),
    {
        if left == 0 {
            return self.continue_batch(batch);
        }
        let mut flags = FlagSet::new();
        flags.insert(Flag::Seen);
        let uid = batch.uid;
        let sequence = batch.sequence.clone();
        assert(sequence@ =~= batch.sequence@);
        self.phase = Phase::Marking { batch, left };
        Action::Store { sequence, mode: StoreMode::Add, silent: true, flags, uid }
    }

    fn finish_expand(
        &mut self,
        tag: String,
        uid: bool,
        attributes: Vec<Attribute>,
        sequence: Vec<usize>,
    ) -> (res: Action)
        ensures
            (final(self)@, res@) == model::expanded(
                old(self)@,
                tag@,
                uid,
                attributes@,
                sequence@,
            ),
    {
        if sequence.len() == 0 {
            return self.refuse(tag.as_str());
        }
        let marks = count_body_sections(&attributes);
        let response = String::new();
        self.mark_batch(Batch { tag, uid, sequence, attributes, next: 0, response }, marks)
    }

    fn finish_message(&mut self, batch: Batch, message: String) -> (res: Action)
        requires
            batch@.next < batch@.sequence.len(),
        ensures
            (final(self)@, res@) == model::batch_fetched(old(self)@, batch@, message@),
    {
        let mut batch = batch;
        assert(batch.next < batch.sequence.len());
        let line = fetch_line(batch.sequence[batch.next], message.as_str());
        batch.response.append(line.as_str());
        batch.next += 1;
        self.continue_batch(batch)
    }

    fn finish_find(&mut self, batch: Batch, index: Option<usize>) -> (res: Action)
        requires
            batch@.next < batch@.sequence.len(),
        ensures
            (final(self)@, res@) == model::batch_index_found(old(self)@, batch@, index),
    {
        match index {
            Some(index) => {
                let attributes = copy_attributes(&batch.attributes);
                self.phase = Phase::FetchingFound { batch, index };
                Action::FetchMessage { index, attributes }
            },
            None => {
                let mut batch = batch;
                assert(batch.next < batch.sequence.len());
                batch.next += 1;
                self.continue_batch(batch)
            },
        }
    }

    fn finish_found(&mut self, batch: Batch, index: usize, message: String) -> (res: Action)
        requires
            batch@.next < batch@.sequence.len(),
        ensures
            (final(self)@, res@) == model::batch_found_fetched(
                old(self)@,
                batch@,
                index,
                message@,
            ),
    {
        let mut batch = batch;
        assert(batch.next < batch.sequence.len());
        let line = uid_fetch_line(index, message.as_str(), "UID ", batch.sequence[batch.next]);
        batch.response.append(line.as_str());
        batch.next += 1;
        self.continue_batch(batch)
    }

    fn finish_span_count(
        &mut self,
        tag: String,
        first: usize,
        attributes: Vec<Attribute>,
        count: usize,
    ) -> (res: Action)
        ensures
            (final(self)@, res@) == model::span_counted(
                old(self)@,
                tag@,
                first,
                attributes@,
                count,
            ),
    {
        if count == 0 {
            return self.refuse(tag.as_str());
        }
        self.phase = Phase::FindingStart { tag, first, count, attributes };
        Action::FindIndex(first)
    }

    fn continue_span(&mut self, span: Span) -> (res: Action)
        ensures
            (final(self)@, res@) == model::span_continued(old(self)@, span@),
    {
        if span.index < span.count {
            let index = span.index;
            let attributes = copy_attributes(&span.attributes);
            self.phase = Phase::FetchingSpan(span);
            Action::FetchMessage { index, attributes }
        } else {
            let mut text = span.response;
            text.append(span.tag.as_str());
            text.append(" OK UID FETCH completed\r\n");
            self.reply(text)
        }
    }

    fn finish_start(
        &mut self,
        tag: String,
        first: usize,
        count: usize,
        attributes: Vec<Attribute>,
        found: Option<usize>,
    ) -> (res: Action)
        ensures
            (final(self)@, res@) == model::start_found(
                old(self)@,
                tag@,
                first,
                count,
                attributes@,
                found,
            ),
    {
        let index: usize = match found {
            Some(index) => index,
            None => {
                if first != 1 {
                    return self.refuse(tag.as_str());
                }
                0
            },
        };
        let response = String::new();
        self.continue_span(Span { tag, attributes, index, count, response })
    }

    fn finish_span_message(&mut self, span: Span, message: String) -> (res: Action)
        ensures
            (final(self)@, res@) == model::span_fetched(old(self)@, span@, message@),
    {
        let index = span.index;
        self.phase = Phase::FindingUid { span, message };
        Action::FindUid(index)
    }

    fn finish_span_uid(&mut self, span: Span, message: String, uid: usize) -> (res: Action)
        ensures
            (final(self)@, res@) == model::span_uid_found(old(self)@, span@, message@, uid),
    {
        let mut span = span;
        let line = uid_fetch_line(span.index, message.as_str(), " UID ", uid);
        span.response.append(line.as_str());
        span.index = span.index.wrapping_add(1);
        self.continue_span(span)
    }

    // --------------------------------------------------------------- store
    fn store(&mut self, tag: String, args: &[String], uid: bool) -> (res: Action)
        ensures
            (final(self)@, res@) == model::store_asked(old(self)@, tag@, texts(args@), uid),
    {
        if args.len() < 3 {
            return self.refuse(tag.as_str());
        }
        let sequence_set = unquote(&args[0]);
        let data_name = unquote(&args[1]);
        let data_value = unquote(&args[2]);
        let mut item = split(lower(data_name.as_str()).as_str(), '.');
        let ghost parts = texts(item@);
        if item.len() > 2 {
            return self.refuse(tag.as_str());
        }
        let silent: bool = item.len() == 2;
        if silent && !same(item[1].as_str(), "silent") {
            return self.refuse(tag.as_str());
        }
        let name = item.swap_remove(0);
        assert(name@ == parts[0]);
        let words = split(trim_of(trim_of(data_value.as_str(), '('), ')'), ' ');
        self.phase = Phase::ParsingStore { tag, silent, uid };
        Action::ParseStore { sequence_set, name, words }
    }

    fn finish_store_parse(&mut self, tag: String, silent: bool, uid: bool, parsed: StoreWords) -> (res:
        Action)
        ensures
            (final(self)@, res@) == model::store_parsed(old(self)@, tag@, silent, uid, parsed),
    {
        let flags = collect_flags(&parsed.flags);
        if self.folder.is_none() {
            return self.refuse(tag.as_str());
        }
        match (parsed.mode, parsed.sequence_set) {
            (Some(mode), Some(items)) => {
                self.phase = Phase::ExpandingStore { tag, mode, silent, flags, uid };
                Action::Expand { items, bound: None }
            },
            _ => self.refuse(tag.as_str()),
        }
    }

    fn finish_store_expand(
        &mut self,
        tag: String,
        mode: StoreMode,
        silent: bool,
        flags: FlagSet,
        uid: bool,
        sequence: Vec<usize>,
    ) -> (res: Action)
        ensures
            (final(self)@, res@) == model::store_expanded(
                old(self)@,
                tag@,
                mode,
                silent,
                flags@,
                uid,
                sequence@,
            ),
    {
        self.phase = Phase::Storing { tag };
        Action::Store { sequence, mode, silent, flags, uid }
    }

    fn finish_store(&mut self, tag: String, text: String) -> (res: Action)
        ensures
            (final(self)@, res@) == model::stored(old(self)@, tag@, text@),
    {
        let mut text = text;
        text.append(tag.as_str());
        text.append(" OK STORE complete\r\n");
        self.reply(text)
    }

    // ------------------------------------------------------------ dispatch
    fn uid(&mut self, tag: String, args: &[String]) -> (res: Action)
        ensures
            (final(self)@, res@) == model::uid_asked(old(self)@, tag@, texts(args@)),
    {
        if args.len() == 0 {
            return self.refuse(tag.as_str());
        }
        let rest = slice_subrange(args, 1, args.len());
        assert(texts(rest@) =~= texts(args@).skip(1));
        match parse_command(args[0].as_str()) {
            Command::Fetch => self.fetch(tag, rest, true),
            Command::Store => self.store(tag, rest, true),
            _ => self.refuse(tag.as_str()),
        }
    }

    /// Takes a line of the client and says what is to be done for it.
    pub fn interpret(&mut self, line: &str) -> (res: Action)
        requires
            !model::lists_nameless(old(self)@, line@),
        ensures
            (final(self)@, res@) == model::interpreted(old(self)@, line@),
    {
        let parts = split_words(line);
        let ghost w = words(line@);
        let tag = parts[0].clone();
        assert(tag@ == w[0]);
        if parts.len() < 2 {
            return self.refuse(tag.as_str());
        }
        let args = slice_subrange(parts.as_slice(), 2, parts.len());
        assert(texts(args@) =~= w.skip(2));
        assert(parts@[1]@ == w[1]);
        match parse_command(parts[1].as_str()) {
            Command::Noop => self.reply(tagged(tag.as_str(), " OK NOOP\r\n")),
            Command::Capability => {
                let mut text: String = "* CAPABILITY IMAP4rev1 CHILDREN\r\n".to_string();
                text.append(tag.as_str());
                text.append(" OK Capability successful\r\n");
                self.reply(text)
            },
            Command::Login => self.login(tag, args),
            Command::Logout => self.log_out(tag),
            Command::Select => self.perform_select(tag, args, false),
            Command::Examine => self.perform_select(tag, args, true),
            Command::Create => self.create(tag, args),
            Command::Delete => self.delete(tag, args),
            Command::List => {
                assert(args@.len() >= 2 ==> args@[1]@ == w[3]);
                self.list(tag, args)
            },
            Command::Check => self.expunge(tag, Purpose::Check),
            Command::Close => self.expunge(tag, Purpose::Close),
            Command::Expunge => self.expunge(tag, Purpose::Report),
            Command::Fetch => self.fetch(tag, args, false),
            Command::Uid => self.uid(tag, args),
            Command::Store => self.store(tag, args, false),
            Command::Unknown => self.refuse(tag.as_str()),
        }
    }

    /// Whether the line is a `LIST` that needs the name of a mail directory
    /// which has none.
    fn lists_nameless(&self, line: &str) -> (res: bool)
        ensures
            res == model::lists_nameless(self@, line@),
    {
        match &self.maildir {
            None => false,
            Some(maildir) => {
                let parts = split_words(line);
                let ghost w = words(line@);
                if parts.len() < 4 {
                    return false;
                }
                assert(parts@[1]@ == w[1] && parts@[3]@ == w[3]);
                let mailbox = unquote(&parts[3]);
                file_name(maildir.as_str()).is_none() && (match parse_command(parts[1].as_str()) {
                    Command::List => true,
                    _ => false,
                }) && !mailbox.as_str().is_empty()
            },
        }
    }

    /// Whether the session can go on from the event.
    pub fn accepts(&self, event: &Event) -> (res: bool)
        ensures
            res == model::accepts(self@, *event),
    {
        match (&self.phase, event) {
            (Phase::Fresh | Phase::Closed, Event::Connected) => true,
            (Phase::Greeting, Event::Sent) => true,
            (Phase::Greeting, Event::StreamFailed) => true,
            (Phase::Sending, Event::Sent) => true,
            (Phase::Sending, Event::StreamFailed) => true,
            (Phase::Reading, Event::Line(line)) => !self.lists_nameless(line.as_str()),
            (Phase::Reading, Event::StreamFailed) => true,
            (Phase::LoggingIn { .. }, Event::LoginDone(_)) => true,
            (Phase::Selecting { .. }, Event::FolderOpened(_)) => true,
            (Phase::ReadingNew { .. }, Event::DirectoryRead(_)) => true,
            (Phase::ReadingCur { .. }, Event::DirectoryRead(_)) => true,
            (Phase::Changing { .. }, Event::DiskChanged(_)) => true,
            (Phase::Surveying { .. }, Event::Surveyed(_)) => true,
            (Phase::Expunging { .. }, Event::Expunged(_)) => true,
            (Phase::Synchronizing { .. }, Event::Synchronized) => true,
            (Phase::ParsingFetch { tag, uid }, Event::FetchParsed(parsed)) => {
                match parsed {
                    Some(command) => !(*uid && self.folder.is_some() && command.sequence_set.len() == 0),
                    None => true,
                }
            },
            (Phase::Counting { .. }, Event::Counted(_)) => true,
            (Phase::Expanding { .. }, Event::Expanded(_)) => true,
            (Phase::Marking { .. }, Event::Stored(_)) => true,
            (Phase::Fetching(_), Event::Fetched(_)) => true,
            (Phase::FindingIndex(_), Event::IndexFound(_)) => true,
            (Phase::FetchingFound { .. }, Event::Fetched(_)) => true,
            (Phase::CountingSpan { .. }, Event::Counted(_)) => true,
            (Phase::FindingStart { .. }, Event::IndexFound(_)) => true,
            (Phase::FetchingSpan(_), Event::Fetched(_)) => true,
            (Phase::FindingUid { .. }, Event::UidFound(_)) => true,
            (Phase::ParsingStore { .. }, Event::StoreParsed(_)) => true,
            (Phase::ExpandingStore { .. }, Event::Expanded(_)) => true,
            (Phase::Storing { .. }, Event::Stored(_)) => true,
            _ => false,
        }
    }

    /// Goes on with the work on the messages of a folder.
    #[verifier::rlimit(40)]
    fn handle_messages(&mut self, phase: Phase, event: Event) -> (res: Action)
        requires
            handles_messages(phase@),
            model::well_formed(model::waiting(old(self)@, phase@)),
            model::accepts(model::waiting(old(self)@, phase@), event),
        ensures
            (final(self)@, res@) == model::step(model::waiting(old(self)@, phase@), event),
    {
        match (phase, event) {
            (Phase::ParsingFetch { tag, uid }, Event::FetchParsed(parsed)) => self.finish_parse(
                tag,
                uid,
                parsed,
            ),
            (Phase::Counting { tag, items, attributes }, Event::Counted(count)) => self.finish_count(
                tag,
                items,
                attributes,
                count,
            ),
            (
                Phase::Expanding { tag, uid, attributes },
                Event::Expanded(sequence),
            ) => self.finish_expand(tag, uid, attributes, sequence),
            (Phase::Marking { batch, left }, Event::Stored(_)) => self.mark_batch(batch, left - 1),
            (Phase::Fetching(batch), Event::Fetched(message)) => self.finish_message(batch, message),
            (Phase::FindingIndex(batch), Event::IndexFound(index)) => self.finish_find(batch, index),
            (
                Phase::FetchingFound { batch, index },
                Event::Fetched(message),
            ) => self.finish_found(batch, index, message),
            (
                Phase::CountingSpan { tag, first, attributes },
                Event::Counted(count),
            ) => self.finish_span_count(tag, first, attributes, count),
            (
                Phase::FindingStart { tag, first, count, attributes },
                Event::IndexFound(found),
            ) => self.finish_start(tag, first, count, attributes, found),
            (Phase::FetchingSpan(span), Event::Fetched(message)) => self.finish_span_message(
                span,
                message,
            ),
            (Phase::FindingUid { span, message }, Event::UidFound(uid)) => self.finish_span_uid(
                span,
                message,
                uid,
            ),
            (
                Phase::ParsingStore { tag, silent, uid },
                Event::StoreParsed(parsed),
            ) => self.finish_store_parse(tag, silent, uid, parsed),
            (
                Phase::ExpandingStore { tag, mode, silent, flags, uid },
                Event::Expanded(sequence),
            ) => self.finish_store_expand(tag, mode, silent, flags, uid, sequence),
            (Phase::Storing { tag }, Event::Stored(text)) => self.finish_store(tag, text),
            _ => self.close(),
        }
    }

    /// Takes what happened last and says what is to be done next.
    #[verifier::rlimit(40)]
    pub fn handle(&mut self, event: Event) -> (res: Action)
        requires
            model::well_formed(old(self)@),
            model::accepts(old(self)@, event),
        ensures
            (final(self)@, res@) == model::step(old(self)@, event),
            model::well_formed(final(self)@),
    {
        proof {
            steps_keep_well_formed(self@, event);
        }
        let mut phase = Phase::Closed;
        std::mem::swap(&mut phase, &mut self.phase);
        match (phase, event) {
            (Phase::Fresh | Phase::Closed, Event::Connected) => self.greet(),
            (Phase::Greeting, Event::Sent) => {
                self.phase = Phase::Reading;
                Action::ReadLine
            },
            (Phase::Sending, Event::Sent) => {
                if self.logout {
                    self.close()
                } else {
                    self.phase = Phase::Reading;
                    Action::ReadLine
                }
            },
            (Phase::Reading, Event::Line(line)) => {
                if line.as_str().is_empty() {
                    self.close()
                } else {
                    self.interpret(line.as_str())
                }
            },
            (Phase::LoggingIn { tag, email }, Event::LoginDone(outcome)) => self.finish_login(
                tag,
                email,
                outcome,
            ),
            (Phase::Selecting { tag, folder }, Event::FolderOpened(status)) => self.finish_select(
                tag,
                folder,
                status,
            ),
            (Phase::ReadingNew { tag, new, cur }, Event::DirectoryRead(found)) => self.read_new(
                tag,
                new,
                cur,
                found,
            ),
            (
                Phase::ReadingCur { tag, new, cur, files },
                Event::DirectoryRead(found),
            ) => self.read_cur(tag, new, cur, files, found),
            (
                Phase::Changing { changes, done, success, failure },
                Event::DiskChanged(ok),
            ) => self.finish_change(changes, done, success, failure, ok),
            (Phase::Surveying { tag, pattern }, Event::Surveyed(survey)) => self.finish_list(
                tag,
                pattern,
                survey,
            ),
            (Phase::Expunging { tag, purpose }, Event::Expunged(numbers)) => self.finish_expunge(
                tag,
                purpose,
                numbers,
            ),
            (Phase::Synchronizing { tag, close }, Event::Synchronized) => self.finish_synchronize(
                tag,
                close,
            ),
            (
                Phase::Greeting | Phase::Sending | Phase::Reading,
                Event::StreamFailed,
            ) => self.close(),
            (phase, event) => self.handle_messages(phase, event),
        }
    }
}

/// Where the folder `name` is opened.
fn folder_path(maildir: &str, name: &str) -> (res: String)
    ensures
        res@ == joined_path(maildir@, replaced_first(name@, "INBOX"@, "."@)),
{
    proof {
        reveal_strlit(".");
    }
    let place = replace_inbox(name, ".");
    join(maildir, place.as_str())
}

/// Where the mailbox `name` is on disk.
fn mailbox_path(maildir: &str, name: &str) -> (res: String)
    ensures
        res@ == model::mailbox_path(maildir@, name@),
{
    proof {
        reveal_strlit("");
    }
    let place = replace_inbox(name, "");
    join(maildir, place.as_str())
}

fn copy_change(change: &DiskChange) -> (res: DiskChange)
    ensures
        res@ == change@,
{
    match change {
        DiskChange::MakeDir { path, mode } => DiskChange::MakeDir { path: path.clone(), mode: *mode },
        DiskChange::Unlink(path) => DiskChange::Unlink(path.clone()),
        DiskChange::RemoveDir(path) => DiskChange::RemoveDir(path.clone()),
    }
}

/// Adds the removal of each of the files.
fn push_unlinks(changes: &mut Vec<DiskChange>, files: &Vec<String>)
    ensures
        change_views(final(changes)@) == change_views(old(changes)@) + model::unlinks(texts(files@)),
{
    let ghost start = change_views(changes@);
    let ghost all = model::unlinks(texts(files@));
    let mut i: usize = 0;
    assert(change_views(changes@) =~= start + all.take(0));
    while i < files.len()
        invariant
            i <= files.len(),
            all == model::unlinks(texts(files@)),
            change_views(changes@) == start + all.take(i as int),
        decreases files.len() - i,
    {
        let ghost past = change_views(changes@);
        changes.push(DiskChange::Unlink(files[i].clone()));
        assert(change_views(changes@) =~= past.push(all[i as int]));
        assert(start + all.take(i + 1) =~= (start + all.take(i as int)).push(all[i as int]));
        i += 1;
    }
    assert(all.take(i as int) =~= all);
}

/// The pattern for the paths that a `LIST` asks for.
fn list_pattern(root_name: &str, reference: &str, mailbox: &str) -> (res: String)
    ensures
        res@ == model::list_pattern(root_name@, reference@, mailbox@),
{
    proof {
        reveal_strlit("*");
        reveal_strlit("%");
        reveal_strlit("INBOX");
    }
    let any = replace(mailbox, "*", ".*");
    let wild = replace(any.as_str(), "%", "[^/]*");
    let plain = replace(wild.as_str(), "INBOX", "");
    let mut pattern: String = root_name.to_string();
    pattern.append("/?");
    pattern.append(reference);
    pattern.append("/?");
    pattern.append(plain.as_str());
    pattern.append("$");
    pattern
}

/// The lines one after the other.
fn lines(list: &Vec<String>) -> (res: String)
    ensures
        res@ == model::lines(texts(list@)),
{
    let ghost all = texts(list@);
    let mut res: String = String::new();
    let mut i: usize = 0;
    assert(all.take(0) =~= Seq::empty());
    while i < list.len()
        invariant
            i <= list.len(),
            all == texts(list@),
            res@ == model::lines(all.take(i as int)),
        decreases list.len() - i,
    {
        assert(all.take(i + 1).drop_last() =~= all.take(i as int));
        assert(all.take(i + 1).last() == list@[i as int]@);
        res.append(list[i].as_str());
        res.append("\r\n");
        i += 1;
    }
    assert(all.take(i as int) =~= all);
    res
}

/// The responses on the messages that were expunged.
fn expunge_lines(numbers: &Vec<usize>) -> (res: String)
    ensures
        res@ == model::expunge_lines(numbers@),
{
    let mut res: String = String::new();
    let mut i: usize = 0;
    assert(numbers@.take(0) =~= Seq::empty());
    while i < numbers.len()
        invariant
            i <= numbers.len(),
            res@ == model::expunge_lines(numbers@.take(i as int)),
        decreases numbers.len() - i,
    {
        assert(numbers@.take(i + 1).drop_last() =~= numbers@.take(i as int));
        res.append("* ");
        res.append(decimal(numbers[i]).as_str());
        res.append(" EXPUNGE\r\n");
        i += 1;
    }
    assert(numbers@.take(i as int) =~= numbers@);
    res
}

/// `FETCH` and its arguments, with a space before each.
fn fetch_words(args: &[String]) -> (res: String)
    ensures
        res@ == model::fetch_words(texts(args@)),
{
    let ghost all = texts(args@);
    let mut res: String = "FETCH".to_string();
    let mut i: usize = 0;
    assert(all.take(0) =~= Seq::empty());
    while i < args.len()
        invariant
            i <= args.len(),
            all == texts(args@),
            res@ == model::fetch_words(all.take(i as int)),
        decreases args.len() - i,
    {
        assert(all.take(i + 1).drop_last() =~= all.take(i as int));
        assert(all.take(i + 1).last() == args@[i as int]@);
        res.append(" ");
        res.append(args[i].as_str());
        i += 1;
    }
    assert(all.take(i as int) =~= all);
    res
}

/// The response on a message that was fetched by its sequence number.
fn fetch_line(number: usize, message: &str) -> (res: String)
    ensures
        res@ == model::fetch_line(number, message@),
{
    let mut res: String = "* ".to_string();
    res.append(decimal(number).as_str());
    res.append(" FETCH (");
    res.append(message);
    res.append(")\r\n");
    res
}

/// The response on a message, with its UID behind the word `label`.
fn uid_fetch_line(index: usize, message: &str, label: &str, uid: usize) -> (res: String)
    ensures
        res@ == "* "@ + decimal_text(model::after(index) as nat) + " FETCH ("@ + message@ + label@
            + decimal_text(uid as nat) + ")\r\n"@,
{
    let mut res: String = "* ".to_string();
    res.append(decimal(index.wrapping_add(1)).as_str());
    res.append(" FETCH (");
    res.append(message);
    res.append(label);
    res.append(decimal(uid).as_str());
    res.append(")\r\n");
    res
}

} // verus!
