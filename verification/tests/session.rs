use imap_session::action::{Action, DiskChange};
use imap_session::command::{Attribute, FetchCommand, SequenceItem};
use imap_session::event::{Event, FolderStatus, LoginOutcome, StoreWords};
use imap_session::listing::{Directory, Entry, Survey};
use imap_session::message::{Flag, FlagSet, StoreMode};
use imap_session::session::Session;

fn tell(session: &mut Session, event: Event) -> Action {
    assert!(session.accepts(&event), "{:?}", event);
    session.handle(event)
}

fn send(text: &str) -> Action {
    Action::Send(text.to_string())
}

fn line(session: &mut Session, text: &str) -> Action {
    tell(session, Event::Line(format!("{}\r\n", text)))
}

fn connected() -> Session {
    let mut session = Session::new();
    assert_eq!(tell(&mut session, Event::Connected), send("* OK Server ready.\r\n"));
    assert_eq!(tell(&mut session, Event::Sent), Action::ReadLine);
    session
}

/// After a reply the next line is read.
fn next(session: &mut Session) {
    assert_eq!(tell(session, Event::Sent), Action::ReadLine);
}

fn logged_in_at(maildir: &str) -> Session {
    let mut session = connected();
    assert_eq!(
        line(&mut session, "1 LOGIN \"me@example.org\" \"pw\""),
        Action::Login { email: "me@example.org".to_string(), password: "pw".to_string() }
    );
    let outcome = LoginOutcome::Known { verified: true, maildir: maildir.to_string() };
    assert_eq!(
        tell(&mut session, Event::LoginDone(outcome)),
        send("1 OK logged in successfully as me@example.org\r\n")
    );
    next(&mut session);
    session
}

fn logged_in() -> Session {
    logged_in_at("mail/me")
}

fn status() -> FolderStatus {
    FolderStatus {
        exists: 12,
        recent: 3,
        unseen: "* OK [UNSEEN 7] Message 7 is the first unseen\r\n".to_string(),
        read_status: "[READ-WRITE]".to_string(),
    }
}

fn selected() -> Session {
    let mut session = logged_in();
    assert_eq!(
        line(&mut session, "2 select \"INBOX\""),
        Action::OpenFolder { name: "INBOX".to_string(), path: "mail/me".to_string(), examine: false }
    );
    tell(&mut session, Event::FolderOpened(Some(status())));
    next(&mut session);
    assert!(session.folder_selected());
    session
}

const BAD: &str = "t BAD Invalid command\r\n";

#[test]
fn a_session_greets_and_reads() {
    connected();
}

#[test]
fn a_stream_that_fails_ends_the_session() {
    let mut session = Session::new();
    tell(&mut session, Event::Connected);
    assert_eq!(tell(&mut session, Event::StreamFailed), Action::Close);
    let mut session = connected();
    assert_eq!(tell(&mut session, Event::StreamFailed), Action::Close);
    let mut session = connected();
    assert_eq!(tell(&mut session, Event::Line(String::new())), Action::Close);
    assert!(!session.accepts(&Event::Sent));
}

#[test]
fn a_session_is_served_again_after_its_stream_failed() {
    let mut session = selected();
    assert_eq!(tell(&mut session, Event::StreamFailed), Action::Close);
    for _ in 0..2 {
        assert_eq!(tell(&mut session, Event::Connected), send("* OK Server ready.\r\n"));
        assert_eq!(tell(&mut session, Event::Sent), Action::ReadLine);
        assert!(session.folder_selected());
        assert_eq!(line(&mut session, "t expunge"), Action::Expunge);
        tell(&mut session, Event::Expunged(vec![]));
        next(&mut session);
        assert_eq!(tell(&mut session, Event::Line(String::new())), Action::Close);
    }
    tell(&mut session, Event::Connected);
    assert_eq!(tell(&mut session, Event::StreamFailed), Action::Close);
}

#[test]
fn a_session_that_logged_out_answers_one_line_when_served_again() {
    let mut session = logged_in();
    line(&mut session, "t logout");
    assert_eq!(tell(&mut session, Event::Sent), Action::Close);
    for text in ["t noop", "t capability"] {
        assert_eq!(tell(&mut session, Event::Connected), send("* OK Server ready.\r\n"));
        assert_eq!(tell(&mut session, Event::Sent), Action::ReadLine);
        assert!(matches!(line(&mut session, text), Action::Send(_)));
        assert_eq!(tell(&mut session, Event::Sent), Action::Close);
    }
    tell(&mut session, Event::Connected);
    tell(&mut session, Event::Sent);
    assert_eq!(line(&mut session, "t create a"), make("mail/me/a/new"));
    tell(&mut session, Event::DiskChanged(true));
    tell(&mut session, Event::DiskChanged(true));
    assert_eq!(tell(&mut session, Event::Sent), Action::Close);
}

#[test]
fn events_out_of_turn_are_not_accepted() {
    let session = connected();
    assert!(!session.accepts(&Event::Connected));
    assert!(!session.accepts(&Event::Sent));
    assert!(!session.accepts(&Event::Counted(1)));
    assert!(session.accepts(&Event::Line("t noop".to_string())));
}

#[test]
fn noop_and_capability() {
    let mut session = connected();
    assert_eq!(line(&mut session, "t noop"), send("t OK NOOP\r\n"));
    next(&mut session);
    assert_eq!(line(&mut session, "t NoOp"), send("t OK NOOP\r\n"));
    next(&mut session);
    assert_eq!(
        line(&mut session, "a1 CAPABILITY"),
        send("* CAPABILITY IMAP4rev1 CHILDREN\r\na1 OK Capability successful\r\n")
    );
}

#[test]
fn what_is_no_command_is_refused() {
    let mut session = connected();
    for text in ["t", "t  noop", "t nonsense", "t uid", "t uid copy 1"] {
        assert_eq!(line(&mut session, text), send(BAD), "{}", text);
        next(&mut session);
    }
    assert_eq!(line(&mut session, ""), send(" BAD Invalid command\r\n"));
}

#[test]
fn a_login_needs_a_name_and_a_password() {
    let mut session = connected();
    assert_eq!(line(&mut session, "t login me"), send(BAD));
    next(&mut session);
    assert_eq!(
        line(&mut session, "t login me pw extra"),
        Action::Login { email: "me".to_string(), password: "pw".to_string() }
    );
    assert_eq!(
        tell(&mut session, Event::LoginDone(LoginOutcome::Malformed)),
        send("t NO invalid username or password\r\n")
    );
}

#[test]
fn a_failed_login_logs_out() {
    for outcome in [
        LoginOutcome::Unknown,
        LoginOutcome::Known { verified: false, maildir: "x".to_string() },
    ] {
        let mut session = logged_in();
        line(&mut session, "t login you no");
        assert_eq!(
            tell(&mut session, Event::LoginDone(outcome)),
            send("t NO invalid username or password\r\n")
        );
        next(&mut session);
        assert_eq!(line(&mut session, "t create a"), send(BAD));
    }
}

#[test]
fn a_malformed_login_changes_nothing() {
    let mut session = logged_in();
    line(&mut session, "t login you no");
    tell(&mut session, Event::LoginDone(LoginOutcome::Malformed));
    next(&mut session);
    assert_eq!(
        line(&mut session, "t delete a"),
        Action::ReadDirectory("mail/me/a/new".to_string())
    );
}

#[test]
fn mailboxes_need_a_login() {
    let mut session = connected();
    for text in ["t select a", "t examine a", "t create a", "t delete a", "t list a b", "t list a \"\""] {
        assert_eq!(line(&mut session, text), send(BAD), "{}", text);
        next(&mut session);
    }
}

#[test]
fn commands_on_mailboxes_need_a_name() {
    let mut session = logged_in();
    for text in ["t select", "t examine", "t create", "t delete", "t list", "t list a"] {
        assert_eq!(line(&mut session, text), send(BAD), "{}", text);
        next(&mut session);
    }
}

#[test]
fn messages_need_a_folder() {
    let mut session = logged_in();
    for text in ["t check", "t close", "t expunge", "t store 1", "t store 1 flags"] {
        assert_eq!(line(&mut session, text), send(BAD), "{}", text);
        next(&mut session);
    }
    line(&mut session, "t fetch 1 flags");
    let command = FetchCommand { sequence_set: vec![SequenceItem::Number(1)], attributes: vec![] };
    assert_eq!(tell(&mut session, Event::FetchParsed(Some(command))), send(BAD));
    next(&mut session);
    line(&mut session, "t store 1 flags (\\Seen)");
    let words = StoreWords {
        sequence_set: Some(vec![SequenceItem::Number(1)]),
        mode: Some(StoreMode::Replace),
        flags: vec![Some(Flag::Seen)],
    };
    assert_eq!(tell(&mut session, Event::StoreParsed(words)), send(BAD));
}

#[test]
fn select_shows_the_folder() {
    let mut session = logged_in();
    assert_eq!(
        line(&mut session, "t SELECT \"work/INBOX\""),
        Action::OpenFolder {
            name: "work/INBOX".to_string(),
            path: "mail/me/work".to_string(),
            examine: false,
        }
    );
    assert_eq!(
        tell(&mut session, Event::FolderOpened(Some(status()))),
        send(
            "* 12 EXISTS\r\n* 3 RECENT\r\n* OK [UNSEEN 7] Message 7 is the first unseen\r\n\
             * FLAGS (\\Answered \\Deleted \\Draft \\Flagged \\Seen)\r\n\
             * OK [PERMANENTFLAGS (\\Answered \\Deleted \\Draft \\Flagged \\Seen)] Permanent flags\r\n\
             t OK [READ-WRITE] SELECT command was successful\r\n"
        )
    );
    assert!(session.folder_selected());
}

#[test]
fn examine_is_select_to_read_only() {
    let mut session = logged_in();
    assert_eq!(
        line(&mut session, "t EXAMINE work"),
        Action::OpenFolder { name: "work".to_string(), path: "mail/me/work".to_string(), examine: true }
    );
}

#[test]
fn select_and_examine_differ_in_the_read_status() {
    let reply = |command: &str, read_status: &str| {
        let mut session = logged_in();
        line(&mut session, &format!("t {} work", command));
        let status = FolderStatus { read_status: read_status.to_string(), ..status() };
        match tell(&mut session, Event::FolderOpened(Some(status))) {
            Action::Send(text) => text,
            action => panic!("{:?}", action),
        }
    };
    let written = reply("select", "[READ-WRITE]");
    let read = reply("examine", "[READ-ONLY]");
    assert_eq!(written.replace("[READ-WRITE]", "[READ-ONLY]"), read);
    assert!(read.ends_with("t OK [READ-ONLY] SELECT command was successful\r\n"));
}

#[test]
fn select_goes_by_its_first_argument_without_quotes() {
    for text in ["t select work", "t select \"work\"", "t select \"\"work\" more words"] {
        let mut session = logged_in();
        assert_eq!(
            line(&mut session, text),
            Action::OpenFolder {
                name: "work".to_string(),
                path: "mail/me/work".to_string(),
                examine: false,
            },
            "{}",
            text
        );
    }
}

#[test]
fn folders_are_opened_by_normal_paths() {
    for (maildir, name, path) in [
        ("/m", "a/../b", "/m/b"),
        ("/m/", "INBOX", "/m"),
        ("/m", "a//b/", "/m/a/b"),
        ("/m", "..", "/"),
        ("/m", "/etc/x", "/etc/x"),
        ("./m", "./a", "m/a"),
    ] {
        let mut session = logged_in_at(maildir);
        assert_eq!(
            line(&mut session, &format!("t select {}", name)),
            Action::OpenFolder { name: name.to_string(), path: path.to_string(), examine: false }
        );
    }
}

#[test]
fn a_selection_that_fails_leaves_no_folder() {
    let mut session = selected();
    line(&mut session, "t select nowhere");
    assert_eq!(
        tell(&mut session, Event::FolderOpened(None)),
        send("t NO error finding mailbox\r\n")
    );
    assert!(!session.folder_selected());
    next(&mut session);
    assert_eq!(line(&mut session, "t expunge"), send(BAD));
}

fn make(path: &str) -> Action {
    Action::Change(DiskChange::MakeDir { path: path.to_string(), mode: 0o755 })
}

fn unlink(path: &str) -> Action {
    Action::Change(DiskChange::Unlink(path.to_string()))
}

fn remove(path: &str) -> Action {
    Action::Change(DiskChange::RemoveDir(path.to_string()))
}

#[test]
fn create_makes_both_directories() {
    let mut session = logged_in();
    assert_eq!(line(&mut session, "t create \"a/b\""), make("mail/me/a/b/new"));
    assert_eq!(tell(&mut session, Event::DiskChanged(true)), make("mail/me/a/b/cur"));
    assert_eq!(tell(&mut session, Event::DiskChanged(true)), send("t OK CREATE successful.\r\n"));
    next(&mut session);
    // Only the first INBOX stands for the mail directory.
    assert_eq!(line(&mut session, "t create INBOX"), make("mail/me/new"));
    tell(&mut session, Event::DiskChanged(true));
    tell(&mut session, Event::DiskChanged(true));
    next(&mut session);
    assert_eq!(line(&mut session, "t create xINBOXINBOX"), make("mail/me/xINBOX/new"));
}

#[test]
fn create_stops_at_the_first_failure() {
    let mut session = logged_in();
    line(&mut session, "t create a");
    assert_eq!(tell(&mut session, Event::DiskChanged(false)), send("t NO Could not create folder.\r\n"));
    next(&mut session);
    line(&mut session, "t create a");
    tell(&mut session, Event::DiskChanged(true));
    assert_eq!(tell(&mut session, Event::DiskChanged(false)), send("t NO Could not create folder.\r\n"));
}

#[test]
fn delete_removes_files_and_then_directories() {
    let mut session = logged_in();
    assert_eq!(line(&mut session, "t delete a"), Action::ReadDirectory("mail/me/a/new".to_string()));
    let files = Some(vec!["mail/me/a/new/1".to_string()]);
    assert_eq!(
        tell(&mut session, Event::DirectoryRead(files)),
        Action::ReadDirectory("mail/me/a/cur".to_string())
    );
    let files = Some(vec!["mail/me/a/cur/2".to_string(), "mail/me/a/cur/3".to_string()]);
    assert_eq!(tell(&mut session, Event::DirectoryRead(files)), unlink("mail/me/a/new/1"));
    assert_eq!(tell(&mut session, Event::DiskChanged(true)), unlink("mail/me/a/cur/2"));
    assert_eq!(tell(&mut session, Event::DiskChanged(true)), unlink("mail/me/a/cur/3"));
    assert_eq!(tell(&mut session, Event::DiskChanged(true)), remove("mail/me/a/new"));
    assert_eq!(tell(&mut session, Event::DiskChanged(true)), remove("mail/me/a/cur"));
    assert_eq!(tell(&mut session, Event::DiskChanged(true)), send("t OK DELETE successsful.\r\n"));
}

#[test]
fn delete_stops_at_the_first_failure() {
    let no = send("t NO Invalid folder.\r\n");
    let mut session = logged_in();
    line(&mut session, "t delete a");
    assert_eq!(tell(&mut session, Event::DirectoryRead(None)), no);
    next(&mut session);
    line(&mut session, "t delete a");
    tell(&mut session, Event::DirectoryRead(Some(vec!["x".to_string()])));
    assert_eq!(tell(&mut session, Event::DirectoryRead(None)), no);
    next(&mut session);
    line(&mut session, "t delete a");
    tell(&mut session, Event::DirectoryRead(Some(vec!["x".to_string()])));
    tell(&mut session, Event::DirectoryRead(Some(vec![])));
    assert_eq!(tell(&mut session, Event::DiskChanged(false)), no);
}

fn directory(path: &str, absolute: &str, name: &str) -> Directory {
    Directory {
        path: path.to_string(),
        absolute: absolute.to_string(),
        name: name.to_string(),
        is_dir: true,
        cur: Some(0),
        new: Some(1),
        entries: Some(vec![]),
    }
}

fn survey() -> Survey {
    Survey {
        root: directory("mail/me", "/srv/mail/me", "me"),
        walk: Some(vec![
            directory("mail/me/cur", "/srv/mail/me/cur", "cur"),
            directory("mail/me/work", "/srv/mail/me/work", "work"),
            directory("mail/me/work/old", "/srv/mail/me/work/old", "old"),
        ]),
    }
}

fn listed(pattern: &str) -> Action {
    let mut session = logged_in();
    assert_eq!(line(&mut session, &format!("t list {}", pattern)), Action::Survey("mail/me".to_string()));
    tell(&mut session, Event::Surveyed(survey()))
}

#[test]
fn list_without_a_mailbox_names_the_separator() {
    let mut session = logged_in();
    assert_eq!(
        line(&mut session, "t list \"ref\" \"\""),
        send("* LIST (\\Noselect) \"/\" \"ref\"\r\nt OK List successful\r\n")
    );
}

#[test]
fn list_with_a_star_goes_into_directories() {
    assert_eq!(
        listed("\"\" \"*\""),
        send(
            "* LIST (\\Marked \\HasNoChildren) \"/\" INBOX\r\n\
             * LIST (\\Marked \\HasNoChildren) \"/\" work\r\n\
             * LIST (\\Marked \\HasNoChildren) \"/\" work/old\r\n\
             t OK list successful\r\n"
        )
    );
}

#[test]
fn list_with_a_percent_stays_in_one_directory() {
    assert_eq!(
        listed("\"\" \"%\""),
        send(
            "* LIST (\\Marked \\HasNoChildren) \"/\" INBOX\r\n\
             * LIST (\\Marked \\HasNoChildren) \"/\" work\r\n\
             t OK list successful\r\n"
        )
    );
}

#[test]
fn list_looks_below_the_reference() {
    assert_eq!(
        listed("work %"),
        send(
            "* LIST (\\Marked \\HasNoChildren) \"/\" work\r\n\
             * LIST (\\Marked \\HasNoChildren) \"/\" work/old\r\n\
             t OK list successful\r\n"
        )
    );
    assert_eq!(listed("\"\" nothing"), send("t OK list successful\r\n"));
    assert_eq!(
        listed("\"\" INBOX"),
        send("* LIST (\\Marked \\HasNoChildren) \"/\" INBOX\r\nt OK list successful\r\n")
    );
}

#[test]
fn list_for_what_is_no_pattern_is_refused() {
    let mut session = logged_in();
    assert_eq!(line(&mut session, "t list \"\" \"(\""), send(BAD));
}

#[test]
fn a_pattern_is_asked_for_only_where_it_is_valid() {
    let mut session = Session::new();
    assert_eq!(
        session.start_list("t".to_string(), "mail".to_string(), "x".to_string(), true),
        Action::Survey("mail".to_string())
    );
    let mut session = Session::new();
    assert_eq!(
        session.start_list("t".to_string(), "mail".to_string(), "x".to_string(), false),
        send(BAD)
    );
}

#[test]
fn list_in_a_nameless_mail_directory_is_not_accepted() {
    let mut session = logged_in_at("/");
    assert!(!session.accepts(&Event::Line("t LIST \"\" *\r\n".to_string())));
    assert!(session.accepts(&Event::Line("t LIST \"\" \"\"\r\n".to_string())));
    assert!(session.accepts(&Event::Line("t LIST \"\"\r\n".to_string())));
    assert_eq!(line(&mut session, "t create a"), make("/a/new"));
    let session = logged_in_at("mail/..");
    assert!(!session.accepts(&Event::Line("t LIST \"\" *\r\n".to_string())));
}

#[test]
fn list_looks_through_the_normal_path() {
    for (maildir, path) in [("/x/y/..", "/x"), ("/x//", "/x"), ("./x/.", "x"), ("../x", "../x")] {
        let mut session = logged_in_at(maildir);
        assert_eq!(line(&mut session, "t LIST \"\" *"), Action::Survey(path.to_string()));
        let mut root = directory(path, "/srv/x", "x");
        root.entries = Some(vec![Entry { name: "a".to_string(), cur: true, new: true }]);
        let survey = Survey { root, walk: Some(vec![]) };
        assert_eq!(
            tell(&mut session, Event::Surveyed(survey)),
            send("* LIST (\\Marked \\HasNoChildren) \"/\" INBOX\r\nt OK list successful\r\n")
        );
    }
}

#[test]
fn check_expunges_and_synchronizes() {
    let mut session = selected();
    assert_eq!(line(&mut session, "t CHECK"), Action::Expunge);
    assert_eq!(tell(&mut session, Event::Expunged(vec![1])), Action::Synchronize);
    assert_eq!(tell(&mut session, Event::Synchronized), send("t OK Check completed\r\n"));
    assert!(session.folder_selected());
}

#[test]
fn close_gives_the_folder_up() {
    let mut session = selected();
    assert_eq!(line(&mut session, "t CLOSE"), Action::Expunge);
    assert_eq!(tell(&mut session, Event::Expunged(vec![])), Action::Synchronize);
    assert_eq!(tell(&mut session, Event::Synchronized), send("t OK close completed\r\n"));
    assert!(!session.folder_selected());
    next(&mut session);
    assert_eq!(line(&mut session, "t close"), send(BAD));
}

#[test]
fn expunge_reports_every_number() {
    let mut session = selected();
    assert_eq!(line(&mut session, "t EXPUNGE"), Action::Expunge);
    assert_eq!(
        tell(&mut session, Event::Expunged(vec![3, 3, 10])),
        send("* 3 EXPUNGE\r\n* 3 EXPUNGE\r\n* 10 EXPUNGE\r\nt OK expunge completed\r\n")
    );
}

#[test]
fn logout_ends_the_session() {
    let bye = send("* BYE Server logging out\r\nt OK Server logged out\r\n");
    let mut session = connected();
    assert_eq!(line(&mut session, "t LOGOUT"), bye);
    assert_eq!(tell(&mut session, Event::Sent), Action::Close);
    let mut session = selected();
    assert_eq!(line(&mut session, "t logout"), Action::Expunge);
    assert_eq!(tell(&mut session, Event::Expunged(vec![2])), bye);
    assert_eq!(tell(&mut session, Event::Sent), Action::Close);
}

fn attribute(text: &str, body_section: bool) -> Attribute {
    Attribute { text: text.to_string(), body_section }
}

fn range(low: SequenceItem, high: SequenceItem) -> SequenceItem {
    SequenceItem::Range(Box::new(low), Box::new(high))
}

fn seen(sequence: Vec<usize>, uid: bool) -> Action {
    let mut flags = FlagSet::new();
    flags.insert(Flag::Seen);
    Action::Store { sequence, mode: StoreMode::Add, silent: true, flags, uid }
}

fn fetch_message(index: usize, attributes: Vec<Attribute>) -> Action {
    Action::FetchMessage { index, attributes }
}

#[test]
fn fetch_marks_and_then_fetches_in_order() {
    let mut session = selected();
    assert_eq!(
        line(&mut session, "t fetch 2,5 (FLAGS BODY[])"),
        Action::ParseFetch("FETCH 2,5 (FLAGS BODY[])".to_string())
    );
    let attributes = || vec![attribute("FLAGS", false), attribute("BODY[]", true), attribute("BODY[1]", true)];
    let items = || vec![SequenceItem::Number(2), SequenceItem::Number(5)];
    let command = FetchCommand { sequence_set: items(), attributes: attributes() };
    assert_eq!(tell(&mut session, Event::FetchParsed(Some(command))), Action::CountMessages);
    assert_eq!(
        tell(&mut session, Event::Counted(12)),
        Action::Expand { items: items(), bound: Some(12) }
    );
    assert_eq!(tell(&mut session, Event::Expanded(vec![2, 5])), seen(vec![2, 5], false));
    assert_eq!(tell(&mut session, Event::Stored("ignored".to_string())), seen(vec![2, 5], false));
    assert_eq!(
        tell(&mut session, Event::Stored(String::new())),
        fetch_message(1, attributes())
    );
    assert_eq!(
        tell(&mut session, Event::Fetched("FLAGS ()".to_string())),
        fetch_message(4, attributes())
    );
    assert_eq!(
        tell(&mut session, Event::Fetched("FLAGS (\\Seen)".to_string())),
        send("* 2 FETCH (FLAGS ())\r\n* 5 FETCH (FLAGS (\\Seen))\r\nt OK FETCH completed\n")
    );
}

#[test]
fn fetch_of_no_message_is_refused() {
    let mut session = selected();
    line(&mut session, "t fetch 99 FLAGS");
    assert_eq!(tell(&mut session, Event::FetchParsed(None)), send(BAD));
    next(&mut session);
    line(&mut session, "t fetch 9 FLAGS");
    let command = FetchCommand { sequence_set: vec![SequenceItem::Number(9)], attributes: vec![] };
    tell(&mut session, Event::FetchParsed(Some(command)));
    tell(&mut session, Event::Counted(12));
    assert_eq!(tell(&mut session, Event::Expanded(vec![])), send(BAD));
}

#[test]
fn fetch_beyond_the_last_message_is_refused() {
    let number = SequenceItem::Number;
    for (items, count, refused) in [
        (vec![number(99)], 12, true),
        (vec![number(12)], 12, false),
        (vec![number(13)], 12, true),
        (vec![number(1), number(13)], 12, true),
        (vec![range(number(2), number(13))], 12, true),
        (vec![range(number(13), number(2))], 12, true),
        (vec![range(number(2), number(12)), number(1)], 12, false),
        (vec![SequenceItem::Wildcard], 12, false),
        (vec![SequenceItem::Wildcard], 0, true),
        (vec![range(number(1), SequenceItem::Wildcard)], 1, false),
        (vec![range(number(2), SequenceItem::Wildcard)], 1, true),
        (vec![range(number(0), SequenceItem::Wildcard)], 0, true),
        (vec![range(range(number(1), number(2)), range(number(3), number(4)))], 3, true),
        (vec![], 0, false),
    ] {
        let mut session = selected();
        line(&mut session, "t fetch set BODY[]");
        let command = FetchCommand { sequence_set: items, attributes: vec![attribute("BODY[]", true)] };
        assert_eq!(tell(&mut session, Event::FetchParsed(Some(command))), Action::CountMessages);
        let answer = tell(&mut session, Event::Counted(count));
        if refused {
            assert_eq!(answer, send(BAD));
            next(&mut session);
            assert!(session.folder_selected());
        } else {
            assert!(matches!(answer, Action::Expand { .. }));
        }
    }
}

#[test]
fn fetch_text_is_trimmed() {
    let mut session = selected();
    assert_eq!(line(&mut session, "t FETCH"), Action::ParseFetch("FETCH".to_string()));
    tell(&mut session, Event::FetchParsed(None));
    next(&mut session);
    assert_eq!(line(&mut session, "t fetch  1"), Action::ParseFetch("FETCH  1".to_string()));
}

#[test]
fn uid_fetch_passes_over_unknown_uids() {
    let mut session = selected();
    assert_eq!(
        line(&mut session, "t UID FETCH 7,8,9 BODY[]"),
        Action::ParseFetch("FETCH 7,8,9 BODY[]".to_string())
    );
    let items = || vec![range(SequenceItem::Number(7), SequenceItem::Number(9))];
    let attributes = || vec![attribute("BODY[]", true)];
    let command = FetchCommand { sequence_set: items(), attributes: attributes() };
    assert_eq!(
        tell(&mut session, Event::FetchParsed(Some(command))),
        Action::Expand { items: items(), bound: None }
    );
    assert_eq!(tell(&mut session, Event::Expanded(vec![7, 8, 9])), seen(vec![7, 8, 9], true));
    assert_eq!(tell(&mut session, Event::Stored(String::new())), Action::FindIndex(7));
    assert_eq!(tell(&mut session, Event::IndexFound(Some(0))), fetch_message(0, attributes()));
    assert_eq!(tell(&mut session, Event::Fetched("A ".to_string())), Action::FindIndex(8));
    assert_eq!(tell(&mut session, Event::IndexFound(None)), Action::FindIndex(9));
    assert_eq!(tell(&mut session, Event::IndexFound(Some(4))), fetch_message(4, attributes()));
    assert_eq!(
        tell(&mut session, Event::Fetched("B ".to_string())),
        send("* 1 FETCH (A UID 7)\r\n* 5 FETCH (B UID 9)\r\nt OK UID FETCH completed\r\n")
    );
}

#[test]
fn uid_fetch_of_nothing_is_refused() {
    let mut session = selected();
    line(&mut session, "t uid fetch 7 FLAGS");
    let command = FetchCommand { sequence_set: vec![SequenceItem::Number(7)], attributes: vec![] };
    tell(&mut session, Event::FetchParsed(Some(command)));
    assert_eq!(tell(&mut session, Event::Expanded(vec![])), send(BAD));
    next(&mut session);
    line(&mut session, "t uid fetch 7 FLAGS");
    let command = FetchCommand { sequence_set: vec![], attributes: vec![] };
    assert!(!session.accepts(&Event::FetchParsed(Some(command))));
}

fn open_fetch(session: &mut Session, first: usize) {
    line(session, "t uid fetch n:* FLAGS");
    let command = FetchCommand {
        sequence_set: vec![range(SequenceItem::Number(first), SequenceItem::Wildcard)],
        attributes: vec![attribute("BODY[]", true)],
    };
    assert_eq!(tell(session, Event::FetchParsed(Some(command))), Action::CountMessages);
}

#[test]
fn uid_fetch_to_the_last_message() {
    let mut session = selected();
    let attributes = || vec![attribute("BODY[]", true)];
    open_fetch(&mut session, 30);
    assert_eq!(tell(&mut session, Event::Counted(3)), Action::FindIndex(30));
    assert_eq!(tell(&mut session, Event::IndexFound(Some(1))), fetch_message(1, attributes()));
    assert_eq!(tell(&mut session, Event::Fetched("A".to_string())), Action::FindUid(1));
    assert_eq!(tell(&mut session, Event::UidFound(30)), fetch_message(2, attributes()));
    assert_eq!(tell(&mut session, Event::Fetched("B".to_string())), Action::FindUid(2));
    assert_eq!(
        tell(&mut session, Event::UidFound(41)),
        send("* 2 FETCH (A UID 30)\r\n* 3 FETCH (B UID 41)\r\nt OK UID FETCH completed\r\n")
    );
}

#[test]
fn uid_fetch_from_the_first_message() {
    let mut session = selected();
    open_fetch(&mut session, 1);
    tell(&mut session, Event::Counted(1));
    assert_eq!(
        tell(&mut session, Event::IndexFound(None)),
        fetch_message(0, vec![attribute("BODY[]", true)])
    );
    tell(&mut session, Event::Fetched("A".to_string()));
    assert_eq!(
        tell(&mut session, Event::UidFound(5)),
        send("* 1 FETCH (A UID 5)\r\nt OK UID FETCH completed\r\n")
    );
}

#[test]
fn uid_fetch_from_an_unknown_uid_is_refused() {
    let mut session = selected();
    open_fetch(&mut session, 2);
    tell(&mut session, Event::Counted(1));
    assert_eq!(tell(&mut session, Event::IndexFound(None)), send(BAD));
    next(&mut session);
    open_fetch(&mut session, 1);
    assert_eq!(tell(&mut session, Event::Counted(0)), send(BAD));
    next(&mut session);
    open_fetch(&mut session, 9);
    tell(&mut session, Event::Counted(2));
    assert_eq!(
        tell(&mut session, Event::IndexFound(Some(2))),
        send("t OK UID FETCH completed\r\n")
    );
}

#[test]
fn store_parses_and_stores() {
    let mut session = selected();
    assert_eq!(
        line(&mut session, "t STORE 1:2 +FLAGS.SILENT (\\Deleted)"),
        Action::ParseStore {
            sequence_set: "1:2".to_string(),
            name: "+flags".to_string(),
            words: vec!["\\Deleted".to_string()],
        }
    );
    let items = || vec![range(SequenceItem::Number(1), SequenceItem::Number(2))];
    let words = StoreWords {
        sequence_set: Some(items()),
        mode: Some(StoreMode::Add),
        flags: vec![Some(Flag::Deleted), None, Some(Flag::Draft), Some(Flag::Deleted)],
    };
    assert_eq!(
        tell(&mut session, Event::StoreParsed(words)),
        Action::Expand { items: items(), bound: None }
    );
    let mut flags = FlagSet::new();
    flags.insert(Flag::Deleted);
    flags.insert(Flag::Draft);
    assert!(flags.contains(Flag::Draft) && !flags.contains(Flag::Seen));
    assert_eq!(
        tell(&mut session, Event::Expanded(vec![1, 2])),
        Action::Store { sequence: vec![1, 2], mode: StoreMode::Add, silent: true, flags, uid: false }
    );
    assert_eq!(
        tell(&mut session, Event::Stored("* 1 FETCH (FLAGS (\\Deleted))\r\n".to_string())),
        send("* 1 FETCH (FLAGS (\\Deleted))\r\nt OK STORE complete\r\n")
    );
}

#[test]
fn uid_store_goes_by_uid() {
    let mut session = selected();
    assert_eq!(
        line(&mut session, "t uid store \"5\" \"FLAGS\" \"(\\Seen)\""),
        Action::ParseStore {
            sequence_set: "5".to_string(),
            name: "flags".to_string(),
            words: vec!["\\Seen".to_string()],
        }
    );
    let words = StoreWords {
        sequence_set: Some(vec![SequenceItem::Number(5)]),
        mode: Some(StoreMode::Replace),
        flags: vec![Some(Flag::Seen)],
    };
    tell(&mut session, Event::StoreParsed(words));
    let mut flags = FlagSet::new();
    flags.insert(Flag::Seen);
    assert_eq!(
        tell(&mut session, Event::Expanded(vec![])),
        Action::Store { sequence: vec![], mode: StoreMode::Replace, silent: false, flags, uid: true }
    );
}

#[test]
fn store_reads_three_words_without_quotes_and_capitals() {
    for text in [
        "t store 1:2 +FLAGS.SILENT (\\Seen",
        "t store \"1:2\" +flags.silent \"(\\Seen\"",
        "t store 1:2 \"+Flags.Silent\" (\\Seen \\Deleted)",
    ] {
        let mut session = selected();
        assert_eq!(
            line(&mut session, text),
            Action::ParseStore {
                sequence_set: "1:2".to_string(),
                name: "+flags".to_string(),
                words: vec!["\\Seen".to_string()],
            },
            "{}",
            text
        );
    }
}

#[test]
fn store_refuses_what_does_not_parse() {
    let mut session = selected();
    for text in ["t store 1 flags", "t store 1 flags.loud x", "t store 1 flags.silent.x y", "t uid store 1 flags"] {
        assert_eq!(line(&mut session, text), send(BAD), "{}", text);
        next(&mut session);
    }
    for (sequence_set, mode) in [
        (None, Some(StoreMode::Remove)),
        (Some(vec![SequenceItem::Wildcard]), None),
    ] {
        line(&mut session, "t store 1 flags x");
        let words = StoreWords { sequence_set, mode, flags: vec![None] };
        assert_eq!(tell(&mut session, Event::StoreParsed(words)), send(BAD));
        next(&mut session);
    }
}
