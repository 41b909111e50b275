use imap_session::listing::{list, list_dir, list_response, Directory, Entry, Survey};

fn entry(name: &str, cur: bool, new: bool) -> Entry {
    Entry { name: name.to_string(), cur, new }
}

fn directory(path: &str, absolute: &str, name: &str) -> Directory {
    Directory {
        path: path.to_string(),
        absolute: absolute.to_string(),
        name: name.to_string(),
        is_dir: true,
        cur: Some(1),
        new: Some(0),
        entries: Some(vec![entry("cur", true, true), entry("new", true, true)]),
    }
}

fn root() -> Directory {
    directory("mail", "/home/u/mail", "mail")
}

fn work() -> Directory {
    directory("mail/work", "/home/u/mail/work", "work")
}

#[test]
fn a_mailbox_is_listed_by_its_path_from_the_mail_directory() {
    assert_eq!(
        list_dir(&work(), "mail/?/?.*$", "mail", "/home/u/mail").unwrap(),
        "* LIST (\\Unmarked \\HasNoChildren) \"/\" work"
    );
    let deep = directory("mail/work/old", "/home/u/mail/work/old", "old");
    assert_eq!(
        list_dir(&deep, "mail/?/?.*$", "mail", "/home/u/mail").unwrap(),
        "* LIST (\\Unmarked \\HasNoChildren) \"/\" work/old"
    );
}

#[test]
fn the_mail_directory_is_listed_as_inbox() {
    assert_eq!(
        list_dir(&root(), "mail/?/?$", "mail", "/home/u/mail").unwrap(),
        "* LIST (\\Unmarked \\HasNoChildren) \"/\" INBOX"
    );
}

#[test]
fn only_what_matches_is_listed() {
    assert_eq!(list_dir(&work(), "mail/?/?play$", "mail", "/home/u/mail"), None);
    assert_eq!(list_dir(&work(), "mail/?/?(", "mail", "/home/u/mail"), None);
    assert!(list_dir(&work(), "mail/?/?w[^/]*$", "mail", "/home/u/mail").is_some());
}

#[test]
fn a_mail_directory_that_is_no_pattern_lists_nothing() {
    assert_eq!(list_dir(&work(), "mail/?/?.*$", "mail", "/home/(u/mail"), None);
}

#[test]
fn a_meta_character_in_the_mail_directory_is_taken_as_one() {
    let mut dir = work();
    dir.absolute = "/homexu/mail/work".to_string();
    assert_eq!(
        list_dir(&dir, "work$", "mail", "/home.u/mail").unwrap(),
        "* LIST (\\Unmarked \\HasNoChildren) \"/\" work"
    );
}

#[test]
fn characters_that_are_special_only_in_a_class_stand_for_themselves() {
    let mut dir = work();
    dir.absolute = "/home/a-b&&c~d#e f/mail/work".to_string();
    assert_eq!(
        list_dir(&dir, "work$", "mail", "/home/a-b&&c~d#e f/mail").unwrap(),
        "* LIST (\\Unmarked \\HasNoChildren) \"/\" work"
    );
}

#[test]
fn a_path_elsewhere_is_listed_as_it_is() {
    assert_eq!(
        list_dir(&work(), "work$", "mail", "/srv/mail").unwrap(),
        "* LIST (\\Unmarked \\HasNoChildren) \"/\" /home/u/mail/work"
    );
}

#[test]
fn parts_of_a_mailbox_are_not_listed() {
    for name in ["cur", "new", "tmp"] {
        let mut dir = work();
        dir.name = name.to_string();
        assert_eq!(list_response(&dir, "mail", Some("x".to_string()), true), None);
    }
}

#[test]
fn what_cannot_be_read_is_not_listed() {
    let mut dir = work();
    dir.entries = None;
    assert_eq!(list_response(&dir, "mail", Some("x".to_string()), true), None);
    let mut file = work();
    file.is_dir = false;
    assert_eq!(list_response(&file, "mail", Some("x".to_string()), true), None);
    assert_eq!(list_response(&work(), "mail", None, true), None);
    assert_eq!(list_response(&work(), "mail", Some("x".to_string()), false), None);
}

#[test]
fn attributes_tell_what_is_new() {
    let cases: [(Option<usize>, Option<usize>, &str); 5] = [
        (None, Some(2), "\\Noselect"),
        (Some(2), None, "\\Noselect"),
        (None, None, "\\Noselect"),
        (Some(0), Some(0), "\\Unmarked"),
        (Some(0), Some(3), "\\Marked"),
    ];
    for (cur, new, expected) in cases {
        let mut dir = work();
        dir.cur = cur;
        dir.new = new;
        assert_eq!(
            list_response(&dir, "mail", Some("w".to_string()), true).unwrap(),
            format!("* LIST ({} \\HasNoChildren) \"/\" w", expected)
        );
    }
}

#[test]
fn attributes_tell_of_children() {
    let mut dir = work();
    dir.entries = Some(vec![entry("a", true, false), entry("b", false, true), entry("tmp", true, true)]);
    assert!(list_response(&dir, "mail", Some("w".to_string()), true).unwrap().contains("\\HasNoChildren"));
    dir.entries = Some(vec![entry("a", true, false), entry("b", true, true)]);
    assert!(list_response(&dir, "mail", Some("w".to_string()), true).unwrap().contains(" \\HasChildren"));
    // The mail directory itself never shows its children.
    assert!(list_response(&dir, "mail/work", Some("w".to_string()), true).unwrap().contains("\\HasNoChildren"));
}

#[test]
fn the_mail_directory_comes_first() {
    let survey = Survey { root: root(), walk: Some(vec![work(), directory("mail/play", "/home/u/mail/play", "play")]) };
    assert_eq!(
        list(&Some("mail".to_string()), &survey, "mail/?/?.*$"),
        vec![
            "* LIST (\\Unmarked \\HasNoChildren) \"/\" INBOX".to_string(),
            "* LIST (\\Unmarked \\HasNoChildren) \"/\" work".to_string(),
            "* LIST (\\Unmarked \\HasNoChildren) \"/\" play".to_string(),
        ]
    );
}

#[test]
fn nothing_is_listed_where_the_walk_fails() {
    let survey = Survey { root: root(), walk: None };
    assert!(list(&Some("mail".to_string()), &survey, ".*").is_empty());
    let survey = Survey { root: root(), walk: Some(vec![work()]) };
    assert!(list(&None, &survey, ".*").is_empty());
}
