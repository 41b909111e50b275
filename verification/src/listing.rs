//! What a `LIST` says of the directories of a mail directory.

use crate::path::{normal_path, normalize};
use crate::pattern::{
    is_literal, is_match, regex_compiles, regex_matches, regex_replaced, replace_match,
};
use crate::text::{begins, nothing_to_replace, occurs, replaced_first, same, texts, Text};
use vstd::prelude::*;

verus! {

/// A directory inside a [`Directory`].
#[derive(Debug)]
pub struct Entry {
    /// Its name, without the path before it.
    pub name: String,
    /// Whether its `cur` can be read.
    pub cur: bool,
    /// Whether its `new` can be read.
    pub new: bool,
}

/// What there is on disk at one path of a mail directory.
#[derive(Debug)]
pub struct Directory {
    /// The path, as it is shown.
    pub path: String,
    /// The path from the root of the file system.
    pub absolute: String,
    /// The last part of the path.
    pub name: String,
    /// Whether it is a directory.
    pub is_dir: bool,
    /// How many files its `cur` holds; `None` where that cannot be read.
    pub cur: Option<usize>,
    /// How many files its `new` holds; `None` where that cannot be read.
    pub new: Option<usize>,
    /// What it holds; `None` where that cannot be read.
    pub entries: Option<Vec<Entry>>,
}

/// All that is on disk under a mail directory.
#[derive(Debug)]
pub struct Survey {
    /// The mail directory itself.
    pub root: Directory,
    /// Everything below it; `None` where it cannot be walked.
    pub walk: Option<Vec<Directory>>,
}

/// The directories that belong to a mailbox and are none themselves.
pub open spec fn is_reserved(name: Text) -> bool {
    name == "cur"@ || name == "new"@ || name == "tmp"@
}

/// Whether `entry` is a mailbox.
pub open spec fn is_mailbox(entry: Entry) -> bool {
    !is_reserved(entry.name@) && entry.cur && entry.new
}

/// Whether there is a mailbox among `entries`.
pub open spec fn some_mailbox(entries: Seq<Entry>) -> bool {
    exists|i: int| 0 <= i < entries.len() && is_mailbox(#[trigger] entries[i])
}

/// Whether `dir` has mailboxes below it. The mail directory itself counts as
/// having none.
pub open spec fn has_children(dir: Directory, root: Text) -> bool {
    &&& dir.path@ != root
    &&& dir.entries matches Some(entries) && some_mailbox(entries@)
}

/// Whether `dir` can be selected, and whether anything new is in it.
pub open spec fn selectability(dir: Directory) -> Text {
    if dir.cur is None || dir.new is None {
        "\\Noselect"@
    } else if dir.new == Some(0usize) {
        "\\Unmarked"@
    } else {
        "\\Marked"@
    }
}

/// The attributes of `dir` in a `LIST` response.
pub open spec fn name_attributes(dir: Directory, root: Text) -> Text {
    selectability(dir) + if has_children(dir, root) {
        " \\HasChildren"@
    } else {
        " \\HasNoChildren"@
    }
}

/// The response on `dir`, under the name `label`. There is none on a part of a
/// mailbox, on what cannot be read, or on what was not asked for.
pub open spec fn response_on(dir: Directory, root: Text, label: Option<Text>, matched: bool) -> Option<
    Text,
> {
    if is_reserved(dir.name@) || dir.entries is None || !dir.is_dir || !matched {
        None
    } else {
        match label {
            Some(name) => Some(
                "* LIST ("@ + name_attributes(dir, root) + ") \"/\" "@ + name,
            ),
            None => None,
        }
    }
}

/// The name of the mailbox at `absolute`: the path with `INBOX` in the place
/// of the mail directory, and without that `INBOX/` for all but the mail
/// directory itself. There is none where the path of the mail directory is no
/// valid pattern.
pub open spec fn mailbox_label(absolute_root: Text, absolute: Text) -> Option<Text> {
    let pattern = "^"@ + absolute_root;
    if regex_compiles(pattern) {
        Some(replaced_first(regex_replaced(pattern, absolute, "INBOX"@), "INBOX/"@, ""@))
    } else {
        None
    }
}

/// The same name, for a mail directory with a path in which every character
/// stands for itself in a pattern.
pub open spec fn relative_label(absolute_root: Text, absolute: Text) -> Text {
    let shown = if begins(absolute, absolute_root) {
        "INBOX"@ + absolute.skip(absolute_root.len() as int)
    } else {
        absolute
    };
    replaced_first(shown, "INBOX/"@, ""@)
}

/// Whether `pattern` asks for the directory at `path`.
pub open spec fn is_wanted(pattern: Text, path: Text) -> bool {
    regex_compiles(pattern) && regex_matches(pattern, path)
}

/// The response on `dir` to a `LIST` for `pattern`.
pub open spec fn listed(dir: Directory, pattern: Text, root: Text, absolute_root: Text) -> Option<Text> {
    response_on(
        dir,
        root,
        mailbox_label(absolute_root, dir.absolute@),
        is_wanted(pattern, dir.path@),
    )
}

/// The responses on `dirs`, in their order.
pub open spec fn all_listed(
    dirs: Seq<Directory>,
    pattern: Text,
    root: Text,
    absolute_root: Text,
) -> Seq<Text>
    decreases dirs.len(),
{
    if dirs.len() == 0 {
        Seq::empty()
    } else {
        let before = all_listed(dirs.drop_last(), pattern, root, absolute_root);
        match listed(dirs.last(), pattern, root, absolute_root) {
            Some(response) => before.push(response),
            None => before,
        }
    }
}

/// The responses to a `LIST` for `pattern`: the mail directory first, then
/// everything below it. There is none without a mail directory, or where it
/// cannot be walked.
pub open spec fn responses(maildir: Option<Text>, survey: Survey, pattern: Text) -> Seq<Text> {
    match (maildir, survey.walk) {
        (Some(root), Some(dirs)) => all_listed(
            seq![survey.root] + dirs@,
            pattern,
            normal_path(root),
            survey.root.absolute@,
        ),
        _ => Seq::empty(),
    }
}

/// What an optional string holds.
pub open spec fn optional_text(s: Option<String>) -> Option<Text> {
    match s {
        Some(text) => Some(text@),
        None => None,
    }
}

fn reserved(name: &str) -> (res: bool)
    ensures
        res == is_reserved(name@),
{
    same(name, "cur") || same(name, "new") || same(name, "tmp")
}

fn children(dir: &Directory, root: &str) -> (res: bool)
    ensures
        res == has_children(*dir, root@),
{
    if same(dir.path.as_str(), root) {
        return false;
    }
    match &dir.entries {
        None => false,
        Some(entries) => {
            let mut i: usize = 0;
            while i < entries.len()
                invariant
                    i <= entries.len(),
                    dir.path@ != root@,
                    dir.entries == Some(*entries),
                    forall|j: int| 0 <= j < i ==> !is_mailbox(#[trigger] entries@[j]),
                decreases entries.len() - i,
            {
                let entry = &entries[i];
                if !reserved(entry.name.as_str()) && entry.cur && entry.new {
                    assert(is_mailbox(entries@[i as int]));
                    assert(some_mailbox(entries@));
                    return true;
                }
                i += 1;
            }
            false
        },
    }
}

/// The response on `dir`, given the name to show it under, if it has one, and
/// whether it was asked for.
pub fn list_response(dir: &Directory, root: &str, label: Option<String>, matched: bool) -> (res: Option<
    String,
>)
    ensures
        optional_text(res) == response_on(*dir, root@, optional_text(label), matched),
{
    if reserved(dir.name.as_str()) || dir.entries.is_none() || !dir.is_dir || !matched {
        return None;
    }
    match label {
        None => None,
        Some(name) => {
            let mut attributes: String = match (dir.cur, dir.new) {
                (Some(_), Some(count)) => {
                    if count == 0 {
                        "\\Unmarked".to_string()
                    } else {
                        "\\Marked".to_string()
                    }
                },
                _ => "\\Noselect".to_string(),
            };
            if children(dir, root) {
                attributes.append(" \\HasChildren");
            } else {
                attributes.append(" \\HasNoChildren");
            }
            let mut response: String = "* LIST (".to_string();
            response.append(attributes.as_str());
            response.append(") \"/\" ");
            response.append(name.as_str());
            Some(response)
        },
    }
}

/// The response on `dir` to a `LIST` for `pattern`.
pub fn list_dir(dir: &Directory, pattern: &str, root: &str, absolute_root: &str) -> (res: Option<String>)
    ensures
        optional_text(res) == listed(*dir, pattern@, root@, absolute_root@),
        res matches Some(response) ==> is_literal(absolute_root@) ==> response@ == "* LIST ("@
            + name_attributes(*dir, root@) + ") \"/\" "@ + relative_label(
            absolute_root@,
            dir.absolute@,
        ),
{
    let mut anchored: String = "^".to_string();
    anchored.append(absolute_root);
    proof {
        reveal_strlit("^");
        reveal_strlit("INBOX");
        assert(anchored@.skip(1) =~= absolute_root@);
    }
    let label: Option<String> = match replace_match(anchored.as_str(), dir.absolute.as_str(), "INBOX") {
        None => None,
        Some(name) => {
            proof {
                reveal_strlit("INBOX/");
                reveal_strlit("");
            }
            replace_match("INBOX/", name.as_str(), "")
        },
    };
    let matched: bool = match is_match(pattern, dir.path.as_str()) {
        Some(found) => found,
        None => false,
    };
    list_response(dir, root, label, matched)
}

fn push_listed(
    out: &mut Vec<String>,
    dir: &Directory,
    pattern: &str,
    root: &str,
    absolute_root: &str,
)
    ensures
        texts(final(out)@) == match listed(*dir, pattern@, root@, absolute_root@) {
            Some(response) => texts(old(out)@).push(response),
            None => texts(old(out)@),
        },
{
    if let Some(response) = list_dir(dir, pattern, root, absolute_root) {
        out.push(response);
        assert(texts(out@) =~= texts(old(out)@).push(response@));
    }
}

/// The responses to a `LIST` for `pattern`.
pub fn list(maildir: &Option<String>, survey: &Survey, pattern: &str) -> (res: Vec<String>)
    ensures
        texts(res@) == responses(optional_text(*maildir), *survey, pattern@),
{
    let mut out: Vec<String> = Vec::new();
    assert(texts(out@) =~= Seq::empty());
    if let Some(maildir) = maildir {
        let root = normalize(maildir.as_str());
        if let Some(dirs) = &survey.walk {
            let absolute_root = survey.root.absolute.as_str();
            let ghost all = seq![survey.root] + dirs@;
            push_listed(&mut out, &survey.root, pattern, root.as_str(), absolute_root);
            assert(all.take(1).drop_last() =~= Seq::empty());
            assert(all_listed(all.take(1).drop_last(), pattern@, root@, absolute_root@)
                =~= Seq::empty());
            assert(all.take(1).last() == survey.root);
            let mut i: usize = 0;
            while i < dirs.len()
                invariant
                    i <= dirs.len(),
                    all == seq![survey.root] + dirs@,
                    texts(out@) == all_listed(all.take(i + 1), pattern@, root@, absolute_root@),
                decreases dirs.len() - i,
            {
                push_listed(&mut out, &dirs[i], pattern, root.as_str(), absolute_root);
                assert(all.take(i + 2).drop_last() =~= all.take(i + 1));
                assert(all.take(i + 2).last() == dirs@[i as int]);
                i += 1;
            }
            assert(all.take(i + 1) =~= all);
        }
    }
    out
}

/// The mail directory is shown as `INBOX`, and what is below it by the path
/// from there.
pub proof fn names_start_from_the_mail_directory(root: Text, name: Text)
    ensures
        relative_label(root, root) == "INBOX"@,
        relative_label(root, root + "/"@ + name) == name,
{
    reveal_strlit("INBOX");
    reveal_strlit("INBOX/");
    reveal_strlit("/");
    reveal_strlit("");
    assert(root.take(root.len() as int) =~= root);
    assert("INBOX"@ + root.skip(root.len() as int) =~= "INBOX"@);
    assert(!occurs("INBOX"@, "INBOX/"@));
    nothing_to_replace("INBOX"@, "INBOX/"@, ""@);
    let path = root + "/"@ + name;
    assert(path.take(root.len() as int) =~= root);
    let shown = "INBOX"@ + path.skip(root.len() as int);
    assert(shown.take(6) =~= "INBOX/"@);
    assert(""@ + shown.skip(6) =~= name);
}

/// Parts of a mailbox, what cannot be read and what is no directory are never
/// listed.
pub proof fn only_readable_directories_are_listed(
    dir: Directory,
    pattern: Text,
    root: Text,
    absolute_root: Text,
)
    requires
        is_reserved(dir.name@) || dir.entries is None || !dir.is_dir,
    ensures
        listed(dir, pattern, root, absolute_root) is None,
{
}

/// A mail directory that cannot be walked lists nothing, not even itself.
pub proof fn nothing_is_listed_without_a_walk(maildir: Option<Text>, survey: Survey, pattern: Text)
    requires
        survey.walk is None,
    ensures
        responses(maildir, survey, pattern) == Seq::<Text>::empty(),
{
}

/// There is a response on a directory exactly if it was asked for, can be read,
/// has a name to show and is no part of a mailbox.
pub proof fn what_is_asked_for_and_can_be_read_is_listed(
    dir: Directory,
    root: Text,
    label: Option<Text>,
    matched: bool,
)
    ensures
        response_on(dir, root, label, matched) is Some <==> {
            &&& matched
            &&& dir.is_dir
            &&& dir.entries is Some
            &&& label is Some
            &&& dir.name@ != "cur"@
            &&& dir.name@ != "new"@
            &&& dir.name@ != "tmp"@
        },
{
}

/// Whether any of the entries has both parts of a mailbox and is no such part
/// itself.
pub open spec fn holds_a_mailbox(entries: Seq<Entry>) -> bool {
    exists|i: int|
        {
            &&& 0 <= i < entries.len()
            &&& (#[trigger] entries[i]).cur && entries[i].new
            &&& entries[i].name@ != "cur"@
            &&& entries[i].name@ != "new"@
            &&& entries[i].name@ != "tmp"@
        }
}

/// What a response says: a directory can be selected if both its parts can be
/// read, and is marked if there is anything new; it has children if it is not
/// the mail directory and holds something, other than its own parts, with both
/// parts of a mailbox; and it goes by the name to show, as it stands.
pub proof fn a_response_says_what_is_on_disk(
    dir: Directory,
    root: Text,
    label: Option<Text>,
    matched: bool,
)
    requires
        response_on(dir, root, label, matched) is Some,
    ensures
        ({
            let children = dir.path@ != root && holds_a_mailbox(dir.entries->0@);
            let select = if dir.cur is None || dir.new is None {
                "\\Noselect"@
            } else if dir.new->0 == 0 {
                "\\Unmarked"@
            } else {
                "\\Marked"@
            };
            let below = if children {
                " \\HasChildren"@
            } else {
                " \\HasNoChildren"@
            };
            response_on(dir, root, label, matched)->0 == "* LIST ("@ + select + below
                + ") \"/\" "@ + label->0
        }),
{
    let entries = dir.entries->0@;
    let children = dir.path@ != root && holds_a_mailbox(entries);
    if some_mailbox(entries) {
        let i = choose|i: int| 0 <= i < entries.len() && is_mailbox(#[trigger] entries[i]);
        assert(entries[i].cur);
    }
    if holds_a_mailbox(entries) {
        let i = choose|i: int|
            {
                &&& 0 <= i < entries.len()
                &&& (#[trigger] entries[i]).cur && entries[i].new
                &&& entries[i].name@ != "cur"@
                &&& entries[i].name@ != "new"@
                &&& entries[i].name@ != "tmp"@
            };
        assert(is_mailbox(entries[i]));
    }
    assert(children == has_children(dir, root));
    let response = response_on(dir, root, label, matched)->0;
    let below = if children {
        " \\HasChildren"@
    } else {
        " \\HasNoChildren"@
    };
    assert(response =~= "* LIST ("@ + selectability(dir) + below + ") \"/\" "@ + label->0);
}

/// A directory is asked for if the pattern is found in its path as it is shown;
/// it is named after its path from the root of the file system, in which the
/// path of the mail directory is taken as a pattern.
pub proof fn a_directory_is_found_by_its_path(
    dir: Directory,
    pattern: Text,
    root: Text,
    absolute_root: Text,
)
    ensures
        ({
            let anchored = seq!['^'] + absolute_root;
            let named = regex_replaced(anchored, dir.absolute@, "INBOX"@);
            listed(dir, pattern, root, absolute_root) == if regex_compiles(anchored) {
                response_on(
                    dir,
                    root,
                    Some(replaced_first(named, "INBOX/"@, ""@)),
                    regex_compiles(pattern) && regex_matches(pattern, dir.path@),
                )
            } else {
                None
            }
        }),
{
    reveal_strlit("^");
    assert("^"@ =~= seq!['^']);
}

/// A path below the mail directory is shown from `INBOX` on, and any other as
/// it is; in both the first `INBOX/` is left out.
pub proof fn labels_follow_the_path(root: Text, rest: Text, other: Text)
    requires
        !begins(other, root),
    ensures
        relative_label(root, root + rest) == replaced_first("INBOX"@ + rest, "INBOX/"@, ""@),
        relative_label(root, other) == replaced_first(other, "INBOX/"@, ""@),
{
    assert((root + rest).take(root.len() as int) =~= root);
    assert((root + rest).skip(root.len() as int) =~= rest);
}

/// The responses on two lists of directories are those on the one and then
/// those on the other.
pub proof fn directories_are_listed_in_their_order(
    a: Seq<Directory>,
    b: Seq<Directory>,
    dir: Directory,
    pattern: Text,
    root: Text,
    absolute_root: Text,
)
    ensures
        all_listed(a + b, pattern, root, absolute_root) == all_listed(
            a,
            pattern,
            root,
            absolute_root,
        ) + all_listed(b, pattern, root, absolute_root),
        all_listed(seq![dir], pattern, root, absolute_root) == match listed(
            dir,
            pattern,
            root,
            absolute_root,
        ) {
            Some(response) => seq![response],
            None => Seq::empty(),
        },
    decreases b.len(),
{
    assert(seq![dir].drop_last() =~= Seq::empty());
    reveal_with_fuel(all_listed, 2);
    assert(all_listed(seq![dir], pattern, root, absolute_root) =~= match listed(
        dir,
        pattern,
        root,
        absolute_root,
    ) {
        Some(response) => seq![response],
        None => Seq::empty(),
    });
    if b.len() == 0 {
        assert(a + b =~= a);
    } else {
        assert((a + b).drop_last() =~= a + b.drop_last());
        directories_are_listed_in_their_order(a, b.drop_last(), dir, pattern, root, absolute_root);
    }
    assert(all_listed(a + b, pattern, root, absolute_root) =~= all_listed(
        a,
        pattern,
        root,
        absolute_root,
    ) + all_listed(b, pattern, root, absolute_root));
}

/// A `LIST` goes through the mail directory and then everything that was found
/// below it, and takes the mail directory for the root by its normal path.
pub proof fn the_mail_directory_is_listed_before_all_below_it(
    maildir: Text,
    survey: Survey,
    pattern: Text,
)
    requires
        survey.walk is Some,
    ensures
        responses(Some(maildir), survey, pattern) == all_listed(
            seq![survey.root],
            pattern,
            normal_path(maildir),
            survey.root.absolute@,
        ) + all_listed(
            survey.walk->0@,
            pattern,
            normal_path(maildir),
            survey.root.absolute@,
        ),
        responses(None, survey, pattern) == Seq::<Text>::empty(),
{
    directories_are_listed_in_their_order(
        seq![survey.root],
        survey.walk->0@,
        survey.root,
        pattern,
        normal_path(maildir),
        survey.root.absolute@,
    );
}

/// An optional string is seen as what it holds.
pub proof fn optional_strings_are_seen_as_they_are(s: String)
    ensures
        optional_text(Some(s)) == Some(s@),
        optional_text(None) is None,
{
}

} // verus!
