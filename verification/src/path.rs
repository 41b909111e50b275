//! Paths, as text with `/` between the names, and always in normal form: no
//! name is empty or `.`, and a `..` stands only where there is nothing before
//! it to go up from.

use crate::text::{
    a_text_without_separator_is_one_piece, characters, joined, joined_pieces_come_apart, pieces,
    pieces_hold_no_separator, pieces_on_both_sides_of_a_separator, same, split, texts, Text,
};
use vstd::prelude::*;

verus! {

/// Whether the path starts from the root.
pub open spec fn is_absolute(path: Text) -> bool {
    path.len() > 0 && path[0] == '/'
}

/// Where the parts lead from the place `start`: an empty part and `.` stay
/// there, and `..` goes up by one name, but not above the root.
pub open spec fn walked(start: Seq<Text>, parts: Seq<Text>, absolute: bool) -> Seq<Text>
    decreases parts.len(),
{
    if parts.len() == 0 {
        start
    } else {
        let before = walked(start, parts.drop_last(), absolute);
        let part = parts.last();
        if part.len() == 0 || part == "."@ {
            before
        } else if part != ".."@ {
            before.push(part)
        } else if before.len() > 0 && before.last() != ".."@ {
            before.drop_last()
        } else if absolute {
            before
        } else {
            before.push(part)
        }
    }
}

/// The names on the way that the path describes.
pub open spec fn path_names(path: Text) -> Seq<Text> {
    walked(Seq::empty(), pieces(path, '/'), is_absolute(path))
}

/// The path that goes by these names.
pub open spec fn path_of(names: Seq<Text>, absolute: bool) -> Text {
    if absolute {
        "/"@ + joined(names, '/')
    } else if names.len() == 0 {
        "."@
    } else {
        joined(names, '/')
    }
}

/// The path in normal form.
pub open spec fn normal_path(path: Text) -> Text {
    path_of(path_names(path), is_absolute(path))
}

/// Where `name` leads from the directory `base`. An absolute `name` stands for
/// itself.
pub open spec fn joined_path(base: Text, name: Text) -> Text {
    if is_absolute(name) {
        normal_path(name)
    } else {
        path_of(
            walked(path_names(base), pieces(name, '/'), is_absolute(base)),
            is_absolute(base),
        )
    }
}

/// The name of the file or directory that `path` ends in. The root, the
/// current directory and what is above it have none.
pub open spec fn final_name(path: Text) -> Option<Text> {
    let names = path_names(path);
    if names.len() > 0 && names.last() != ".."@ {
        Some(names.last())
    } else {
        None
    }
}

fn absolute(path: &str) -> (res: bool)
    ensures
        res == is_absolute(path@),
{
    let chars = characters(path);
    chars.len() > 0 && chars[0] == '/'
}

/// Goes on from the place `names` as the path says.
fn walk(names: &mut Vec<String>, path: &str, absolute: bool)
    ensures
        texts(final(names)@) == walked(texts(old(names)@), pieces(path@, '/'), absolute),
{
    let parts = split(path, '/');
    let ghost all = texts(parts@);
    let ghost start = texts(names@);
    let mut i: usize = 0;
    assert(all.take(0) =~= Seq::empty());
    while i < parts.len()
        invariant
            i <= parts.len(),
            all == texts(parts@),
            texts(names@) == walked(start, all.take(i as int), absolute),
        decreases parts.len() - i,
    {
        let ghost before = texts(names@);
        let part = parts[i].as_str();
        assert(all.take(i + 1).last() == part@);
        assert(all.take(i + 1).drop_last() =~= all.take(i as int));
        if !part.is_empty() && !same(part, ".") {
            let up: bool = same(part, "..");
            let below: bool = names.len() > 0 && !same(names[names.len() - 1].as_str(), "..");
            if up && below {
                names.pop();
                assert(texts(names@) =~= before.drop_last());
            } else if !up || !absolute {
                names.push(part.to_string());
                assert(texts(names@) =~= before.push(part@));
            }
        }
        i += 1;
    }
    assert(all.take(i as int) =~= all);
}

/// The names on the way that the path describes.
fn names_of(path: &str) -> (res: Vec<String>)
    ensures
        texts(res@) == path_names(path@),
{
    let mut names: Vec<String> = Vec::new();
    assert(texts(names@) =~= Seq::empty());
    walk(&mut names, path, absolute(path));
    names
}

/// The path that goes by these names.
fn show(names: &Vec<String>, absolute: bool) -> (res: String)
    ensures
        res@ == path_of(texts(names@), absolute),
{
    if names.len() == 0 && !absolute {
        return ".".to_string();
    }
    let ghost all = texts(names@);
    let mut res: String = if absolute {
        "/".to_string()
    } else {
        String::new()
    };
    let ghost start = res@;
    let mut i: usize = 0;
    assert(all.take(0) =~= Seq::empty());
    assert(res@ =~= start + joined(all.take(0), '/'));
    while i < names.len()
        invariant
            i <= names.len(),
            all == texts(names@),
            res@ == start + joined(all.take(i as int), '/'),
        decreases names.len() - i,
    {
        let ghost before = joined(all.take(i as int), '/');
        if i > 0 {
            res.push('/');
        }
        res.append(names[i].as_str());
        assert(all.take(i + 1).last() == names@[i as int]@);
        assert(all.take(i + 1).drop_last() =~= all.take(i as int));
        if i > 0 {
            assert(res@ =~= start + (before.push('/') + names@[i as int]@));
        } else {
            assert(res@ =~= start + names@[i as int]@);
        }
        i += 1;
    }
    assert(all.take(i as int) =~= all);
    assert(Seq::<char>::empty() + joined(all, '/') =~= joined(all, '/'));
    res
}

/// The path in normal form.
pub fn normalize(path: &str) -> (res: String)
    ensures
        res@ == normal_path(path@),
{
    show(&names_of(path), absolute(path))
}

/// Where `name` leads from the directory `base`.
pub fn join(base: &str, name: &str) -> (res: String)
    ensures
        res@ == joined_path(base@, name@),
{
    if absolute(name) {
        return normalize(name);
    }
    let from_root = absolute(base);
    let mut names = names_of(base);
    walk(&mut names, name, from_root);
    show(&names, from_root)
}

/// The name of the file or directory that `path` ends in.
pub fn file_name(path: &str) -> (res: Option<String>)
    ensures
        match res {
            Some(name) => final_name(path@) == Some(name@),
            None => final_name(path@) is None,
        },
{
    let mut names = names_of(path);
    let ghost all = texts(names@);
    match names.pop() {
        None => None,
        Some(name) => {
            assert(all.last() == name@);
            if same(name.as_str(), "..") {
                None
            } else {
                Some(name)
            }
        },
    }
}

// -------------------------------------------------------------------- laws
/// Names that make up a path in normal form.
pub open spec fn is_normal(names: Seq<Text>, absolute: bool) -> bool {
    &&& forall|i: int|
        0 <= i < names.len() ==> (#[trigger] names[i]).len() > 0 && names[i] != "."@
            && !names[i].contains('/')
    &&& forall|i: int, j: int|
        #![trigger names[i], names[j]]
        0 <= j <= i < names.len() && names[i] == ".."@ ==> !absolute && names[j] == ".."@
}

proof fn walking_keeps_normal(start: Seq<Text>, parts: Seq<Text>, absolute: bool)
    requires
        is_normal(start, absolute),
        forall|i: int| 0 <= i < parts.len() ==> !(#[trigger] parts[i]).contains('/'),
    ensures
        is_normal(walked(start, parts, absolute), absolute),
    decreases parts.len(),
{
    if parts.len() > 0 {
        walking_keeps_normal(start, parts.drop_last(), absolute);
    }
}

/// Every path leads by names in normal form.
pub proof fn path_names_are_normal(path: Text)
    ensures
        is_normal(path_names(path), is_absolute(path)),
{
    let parts = pieces(path, '/');
    assert forall|i: int| 0 <= i < parts.len() implies !(#[trigger] parts[i]).contains('/') by {
        pieces_hold_no_separator(path, '/', i);
    }
    walking_keeps_normal(Seq::empty(), parts, is_absolute(path));
}

/// `seq![""]` stands for what is before the first slash of an absolute path.
proof fn normal_names_are_walked_as_they_are(names: Seq<Text>, absolute: bool)
    requires
        is_normal(names, absolute),
    ensures
        walked(Seq::empty(), names, absolute) == names,
        walked(Seq::empty(), seq![Seq::empty()] + names, absolute) == names,
    decreases names.len(),
{
    let rooted = seq![Seq::<char>::empty()] + names;
    reveal_with_fuel(walked, 2);
    if names.len() > 0 {
        let before = names.drop_last();
        normal_names_are_walked_as_they_are(before, absolute);
        assert(rooted.drop_last() =~= seq![Seq::empty()] + before);
        assert(before.push(names.last()) =~= names);
    } else {
        assert(rooted.drop_last() =~= Seq::empty());
        assert(names =~= Seq::empty());
    }
}

proof fn joining_below_the_root(names: Seq<Text>)
    requires
        names.len() > 0,
    ensures
        joined(seq![Seq::empty()] + names, '/') == "/"@ + joined(names, '/'),
    decreases names.len(),
{
    reveal_strlit("/");
    let rooted = seq![Seq::<char>::empty()] + names;
    let before = names.drop_last();
    assert(rooted.drop_last() =~= seq![Seq::empty()] + before);
    if names.len() > 1 {
        joining_below_the_root(before);
    } else {
        reveal_with_fuel(joined, 2);
        assert(before =~= Seq::empty());
        assert(rooted.drop_last() =~= seq![Seq::empty()]);
    }
    assert(joined(rooted, '/') =~= "/"@ + joined(names, '/'));
}

proof fn first_of_joined(names: Seq<Text>)
    requires
        names.len() > 0,
        names[0].len() > 0,
    ensures
        joined(names, '/').len() > 0,
        joined(names, '/')[0] == names[0][0],
    decreases names.len(),
{
    if names.len() > 1 {
        first_of_joined(names.drop_last());
    }
}

/// A path that goes by names in normal form leads by these names.
pub proof fn normal_names_come_back(names: Seq<Text>, absolute: bool)
    requires
        is_normal(names, absolute),
    ensures
        is_absolute(path_of(names, absolute)) == absolute,
        path_names(path_of(names, absolute)) == names,
        normal_path(path_of(names, absolute)) == path_of(names, absolute),
{
    reveal_strlit("/");
    reveal_strlit(".");
    normal_names_are_walked_as_they_are(names, absolute);
    let path = path_of(names, absolute);
    if names.len() == 0 {
        reveal_with_fuel(pieces, 2);
        reveal_with_fuel(walked, 3);
        assert(path.drop_last() =~= Seq::empty());
        let parts = pieces(path, '/');
        if absolute {
            assert(parts =~= seq![Seq::empty(), Seq::empty()]);
            assert(parts.drop_last().drop_last() =~= Seq::empty());
        } else {
            assert(parts[0] =~= "."@);
            assert(parts =~= seq!["."@]);
            assert(parts.drop_last() =~= Seq::empty());
        }
        assert(path_names(path) =~= names);
    } else if absolute {
        let rooted = seq![Seq::<char>::empty()] + names;
        joining_below_the_root(names);
        joined_pieces_come_apart(rooted, '/');
    } else {
        joined_pieces_come_apart(names, '/');
        first_of_joined(names);
        assert(names[0].contains(names[0][0]));
    }
}

/// A path is in normal form once it was brought into it, and leads where it
/// led before.
pub proof fn a_normal_path_stays_as_it_is(path: Text)
    ensures
        is_absolute(normal_path(path)) == is_absolute(path),
        path_names(normal_path(path)) == path_names(path),
        normal_path(normal_path(path)) == normal_path(path),
{
    path_names_are_normal(path);
    normal_names_come_back(path_names(path), is_absolute(path));
}

/// Joining gives a path in normal form, and takes one for the same as the path
/// it came from.
pub proof fn joined_paths_are_normal(base: Text, name: Text)
    ensures
        normal_path(joined_path(base, name)) == joined_path(base, name),
        joined_path(normal_path(base), name) == joined_path(base, name),
{
    a_normal_path_stays_as_it_is(base);
    if is_absolute(name) {
        a_normal_path_stays_as_it_is(name);
    } else {
        let parts = pieces(name, '/');
        assert forall|i: int| 0 <= i < parts.len() implies !(#[trigger] parts[i]).contains('/') by {
            pieces_hold_no_separator(name, '/', i);
        }
        path_names_are_normal(base);
        walking_keeps_normal(path_names(base), parts, is_absolute(base));
        normal_names_come_back(
            walked(path_names(base), parts, is_absolute(base)),
            is_absolute(base),
        );
    }
}

/// Nothing and `.` lead to the directory that one starts from.
pub proof fn staying_leads_nowhere(base: Text)
    ensures
        joined_path(base, ""@) == normal_path(base),
        joined_path(base, "."@) == normal_path(base),
{
    reveal_strlit("");
    reveal_strlit(".");
    assert(!"."@.contains('/'));
    assert(joined(seq!["."@], '/') == "."@);
    joined_pieces_come_apart(seq!["."@], '/');
    assert(seq!["."@].drop_last() =~= Seq::empty());
    assert(""@ =~= Seq::empty());
    assert(pieces(""@, '/').drop_last() =~= Seq::empty());
    reveal_with_fuel(walked, 2);
}

/// What is joined to a directory by one name is in it, under that name.
pub proof fn a_name_leads_below_its_base(base: Text, name: Text)
    requires
        name.len() > 0,
        !name.contains('/'),
        name != "."@,
        name != ".."@,
    ensures
        path_names(joined_path(base, name)) == path_names(base).push(name),
        final_name(joined_path(base, name)) == Some(name),
{
    assert(name.contains(name[0]));
    assert(joined(seq![name], '/') == name);
    joined_pieces_come_apart(seq![name], '/');
    assert(seq![name].drop_last() =~= Seq::empty());
    reveal_with_fuel(walked, 2);
    path_names_are_normal(base);
    walking_keeps_normal(path_names(base), seq![name], is_absolute(base));
    normal_names_come_back(path_names(base).push(name), is_absolute(base));
}

proof fn walking_on(start: Seq<Text>, a: Seq<Text>, b: Seq<Text>, absolute: bool)
    ensures
        walked(start, a + b, absolute) == walked(walked(start, a, absolute), b, absolute),
    decreases b.len(),
{
    if b.len() == 0 {
        assert(a + b =~= a);
    } else {
        assert((a + b).drop_last() =~= a + b.drop_last());
        walking_on(start, a, b.drop_last(), absolute);
    }
}

/// A path that starts nowhere leads by its one part: nowhere where that is
/// empty or `.`, and by the part itself otherwise.
pub proof fn a_path_of_one_part(part: Text)
    requires
        !part.contains('/'),
    ensures
        !is_absolute(part),
        part.len() == 0 || part == "."@ ==> path_names(part) == Seq::<Text>::empty(),
        part.len() > 0 && part != "."@ ==> path_names(part) == seq![part],
{
    if part.len() > 0 {
        assert(part.contains(part[0]));
    }
    a_text_without_separator_is_one_piece(part, '/');
    assert(seq![part].drop_last() =~= Seq::empty());
    reveal_with_fuel(walked, 2);
    assert(Seq::<Text>::empty().push(part) =~= seq![part]);
}

/// One part more leads by one name more; nowhere further where it is empty or
/// `.`; and one name back where it is `..`, unless there is none to go back
/// by: then it stays at the root, or goes up from where the path starts.
pub proof fn a_path_of_one_part_more(path: Text, part: Text)
    requires
        path.len() > 0,
        !part.contains('/'),
    ensures
        ({
            let before = path_names(path);
            let after = path_names(path + seq!['/'] + part);
            &&& is_absolute(path + seq!['/'] + part) == is_absolute(path)
            &&& part.len() == 0 || part == "."@ ==> after == before
            &&& part.len() > 0 && part != "."@ && part != ".."@ ==> after == before + seq![part]
            &&& part == ".."@ && before.len() > 0 && before.last() != ".."@ ==> after
                == before.subrange(0, before.len() - 1)
            &&& part == ".."@ && before.len() == 0 && is_absolute(path) ==> after == before
            &&& part == ".."@ && (before.len() == 0 || before.last() == ".."@) && !is_absolute(path)
                ==> after == before + seq![".."@]
        }),
{
    reveal_strlit(".");
    reveal_strlit("..");
    assert(".."@.len() == 2 && "."@.len() == 1);
    let before = path_names(path);
    pieces_on_both_sides_of_a_separator(path, part, '/');
    a_text_without_separator_is_one_piece(part, '/');
    walking_on(Seq::empty(), pieces(path, '/'), seq![part], is_absolute(path));
    assert(seq![part].drop_last() =~= Seq::empty());
    reveal_with_fuel(walked, 2);
    assert(before.push(part) =~= before + seq![part]);
}

/// Joining is putting a slash between, in normal form; an absolute name stands
/// for itself, and so does any name where there is no directory before it.
pub proof fn joining_puts_a_slash_between(base: Text, name: Text)
    ensures
        name.len() > 0 && name[0] == '/' ==> joined_path(base, name) == normal_path(name),
        base.len() == 0 ==> joined_path(base, name) == normal_path(name),
        base.len() > 0 && !(name.len() > 0 && name[0] == '/') ==> joined_path(base, name)
            == normal_path(base + seq!['/'] + name),
{
    if base.len() > 0 {
        pieces_on_both_sides_of_a_separator(base, name, '/');
        walking_on(Seq::empty(), pieces(base, '/'), pieces(name, '/'), is_absolute(base));
    } else {
        assert(pieces(base, '/').drop_last() =~= Seq::empty());
        reveal_with_fuel(walked, 2);
        assert(path_names(base) =~= Seq::empty());
    }
}

/// A path in normal form is the names that the path leads by, with single
/// slashes between them and one before them if the path is absolute; and `.`
/// where there is nothing to write.
pub proof fn a_normal_path_is_its_names(path: Text)
    ensures
        ({
            let names = joined(path_names(path), '/');
            let absolute = path.len() > 0 && path[0] == '/';
            &&& absolute ==> normal_path(path) == seq!['/'] + names
            &&& !absolute && path_names(path).len() > 0 ==> normal_path(path) == names
            &&& !absolute && path_names(path).len() == 0 ==> normal_path(path) == seq!['.']
        }),
{
    reveal_strlit("/");
    reveal_strlit(".");
    assert("/"@ =~= seq!['/']);
    assert("."@ =~= seq!['.']);
}

/// A path is named after the last of its names, if it has any and that is no
/// `..`.
pub proof fn a_path_is_named_after_its_last_name(path: Text, name: Text)
    ensures
        final_name(path) == Some(name) <==> name != ".."@ && exists|before: Seq<Text>|
            path_names(path) == #[trigger] before.push(name),
{
    let names = path_names(path);
    if names.len() > 0 {
        assert(names.drop_last().push(names.last()) =~= names);
    }
    if final_name(path) == Some(name) {
        assert(path_names(path) == names.drop_last().push(name));
    }
}

} // verus!
