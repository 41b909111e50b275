//! The commands of a client.

use crate::text::{lower, lowered, pieces, same, split, texts, trim, trimmed, Text};
use vstd::prelude::*;

verus! {

/// What a client asks for.
#[derive(Clone, Copy, Debug, PartialEq, Eq, Structural)]
pub enum Command {
    Noop,
    Capability,
    Login,
    Logout,
    Select,
    Examine,
    Create,
    Delete,
    List,
    Check,
    Close,
    Expunge,
    Fetch,
    Uid,
    Store,
    Unknown,
}

/// The command that `word` names, in small or capital letters.
pub open spec fn command_named(word: Text) -> Command {
    let name = lowered(word);
    if name == "noop"@ {
        Command::Noop
    } else if name == "capability"@ {
        Command::Capability
    } else if name == "login"@ {
        Command::Login
    } else if name == "logout"@ {
        Command::Logout
    } else if name == "select"@ {
        Command::Select
    } else if name == "examine"@ {
        Command::Examine
    } else if name == "create"@ {
        Command::Create
    } else if name == "delete"@ {
        Command::Delete
    } else if name == "list"@ {
        Command::List
    } else if name == "check"@ {
        Command::Check
    } else if name == "close"@ {
        Command::Close
    } else if name == "expunge"@ {
        Command::Expunge
    } else if name == "fetch"@ {
        Command::Fetch
    } else if name == "uid"@ {
        Command::Uid
    } else if name == "store"@ {
        Command::Store
    } else {
        Command::Unknown
    }
}

/// The command that `word` names, in small or capital letters.
pub fn parse_command(word: &str) -> (res: Command)
    ensures
        res == command_named(word@),
{
    let lowercase = lower(word);
    let name = lowercase.as_str();
    if same(name, "noop") {
        Command::Noop
    } else if same(name, "capability") {
        Command::Capability
    } else if same(name, "login") {
        Command::Login
    } else if same(name, "logout") {
        Command::Logout
    } else if same(name, "select") {
        Command::Select
    } else if same(name, "examine") {
        Command::Examine
    } else if same(name, "create") {
        Command::Create
    } else if same(name, "delete") {
        Command::Delete
    } else if same(name, "list") {
        Command::List
    } else if same(name, "check") {
        Command::Check
    } else if same(name, "close") {
        Command::Close
    } else if same(name, "expunge") {
        Command::Expunge
    } else if same(name, "fetch") {
        Command::Fetch
    } else if same(name, "uid") {
        Command::Uid
    } else if same(name, "store") {
        Command::Store
    } else {
        Command::Unknown
    }
}

/// The words of a line, separated by single spaces. The first is the tag, the
/// second the command.
pub open spec fn words(line: Text) -> Seq<Text> {
    pieces(trimmed(line), ' ')
}

/// The words of a line.
pub fn split_words(line: &str) -> (res: Vec<String>)
    ensures
        texts(res@) == words(line@),
        res@.len() > 0,
{
    split(trim(line), ' ')
}

/// A part of a sequence set.
#[derive(Debug, PartialEq, Eq)]
pub enum SequenceItem {
    Number(usize),
    Range(Box<SequenceItem>, Box<SequenceItem>),
    /// `*`, the largest number in use.
    Wildcard,
}

/// A part of a message that a `FETCH` asks for.
#[derive(Debug, PartialEq, Eq)]
pub struct Attribute {
    /// The attribute, as the client wrote it.
    pub text: String,
    /// Whether it is a section of the body, the reading of which sets `\Seen`.
    pub body_section: bool,
}

/// A `FETCH` after parsing.
#[derive(Debug, PartialEq, Eq)]
pub struct FetchCommand {
    pub sequence_set: Vec<SequenceItem>,
    pub attributes: Vec<Attribute>,
}

/// How many of `attributes` are sections of the body.
pub open spec fn body_sections(attributes: Seq<Attribute>) -> nat
    decreases attributes.len(),
{
    if attributes.len() == 0 {
        0
    } else {
        body_sections(attributes.drop_last()) + if attributes.last().body_section {
            1nat
        } else {
            0nat
        }
    }
}

/// How many of `attributes` are sections of the body.
pub fn count_body_sections(attributes: &Vec<Attribute>) -> (res: usize)
    ensures
        res == body_sections(attributes@),
{
    let mut res: usize = 0;
    let mut i: usize = 0;
    assert(attributes@.take(0) =~= Seq::empty());
    while i < attributes.len()
        invariant
            res <= i <= attributes.len(),
            res == body_sections(attributes@.take(i as int)),
        decreases attributes.len() - i,
    {
        assert(attributes@.take(i + 1).drop_last() =~= attributes@.take(i as int));
        if attributes[i].body_section {
            res += 1;
        }
        i += 1;
    }
    assert(attributes@.take(i as int) =~= attributes@);
    res
}

/// A copy of `attributes`.
pub fn copy_attributes(attributes: &Vec<Attribute>) -> (res: Vec<Attribute>)
    ensures
        res@ == attributes@,
{
    let mut res: Vec<Attribute> = Vec::new();
    let mut i: usize = 0;
    while i < attributes.len()
        invariant
            i <= attributes.len(),
            res@ == attributes@.take(i as int),
        decreases attributes.len() - i,
    {
        let attribute = &attributes[i];
        res.push(
            Attribute { text: attribute.text.clone(), body_section: attribute.body_section },
        );
        assert(res@ =~= attributes@.take(i + 1));
        i += 1;
    }
    assert(attributes@.take(i as int) =~= attributes@);
    res
}

/// Whether the part reaches beyond the last of `count` messages. In an empty
/// folder `*` does.
pub open spec fn is_beyond(item: SequenceItem, count: usize) -> bool
    decreases item,
{
    match item {
        SequenceItem::Number(n) => n > count,
        SequenceItem::Range(low, high) => is_beyond(*low, count) || is_beyond(*high, count),
        SequenceItem::Wildcard => count == 0,
    }
}

/// Whether any part of a sequence set reaches beyond the last of `count`
/// messages.
pub open spec fn some_beyond(items: Seq<SequenceItem>, count: usize) -> bool {
    exists|i: int| 0 <= i < items.len() && is_beyond(#[trigger] items[i], count)
}

fn reaches_beyond(item: &SequenceItem, count: usize) -> (res: bool)
    ensures
        res == is_beyond(*item, count),
    decreases item,
{
    match item {
        SequenceItem::Number(n) => *n > count,
        SequenceItem::Range(low, high) => reaches_beyond(&**low, count) || reaches_beyond(
            &**high,
            count,
        ),
        SequenceItem::Wildcard => count == 0,
    }
}

/// Whether any part of a sequence set reaches beyond the last of `count`
/// messages.
pub fn any_beyond(items: &Vec<SequenceItem>, count: usize) -> (res: bool)
    ensures
        res == some_beyond(items@, count),
{
    let mut i: usize = 0;
    while i < items.len()
        invariant
            i <= items.len(),
            forall|j: int| 0 <= j < i ==> !is_beyond(#[trigger] items@[j], count),
        decreases items.len() - i,
    {
        if reaches_beyond(&items[i], count) {
            return true;
        }
        i += 1;
    }
    false
}

/// `n` in the first range `n:*` of a sequence set, if that is what it begins
/// with.
pub open spec fn open_range_start(items: Seq<SequenceItem>) -> Option<usize> {
    if items.len() == 0 {
        None
    } else {
        match items[0] {
            SequenceItem::Range(low, high) => match (*low, *high) {
                (SequenceItem::Number(n), SequenceItem::Wildcard) => Some(n),
                _ => None,
            },
            _ => None,
        }
    }
}

/// `n` where the sequence set begins with the range `n:*`.
pub fn open_range(items: &Vec<SequenceItem>) -> (res: Option<usize>)
    requires
        items@.len() > 0,
    ensures
        res == open_range_start(items@),
{
    match &items[0] {
        SequenceItem::Range(low, high) => match (&**low, &**high) {
            (SequenceItem::Number(n), SequenceItem::Wildcard) => Some(*n),
            _ => None,
        },
        _ => None,
    }
}

// -------------------------------------------------------------------- laws
/// As many attributes are counted as there are sections of the body among
/// them, wherever they stand.
pub proof fn body_sections_are_counted_wherever_they_stand(attributes: Seq<Attribute>)
    ensures
        body_sections(attributes) == attributes.filter(|a: Attribute| a.body_section).len(),
    decreases attributes.len(),
{
    reveal(Seq::filter);
    if attributes.len() > 0 {
        body_sections_are_counted_wherever_they_stand(attributes.drop_last());
    }
}

/// There is a section of the body to count exactly if one of the attributes is
/// one.
pub proof fn any_body_section_is_counted(attributes: Seq<Attribute>)
    ensures
        body_sections(attributes) > 0 <==> exists|i: int|
            0 <= i < attributes.len() && (#[trigger] attributes[i]).body_section,
    decreases attributes.len(),
{
    if attributes.len() > 0 {
        let fewer = attributes.drop_last();
        any_body_section_is_counted(fewer);
        if body_sections(fewer) > 0 {
            let i = choose|i: int| 0 <= i < fewer.len() && (#[trigger] fewer[i]).body_section;
            assert(attributes[i].body_section);
        }
        if exists|i: int| 0 <= i < attributes.len() && (#[trigger] attributes[i]).body_section {
            let i = choose|i: int|
                0 <= i < attributes.len() && (#[trigger] attributes[i]).body_section;
            if i < fewer.len() {
                assert(fewer[i].body_section);
            }
        }
    }
}

/// A range reaches beyond the last message if either of its ends does; a set
/// does if any of its parts does.
pub proof fn a_range_reaches_as_far_as_its_ends(
    low: SequenceItem,
    high: SequenceItem,
    items: Seq<SequenceItem>,
    n: usize,
    count: usize,
)
    ensures
        is_beyond(SequenceItem::Number(n), count) <==> n > count,
        is_beyond(SequenceItem::Wildcard, count) <==> count == 0,
        is_beyond(SequenceItem::Range(Box::new(low), Box::new(high)), count) <==> is_beyond(
            low,
            count,
        ) || is_beyond(high, count),
        some_beyond(items, count) <==> !(forall|i: int|
            0 <= i < items.len() ==> !is_beyond(#[trigger] items[i], count)),
{
}

/// A set begins with an open range exactly if its first part is `n:*` for some
/// number.
pub proof fn an_open_range_ends_in_a_wildcard(items: Seq<SequenceItem>, n: usize)
    ensures
        open_range_start(items) == Some(n) <==> items.len() > 0 && items[0] == SequenceItem::Range(
            Box::new(SequenceItem::Number(n)),
            Box::new(SequenceItem::Wildcard),
        ),
{
}

/// A word names a command only if it is the name of that command, in whatever
/// letters; every other word names none.
pub proof fn only_its_name_names_a_command(word: Text)
    ensures
        match command_named(word) {
            Command::Noop => lowered(word) == "noop"@,
            Command::Capability => lowered(word) == "capability"@,
            Command::Login => lowered(word) == "login"@,
            Command::Logout => lowered(word) == "logout"@,
            Command::Select => lowered(word) == "select"@,
            Command::Examine => lowered(word) == "examine"@,
            Command::Create => lowered(word) == "create"@,
            Command::Delete => lowered(word) == "delete"@,
            Command::List => lowered(word) == "list"@,
            Command::Check => lowered(word) == "check"@,
            Command::Close => lowered(word) == "close"@,
            Command::Expunge => lowered(word) == "expunge"@,
            Command::Fetch => lowered(word) == "fetch"@,
            Command::Uid => lowered(word) == "uid"@,
            Command::Store => lowered(word) == "store"@,
            Command::Unknown => true,
        },
{
}

} // verus!
