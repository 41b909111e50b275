//! Message flags and what a `STORE` does with them.

use vstd::prelude::*;

verus! {

/// A system flag of a message.
#[derive(Clone, Copy, Debug, PartialEq, Eq, Structural)]
pub enum Flag {
    Answered,
    Deleted,
    Draft,
    Flagged,
    Seen,
}

/// What a `STORE` does with the flags that it names.
#[derive(Clone, Copy, Debug, PartialEq, Eq, Structural)]
pub enum StoreMode {
    /// `FLAGS`: they take the place of the flags that the message has.
    Replace,
    /// `+FLAGS`: they are set.
    Add,
    /// `-FLAGS`: they are taken away.
    Remove,
}

/// A set of flags.
#[derive(Clone, Copy, Debug, PartialEq, Eq, Structural)]
pub struct FlagSet {
    answered: bool,
    deleted: bool,
    draft: bool,
    flagged: bool,
    seen: bool,
}

impl View for FlagSet {
    type V = Set<Flag>;

    closed spec fn view(&self) -> Set<Flag> {
        Set::new(
            |flag: Flag|
                match flag {
                    Flag::Answered => self.answered,
                    Flag::Deleted => self.deleted,
                    Flag::Draft => self.draft,
                    Flag::Flagged => self.flagged,
                    Flag::Seen => self.seen,
                },
        )
    }
}

impl FlagSet {
    /// The set without a flag.
    pub fn new() -> (res: FlagSet)
        ensures
            res@ == Set::<Flag>::empty(),
    {
        let res = FlagSet {
            answered: false,
            deleted: false,
            draft: false,
            flagged: false,
            seen: false,
        };
        assert(res@ =~= Set::<Flag>::empty());
        res
    }

    /// Puts `flag` into the set.
    pub fn insert(&mut self, flag: Flag)
        ensures
            final(self)@ == old(self)@.insert(flag),
    {
        match flag {
            Flag::Answered => self.answered = true,
            Flag::Deleted => self.deleted = true,
            Flag::Draft => self.draft = true,
            Flag::Flagged => self.flagged = true,
            Flag::Seen => self.seen = true,
        }
        assert(self@ =~= old(self)@.insert(flag));
    }

    /// Whether `flag` is in the set.
    pub fn contains(&self, flag: Flag) -> (res: bool)
        ensures
            res == self@.contains(flag),
    {
        match flag {
            Flag::Answered => self.answered,
            Flag::Deleted => self.deleted,
            Flag::Draft => self.draft,
            Flag::Flagged => self.flagged,
            Flag::Seen => self.seen,
        }
    }
}

/// The flags among `words`, of which those that name no flag are `None`.
pub open spec fn known_flags(words: Seq<Option<Flag>>) -> Set<Flag> {
    Set::new(|flag: Flag| words.contains(Some(flag)))
}

/// The flags among `words`, of which those that name no flag are `None`.
pub fn collect_flags(words: &Vec<Option<Flag>>) -> (res: FlagSet)
    ensures
        res@ == known_flags(words@),
{
    let mut res = FlagSet::new();
    let mut i: usize = 0;
    while i < words.len()
        invariant
            i <= words.len(),
            res@ == known_flags(words@.take(i as int)),
        decreases words.len() - i,
    {
        let ghost before = words@.take(i as int);
        let ghost after = words@.take(i + 1);
        assert(after =~= before.push(words@[i as int]));
        assert(forall|word: Option<Flag>| #[trigger]
            after.contains(word) <==> before.contains(word) || word == words@[i as int]) by {
            assert(after[i as int] == words@[i as int]);
            assert forall|word: Option<Flag>| before.contains(word) implies #[trigger] after.contains(
                word,
            ) by {
                let k = before.index_of(word);
                assert(after[k] == word);
            }
        }
        match words[i] {
            Some(flag) => {
                res.insert(flag);
                assert(res@ =~= known_flags(after));
            },
            None => {
                assert(res@ =~= known_flags(after));
            },
        }
        i += 1;
    }
    assert(words@.take(i as int) =~= words@);
    res
}

/// A flag is known exactly if some word names it.
pub proof fn known_flags_are_those_that_words_name(words: Seq<Option<Flag>>, flag: Flag)
    ensures
        known_flags(words).contains(flag) <==> exists|i: int|
            0 <= i < words.len() && #[trigger] words[i] == Some(flag),
{
}

} // verus!
