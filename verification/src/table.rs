//! The nickname table: for a lowercase letter, the candidate nicknames in
//! their fixed order.

use crate::letters::{lowercase_chars, lowercase_of};
use std::collections::HashMap;
use vstd::prelude::*;

verus! {

broadcast use vstd::std_specs::hash::group_hash_axioms;

/// Why `NicknameTable::insert` refused an entry.
#[derive(Debug, Clone, Copy, PartialEq, Eq, Structural)]
pub enum TableError {
    /// The list of candidates was empty.
    NoCandidates,
    /// The letter is not its own lowercase form.
    LetterNotLowercase,
    /// The table already holds a list for the letter.
    LetterTaken,
}

/// What every table holds: each list has a candidate, and each letter is its
/// own lowercase form, so that a lowercased name finds it.
pub open spec fn well_formed(entries: Map<char, Seq<Seq<char>>>) -> bool {
    forall|c: char| #[trigger]
        entries.contains_key(c) ==> entries[c].len() >= 1 && lowercase_of(c) == seq![c]
}

/// The number by which a letter's list is kept.
spec fn code_point(c: char) -> u32 {
    c as u32
}

/// Two letters with one code point are one letter.
proof fn lemma_code_point_injective(c: char, d: char)
    requires
        code_point(c) == code_point(d),
    ensures
        c == d,
{
}

/// Candidate nicknames by letter. Lists are keyed by the letter's code point.
pub struct NicknameTable {
    lists: HashMap<u32, Vec<String>>,
}

impl View for NicknameTable {
    type V = Map<char, Seq<Seq<char>>>;

    closed spec fn view(&self) -> Map<char, Seq<Seq<char>>> {
        Map::new(
            |c: char| self.lists@.contains_key(code_point(c)),
            |c: char| self.lists@[code_point(c)].deep_view(),
        )
    }
}

impl NicknameTable {
    #[verifier::type_invariant]
    spec fn lists_are_well_formed(&self) -> bool {
        well_formed(self@)
    }

    /// A table without letters.
    pub fn new() -> (table: NicknameTable)
        ensures
            table@ == Map::<char, Seq<Seq<char>>>::empty(),
            well_formed(table@),
    {
        let table = NicknameTable { lists: HashMap::new() };
        assert(table@ =~= Map::<char, Seq<Seq<char>>>::empty());
        table
    }

    /// Adds the list of candidates for `letter`. The table is left as it was
    /// where the list is empty, the letter is not lowercase, or the letter has
    /// a list already; these are tested in that order.
    pub fn insert(&mut self, letter: char, candidates: Vec<String>) -> (outcome: Result<
        (),
        TableError,
    >)
        ensures
            outcome == insert_outcome(old(self)@, letter, candidates.deep_view()),
            outcome is Ok ==> final(self)@ == old(self)@.insert(letter, candidates.deep_view()),
            outcome is Err ==> final(self)@ == old(self)@,
            well_formed(old(self)@),
            well_formed(final(self)@),
    {
        proof {
            use_type_invariant(&*self);
        }
        if candidates.len() == 0 {
            return Err(TableError::NoCandidates);
        }
        let lowered = lowercase_chars(letter);
        if lowered.len() != 1 || lowered[0] != letter {
            assert(lowercase_of(letter) != seq![letter]) by {
                if lowercase_of(letter) == seq![letter] {
                    assert(seq![letter].len() == 1);
                    assert(seq![letter][0] == letter);
                }
            }
            return Err(TableError::LetterNotLowercase);
        }
        assert(lowercase_of(letter) =~= seq![letter]);
        let key: u32 = letter as u32;
        if self.lists.contains_key(&key) {
            return Err(TableError::LetterTaken);
        }
        let ghost before = *self;
        let ghost listed = candidates.deep_view();
        // The map grows outside the table, which is well formed throughout.
        let mut lists: HashMap<u32, Vec<String>> = HashMap::new();
        std::mem::swap(&mut self.lists, &mut lists);
        lists.insert(key, candidates);
        let ghost after = NicknameTable { lists };
        proof {
            assert forall|c: char| code_point(c) == key implies c == letter by {
                lemma_code_point_injective(c, letter);
            }
            assert(after@ =~= before@.insert(letter, listed));
        }
        self.lists = lists;
        Ok(())
    }

    /// The candidates for `letter`, if the table has the letter.
    pub fn lookup(&self, letter: char) -> (found: Option<&Vec<String>>)
        ensures
            match found {
                Some(list) => self@.contains_key(letter) && list.deep_view() == self@[letter],
                None => !self@.contains_key(letter),
            },
            well_formed(self@),
    {
        proof {
            use_type_invariant(self);
        }
        let key: u32 = letter as u32;
        self.lists.get(&key)
    }
}

/// What `NicknameTable::insert` answers for a table holding `entries`.
pub open spec fn insert_outcome(
    entries: Map<char, Seq<Seq<char>>>,
    letter: char,
    candidates: Seq<Seq<char>>,
) -> Result<(), TableError> {
    if candidates.len() == 0 {
        Err(TableError::NoCandidates)
    } else if lowercase_of(letter) != seq![letter] {
        Err(TableError::LetterNotLowercase)
    } else if entries.contains_key(letter) {
        Err(TableError::LetterTaken)
    } else {
        Ok(())
    }
}

} // verus!
