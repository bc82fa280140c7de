//! From a real name to its nickname.
//!
//! The first lowercase letter of the name picks a list of the table. The
//! code points of up to twenty letters after it are added up, and the sum,
//! modulo the length of the list, picks the nickname.

use crate::letters::{leading, lemma_leading_ignores_tail, lemma_normalize_concat, normalize, normalized_prefix};
use crate::table::{well_formed, NicknameTable};
use vstd::prelude::*;

verus! {

/// How many lowercase letters of a name are looked at: the first, and twenty
/// after it.
pub const CONSIDERED_LETTERS: usize = 21;

/// The sum of the code points of `s`.
pub open spec fn code_point_sum(s: Seq<char>) -> nat
    decreases s.len(),
{
    if s.len() == 0 {
        0
    } else {
        code_point_sum(s.drop_last()) + s.last() as nat
    }
}

/// The lowercase letters of `name` that decide its nickname.
pub open spec fn considered(name: Seq<char>) -> Seq<char> {
    leading(normalize(name), CONSIDERED_LETTERS as nat)
}

/// The sum of the code points of the considered letters after the first.
pub open spec fn offset_of(name: Seq<char>) -> nat {
    code_point_sum(considered(name).skip(1))
}

/// The nickname that `table` gives to `name`: none where no letter is
/// considered or the table has no list for the first one.
pub open spec fn nickname_of(table: Map<char, Seq<Seq<char>>>, name: Seq<char>) -> Option<
    Seq<char>,
> {
    let letters = considered(name);
    if letters.len() == 0 || !table.contains_key(letters[0]) {
        None
    } else {
        let list = table[letters[0]];
        Some(list[(offset_of(name) % list.len()) as int])
    }
}

/// No code point is above `0x10FFFF`.
proof fn lemma_code_point_range(c: char)
    ensures
        c as nat <= 0x10FFFF,
        c as u32 == c as nat,
{
}

/// The nickname of `real_name`, which must not be empty.
pub fn resolve(table: &NicknameTable, real_name: &str) -> (nickname: Option<String>)
    requires
        real_name@.len() > 0,
    ensures
        nickname.deep_view() == nickname_of(table@, real_name@),
        considered(real_name@).len() > 0,
        !table@.contains_key(considered(real_name@)[0]) ==> nickname is None,
{
    let letters = normalized_prefix(real_name, CONSIDERED_LETTERS);
    match table.lookup(letters[0]) {
        None => None,
        Some(list) => {
            let mut offset: u32 = 0;
            let mut i: usize = 1;
            assert(letters@.subrange(1, 1) =~= Seq::<char>::empty());
            while i < letters.len()
                invariant
                    1 <= i <= letters.len() <= CONSIDERED_LETTERS,
                    offset == code_point_sum(letters@.subrange(1, i as int)),
                    offset <= (i - 1) * 0x10FFFF,
                decreases letters.len() - i,
            {
                let code: u32 = letters[i] as u32;
                proof {
                    lemma_code_point_range(letters@[i as int]);
                    assert(letters@.subrange(1, i + 1).drop_last() =~= letters@.subrange(
                        1,
                        i as int,
                    ));
                }
                offset = offset + code;
                i += 1;
            }
            assert(letters@.subrange(1, letters@.len() as int) =~= letters@.skip(1));
            let index: usize = offset as usize % list.len();
            Some(list[index].clone())
        },
    }
}

/// A name whose first lowercase letter has no list in the table has no
/// nickname.
pub proof fn lemma_unlisted_letter_has_no_nickname(
    table: Map<char, Seq<Seq<char>>>,
    name: Seq<char>,
)
    requires
        considered(name).len() > 0,
        !table.contains_key(considered(name)[0]),
    ensures
        nickname_of(table, name) is None,
{
}

/// Two names with the same first lowercase letter, whose following letters
/// add up to the same remainder modulo the length of that letter's list,
/// have the same nickname.
pub proof fn lemma_equal_remainders_give_equal_nicknames(
    table: Map<char, Seq<Seq<char>>>,
    a: Seq<char>,
    b: Seq<char>,
)
    requires
        considered(a).len() > 0,
        considered(b).len() > 0,
        considered(a)[0] == considered(b)[0],
        table.contains_key(considered(a)[0]) ==> offset_of(a) % table[considered(a)[0]].len()
            == offset_of(b) % table[considered(a)[0]].len(),
    ensures
        nickname_of(table, a) == nickname_of(table, b),
{
}

/// The nickname depends on the table and the name alone: whatever was
/// answered for a name once is answered for it again.
pub proof fn lemma_nickname_is_repeatable(
    table: Map<char, Seq<Seq<char>>>,
    name: Seq<char>,
    again: Seq<char>,
    first: Option<Seq<char>>,
    second: Option<Seq<char>>,
)
    requires
        name =~= again,
        first == nickname_of(table, name),
        second == nickname_of(table, again),
    ensures
        first == second,
{
}

/// A name with a single lowercase letter gets the first candidate of that
/// letter's list: nothing follows the letter, so the offset is zero.
pub proof fn lemma_single_letter_takes_first_candidate(
    table: Map<char, Seq<Seq<char>>>,
    name: Seq<char>,
)
    requires
        normalize(name).len() == 1,
        well_formed(table),
    ensures
        considered(name).skip(1).len() == 0,
        offset_of(name) == 0,
        nickname_of(table, name) == if table.contains_key(normalize(name)[0]) {
            Some(table[normalize(name)[0]][0])
        } else {
            None
        },
{
}

/// Names with the same considered letters have the same nickname, however
/// they go on.
pub proof fn lemma_considered_letters_decide(
    table: Map<char, Seq<Seq<char>>>,
    a: Seq<char>,
    b: Seq<char>,
)
    requires
        considered(a) == considered(b),
    ensures
        nickname_of(table, a) == nickname_of(table, b),
{
}

/// Once a name has given its twenty-one lowercase letters, what is appended
/// to it changes nothing.
pub proof fn lemma_appended_characters_are_ignored(
    table: Map<char, Seq<Seq<char>>>,
    name: Seq<char>,
    appended: Seq<char>,
)
    requires
        normalize(name).len() >= CONSIDERED_LETTERS,
    ensures
        considered(name + appended) == considered(name),
        nickname_of(table, name + appended) == nickname_of(table, name),
{
    lemma_normalize_concat(name, appended);
    lemma_leading_ignores_tail(normalize(name), normalize(appended), CONSIDERED_LETTERS as nat);
}

/// A letter of the table, taken as a name, finds its own list: the letters
/// of a table are lowercase, as the letters of a lowercased name are.
pub proof fn lemma_listed_letter_finds_its_list(table: Map<char, Seq<Seq<char>>>, letter: char)
    requires
        well_formed(table),
        table.contains_key(letter),
    ensures
        normalize(seq![letter]) == seq![letter],
        nickname_of(table, seq![letter]) == Some(table[letter][0]),
{
    let name = seq![letter];
    assert(normalize(name.drop_last()) =~= Seq::<char>::empty());
    assert(normalize(name) =~= name);
    assert(offset_of(name) == 0) by {
        assert(name.skip(1) =~= Seq::<char>::empty());
    }
}

} // verus!
