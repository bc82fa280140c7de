//! Lowercasing of names, character by character.

use vstd::prelude::*;
use vstd::std_specs::iter::IteratorSpec;

verus! {

/// The characters that `char::to_lowercase` yields for `c`, in order.
pub uninterp spec fn lowercase_of(c: char) -> Seq<char>;

/// Calls `char::to_lowercase` of the standard library and collects what its
/// iterator yields. Nothing is proved of it: that the mapping depends on the
/// character alone, and that it yields at least one character (the character
/// itself where it has no lowercase mapping), is taken from the standard
/// library's documentation.
#[verifier::external_body]
pub(crate) fn lowercase_chars(c: char) -> (lowered: Vec<char>)
    ensures
        lowered@ == lowercase_of(c),
        lowered@.len() >= 1,
{
    c.to_lowercase().collect()
}

/// A name with every character replaced by its lowercase mapping. One
/// character may give several; each of them counts as a character of the
/// result.
pub open spec fn normalize(name: Seq<char>) -> Seq<char>
    decreases name.len(),
{
    if name.len() == 0 {
        Seq::empty()
    } else {
        normalize(name.drop_last()) + lowercase_of(name.last())
    }
}

/// The first `limit` characters of `s`, or all of `s` where it is shorter.
pub open spec fn leading(s: Seq<char>, limit: nat) -> Seq<char> {
    if s.len() <= limit {
        s
    } else {
        s.take(limit as int)
    }
}

/// Lowercasing distributes over concatenation.
pub proof fn lemma_normalize_concat(a: Seq<char>, b: Seq<char>)
    ensures
        normalize(a + b) == normalize(a) + normalize(b),
    decreases b.len(),
{
    if b.len() == 0 {
        assert(a + b =~= a);
        assert(normalize(a) + normalize(b) =~= normalize(a));
    } else {
        lemma_normalize_concat(a, b.drop_last());
        assert((a + b).drop_last() =~= a + b.drop_last());
        assert((a + b).last() == b.last());
        assert(normalize(a) + (normalize(b.drop_last()) + lowercase_of(b.last())) =~= (normalize(a)
            + normalize(b.drop_last())) + lowercase_of(b.last()));
    }
}

/// Once `limit` characters are there, what follows does not change the
/// leading ones.
pub proof fn lemma_leading_ignores_tail(head: Seq<char>, tail: Seq<char>, limit: nat)
    requires
        head.len() >= limit,
    ensures
        leading(head + tail, limit) == leading(head, limit),
{
    assert((head + tail).take(limit as int) =~= head.take(limit as int));
    assert(head.take(head.len() as int) =~= head);
}

/// The first `limit` characters of the lowercased name. Reads no more of
/// the name than it needs.
pub fn normalized_prefix(name: &str, limit: usize) -> (out: Vec<char>)
    ensures
        out@ == leading(normalize(name@), limit as nat),
        name@.len() > 0 && limit > 0 ==> out@.len() > 0,
{
    let mut out: Vec<char> = Vec::new();
    let mut rest = name.chars();
    let ghost mut read: Seq<char> = Seq::empty();
    assert(read + rest.remaining() =~= name@);
    loop
        invariant_except_break
            name@ == read + rest.remaining(),
            out@ == leading(normalize(read), limit as nat),
            read.len() > 0 && limit > 0 ==> out@.len() > 0,
        ensures
            out@ == leading(normalize(name@), limit as nat),
            name@.len() > 0 && limit > 0 ==> out@.len() > 0,
        decreases name@.len() - read.len(),
    {
        if out.len() >= limit {
            proof {
                lemma_normalize_concat(read, rest.remaining());
                lemma_leading_ignores_tail(
                    normalize(read),
                    normalize(rest.remaining()),
                    limit as nat,
                );
            }
            break ;
        }
        let ghost before_rest = rest.remaining();
        match rest.next() {
            None => {
                assert(read + before_rest =~= read);
                break ;
            },
            Some(c) => {
                let lowered = lowercase_chars(c);
                let ghost before = normalize(read);
                let mut j: usize = 0;
                assert(before + lowered@.take(0) =~= before);
                while j < lowered.len() && out.len() < limit
                    invariant
                        j <= lowered.len(),
                        out@ == leading(before + lowered@.take(j as int), limit as nat),
                        j > 0 ==> out@.len() > 0,
                    decreases lowered.len() - j,
                {
                    out.push(lowered[j]);
                    j += 1;
                    assert(before + lowered@.take(j as int) =~= (before + lowered@.take(
                        j - 1,
                    )).push(lowered@[j - 1]));
                }
                proof {
                    let taken = before + lowered@.take(j as int);
                    assert(lowered@ =~= lowered@.take(j as int) + lowered@.skip(j as int));
                    assert(before + lowered@ =~= taken + lowered@.skip(j as int));
                    if j < lowered.len() {
                        lemma_leading_ignores_tail(taken, lowered@.skip(j as int), limit as nat);
                    } else {
                        assert(taken + lowered@.skip(j as int) =~= taken);
                    }
                    assert(read.push(c).drop_last() =~= read);
                    assert(read.push(c) + rest.remaining() =~= read + before_rest);
                    read = read.push(c);
                }
            },
        }
    }
    out
}

} // verus!
