//! Picking out of a list of texts those that contain a given text.

use vstd::prelude::*;
use crate::strings::{contains, is_substring, lemma_empty_is_substring};

verus! {

/// The positions of the texts in which `needle` occurs, in rising order.
pub open spec fn containing(texts: Seq<Seq<char>>, needle: Seq<char>) -> Seq<int>
    decreases texts.len(),
{
    if texts.len() == 0 {
        Seq::empty()
    } else {
        let earlier = containing(texts.drop_last(), needle);
        if is_substring(needle, texts.last()) {
            earlier.push(texts.len() - 1)
        } else {
            earlier
        }
    }
}

/// `containing` lists exactly the positions of the texts in which the
/// needle occurs, each once and in rising order.
pub proof fn lemma_containing(texts: Seq<Seq<char>>, needle: Seq<char>)
    ensures
        containing(texts, needle).len() <= texts.len(),
        forall|k: int|
            0 <= k < containing(texts, needle).len() ==> {
                &&& 0 <= #[trigger] containing(texts, needle)[k] < texts.len()
                &&& is_substring(needle, texts[containing(texts, needle)[k]])
            },
        forall|j: int, k: int|
            0 <= j < k < containing(texts, needle).len() ==> containing(texts, needle)[j]
                < containing(texts, needle)[k],
        forall|i: int|
            0 <= i < texts.len() && is_substring(needle, #[trigger] texts[i]) ==> containing(
                texts,
                needle,
            ).contains(i),
    decreases texts.len(),
{
    if texts.len() > 0 {
        let shorter = texts.drop_last();
        let earlier = containing(shorter, needle);
        let all = containing(texts, needle);
        lemma_containing(shorter, needle);
        assert forall|i: int|
            0 <= i < texts.len() && is_substring(needle, #[trigger] texts[i]) implies all.contains(
            i,
        ) by {
            if i < texts.len() - 1 {
                assert(shorter[i] == texts[i]);
                let k = choose|k: int| 0 <= k < earlier.len() && earlier[k] == i;
                assert(all[k] == i);
            } else {
                assert(all[all.len() - 1] == i);
            }
        }
        assert forall|k: int| 0 <= k < all.len() implies {
            &&& 0 <= #[trigger] all[k] < texts.len()
            &&& is_substring(needle, texts[all[k]])
        } by {
            if k < earlier.len() {
                assert(shorter[earlier[k]] == texts[earlier[k]]);
            }
        }
    }
}

/// The empty needle occurs in every text, so every position is listed.
pub proof fn lemma_containing_all(texts: Seq<Seq<char>>, needle: Seq<char>)
    requires
        needle.len() == 0,
    ensures
        containing(texts, needle) == Seq::new(texts.len(), |i: int| i),
    decreases texts.len(),
{
    if texts.len() > 0 {
        lemma_containing_all(texts.drop_last(), needle);
        lemma_empty_is_substring(needle, texts.last());
    }
    assert(containing(texts, needle) =~= Seq::new(texts.len(), |i: int| i));
}

/// The character sequences that a list of strings stands for.
pub open spec fn texts_of(strings: Seq<String>) -> Seq<Seq<char>> {
    Seq::new(strings.len(), |i: int| strings[i]@)
}

/// The positions of the texts in which `needle` occurs, in rising order.
/// The comparison is exact: no case is folded here.
pub fn positions_containing(texts: &Vec<String>, needle: &str) -> (positions: Vec<usize>)
    ensures
        positions@.len() == containing(texts_of(texts@), needle@).len(),
        forall|k: int|
            0 <= k < positions@.len() ==> #[trigger] positions@[k] == containing(
                texts_of(texts@),
                needle@,
            )[k],
        forall|k: int| 0 <= k < positions@.len() ==> #[trigger] positions@[k] < texts@.len(),
{
    let mut positions: Vec<usize> = Vec::new();
    let mut i: usize = 0;
    while i < texts.len()
        invariant
            i <= texts@.len(),
            positions@.len() == containing(texts_of(texts@).take(i as int), needle@).len(),
            forall|k: int|
                0 <= k < positions@.len() ==> {
                    &&& #[trigger] positions@[k] == containing(
                        texts_of(texts@).take(i as int),
                        needle@,
                    )[k]
                    &&& positions@[k] < i
                },
        decreases texts@.len() - i,
    {
        proof {
            let longer = texts_of(texts@).take(i + 1);
            assert(longer.drop_last() =~= texts_of(texts@).take(i as int));
            assert(longer.last() == texts@[i as int]@);
        }
        if contains(texts[i].as_str(), needle) {
            positions.push(i);
        }
        i = i + 1;
    }
    assert(texts_of(texts@).take(i as int) =~= texts_of(texts@));
    positions
}

} // verus!
