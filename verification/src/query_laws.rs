//! What holds of splitting, joining and merging queries.

use vstd::prelude::*;
use crate::query::{
    bogus_key, count_key, head, join, lemma_split_len, lemma_written_push, merged_pairs,
    merged_query, overwrite, overwrite_all, pair_of, pairs_of, signature_key, split, splittable,
    written, written_pair,
};

verus! {

/// A string without the separator is its own single piece.
pub proof fn lemma_split_without_separator(s: Seq<char>, sep: char)
    requires
        !s.contains(sep),
    ensures
        split(s, sep) == seq![s],
    decreases s.len(),
{
    if s.len() == 0 {
        assert(s =~= Seq::empty());
    } else {
        let before = s.drop_last();
        assert(!before.contains(sep)) by {
            if before.contains(sep) {
                let i = choose|i: int| 0 <= i < before.len() && before[i] == sep;
                assert(s[i] == sep);
            }
        }
        lemma_split_without_separator(before, sep);
        assert(s[s.len() - 1] != sep);
        assert(split(s, sep) =~= seq![before.push(s.last())]);
        assert(before.push(s.last()) =~= s);
    }
}

/// Splitting what stands on both sides of a separator splits the whole.
pub proof fn lemma_split_concat(a: Seq<char>, b: Seq<char>, sep: char)
    ensures
        split(a.push(sep) + b, sep) == split(a, sep) + split(b, sep),
    decreases b.len(),
{
    let s = a.push(sep) + b;
    if b.len() == 0 {
        assert(s.drop_last() =~= a);
        assert(split(s, sep) =~= split(a, sep) + split(b, sep));
    } else {
        let shorter = b.drop_last();
        lemma_split_concat(a, shorter, sep);
        lemma_split_len(shorter, sep);
        assert(s.drop_last() =~= a.push(sep) + shorter);
        assert(s.last() == b.last());
        assert(split(s, sep) =~= split(a, sep) + split(b, sep));
    }
}

/// No piece holds the separator.
pub proof fn lemma_pieces_hold_no_separator(s: Seq<char>, sep: char)
    ensures
        forall|i: int| 0 <= i < split(s, sep).len() ==> !(#[trigger] split(s, sep)[i]).contains(sep),
    decreases s.len(),
{
    if s.len() > 0 {
        let before = split(s.drop_last(), sep);
        lemma_pieces_hold_no_separator(s.drop_last(), sep);
        lemma_split_len(s.drop_last(), sep);
        assert forall|i: int| 0 <= i < split(s, sep).len() implies !(#[trigger] split(
            s,
            sep,
        )[i]).contains(sep) by {
            let piece = split(s, sep)[i];
            if piece.contains(sep) {
                let k = choose|k: int| 0 <= k < piece.len() && piece[k] == sep;
                if s.last() != sep && i == before.len() - 1 {
                    assert(before.last()[k] == sep);
                } else {
                    assert(before[i][k] == sep);
                }
            }
        }
    }
}

/// A character that `s` does not hold stands in none of its pieces.
pub proof fn lemma_pieces_hold_only_given(s: Seq<char>, sep: char, c: char)
    requires
        !s.contains(c),
    ensures
        forall|i: int| 0 <= i < split(s, sep).len() ==> !(#[trigger] split(s, sep)[i]).contains(c),
    decreases s.len(),
{
    if s.len() > 0 {
        let shorter = s.drop_last();
        let before = split(shorter, sep);
        assert(!shorter.contains(c)) by {
            if shorter.contains(c) {
                let k = choose|k: int| 0 <= k < shorter.len() && shorter[k] == c;
                assert(s[k] == c);
            }
        }
        assert(s[s.len() - 1] != c);
        lemma_pieces_hold_only_given(shorter, sep, c);
        lemma_split_len(shorter, sep);
        assert forall|i: int| 0 <= i < split(s, sep).len() implies !(#[trigger] split(
            s,
            sep,
        )[i]).contains(c) by {
            let piece = split(s, sep)[i];
            if piece.contains(c) {
                let k = choose|k: int| 0 <= k < piece.len() && piece[k] == c;
                if s.last() != sep && i == before.len() - 1 {
                    assert(before.last()[k] == c);
                } else {
                    assert(before[i][k] == c);
                }
            }
        }
    }
}

/// Splitting a join of pieces that hold no separator gives the pieces back.
pub proof fn lemma_split_of_join(pieces: Seq<Seq<char>>, sep: char)
    requires
        pieces.len() >= 1,
        forall|i: int| 0 <= i < pieces.len() ==> !(#[trigger] pieces[i]).contains(sep),
    ensures
        split(join(pieces, sep), sep) == pieces,
    decreases pieces.len(),
{
    if pieces.len() == 1 {
        lemma_split_without_separator(pieces[0], sep);
        assert(split(join(pieces, sep), sep) =~= pieces);
    } else {
        let init = pieces.drop_last();
        assert forall|i: int| 0 <= i < init.len() implies !(#[trigger] init[i]).contains(sep) by {
            assert(init[i] == pieces[i]);
        }
        lemma_split_of_join(init, sep);
        lemma_split_concat(join(init, sep), pieces.last(), sep);
        lemma_split_without_separator(pieces.last(), sep);
        assert(split(join(pieces, sep), sep) =~= pieces);
    }
}

/// A key is plain when it holds neither `&` nor `=`.
pub open spec fn plain(s: Seq<char>) -> bool {
    !s.contains('&') && !s.contains('=')
}

/// The two keys of the merge are plain, and differ.
pub proof fn lemma_keys_plain()
    ensures
        plain(signature_key()),
        plain(bogus_key()),
        signature_key() != bogus_key(),
{
    let s = signature_key();
    let b = bogus_key();
    assert(s.len() == 10 && b.len() == 7);
    assert forall|i: int| 0 <= i < s.len() implies s[i] != '&' && s[i] != '=' by {}
    assert forall|i: int| 0 <= i < b.len() implies b[i] != '&' && b[i] != '=' by {}
}

/// Keys and values that were read from a query hold neither `&` nor `=`.
pub proof fn lemma_pairs_are_plain(query: Seq<char>)
    requires
        splittable(query),
    ensures
        forall|i: int|
            0 <= i < pairs_of(query).len() ==> plain((#[trigger] pairs_of(query)[i]).0) && plain(
                pairs_of(query)[i].1,
            ),
{
    let pieces = split(query, '&');
    lemma_pieces_hold_no_separator(query, '&');
    assert forall|i: int| 0 <= i < pairs_of(query).len() implies plain(
        (#[trigger] pairs_of(query)[i]).0,
    ) && plain(pairs_of(query)[i].1) by {
        let piece = pieces[i];
        assert(piece.contains('='));
        lemma_split_len(piece, '=');
        lemma_pieces_hold_no_separator(piece, '=');
        lemma_pieces_hold_only_given(piece, '=', '&');
        let fields = split(piece, '=');
        assert(pairs_of(query)[i] == (fields[0], fields[1]));
    }
}

/// Reading one written pair gives its key and the head of its value.
pub proof fn lemma_pair_of_written_pair(pair: (Seq<char>, Seq<char>))
    requires
        !pair.0.contains('='),
    ensures
        written_pair(pair).contains('='),
        pair_of(written_pair(pair)) == (pair.0, head(pair.1)),
{
    lemma_split_concat(pair.0, pair.1, '=');
    lemma_split_without_separator(pair.0, '=');
    lemma_split_len(pair.1, '=');
    lemma_split_len(written_pair(pair), '=');
}

/// Reading a written query gives its pairs back, each value cut at its
/// first `=`.
pub proof fn lemma_pairs_of_written(pairs: Seq<(Seq<char>, Seq<char>)>)
    requires
        pairs.len() >= 1,
        forall|i: int|
            0 <= i < pairs.len() ==> plain((#[trigger] pairs[i]).0) && !pairs[i].1.contains('&'),
    ensures
        splittable(written(pairs)),
        pairs_of(written(pairs)) == pairs.map_values(
            |pair: (Seq<char>, Seq<char>)| (pair.0, head(pair.1)),
        ),
{
    let pieces = pairs.map_values(|pair: (Seq<char>, Seq<char>)| written_pair(pair));
    assert forall|i: int| 0 <= i < pieces.len() implies !(#[trigger] pieces[i]).contains('&') by {
        let pair = pairs[i];
        let piece = written_pair(pair);
        if piece.contains('&') {
            let k = choose|k: int| 0 <= k < piece.len() && piece[k] == '&';
            if k < pair.0.len() {
                assert(pair.0[k] == '&');
            } else if k > pair.0.len() {
                assert(pair.1[k - pair.0.len() - 1] == '&');
            }
        }
    }
    lemma_split_of_join(pieces, '&');
    assert(split(written(pairs), '&') == pieces);
    assert forall|i: int| 0 <= i < pieces.len() implies (#[trigger] pieces[i]).contains('=')
        && pair_of(pieces[i]) == (pairs[i].0, head(pairs[i].1)) by {
        lemma_pair_of_written_pair(pairs[i]);
    }
    assert(pairs_of(written(pairs)) =~= pairs.map_values(
        |pair: (Seq<char>, Seq<char>)| (pair.0, head(pair.1)),
    ));
}

/// The merged query is the written form of the merged pairs.
pub proof fn lemma_merged_query_is_written(query: Seq<char>, signature: Seq<char>, bogus: Seq<char>)
    ensures
        merged_query(query, signature, bogus) == written(
            merged_pairs(pairs_of(query), signature, bogus),
        ),
{
    let pairs = pairs_of(query);
    lemma_split_len(query, '&');
    let kept = overwrite_all(pairs, signature, bogus);
    assert(kept.len() >= 1);
    let with_bogus = if count_key(pairs, bogus_key()) > 0 {
        kept
    } else {
        kept.push((bogus_key(), bogus))
    };
    if count_key(pairs, bogus_key()) == 0 {
        lemma_written_push(kept, (bogus_key(), bogus));
        assert(written(with_bogus) =~= written(kept) + seq!['&'] + bogus_key() + seq!['=']
            + bogus);
    }
    if count_key(pairs, signature_key()) == 0 {
        lemma_written_push(with_bogus, (signature_key(), signature));
        assert(written(with_bogus.push((signature_key(), signature))) =~= written(with_bogus)
            + seq!['&'] + signature_key() + seq!['='] + signature);
    }
}

/// Reading the merged query gives the merged pairs, the new values cut at
/// their first `=`. It holds where neither new value holds a `&`: a
/// signature `a&b=c` would be read back as two pairs.
pub proof fn lemma_merge_read_back(query: Seq<char>, signature: Seq<char>, bogus: Seq<char>)
    requires
        splittable(query),
        !signature.contains('&'),
        !bogus.contains('&'),
    ensures
        splittable(merged_query(query, signature, bogus)),
        pairs_of(merged_query(query, signature, bogus)) == merged_pairs(
            pairs_of(query),
            head(signature),
            head(bogus),
        ),
{
    let pairs = pairs_of(query);
    let merged = merged_pairs(pairs, signature, bogus);
    let read = merged_pairs(pairs, head(signature), head(bogus));
    lemma_split_len(query, '&');
    lemma_merged_query_is_written(query, signature, bogus);
    lemma_pairs_are_plain(query);
    lemma_keys_plain();
    assert forall|i: int| 0 <= i < merged.len() implies plain((#[trigger] merged[i]).0)
        && !merged[i].1.contains('&') by {
        if i < pairs.len() {
            assert(merged[i] == overwrite(pairs[i], signature, bogus));
        }
    }
    lemma_pairs_of_written(merged);
    let cut = merged.map_values(|pair: (Seq<char>, Seq<char>)| (pair.0, head(pair.1)));
    assert(cut.len() == read.len());
    assert forall|i: int| 0 <= i < cut.len() implies cut[i] == read[i] by {
        if i < pairs.len() {
            assert(merged[i] == overwrite(pairs[i], signature, bogus));
            assert(read[i] == overwrite(pairs[i], head(signature), head(bogus)));
            lemma_split_without_separator(pairs[i].1, '=');
        }
    }
    assert(cut =~= read);
}

/// One pair more counts once more where it has the key.
pub proof fn lemma_count_push(
    pairs: Seq<(Seq<char>, Seq<char>)>,
    pair: (Seq<char>, Seq<char>),
    key: Seq<char>,
)
    ensures
        count_key(pairs.push(pair), key) == count_key(pairs, key) + if pair.0 == key {
            1nat
        } else {
            0nat
        },
{
    assert(pairs.push(pair).drop_last() =~= pairs);
}

/// Overwriting values leaves every key as often as it stood.
pub proof fn lemma_count_overwritten(
    pairs: Seq<(Seq<char>, Seq<char>)>,
    signature: Seq<char>,
    bogus: Seq<char>,
    key: Seq<char>,
)
    ensures
        count_key(overwrite_all(pairs, signature, bogus), key) == count_key(pairs, key),
    decreases pairs.len(),
{
    if pairs.len() > 0 {
        let after = overwrite_all(pairs, signature, bogus);
        lemma_count_overwritten(pairs.drop_last(), signature, bogus, key);
        assert(after.drop_last() =~= overwrite_all(pairs.drop_last(), signature, bogus));
        assert(after.last().0 == pairs.last().0);
    }
}

/// After the merge each of the two keys stands as often as it stood before,
/// and once where it did not stand; every other key stands as before.
pub proof fn lemma_count_merged(
    pairs: Seq<(Seq<char>, Seq<char>)>,
    signature: Seq<char>,
    bogus: Seq<char>,
    key: Seq<char>,
)
    ensures
        count_key(merged_pairs(pairs, signature, bogus), key) == if (key == signature_key() || key
            == bogus_key()) && count_key(pairs, key) == 0 {
            1nat
        } else {
            count_key(pairs, key)
        },
{
    lemma_keys_plain();
    let kept = overwrite_all(pairs, signature, bogus);
    lemma_count_overwritten(pairs, signature, bogus, key);
    let with_bogus = if count_key(pairs, bogus_key()) > 0 {
        kept
    } else {
        kept.push((bogus_key(), bogus))
    };
    if count_key(pairs, bogus_key()) == 0 {
        lemma_count_push(kept, (bogus_key(), bogus), key);
    }
    if count_key(pairs, signature_key()) == 0 {
        lemma_count_push(with_bogus, (signature_key(), signature), key);
    }
}

/// Where a query holds `_signature` and `X-Bogus` at most once each, the
/// merged query, read as pairs again, holds each of them exactly once. It
/// holds where neither new value holds a `&`.
pub proof fn lemma_merged_query_holds_each_key_once(
    query: Seq<char>,
    signature: Seq<char>,
    bogus: Seq<char>,
)
    requires
        splittable(query),
        !signature.contains('&'),
        !bogus.contains('&'),
        count_key(pairs_of(query), signature_key()) <= 1,
        count_key(pairs_of(query), bogus_key()) <= 1,
    ensures
        splittable(merged_query(query, signature, bogus)),
        count_key(pairs_of(merged_query(query, signature, bogus)), signature_key()) == 1,
        count_key(pairs_of(merged_query(query, signature, bogus)), bogus_key()) == 1,
{
    lemma_merge_read_back(query, signature, bogus);
    lemma_count_merged(pairs_of(query), head(signature), head(bogus), signature_key());
    lemma_count_merged(pairs_of(query), head(signature), head(bogus), bogus_key());
}

/// Where a query holds one `_signature` and no `X-Bogus`, the merged query
/// keeps every pair in its place, gives the signature slot the new value,
/// and ends with the one `X-Bogus` pair that was appended. It holds where
/// neither new value holds a `&`.
pub proof fn lemma_merge_precedence(query: Seq<char>, signature: Seq<char>, bogus: Seq<char>)
    requires
        splittable(query),
        !signature.contains('&'),
        !bogus.contains('&'),
        count_key(pairs_of(query), signature_key()) == 1,
        count_key(pairs_of(query), bogus_key()) == 0,
    ensures
        pairs_of(merged_query(query, signature, bogus)).len() == pairs_of(query).len() + 1,
        pairs_of(merged_query(query, signature, bogus)).last() == (bogus_key(), head(bogus)),
        forall|i: int|
            0 <= i < pairs_of(query).len() ==> #[trigger] pairs_of(
                merged_query(query, signature, bogus),
            )[i] == if pairs_of(query)[i].0 == signature_key() {
                (signature_key(), head(signature))
            } else {
                pairs_of(query)[i]
            },
        count_key(pairs_of(merged_query(query, signature, bogus)), signature_key()) == 1,
        count_key(pairs_of(merged_query(query, signature, bogus)), bogus_key()) == 1,
{
    let pairs = pairs_of(query);
    lemma_merge_read_back(query, signature, bogus);
    lemma_merged_query_holds_each_key_once(query, signature, bogus);
    let after = pairs_of(merged_query(query, signature, bogus));
    assert forall|i: int| 0 <= i < pairs.len() implies #[trigger] after[i] == if pairs[i].0
        == signature_key() {
        (signature_key(), head(signature))
    } else {
        pairs[i]
    } by {
        assert(after[i] == overwrite(pairs[i], head(signature), head(bogus)));
        if pairs[i].0 == bogus_key() {
            lemma_key_counted(pairs, i, bogus_key());
        }
    }
}

/// A key that stands at some place is counted.
pub proof fn lemma_key_counted(pairs: Seq<(Seq<char>, Seq<char>)>, i: int, key: Seq<char>)
    requires
        0 <= i < pairs.len(),
        pairs[i].0 == key,
    ensures
        count_key(pairs, key) >= 1,
    decreases pairs.len(),
{
    if i < pairs.len() - 1 {
        lemma_key_counted(pairs.drop_last(), i, key);
    }
}

/// A key that stands at two places is counted twice.
pub proof fn lemma_key_counted_twice(
    pairs: Seq<(Seq<char>, Seq<char>)>,
    i: int,
    j: int,
    key: Seq<char>,
)
    requires
        0 <= i < j < pairs.len(),
        pairs[i].0 == key,
        pairs[j].0 == key,
    ensures
        count_key(pairs, key) >= 2,
    decreases pairs.len(),
{
    if j < pairs.len() - 1 {
        lemma_key_counted_twice(pairs.drop_last(), i, j, key);
    } else {
        lemma_key_counted(pairs.drop_last(), i, key);
    }
}

/// A key that is counted once stands at one place only.
pub proof fn lemma_key_stands_once(pairs: Seq<(Seq<char>, Seq<char>)>, k: int, key: Seq<char>)
    requires
        0 <= k < pairs.len(),
        pairs[k].0 == key,
        count_key(pairs, key) == 1,
    ensures
        forall|i: int| 0 <= i < pairs.len() && i != k ==> (#[trigger] pairs[i]).0 != key,
{
    assert forall|i: int| 0 <= i < pairs.len() && i != k implies (#[trigger] pairs[i]).0 != key by {
        if pairs[i].0 == key {
            if i < k {
                lemma_key_counted_twice(pairs, i, k, key);
            } else {
                lemma_key_counted_twice(pairs, k, i, key);
            }
        }
    }
}

} // verus!
