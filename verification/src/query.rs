//! The query string as an ordered sequence of key/value pairs, and the merge
//! of the two signing parameters into it.

use vstd::prelude::*;
use crate::text::{append_chars, chars_of, same_chars, string_of};

verus! {

/// The pieces of `s` between the occurrences of `sep`, in order. There is
/// always at least one piece; a piece may be empty.
pub open spec fn split(s: Seq<char>, sep: char) -> Seq<Seq<char>>
    decreases s.len(),
{
    if s.len() == 0 {
        seq![Seq::empty()]
    } else {
        let before = split(s.drop_last(), sep);
        if s.last() == sep {
            before.push(Seq::empty())
        } else {
            before.drop_last().push(before.last().push(s.last()))
        }
    }
}

/// The pieces written one after the other with `sep` between neighbours.
pub open spec fn join(pieces: Seq<Seq<char>>, sep: char) -> Seq<char>
    decreases pieces.len(),
{
    if pieces.len() == 0 {
        Seq::empty()
    } else if pieces.len() == 1 {
        pieces[0]
    } else {
        join(pieces.drop_last(), sep).push(sep) + pieces.last()
    }
}

/// The character sequences that the vectors of `v` hold.
pub open spec fn views(v: Seq<Vec<char>>) -> Seq<Seq<char>> {
    Seq::new(v.len(), |i: int| v[i]@)
}

/// Splits `s` at every occurrence of `sep`.
pub fn split_chars(s: &[char], sep: char) -> (pieces: Vec<Vec<char>>)
    ensures
        views(pieces@) == split(s@, sep),
{
    let mut pieces: Vec<Vec<char>> = Vec::new();
    let mut current: Vec<char> = Vec::new();
    let mut i: usize = 0;
    assert(s@.take(0) =~= Seq::<char>::empty());
    assert(views(pieces@).push(current@) =~= seq![Seq::<char>::empty()]);
    while i < s.len()
        invariant
            i <= s.len(),
            views(pieces@).push(current@) == split(s@.take(i as int), sep),
        decreases s.len() - i,
    {
        let ghost done = views(pieces@);
        let ghost piece = current@;
        let c = s[i];
        if c == sep {
            pieces.push(current);
            current = Vec::new();
            assert(views(pieces@) =~= done.push(piece));
        } else {
            current.push(c);
            assert(views(pieces@) =~= done);
        }
        i += 1;
        proof {
            let upto = s@.take(i as int);
            assert(upto.drop_last() =~= s@.take(i - 1));
            assert(upto.last() == c);
            assert(done.push(piece).drop_last() =~= done);
        }
    }
    proof {
        assert(s@.take(i as int) =~= s@);
    }
    let ghost done = views(pieces@);
    pieces.push(current);
    assert(views(pieces@) =~= done.push(current@));
    pieces
}

/// The key under which the signature travels in a query: `_signature`.
pub open spec fn signature_key() -> Seq<char> {
    seq!['_', 's', 'i', 'g', 'n', 'a', 't', 'u', 'r', 'e']
}

/// The key under which the bogus parameter travels in a query: `X-Bogus`.
pub open spec fn bogus_key() -> Seq<char> {
    seq!['X', '-', 'B', 'o', 'g', 'u', 's']
}

/// A query can be read as pairs when each of its pieces between `&` holds
/// a `=`.
pub open spec fn splittable(query: Seq<char>) -> bool {
    forall|i: int|
        0 <= i < split(query, '&').len() ==> (#[trigger] split(query, '&')[i]).contains('=')
}

/// Key and value of one piece: what stands before its first `=`, and what
/// stands between its first `=` and its second, or its end.
pub open spec fn pair_of(piece: Seq<char>) -> (Seq<char>, Seq<char>) {
    let fields = split(piece, '=');
    (fields[0], fields[1])
}

/// The pairs of a query, in the order in which it holds them.
pub open spec fn pairs_of(query: Seq<char>) -> Seq<(Seq<char>, Seq<char>)> {
    split(query, '&').map_values(|piece: Seq<char>| pair_of(piece))
}

/// How many of `pairs` have the key `key`.
pub open spec fn count_key(pairs: Seq<(Seq<char>, Seq<char>)>, key: Seq<char>) -> nat
    decreases pairs.len(),
{
    if pairs.len() == 0 {
        0
    } else {
        count_key(pairs.drop_last(), key) + if pairs.last().0 == key {
            1nat
        } else {
            0nat
        }
    }
}

/// The pair after the merge: a signature or a bogus slot takes the new
/// value, any other pair stays.
pub open spec fn overwrite(pair: (Seq<char>, Seq<char>), signature: Seq<char>, bogus: Seq<char>) -> (
    Seq<char>,
    Seq<char>,
) {
    if pair.0 == signature_key() {
        (pair.0, signature)
    } else if pair.0 == bogus_key() {
        (pair.0, bogus)
    } else {
        pair
    }
}

/// All pairs after the merge, in their old order.
pub open spec fn overwrite_all(
    pairs: Seq<(Seq<char>, Seq<char>)>,
    signature: Seq<char>,
    bogus: Seq<char>,
) -> Seq<(Seq<char>, Seq<char>)> {
    pairs.map_values(|pair: (Seq<char>, Seq<char>)| overwrite(pair, signature, bogus))
}

/// One pair as it stands in a query: key, `=`, value.
pub open spec fn written_pair(pair: (Seq<char>, Seq<char>)) -> Seq<char> {
    pair.0.push('=') + pair.1
}

/// The query that holds exactly `pairs`, in order.
pub open spec fn written(pairs: Seq<(Seq<char>, Seq<char>)>) -> Seq<char> {
    join(pairs.map_values(|pair: (Seq<char>, Seq<char>)| written_pair(pair)), '&')
}

/// The query after the merge: every `_signature` and `X-Bogus` slot that the
/// query holds is overwritten in place; a parameter without a slot is
/// appended, the bogus parameter before the signature.
pub open spec fn merged_query(query: Seq<char>, signature: Seq<char>, bogus: Seq<char>) -> Seq<
    char,
> {
    let pairs = pairs_of(query);
    let kept = written(overwrite_all(pairs, signature, bogus));
    let with_bogus = if count_key(pairs, bogus_key()) > 0 {
        kept
    } else {
        kept + seq!['&'] + bogus_key() + seq!['='] + bogus
    };
    if count_key(pairs, signature_key()) > 0 {
        with_bogus
    } else {
        with_bogus + seq!['&'] + signature_key() + seq!['='] + signature
    }
}

/// What stands in `value` before its first `=`: the value that a reader of
/// the query finds.
pub open spec fn head(value: Seq<char>) -> Seq<char> {
    split(value, '=')[0]
}

/// The pairs of the merged query: the old pairs with their slots
/// overwritten, then the bogus parameter and the signature, each only where
/// the query had no slot for it.
pub open spec fn merged_pairs(
    pairs: Seq<(Seq<char>, Seq<char>)>,
    signature: Seq<char>,
    bogus: Seq<char>,
) -> Seq<(Seq<char>, Seq<char>)> {
    let kept = overwrite_all(pairs, signature, bogus);
    let with_bogus = if count_key(pairs, bogus_key()) > 0 {
        kept
    } else {
        kept.push((bogus_key(), bogus))
    };
    if count_key(pairs, signature_key()) > 0 {
        with_bogus
    } else {
        with_bogus.push((signature_key(), signature))
    }
}

/// A string has more than one piece exactly when it holds the separator.
pub proof fn lemma_split_len(s: Seq<char>, sep: char)
    ensures
        split(s, sep).len() >= 1,
        split(s, sep).len() >= 2 <==> s.contains(sep),
    decreases s.len(),
{
    if s.len() > 0 {
        let before = s.drop_last();
        lemma_split_len(before, sep);
        if s.last() == sep {
            assert(s[s.len() - 1] == sep);
        } else if before.contains(sep) {
            let i = choose|i: int| 0 <= i < before.len() && before[i] == sep;
            assert(s[i] == sep);
        } else if s.contains(sep) {
            let i = choose|i: int| 0 <= i < s.len() && s[i] == sep;
            assert(before[i] == sep);
        }
    }
}

/// The pairs of character sequences that the pairs of vectors hold.
pub open spec fn pair_views(v: Seq<(Vec<char>, Vec<char>)>) -> Seq<(Seq<char>, Seq<char>)> {
    Seq::new(v.len(), |i: int| (v[i].0@, v[i].1@))
}

/// The pairs of character sequences that the pairs of strings hold.
pub open spec fn pair_strings(v: Seq<(String, String)>) -> Seq<(Seq<char>, Seq<char>)> {
    Seq::new(v.len(), |i: int| (v[i].0@, v[i].1@))
}

/// Reads `query` as pairs, if it can be read so.
pub fn pairs_of_chars(query: &[char]) -> (r: Option<Vec<(Vec<char>, Vec<char>)>>)
    ensures
        r is Some <==> splittable(query@),
        r matches Some(pairs) ==> pair_views(pairs@) == pairs_of(query@),
{
    let pieces = split_chars(query, '&');
    let mut pairs: Vec<(Vec<char>, Vec<char>)> = Vec::new();
    let mut i: usize = 0;
    while i < pieces.len()
        invariant
            i <= pieces.len(),
            views(pieces@) == split(query@, '&'),
            pair_views(pairs@) == pairs_of(query@).take(i as int),
            forall|j: int| 0 <= j < i ==> (#[trigger] split(query@, '&')[j]).contains('='),
        decreases pieces.len() - i,
    {
        let ghost piece = pieces[i as int]@;
        assert(piece == views(pieces@)[i as int]);
        let mut fields = split_chars(pieces[i].as_slice(), '=');
        proof {
            lemma_split_len(piece, '=');
        }
        if fields.len() < 2 {
            assert(!split(query@, '&')[i as int].contains('='));
            return None;
        }
        let ghost found = views(fields@);
        let value = fields.remove(1);
        let key = fields.remove(0);
        assert(key@ == found[0] && value@ == found[1]);
        let ghost before = pair_views(pairs@);
        pairs.push((key, value));
        i += 1;
        assert(pair_views(pairs@) =~= before.push(pair_of(piece)));
        assert(pairs_of(query@).take(i as int) =~= pairs_of(query@).take(i - 1).push(pair_of(piece)));
    }
    assert(pairs_of(query@).take(i as int) =~= pairs_of(query@));
    Some(pairs)
}

/// The pairs of `query` in order, or `None` where a piece of it holds no `=`.
pub fn query_pairs(query: &str) -> (r: Option<Vec<(String, String)>>)
    ensures
        r is Some <==> splittable(query@),
        r matches Some(pairs) ==> pair_strings(pairs@) == pairs_of(query@),
{
    let chars = chars_of(query);
    match pairs_of_chars(chars.as_slice()) {
        None => None,
        Some(found) => {
            let mut pairs: Vec<(String, String)> = Vec::new();
            let mut i: usize = 0;
            while i < found.len()
                invariant
                    i <= found.len(),
                    pair_strings(pairs@) == pair_views(found@).take(i as int),
                decreases found.len() - i,
            {
                let ghost before = pair_strings(pairs@);
                let key = string_of(found[i].0.as_slice());
                let value = string_of(found[i].1.as_slice());
                pairs.push((key, value));
                i += 1;
                assert(pair_strings(pairs@) =~= before.push((key@, value@)));
                assert(pair_views(found@).take(i as int) =~= pair_views(found@).take(i - 1).push(
                    (key@, value@),
                ));
            }
            assert(pair_views(found@).take(i as int) =~= pair_views(found@));
            Some(pairs)
        },
    }
}

/// `written` of one pair more: the separator stands before every pair but
/// the first.
pub proof fn lemma_written_push(pairs: Seq<(Seq<char>, Seq<char>)>, pair: (Seq<char>, Seq<char>))
    ensures
        written(pairs.push(pair)) == if pairs.len() == 0 {
            written_pair(pair)
        } else {
            written(pairs).push('&') + written_pair(pair)
        },
{
    let f = |p: (Seq<char>, Seq<char>)| written_pair(p);
    let all = pairs.push(pair).map_values(f);
    assert(all.drop_last() =~= pairs.map_values(f));
    assert(all.last() == written_pair(pair));
}

/// Merges `signature` and `bogus` into `query`.
pub fn merge_query(query: &str, signature: &str, bogus: &str) -> (out: String)
    requires
        splittable(query@),
    ensures
        out@ == merged_query(query@, signature@, bogus@),
{
    let chars = chars_of(query);
    let new_signature = chars_of(signature);
    let new_bogus = chars_of(bogus);
    let key_of_signature = chars_of("_signature");
    let key_of_bogus = chars_of("X-Bogus");
    proof {
        reveal_strlit("_signature");
        reveal_strlit("X-Bogus");
        assert(key_of_signature@ =~= signature_key());
        assert(key_of_bogus@ =~= bogus_key());
    }
    let pairs = pairs_of_chars(chars.as_slice()).unwrap();
    let ghost old_pairs = pairs_of(query@);
    let ghost new_pairs = overwrite_all(old_pairs, signature@, bogus@);
    let mut out: Vec<char> = Vec::new();
    let mut is_bogus_set = false;
    let mut is_signature_set = false;
    let mut i: usize = 0;
    assert(new_pairs.take(0).map_values(|p: (Seq<char>, Seq<char>)| written_pair(p)).len() == 0);
    while i < pairs.len()
        invariant
            i <= pairs.len(),
            pair_views(pairs@) == old_pairs,
            new_pairs == overwrite_all(old_pairs, signature@, bogus@),
            new_signature@ == signature@,
            new_bogus@ == bogus@,
            key_of_signature@ == signature_key(),
            key_of_bogus@ == bogus_key(),
            out@ == written(new_pairs.take(i as int)),
            is_signature_set == (count_key(old_pairs.take(i as int), signature_key()) > 0),
            is_bogus_set == (count_key(old_pairs.take(i as int), bogus_key()) > 0),
        decreases pairs.len() - i,
    {
        let ghost pair = old_pairs[i as int];
        assert(pair == (pairs[i as int].0@, pairs[i as int].1@));
        if i > 0 {
            out.push('&');
        }
        append_chars(&mut out, pairs[i].0.as_slice());
        out.push('=');
        if same_chars(pairs[i].0.as_slice(), key_of_signature.as_slice()) {
            append_chars(&mut out, new_signature.as_slice());
            is_signature_set = true;
        } else if same_chars(pairs[i].0.as_slice(), key_of_bogus.as_slice()) {
            append_chars(&mut out, new_bogus.as_slice());
            is_bogus_set = true;
        } else {
            append_chars(&mut out, pairs[i].1.as_slice());
        }
        proof {
            let done = new_pairs.take(i as int);
            let merged = overwrite(pair, signature@, bogus@);
            assert(new_pairs.take(i + 1) =~= done.push(merged));
            lemma_written_push(done, merged);
            assert(out@ =~= written(done.push(merged)));
            assert(old_pairs.take(i + 1).drop_last() =~= old_pairs.take(i as int));
        }
        i += 1;
    }
    assert(old_pairs.take(i as int) =~= old_pairs);
    assert(new_pairs.take(i as int) =~= new_pairs);
    let ghost kept = out@;
    if !is_bogus_set {
        out.push('&');
        append_chars(&mut out, key_of_bogus.as_slice());
        out.push('=');
        append_chars(&mut out, new_bogus.as_slice());
        assert(out@ =~= kept + seq!['&'] + bogus_key() + seq!['='] + bogus@);
    }
    let ghost with_bogus = out@;
    if !is_signature_set {
        out.push('&');
        append_chars(&mut out, key_of_signature.as_slice());
        out.push('=');
        append_chars(&mut out, new_signature.as_slice());
        assert(out@ =~= with_bogus + seq!['&'] + signature_key() + seq!['='] + signature@);
    }
    string_of(out.as_slice())
}

} // verus!
