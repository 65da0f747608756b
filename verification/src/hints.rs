//! Suggestions for what the user may have meant.

use vstd::prelude::*;
use vstd::utf8::encode_utf8;

verus! {

/// The Damerau-Levenshtein distance between two texts: how many insertions,
/// deletions, substitutions and transpositions of characters turn one into the other.
pub uninterp spec fn damerau_levenshtein_distance(a: Seq<char>, b: Seq<char>) -> nat;

/// Calls `distance::damerau_levenshtein`, which counts the character edits
/// between two texts; the contract names its result and states nothing more of it.
#[verifier::external_body]
pub(crate) fn damerau_levenshtein(a: &str, b: &str) -> (d: usize)
    ensures
        d as nat == damerau_levenshtein_distance(a@, b@),
{
    distance::damerau_levenshtein(a, b)
}

/// Byte-wise lexicographic order, the order of `str` and `String`.
pub open spec fn bytes_le(a: Seq<u8>, b: Seq<u8>) -> bool
    decreases a.len(),
{
    if a.len() == 0 {
        true
    } else if b.len() == 0 {
        false
    } else if a[0] != b[0] {
        a[0] < b[0]
    } else {
        bytes_le(a.drop_first(), b.drop_first())
    }
}

/// The order of texts: that of their UTF-8 bytes.
pub open spec fn text_le(a: Seq<char>, b: Seq<char>) -> bool {
    bytes_le(encode_utf8(a), encode_utf8(b))
}

proof fn lemma_bytes_le_total(a: Seq<u8>, b: Seq<u8>)
    ensures
        bytes_le(a, b) || bytes_le(b, a),
    decreases a.len(),
{
    if a.len() > 0 && b.len() > 0 && a[0] == b[0] {
        lemma_bytes_le_total(a.drop_first(), b.drop_first());
    }
}

proof fn lemma_bytes_le_transitive(a: Seq<u8>, b: Seq<u8>, c: Seq<u8>)
    requires
        bytes_le(a, b),
        bytes_le(b, c),
    ensures
        bytes_le(a, c),
    decreases a.len(),
{
    if a.len() > 0 && b.len() > 0 && c.len() > 0 && a[0] == b[0] && b[0] == c[0] {
        lemma_bytes_le_transitive(a.drop_first(), b.drop_first(), c.drop_first());
    }
}

/// Whether `a` comes no later than `b` in byte-wise order.
fn bytes_le_exec(a: &[u8], b: &[u8]) -> (r: bool)
    ensures
        r == bytes_le(a@, b@),
{
    let mut i: usize = 0;
    assert(a@.skip(0) =~= a@);
    assert(b@.skip(0) =~= b@);
    while i < a.len() && i < b.len()
        invariant
            i <= a@.len(),
            i <= b@.len(),
            bytes_le(a@, b@) == bytes_le(a@.skip(i as int), b@.skip(i as int)),
        decreases a@.len() - i,
    {
        if a[i] != b[i] {
            return a[i] < b[i];
        }
        assert(a@.skip(i as int).drop_first() =~= a@.skip(i + 1));
        assert(b@.skip(i as int).drop_first() =~= b@.skip(i + 1));
        i = i + 1;
    }
    i == a.len()
}

/// Whether a suggestion at distance `d1` named `s1` ranks no lower than one at
/// distance `d2` named `s2`: the closer first, the earlier text among equally close ones.
pub open spec fn ranks_before(d1: nat, s1: Seq<char>, d2: nat, s2: Seq<char>) -> bool {
    d1 < d2 || (d1 == d2 && text_le(s1, s2))
}

/// Whether `option` is within `max_dist` edits of `given`.
pub open spec fn near(given: Seq<char>, option: Seq<char>, max_dist: nat) -> bool {
    damerau_levenshtein_distance(given, option) <= max_dist
}

/// Whether `(d, s)` is the best of `options`, whose distances are `dists`: one
/// of the options, with its distance, no farther than `max_dist`, and ranking
/// before every other option no farther than that.
pub open spec fn best_among(
    options: Seq<Seq<char>>,
    dists: Seq<nat>,
    max_dist: nat,
    d: nat,
    s: Seq<char>,
) -> bool {
    &&& exists|i: int| 0 <= i < options.len() && options[i] == s && dists[i] == d
    &&& d <= max_dist
    &&& forall|j: int|
        0 <= j < options.len() && dists[j] <= max_dist ==> ranks_before(
            d,
            s,
            dists[j],
            options[j],
        )
}

/// The distances of `options` from `given`.
pub open spec fn distances_from(given: Seq<char>, options: Seq<Seq<char>>) -> Seq<nat> {
    options.map_values(|o: Seq<char>| damerau_levenshtein_distance(given, o))
}

/// The option that ranks first among those no farther than `max_dist`, with
/// its distance, where `distances[i]` is the distance of `options[i]`; `None`
/// where every option is farther.
pub fn closest_option(options: &[String], distances: &[usize], max_dist: usize) -> (r: Option<
    (usize, String),
>)
    requires
        distances@.len() == options@.len(),
    ensures
        r is None <==> forall|j: int| 0 <= j < options@.len() ==> distances@[j] > max_dist,
        r matches Some((d, s)) ==> best_among(
            options.deep_view(),
            distances@.map_values(|x: usize| x as nat),
            max_dist as nat,
            d as nat,
            s@,
        ),
{
    let ghost texts = options.deep_view();
    let ghost dists = distances@.map_values(|x: usize| x as nat);
    let mut best: Option<(usize, usize)> = None;
    let mut i: usize = 0;
    while i < options.len()
        invariant
            i <= options@.len(),
            distances@.len() == options@.len(),
            texts == options.deep_view(),
            dists == distances@.map_values(|x: usize| x as nat),
            best is None ==> forall|j: int| 0 <= j < i ==> distances@[j] > max_dist,
            best matches Some((bd, bi)) ==> {
                &&& bi < i
                &&& bd == distances@[bi as int]
                &&& bd <= max_dist
                &&& forall|j: int|
                    0 <= j < i && dists[j] <= max_dist ==> ranks_before(
                        bd as nat,
                        texts[bi as int],
                        dists[j],
                        texts[j],
                    )
            },
        decreases options@.len() - i,
    {
        let d: usize = distances[i];
        if d <= max_dist {
            match best {
                None => {
                    best = Some((d, i));
                    proof {
                        let b = encode_utf8(texts[i as int]);
                        lemma_bytes_le_total(b, b);
                    }
                },
                Some((bd, bi)) => {
                    let take = d < bd || (d == bd && bytes_le_exec(
                        options[i].as_str().as_bytes(),
                        options[bi].as_str().as_bytes(),
                    ));
                    proof {
                        let bi_bytes = encode_utf8(texts[bi as int]);
                        let i_bytes = encode_utf8(texts[i as int]);
                        lemma_bytes_le_total(bi_bytes, i_bytes);
                        lemma_bytes_le_total(i_bytes, i_bytes);
                        lemma_bytes_le_total(bi_bytes, bi_bytes);
                        if take {
                            assert forall|j: int|
                                0 <= j < i + 1 && dists[j] <= max_dist implies ranks_before(
                                d as nat,
                                texts[i as int],
                                dists[j],
                                texts[j],
                            ) by {
                                if j < i && d == bd && dists[j] == d {
                                    lemma_bytes_le_transitive(
                                        i_bytes,
                                        bi_bytes,
                                        encode_utf8(texts[j]),
                                    );
                                }
                            }
                        }
                    }
                    if take {
                        best = Some((d, i));
                    }
                },
            }
        }
        i = i + 1;
    }
    match best {
        None => None,
        Some((bd, bi)) => {
            let s = options[bi].clone();
            proof {
                assert(texts[bi as int] == s@);
                assert(dists[bi as int] == bd as nat);
            }
            Some((bd, s))
        },
    }
}

/// The option closest to `given`, with its distance, among those within
/// `max_dist` edits of it; among equally close ones the one that sorts first.
/// `None` where no option is that close.
pub fn best_hint(given: &str, options: &[String], max_dist: usize) -> (r: Option<(usize, String)>)
    ensures
        r is None <==> forall|j: int|
            0 <= j < options@.len() ==> !near(given@, options@[j]@, max_dist as nat),
        r matches Some((d, s)) ==> best_among(
            options.deep_view(),
            distances_from(given@, options.deep_view()),
            max_dist as nat,
            d as nat,
            s@,
        ),
{
    let mut distances: Vec<usize> = Vec::new();
    let mut i: usize = 0;
    while i < options.len()
        invariant
            i <= options@.len(),
            distances@.len() == i,
            forall|j: int|
                0 <= j < i ==> distances@[j] as nat == damerau_levenshtein_distance(
                    given@,
                    options@[j]@,
                ),
        decreases options@.len() - i,
    {
        let d: usize = damerau_levenshtein(given, options[i].as_str());
        distances.push(d);
        i = i + 1;
    }
    let r = closest_option(options, distances.as_slice(), max_dist);
    proof {
        let texts = options.deep_view();
        assert(distances@.map_values(|x: usize| x as nat) =~= distances_from(given@, texts));
        if r is None {
            assert forall|j: int| 0 <= j < options@.len() implies !near(
                given@,
                options@[j]@,
                max_dist as nat,
            ) by {
                assert(distances@[j] > max_dist);
            }
        } else {
            let k = choose|k: int| 0 <= k < options@.len() && distances@[k] <= max_dist;
            assert(near(given@, options@[k]@, max_dist as nat));
        }
    }
    r
}

} // verus!
