//! Query strings: `key=value` pairs joined by `&`.

use crate::error::ServerError;
use crate::text::{after_first, before_first, chars_of, cut, same_text, split, split_text, texts};
use crate::trusted::string_of;
use vstd::prelude::*;

verus! {

/// The key and the value of one piece of a query string: what stands before
/// and after its first `=`. A piece without `=` is no pair.
pub open spec fn pair_of(piece: Seq<char>) -> Option<(Seq<char>, Seq<char>)> {
    match after_first(piece, "="@) {
        Some(value) => Some((before_first(piece, "="@), value)),
        None => None,
    }
}

/// Every piece is a pair.
pub open spec fn all_pairs(pieces: Seq<Seq<char>>) -> bool {
    forall|i: int| 0 <= i < pieces.len() ==> (#[trigger] pair_of(pieces[i])) is Some
}

/// The pairs of `pieces`, in order.
pub open spec fn pairs_of(pieces: Seq<Seq<char>>) -> Seq<(Seq<char>, Seq<char>)> {
    pieces.map_values(|piece: Seq<char>| pair_of(piece)->0)
}

/// The value that `key` has after the pairs are entered one after another:
/// that of the last pair with this key.
pub open spec fn lookup(pairs: Seq<(Seq<char>, Seq<char>)>, key: Seq<char>) -> Option<Seq<char>>
    decreases pairs.len(),
{
    if pairs.len() == 0 {
        None
    } else if pairs.last().0 == key {
        Some(pairs.last().1)
    } else {
        lookup(pairs.drop_last(), key)
    }
}

/// The mapping that results from entering the pairs one after another, a
/// later pair replacing an earlier one with the same key.
pub open spec fn mapping(pairs: Seq<(Seq<char>, Seq<char>)>) -> Map<Seq<char>, Seq<char>>
    decreases pairs.len(),
{
    if pairs.len() == 0 {
        Map::empty()
    } else {
        mapping(pairs.drop_last()).insert(pairs.last().0, pairs.last().1)
    }
}

/// `lookup` reads the mapping.
pub proof fn lemma_lookup_reads_mapping(pairs: Seq<(Seq<char>, Seq<char>)>, key: Seq<char>)
    ensures
        match lookup(pairs, key) {
            Some(value) => mapping(pairs).contains_key(key) && mapping(pairs)[key] == value,
            None => !mapping(pairs).contains_key(key),
        },
    decreases pairs.len(),
{
    if pairs.len() > 0 {
        lemma_lookup_reads_mapping(pairs.drop_last(), key);
    }
}

/// The mapping that a query string stands for. A query string in which some
/// piece between two `&` has no `=` is invalid; so is the empty one.
pub open spec fn query_mapping(query: Seq<char>) -> Result<Map<Seq<char>, Seq<char>>, ServerError> {
    let pieces = split(query, "&"@);
    if all_pairs(pieces) {
        Ok(mapping(pairs_of(pieces)))
    } else {
        Err(ServerError::InvalidQuery)
    }
}

/// The parameters of a query, by key.
///
/// The pairs are kept in the order in which they were entered and a key is
/// looked up from the end, so that the pair entered last is the one found.
/// What `get` returns is proved against the mapping that the pairs stand
/// for.
#[derive(Clone, Debug)]
pub struct QueryParams {
    entries: Vec<(Vec<char>, Vec<char>)>,
}

/// The pairs that `entries` hold.
pub open spec fn entry_texts(entries: Seq<(Vec<char>, Vec<char>)>) -> Seq<(Seq<char>, Seq<char>)> {
    entries.map_values(|e: (Vec<char>, Vec<char>)| (e.0@, e.1@))
}

impl View for QueryParams {
    type V = Map<Seq<char>, Seq<char>>;

    closed spec fn view(&self) -> Map<Seq<char>, Seq<char>> {
        mapping(entry_texts(self.entries@))
    }
}

impl QueryParams {
    /// No parameters.
    pub fn new() -> (out: QueryParams)
        ensures
            out@ == Map::<Seq<char>, Seq<char>>::empty(),
    {
        QueryParams { entries: Vec::new() }
    }

    /// Enters a pair; it replaces an earlier one with the same key.
    pub fn insert(&mut self, key: &str, value: &str)
        ensures
            final(self)@ == old(self)@.insert(key@, value@),
    {
        let k = chars_of(key);
        let v = chars_of(value);
        proof {
            let before = entry_texts(self.entries@);
            let after = entry_texts(self.entries@.push((k, v)));
            assert(after.drop_last() =~= before);
        }
        self.entries.push((k, v));
    }

    /// The value of `key`, if the query has one.
    pub fn get(&self, key: &str) -> (r: Option<String>)
        ensures
            match r {
                Some(value) => self@.contains_key(key@) && self@[key@] == value@,
                None => !self@.contains_key(key@),
            },
    {
        let wanted = chars_of(key);
        let ghost pairs = entry_texts(self.entries@);
        let mut j: usize = self.entries.len();
        proof {
            assert(pairs.take(j as int) =~= pairs);
        }
        while j > 0
            invariant
                j <= self.entries.len(),
                wanted@ == key@,
                pairs == entry_texts(self.entries@),
                lookup(pairs, key@) == lookup(pairs.take(j as int), key@),
            decreases j,
        {
            proof {
                let cur = pairs.take(j as int);
                assert(cur.drop_last() =~= pairs.take(j - 1));
            }
            if same_text(&self.entries[j - 1].0, &wanted) {
                proof {
                    lemma_lookup_reads_mapping(pairs, key@);
                }
                return Some(string_of(self.entries[j - 1].1.as_slice()));
            }
            j -= 1;
        }
        proof {
            lemma_lookup_reads_mapping(pairs, key@);
        }
        None
    }
}

/// A parsed query as a mathematical value.
pub open spec fn params_view(r: Result<QueryParams, ServerError>) -> Result<
    Map<Seq<char>, Seq<char>>,
    ServerError,
> {
    match r {
        Ok(params) => Ok(params@),
        Err(e) => Err(e),
    }
}

/// Reads a query string.
pub fn parse_query_params(query: &str) -> (r: Result<QueryParams, ServerError>)
    ensures
        params_view(r) == query_mapping(query@),
{
    let q = chars_of(query);
    let pieces = split_text(&q, &chars_of("&"));
    let equals = chars_of("=");
    let mut entries: Vec<(Vec<char>, Vec<char>)> = Vec::new();
    let ghost all = texts(pieces@);
    let mut i: usize = 0;
    while i < pieces.len()
        invariant
            i <= pieces.len(),
            entries.len() == i,
            equals@ == "="@,
            all == texts(pieces@),
            all == split(query@, "&"@),
            all_pairs(all.take(i as int)),
            entry_texts(entries@) == pairs_of(all.take(i as int)),
        decreases pieces.len() - i,
    {
        let (key, rest) = cut(&pieces[i], &equals);
        match rest {
            Some(value) => {
                proof {
                    let before = all.take(i as int);
                    let after = all.take(i + 1);
                    assert forall|k: int| 0 <= k < after.len() implies (#[trigger] pair_of(
                        after[k],
                    )) is Some by {}
                    let grown = entry_texts(entries@.push((key, value)));
                    assert forall|k: int| 0 <= k < after.len() implies grown[k] == pairs_of(
                        after,
                    )[k] by {
                        if k < i {
                            assert(pairs_of(before)[k] == pair_of(before[k])->0);
                        }
                    }
                }
                entries.push((key, value));
            },
            None => {
                assert(pair_of(all[i as int]) is None);
                return Err(ServerError::InvalidQuery);
            },
        }
        i += 1;
    }
    proof {
        assert(all.take(i as int) =~= all);
    }
    Ok(QueryParams { entries })
}

} // verus!
