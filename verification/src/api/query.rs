//! The query of a URL: what it is made of, and which delimiters it holds.

use vstd::prelude::*;
use crate::text::{
    joined, lemma_joined_push, lemma_occurrences_add, lemma_occurrences_none,
    lemma_occurrences_one, lemma_percent_encoded_chars, is_encoded_char, occurrences,
    percent_encoded,
};

verus! {

/// One key and value of a query: the key as it is, `=`, the value
/// percent-encoded.
pub open spec fn pair_text(p: (Seq<char>, Seq<char>)) -> Seq<char> {
    p.0 + seq!['='] + percent_encoded(p.1)
}

/// What a list of parameters adds to a URL: nothing if there is none, else
/// `?` and the pairs with `&` between them.
pub open spec fn query(params: Seq<(Seq<char>, Seq<char>)>) -> Seq<char> {
    if params.len() == 0 {
        Seq::empty()
    } else {
        seq!['?'] + joined(params.map_values(|p: (Seq<char>, Seq<char>)| pair_text(p)), seq!['&'])
    }
}

/// How often a character stands in the keys of a list of parameters.
pub open spec fn key_occurrences(params: Seq<(Seq<char>, Seq<char>)>, c: char) -> nat
    decreases params.len(),
{
    if params.len() == 0 {
        0
    } else {
        key_occurrences(params.drop_last(), c) + occurrences(params.last().0, c)
    }
}

/// How often a character is written as a delimiter of a query of `n`
/// parameters: `?` once, `&` between each two pairs, `=` in each pair.
pub open spec fn delimiter_occurrences(n: nat, c: char) -> nat {
    if n == 0 {
        0
    } else if c == '?' {
        1
    } else if c == '&' {
        (n - 1) as nat
    } else if c == '=' {
        n
    } else {
        0
    }
}

/// Whether a character stands in none of the keys.
pub open spec fn keys_lack(params: Seq<(Seq<char>, Seq<char>)>, c: char) -> bool {
    forall|k: int, i: int|
        0 <= k < params.len() && 0 <= i < params[k].0.len() ==> (#[trigger] params[k].0[i]) != c
}

/// No parameters add nothing to a URL, not even a `?`.
pub proof fn lemma_query_of_none()
    ensures
        query(Seq::empty()) == Seq::<char>::empty(),
{
}

/// The first parameter adds `?` and its pair, and each further one `&` and
/// its pair: the keys as they are, the values percent-encoded.
pub proof fn lemma_query_push(params: Seq<(Seq<char>, Seq<char>)>, last: (Seq<char>, Seq<char>))
    ensures
        query(params.push(last)) == if params.len() == 0 {
            seq!['?'] + pair_text(last)
        } else {
            query(params) + seq!['&'] + pair_text(last)
        },
{
    let f = |p: (Seq<char>, Seq<char>)| pair_text(p);
    assert(params.push(last).map_values(f) =~= params.map_values(f).push(pair_text(last)));
    lemma_joined_push(params.map_values(f), seq!['&'], pair_text(last));
    if params.len() > 0 {
        let head = joined(params.map_values(f), seq!['&']);
        assert(seq!['?'] + (head + seq!['&'] + pair_text(last)) =~= (seq!['?'] + head) + seq!['&']
            + pair_text(last));
    }
}

/// A character that percent-encoding never writes stands in a pair as often
/// as in its key, and once more if it is `=`.
pub proof fn lemma_pair_occurrences(p: (Seq<char>, Seq<char>), c: char)
    requires
        !is_encoded_char(c),
    ensures
        occurrences(pair_text(p), c) == occurrences(p.0, c) + if c == '=' {
            1nat
        } else {
            0nat
        },
{
    lemma_percent_encoded_chars(p.1);
    lemma_occurrences_none(percent_encoded(p.1), c);
    lemma_occurrences_add(p.0 + seq!['='], percent_encoded(p.1), c);
    lemma_occurrences_add(p.0, seq!['='], c);
    lemma_occurrences_one('=', c);
}

/// A character that percent-encoding never writes stands in a query as often
/// as in the keys and among the delimiters together: the values add none.
pub proof fn lemma_query_occurrences(params: Seq<(Seq<char>, Seq<char>)>, c: char)
    requires
        !is_encoded_char(c),
    ensures
        occurrences(query(params), c) == key_occurrences(params, c) + delimiter_occurrences(
            params.len(),
            c,
        ),
    decreases params.len(),
{
    if params.len() > 0 {
        let front = params.drop_last();
        let last = params.last();
        assert(params =~= front.push(last));
        lemma_query_occurrences(front, c);
        lemma_query_push(front, last);
        lemma_pair_occurrences(last, c);
        lemma_occurrences_one('?', c);
        lemma_occurrences_one('&', c);
        if front.len() == 0 {
            lemma_occurrences_add(seq!['?'], pair_text(last), c);
        } else {
            lemma_occurrences_add(query(front) + seq!['&'], pair_text(last), c);
            lemma_occurrences_add(query(front), seq!['&'], c);
        }
    }
}

/// A character that stands in none of the keys stands in them zero times.
pub proof fn lemma_key_occurrences_none(params: Seq<(Seq<char>, Seq<char>)>, c: char)
    requires
        keys_lack(params, c),
    ensures
        key_occurrences(params, c) == 0,
    decreases params.len(),
{
    if params.len() > 0 {
        let front = params.drop_last();
        assert(keys_lack(front, c)) by {
            assert forall|k: int, i: int|
                0 <= k < front.len() && 0 <= i < front[k].0.len() implies (#[trigger] front[k].0[i])
                != c by {
                assert(front[k] == params[k]);
            }
        }
        lemma_key_occurrences_none(front, c);
        lemma_occurrences_none(params.last().0, c);
    }
}

/// Where no key holds a `?`, the query of one parameter or more holds
/// exactly one `?`; where no key holds an `&`, it holds one `&` fewer than
/// there are parameters. The query of no parameters holds neither.
pub proof fn lemma_query_delimiters(params: Seq<(Seq<char>, Seq<char>)>)
    ensures
        keys_lack(params, '?') ==> occurrences(query(params), '?') == if params.len() == 0 {
            0nat
        } else {
            1nat
        },
        keys_lack(params, '&') ==> occurrences(query(params), '&') == if params.len() == 0 {
            0nat
        } else {
            (params.len() - 1) as nat
        },
{
    lemma_query_occurrences(params, '?');
    lemma_query_occurrences(params, '&');
    if keys_lack(params, '?') {
        lemma_key_occurrences_none(params, '?');
    }
    if keys_lack(params, '&') {
        lemma_key_occurrences_none(params, '&');
    }
}

} // verus!
