//! Text building: percent-encoding, joining with a separator, and the
//! renderings that end up in diagnostics.

use vstd::prelude::*;
use vstd::seq_lib::lemma_flatten_concat;
use vstd::utf8::{encode_scalar, encode_utf8, has_width_1_encoding, leading_byte_width_1};

verus! {

/// The contents of a list of strings.
pub open spec fn texts(items: Seq<String>) -> Seq<Seq<char>> {
    items.map_values(|s: String| s@)
}

/// Bytes that percent-encoding leaves as they are: ASCII letters and digits,
/// and `-`, `.`, `_`, `~`.
pub open spec fn is_unreserved(b: u8) -> bool {
    ||| 0x30 <= b <= 0x39
    ||| 0x41 <= b <= 0x5a
    ||| 0x61 <= b <= 0x7a
    ||| b == 0x2d
    ||| b == 0x2e
    ||| b == 0x5f
    ||| b == 0x7e
}

/// The upper-case hexadecimal digit for a value below 16.
pub open spec fn hex_upper(d: u8) -> char {
    if d < 10 {
        (0x30 + d) as char
    } else {
        (0x41 + d - 10) as char
    }
}

/// One byte, percent-encoded.
pub open spec fn escaped_byte(b: u8) -> Seq<char> {
    if is_unreserved(b) {
        seq![b as char]
    } else {
        seq!['%', hex_upper(b / 16), hex_upper(b % 16)]
    }
}

/// A byte string, percent-encoded byte by byte.
pub open spec fn percent_encoded_bytes(bytes: Seq<u8>) -> Seq<char> {
    bytes.map_values(|b: u8| escaped_byte(b)).flatten()
}

/// A text, percent-encoded: each byte of its UTF-8 form stays if it is
/// unreserved and becomes `%XX` otherwise.
pub open spec fn percent_encoded(s: Seq<char>) -> Seq<char> {
    percent_encoded_bytes(encode_utf8(s))
}

/// `urlencoding::encode`: percent-encodes every byte of the text except ASCII
/// letters, digits and `-`, `.`, `_`, `~`, with upper-case hexadecimal digits.
#[verifier::external_body]
pub(crate) fn url_encode(value: &str) -> (r: String)
    ensures
        r@ == percent_encoded(value@),
{
    urlencoding::encode(value).into_owned()
}

/// A sequence with `sep` put between each two neighbours.
pub open spec fn interspersed<A>(items: Seq<A>, sep: A) -> Seq<A> {
    Seq::new(
        if items.len() == 0 {
            0
        } else {
            (2 * items.len() - 1) as nat
        },
        |i: int|
            if i % 2 == 0 {
                items[i / 2]
            } else {
                sep
            },
    )
}

/// The items written one after another with `sep` between them.
pub open spec fn joined(items: Seq<Seq<char>>, sep: Seq<char>) -> Seq<char> {
    interspersed(items, sep).flatten()
}

/// `Itertools::intersperse`, collected: the items in their order, with a copy
/// of `sep` between each two neighbours.
#[verifier::external_body]
pub(crate) fn intersperse(items: Vec<String>, sep: String) -> (r: Vec<String>)
    ensures
        texts(r@) == interspersed(texts(items@), sep@),
{
    itertools::Itertools::intersperse(items.into_iter(), sep).collect()
}

/// The lower-case hexadecimal digit for a value below 16.
pub open spec fn hex_lower(d: u8) -> char {
    if d < 10 {
        (0x30 + d) as char
    } else {
        (0x61 + d - 10) as char
    }
}

/// One byte as it stands in a byte-string literal: printable ASCII as it is,
/// the usual escapes for line feed, carriage return, tab, backslash, double
/// quote and zero, and `\xNN` for the rest.
pub open spec fn byte_debug(b: u8) -> Seq<char> {
    if b == 0x0a {
        seq!['\\', 'n']
    } else if b == 0x0d {
        seq!['\\', 'r']
    } else if b == 0x09 {
        seq!['\\', 't']
    } else if b == 0x5c || b == 0x22 {
        seq!['\\', b as char]
    } else if b == 0 {
        seq!['\\', '0']
    } else if 0x20 <= b < 0x7f {
        seq![b as char]
    } else {
        seq!['\\', 'x', hex_lower(b / 16), hex_lower(b % 16)]
    }
}

/// A byte string rendered as a byte-string literal, `b"..."`.
pub open spec fn bytes_debug(bytes: Seq<u8>) -> Seq<char> {
    seq!['b', '"'] + bytes.map_values(|b: u8| byte_debug(b)).flatten() + seq!['"']
}

/// The `Debug` rendering of `Bytes`: the bytes as a byte-string literal.
#[verifier::external_body]
pub(crate) fn debug_bytes(bytes: &[u8]) -> (r: String)
    ensures
        r@ == bytes_debug(bytes@),
{
    format!("{:?}", hyper::body::Bytes::copy_from_slice(bytes))
}

/// How a text is rendered for diagnostics: in double quotes, with escapes.
pub uninterp spec fn str_debug(s: Seq<char>) -> Seq<char>;

/// The `Debug` rendering of a `str`, which depends on its characters alone.
#[verifier::external_body]
pub(crate) fn debug_str(s: &str) -> (r: String)
    ensures
        r@ == str_debug(s@),
{
    format!("{:?}", s)
}

/// Appending one more piece appends its text to the flattened whole.
pub proof fn lemma_flatten_push<A>(pieces: Seq<Seq<A>>, last: Seq<A>)
    ensures
        pieces.push(last).flatten() == pieces.flatten() + last,
{
    lemma_flatten_concat(pieces, seq![last]);
    seq![last].lemma_flatten_one_element();
    assert(pieces.push(last) =~= pieces + seq![last]);
}

/// Writes the pieces one after another into one string.
pub fn flatten(pieces: &Vec<String>) -> (r: String)
    ensures
        r@ == texts(pieces@).flatten(),
{
    let mut out = String::new();
    let mut i: usize = 0;
    while i < pieces.len()
        invariant
            i <= pieces.len(),
            out@ == texts(pieces@.take(i as int)).flatten(),
        decreases pieces.len() - i,
    {
        proof {
            let done = texts(pieces@.take(i as int));
            lemma_flatten_push(done, pieces@[i as int]@);
            assert(texts(pieces@.take(i + 1)) =~= done.push(pieces@[i as int]@));
        }
        out.append(pieces[i].as_str());
        i += 1;
    }
    assert(pieces@.take(i as int) =~= pieces@);
    out
}

/// The characters that a percent-encoded text is made of: the unreserved
/// ones and `%`.
pub open spec fn is_encoded_char(c: char) -> bool {
    ||| '0' <= c <= '9'
    ||| 'A' <= c <= 'Z'
    ||| 'a' <= c <= 'z'
    ||| c == '-'
    ||| c == '.'
    ||| c == '_'
    ||| c == '~'
    ||| c == '%'
}

/// What holds of every item of every piece holds of every item of the
/// flattened whole.
pub proof fn lemma_flatten_all<A>(pieces: Seq<Seq<A>>, p: spec_fn(A) -> bool)
    requires
        forall|k: int, i: int|
            0 <= k < pieces.len() && 0 <= i < pieces[k].len() ==> p(#[trigger] pieces[k][i]),
    ensures
        forall|i: int| 0 <= i < pieces.flatten().len() ==> p(#[trigger] pieces.flatten()[i]),
    decreases pieces.len(),
{
    if pieces.len() > 0 {
        let first = pieces[0];
        let rest = pieces.drop_first();
        assert forall|k: int, i: int| 0 <= k < rest.len() && 0 <= i < rest[k].len() implies p(
            #[trigger] rest[k][i],
        ) by {
            assert(rest[k] == pieces[k + 1]);
        }
        lemma_flatten_all(rest, p);
        assert forall|i: int| 0 <= i < pieces.flatten().len() implies p(
            #[trigger] pieces.flatten()[i],
        ) by {
            if i < first.len() {
                assert(pieces.flatten()[i] == first[i]);
            } else {
                assert(pieces.flatten()[i] == rest.flatten()[i - first.len()]);
            }
        }
    }
}

/// A percent-encoded text holds unreserved characters and `%` only: none of
/// the delimiters of a URL, such as `?`, `&`, `=`, `#`, `/` or a space.
pub proof fn lemma_percent_encoded_chars(s: Seq<char>)
    ensures
        forall|i: int|
            0 <= i < percent_encoded(s).len() ==> is_encoded_char(#[trigger] percent_encoded(s)[i]),
{
    let pieces = encode_utf8(s).map_values(|b: u8| escaped_byte(b));
    assert forall|k: int, i: int| 0 <= k < pieces.len() && 0 <= i < pieces[k].len() implies
        is_encoded_char(#[trigger] pieces[k][i]) by {
        assert(pieces[k] == escaped_byte(encode_utf8(s)[k]));
    }
    lemma_flatten_all(pieces, |c: char| is_encoded_char(c));
}

/// Whether a text is made of unreserved characters only.
pub open spec fn is_unreserved_text(s: Seq<char>) -> bool {
    forall|i: int| 0 <= i < s.len() ==> is_encoded_char(#[trigger] s[i]) && s[i] != '%'
}

/// A text made of unreserved characters only is its own percent-encoding.
pub proof fn lemma_percent_encoded_unreserved(s: Seq<char>)
    requires
        is_unreserved_text(s),
    ensures
        percent_encoded(s) == s,
    decreases s.len(),
{
    if s.len() > 0 {
        let rest = s.drop_first();
        lemma_percent_encoded_unreserved(rest);
        let c = s[0];
        let b = c as u8;
        assert(encode_scalar(c as u32) == seq![b]) by {
            let v = c as u32;
            assert(v as u8 == leading_byte_width_1(v)) by (bit_vector)
                requires
                    has_width_1_encoding(v),
            ;
        }
        assert(escaped_byte(b) == seq![c]);
        let f = |b: u8| escaped_byte(b);
        assert((seq![b] + encode_utf8(rest)).map_values(f) =~= seq![seq![c]] + encode_utf8(
            rest,
        ).map_values(f));
        lemma_flatten_concat(seq![seq![c]], encode_utf8(rest).map_values(f));
        seq![seq![c]].lemma_flatten_one_element();
        assert(seq![c] + rest =~= s);
    }
}

/// One item more at the end of a list puts the separator and the item at the
/// end of the interspersed list, and the item alone where the list was empty.
pub proof fn lemma_interspersed_push<A>(items: Seq<A>, sep: A, last: A)
    ensures
        interspersed(items.push(last), sep) == if items.len() == 0 {
            seq![last]
        } else {
            interspersed(items, sep).push(sep).push(last)
        },
{
    let whole = interspersed(items.push(last), sep);
    if items.len() == 0 {
        assert(whole =~= seq![last]);
    } else {
        assert(whole =~= interspersed(items, sep).push(sep).push(last));
    }
}

/// One text more at the end of a list puts the separator and the text at the
/// end of the joined whole, and the text alone where the list was empty.
pub proof fn lemma_joined_push(items: Seq<Seq<char>>, sep: Seq<char>, last: Seq<char>)
    ensures
        joined(items.push(last), sep) == if items.len() == 0 {
            last
        } else {
            joined(items, sep) + sep + last
        },
{
    lemma_interspersed_push(items, sep, last);
    if items.len() == 0 {
        seq![last].lemma_flatten_one_element();
    } else {
        lemma_flatten_push(interspersed(items, sep), sep);
        lemma_flatten_push(interspersed(items, sep).push(sep), last);
    }
}

/// How often a character stands in a text.
pub open spec fn occurrences(s: Seq<char>, c: char) -> nat
    decreases s.len(),
{
    if s.len() == 0 {
        0
    } else {
        occurrences(s.drop_last(), c) + if s.last() == c {
            1nat
        } else {
            0nat
        }
    }
}

/// A character stands in two texts written one after the other as often as in
/// the one and the other together.
pub proof fn lemma_occurrences_add(a: Seq<char>, b: Seq<char>, c: char)
    ensures
        occurrences(a + b, c) == occurrences(a, c) + occurrences(b, c),
    decreases b.len(),
{
    if b.len() == 0 {
        assert(a + b =~= a);
    } else {
        assert((a + b).drop_last() =~= a + b.drop_last());
        lemma_occurrences_add(a, b.drop_last(), c);
    }
}

/// A character stands once in the text made of itself, and not at all in the
/// text made of another.
pub proof fn lemma_occurrences_one(x: char, c: char)
    ensures
        occurrences(seq![x], c) == if x == c {
            1nat
        } else {
            0nat
        },
{
    reveal_with_fuel(occurrences, 2);
}

/// A character that is nowhere in a text stands in it zero times.
pub proof fn lemma_occurrences_none(s: Seq<char>, c: char)
    requires
        forall|i: int| 0 <= i < s.len() ==> s[i] != c,
    ensures
        occurrences(s, c) == 0,
    decreases s.len(),
{
    if s.len() > 0 {
        lemma_occurrences_none(s.drop_last(), c);
    }
}

} // verus!
