//! The `application/x-www-form-urlencoded` syntax: what a list of name and
//! value pairs looks like on the wire, and what a wire text decodes to. The
//! encoding and decoding themselves are done by the `url` crate.

use vstd::prelude::*;
use vstd::utf8::decode_utf8;
use vstd::utf8::encode_utf8;
use vstd::utf8::valid_utf8;

verus! {

/// A name and a value, each as a sequence of characters.
pub type Pair = (Seq<char>, Seq<char>);

/// `&`, which stands between two pairs.
pub const AMPERSAND: u8 = 0x26u8;

/// `=`, which stands between a name and its value.
pub const EQUALS: u8 = 0x3Du8;

/// `%`, which starts the two hexadecimal digits of a byte.
pub const PERCENT: u8 = 0x25u8;

/// `+`, which stands for a space.
pub const PLUS: u8 = 0x2Bu8;

/// The space.
pub const SPACE: u8 = 0x20u8;

/// The bytes that the serializer writes as they are: `*`, `-`, `.`, `_`,
/// the digits and the ASCII letters.
pub open spec fn unchanged(b: u8) -> bool {
    ||| b == 0x2A
    ||| b == 0x2D
    ||| b == 0x2E
    ||| b == 0x5F
    ||| 0x30 <= b <= 0x39
    ||| 0x41 <= b <= 0x5A
    ||| 0x61 <= b <= 0x7A
}

/// The upper-case hexadecimal digit for a value below 16.
pub open spec fn hex_digit(n: int) -> u8 {
    if n < 10 {
        (0x30 + n) as u8
    } else {
        (0x37 + n) as u8
    }
}

/// One byte on the wire: itself, `+` for a space, or `%` and two
/// hexadecimal digits.
pub open spec fn byte_serialized(b: u8) -> Seq<u8> {
    if unchanged(b) {
        seq![b]
    } else if b == SPACE {
        seq![PLUS]
    } else {
        seq![PERCENT, hex_digit(b as int / 16), hex_digit(b as int % 16)]
    }
}

/// A byte string on the wire, byte by byte.
pub open spec fn serialized(bytes: Seq<u8>) -> Seq<u8>
    decreases bytes.len(),
{
    if bytes.len() == 0 {
        Seq::empty()
    } else {
        byte_serialized(bytes.first()) + serialized(bytes.drop_first())
    }
}

/// A name or a value on the wire: its UTF-8 bytes, serialized.
pub open spec fn encoded(s: Seq<char>) -> Seq<u8> {
    serialized(encode_utf8(s))
}

/// A pair on the wire: the name, `=`, the value.
pub open spec fn pair_encoded(pair: Pair) -> Seq<u8> {
    encoded(pair.0) + seq![EQUALS] + encoded(pair.1)
}

/// What a target holds after one more pair: an `&` if it held anything,
/// then the pair.
pub open spec fn with_pair(target: Seq<u8>, pair: Pair) -> Seq<u8> {
    if target.len() > 0 {
        target + seq![AMPERSAND] + pair_encoded(pair)
    } else {
        pair_encoded(pair)
    }
}

/// A list of pairs on the wire, in the order of the list.
pub open spec fn pairs_encoded(pairs: Seq<Pair>) -> Seq<u8>
    decreases pairs.len(),
{
    if pairs.len() == 0 {
        Seq::empty()
    } else {
        with_pair(pairs_encoded(pairs.drop_last()), pairs.last())
    }
}

/// The text that consists of the given ASCII bytes.
pub open spec fn as_text(bytes: Seq<u8>) -> Seq<char> {
    bytes.map_values(|b: u8| b as char)
}

/// What a text holds after one more pair was appended to it.
pub open spec fn text_with_pair(target: Seq<char>, pair: Pair) -> Seq<char> {
    if target.len() > 0 {
        target + as_text(seq![AMPERSAND] + pair_encoded(pair))
    } else {
        as_text(pair_encoded(pair))
    }
}

/// What a text holds after the pairs were appended to it, one by one.
pub open spec fn appended(target: Seq<char>, pairs: Seq<Pair>) -> Seq<char>
    decreases pairs.len(),
{
    if pairs.len() == 0 {
        target
    } else {
        text_with_pair(appended(target, pairs.drop_last()), pairs.last())
    }
}

/// The first position of `b` in `bytes`, or the length where there is none.
pub open spec fn position(bytes: Seq<u8>, b: u8) -> nat
    decreases bytes.len(),
{
    if bytes.len() == 0 || bytes.first() == b {
        0
    } else {
        1 + position(bytes.drop_first(), b)
    }
}

/// The value of an ASCII hexadecimal digit of either case.
pub open spec fn hex_value(b: u8) -> Option<int> {
    if 0x30 <= b <= 0x39 {
        Some(b - 0x30)
    } else if 0x41 <= b <= 0x46 {
        Some(b - 0x37)
    } else if 0x61 <= b <= 0x66 {
        Some(b - 0x57)
    } else {
        None
    }
}

/// Each `%` that two hexadecimal digits follow stands for one byte; every
/// other byte stands for itself.
pub open spec fn percent_decoded(bytes: Seq<u8>) -> Seq<u8>
    decreases bytes.len(),
{
    if bytes.len() == 0 {
        Seq::empty()
    } else if bytes[0] == PERCENT && bytes.len() >= 3 && hex_value(bytes[1]) is Some && hex_value(
        bytes[2],
    ) is Some {
        seq![(hex_value(bytes[1])->0 * 16 + hex_value(bytes[2])->0) as u8] + percent_decoded(
            bytes.skip(3),
        )
    } else {
        seq![bytes[0]] + percent_decoded(bytes.drop_first())
    }
}

/// Each `+` becomes a space.
pub open spec fn plus_replaced(bytes: Seq<u8>) -> Seq<u8> {
    bytes.map_values(
        |b: u8|
            if b == PLUS {
                SPACE
            } else {
                b
            },
    )
}

/// The bytes that a name or a value on the wire stands for.
pub open spec fn component_decoded(bytes: Seq<u8>) -> Seq<u8> {
    percent_decoded(plus_replaced(bytes))
}

/// What follows the first `b` in `bytes`; nothing where there is none.
pub open spec fn after_first(bytes: Seq<u8>, b: u8) -> Seq<u8> {
    if position(bytes, b) < bytes.len() {
        bytes.skip(position(bytes, b) as int + 1)
    } else {
        Seq::empty()
    }
}

/// The pairs of a wire text, as bytes: the text is cut at each `&`, empty
/// pieces are passed over, and each piece is cut at its first `=`.
pub open spec fn pairs_decoded(bytes: Seq<u8>) -> Seq<(Seq<u8>, Seq<u8>)>
    decreases bytes.len(),
{
    if bytes.len() == 0 {
        Seq::empty()
    } else {
        let piece = bytes.take(position(bytes, AMPERSAND) as int);
        let rest = after_first(bytes, AMPERSAND);
        if piece.len() == 0 {
            pairs_decoded(rest)
        } else {
            let name = piece.take(position(piece, EQUALS) as int);
            let value = after_first(piece, EQUALS);
            seq![(component_decoded(name), component_decoded(value))] + pairs_decoded(rest)
        }
    }
}

/// The text that `String::from_utf8_lossy` makes of the given bytes.
pub uninterp spec fn lossy_text(bytes: Seq<u8>) -> Seq<char>;

/// The pairs that a text in `application/x-www-form-urlencoded` syntax
/// holds, as text.
pub open spec fn pairs_read(input: Seq<char>) -> Seq<Pair> {
    pairs_decoded(encode_utf8(input)).map_values(
        |raw: (Seq<u8>, Seq<u8>)| (lossy_text(raw.0), lossy_text(raw.1)),
    )
}

/// The names and values that a list of pairs of strings holds.
pub open spec fn pair_views(pairs: Seq<(String, String)>) -> Seq<Pair> {
    pairs.map_values(|p: (String, String)| (p.0@, p.1@))
}

/// A copy of a list of pairs of strings.
pub fn clone_pairs(pairs: &Vec<(String, String)>) -> (r: Vec<(String, String)>)
    ensures
        pair_views(r@) == pair_views(pairs@),
{
    let mut out: Vec<(String, String)> = Vec::new();
    let mut i: usize = 0;
    while i < pairs.len()
        invariant
            i <= pairs.len(),
            out@.len() == i,
            forall|j: int| 0 <= j < i ==> out@[j].0@ == pairs@[j].0@ && out@[j].1@ == pairs@[j].1@,
        decreases pairs.len() - i,
    {
        out.push((pairs[i].0.clone(), pairs[i].1.clone()));
        i += 1;
    }
    assert(pair_views(out@) =~= pair_views(pairs@));
    out
}

/// `url::form_urlencoded::Serializer::append_pair` on a serializer made for
/// `target`: it writes an `&` where the target is not empty, then the name,
/// `=` and the value, each through the byte serializer of the URL standard.
#[verifier::external_body]
pub(crate) fn append_pair(target: &mut String, name: &str, value: &str)
    ensures
        final(target)@ == text_with_pair(old(target)@, (name@, value@)),
{
    url::form_urlencoded::Serializer::new(target).append_pair(name, value);
}

/// `url::form_urlencoded::parse` on the bytes of `input`, every pair that
/// the iterator yields, in its order. Bytes that are not UTF-8 come out as
/// `String::from_utf8_lossy` gives them; bytes that are UTF-8 are kept.
#[verifier::external_body]
pub(crate) fn parse(input: &str) -> (r: Vec<(String, String)>)
    ensures
        r@.len() == pairs_decoded(encode_utf8(input@)).len(),
        forall|i: int|
            0 <= i < r@.len() ==> {
                let raw = #[trigger] pairs_decoded(encode_utf8(input@))[i];
                &&& r@[i].0@ == lossy_text(raw.0)
                &&& r@[i].1@ == lossy_text(raw.1)
                &&& valid_utf8(raw.0) ==> r@[i].0@ == decode_utf8(raw.0)
                &&& valid_utf8(raw.1) ==> r@[i].1@ == decode_utf8(raw.1)
            },
{
    url::form_urlencoded::parse(input.as_bytes()).into_owned().collect()
}

/// Appending one more pair is appending it to what the others gave.
pub proof fn lemma_appended_push(target: Seq<char>, pairs: Seq<Pair>, pair: Pair)
    ensures
        appended(target, pairs.push(pair)) == text_with_pair(appended(target, pairs), pair),
{
    assert(pairs.push(pair).drop_last() =~= pairs);
}

/// Pairs appended to an empty text give the wire form of the list.
pub proof fn lemma_appended_to_empty(pairs: Seq<Pair>)
    ensures
        appended(Seq::empty(), pairs) == as_text(pairs_encoded(pairs)),
    decreases pairs.len(),
{
    if pairs.len() == 0 {
        assert(as_text(Seq::<u8>::empty()) =~= Seq::<char>::empty());
    } else {
        lemma_appended_to_empty(pairs.drop_last());
        let head = pairs_encoded(pairs.drop_last());
        let pair = pairs.last();
        assert(as_text(head).len() == head.len());
        if head.len() > 0 {
            assert(as_text(head + seq![AMPERSAND] + pair_encoded(pair)) =~= as_text(head)
                + as_text(seq![AMPERSAND] + pair_encoded(pair)));
        }
    }
}

} // verus!
