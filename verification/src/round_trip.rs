//! What is written in `application/x-www-form-urlencoded` syntax reads back
//! as what was written.

use vstd::prelude::*;
use vstd::utf8::decode_utf8;
use vstd::utf8::encode_utf8;
use vstd::utf8::encode_utf8_decode_utf8;
use vstd::utf8::encode_utf8_valid_utf8;
use vstd::utf8::is_ascii_chars;
use vstd::utf8::is_ascii_chars_encode_utf8;
use vstd::utf8::valid_utf8;

use crate::form_urlencoded::after_first;
use crate::form_urlencoded::as_text;
use crate::form_urlencoded::byte_serialized;
use crate::form_urlencoded::component_decoded;
use crate::form_urlencoded::encoded;
use crate::form_urlencoded::hex_digit;
use crate::form_urlencoded::hex_value;
use crate::form_urlencoded::pair_encoded;
use crate::form_urlencoded::pairs_decoded;
use crate::form_urlencoded::pairs_encoded;
use crate::form_urlencoded::pairs_read;
use crate::form_urlencoded::pair_views;
use crate::form_urlencoded::parse;
use crate::form_urlencoded::percent_decoded;
use crate::form_urlencoded::plus_replaced;
use crate::form_urlencoded::position;
use crate::form_urlencoded::serialized;
use crate::form_urlencoded::unchanged;
use crate::form_urlencoded::with_pair;
use crate::form_urlencoded::Pair;
use crate::form_urlencoded::AMPERSAND;
use crate::form_urlencoded::EQUALS;
use crate::form_urlencoded::PERCENT;
use crate::form_urlencoded::PLUS;
use crate::form_urlencoded::SPACE;

verus! {

/// A byte that can stand in a serialized name or value: an ASCII byte that
/// is neither `&` nor `=`.
pub open spec fn plain(b: u8) -> bool {
    b < 0x80 && b != AMPERSAND && b != EQUALS
}

/// Every byte of the sequence can stand in a serialized name or value.
pub open spec fn all_plain(bytes: Seq<u8>) -> bool {
    forall|i: int| 0 <= i < bytes.len() ==> plain(#[trigger] bytes[i])
}

/// The UTF-8 bytes of a pair's name and value.
pub open spec fn raw(pair: Pair) -> (Seq<u8>, Seq<u8>) {
    (encode_utf8(pair.0), encode_utf8(pair.1))
}

/// The pairs that a text in `application/x-www-form-urlencoded` syntax
/// holds, where each name and value is UTF-8.
pub open spec fn pairs_in(text: Seq<char>) -> Seq<Pair> {
    pairs_decoded(encode_utf8(text)).map_values(
        |r: (Seq<u8>, Seq<u8>)| (decode_utf8(r.0), decode_utf8(r.1)),
    )
}

/// Every name and every value is UTF-8.
pub open spec fn all_utf8(raws: Seq<(Seq<u8>, Seq<u8>)>) -> bool {
    forall|i: int|
        0 <= i < raws.len() ==> valid_utf8((#[trigger] raws[i]).0) && valid_utf8(raws[i].1)
}

/// A list of pairs on the wire, told from its first pair on.
pub open spec fn encoded_from_front(pairs: Seq<Pair>) -> Seq<u8>
    decreases pairs.len(),
{
    if pairs.len() == 0 {
        Seq::empty()
    } else if pairs.len() == 1 {
        pair_encoded(pairs.first())
    } else {
        pair_encoded(pairs.first()) + seq![AMPERSAND] + encoded_from_front(pairs.drop_first())
    }
}

proof fn lemma_hex_digit(n: int)
    requires
        0 <= n < 16,
    ensures
        hex_value(hex_digit(n)) == Some(n),
        plain(hex_digit(n)),
        hex_digit(n) != PLUS,
{
}

proof fn lemma_byte_serialized(b: u8)
    ensures
        all_plain(byte_serialized(b)),
        byte_serialized(b).len() > 0,
        forall|rest: Seq<u8>|
            percent_decoded(plus_replaced(byte_serialized(b)) + rest) == seq![b] + percent_decoded(
                rest,
            ),
{
    let chunk = byte_serialized(b);
    if unchanged(b) || b == SPACE {
        let out = if b == SPACE {
            SPACE
        } else {
            b
        };
        assert(plus_replaced(chunk) =~= seq![out]);
        assert forall|rest: Seq<u8>|
            percent_decoded(plus_replaced(chunk) + rest) == seq![b] + percent_decoded(rest) by {
            let all = seq![out] + rest;
            assert(all[0] == out);
            assert(all.drop_first() =~= rest);
        }
    } else {
        let high = b as int / 16;
        let low = b as int % 16;
        lemma_hex_digit(high);
        lemma_hex_digit(low);
        assert(plus_replaced(chunk) =~= chunk);
        assert forall|rest: Seq<u8>|
            percent_decoded(plus_replaced(chunk) + rest) == seq![b] + percent_decoded(rest) by {
            let all = chunk + rest;
            assert(all[0] == PERCENT);
            assert(all[1] == hex_digit(high));
            assert(all[2] == hex_digit(low));
            assert(all.skip(3) =~= rest);
            assert((high * 16 + low) as u8 == b);
        }
    }
}

/// A serialized byte string holds plain bytes only, and stands for the
/// bytes that were serialized.
pub proof fn lemma_serialized(bytes: Seq<u8>)
    ensures
        all_plain(serialized(bytes)),
        component_decoded(serialized(bytes)) == bytes,
    decreases bytes.len(),
{
    if bytes.len() == 0 {
        assert(plus_replaced(serialized(bytes)) =~= Seq::empty());
    } else {
        let first = byte_serialized(bytes.first());
        let rest = serialized(bytes.drop_first());
        lemma_byte_serialized(bytes.first());
        lemma_serialized(bytes.drop_first());
        assert(plus_replaced(first + rest) =~= plus_replaced(first) + plus_replaced(rest));
        assert(seq![bytes.first()] + bytes.drop_first() =~= bytes);
    }
}

proof fn lemma_position_absent(bytes: Seq<u8>, b: u8)
    requires
        forall|i: int| 0 <= i < bytes.len() ==> #[trigger] bytes[i] != b,
    ensures
        position(bytes, b) == bytes.len(),
    decreases bytes.len(),
{
    if bytes.len() > 0 {
        assert(bytes[0] != b);
        let rest = bytes.drop_first();
        assert forall|i: int| 0 <= i < rest.len() implies #[trigger] rest[i] != b by {
            assert(rest[i] == bytes[i + 1]);
        }
        lemma_position_absent(rest, b);
    }
}

proof fn lemma_position_after(head: Seq<u8>, b: u8, tail: Seq<u8>)
    requires
        forall|i: int| 0 <= i < head.len() ==> #[trigger] head[i] != b,
    ensures
        position(head + seq![b] + tail, b) == head.len(),
    decreases head.len(),
{
    let all = head + seq![b] + tail;
    if head.len() == 0 {
        assert(all[0] == b);
    } else {
        assert(all[0] == head[0]);
        let rest = head.drop_first();
        assert forall|i: int| 0 <= i < rest.len() implies #[trigger] rest[i] != b by {
            assert(rest[i] == head[i + 1]);
        }
        assert(all.drop_first() =~= rest + seq![b] + tail);
        lemma_position_after(rest, b, tail);
    }
}

proof fn lemma_pair_encoded(pair: Pair)
    ensures
        pair_encoded(pair).len() > 0,
        forall|i: int|
            0 <= i < pair_encoded(pair).len() ==> #[trigger] pair_encoded(pair)[i] != AMPERSAND,
        forall|i: int| 0 <= i < pair_encoded(pair).len() ==> #[trigger] pair_encoded(pair)[i] < 0x80,
        position(pair_encoded(pair), EQUALS) == encoded(pair.0).len(),
        pair_encoded(pair).take(encoded(pair.0).len() as int) == encoded(pair.0),
        after_first(pair_encoded(pair), EQUALS) == encoded(pair.1),
{
    let name = encoded(pair.0);
    let value = encoded(pair.1);
    let all = pair_encoded(pair);
    lemma_serialized(encode_utf8(pair.0));
    lemma_serialized(encode_utf8(pair.1));
    assert forall|i: int| 0 <= i < all.len() implies #[trigger] all[i] != AMPERSAND && all[i]
        < 0x80 by {
        if i < name.len() {
            assert(all[i] == name[i]);
        } else if i > name.len() {
            assert(all[i] == value[i - name.len() - 1]);
        }
    }
    lemma_position_after(name, EQUALS, value);
    assert(all.take(name.len() as int) =~= name);
    assert(all.skip(name.len() as int + 1) =~= value);
}

proof fn lemma_front_not_empty(pairs: Seq<Pair>)
    requires
        pairs.len() > 0,
    ensures
        encoded_from_front(pairs).len() > 0,
{
    lemma_pair_encoded(pairs.first());
}

proof fn lemma_front_push(pairs: Seq<Pair>, pair: Pair)
    ensures
        encoded_from_front(pairs.push(pair)) == with_pair(encoded_from_front(pairs), pair),
    decreases pairs.len(),
{
    let longer = pairs.push(pair);
    if pairs.len() == 0 {
        assert(longer.first() == pair);
    } else {
        let rest = pairs.drop_first();
        assert(longer.first() == pairs.first());
        assert(longer.drop_first() =~= rest.push(pair));
        lemma_front_push(rest, pair);
        lemma_front_not_empty(pairs);
        if pairs.len() == 1 {
            assert(rest.len() == 0);
        } else {
            lemma_front_not_empty(rest);
            assert(pair_encoded(pairs.first()) + seq![AMPERSAND] + (encoded_from_front(rest)
                + seq![AMPERSAND] + pair_encoded(pair)) =~= (pair_encoded(pairs.first())
                + seq![AMPERSAND] + encoded_from_front(rest)) + seq![AMPERSAND] + pair_encoded(
                pair,
            ));
        }
    }
}

proof fn lemma_front(pairs: Seq<Pair>)
    ensures
        pairs_encoded(pairs) == encoded_from_front(pairs),
    decreases pairs.len(),
{
    if pairs.len() > 0 {
        lemma_front(pairs.drop_last());
        lemma_front_push(pairs.drop_last(), pairs.last());
        assert(pairs.drop_last().push(pairs.last()) =~= pairs);
    }
}

proof fn lemma_decoded_from_front(pairs: Seq<Pair>)
    ensures
        pairs_decoded(encoded_from_front(pairs)) == pairs.map_values(|p: Pair| raw(p)),
    decreases pairs.len(),
{
    let text = encoded_from_front(pairs);
    let wanted = pairs.map_values(|p: Pair| raw(p));
    if pairs.len() == 0 {
        assert(wanted =~= Seq::empty());
    } else {
        let first = pair_encoded(pairs.first());
        let later = pairs.drop_first();
        lemma_pair_encoded(pairs.first());
        lemma_front_not_empty(pairs);
        lemma_decoded_from_front(later);
        lemma_serialized(encode_utf8(pairs.first().0));
        lemma_serialized(encode_utf8(pairs.first().1));
        if pairs.len() == 1 {
            lemma_position_absent(first, AMPERSAND);
            assert(text.take(first.len() as int) =~= first);
            assert(later.len() == 0);
            assert(after_first(text, AMPERSAND) =~= encoded_from_front(later));
        } else {
            lemma_position_after(first, AMPERSAND, encoded_from_front(later));
            assert(text.take(first.len() as int) =~= first);
            assert(text.skip(first.len() as int + 1) =~= encoded_from_front(later));
        }
        assert(wanted =~= seq![raw(pairs.first())] + later.map_values(|p: Pair| raw(p)));
    }
}

/// Every byte of a list of pairs on the wire is ASCII.
pub proof fn lemma_pairs_encoded_ascii(pairs: Seq<Pair>)
    ensures
        forall|i: int| 0 <= i < pairs_encoded(pairs).len() ==> #[trigger] pairs_encoded(pairs)[i] < 0x80,
    decreases pairs.len(),
{
    if pairs.len() > 0 {
        lemma_pairs_encoded_ascii(pairs.drop_last());
        lemma_pair_encoded(pairs.last());
        let head = pairs_encoded(pairs.drop_last());
        let tail = pair_encoded(pairs.last());
        let all = pairs_encoded(pairs);
        assert forall|i: int| 0 <= i < all.len() implies #[trigger] all[i] < 0x80 by {
            if head.len() > 0 {
                if i < head.len() {
                    assert(all[i] == head[i]);
                } else if i > head.len() {
                    assert(all[i] == tail[i - head.len() - 1]);
                }
            }
        }
    }
}

/// The UTF-8 bytes of a text made of ASCII bytes are those bytes.
pub proof fn lemma_ascii_text(bytes: Seq<u8>)
    requires
        forall|i: int| 0 <= i < bytes.len() ==> #[trigger] bytes[i] < 0x80,
    ensures
        encode_utf8(as_text(bytes)) == bytes,
{
    let text = as_text(bytes);
    assert(is_ascii_chars(text)) by {
        assert forall|i: int| 0 <= i < text.len() implies '\0' <= #[trigger] text[i]
            <= '\u{7f}' by {
            assert(text[i] == bytes[i] as char);
        }
    }
    is_ascii_chars_encode_utf8(text);
    assert forall|i: int| 0 <= i < bytes.len() implies encode_utf8(text)[i] == bytes[i] by {
        assert(text[i] == bytes[i] as char);
        assert(text[i] as u8 == encode_utf8(text)[i]);
    }
    assert(encode_utf8(text) =~= bytes);
}

/// The wire form of a list of pairs decodes to the UTF-8 bytes of the
/// names and values of the list, in its order.
pub proof fn lemma_decoded_pairs(pairs: Seq<Pair>)
    ensures
        pairs_decoded(pairs_encoded(pairs)) == pairs.map_values(|p: Pair| raw(p)),
        pairs_decoded(encode_utf8(as_text(pairs_encoded(pairs)))) == pairs.map_values(
            |p: Pair| raw(p),
        ),
{
    lemma_front(pairs);
    lemma_decoded_from_front(pairs);
    lemma_pairs_encoded_ascii(pairs);
    lemma_ascii_text(pairs_encoded(pairs));
}

/// Writing a list of pairs and reading the text back gives the list: the
/// same names and values in the same order.
pub proof fn lemma_written_pairs_read_back(pairs: Seq<Pair>)
    ensures
        pairs_in(as_text(pairs_encoded(pairs))) == pairs,
{
    lemma_decoded_pairs(pairs);
    let decoded = pairs_decoded(encode_utf8(as_text(pairs_encoded(pairs))));
    assert forall|i: int| 0 <= i < pairs.len() implies (decode_utf8(decoded[i].0), decode_utf8(
        decoded[i].1,
    )) == pairs[i] by {
        encode_utf8_decode_utf8(pairs[i].0);
        encode_utf8_decode_utf8(pairs[i].1);
    }
    assert(pairs_in(as_text(pairs_encoded(pairs))) =~= pairs);
}

/// A text of characters that are written as they are: `*`, `-`, `.`, `_`,
/// the digits and the ASCII letters.
pub open spec fn kept(text: Seq<char>) -> bool {
    &&& is_ascii_chars(text)
    &&& forall|i: int| 0 <= i < text.len() ==> unchanged(#[trigger] text[i] as u8)
}

proof fn lemma_serialized_concat(a: Seq<u8>, b: Seq<u8>)
    ensures
        serialized(a + b) == serialized(a) + serialized(b),
    decreases a.len(),
{
    if a.len() == 0 {
        assert(a + b =~= b);
    } else {
        lemma_serialized_concat(a.drop_first(), b);
        assert((a + b).drop_first() =~= a.drop_first() + b);
        assert((a + b).first() == a.first());
        assert(byte_serialized(a.first()) + (serialized(a.drop_first()) + serialized(b))
            =~= byte_serialized(a.first()) + serialized(a.drop_first()) + serialized(b));
    }
}

proof fn lemma_serialized_unchanged(bytes: Seq<u8>)
    requires
        forall|i: int| 0 <= i < bytes.len() ==> unchanged(#[trigger] bytes[i]),
    ensures
        serialized(bytes) == bytes,
    decreases bytes.len(),
{
    if bytes.len() > 0 {
        let rest = bytes.drop_first();
        assert(unchanged(bytes[0]));
        assert forall|i: int| 0 <= i < rest.len() implies unchanged(#[trigger] rest[i]) by {
            assert(rest[i] == bytes[i + 1]);
        }
        lemma_serialized_unchanged(rest);
        assert(seq![bytes.first()] + rest =~= bytes);
    }
}

proof fn lemma_ascii_bytes(text: Seq<char>)
    requires
        is_ascii_chars(text),
    ensures
        encode_utf8(text).len() == text.len(),
        forall|i: int| 0 <= i < text.len() ==> #[trigger] encode_utf8(text)[i] == text[i] as u8,
        as_text(encode_utf8(text)) == text,
{
    is_ascii_chars_encode_utf8(text);
    assert forall|i: int| 0 <= i < text.len() implies #[trigger] encode_utf8(text)[i]
        == text[i] as u8 by {
        assert(text[i] as u8 == encode_utf8(text)[i]);
    }
    assert forall|i: int| 0 <= i < text.len() implies as_text(encode_utf8(text))[i]
        == text[i] by {
        assert(encode_utf8(text)[i] == text[i] as u8);
        assert('\0' <= text[i] <= '\u{7f}');
        assert((text[i] as u8) as char == text[i]);
    }
    assert(as_text(encode_utf8(text)) =~= text);
}

/// A name or a value of kept characters is on the wire what it is.
pub proof fn lemma_kept_text_on_the_wire(text: Seq<char>)
    requires
        kept(text),
    ensures
        as_text(encoded(text)) == text,
{
    lemma_ascii_bytes(text);
    assert forall|i: int| 0 <= i < encode_utf8(text).len() implies unchanged(
        #[trigger] encode_utf8(text)[i],
    ) by {
        assert(unchanged(text[i] as u8));
    }
    lemma_serialized_unchanged(encode_utf8(text));
}

/// Two words of kept characters with a space between them are on the wire
/// the two words with a `+` between them.
pub proof fn lemma_two_words_on_the_wire(first: Seq<char>, second: Seq<char>)
    requires
        kept(first),
        kept(second),
    ensures
        as_text(encoded(first + seq![' '] + second)) == first + seq!['+'] + second,
{
    let text = first + seq![' '] + second;
    let a = encode_utf8(first);
    let b = encode_utf8(second);
    lemma_kept_text_on_the_wire(first);
    lemma_kept_text_on_the_wire(second);
    lemma_ascii_bytes(first);
    lemma_ascii_bytes(second);
    assert forall|i: int| 0 <= i < text.len() implies '\0' <= #[trigger] text[i] <= '\u{7f}' by {
        if i < first.len() {
            assert(text[i] == first[i]);
        } else if i > first.len() {
            assert(text[i] == second[i - first.len() - 1]);
        }
    }
    lemma_ascii_bytes(text);
    assert(encode_utf8(text) =~= a + seq![SPACE] + b) by {
        assert forall|i: int| 0 <= i < text.len() implies encode_utf8(text)[i] == (a + seq![
            SPACE,
        ] + b)[i] by {
            if i < first.len() {
                assert(text[i] == first[i]);
            } else if i > first.len() {
                assert(text[i] == second[i - first.len() - 1]);
            }
        }
    }
    lemma_serialized_concat(a + seq![SPACE], b);
    lemma_serialized_concat(a, seq![SPACE]);
    assert(serialized(seq![SPACE]) =~= seq![PLUS]) by {
        let one = seq![SPACE];
        assert(one.first() == SPACE);
        assert(one.drop_first() =~= Seq::<u8>::empty());
        assert(serialized(Seq::<u8>::empty()) =~= Seq::<u8>::empty());
        assert(serialized(one) == byte_serialized(SPACE) + serialized(one.drop_first()));
    }
    assert(as_text(serialized(a) + seq![PLUS] + serialized(b)) =~= as_text(serialized(a)) + seq![
        '+',
    ] + as_text(serialized(b)));
}

/// The names and values of a written list of pairs are UTF-8.
pub proof fn lemma_written_pairs_are_utf8(pairs: Seq<Pair>)
    ensures
        all_utf8(pairs_decoded(encode_utf8(as_text(pairs_encoded(pairs))))),
{
    lemma_decoded_pairs(pairs);
    let decoded = pairs_decoded(encode_utf8(as_text(pairs_encoded(pairs))));
    assert forall|i: int| 0 <= i < decoded.len() implies valid_utf8((#[trigger] decoded[i]).0)
        && valid_utf8(decoded[i].1) by {
        encode_utf8_valid_utf8(pairs[i].0);
        encode_utf8_valid_utf8(pairs[i].1);
    }
}

/// The pairs that a text in `application/x-www-form-urlencoded` syntax
/// holds, in its order. Where each name and value is UTF-8, they are the
/// pairs of the text; a written list of pairs comes back as it was.
pub fn read_pairs(input: &str) -> (r: Vec<(String, String)>)
    ensures
        pair_views(r@) == pairs_read(input@),
        all_utf8(pairs_decoded(encode_utf8(input@))) ==> pair_views(r@) == pairs_in(input@),
        forall|pairs: Seq<Pair>|
            input@ == as_text(#[trigger] pairs_encoded(pairs)) ==> pair_views(r@) == pairs,
{
    let r = parse(input);
    assert(pair_views(r@) =~= pairs_read(input@));
    proof {
        if all_utf8(pairs_decoded(encode_utf8(input@))) {
            assert(pair_views(r@) =~= pairs_in(input@));
        }
        assert forall|pairs: Seq<Pair>|
            input@ == as_text(#[trigger] pairs_encoded(pairs)) implies pair_views(r@) == pairs by {
            lemma_written_pairs_are_utf8(pairs);
            lemma_written_pairs_read_back(pairs);
        }
    }
    r
}

} // verus!
