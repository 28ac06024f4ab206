//! Decoding of url query strings (`?a=b&c=d`).

use vstd::prelude::*;

use crate::str_map::StrMap;
use crate::text::{find_char, first_index, split_chars, split_on, str_chars, string_from_chars, sub_chars, views};
use vstd::utf8::encode_utf8;

verus! {

/// The value of a hexadecimal digit byte.
pub open spec fn hex_value(b: u8) -> Option<u8> {
    if 48 <= b <= 57 {
        Some((b - 48) as u8)
    } else if 97 <= b <= 102 {
        Some((b - 87) as u8)
    } else if 65 <= b <= 70 {
        Some((b - 55) as u8)
    } else {
        None
    }
}

/// `u8::from_str_radix` in base 16 on the two characters `a` and `b`: two hex digits, or a
/// `+` sign followed by one.
pub open spec fn hex_pair(a: u8, b: u8) -> Option<u8> {
    if a == 43 {
        hex_value(b)
    } else {
        match (hex_value(a), hex_value(b)) {
            (Some(x), Some(y)) => Some((16 * x + y) as u8),
            _ => None,
        }
    }
}

/// Decoding of `bytes[i..]`: `%` and two hex digits stand for that byte, `+` for a space,
/// any other byte for itself; each decoded byte becomes the character with that code.
pub open spec fn decode_from(bytes: Seq<u8>, i: int) -> Option<Seq<char>>
    decreases bytes.len() - i,
{
    if i < 0 || i >= bytes.len() {
        Some(seq![])
    } else if bytes[i] == 37 {
        if bytes.len() - i <= 2 {
            None
        } else {
            match hex_pair(bytes[i + 1], bytes[i + 2]) {
                None => None,
                Some(v) => match decode_from(bytes, i + 3) {
                    None => None,
                    Some(rest) => Some(seq![v as char] + rest),
                },
            }
        }
    } else if bytes[i] == 43 {
        match decode_from(bytes, i + 1) {
            None => None,
            Some(rest) => Some(seq![' '] + rest),
        }
    } else {
        match decode_from(bytes, i + 1) {
            None => None,
            Some(rest) => Some(seq![bytes[i] as char] + rest),
        }
    }
}

/// The decoded text of a query, `None` where a `%` escape is cut short or not hexadecimal.
pub open spec fn spec_decode_query(encoded: Seq<char>) -> Option<Seq<char>> {
    decode_from(encode_utf8(encoded), 0)
}

/// Hex-digit law: a byte is a hexadecimal digit exactly when it is an ASCII digit `0`-`9`,
/// a letter `a`-`f` or a letter `A`-`F`, of either case alike; its value is 0-9 for the
/// digits and 10-15 for the letters.
pub proof fn lemma_hex_digits(b: u8)
    ensures
        hex_value(b) is Some <==> ('0' as u8 <= b <= '9' as u8 || 'a' as u8 <= b <= 'f' as u8 || 'A' as u8
            <= b <= 'F' as u8),
        '0' as u8 <= b <= '9' as u8 ==> hex_value(b) == Some((b - '0' as u8) as u8),
        'a' as u8 <= b <= 'f' as u8 ==> hex_value(b) == Some((b - 'a' as u8 + 10) as u8),
        'A' as u8 <= b <= 'F' as u8 ==> hex_value(b) == Some((b - 'A' as u8 + 10) as u8),
        'a' as u8 <= b <= 'f' as u8 ==> hex_value(b) == hex_value((b - 32) as u8),
{
}

/// Escape law: `%` followed by two hexadecimal digits, of either case, decodes to the single
/// character whose code is sixteen times the first digit's value plus the second's.
pub proof fn lemma_escape_decodes(hi: u8, lo: u8, x: u8, y: u8)
    requires
        hex_value(hi) == Some(x),
        hex_value(lo) == Some(y),
    ensures
        x < 16 && y < 16,
        decode_from(seq![37u8, hi, lo], 0) == Some(seq![(16 * x + y) as u8 as char]),
{
    let b = seq![37u8, hi, lo];
    assert(decode_from(b, 3) == Some(Seq::<char>::empty()));
    assert(seq![(16 * x + y) as u8 as char] + Seq::<char>::empty() =~= seq![(16 * x + y) as u8 as char]);
}

spec fn prefixed(out: Seq<char>, rest: Option<Seq<char>>) -> Option<Seq<char>> {
    match rest {
        None => None,
        Some(r) => Some(out + r),
    }
}

fn hex_digit(b: u8) -> (r: Option<u8>)
    ensures
        r == hex_value(b),
{
    if 48 <= b && b <= 57 {
        Some(b - 48)
    } else if 97 <= b && b <= 102 {
        Some(b - 87)
    } else if 65 <= b && b <= 70 {
        Some(b - 55)
    } else {
        None
    }
}

fn parse_hex_pair(a: u8, b: u8) -> (r: Option<u8>)
    ensures
        r == hex_pair(a, b),
{
    if a == 43 {
        return hex_digit(b);
    }
    match (hex_digit(a), hex_digit(b)) {
        (Some(x), Some(y)) => Some(16 * x + y),
        _ => None,
    }
}

fn byte_char(b: u8) -> (c: char)
    ensures
        c == b as char,
{
    b as char
}

/// Decodes a url query; `None` where a `%` escape is cut short or not hexadecimal.
pub fn decode_query(encoded: &str) -> (r: Option<String>)
    ensures
        match (r, spec_decode_query(encoded@)) {
            (Some(s), Some(d)) => s@ == d,
            (None, None) => true,
            _ => false,
        },
{
    let bytes = encoded.as_bytes();
    let ghost bs = bytes@;
    let mut out: Vec<char> = Vec::new();
    let mut i: usize = 0;
    while i < bytes.len()
        invariant
            i <= bytes@.len(),
            bs == bytes@,
            bs == encode_utf8(encoded@),
            decode_from(bs, 0) == prefixed(out@, decode_from(bs, i as int)),
        decreases bytes@.len() - i,
    {
        let byte = bytes[i];
        if byte == 37 {
            if bytes.len() - i <= 2 {
                return None;
            }
            let hex = match parse_hex_pair(bytes[i + 1], bytes[i + 2]) {
                None => {
                    return None;
                },
                Some(v) => v,
            };
            let ghost old_out = out@;
            out.push(byte_char(hex));
            proof {
                match decode_from(bs, i + 3) {
                    None => {},
                    Some(rest) => {
                        assert(old_out + (seq![hex as char] + rest) =~= out@ + rest);
                    },
                }
            }
            i = i + 3;
        } else {
            let c = if byte == 43 {
                ' '
            } else {
                byte_char(byte)
            };
            let ghost old_out = out@;
            out.push(c);
            proof {
                match decode_from(bs, i + 1) {
                    None => {},
                    Some(rest) => {
                        assert(old_out + (seq![c] + rest) =~= out@ + rest);
                    },
                }
            }
            i = i + 1;
        }
    }
    assert(out@ + seq![] =~= out@);
    Some(string_from_chars(&out))
}

/// The map of a decoded query split into `&`-separated pairs: empty pairs are skipped, a
/// non-empty pair without `=` fails, and a later key replaces an earlier one.
pub open spec fn pairs_map(ps: Seq<Seq<char>>) -> Option<Map<Seq<char>, Seq<char>>>
    decreases ps.len(),
{
    if ps.len() == 0 {
        Some(Map::empty())
    } else {
        match pairs_map(ps.drop_last()) {
            None => None,
            Some(m) => {
                let p = ps.last();
                if p.len() == 0 {
                    Some(m)
                } else {
                    match first_index(p, '=') {
                        None => None,
                        Some(k) => Some(m.insert(p.take(k), p.skip(k + 1))),
                    }
                }
            },
        }
    }
}

/// The map of query arguments that an encoded query stands for.
pub open spec fn spec_map(encoded: Seq<char>) -> Option<Map<Seq<char>, Seq<char>>> {
    match spec_decode_query(encoded) {
        None => None,
        Some(d) => pairs_map(split_on(d, '&')),
    }
}

/// The values of a string map, as text.
pub open spec fn text_map(m: Map<Seq<char>, String>) -> Map<Seq<char>, Seq<char>> {
    m.map_values(|s: String| s@)
}

/// Decodes a url query into its `key=value` arguments; `None` when the query is malformed.
pub fn map(encoded: &str) -> (r: Option<StrMap<String>>)
    ensures
        match (r, spec_map(encoded@)) {
            (Some(m), Some(n)) => text_map(m@) == n,
            (None, None) => true,
            _ => false,
        },
{
    let query = match decode_query(encoded) {
        None => {
            return None;
        },
        Some(q) => q,
    };
    let cs = str_chars(query.as_str());
    let pairs = split_chars(&cs, '&');
    let ghost ps = views(pairs@);
    assert(spec_map(encoded@) == pairs_map(ps));
    let mut m: StrMap<String> = StrMap::new();
    assert(text_map(m@) =~= Map::<Seq<char>, Seq<char>>::empty());
    let mut i: usize = 0;
    assert(ps.take(0) =~= Seq::<Seq<char>>::empty());
    while i < pairs.len()
        invariant
            i <= pairs@.len(),
            ps == views(pairs@),
            ps == split_on(cs@, '&'),
            spec_map(encoded@) == pairs_map(ps),
            pairs_map(ps.take(i as int)) == Some(text_map(m@)),
        decreases pairs@.len() - i,
    {
        let pair = &pairs[i];
        assert(ps.take(i + 1).drop_last() == ps.take(i as int));
        assert(ps.take(i + 1).last() == pair@);
        if pair.len() > 0 {
            match find_char(pair, '=') {
                None => {
                    proof {
                        lemma_pairs_map_prefix_none(ps, i as int + 1);
                    }
                    return None;
                },
                Some(k) => {
                    let key = string_from_chars(&sub_chars(pair, 0, k));
                    let value = string_from_chars(&sub_chars(pair, k + 1, pair.len()));
                    assert(pair@.subrange(0, k as int) == pair@.take(k as int));
                    assert(pair@.subrange(k + 1, pair@.len() as int) == pair@.skip(k + 1));
                    let ghost old_m = m@;
                    m.insert(key, value);
                    assert(text_map(m@) =~= text_map(old_m).insert(key@, value@));
                },
            }
        }
        i = i + 1;
    }
    assert(ps.take(pairs@.len() as int) == ps);
    Some(m)
}

proof fn lemma_pairs_map_prefix_none(ps: Seq<Seq<char>>, k: int)
    requires
        0 <= k <= ps.len(),
        pairs_map(ps.take(k)) is None,
    ensures
        pairs_map(ps) is None,
    decreases ps.len() - k,
{
    if k < ps.len() {
        assert(ps.take(k + 1).drop_last() == ps.take(k));
        lemma_pairs_map_prefix_none(ps, k + 1);
    } else {
        assert(ps.take(k) == ps);
    }
}

} // verus!
