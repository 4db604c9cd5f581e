//! Text building blocks shared by every request builder: pushing characters,
//! decimal rendering of integers, joining with a separator, and the
//! percent-encoding of URL path segments.

use vstd::prelude::*;
use vstd::utf8::*;

verus! {

/// A sequence of key/value pairs, by value (the view of `Vec<(String, String)>`).
pub type Pairs = Seq<(Seq<char>, Seq<char>)>;

/// Appends one character to a string.
///
/// Trusted: wraps `String::push`, documented as appending the given `char`
/// to the end of the string.
#[verifier::external_body]
pub fn push_char(s: &mut String, c: char)
    ensures
        final(s)@ == old(s)@.push(c),
{
    s.push(c)
}

/// The decimal digit `d` (`0..=9`) as a character.
pub open spec fn digit_char(d: nat) -> char {
    ((48 + d) as u32) as char
}

/// The decimal rendering of a natural number, most significant digit first,
/// without leading zeros (`0` renders as `"0"`).
pub open spec fn dec_nat(n: nat) -> Seq<char>
    decreases n,
{
    if n < 10 {
        seq![digit_char(n)]
    } else {
        dec_nat(n / 10).push(digit_char(n % 10))
    }
}

/// The number that a string of decimal digits denotes, most significant digit
/// first.
pub open spec fn digits_value(s: Seq<char>) -> int
    decreases s.len(),
{
    if s.len() == 0 {
        0
    } else {
        digits_value(s.drop_last()) * 10 + (s.last() as int - 48)
    }
}

/// The decimal rendering of `n` is a non-empty string of digits `0`–`9`, with
/// no leading zero unless it is `0` itself, that denotes `n`.
pub proof fn lemma_dec_nat_denotes(n: nat)
    ensures
        dec_nat(n).len() >= 1,
        forall|k: int| 0 <= k < dec_nat(n).len() ==> '0' <= #[trigger] dec_nat(n)[k] <= '9',
        n > 0 ==> dec_nat(n)[0] != '0',
        digits_value(dec_nat(n)) == n,
    decreases n,
{
    if n < 10 {
        assert(digit_char(n) as int == 48 + n);
        assert(dec_nat(n).drop_last() =~= Seq::<char>::empty());
        assert(digits_value(Seq::<char>::empty()) == 0);
        assert(dec_nat(n).last() == digit_char(n));
        assert(digits_value(dec_nat(n)) == digits_value(dec_nat(n).drop_last()) * 10 + (dec_nat(n).last() as int
            - 48));
    } else {
        lemma_dec_nat_denotes(n / 10);
        let d = digit_char(n % 10);
        assert(d as int == 48 + n % 10);
        let s = dec_nat(n);
        assert(s == dec_nat(n / 10).push(d));
        assert(s.drop_last() =~= dec_nat(n / 10));
        assert(s.last() == d);
        assert(digits_value(s) == digits_value(s.drop_last()) * 10 + (s.last() as int - 48));
        assert(n == (n / 10) * 10 + n % 10) by (nonlinear_arith);
        assert(s[0] == dec_nat(n / 10)[0]);
        assert forall|k: int| 0 <= k < s.len() implies '0' <= #[trigger] s[k] <= '9' by {
            if k < s.len() - 1 {
                assert(s[k] == dec_nat(n / 10)[k]);
            }
        }
    }
}

/// A negative integer renders as `-` followed by the digits of its magnitude;
/// any other as its plain digits.
pub proof fn lemma_dec_int_denotes(i: int)
    ensures
        i < 0 ==> dec_int(i)[0] == '-' && digits_value(dec_int(i).drop_first()) == -i,
        i >= 0 ==> digits_value(dec_int(i)) == i && dec_int(i)[0] != '-',
{
    if i < 0 {
        lemma_dec_nat_denotes((-i) as nat);
        assert(dec_int(i).drop_first() =~= dec_nat((-i) as nat));
    } else {
        lemma_dec_nat_denotes(i as nat);
    }
}

/// The decimal rendering of an integer, with a leading `-` when negative.
pub open spec fn dec_int(i: int) -> Seq<char> {
    if i < 0 {
        seq!['-'] + dec_nat((-i) as nat)
    } else {
        dec_nat(i as nat)
    }
}

/// Appends the decimal rendering of `n`.
pub fn push_decimal(s: &mut String, n: u64)
    ensures
        final(s)@ == old(s)@ + dec_nat(n as nat),
    decreases n,
{
    if n >= 10 {
        push_decimal(s, n / 10);
    }
    let d: u64 = n % 10;
    assert(d < 10);
    let c: char = ((48 + d) as u8) as char;
    push_char(s, c);
    proof {
        assert(c == digit_char(d as nat));
        if n >= 10 {
            assert(dec_nat(n as nat) == dec_nat((n / 10) as nat).push(digit_char((n % 10) as nat)));
        }
    }
    assert(s@ =~= old(s)@ + dec_nat(n as nat));
}

/// Renders an unsigned integer in decimal, as `u64::to_string` does.
pub fn u64_to_string(n: u64) -> (r: String)
    ensures
        r@ == dec_nat(n as nat),
{
    let mut s = String::new();
    push_decimal(&mut s, n);
    assert(s@ =~= dec_nat(n as nat));
    s
}

/// Renders a signed integer in decimal, as `i64::to_string` does.
pub fn i64_to_string(n: i64) -> (r: String)
    ensures
        r@ == dec_int(n as int),
{
    let mut s = String::new();
    if n < 0 {
        push_char(&mut s, '-');
        let m: u64 = (0i128 - n as i128) as u64;
        push_decimal(&mut s, m);
        assert(s@ =~= dec_int(n as int));
    } else {
        push_decimal(&mut s, n as u64);
        assert(s@ =~= dec_int(n as int));
    }
    s
}

/// The rendering of a boolean, `"true"` or `"false"`.
pub open spec fn bool_text(b: bool) -> Seq<char> {
    if b {
        seq!['t', 'r', 'u', 'e']
    } else {
        seq!['f', 'a', 'l', 's', 'e']
    }
}

/// Renders a boolean as `"true"` or `"false"`.
pub fn bool_to_string(b: bool) -> (r: String)
    ensures
        r@ == bool_text(b),
{
    let mut s = String::new();
    if b {
        push_char(&mut s, 't');
        push_char(&mut s, 'r');
        push_char(&mut s, 'u');
        push_char(&mut s, 'e');
    } else {
        push_char(&mut s, 'f');
        push_char(&mut s, 'a');
        push_char(&mut s, 'l');
        push_char(&mut s, 's');
        push_char(&mut s, 'e');
    }
    assert(s@ =~= bool_text(b));
    s
}

/// `parts` joined with `sep` between consecutive elements (`""` when empty).
pub open spec fn join_seqs(parts: Seq<Seq<char>>, sep: Seq<char>) -> Seq<char>
    decreases parts.len(),
{
    if parts.len() == 0 {
        seq![]
    } else if parts.len() == 1 {
        parts[0]
    } else {
        join_seqs(parts.drop_last(), sep) + sep + parts.last()
    }
}

/// The pieces of `s` between the occurrences of `sep`, as `str::split` with
/// a one-character pattern gives them: an empty text is one empty piece.
pub open spec fn split_on(s: Seq<char>, sep: char) -> Seq<Seq<char>>
    decreases s.len(),
{
    if s.len() == 0 {
        seq![Seq::<char>::empty()]
    } else {
        let pieces = split_on(s.drop_last(), sep);
        if s.last() == sep {
            pieces.push(Seq::<char>::empty())
        } else {
            pieces.update(pieces.len() - 1, pieces.last().push(s.last()))
        }
    }
}

/// Whether `sep` occurs in `s`.
pub open spec fn holds_char(s: Seq<char>, sep: char) -> bool {
    exists|k: int| 0 <= k < s.len() && s[k] == sep
}

/// There is always at least one piece.
proof fn lemma_split_nonempty(s: Seq<char>, sep: char)
    ensures
        split_on(s, sep).len() >= 1,
    decreases s.len(),
{
    if s.len() > 0 {
        lemma_split_nonempty(s.drop_last(), sep);
    }
}

/// Appending text without the separator extends the last piece.
proof fn lemma_split_append_plain(a: Seq<char>, b: Seq<char>, sep: char)
    requires
        !holds_char(b, sep),
    ensures
        split_on(a + b, sep) == split_on(a, sep).update(
            split_on(a, sep).len() - 1,
            split_on(a, sep).last() + b,
        ),
    decreases b.len(),
{
    lemma_split_nonempty(a, sep);
    let pa = split_on(a, sep);
    if b.len() == 0 {
        assert(a + b =~= a);
        assert(pa.last() + b =~= pa.last());
        assert(pa.update(pa.len() - 1, pa.last()) =~= pa);
    } else {
        let b1 = b.drop_last();
        assert(!holds_char(b1, sep)) by {
            if holds_char(b1, sep) {
                let k = choose|k: int| 0 <= k < b1.len() && b1[k] == sep;
                assert(b[k] == sep);
            }
        }
        lemma_split_append_plain(a, b1, sep);
        assert((a + b).drop_last() =~= a + b1);
        assert((a + b).last() == b.last());
        assert(b[b.len() - 1] != sep);
        let p1 = split_on(a + b1, sep);
        assert(p1.last() == pa.last() + b1);
        assert((pa.last() + b1).push(b.last()) =~= pa.last() + b);
        assert(p1.update(p1.len() - 1, p1.last().push(b.last())) =~= pa.update(
            pa.len() - 1,
            pa.last() + b,
        ));
    }
}

/// Joining pieces that do not hold the separator and splitting the result
/// at the separator gives the pieces back.
pub proof fn lemma_split_join(parts: Seq<Seq<char>>, sep: char)
    requires
        parts.len() >= 1,
        forall|i: int| 0 <= i < parts.len() ==> !holds_char(#[trigger] parts[i], sep),
    ensures
        split_on(join_seqs(parts, seq![sep]), sep) == parts,
    decreases parts.len(),
{
    if parts.len() == 1 {
        let e = Seq::<char>::empty();
        lemma_split_append_plain(e, parts[0], sep);
        assert(e + parts[0] =~= parts[0]);
        assert(split_on(e, sep) == seq![e]);
        assert(e + parts[0] =~= parts[0]);
        assert(seq![e].update(0, e + parts[0]) =~= parts);
    } else {
        let init = parts.drop_last();
        let w = parts.last();
        lemma_split_join(init, sep);
        let j = join_seqs(init, seq![sep]);
        let js = j + seq![sep];
        assert(js.drop_last() =~= j);
        lemma_split_nonempty(j, sep);
        assert(split_on(js, sep) == split_on(j, sep).push(Seq::<char>::empty()));
        assert(!holds_char(w, sep));
        lemma_split_append_plain(js, w, sep);
        assert(join_seqs(parts, seq![sep]) == js + w);
        assert(Seq::<char>::empty() + w =~= w);
        assert(init.push(Seq::<char>::empty()).update(init.len() as int, Seq::<char>::empty() + w) =~= parts);
    }
}

/// Whether some pair is `(key, value)`.
pub open spec fn holds_pair<V>(pairs: Seq<(Seq<char>, V)>, key: Seq<char>, value: V) -> bool {
    exists|j: int| 0 <= j < pairs.len() && #[trigger] pairs[j] == (key, value)
}

/// Whether no pair has `key`.
pub open spec fn lacks<V>(pairs: Seq<(Seq<char>, V)>, key: Seq<char>) -> bool {
    forall|i: int| 0 <= i < pairs.len() ==> (#[trigger] pairs[i]).0 != key
}

/// Whether `pairs` carry `value` under `key`: with a value, some pair is
/// `(key, value)` and every pair with this key has this value; without one,
/// no pair has the key.
pub open spec fn carries<V>(pairs: Seq<(Seq<char>, V)>, key: Seq<char>, value: Option<V>) -> bool {
    match value {
        Some(v) => {
            &&& exists|i: int| 0 <= i < pairs.len() && #[trigger] pairs[i] == (key, v)
            &&& forall|i: int| 0 <= i < pairs.len() && (#[trigger] pairs[i]).0 == key ==> pairs[i].1 == v
        },
        None => lacks(pairs, key),
    }
}

/// Appending pairs without the key keeps what the first ones carry.
pub proof fn lemma_carries_then_lacks<V>(a: Seq<(Seq<char>, V)>, b: Seq<(Seq<char>, V)>, key: Seq<char>, value: Option<V>)
    requires
        carries(a, key, value),
        lacks(b, key),
    ensures
        carries(a + b, key, value),
{
    assert forall|i: int| 0 <= i < (a + b).len() && (#[trigger] (a + b)[i]).0 == key implies value is Some
        && (a + b)[i].1 == value->0 by {
        if i >= a.len() {
            assert((a + b)[i] == b[i - a.len()]);
        } else {
            assert((a + b)[i] == a[i]);
        }
    }
    if let Some(v) = value {
        let i = choose|i: int| 0 <= i < a.len() && #[trigger] a[i] == (key, v);
        assert((a + b)[i] == a[i]);
    }
}

/// Pairs without the key, then pairs carrying a value under it, carry that
/// value.
pub proof fn lemma_lacks_then_carries<V>(a: Seq<(Seq<char>, V)>, b: Seq<(Seq<char>, V)>, key: Seq<char>, value: Option<V>)
    requires
        lacks(a, key),
        carries(b, key, value),
    ensures
        carries(a + b, key, value),
{
    assert forall|i: int| 0 <= i < (a + b).len() && (#[trigger] (a + b)[i]).0 == key implies value is Some
        && (a + b)[i].1 == value->0 by {
        if i >= a.len() {
            assert((a + b)[i] == b[i - a.len()]);
        } else {
            assert((a + b)[i] == a[i]);
        }
    }
    if let Some(v) = value {
        let i = choose|i: int| 0 <= i < b.len() && #[trigger] b[i] == (key, v);
        assert((a + b)[a.len() + i] == b[i]);
    }
}

/// The pair for an optional value: `(key, value)` when it is set, nothing
/// otherwise.
pub open spec fn one_pair<V>(key: Seq<char>, value: Option<V>) -> Seq<(Seq<char>, V)> {
    match value {
        Some(v) => seq![(key, v)],
        None => Seq::empty(),
    }
}

/// A lone optional pair carries its value under its key.
pub proof fn lemma_one_pair_carries<V>(key: Seq<char>, value: Option<V>)
    ensures
        carries(one_pair(key, value), key, value),
{
    if let Some(v) = value {
        assert(one_pair(key, value)[0] == (key, v));
    }
}

/// Appending a part to pairs: the part either is the key's own optional pair
/// (and the pairs before it lack the key), or lacks the key (and the pairs
/// before it already carry the value).
pub proof fn lemma_extend<V>(a: Seq<(Seq<char>, V)>, b: Seq<(Seq<char>, V)>, key: Seq<char>, value: Option<V>, here: bool)
    requires
        here ==> lacks(a, key) && b == one_pair(key, value),
        !here ==> carries(a, key, value) && lacks(b, key),
    ensures
        carries(a + b, key, value),
{
    if here {
        lemma_one_pair_carries(key, value);
        lemma_lacks_then_carries(a, b, key, value);
    } else {
        lemma_carries_then_lacks(a, b, key, value);
    }
}

/// The views of a slice of string slices.
pub open spec fn str_views(parts: Seq<&str>) -> Seq<Seq<char>> {
    parts.map_values(|p: &str| p@)
}

/// Joins string slices with a separator, as `<[&str]>::join` does.
pub fn join_strs(parts: &[&str], sep: &str) -> (r: String)
    ensures
        r@ == join_seqs(str_views(parts@), sep@),
{
    let mut res = String::new();
    let ghost views = str_views(parts@);
    let n = parts.len();
    let mut i: usize = 0;
    while i < n
        invariant
            n == parts@.len(),
            i <= n,
            views == str_views(parts@),
            res@ == join_seqs(views.take(i as int), sep@),
        decreases n - i,
    {
        let ghost before = res@;
        if i != 0 {
            res.append(sep);
        }
        res.append(parts[i]);
        proof {
            let t = views.take(i + 1);
            assert(t.drop_last() =~= views.take(i as int));
            assert(t.last() == parts@[i as int]@);
            if i == 0 {
                assert(views.take(0) =~= Seq::<Seq<char>>::empty());
                assert(t.len() == 1);
                assert(res@ =~= t[0]);
            } else {
                assert(res@ =~= join_seqs(t.drop_last(), sep@) + sep@ + t.last());
            }
        }
        i = i + 1;
    }
    assert(views.take(n as int) =~= views);
    res
}

/// Whether a byte is in the RFC 3986 unreserved set
/// (`A-Z`, `a-z`, `0-9`, `-`, `.`, `_`, `~`).
pub open spec fn is_unreserved_byte(b: u8) -> bool {
    ||| (65 <= b <= 90)
    ||| (97 <= b <= 122)
    ||| (48 <= b <= 57)
    ||| b == 45
    ||| b == 46
    ||| b == 95
    ||| b == 126
}

/// Whether a byte is an ASCII letter or digit.
pub open spec fn is_alphanumeric_byte(b: u8) -> bool {
    ||| (65 <= b <= 90)
    ||| (97 <= b <= 122)
    ||| (48 <= b <= 57)
}

/// Decides [`is_unreserved_byte`].
pub fn is_unreserved(b: u8) -> (r: bool)
    ensures
        r == is_unreserved_byte(b),
{
    (65 <= b && b <= 90) || (97 <= b && b <= 122) || (48 <= b && b <= 57) || b == 45 || b == 46
        || b == 95 || b == 126
}

/// The uppercase hexadecimal digit for `d` (`0..=15`).
pub open spec fn hex_char(d: nat) -> char {
    if d < 10 {
        digit_char(d)
    } else {
        ((55 + d) as u32) as char
    }
}

/// The percent-encoding of one byte: the byte itself when unreserved,
/// otherwise `%` followed by two uppercase hexadecimal digits.
pub open spec fn encode_byte(b: u8) -> Seq<char> {
    if is_unreserved_byte(b) {
        seq![(b as u32) as char]
    } else {
        seq!['%', hex_char((b / 16) as nat), hex_char((b % 16) as nat)]
    }
}

/// The percent-encoding of a byte string, byte by byte.
pub open spec fn percent_encode(bytes: Seq<u8>) -> Seq<char>
    decreases bytes.len(),
{
    if bytes.len() == 0 {
        seq![]
    } else {
        percent_encode(bytes.drop_last()) + encode_byte(bytes.last())
    }
}

/// The encoding of a path segment: its UTF-8 bytes, percent-encoded.
pub open spec fn segment_text(s: Seq<char>) -> Seq<char> {
    percent_encode(encode_utf8(s))
}

/// The value of an uppercase hexadecimal digit (`-1` for any other character).
pub open spec fn hex_value(c: char) -> int {
    if '0' <= c <= '9' {
        c as int - 48
    } else if 'A' <= c <= 'F' {
        c as int - 55
    } else {
        -1
    }
}

/// Percent-decoding, read from the end: an escape `%XY` stands for the byte
/// `0xXY`, any other character for its own code.
pub open spec fn percent_decode(s: Seq<char>) -> Seq<int>
    decreases s.len(),
{
    if s.len() == 0 {
        Seq::empty()
    } else if s.len() >= 3 && s[s.len() - 3] == '%' {
        percent_decode(s.take(s.len() - 3)).push(hex_value(s[s.len() - 2]) * 16 + hex_value(s[s.len() - 1]))
    } else {
        percent_decode(s.drop_last()).push(s.last() as int)
    }
}

/// In an encoding, every `%` is followed by two more characters.
proof fn lemma_escapes_complete(bytes: Seq<u8>)
    ensures
        forall|k: int|
            0 <= k < percent_encode(bytes).len() && #[trigger] percent_encode(bytes)[k] == '%' ==> k + 2
                < percent_encode(bytes).len(),
    decreases bytes.len(),
{
    if bytes.len() > 0 {
        let b = bytes.drop_last();
        lemma_escapes_complete(b);
        let p = percent_encode(b);
        let e = encode_byte(bytes.last());
        let s = percent_encode(bytes);
        assert(s == p + e);
        assert forall|k: int| 0 <= k < s.len() && #[trigger] s[k] == '%' implies k + 2 < s.len() by {
            if k < p.len() {
                assert(s[k] == p[k]);
            } else {
                assert(s[k] == e[k - p.len()]);
                if is_unreserved_byte(bytes.last()) {
                    assert(e[0] == (bytes.last() as u32) as char);
                }
            }
        }
    }
}

/// Hexadecimal digits read back as their values.
proof fn lemma_hex_round_trip(d: nat)
    requires
        d < 16,
    ensures
        hex_value(hex_char(d)) == d,
{
    if d < 10 {
        assert(digit_char(d) as int == 48 + d);
    } else {
        assert(((55 + d) as u32) as char as int == 55 + d);
    }
}

/// Decoding an encoding gives back the bytes, in order: the percent-encoding
/// loses nothing and adds nothing.
pub proof fn lemma_percent_round_trip(bytes: Seq<u8>)
    ensures
        percent_decode(percent_encode(bytes)) == bytes.map_values(|b: u8| b as int),
    decreases bytes.len(),
{
    if bytes.len() == 0 {
        assert(percent_encode(bytes) =~= Seq::<char>::empty());
        assert(bytes.map_values(|b: u8| b as int) =~= Seq::<int>::empty());
    } else {
        let b = bytes.drop_last();
        let x = bytes.last();
        lemma_percent_round_trip(b);
        lemma_escapes_complete(b);
        let p = percent_encode(b);
        let e = encode_byte(x);
        let s = percent_encode(bytes);
        assert(s == p + e);
        assert(bytes.map_values(|b: u8| b as int) =~= b.map_values(|b: u8| b as int).push(x as int));
        if is_unreserved_byte(x) {
            assert(s.drop_last() =~= p);
            assert(s.last() == (x as u32) as char);
            assert(((x as u32) as char) as int == x as int);
            if s.len() >= 3 {
                assert(s[s.len() - 3] == p[p.len() - 2]);
                assert(p[p.len() - 2] != '%');
            }
        } else {
            assert(s[s.len() - 3] == '%');
            assert(s.take(s.len() - 3) =~= p);
            lemma_hex_round_trip((x / 16) as nat);
            lemma_hex_round_trip((x % 16) as nat);
            assert(s[s.len() - 2] == hex_char((x / 16) as nat));
            assert(s[s.len() - 1] == hex_char((x % 16) as nat));
            assert((x / 16) as int * 16 + (x % 16) as int == x as int);
        }
    }
}

/// Decoding an encoded path segment gives back the UTF-8 bytes of the text.
pub proof fn lemma_segment_round_trip(value: Seq<char>)
    ensures
        percent_decode(segment_text(value)) == encode_utf8(value).map_values(|b: u8| b as int),
{
    lemma_percent_round_trip(encode_utf8(value));
}

/// Whether a character can stand in an encoded path segment: an unreserved
/// ASCII character, or the `%` that starts an escape.
pub open spec fn is_segment_char(c: char) -> bool {
    c == '%' || (c <= '\u{7f}' && is_unreserved_byte(c as u8))
}

/// Every character that the encoding of one byte produces can stand in a
/// segment.
proof fn lemma_encode_byte_safe(b: u8)
    ensures
        forall|i: int| 0 <= i < encode_byte(b).len() ==> is_segment_char(
            #[trigger] encode_byte(b)[i],
        ),
{
    let hi = (b / 16) as nat;
    let lo = (b % 16) as nat;
    assert(hi < 16 && lo < 16);
    assert(is_segment_char(hex_char(hi)));
    assert(is_segment_char(hex_char(lo)));
}

/// Percent-encoding produces only characters that can stand in a segment.
proof fn lemma_percent_encode_safe(bytes: Seq<u8>)
    ensures
        forall|i: int| 0 <= i < percent_encode(bytes).len() ==> is_segment_char(
            #[trigger] percent_encode(bytes)[i],
        ),
    decreases bytes.len(),
{
    if bytes.len() > 0 {
        lemma_percent_encode_safe(bytes.drop_last());
        lemma_encode_byte_safe(bytes.last());
        let front = percent_encode(bytes.drop_last());
        let back = encode_byte(bytes.last());
        assert forall|i: int| 0 <= i < percent_encode(bytes).len() implies is_segment_char(
            #[trigger] percent_encode(bytes)[i],
        ) by {
            if i < front.len() {
                assert(percent_encode(bytes)[i] == front[i]);
            } else {
                assert(percent_encode(bytes)[i] == back[i - front.len()]);
            }
        }
    }
}

/// An encoded path segment holds only unreserved characters and `%`, so no
/// value — whatever `/`, `?`, `#`, spaces or non-ASCII text it contains — can
/// add a path level, start a query or fragment, or break the URL.
pub proof fn lemma_segment_is_safe(value: Seq<char>)
    ensures
        forall|i: int| 0 <= i < segment_text(value).len() ==> is_segment_char(
            #[trigger] segment_text(value)[i],
        ),
{
    lemma_percent_encode_safe(encode_utf8(value));
}

/// The hexadecimal digit for `d` as an executable character.
fn hex_digit(d: u8) -> (c: char)
    requires
        d < 16,
    ensures
        c == hex_char(d as nat),
{
    if d < 10 {
        ((48 + d) as u8) as char
    } else {
        ((55 + d) as u8) as char
    }
}

/// Appends the percent-encoding of `value` as a single URL path segment, so
/// that `/`, `?`, `#`, spaces and non-ASCII text cannot change the path.
pub fn push_segment(s: &mut String, value: &str)
    ensures
        final(s)@ == old(s)@ + segment_text(value@),
{
    let bytes = value.as_bytes();
    let n = bytes.len();
    let ghost all = bytes@;
    let mut i: usize = 0;
    while i < n
        invariant
            n == all.len(),
            all == bytes@,
            all == encode_utf8(value@),
            i <= n,
            s@ == old(s)@ + percent_encode(all.take(i as int)),
        decreases n - i,
    {
        let b = bytes[i];
        let ghost before = s@;
        if is_unreserved(b) {
            push_char(s, b as char);
        } else {
            push_char(s, '%');
            push_char(s, hex_digit(b / 16));
            push_char(s, hex_digit(b % 16));
        }
        proof {
            let t = all.take(i + 1);
            assert(t.drop_last() =~= all.take(i as int));
            assert(t.last() == b);
            assert(percent_encode(t) == percent_encode(t.drop_last()) + encode_byte(t.last()));
            assert(s@ =~= before + encode_byte(b));
        }
        i = i + 1;
    }
    assert(all.take(n as int) =~= all);
}

/// Percent-encodes `value` as a single URL path segment.
pub fn segment(value: &str) -> (r: String)
    ensures
        r@ == segment_text(value@),
{
    let mut s = String::new();
    push_segment(&mut s, value);
    assert(s@ =~= segment_text(value@));
    s
}

/// A value that can be turned into an owned string: `String` itself or a
/// string slice.
pub trait IntoText {
    /// The text the value stands for.
    spec fn text_of(&self) -> Seq<char>;

    /// The value as an owned string.
    fn into_text(self) -> (r: String)
        ensures
            r@ == self.text_of(),
    ;
}

impl IntoText for String {
    open spec fn text_of(&self) -> Seq<char> {
        self@
    }

    fn into_text(self) -> (r: String) {
        self
    }
}

impl<'a> IntoText for &'a str {
    open spec fn text_of(&self) -> Seq<char> {
        (*self)@
    }

    fn into_text(self) -> (r: String) {
        String::from_str(self)
    }
}

} // verus!
