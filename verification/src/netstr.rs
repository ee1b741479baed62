//! The string shapes this probe works on: dot-separated groups of a NET or of
//! a dotted-decimal address, zero-padding of area groups, and the bridge from
//! ASCII character sequences to the byte sequences that go on the wire.
use crate::hexcodec::all_hex_bytes;
use crate::hexcodec::is_hex_digit_byte;
use crate::hexcodec::strip_dot_bytes;
use vstd::prelude::*;
use vstd::string::StrSliceExecFns;
use vstd::string::StringExecFns;
use vstd::string::StringSliceAdditionalSpecFns;

verus! {

/// The index of the first `.` in `s`, or `s.len()` if there is none.
pub open spec fn first_dot(s: Seq<char>) -> nat
    decreases s.len(),
{
    if s.len() == 0 {
        0
    } else if s[0] == '.' {
        0
    } else {
        1 + first_dot(s.skip(1))
    }
}

/// `s` has at least two dot-separated groups.
pub open spec fn has_dot(s: Seq<char>) -> bool {
    first_dot(s) < s.len()
}

/// `s` contains no dot.
pub open spec fn dot_free(s: Seq<char>) -> bool {
    forall|i: int| 0 <= i < s.len() ==> s[i] != '.'
}

/// A group zero-padded on the left to width 2: padding only ever adds digits,
/// a group of two or more characters is left unchanged.
pub open spec fn pad2(g: Seq<char>) -> Seq<char> {
    if g.len() >= 2 {
        g
    } else if g.len() == 1 {
        seq!['0'] + g
    } else {
        seq!['0', '0']
    }
}

/// Every dot-separated group of `s`, zero-padded to width 2 and rejoined with
/// dots.
pub open spec fn format_groups(s: Seq<char>) -> Seq<char>
    decreases s.len(),
{
    let d: int = first_dot(s) as int;
    if d >= s.len() {
        pad2(s)
    } else {
        pad2(s.take(d)) + seq!['.'] + format_groups(s.skip(d + 1))
    }
}

/// The dot-separated groups of `s`, in order. A string without dots is one
/// group; every dot opens a further group, so there is always at least one.
pub open spec fn split_dots(s: Seq<char>) -> Seq<Seq<char>>
    decreases s.len(),
{
    let d: int = first_dot(s) as int;
    if d >= s.len() {
        seq![s]
    } else {
        seq![s.take(d)] + split_dots(s.skip(d + 1))
    }
}

/// `s` with every dot removed.
pub open spec fn strip_dots(s: Seq<char>) -> Seq<char>
    decreases s.len(),
{
    if s.len() == 0 {
        Seq::empty()
    } else if s[0] == '.' {
        strip_dots(s.skip(1))
    } else {
        seq![s[0]] + strip_dots(s.skip(1))
    }
}

/// The character is a hex digit.
pub open spec fn is_hex_digit(c: char) -> bool {
    ('0' <= c <= '9') || ('a' <= c <= 'f') || ('A' <= c <= 'F')
}

/// Every character of `s` is a hex digit.
pub open spec fn all_hex(s: Seq<char>) -> bool {
    forall|i: int| 0 <= i < s.len() ==> is_hex_digit(#[trigger] s[i])
}

/// The character is a decimal digit.
pub open spec fn is_digit(c: char) -> bool {
    '0' <= c <= '9'
}

/// Every character of `s` is a decimal digit.
pub open spec fn all_digits(s: Seq<char>) -> bool {
    forall|i: int| 0 <= i < s.len() ==> is_digit(#[trigger] s[i])
}

/// The numeric value of the decimal digit `c`.
pub open spec fn digit_val(c: char) -> int
    recommends
        is_digit(c),
{
    c as u32 - 48
}

/// The numeric value of a string of decimal digits, most significant first.
pub open spec fn dec_val(s: Seq<char>) -> int
    decreases s.len(),
{
    if s.len() == 0 {
        0
    } else {
        dec_val(s.drop_last()) * 10 + digit_val(s.last())
    }
}

/// The group is a decimal octet: nonempty, digits only, and at most 255.
pub open spec fn octet_valid(g: Seq<char>) -> bool {
    &&& g.len() >= 1
    &&& all_digits(g)
    &&& dec_val(g) <= 255
}

/// The string is a dotted-decimal IPv4 address: exactly four dot-separated
/// octets, each in 0..=255.
pub open spec fn router_ip_valid(s: Seq<char>) -> bool {
    &&& split_dots(s).len() == 4
    &&& forall|i: int| 0 <= i < 4 ==> octet_valid(#[trigger] split_dots(s)[i])
}

/// The four address bytes of a dotted-decimal IPv4 address.
pub open spec fn ip_octets(s: Seq<char>) -> Seq<u8> {
    Seq::new(split_dots(s).len(), |i: int| dec_val(split_dots(s)[i]) as u8)
}

/// The bytes of an ASCII character sequence, character by character.
pub open spec fn char_bytes(s: Seq<char>) -> Seq<u8> {
    Seq::new(s.len(), |i: int| s[i] as u8)
}

/// The Area ID a NET yields: its first two dot-separated groups, each
/// zero-padded to width 2, rejoined with a dot.
pub open spec fn area_of(n: Seq<char>) -> Seq<char>
    recommends
        has_dot(n),
{
    let d1: int = first_dot(n) as int;
    let rest = n.skip(d1 + 1);
    let d2: int = first_dot(rest) as int;
    pad2(n.take(d1)) + seq!['.'] + pad2(rest.take(d2))
}

/// Bounds of `first_dot`: it never passes the end, nothing before it is a
/// dot, and when it is inside the string it points at a dot.
pub proof fn lemma_first_dot_le(s: Seq<char>)
    ensures
        first_dot(s) <= s.len(),
        forall|i: int| 0 <= i < first_dot(s) ==> s[i] != '.',
        first_dot(s) < s.len() ==> s[first_dot(s) as int] == '.',
    decreases s.len(),
{
    if s.len() > 0 && s[0] != '.' {
        lemma_first_dot_le(s.skip(1));
        assert forall|i: int| 0 <= i < first_dot(s) implies s[i] != '.' by {
            if i > 0 {
                assert(s.skip(1)[i - 1] != '.');
            }
        }
    }
}

/// `first_dot` is exactly the position of the first dot: if nothing before
/// `i` is a dot and `i` is the end or a dot, then `first_dot` is `i`.
pub proof fn lemma_first_dot_at(s: Seq<char>, i: int)
    requires
        0 <= i <= s.len(),
        forall|j: int| 0 <= j < i ==> s[j] != '.',
        i < s.len() ==> s[i] == '.',
    ensures
        first_dot(s) == i,
    decreases i,
{
    if i == 0 {
    } else {
        lemma_first_dot_at(s.skip(1), i - 1);
    }
}

/// The first dot after a dot-free prefix joined with a dot is that dot.
pub proof fn lemma_first_dot_concat(g: Seq<char>, t: Seq<char>)
    requires
        dot_free(g),
    ensures
        first_dot(g + seq!['.'] + t) == g.len(),
{
    lemma_first_dot_at(g + seq!['.'] + t, g.len() as int);
}

/// Formatting the groups of a string is idempotent: formatting an already
/// formatted string leaves it unchanged.
pub proof fn lemma_format_groups_idempotent(s: Seq<char>)
    ensures
        format_groups(format_groups(s)) == format_groups(s),
    decreases s.len(),
{
    lemma_first_dot_le(s);
    let d: int = first_dot(s) as int;
    if d >= s.len() {
        assert(dot_free(s));
        assert(dot_free(pad2(s)));
        lemma_first_dot_at(pad2(s), pad2(s).len() as int);
        assert(pad2(pad2(s)) =~= pad2(s));
    } else {
        let g = s.take(d);
        let t = s.skip(d + 1);
        assert(dot_free(g));
        assert(dot_free(pad2(g)));
        lemma_first_dot_concat(pad2(g), format_groups(t));
        let whole = pad2(g) + seq!['.'] + format_groups(t);
        assert(format_groups(s) == whole);
        let d2: int = pad2(g).len() as int;
        assert(first_dot(whole) == d2);
        assert(d2 < whole.len());
        assert(whole.take(d2) =~= pad2(g));
        assert(whole.skip(d2 + 1) =~= format_groups(t));
        lemma_format_groups_idempotent(t);
        assert(pad2(pad2(g)) =~= pad2(g));
        assert(format_groups(whole) == pad2(pad2(g)) + seq!['.'] + format_groups(format_groups(t)));
    }
}

/// Dot stripping distributes over concatenation.
pub proof fn lemma_strip_dots_add(a: Seq<char>, b: Seq<char>)
    ensures
        strip_dots(a + b) == strip_dots(a) + strip_dots(b),
    decreases a.len(),
{
    if a.len() == 0 {
        assert(a + b =~= b);
        assert(strip_dots(a) + strip_dots(b) =~= strip_dots(b));
    } else {
        assert((a + b).skip(1) =~= a.skip(1) + b);
        lemma_strip_dots_add(a.skip(1), b);
        if a[0] != '.' {
            assert(seq![a[0]] + (strip_dots(a.skip(1)) + strip_dots(b)) =~= (seq![a[0]]
                + strip_dots(a.skip(1))) + strip_dots(b));
        }
    }
}

/// Appending one character extends the stripped sequence by that character,
/// unless the character is a dot.
pub proof fn lemma_strip_dots_push(s: Seq<char>, c: char)
    ensures
        c == '.' ==> strip_dots(s.push(c)) == strip_dots(s),
        c != '.' ==> strip_dots(s.push(c)) == strip_dots(s).push(c),
{
    reveal_with_fuel(strip_dots, 2);
    assert(s.push(c) =~= s + seq![c]);
    lemma_strip_dots_add(s, seq![c]);
    assert(seq![c].skip(1) =~= Seq::<char>::empty());
    if c == '.' {
        assert(strip_dots(seq![c]) =~= Seq::<char>::empty());
        assert(strip_dots(s) + strip_dots(seq![c]) =~= strip_dots(s));
    } else {
        assert(strip_dots(seq![c]) =~= seq![c]);
        assert(strip_dots(s) + strip_dots(seq![c]) =~= strip_dots(s).push(c));
    }
}

/// On ASCII characters, stripping dots commutes with taking the bytes of the
/// characters, and the stripped sequence stays ASCII.
pub proof fn lemma_strip_dots_ascii(s: Seq<char>)
    requires
        vstd::utf8::is_ascii_chars(s),
    ensures
        strip_dot_bytes(char_bytes(s)) == char_bytes(strip_dots(s)),
        vstd::utf8::is_ascii_chars(strip_dots(s)),
    decreases s.len(),
{
    if s.len() == 0 {
        assert(char_bytes(s) =~= Seq::<u8>::empty());
        assert(char_bytes(strip_dots(s)) =~= Seq::<u8>::empty());
    } else {
        assert(vstd::utf8::is_ascii_chars(s.skip(1)));
        lemma_strip_dots_ascii(s.skip(1));
        assert(char_bytes(s).skip(1) =~= char_bytes(s.skip(1)));
        assert(s[0] == '.' <==> char_bytes(s)[0] == 46);
        if s[0] == '.' {
        } else {
            assert(char_bytes(seq![s[0]] + strip_dots(s.skip(1))) =~= seq![s[0] as u8]
                + char_bytes(strip_dots(s.skip(1))));
            assert(strip_dot_bytes(char_bytes(s)) =~= seq![char_bytes(s)[0]] + strip_dot_bytes(
                char_bytes(s).skip(1),
            ));
        }
    }
}

/// On ASCII characters, being hex digits can be read off the bytes.
pub proof fn lemma_all_hex_ascii(s: Seq<char>)
    requires
        vstd::utf8::is_ascii_chars(s),
    ensures
        all_hex_bytes(char_bytes(s)) <==> all_hex(s),
{
    assert forall|i: int| 0 <= i < s.len() implies (is_hex_digit_byte(char_bytes(s)[i])
        <==> is_hex_digit(s[i])) by {
        assert('\0' <= s[i] <= '\u{7f}');
    }
}

/// A nonempty digit string has a nonnegative value.
pub proof fn lemma_dec_val_nonneg(s: Seq<char>)
    requires
        all_digits(s),
    ensures
        dec_val(s) >= 0,
    decreases s.len(),
{
    if s.len() > 0 {
        assert(all_digits(s.drop_last()));
        lemma_dec_val_nonneg(s.drop_last());
    }
}

/// The value of a digit string never falls below the value of any of its
/// prefixes: appending digits cannot shrink a number.
pub proof fn lemma_dec_val_take(s: Seq<char>, k: int)
    requires
        all_digits(s),
        0 <= k <= s.len(),
    ensures
        dec_val(s.take(k)) <= dec_val(s),
    decreases s.len() - k,
{
    if k == s.len() {
        assert(s.take(k) =~= s);
    } else {
        assert(all_digits(s.take(k + 1)));
        assert(s.take(k + 1).drop_last() =~= s.take(k));
        lemma_dec_val_nonneg(s.take(k));
        lemma_dec_val_take(s, k + 1);
    }
}

/// Zero-padding keeps a group ASCII.
pub proof fn lemma_pad2_ascii(g: Seq<char>)
    requires
        vstd::utf8::is_ascii_chars(g),
    ensures
        vstd::utf8::is_ascii_chars(pad2(g)),
{
    assert forall|i: int| 0 <= i < pad2(g).len() implies '\0' <= #[trigger] pad2(g)[i] <= '\u{7f}' by {
        if g.len() == 1 {
            assert(pad2(g)[0] == '0');
            assert(pad2(g)[1] == g[0]);
        } else if g.len() == 0 {
            assert(pad2(g)[i] == '0');
        }
    }
}

/// The Area ID derived from an ASCII NET is itself ASCII.
pub proof fn lemma_area_of_ascii(n: Seq<char>)
    requires
        vstd::utf8::is_ascii_chars(n),
        has_dot(n),
    ensures
        vstd::utf8::is_ascii_chars(area_of(n)),
{
    lemma_first_dot_le(n);
    let d1: int = first_dot(n) as int;
    let rest = n.skip(d1 + 1);
    lemma_first_dot_le(rest);
    let d2: int = first_dot(rest) as int;
    assert(vstd::utf8::is_ascii_chars(n.take(d1)));
    assert(vstd::utf8::is_ascii_chars(rest.take(d2)));
    lemma_pad2_ascii(n.take(d1));
    lemma_pad2_ascii(rest.take(d2));
    assert forall|i: int| 0 <= i < area_of(n).len() implies '\0' <= #[trigger] area_of(n)[i]
        <= '\u{7f}' by {
        let a = pad2(n.take(d1));
        let b = pad2(rest.take(d2));
        if i < a.len() {
            assert(area_of(n)[i] == a[i]);
        } else if i == a.len() {
            assert(area_of(n)[i] == '.');
        } else {
            assert(area_of(n)[i] == b[i - a.len() - 1]);
        }
    }
}

/// On an ASCII string the UTF-8 bytes are the characters themselves.
pub proof fn lemma_str_bytes_are_chars(s: &str)
    requires
        vstd::string::is_ascii(s),
    ensures
        s.spec_bytes() == char_bytes(s@),
{
    broadcast use vstd::string::is_ascii_spec_bytes;

    assert(s.spec_bytes() =~= char_bytes(s@));
}

/// The position of the first dot of `s`, or its length if it has none.
pub(crate) fn find_first_dot(s: &str) -> (d: usize)
    ensures
        d == first_dot(s@),
{
    let len = s.unicode_len();
    let mut i: usize = 0;
    while i < len
        invariant
            0 <= i <= len,
            len == s@.len(),
            forall|j: int| 0 <= j < i ==> s@[j] != '.',
        decreases len - i,
    {
        let c = s.get_char(i);
        if c == '.' {
            proof {
                lemma_first_dot_at(s@, i as int);
            }
            return i;
        }
        i = i + 1;
    }
    proof {
        lemma_first_dot_at(s@, len as int);
    }
    len
}

/// A group zero-padded on the left to width 2.
pub(crate) fn pad_group(g: &str) -> (r: String)
    ensures
        r@ == pad2(g@),
{
    let len = g.unicode_len();
    if len >= 2 {
        g.to_owned()
    } else if len == 1 {
        let mut s = String::from_str("0");
        s.append(g);
        proof {
            reveal_strlit("0");
            assert(s@ =~= seq!['0'] + g@);
        }
        s
    } else {
        let s = String::from_str("00");
        proof {
            reveal_strlit("00");
            assert(s@ =~= seq!['0', '0']);
        }
        s
    }
}

/// The value of a decimal octet group, or `None` where the group is not a
/// decimal number in 0..=255.
pub(crate) fn parse_octet(g: &str) -> (r: Option<u8>)
    ensures
        r is Some <==> octet_valid(g@),
        r is Some ==> r->Some_0 as int == dec_val(g@),
{
    let len = g.unicode_len();
    if len == 0 {
        return None;
    }
    let mut acc: u32 = 0;
    let mut i: usize = 0;
    while i < len
        invariant
            0 <= i <= len,
            len == g@.len(),
            all_digits(g@.take(i as int)),
            acc as int == dec_val(g@.take(i as int)),
            acc <= 255,
        decreases len - i,
    {
        let c = g.get_char(i);
        let v = c as u32;
        if v < 48 || v > 57 {
            assert(!is_digit(g@[i as int]));
            return None;
        }
        let cand = acc * 10 + (v - 48);
        proof {
            assert(g@.take(i as int + 1).drop_last() =~= g@.take(i as int));
            assert(g@.take(i as int + 1).last() == g@[i as int]);
            assert(cand as int == dec_val(g@.take(i as int + 1)));
        }
        if cand > 255 {
            proof {
                if all_digits(g@) {
                    lemma_dec_val_take(g@, i as int + 1);
                }
            }
            return None;
        }
        acc = cand;
        i = i + 1;
    }
    proof {
        assert(g@.take(len as int) =~= g@);
    }
    Some(acc as u8)
}

/// The values of all dot-separated octet groups of `s`, or `None` where any
/// group is not a decimal number in 0..=255.
pub(crate) fn parse_dotted_octets(s: &str) -> (r: Option<Vec<u8>>)
    ensures
        r is Some <==> (forall|i: int|
            0 <= i < split_dots(s@).len() ==> octet_valid(#[trigger] split_dots(s@)[i])),
        r is Some ==> r->Some_0@.len() == split_dots(s@).len(),
        r is Some ==> forall|i: int|
            0 <= i < split_dots(s@).len() ==> r->Some_0@[i] as int == dec_val(
                #[trigger] split_dots(s@)[i],
            ),
    decreases s@.len(),
{
    proof {
        lemma_first_dot_le(s@);
    }
    let len = s.unicode_len();
    let d = find_first_dot(s);
    if d == len {
        assert(split_dots(s@) =~= seq![s@]);
        match parse_octet(s) {
            Some(b) => {
                let mut v: Vec<u8> = Vec::new();
                v.push(b);
                proof {
                    assert(octet_valid(split_dots(s@)[0]));
                    assert(v@[0] == b);
                }
                Some(v)
            },
            None => {
                assert(!octet_valid(split_dots(s@)[0]));
                None
            },
        }
    } else {
        let g = s.substring_char(0, d);
        let rest = s.substring_char(d + 1, len);
        assert(g@ =~= s@.take(d as int));
        assert(rest@ =~= s@.skip(d as int + 1));
        assert(split_dots(s@) =~= seq![g@] + split_dots(rest@));
        proof {
            assert(split_dots(s@)[0] == g@);
            assert forall|i: int| 1 <= i < split_dots(s@).len() implies split_dots(s@)[i]
                == split_dots(rest@)[i - 1] by {}
        }
        match parse_octet(g) {
            None => {
                assert(!octet_valid(split_dots(s@)[0]));
                None
            },
            Some(b) => {
                match parse_dotted_octets(rest) {
                    None => {
                        proof {
                            let j = choose|j: int|
                                0 <= j < split_dots(rest@).len() && !octet_valid(
                                    split_dots(rest@)[j],
                                );
                            assert(!octet_valid(split_dots(s@)[j + 1]));
                        }
                        None
                    },
                    Some(mut tail) => {
                        let ghost tail0 = tail@;
                        tail.insert(0, b);
                        proof {
                            assert(tail@ =~= seq![b] + tail0);
                            assert forall|i: int| 0 <= i < split_dots(s@).len() implies octet_valid(
                                #[trigger] split_dots(s@)[i],
                            ) && tail@[i] as int == dec_val(split_dots(s@)[i]) by {
                                if i > 0 {
                                    assert(octet_valid(split_dots(rest@)[i - 1]));
                                    assert(tail0[i - 1] as int == dec_val(split_dots(rest@)[i - 1]));
                                } else {
                                    assert(split_dots(s@)[0] == g@);
                                    assert(octet_valid(g@));
                                }
                            }
                        }
                        Some(tail)
                    },
                }
            },
        }
    }
}

} // verus!
