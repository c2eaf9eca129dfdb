//! Text: comparison, name normalisation, number parsing and rendering.

use vstd::prelude::*;

verus! {

broadcast use vstd::string::group_string_axioms;

/// `String::push` of the standard library: appends one character.
pub assume_specification[ String::push ](s: &mut String, c: char)
    ensures
        final(s)@ == old(s)@.push(c),
;

/// The characters of `s`, in order.
pub fn chars_of(s: &str) -> (chars: Vec<char>)
    ensures
        chars@ == s@,
{
    let mut chars: Vec<char> = Vec::new();
    for c in iter: s.chars()
        invariant
            chars@ == s@.take(iter.index() as int),
            iter.seq() == s@,
    {
        chars.push(c);
        assert(s@.take(iter.index() + 1) =~= s@.take(iter.index() as int).push(c));
    }
    assert(s@.take(s@.len() as int) =~= s@);
    chars
}

/// The characters of an optional string.
pub open spec fn maybe_text(s: Option<String>) -> Option<Seq<char>> {
    match s {
        Some(s) => Some(s@),
        None => None,
    }
}

/// The characters of an optional string slice.
pub open spec fn maybe_str(s: Option<&str>) -> Option<Seq<char>> {
    match s {
        Some(s) => Some(s@),
        None => None,
    }
}

/// True when `chars` spells `literal`.
pub fn spells(chars: &Vec<char>, literal: &str) -> (same: bool)
    ensures
        same == (chars@ == literal@),
{
    let other = chars_of(literal);
    if chars.len() != other.len() {
        return false;
    }
    for i in 0..chars.len()
        invariant
            chars@.len() == other@.len(),
            other@ == literal@,
            chars@.take(i as int) =~= other@.take(i as int),
    {
        if chars[i] != other[i] {
            assert(chars@[i as int] != literal@[i as int]);
            return false;
        }
        assert(chars@.take(i + 1) =~= chars@.take(i as int).push(chars@[i as int]));
        assert(other@.take(i + 1) =~= other@.take(i as int).push(other@[i as int]));
    }
    assert(chars@.take(chars@.len() as int) =~= chars@);
    assert(other@.take(other@.len() as int) =~= other@);
    true
}

/// True when the two strings hold the same characters.
pub fn same_text(a: &str, b: &str) -> (same: bool)
    ensures
        same == (a@ == b@),
{
    spells(&chars_of(a), b)
}

/// An ASCII capital letter becomes its small letter; other characters stay.
pub open spec fn lower_char(c: char) -> char {
    if 'A' <= c <= 'Z' {
        ((c as u32) + 32) as char
    } else {
        c
    }
}

/// How a character counts in a name: letters without case, and `-` and space
/// as `_`.
pub open spec fn name_char(c: char) -> char {
    if c == '-' || c == ' ' {
        '_'
    } else {
        lower_char(c)
    }
}

/// A name as it is looked up.
pub open spec fn normalized(name: Seq<char>) -> Seq<char> {
    name.map_values(|c: char| name_char(c))
}

/// The lookup form of `name`: ASCII letters in lower case, `-` and space
/// replaced by `_`.
pub fn normalize(name: &str) -> (chars: Vec<char>)
    ensures
        chars@ == normalized(name@),
{
    let source = chars_of(name);
    let mut chars: Vec<char> = Vec::new();
    for i in 0..source.len()
        invariant
            source@ == name@,
            chars@ =~= normalized(name@).take(i as int),
    {
        let c: char = source[i];
        let lowered: char = if c == '-' || c == ' ' {
            '_'
        } else if 'A' <= c && c <= 'Z' {
            ((c as u8) + 32) as char
        } else {
            c
        };
        assert(lowered == name_char(c));
        chars.push(lowered);
    }
    chars
}

/// The decimal digit for `d`.
pub open spec fn digit_char(d: nat) -> char {
    ((48 + d) as u8) as char
}

/// `n` in decimal notation, without leading zeros.
pub open spec fn decimal(n: nat) -> Seq<char>
    decreases n,
{
    if n < 10 {
        seq![digit_char(n)]
    } else {
        decimal(n / 10).push(digit_char(n % 10))
    }
}

/// Appends `n` in decimal notation.
pub fn push_decimal(out: &mut String, n: u128)
    ensures
        final(out)@ == old(out)@ + decimal(n as nat),
    decreases n,
{
    if n >= 10 {
        push_decimal(out, n / 10);
    }
    let digit: char = (48u8 + ((n % 10) as u8)) as char;
    assert(digit == digit_char((n % 10) as nat));
    out.push(digit);
    assert(out@ =~= old(out)@ + decimal(n as nat));
}

/// The strings one after the other, with `sep` between neighbours.
pub open spec fn joined(parts: Seq<Seq<char>>, sep: Seq<char>) -> Seq<char>
    decreases parts.len(),
{
    if parts.len() == 0 {
        Seq::empty()
    } else if parts.len() == 1 {
        parts[0]
    } else {
        joined(parts.drop_last(), sep) + sep + parts.last()
    }
}

/// The characters of each string.
pub open spec fn texts(parts: Seq<&'static str>) -> Seq<Seq<char>> {
    parts.map_values(|part: &'static str| part@)
}

/// Joins `parts` with `sep` between neighbours.
pub fn join(parts: &Vec<&'static str>, sep: &str) -> (out: String)
    ensures
        out@ == joined(texts(parts@), sep@),
{
    let mut out = String::new();
    for i in 0..parts.len()
        invariant
            out@ == joined(texts(parts@.take(i as int)), sep@),
    {
        proof {
            let before = texts(parts@.take(i as int));
            let after = texts(parts@.take(i + 1));
            assert(after =~= before.push(parts@[i as int]@));
            assert(after.drop_last() =~= before);
        }
        if i > 0 {
            out.append(sep);
        }
        out.append(parts[i]);
        assert(out@ =~= joined(texts(parts@.take(i + 1)), sep@));
    }
    assert(parts@.take(parts@.len() as int) =~= parts@);
    out
}

/// True when `needle` stands in `hay` at position `at`.
pub open spec fn occurs_at(hay: Seq<char>, needle: Seq<char>, at: int) -> bool {
    &&& 0 <= at <= hay.len() - needle.len()
    &&& hay.subrange(at, at + needle.len()) == needle
}

/// True when `needle` is a contiguous part of `hay`.
pub open spec fn is_part_of(hay: Seq<char>, needle: Seq<char>) -> bool {
    exists|at: int| occurs_at(hay, needle, at)
}

/// True when `needle` stands in `hay` at position `at`.
fn found_at(hay: &Vec<char>, needle: &Vec<char>, at: usize) -> (found: bool)
    requires
        at + needle@.len() <= hay@.len(),
    ensures
        found == occurs_at(hay@, needle@, at as int),
{
    for i in 0..needle.len()
        invariant
            at + needle@.len() <= hay@.len(),
            forall|k: int| 0 <= k < i ==> hay@[at + k] == needle@[k],
    {
        assert(at + i < hay.len());
        if hay[at + i] != needle[i] {
            assert(hay@.subrange(at as int, at + needle@.len())[i as int] != needle@[i as int]);
            return false;
        }
    }
    assert(hay@.subrange(at as int, at + needle@.len()) =~= needle@);
    true
}

/// True when `needle` is a contiguous part of `hay`.
pub fn contains(hay: &Vec<char>, needle: &Vec<char>) -> (found: bool)
    ensures
        found == is_part_of(hay@, needle@),
{
    if needle.len() > hay.len() {
        return false;
    }
    let last: usize = hay.len() - needle.len();
    let mut at: usize = 0;
    while at <= last
        invariant
            last == hay@.len() - needle@.len(),
            at <= last + 1,
            last < usize::MAX || needle@.len() == 0,
            forall|k: int| 0 <= k < at ==> !occurs_at(hay@, needle@, k),
        decreases last + 1 - at,
    {
        if found_at(hay, needle, at) {
            assert(occurs_at(hay@, needle@, at as int));
            return true;
        }
        if at == last {
            return false;
        }
        at = at + 1;
    }
    false
}

/// The value of `c` as a digit of the given radix (at most 16), if it is one.
pub open spec fn digit_of(c: char, radix: nat) -> Option<nat> {
    let value = if '0' <= c <= '9' {
        Some((c as nat - '0' as nat) as nat)
    } else if 'a' <= c <= 'f' {
        Some((c as nat - 'a' as nat + 10) as nat)
    } else if 'A' <= c <= 'F' {
        Some((c as nat - 'A' as nat + 10) as nat)
    } else {
        None
    };
    match value {
        Some(d) => if d < radix {
            Some(d)
        } else {
            None
        },
        None => None,
    }
}

/// True when every character is a digit of the radix.
pub open spec fn all_digits(s: Seq<char>, radix: nat) -> bool {
    forall|i: int| 0 <= i < s.len() ==> digit_of(#[trigger] s[i], radix) is Some
}

/// The number that the digits `s` write in the radix.
pub open spec fn positional(s: Seq<char>, radix: nat) -> nat
    decreases s.len(),
{
    if s.len() == 0 {
        0
    } else {
        positional(s.drop_last(), radix) * radix + digit_of(s.last(), radix).unwrap_or(0)
    }
}

/// An unsigned number up to `limit`: an optional `+`, then one or more digits.
pub open spec fn unsigned_number(s: Seq<char>, radix: nat, limit: nat) -> Option<nat> {
    let digits = if s.len() > 0 && s[0] == '+' {
        s.skip(1)
    } else {
        s
    };
    if digits.len() > 0 && all_digits(digits, radix) && positional(digits, radix) <= limit {
        Some(positional(digits, radix))
    } else {
        None
    }
}

proof fn lemma_positional_grows(s: Seq<char>, radix: nat, k: int)
    requires
        0 <= k <= s.len(),
        radix >= 1,
    ensures
        positional(s.take(k), radix) <= positional(s, radix),
    decreases s.len() - k,
{
    if k == s.len() {
        assert(s.take(k) =~= s);
    } else {
        lemma_positional_grows(s, radix, k + 1);
        assert(s.take(k + 1).drop_last() =~= s.take(k));
        let p = positional(s.take(k), radix);
        assert(p <= p * radix) by (nonlinear_arith)
            requires
                radix >= 1,
        ;
    }
}

fn digit(c: char, radix: u64) -> (value: Option<u64>)
    ensures
        match (value, digit_of(c, radix as nat)) {
            (Some(d), Some(e)) => d == e,
            (None, None) => true,
            _ => false,
        },
{
    let value: u64 = if '0' <= c && c <= '9' {
        (c as u64) - ('0' as u64)
    } else if 'a' <= c && c <= 'f' {
        (c as u64) - ('a' as u64) + 10
    } else if 'A' <= c && c <= 'F' {
        (c as u64) - ('A' as u64) + 10
    } else {
        return None;
    };
    if value < radix {
        Some(value)
    } else {
        None
    }
}

/// Reads the characters from `start` on as an unsigned number up to `limit`.
pub fn parse_unsigned(chars: &Vec<char>, start: usize, radix: u64, limit: u64) -> (number: Option<
    u64,
>)
    requires
        start <= chars@.len(),
        1 <= radix <= 16,
    ensures
        match (
            number,
            unsigned_number(chars@.skip(start as int), radix as nat, limit as nat),
        ) {
            (Some(n), Some(m)) => n == m,
            (None, None) => true,
            _ => false,
        },
{
    let ghost whole = chars@.skip(start as int);
    let first: usize = if start < chars.len() && chars[start] == '+' {
        start + 1
    } else {
        start
    };
    let ghost digits = chars@.skip(first as int);
    proof {
        assert(whole.len() > 0 && whole[0] == '+' ==> digits =~= whole.skip(1));
        assert(!(whole.len() > 0 && whole[0] == '+') ==> digits == whole);
    }
    if first == chars.len() {
        return None;
    }
    let mut value: u64 = 0;
    for i in first..chars.len()
        invariant
            first <= chars@.len(),
            1 <= radix <= 16,
            digits == chars@.skip(first as int),
            value == positional(digits.take(i - first), radix as nat),
            value <= limit,
            all_digits(digits.take(i - first), radix as nat),
            whole == chars@.skip(start as int),
            start <= chars@.len(),
            digits == (if whole.len() > 0 && whole[0] == '+' { whole.skip(1) } else { whole }),
    {
        let ghost k = i - first;
        proof {
            assert(digits[k] == chars@[i as int]);
            assert(digits.take(k + 1).drop_last() =~= digits.take(k));
            assert(digits.take(k + 1).last() == digits[k]);
        }
        match digit(chars[i], radix) {
            None => {
                assert(digit_of(digits[k], radix as nat) is None);
                return None;
            },
            Some(d) => {
                assert((value as u128) * (radix as u128) <= 0xffff_ffff_ffff_ffffu128 * 16)
                    by (nonlinear_arith)
                    requires
                        value <= 0xffff_ffff_ffff_ffffu64,
                        radix <= 16,
                ;
                let wide: u128 = (value as u128) * (radix as u128) + (d as u128);
                proof {
                    assert(wide == positional(digits.take(k + 1), radix as nat));
                }
                if wide > limit as u128 {
                    proof {
                        lemma_positional_grows(digits, radix as nat, k + 1);
                    }
                    return None;
                }
                value = wide as u64;
                assert forall|j: int| 0 <= j < k + 1 implies digit_of(
                    #[trigger] digits.take(k + 1)[j],
                    radix as nat,
                ) is Some by {
                    if j < k {
                        assert(digits.take(k)[j] == digits.take(k + 1)[j]);
                    }
                }
            },
        }
    }
    assert(digits.take(digits.len() as int) =~= digits);
    Some(value)
}

/// Decimal notation is read back.
pub proof fn lemma_decimal_is_read_back(n: nat)
    ensures
        decimal(n).len() > 0,
        all_digits(decimal(n), 10),
        forall|i: int| 0 <= i < decimal(n).len() ==> '0' <= #[trigger] decimal(n)[i] <= '9',
        positional(decimal(n), 10) == n,
        unsigned_number(decimal(n), 10, n) == Some(n),
    decreases n,
{
    let digits = decimal(n);
    assert(digits.last() == digit_char(n % 10));
    assert('0' <= digits.last() <= '9');
    assert(digit_of(digits.last(), 10) == Some(n % 10));
    if n >= 10 {
        lemma_decimal_is_read_back(n / 10);
        assert(digits.drop_last() =~= decimal(n / 10));
        assert forall|i: int| 0 <= i < digits.len() implies '0' <= #[trigger] digits[i] <= '9'
            && digit_of(digits[i], 10) is Some by {
            if i < digits.len() - 1 {
                assert(digits[i] == decimal(n / 10)[i]);
            }
        }
    } else {
        assert(digits.drop_last() =~= Seq::empty());
        assert(positional(digits.drop_last(), 10) == 0);
    }
    assert(digits[0] != '+');
}

/// The hexadecimal digit for `d`.
pub open spec fn hex_char(d: nat) -> char {
    if d < 10 {
        digit_char(d)
    } else {
        ((87 + d) as u8) as char
    }
}

/// `n` in hexadecimal notation with small letters, without leading zeros.
pub open spec fn hexadecimal(n: nat) -> Seq<char>
    decreases n,
{
    if n < 16 {
        seq![hex_char(n)]
    } else {
        hexadecimal(n / 16).push(hex_char(n % 16))
    }
}

/// Hexadecimal notation is read back.
pub proof fn lemma_hexadecimal_is_read_back(n: nat)
    ensures
        hexadecimal(n).len() > 0,
        all_digits(hexadecimal(n), 16),
        positional(hexadecimal(n), 16) == n,
    decreases n,
{
    let digits = hexadecimal(n);
    assert(digits.last() == hex_char(n % 16));
    assert(digit_of(digits.last(), 16) == Some(n % 16));
    if n >= 16 {
        lemma_hexadecimal_is_read_back(n / 16);
        assert(digits.drop_last() =~= hexadecimal(n / 16));
        assert forall|i: int| 0 <= i < digits.len() implies digit_of(
            #[trigger] digits[i],
            16,
        ) is Some by {
            if i < digits.len() - 1 {
                assert(digits[i] == hexadecimal(n / 16)[i]);
            }
        }
    } else {
        assert(digits.drop_last() =~= Seq::empty());
        assert(positional(digits.drop_last(), 16) == 0);
    }
}

/// Digits mean the same in lookup form.
pub proof fn lemma_normalized_digits(s: Seq<char>)
    requires
        all_digits(s, 16),
    ensures
        normalized(s).len() == s.len(),
        all_digits(normalized(s), 16),
        positional(normalized(s), 16) == positional(s, 16),
        forall|i: int| 0 <= i < s.len() ==> #[trigger] normalized(s)[i] != '+',
    decreases s.len(),
{
    assert forall|i: int| 0 <= i < s.len() implies digit_of(#[trigger] normalized(s)[i], 16)
        == digit_of(s[i], 16) && digit_of(s[i], 16) is Some && normalized(s)[i] != '+' by {
        assert(digit_of(s[i], 16) is Some);
        assert(normalized(s)[i] == name_char(s[i]));
    }
    if s.len() > 0 {
        assert forall|i: int| 0 <= i < s.drop_last().len() implies digit_of(
            #[trigger] s.drop_last()[i],
            16,
        ) is Some by {
            assert(digit_of(s[i], 16) is Some);
        }
        lemma_normalized_digits(s.drop_last());
        assert(normalized(s).drop_last() =~= normalized(s.drop_last()));
        assert(normalized(s).last() == normalized(s)[s.len() - 1]);
    }
}

/// A white space character of Unicode.
pub open spec fn is_white_space(c: char) -> bool {
    let point = c as u32;
    ||| 0x9 <= point <= 0xd
    ||| point == 0x20
    ||| point == 0x85
    ||| point == 0xa0
    ||| point == 0x1680
    ||| 0x2000 <= point <= 0x200a
    ||| point == 0x2028
    ||| point == 0x2029
    ||| point == 0x202f
    ||| point == 0x205f
    ||| point == 0x3000
}

/// Nothing but white space.
pub open spec fn blank(line: Seq<char>) -> bool {
    forall|i: int| 0 <= i < line.len() ==> is_white_space(#[trigger] line[i])
}

/// True when the line holds nothing but white space.
pub fn is_blank(line: &str) -> (yes: bool)
    ensures
        yes == blank(line@),
{
    let chars = chars_of(line);
    for i in 0..chars.len()
        invariant
            chars@ == line@,
            forall|k: int| 0 <= k < i ==> is_white_space(#[trigger] line@[k]),
    {
        let point: u32 = chars[i] as u32;
        let white = (0x9 <= point && point <= 0xd) || point == 0x20 || point == 0x85 || point
            == 0xa0 || point == 0x1680 || (0x2000 <= point && point <= 0x200a) || point == 0x2028
            || point == 0x2029 || point == 0x202f || point == 0x205f || point == 0x3000;
        assert(white == is_white_space(line@[i as int]));
        if !white {
            return false;
        }
    }
    true
}

/// Two characters that a lookup does not tell apart: the same one, one letter in two
/// cases, or two of `-`, space and `_`.
pub open spec fn alike(a: char, b: char) -> bool {
    ||| a == b
    ||| 'A' <= a <= 'Z' && b as u32 == a as u32 + 32
    ||| 'A' <= b <= 'Z' && a as u32 == b as u32 + 32
    ||| (a == '-' || a == ' ' || a == '_') && (b == '-' || b == ' ' || b == '_')
}

/// A lookup tells two names apart exactly where their lengths differ or two of their
/// characters are not alike, and it leaves a name in small letters as it is.
pub proof fn law_lookup_ignores_case(a: Seq<char>, b: Seq<char>)
    ensures
        normalized(a) == normalized(b) <==> (a.len() == b.len() && forall|i: int|
            0 <= i < a.len() ==> alike(#[trigger] a[i], b[i])),
        (forall|i: int|
            0 <= i < a.len() ==> !('A' <= (#[trigger] a[i]) <= 'Z') && a[i] != '-' && a[i] != ' ')
            ==> normalized(a) == a,
{
    if normalized(a) == normalized(b) {
        assert(normalized(a).len() == a.len());
        assert(normalized(b).len() == b.len());
        assert forall|i: int| 0 <= i < a.len() implies alike(#[trigger] a[i], b[i]) by {
            assert(normalized(a)[i] == name_char(a[i]));
            assert(normalized(b)[i] == name_char(b[i]));
        }
    }
    if a.len() == b.len() && forall|i: int| 0 <= i < a.len() ==> alike(#[trigger] a[i], b[i]) {
        assert forall|i: int| 0 <= i < a.len() implies #[trigger] normalized(a)[i] == normalized(
            b,
        )[i] by {
            assert(alike(a[i], b[i]));
        }
        assert(normalized(a) =~= normalized(b));
    }
    if forall|i: int|
        0 <= i < a.len() ==> !('A' <= (#[trigger] a[i]) <= 'Z') && a[i] != '-' && a[i] != ' ' {
        assert(normalized(a) =~= a);
    }
}

/// Joining one part gives it, joining none gives nothing, and joining two lists gives
/// what each of them gives with the separator between.
pub proof fn law_joining_in_parts(
    first: Seq<Seq<char>>,
    second: Seq<Seq<char>>,
    part: Seq<char>,
    sep: Seq<char>,
)
    ensures
        joined(Seq::empty(), sep) == Seq::<char>::empty(),
        joined(seq![part], sep) == part,
        first.len() > 0 && second.len() > 0 ==> joined(first + second, sep) == joined(first, sep)
            + sep + joined(second, sep),
    decreases second.len(),
{
    if first.len() > 0 && second.len() > 0 {
        let both = first + second;
        assert(both.drop_last() =~= first + second.drop_last());
        assert(both.last() == second.last());
        if second.len() == 1 {
            assert(second.drop_last() =~= Seq::empty());
            assert(both.drop_last() =~= first);
        } else {
            law_joining_in_parts(first, second.drop_last(), part, sep);
            assert(joined(both, sep) =~= joined(first, sep) + sep + joined(second, sep));
        }
    }
}

/// A text is part of another exactly if something before it and something after it
/// make the other.
pub proof fn law_parts_of_a_text(before: Seq<char>, part: Seq<char>, after: Seq<char>)
    ensures
        is_part_of(before + part + after, part),
{
    let hay = before + part + after;
    assert(hay.subrange(before.len() as int, (before.len() + part.len()) as int) =~= part);
    assert(occurs_at(hay, part, before.len() as int));
}

/// Where a text is part of another, the other falls into what stands before it, the
/// text, and what stands after it.
pub proof fn law_text_around_a_part(hay: Seq<char>, part: Seq<char>)
    requires
        is_part_of(hay, part),
    ensures
        exists|before: Seq<char>, after: Seq<char>| hay == #[trigger] (before + part + after),
{
    let at = choose|at: int| occurs_at(hay, part, at);
    let before = hay.take(at);
    let after = hay.skip(at + part.len());
    assert(hay =~= before + part + after);
}

/// A number that is read is written in digits, a sign in front changes nothing, and it
/// is read exactly up to the limit.
pub proof fn law_number_reading(n: nat, limit: nat, text: Seq<char>, at: int)
    ensures
        unsigned_number(decimal(n), 10, limit) == (if n <= limit {
            Some(n)
        } else {
            None
        }),
        unsigned_number(seq!['+'] + decimal(n), 10, limit) == unsigned_number(
            decimal(n),
            10,
            limit,
        ),
        unsigned_number(Seq::empty(), 10, limit) is None,
        0 < at < text.len() && !('0' <= text[at] <= '9') ==> unsigned_number(
            text,
            10,
            limit,
        ) is None,
        text.len() > 0 && text[0] != '+' && !('0' <= text[0] <= '9') ==> unsigned_number(
            text,
            10,
            limit,
        ) is None,
{
    lemma_decimal_is_read_back(n);
    assert((seq!['+'] + decimal(n)).skip(1) =~= decimal(n));
    assert(decimal(n)[0] != '+');
    if 0 < at < text.len() && !('0' <= text[at] <= '9') {
        if text[0] == '+' {
            assert(text.skip(1)[at - 1] == text[at]);
            assert(digit_of(text.skip(1)[at - 1], 10) is None);
        } else {
            assert(digit_of(text[at], 10) is None);
        }
    }
    if text.len() > 0 && text[0] != '+' && !('0' <= text[0] <= '9') {
        assert(digit_of(text[0], 10) is None);
    }
}

/// A line is blank exactly if its parts are; one with a visible ASCII character is
/// not, and one of spaces, tabs and line ends is.
pub proof fn law_blank_lines(first: Seq<char>, second: Seq<char>, c: char)
    ensures
        blank(first + second) <==> blank(first) && blank(second),
        blank(Seq::empty()),
        c == ' ' || c == '\t' || c == '\n' || c == '\r' ==> blank(seq![c]),
        0x21 <= c as u32 <= 0x7e ==> !blank(seq![c]),
{
    let both = first + second;
    if blank(both) {
        assert forall|i: int| 0 <= i < first.len() implies is_white_space(#[trigger] first[i]) by {
            assert(is_white_space(both[i]));
        }
        assert forall|i: int| 0 <= i < second.len() implies is_white_space(
            #[trigger] second[i],
        ) by {
            assert(is_white_space(both[first.len() + i]));
        }
    }
    assert(seq![c][0] == c);
}

} // verus!
