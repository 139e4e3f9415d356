use vstd::prelude::*;

verus! {

/// Whether a character is an ASCII decimal digit.
pub open spec fn is_digit(c: char) -> bool {
    '0' <= c && c <= '9'
}

/// The value of a string of decimal digits.
pub open spec fn digits_value(s: Seq<char>) -> int
    decreases s.len(),
{
    if s.len() == 0 {
        0
    } else {
        digits_value(s.drop_last()) * 10 + (s.last() as int - '0' as int)
    }
}

/// The digits of a signed decimal number: without its sign, if it has one.
pub open spec fn unsigned_part(s: Seq<char>) -> Seq<char> {
    if s.len() > 0 && (s[0] == '-' || s[0] == '+') {
        s.drop_first()
    } else {
        s
    }
}

/// What `str::parse::<i32>` gives for `s`: an optional sign followed by at
/// least one decimal digit and nothing else, whose value fits in an `i32`.
pub open spec fn parse_i32_spec(s: Seq<char>) -> Option<i32> {
    let digits = unsigned_part(s);
    let value = if s.len() > 0 && s[0] == '-' {
        -digits_value(digits)
    } else {
        digits_value(digits)
    };
    if digits.len() > 0 && (forall|i: int| 0 <= i < digits.len() ==> is_digit(#[trigger] digits[i]))
        && i32::MIN <= value <= i32::MAX {
        Some(value as i32)
    } else {
        None
    }
}

/// The identifier of a station as the price feed writes it; unreadable
/// identifiers count as zero.
pub open spec fn station_id_spec(s: Seq<char>) -> i32 {
    match parse_i32_spec(s) {
        Some(v) => v,
        None => 0,
    }
}

proof fn lemma_digits_value_prefix(s: Seq<char>, i: int)
    requires
        0 <= i <= s.len(),
        forall|j: int| 0 <= j < s.len() ==> is_digit(#[trigger] s[j]),
    ensures
        digits_value(s) >= digits_value(s.take(i)) >= 0,
    decreases s.len(),
{
    if s.len() > 0 {
        if i == s.len() {
            assert(s.take(i) =~= s);
            lemma_digits_value_prefix(s.drop_last(), i - 1);
        } else {
            lemma_digits_value_prefix(s.drop_last(), i);
            assert(s.drop_last().take(i) =~= s.take(i));
        }
        lemma_digits_value_prefix(s.drop_last(), s.len() - 1);
        assert(s.drop_last().take(s.len() - 1) =~= s.drop_last());
    } else {
        assert(s.take(i) =~= s);
    }
}

/// Ten to the power `n`.
pub open spec fn pow10(n: nat) -> int
    decreases n,
{
    if n == 0 {
        1
    } else {
        10 * pow10((n - 1) as nat)
    }
}

/// A string of ASCII decimal digits, at least one.
pub open spec fn is_decimal_text(s: Seq<char>) -> bool {
    s.len() > 0 && forall|i: int| 0 <= i < s.len() ==> '0' <= #[trigger] s[i] && s[i] <= '9'
}

proof fn lemma_digits_value_bound(s: Seq<char>)
    requires
        forall|i: int| 0 <= i < s.len() ==> '0' <= #[trigger] s[i] && s[i] <= '9',
    ensures
        0 <= digits_value(s) < pow10(s.len()),
    decreases s.len(),
{
    if s.len() > 0 {
        assert forall|i: int| 0 <= i < s.drop_last().len() implies '0' <= #[trigger] s.drop_last()[i]
            && s.drop_last()[i] <= '9' by {
            assert(s.drop_last()[i] == s[i]);
        }
        lemma_digits_value_bound(s.drop_last());
        assert(s.last() == s[s.len() - 1]);
    }
}

proof fn lemma_pow10_nine(n: nat)
    requires
        n <= 9,
    ensures
        pow10(n) <= 1_000_000_000,
{
    reveal_with_fuel(pow10, 10);
    if n == 0 {
    } else if n == 1 {
    } else if n == 2 {
    } else if n == 3 {
    } else if n == 4 {
    } else if n == 5 {
    } else if n == 6 {
    } else if n == 7 {
    } else if n == 8 {
    } else {
        assert(n == 9);
    }
}

/// Every string of one to nine decimal digits is read as its decimal value:
/// every digit from `0` to `9` counts, and the value is the digits' number,
/// below a thousand million.
pub proof fn lemma_digit_strings_are_ids(s: Seq<char>)
    requires
        is_decimal_text(s),
        s.len() <= 9,
    ensures
        station_id_spec(s) == digits_value(s),
        0 <= station_id_spec(s) < pow10(s.len()),
        pow10(s.len()) <= 1_000_000_000,
{
    lemma_digits_value_bound(s);
    lemma_pow10_nine(s.len());
    assert(unsigned_part(s) == s);
    assert forall|i: int| 0 <= i < s.len() implies is_digit(#[trigger] s[i]) by {}
}

/// A digit appended to a short identifier multiplies it by ten and adds the
/// digit's value.
pub proof fn lemma_appended_digit(s: Seq<char>, c: char)
    requires
        is_decimal_text(s),
        s.len() <= 8,
        '0' <= c && c <= '9',
    ensures
        station_id_spec(s.push(c)) == 10 * station_id_spec(s) + (c as int - '0' as int),
{
    let t = s.push(c);
    assert forall|i: int| 0 <= i < t.len() implies '0' <= #[trigger] t[i] && t[i] <= '9' by {
        if i < s.len() {
            assert(t[i] == s[i]);
        }
    }
    lemma_digit_strings_are_ids(s);
    lemma_digit_strings_are_ids(t);
    assert(t.drop_last() =~= s);
}

/// A minus sign before a short identifier negates it; a plus sign keeps it.
pub proof fn lemma_signed_ids(s: Seq<char>)
    requires
        is_decimal_text(s),
        s.len() <= 9,
    ensures
        station_id_spec(seq!['-'] + s) == -station_id_spec(s),
        station_id_spec(seq!['+'] + s) == station_id_spec(s),
{
    lemma_digit_strings_are_ids(s);
    assert((seq!['-'] + s).drop_first() =~= s);
    assert((seq!['+'] + s).drop_first() =~= s);
    assert(unsigned_part(seq!['-'] + s) == s);
    assert(unsigned_part(seq!['+'] + s) == s);
    assert forall|i: int| 0 <= i < s.len() implies is_digit(#[trigger] s[i]) by {}
}

/// Reads a station identifier: the value of the text as an `i32`, or zero
/// when the text is not one.
pub fn station_id(text: &str) -> (res: i32)
    ensures
        res == station_id_spec(text@),
{
    match parse_i32(text) {
        Some(v) => v,
        None => 0,
    }
}

fn parse_i32(text: &str) -> (res: Option<i32>)
    ensures
        res == parse_i32_spec(text@),
{
    let ghost s = text@;
    let n = text.unicode_len();
    if n == 0 {
        return None;
    }
    let first = text.get_char(0);
    let negative = first == '-';
    let start: usize = if first == '-' || first == '+' { 1 } else { 0 };
    let ghost digits = unsigned_part(s);
    proof {
        if start == 1 {
            assert(digits =~= s.skip(1));
        } else {
            assert(digits =~= s.skip(0));
        }
    }
    if start >= n {
        return None;
    }
    let mut acc: i64 = 0;
    let mut i: usize = start;
    while i < n
        invariant
            s == text@,
            n == s.len(),
            start <= i <= n,
            digits == s.skip(start as int),
            digits == unsigned_part(s),
            s.len() > 0,
            negative == (s[0] == '-'),
            forall|j: int| 0 <= j < i - start ==> is_digit(#[trigger] digits[j]),
            acc == digits_value(digits.take(i - start)),
            0 <= acc <= 2147483648,
        decreases n - i,
    {
        let c = text.get_char(i);
        if c < '0' || c > '9' {
            proof {
                assert(digits[i - start] == c);
                assert(!is_digit(digits[i - start]));
            }
            return None;
        }
        let d = (c as u32 - '0' as u32) as i64;
        proof {
            assert(digits.take(i - start + 1).drop_last() =~= digits.take(i - start));
            assert(digits.take(i - start + 1).last() == c);
            assert(digits[i - start] == c);
        }
        acc = acc * 10 + d;
        i = i + 1;
        if acc > 2147483648 {
            proof {
                assert(acc == digits_value(digits.take(i - start)));
                if forall|j: int| 0 <= j < digits.len() ==> is_digit(#[trigger] digits[j]) {
                    lemma_digits_value_prefix(digits, i - start);
                    assert(digits_value(digits) > 2147483648);
                }
            }
            return None;
        }
    }
    proof {
        assert(digits.take(n - start) =~= digits);
    }
    let value: i64 = if negative { -acc } else { acc };
    if value > 2147483647 {
        return None;
    }
    Some(value as i32)
}

/// Text with every comma turned into a point.
pub open spec fn commas_to_points(s: Seq<char>) -> Seq<char> {
    s.map_values(|c: char| if c == ',' { '.' } else { c })
}

/// The text of a decimal number written with a decimal comma, in the form
/// that number parsing expects; `None` for empty text, which stands for a
/// missing value.
pub fn decimal_text(text: &str) -> (res: Option<String>)
    ensures
        match res {
            Some(r) => text@.len() > 0 && r@ == commas_to_points(text@),
            None => text@.len() == 0,
        },
{
    let ghost s = text@;
    let n = text.unicode_len();
    if n == 0 {
        return None;
    }
    let point: &'static str = ".";
    proof {
        reveal_strlit(".");
    }
    let mut out = String::new();
    let mut seg: usize = 0;
    let mut i: usize = 0;
    while i < n
        invariant
            s == text@,
            n == s.len(),
            point@ == seq!['.'],
            seg <= i <= n,
            out@ + s.subrange(seg as int, i as int) == commas_to_points(s.take(i as int)),
            forall|j: int| seg <= j < i ==> s[j] != ',',
        decreases n - i,
    {
        let c = text.get_char(i);
        if c == ',' {
            let piece = text.substring_char(seg, i);
            out.append(piece);
            out.append(point);
            proof {
                assert(commas_to_points(s.take(i + 1)) =~= commas_to_points(s.take(i as int)).push('.'));
                assert(s.subrange(i + 1, i + 1) =~= Seq::<char>::empty());
            }
            seg = i + 1;
        } else {
            proof {
                assert(commas_to_points(s.take(i + 1)) =~= commas_to_points(s.take(i as int)).push(c));
                assert(s.subrange(seg as int, i + 1) =~= s.subrange(seg as int, i as int).push(c));
            }
        }
        i = i + 1;
    }
    let rest = text.substring_char(seg, n);
    out.append(rest);
    proof {
        assert(s.take(n as int) =~= s);
    }
    Some(out)
}

} // verus!
