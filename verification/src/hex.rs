use vstd::prelude::*;

verus! {

/// The lowercase hexadecimal digit for a value below sixteen.
pub open spec fn hex_digit(n: int) -> char {
    if n < 10 {
        ((n + 48) as u8) as char
    } else {
        ((n + 87) as u8) as char
    }
}

/// A lowercase hexadecimal digit.
pub open spec fn is_lower_hex_digit(c: char) -> bool {
    ('0' <= c && c <= '9') || ('a' <= c && c <= 'f')
}

/// Text made of lowercase hexadecimal digits only.
pub open spec fn is_lower_hex_text(s: Seq<char>) -> bool {
    forall|i: int| 0 <= i < s.len() ==> is_lower_hex_digit(#[trigger] s[i])
}

/// Lowercase hexadecimal rendering, two digits per byte, most significant first.
pub open spec fn hex_lower_spec(bytes: Seq<u8>) -> Seq<char>
    decreases bytes.len(),
{
    if bytes.len() == 0 {
        Seq::empty()
    } else {
        hex_lower_spec(bytes.drop_last()) + seq![
            hex_digit(bytes.last() as int / 16),
            hex_digit(bytes.last() as int % 16),
        ]
    }
}

fn hex_digit_str(n: u8) -> (s: &'static str)
    requires
        n < 16,
    ensures
        s@ == seq![hex_digit(n as int)],
{
    match n {
        0 => { proof { reveal_strlit("0"); } "0" },
        1 => { proof { reveal_strlit("1"); } "1" },
        2 => { proof { reveal_strlit("2"); } "2" },
        3 => { proof { reveal_strlit("3"); } "3" },
        4 => { proof { reveal_strlit("4"); } "4" },
        5 => { proof { reveal_strlit("5"); } "5" },
        6 => { proof { reveal_strlit("6"); } "6" },
        7 => { proof { reveal_strlit("7"); } "7" },
        8 => { proof { reveal_strlit("8"); } "8" },
        9 => { proof { reveal_strlit("9"); } "9" },
        10 => { proof { reveal_strlit("a"); } "a" },
        11 => { proof { reveal_strlit("b"); } "b" },
        12 => { proof { reveal_strlit("c"); } "c" },
        13 => { proof { reveal_strlit("d"); } "d" },
        14 => { proof { reveal_strlit("e"); } "e" },
        _ => { proof { reveal_strlit("f"); } "f" },
    }
}

/// Renders `bytes` as lowercase hexadecimal, two digits per byte.
pub fn hex_lower(bytes: &[u8]) -> (res: String)
    ensures
        res@ == hex_lower_spec(bytes@),
{
    let mut res = String::new();
    let mut i: usize = 0;
    while i < bytes.len()
        invariant
            i <= bytes@.len(),
            res@ == hex_lower_spec(bytes@.take(i as int)),
        decreases bytes@.len() - i,
    {
        let b = bytes[i];
        res.append(hex_digit_str(b / 16));
        res.append(hex_digit_str(b % 16));
        proof {
            assert(bytes@.take(i + 1).drop_last() =~= bytes@.take(i as int));
        }
        i = i + 1;
    }
    proof {
        assert(bytes@.take(i as int) =~= bytes@);
    }
    res
}

/// The rendering has exactly two digits per byte.
pub proof fn lemma_hex_lower_len(bytes: Seq<u8>)
    ensures
        hex_lower_spec(bytes).len() == 2 * bytes.len(),
    decreases bytes.len(),
{
    if bytes.len() > 0 {
        lemma_hex_lower_len(bytes.drop_last());
    }
}

proof fn lemma_hex_digit_injective(n: int, m: int)
    requires
        0 <= n < 16,
        0 <= m < 16,
        hex_digit(n) == hex_digit(m),
    ensures
        n == m,
{
    assert(hex_digit(n) as int == if n < 10 { n + 48 } else { n + 87 });
    assert(hex_digit(m) as int == if m < 10 { m + 48 } else { m + 87 });
}

/// Two byte strings with the same rendering are equal: the rendering loses
/// no information.
pub proof fn lemma_hex_lower_injective(a: Seq<u8>, b: Seq<u8>)
    requires
        hex_lower_spec(a) == hex_lower_spec(b),
    ensures
        a == b,
    decreases a.len(),
{
    lemma_hex_lower_len(a);
    lemma_hex_lower_len(b);
    if a.len() > 0 {
        let ra = hex_lower_spec(a.drop_last());
        let rb = hex_lower_spec(b.drop_last());
        lemma_hex_lower_len(a.drop_last());
        lemma_hex_lower_len(b.drop_last());
        let full = hex_lower_spec(a);
        assert(full[ra.len() as int] == hex_digit(a.last() as int / 16));
        assert(full[ra.len() + 1int] == hex_digit(a.last() as int % 16));
        assert(full[rb.len() as int] == hex_digit(b.last() as int / 16));
        assert(full[rb.len() + 1int] == hex_digit(b.last() as int % 16));
        lemma_hex_digit_injective(a.last() as int / 16, b.last() as int / 16);
        lemma_hex_digit_injective(a.last() as int % 16, b.last() as int % 16);
        assert(a.last() == b.last());
        assert(ra =~= full.take(ra.len() as int));
        assert(rb =~= full.take(rb.len() as int));
        lemma_hex_lower_injective(a.drop_last(), b.drop_last());
        assert(a =~= a.drop_last().push(a.last()));
        assert(b =~= b.drop_last().push(b.last()));
    } else {
        assert(b.len() == 0);
        assert(a =~= b);
    }
}

/// Every character of the rendering is a lowercase hexadecimal digit.
pub proof fn lemma_hex_lower_digits(bytes: Seq<u8>)
    ensures
        is_lower_hex_text(hex_lower_spec(bytes)),
    decreases bytes.len(),
{
    if bytes.len() > 0 {
        lemma_hex_lower_digits(bytes.drop_last());
        lemma_hex_lower_len(bytes.drop_last());
        let r = hex_lower_spec(bytes.drop_last());
        let d = seq![hex_digit(bytes.last() as int / 16), hex_digit(bytes.last() as int % 16)];
        assert forall|i: int| 0 <= i < hex_lower_spec(bytes).len() implies is_lower_hex_digit(
            #[trigger] hex_lower_spec(bytes)[i],
        ) by {
            if i < r.len() {
                assert(hex_lower_spec(bytes)[i] == r[i]);
            } else {
                let n = if i == r.len() { bytes.last() as int / 16 } else { bytes.last() as int % 16 };
                assert(hex_lower_spec(bytes)[i] == hex_digit(n));
                assert(hex_digit(n) as int == if n < 10 { n + 48 } else { n + 87 });
            }
        }
    }
}

} // verus!
