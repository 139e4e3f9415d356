use vstd::prelude::*;
use vstd::utf8::{
    codepoint_width_1, decode_utf8, encode_utf8, encode_utf8_decode_utf8, is_leading_byte_width_1,
    pop_first_scalar, valid_utf8,
};

verus! {

/// Unicode `White_Space`, the property that `char::is_whitespace` (and so
/// `str::trim`) tests.
pub open spec fn is_whitespace_char(c: char) -> bool {
    ||| c == '\t'
    ||| c == '\n'
    ||| c == '\u{0B}'
    ||| c == '\u{0C}'
    ||| c == '\r'
    ||| c == ' '
    ||| c == '\u{85}'
    ||| c == '\u{A0}'
    ||| c == '\u{1680}'
    ||| ('\u{2000}' <= c && c <= '\u{200A}')
    ||| c == '\u{2028}'
    ||| c == '\u{2029}'
    ||| c == '\u{202F}'
    ||| c == '\u{205F}'
    ||| c == '\u{3000}'
}

/// Text without its leading white space.
pub open spec fn trim_start_spec(s: Seq<char>) -> Seq<char>
    decreases s.len(),
{
    if s.len() > 0 && is_whitespace_char(s[0]) {
        trim_start_spec(s.drop_first())
    } else {
        s
    }
}

/// Text without its trailing white space.
pub open spec fn trim_end_spec(s: Seq<char>) -> Seq<char>
    decreases s.len(),
{
    if s.len() > 0 && is_whitespace_char(s.last()) {
        trim_end_spec(s.drop_last())
    } else {
        s
    }
}

/// Text without white space at either end, as `str::trim` gives it.
pub open spec fn trim_spec(s: Seq<char>) -> Seq<char> {
    trim_end_spec(trim_start_spec(s))
}

/// The attribute marker of a common name.
pub open spec fn cn_marker() -> Seq<char> {
    seq!['C', 'N', '=']
}

pub open spec fn starts_with_cn(s: Seq<char>) -> bool {
    s.len() >= 3 && s.take(3) == cn_marker()
}

/// A component of a distinguished name that holds the common name.
pub open spec fn is_cn_component(piece: Seq<char>) -> bool {
    starts_with_cn(trim_spec(piece))
}

/// The length of the first comma-separated component.
pub open spec fn first_component_len(s: Seq<char>) -> nat
    decreases s.len(),
{
    if s.len() == 0 || s[0] == ',' {
        0
    } else {
        1 + first_component_len(s.drop_first())
    }
}

/// The first comma-separated component that holds the common name.
pub open spec fn find_cn_component(s: Seq<char>) -> Option<Seq<char>>
    decreases s.len(),
{
    let k = first_component_len(s);
    let piece = s.take(k as int);
    if is_cn_component(piece) {
        Some(piece)
    } else if k >= s.len() {
        None
    } else {
        find_cn_component(s.skip(k + 1int))
    }
}

/// Text with every occurrence of the common name marker removed, scanning
/// from the left as `str::replace` does.
pub open spec fn remove_cn_markers(s: Seq<char>) -> Seq<char>
    decreases s.len(),
{
    if s.len() == 0 {
        Seq::empty()
    } else if starts_with_cn(s) {
        remove_cn_markers(s.skip(3))
    } else {
        seq![s[0]] + remove_cn_markers(s.drop_first())
    }
}

/// The name given to a client whose subject names no common name.
pub open spec fn unknown_user() -> Seq<char> {
    seq!['U', 'n', 'k', 'n', 'o', 'w', 'n']
}

/// The user name read from a client certificate's subject distinguished
/// name: the first component whose trimmed text starts with `CN=`, with every
/// `CN=` removed from it; `Unknown` when there is none.
pub open spec fn username_spec(dn: Seq<char>) -> Seq<char> {
    match find_cn_component(dn) {
        Some(piece) => remove_cn_markers(piece),
        None => unknown_user(),
    }
}

fn is_whitespace(c: char) -> (res: bool)
    ensures
        res == is_whitespace_char(c),
{
    c == '\t' || c == '\n' || c == '\u{0B}' || c == '\u{0C}' || c == '\r' || c == ' ' || c
        == '\u{85}' || c == '\u{A0}' || c == '\u{1680}' || ('\u{2000}' <= c && c <= '\u{200A}')
        || c == '\u{2028}' || c == '\u{2029}' || c == '\u{202F}' || c == '\u{205F}' || c
        == '\u{3000}'
}

proof fn lemma_first_component_len(t: Seq<char>, k: int)
    requires
        0 <= k <= t.len(),
        forall|j: int| 0 <= j < k ==> t[j] != ',',
        k == t.len() || t[k] == ',',
    ensures
        first_component_len(t) == k,
    decreases k,
{
    if k > 0 {
        lemma_first_component_len(t.drop_first(), k - 1);
    }
}

proof fn lemma_trim_start(t: Seq<char>, p: int)
    requires
        0 <= p <= t.len(),
        forall|j: int| 0 <= j < p ==> is_whitespace_char(t[j]),
        p == t.len() || !is_whitespace_char(t[p]),
    ensures
        trim_start_spec(t) == t.skip(p),
    decreases p,
{
    if p > 0 {
        lemma_trim_start(t.drop_first(), p - 1);
        assert(t.drop_first().skip(p - 1) =~= t.skip(p));
    } else {
        assert(t.skip(0) =~= t);
    }
}

proof fn lemma_trim_end_keeps_marker(t: Seq<char>)
    ensures
        starts_with_cn(trim_end_spec(t)) == starts_with_cn(t),
    decreases t.len(),
{
    if t.len() > 0 && is_whitespace_char(t.last()) {
        lemma_trim_end_keeps_marker(t.drop_last());
        if t.len() >= 4 {
            assert(t.drop_last().take(3) =~= t.take(3));
        } else if t.len() == 3 {
            assert(t.take(3) =~= t);
            assert(t[2] == t.last());
        }
    }
}

/// The user name of a client, from the subject distinguished name of its
/// certificate; `None` stands for a header that is absent or not text.
pub fn username_from_dn(dn: Option<&str>) -> (res: String)
    ensures
        res@ == username_spec(
            match dn {
                Some(s) => s@,
                None => Seq::empty(),
            },
        ),
{
    let text: &str = match dn {
        Some(s) => s,
        None => {
            let unknown = String::from_str("Unknown");
            proof {
                reveal_strlit("Unknown");
                assert(find_cn_component(Seq::<char>::empty()).is_none()) by {
                    let e = Seq::<char>::empty();
                    assert(first_component_len(e) == 0);
                    assert(e.take(0) =~= e);
                    assert(trim_start_spec(e) == e);
                    assert(trim_end_spec(e) == e);
                }
                assert(unknown@ =~= unknown_user());
            }
            return unknown;
        },
    };
    let ghost s = text@;
    assert(s == match dn {
        Some(d) => d@,
        None => Seq::empty(),
    });
    let n = text.unicode_len();
    let mut chars: Vec<char> = Vec::new();
    let mut i: usize = 0;
    while i < n
        invariant
            n == s.len(),
            s == text@,
            i <= n,
            chars@ == s.take(i as int),
        decreases n - i,
    {
        let c = text.get_char(i);
        chars.push(c);
        proof {
            assert(s.take(i + 1) =~= s.take(i as int).push(c));
        }
        i = i + 1;
    }
    proof {
        assert(s.take(n as int) =~= s);
    }
    let mut start: usize = 0;
    loop
        invariant
            n == s.len(),
            s == text@,
            chars@ == s,
            start <= n,
            s == match dn {
                Some(d) => d@,
                None => Seq::empty(),
            },
            find_cn_component(s) == find_cn_component(s.skip(start as int)),
        decreases n - start,
    {
        let ghost rest = s.skip(start as int);
        let mut end: usize = start;
        while end < n && chars[end] != ','
            invariant
                n == s.len(),
                chars@ == s,
                start <= end <= n,
                forall|j: int| start <= j < end ==> s[j] != ',',
            decreases n - end,
        {
            end = end + 1;
        }
        proof {
            lemma_first_component_len(rest, end - start);
        }
        let ghost piece = rest.take(end - start);
        proof {
            assert(piece =~= s.subrange(start as int, end as int));
        }
        let mut p: usize = start;
        while p < end && is_whitespace(chars[p])
            invariant
                n == s.len(),
                chars@ == s,
                start <= p <= end <= n,
                forall|j: int| start <= j < p ==> is_whitespace_char(s[j]),
            decreases end - p,
        {
            p = p + 1;
        }
        proof {
            lemma_trim_start(piece, p - start);
            lemma_trim_end_keeps_marker(trim_start_spec(piece));
        }
        if end - p >= 3 && chars[p] == 'C' && chars[p + 1] == 'N' && chars[p + 2] == '=' {
            proof {
                assert(trim_start_spec(piece).take(3) =~= cn_marker());
                assert(is_cn_component(piece));
                assert(find_cn_component(rest) == Some(piece));
            }
            return remove_markers(text, &chars, start, end);
        }
        proof {
            if starts_with_cn(trim_start_spec(piece)) {
                assert(trim_start_spec(piece)[0] == s[p as int]);
                assert(trim_start_spec(piece)[1] == s[p + 1]);
                assert(trim_start_spec(piece)[2] == s[p + 2]);
                assert(trim_start_spec(piece).take(3)[0] == 'C');
                assert(trim_start_spec(piece).take(3)[1] == 'N');
                assert(trim_start_spec(piece).take(3)[2] == '=');
            }
        }
        proof {
            assert(!is_cn_component(piece));
        }
        if end >= n {
            proof {
                assert(find_cn_component(rest).is_none());
            }
            let unknown = String::from_str("Unknown");
            proof {
                reveal_strlit("Unknown");
                assert(unknown@ =~= unknown_user());
            }
            return unknown;
        }
        proof {
            assert(rest.skip(end - start + 1) =~= s.skip(end + 1));
            assert(find_cn_component(rest) == find_cn_component(rest.skip(end - start + 1)));
        }
        start = end + 1;
    }
}

fn remove_markers(text: &str, chars: &Vec<char>, start: usize, end: usize) -> (res: String)
    requires
        chars@ == text@,
        start <= end <= chars@.len(),
    ensures
        res@ == remove_cn_markers(text@.subrange(start as int, end as int)),
{
    let ghost s = text@;
    let mut out = String::new();
    let mut seg: usize = start;
    let mut i: usize = start;
    proof {
        assert(s.subrange(seg as int, i as int) =~= Seq::<char>::empty());
        assert(out@ + s.subrange(seg as int, i as int) + remove_cn_markers(
            s.subrange(i as int, end as int),
        ) =~= remove_cn_markers(s.subrange(start as int, end as int)));
    }
    while i < end
        invariant
            chars@ == s,
            s == text@,
            start <= seg <= i <= end <= s.len(),
            remove_cn_markers(s.subrange(start as int, end as int)) == out@ + s.subrange(
                seg as int,
                i as int,
            ) + remove_cn_markers(s.subrange(i as int, end as int)),
        decreases end - i,
    {
        let ghost tail = s.subrange(i as int, end as int);
        if end - i >= 3 && chars[i] == 'C' && chars[i + 1] == 'N' && chars[i + 2] == '=' {
            proof {
                assert(tail.take(3) =~= cn_marker());
                assert(tail.skip(3) =~= s.subrange(i + 3, end as int));
            }
            let piece = text.substring_char(seg, i);
            out.append(piece);
            proof {
                assert(s.subrange((i + 3) as int, (i + 3) as int) =~= Seq::<char>::empty());
                assert(out@ + s.subrange((i + 3) as int, (i + 3) as int) =~= out@);
            }
            seg = i + 3;
            i = i + 3;
        } else {
            proof {
                if starts_with_cn(tail) {
                    assert(tail.take(3)[0] == 'C');
                    assert(tail.take(3)[1] == 'N');
                    assert(tail.take(3)[2] == '=');
                }
                assert(tail.drop_first() =~= s.subrange(i + 1, end as int));
                assert(s.subrange(seg as int, i as int) + seq![s[i as int]] =~= s.subrange(
                    seg as int,
                    i + 1,
                ));
            }
            i = i + 1;
        }
    }
    let last = text.substring_char(seg, end);
    out.append(last);
    proof {
        assert(s.subrange(end as int, end as int) =~= Seq::<char>::empty());
    }
    out
}

/// A byte that `http` accepts in header text: visible ASCII or a tab.
pub open spec fn is_visible_ascii(b: u8) -> bool {
    (32 <= b && b < 127) || b == 9
}

pub open spec fn all_visible_ascii(bytes: Seq<u8>) -> bool {
    forall|i: int| 0 <= i < bytes.len() ==> is_visible_ascii(#[trigger] bytes[i])
}

/// The text of a header value as `HeaderValue::to_str` reads it: the
/// characters of its bytes when all are visible ASCII or tabs; otherwise the
/// header counts as empty. An absent header is empty too.
pub open spec fn header_dn_text(header: Option<Seq<u8>>) -> Seq<char> {
    match header {
        Some(b) => if all_visible_ascii(b) {
            decode_utf8(b)
        } else {
            Seq::empty()
        },
        None => Seq::empty(),
    }
}

/// The bytes that `HeaderValue::to_str` accepts are exactly the visible ASCII
/// characters (32 to 126) and the tab: a value of such bytes is text, with
/// one character per byte, and a value holding any other byte is not.
pub proof fn lemma_header_text_bytes(bytes: Seq<u8>)
    ensures
        all_visible_ascii(bytes) <==> (forall|i: int|
            0 <= i < bytes.len() ==> (32 <= #[trigger] bytes[i] && bytes[i] <= 126) || bytes[i] == 9),
        (forall|i: int|
            0 <= i < bytes.len() ==> (32 <= #[trigger] bytes[i] && bytes[i] <= 126) || bytes[i] == 9)
            ==> header_dn_text(Some(bytes)).len() == bytes.len() && forall|i: int|
            0 <= i < bytes.len() ==> (#[trigger] header_dn_text(Some(bytes))[i]) as int == bytes[i] as int,
{
    if forall|i: int|
        0 <= i < bytes.len() ==> (32 <= #[trigger] bytes[i] && bytes[i] <= 126) || bytes[i] == 9 {
        assert(all_visible_ascii(bytes));
        assert forall|j: int| 0 <= j < bytes.len() implies #[trigger] bytes[j] < 128 by {}
        lemma_ascii_decode(bytes);
    }
}

proof fn lemma_ascii_decode(b: Seq<u8>)
    requires
        forall|i: int| 0 <= i < b.len() ==> #[trigger] b[i] < 128,
    ensures
        valid_utf8(b),
        decode_utf8(b).len() == b.len(),
        forall|i: int| 0 <= i < b.len() ==> (#[trigger] decode_utf8(b)[i]) as int == b[i] as int,
    decreases b.len(),
{
    lemma_ascii_is_utf8(b);
    if b.len() > 0 {
        let c = b[0];
        assert(is_leading_byte_width_1(c));
        assert(codepoint_width_1(c) == c as u32) by (bit_vector)
            requires
                c < 128u8,
        ;
        assert(pop_first_scalar(b) =~= b.drop_first());
        assert forall|i: int| 0 <= i < b.drop_first().len() implies #[trigger] b.drop_first()[i]
            < 128 by {
            assert(b.drop_first()[i] == b[i + 1]);
        }
        lemma_ascii_decode(b.drop_first());
        let d = decode_utf8(b);
        assert(d == seq![(c as u32) as char] + decode_utf8(b.drop_first()));
        assert forall|i: int| 0 <= i < b.len() implies (#[trigger] decode_utf8(b)[i]) as int
            == b[i] as int by {
            if i > 0 {
                assert(d[i] == decode_utf8(b.drop_first())[i - 1]);
                assert(b.drop_first()[i - 1] == b[i]);
            }
        }
    }
}

/// Calls `core::str::from_utf8`. Trusted: it succeeds exactly on valid UTF-8,
/// and then the text is made of these very bytes.
#[verifier::external_body]
fn utf8_str<'a>(bytes: &'a [u8]) -> (res: Option<&'a str>)
    ensures
        res is Some <==> valid_utf8(bytes@),
        res matches Some(s) ==> encode_utf8(s@) == bytes@,
{
    core::str::from_utf8(bytes).ok()
}

proof fn lemma_ascii_is_utf8(b: Seq<u8>)
    requires
        forall|i: int| 0 <= i < b.len() ==> #[trigger] b[i] < 128,
    ensures
        valid_utf8(b),
    decreases b.len(),
{
    if b.len() > 0 {
        let c = b[0];
        assert(is_leading_byte_width_1(c));
        assert(codepoint_width_1(c) == c as u32) by (bit_vector)
            requires
                c < 128u8,
        ;
        assert(pop_first_scalar(b) =~= b.drop_first());
        assert forall|i: int| 0 <= i < b.drop_first().len() implies #[trigger] b.drop_first()[i]
            < 128 by {
            assert(b.drop_first()[i] == b[i + 1]);
        }
        lemma_ascii_is_utf8(b.drop_first());
    }
}

/// Reads a header value as text, as `HeaderValue::to_str` does: only values
/// made of visible ASCII characters and tabs are text.
pub fn header_text<'a>(bytes: &'a [u8]) -> (res: Option<&'a str>)
    ensures
        res is Some <==> all_visible_ascii(bytes@),
        res matches Some(s) ==> s@ == decode_utf8(bytes@),
{
    let mut i: usize = 0;
    while i < bytes.len()
        invariant
            i <= bytes@.len(),
            forall|j: int| 0 <= j < i ==> is_visible_ascii(#[trigger] bytes@[j]),
        decreases bytes@.len() - i,
    {
        let b = bytes[i];
        if !((b >= 32 && b < 127) || b == 9) {
            return None;
        }
        i = i + 1;
    }
    proof {
        assert forall|j: int| 0 <= j < bytes@.len() implies #[trigger] bytes@[j] < 128 by {
            assert(is_visible_ascii(bytes@[j]));
        }
        lemma_ascii_is_utf8(bytes@);
    }
    let res = utf8_str(bytes);
    proof {
        if let Some(s) = res {
            encode_utf8_decode_utf8(s@);
        }
    }
    res
}

/// The user name of a client, from the raw value of the header that holds
/// its certificate's subject distinguished name (`None` when absent).
pub fn username_from_header(header: Option<&[u8]>) -> (res: String)
    ensures
        res@ == username_spec(
            header_dn_text(
                match header {
                    Some(b) => Some(b@),
                    None => None,
                },
            ),
        ),
{
    let text = match header {
        Some(b) => header_text(b),
        None => None,
    };
    username_from_dn(text)
}

} // verus!
