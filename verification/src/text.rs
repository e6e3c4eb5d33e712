//! String helpers shared by the rest of the crate: comparison, joining,
//! decimal rendering and lossy decoding of bytes.

use vstd::prelude::*;
use vstd::string::StringSliceAdditionalSpecFns;
use vstd::utf8::{decode_utf8, valid_utf8};

verus! {

/// What `String::from_utf8_lossy` makes of a byte sequence: its characters
/// where the bytes are valid UTF-8, and otherwise the same with each invalid
/// sequence replaced by U+FFFD.
pub uninterp spec fn utf8_lossy(bytes: Seq<u8>) -> Seq<char>;

/// Decodes bytes with `String::from_utf8_lossy`. The result is
/// `utf8_lossy` of the bytes; on valid UTF-8 it is the decoded text
/// itself, since the function only ever changes invalid sequences.
#[verifier::external_body]
pub(crate) fn decode_lossy(bytes: &[u8]) -> (res: String)
    ensures
        res@ == utf8_lossy(bytes@),
        valid_utf8(bytes@) ==> res@ == decode_utf8(bytes@),
{
    String::from_utf8_lossy(bytes).into_owned()
}

/// Whether one of `items` holds exactly the characters of `text`.
pub open spec fn lists(items: Seq<String>, text: Seq<char>) -> bool {
    exists|i: int| 0 <= i < items.len() && #[trigger] items[i]@ == text
}

/// The views of a sequence of strings.
pub open spec fn texts(items: Seq<String>) -> Seq<Seq<char>> {
    Seq::new(items.len(), |i: int| items[i]@)
}

/// The view of an optional string.
pub open spec fn optional_text(item: Option<String>) -> Option<Seq<char>> {
    match item {
        Some(text) => Some(text@),
        None => None,
    }
}

/// Whether `at` is the position of the first `wanted` in `text`.
pub open spec fn is_first_at(text: Seq<char>, wanted: char, at: int) -> bool {
    &&& 0 <= at < text.len()
    &&& text[at] == wanted
    &&& forall|j: int| 0 <= j < at ==> text[j] != wanted
}

/// The position of the first `wanted` in `text`, if it holds one.
pub open spec fn first_at(text: Seq<char>, wanted: char) -> Option<int> {
    if exists|at: int| is_first_at(text, wanted, at) {
        Some(choose|at: int| is_first_at(text, wanted, at))
    } else {
        None
    }
}

/// What `text` splits into at its first `sep`: the text before it and the
/// text after it.
pub open spec fn split_once_spec(text: Seq<char>, sep: char) -> Option<(Seq<char>, Seq<char>)> {
    match first_at(text, sep) {
        Some(at) => Some((text.take(at), text.skip(at + 1))),
        None => None,
    }
}

/// Whether `c` is whitespace: whether it has Unicode's `White_Space`
/// property.
pub open spec fn is_white_space(c: char) -> bool {
    ||| '\u{9}' <= c <= '\u{d}'
    ||| c == ' '
    ||| c == '\u{85}'
    ||| c == '\u{a0}'
    ||| c == '\u{1680}'
    ||| '\u{2000}' <= c <= '\u{200a}'
    ||| c == '\u{2028}'
    ||| c == '\u{2029}'
    ||| c == '\u{202f}'
    ||| c == '\u{205f}'
    ||| c == '\u{3000}'
}

/// `text` without the whitespace it begins with.
pub open spec fn trim_start_spec(text: Seq<char>) -> Seq<char>
    decreases text.len(),
{
    if text.len() > 0 && is_white_space(text[0]) {
        trim_start_spec(text.skip(1))
    } else {
        text
    }
}

/// `text` without the whitespace it ends with.
pub open spec fn trim_end_spec(text: Seq<char>) -> Seq<char>
    decreases text.len(),
{
    if text.len() > 0 && is_white_space(text.last()) {
        trim_end_spec(text.drop_last())
    } else {
        text
    }
}

/// `text` without the whitespace at its two ends.
pub open spec fn trimmed(text: Seq<char>) -> Seq<char> {
    trim_end_spec(trim_start_spec(text))
}

/// `str::trim` returns the part of the string between its leading and its
/// trailing whitespace, whitespace being the characters with Unicode's
/// `White_Space` property.
pub assume_specification[ str::trim ](text: &str) -> (res: &str)
    ensures
        res@ == trimmed(text@),
;

/// The parts in order, with `sep` between each two neighbours.
pub open spec fn join_spec(parts: Seq<Seq<char>>, sep: Seq<char>) -> Seq<char>
    decreases parts.len(),
{
    if parts.len() == 0 {
        Seq::empty()
    } else if parts.len() == 1 {
        parts[0]
    } else {
        join_spec(parts.drop_last(), sep) + sep + parts.last()
    }
}

/// The character of a decimal digit.
pub open spec fn digit_spec(d: nat) -> char
    recommends
        d < 10,
{
    if d == 0 {
        '0'
    } else if d == 1 {
        '1'
    } else if d == 2 {
        '2'
    } else if d == 3 {
        '3'
    } else if d == 4 {
        '4'
    } else if d == 5 {
        '5'
    } else if d == 6 {
        '6'
    } else if d == 7 {
        '7'
    } else if d == 8 {
        '8'
    } else {
        '9'
    }
}

/// Whether `c` is a decimal digit.
pub open spec fn is_digit(c: char) -> bool {
    exists|d: nat| d < 10 && c == #[trigger] digit_spec(d)
}

/// The decimal rendering of `n`, without sign or leading zeros.
pub open spec fn decimal_spec(n: nat) -> Seq<char>
    decreases n,
{
    if n < 10 {
        seq![digit_spec(n)]
    } else {
        decimal_spec(n / 10).push(digit_spec(n % 10))
    }
}

/// Whether two strings hold the same characters.
pub fn same_text(a: &str, b: &str) -> (res: bool)
    ensures
        res == (a@ == b@),
{
    let x = a.as_bytes();
    let y = b.as_bytes();
    proof {
        vstd::utf8::encode_utf8_decode_utf8(a@);
        vstd::utf8::encode_utf8_decode_utf8(b@);
    }
    if x.len() != y.len() {
        return false;
    }
    let mut i: usize = 0;
    while i < x.len()
        invariant
            i <= x.len(),
            x.len() == y.len(),
            x@ == a.spec_bytes(),
            y@ == b.spec_bytes(),
            forall|j: int| 0 <= j < i ==> x@[j] == y@[j],
        decreases x.len() - i,
    {
        if x[i] != y[i] {
            return false;
        }
        i += 1;
    }
    assert(x@ =~= y@);
    true
}

/// The position of the first `wanted` in `text`, counted in characters.
pub fn find_char(text: &str, wanted: char) -> (res: Option<usize>)
    ensures
        match res {
            Some(at) => first_at(text@, wanted) == Some(at as int),
            None => first_at(text@, wanted) is None,
        },
        res matches Some(at) ==> is_first_at(text@, wanted, at as int),
{
    let len = text.unicode_len();
    let mut at: usize = 0;
    for c in it: text.chars()
        invariant
            at == it.index(),
            it.seq() == text@,
            text@.len() == len,
            forall|j: int| 0 <= j < at ==> text@[j] != wanted,
    {
        if c == wanted {
            proof {
                lemma_first_at(text@, wanted);
                assert(is_first_at(text@, wanted, at as int));
            }
            return Some(at);
        }
        at += 1;
    }
    proof {
        lemma_first_at(text@, wanted);
        if first_at(text@, wanted) is Some {
            assert(text@[first_at(text@, wanted)->0] == wanted);
        }
    }
    None
}

/// Splits `text` at its first `sep`.
pub fn split_once(text: &str, sep: char) -> (res: Option<(&str, &str)>)
    ensures
        match res {
            Some(parts) => split_once_spec(text@, sep) == Some((parts.0@, parts.1@)),
            None => split_once_spec(text@, sep) is None,
        },
{
    match find_char(text, sep) {
        Some(at) => {
            let len = text.unicode_len();
            let left = text.substring_char(0, at);
            let right = text.substring_char(at + 1, len);
            assert(left@ =~= text@.take(at as int));
            assert(right@ =~= text@.skip(at + 1));
            Some((left, right))
        },
        None => None,
    }
}

/// The three strings as an owned list.
pub fn triple(a: &str, b: &str, c: &str) -> (res: Vec<String>)
    ensures
        texts(res@) == seq![a@, b@, c@],
{
    let mut res: Vec<String> = Vec::new();
    res.push(String::from_str(a));
    res.push(String::from_str(b));
    res.push(String::from_str(c));
    assert(texts(res@) =~= seq![a@, b@, c@]);
    res
}

/// The decimal digit `d` as text.
fn digit(d: u8) -> (res: &'static str)
    requires
        d < 10,
    ensures
        res@ == seq![digit_spec(d as nat)],
{
    proof {
        reveal_strlit("0");
        reveal_strlit("1");
        reveal_strlit("2");
        reveal_strlit("3");
        reveal_strlit("4");
        reveal_strlit("5");
        reveal_strlit("6");
        reveal_strlit("7");
        reveal_strlit("8");
        reveal_strlit("9");
    }
    let res = if d == 0 {
        "0"
    } else if d == 1 {
        "1"
    } else if d == 2 {
        "2"
    } else if d == 3 {
        "3"
    } else if d == 4 {
        "4"
    } else if d == 5 {
        "5"
    } else if d == 6 {
        "6"
    } else if d == 7 {
        "7"
    } else if d == 8 {
        "8"
    } else {
        "9"
    };
    assert(res@ =~= seq![digit_spec(d as nat)]);
    res
}

/// Appends the decimal rendering of `n` to `out`.
pub fn push_decimal(out: &mut String, n: u64)
    ensures
        final(out)@ == old(out)@ + decimal_spec(n as nat),
    decreases n,
{
    if n >= 10 {
        push_decimal(out, n / 10);
    }
    let d: u8 = (n % 10) as u8;
    out.append(digit(d));
    assert(out@ =~= old(out)@ + decimal_spec(n as nat));
}

/// The decimal rendering of `n`.
pub fn decimal(n: u64) -> (res: String)
    ensures
        res@ == decimal_spec(n as nat),
{
    let mut out = String::new();
    push_decimal(&mut out, n);
    assert(out@ =~= decimal_spec(n as nat));
    out
}

/// Joins the first `count` of `parts` with `sep` between each two
/// neighbours.
pub(crate) fn join_first(parts: &Vec<String>, count: usize, sep: &str) -> (res: String)
    requires
        count <= parts@.len(),
    ensures
        res@ == join_spec(texts(parts@).take(count as int), sep@),
{
    let mut out = String::new();
    let mut i: usize = 0;
    assert(texts(parts@).take(0) =~= Seq::<Seq<char>>::empty());
    while i < count
        invariant
            i <= count <= parts@.len(),
            out@ == join_spec(texts(parts@).take(i as int), sep@),
        decreases count - i,
    {
        if i > 0 {
            out.append(sep);
        }
        out.append(parts[i].as_str());
        proof {
            let now = texts(parts@).take(i + 1);
            assert(now.drop_last() =~= texts(parts@).take(i as int));
            assert(now.last() == parts@[i as int]@);
            if i == 0 {
                assert(out@ =~= now[0]);
            }
        }
        i += 1;
    }
    out
}

/// Joins `parts` with `sep` between each two neighbours.
pub fn join(parts: &Vec<String>, sep: &str) -> (res: String)
    ensures
        res@ == join_spec(texts(parts@), sep@),
{
    assert(texts(parts@).take(parts@.len() as int) =~= texts(parts@));
    join_first(parts, parts.len(), sep)
}

/// The first occurrence is one position: whatever position is the first
/// `wanted` of `text` is the one `first_at` names, and where `first_at`
/// names none, `text` holds no `wanted`.
pub proof fn lemma_first_at(text: Seq<char>, wanted: char)
    ensures
        forall|at: int| is_first_at(text, wanted, at) ==> first_at(text, wanted) == Some(at),
        first_at(text, wanted) is None ==> forall|j: int|
            0 <= j < text.len() ==> text[j] != wanted,
        first_at(text, wanted) matches Some(at) ==> is_first_at(text, wanted, at),
{
    assert forall|at: int| is_first_at(text, wanted, at) implies first_at(text, wanted) == Some(
        at,
    ) by {
        let chosen = choose|other: int| is_first_at(text, wanted, other);
        if chosen < at {
            assert(text[chosen] == wanted);
        } else if at < chosen {
            assert(text[at] == wanted);
        }
    }
    if first_at(text, wanted) is None {
        lemma_no_first(text, wanted, text.len() as int);
    }
}

/// Where no position is the first `wanted`, none of the first `upto`
/// characters is `wanted`.
proof fn lemma_no_first(text: Seq<char>, wanted: char, upto: int)
    requires
        forall|at: int| !is_first_at(text, wanted, at),
        0 <= upto <= text.len(),
    ensures
        forall|j: int| 0 <= j < upto ==> text[j] != wanted,
    decreases upto,
{
    if upto > 0 {
        lemma_no_first(text, wanted, upto - 1);
        assert(!is_first_at(text, wanted, upto - 1));
    }
}

/// A decimal rendering is never empty and holds digits only.
pub proof fn lemma_decimal_digits(n: nat)
    ensures
        decimal_spec(n).len() > 0,
        forall|i: int| 0 <= i < decimal_spec(n).len() ==> is_digit(#[trigger] decimal_spec(n)[i]),
    decreases n,
{
    if n < 10 {
        assert(is_digit(digit_spec(n)));
    } else {
        lemma_decimal_digits(n / 10);
        assert(is_digit(digit_spec(n % 10)));
    }
}

/// Distinct numbers have distinct decimal renderings.
pub proof fn lemma_decimal_injective(a: nat, b: nat)
    requires
        decimal_spec(a) == decimal_spec(b),
    ensures
        a == b,
    decreases a,
{
    lemma_decimal_digits(a / 10);
    lemma_decimal_digits(b / 10);
    if a < 10 && b < 10 {
        assert(decimal_spec(a)[0] == digit_spec(a));
        assert(decimal_spec(b)[0] == digit_spec(b));
    } else if a >= 10 && b >= 10 {
        let x = decimal_spec(a / 10);
        let y = decimal_spec(b / 10);
        let p = digit_spec(a % 10);
        let q = digit_spec(b % 10);
        assert(decimal_spec(a) == x.push(p));
        assert(decimal_spec(b) == y.push(q));
        assert(x.push(p).drop_last() =~= x);
        assert(y.push(q).drop_last() =~= y);
        assert(x.push(p).last() == p);
        assert(y.push(q).last() == q);
        assert(x == y);
        assert(p == q);
        lemma_decimal_injective(a / 10, b / 10);
        assert(a % 10 == b % 10);
        assert(a == 10 * (a / 10) + a % 10);
        assert(b == 10 * (b / 10) + b % 10);
    } else if a < 10 {
        assert(decimal_spec(a).len() == 1);
        assert(decimal_spec(b).len() == decimal_spec(b / 10).len() + 1);
    } else {
        assert(decimal_spec(b).len() == 1);
        assert(decimal_spec(a).len() == decimal_spec(a / 10).len() + 1);
    }
}

} // verus!
