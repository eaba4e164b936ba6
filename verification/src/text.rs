//! Building text: concatenation, decimal and hexadecimal rendering,
//! and trimming of Unicode white space.
use vstd::prelude::*;

verus! {

/// The ten decimal digits, in order.
pub open spec fn decimal_alphabet() -> Seq<char> {
    seq!['0', '1', '2', '3', '4', '5', '6', '7', '8', '9']
}

/// The sixteen lower-case hexadecimal digits, in order.
pub open spec fn hex_alphabet() -> Seq<char> {
    seq!['0', '1', '2', '3', '4', '5', '6', '7', '8', '9', 'a', 'b', 'c', 'd', 'e', 'f']
}

/// Decimal digits of a natural number, most significant first, no leading zeros.
pub open spec fn decimal_digits(n: nat) -> Seq<char>
    decreases n,
{
    if n < 10 {
        seq![decimal_alphabet()[n as int]]
    } else {
        decimal_digits(n / 10).push(decimal_alphabet()[(n % 10) as int])
    }
}

/// How an integer is written by Rust's `Display`: an optional minus sign,
/// then its decimal digits.
pub open spec fn int_text(v: int) -> Seq<char> {
    if v < 0 {
        seq!['-'] + decimal_digits((-v) as nat)
    } else {
        decimal_digits(v as nat)
    }
}

/// Two lower-case hexadecimal digits per byte, high nibble first.
pub open spec fn hex_lower(bytes: Seq<u8>) -> Seq<char>
    decreases bytes.len(),
{
    if bytes.len() == 0 {
        Seq::empty()
    } else {
        seq![hex_alphabet()[(bytes[0] / 16) as int], hex_alphabet()[(bytes[0] % 16) as int]]
            + hex_lower(bytes.drop_first())
    }
}

/// Unicode `White_Space`, the property that `char::is_whitespace` tests.
pub open spec fn is_white_space(c: char) -> bool {
    let v = c as u32;
    ||| 0x09 <= v <= 0x0d
    ||| v == 0x20
    ||| v == 0x85
    ||| v == 0xa0
    ||| v == 0x1680
    ||| 0x2000 <= v <= 0x200a
    ||| v == 0x2028
    ||| v == 0x2029
    ||| v == 0x202f
    ||| v == 0x205f
    ||| v == 0x3000
}

/// Number of leading characters of `s` that satisfy `p`.
pub open spec fn leading_run(s: Seq<char>, p: spec_fn(char) -> bool) -> nat
    decreases s.len(),
{
    if s.len() > 0 && p(s[0]) {
        1 + leading_run(s.drop_first(), p)
    } else {
        0
    }
}

/// Number of trailing characters of `s` that satisfy `p`.
pub open spec fn trailing_run(s: Seq<char>, p: spec_fn(char) -> bool) -> nat
    decreases s.len(),
{
    if s.len() > 0 && p(s.last()) {
        1 + trailing_run(s.drop_last(), p)
    } else {
        0
    }
}

/// `s` with every leading and trailing character that satisfies `p` removed.
pub open spec fn trim_by(s: Seq<char>, p: spec_fn(char) -> bool) -> Seq<char> {
    let front = leading_run(s, p);
    if front == s.len() {
        Seq::empty()
    } else {
        let rest = s.skip(front as int);
        rest.take(rest.len() - trailing_run(rest, p))
    }
}

/// What `str::trim` leaves of `s`.
pub open spec fn trim_white(s: Seq<char>) -> Seq<char> {
    trim_by(s, |c: char| is_white_space(c))
}

/// What `str::trim_matches('"')` leaves of `s`.
pub open spec fn trim_quotes(s: Seq<char>) -> Seq<char> {
    trim_by(s, |c: char| c == '"')
}

pub proof fn lemma_leading_run_bound(s: Seq<char>, p: spec_fn(char) -> bool)
    ensures
        leading_run(s, p) <= s.len(),
        forall|i: int| 0 <= i < leading_run(s, p) ==> #[trigger] p(s[i]),
        leading_run(s, p) < s.len() ==> !p(s[leading_run(s, p) as int]),
    decreases s.len(),
{
    if s.len() > 0 && p(s[0]) {
        lemma_leading_run_bound(s.drop_first(), p);
        assert forall|i: int| 0 <= i < leading_run(s, p) implies #[trigger] p(s[i]) by {
            if i > 0 {
                assert(s[i] == s.drop_first()[i - 1]);
            }
        }
    }
}

pub proof fn lemma_trailing_run_bound(s: Seq<char>, p: spec_fn(char) -> bool)
    ensures
        trailing_run(s, p) <= s.len(),
        forall|i: int| s.len() - trailing_run(s, p) <= i < s.len() ==> #[trigger] p(s[i]),
        trailing_run(s, p) < s.len() ==> !p(s[s.len() - 1 - trailing_run(s, p)]),
    decreases s.len(),
{
    if s.len() > 0 && p(s.last()) {
        lemma_trailing_run_bound(s.drop_last(), p);
        assert forall|i: int| s.len() - trailing_run(s, p) <= i < s.len() implies #[trigger] p(
            s[i],
        ) by {
            if i < s.len() - 1 {
                assert(s[i] == s.drop_last()[i]);
            }
        }
    }
}

/// A leading run is the first index where `p` fails.
pub proof fn lemma_leading_run_unique(s: Seq<char>, p: spec_fn(char) -> bool, k: nat)
    requires
        k <= s.len(),
        forall|i: int| 0 <= i < k ==> #[trigger] p(s[i]),
        k < s.len() ==> !p(s[k as int]),
    ensures
        leading_run(s, p) == k,
    decreases s.len(),
{
    if k > 0 {
        assert(p(s[0]));
        assert forall|i: int| 0 <= i < k - 1 implies #[trigger] p(s.drop_first()[i]) by {
            assert(s.drop_first()[i] == s[i + 1]);
            assert(p(s[i + 1]));
        }
        if k < s.len() {
            assert(s.drop_first()[k - 1] == s[k as int]);
        }
        lemma_leading_run_unique(s.drop_first(), p, (k - 1) as nat);
    } else {
        if s.len() > 0 {
            assert(!p(s[0]));
        }
    }
}

/// A trailing run is the last index where `p` fails, counted from the end.
pub proof fn lemma_trailing_run_unique(s: Seq<char>, p: spec_fn(char) -> bool, k: nat)
    requires
        k <= s.len(),
        forall|i: int| s.len() - k <= i < s.len() ==> #[trigger] p(s[i]),
        k < s.len() ==> !p(s[s.len() - 1 - k]),
    ensures
        trailing_run(s, p) == k,
    decreases s.len(),
{
    if k > 0 {
        assert(p(s[s.len() - 1]));
        assert forall|i: int| s.drop_last().len() - (k - 1) <= i < s.drop_last().len() implies #[trigger] p(
            s.drop_last()[i],
        ) by {
            assert(s.drop_last()[i] == s[i]);
        }
        if k < s.len() {
            assert(s.drop_last()[s.drop_last().len() - 1 - (k - 1)] == s[s.len() - 1 - k]);
        }
        lemma_trailing_run_unique(s.drop_last(), p, (k - 1) as nat);
    } else {
        if s.len() > 0 {
            assert(!p(s.last()));
        }
    }
}

/// `a` followed by `b`.
pub fn cat(a: &str, b: &str) -> (r: String)
    ensures
        r@ == a@ + b@,
{
    let mut s = String::from_str(a);
    s.append(b);
    s
}

/// `a`, then `b`, then `c`.
pub fn cat3(a: &str, b: &str, c: &str) -> (r: String)
    ensures
        r@ == a@ + b@ + c@,
{
    let mut s = String::from_str(a);
    s.append(b);
    s.append(c);
    s
}

/// The decimal digit `d` as a one-character string.
fn decimal_digit(d: u64) -> (r: &'static str)
    requires
        d < 10,
    ensures
        r@ == seq![decimal_alphabet()[d as int]],
{
    let digits = "0123456789";
    proof {
        reveal_strlit("0123456789");
    }
    assert(digits@ == decimal_alphabet());
    digits.substring_char(d as usize, d as usize + 1)
}

/// The hexadecimal digit `d` as a one-character string.
fn hex_digit(d: u8) -> (r: &'static str)
    requires
        d < 16,
    ensures
        r@ == seq![hex_alphabet()[d as int]],
{
    let digits = "0123456789abcdef";
    proof {
        reveal_strlit("0123456789abcdef");
    }
    assert(digits@ == hex_alphabet());
    digits.substring_char(d as usize, d as usize + 1)
}

/// `n` written in decimal.
pub fn u64_text(n: u64) -> (r: String)
    ensures
        r@ == decimal_digits(n as nat),
    decreases n,
{
    if n < 10 {
        String::from_str(decimal_digit(n))
    } else {
        let mut s = u64_text(n / 10);
        s.append(decimal_digit(n % 10));
        s
    }
}

/// `v` written as Rust's `Display` writes an `i64`.
pub fn i64_text(v: i64) -> (r: String)
    ensures
        r@ == int_text(v as int),
{
    if v < 0 {
        let magnitude: u64 = (0i128 - (v as i128)) as u64;
        assert(magnitude as int == -(v as int));
        let digits = u64_text(magnitude);
        proof {
            reveal_strlit("-");
        }
        cat("-", digits.as_str())
    } else {
        u64_text(v as u64)
    }
}

/// Each byte of `bytes` as two lower-case hexadecimal digits.
pub fn hex_encode(bytes: &[u8]) -> (r: String)
    ensures
        r@ == hex_lower(bytes@),
{
    let mut out = String::new();
    let n = bytes.len();
    let mut i: usize = 0;
    assert(bytes@.skip(0) == bytes@);
    while i < n
        invariant
            n == bytes@.len(),
            i <= n,
            out@ + hex_lower(bytes@.skip(i as int)) == hex_lower(bytes@),
        decreases n - i,
    {
        let b = bytes[i];
        let hi = hex_digit(b / 16);
        let lo = hex_digit(b % 16);
        proof {
            let rest = bytes@.skip(i as int);
            assert(rest[0] == b);
            assert(rest.drop_first() == bytes@.skip(i + 1));
            assert(hex_lower(rest) == seq![hex_alphabet()[(b / 16) as int], hex_alphabet()[(b % 16) as int]]
                + hex_lower(bytes@.skip(i + 1)));
        }
        out.append(hi);
        out.append(lo);
        proof {
            assert(out@ + hex_lower(bytes@.skip(i + 1)) == hex_lower(bytes@));
        }
        i = i + 1;
    }
    assert(bytes@.skip(n as int) == Seq::<u8>::empty());
    out
}

/// Whether `c` is Unicode white space, as `char::is_whitespace` decides it.
pub fn is_whitespace(c: char) -> (r: bool)
    ensures
        r == is_white_space(c),
{
    let v = c as u32;
    (0x09 <= v && v <= 0x0d) || v == 0x20 || v == 0x85 || v == 0xa0 || v == 0x1680 || (0x2000
        <= v && v <= 0x200a) || v == 0x2028 || v == 0x2029 || v == 0x202f || v == 0x205f || v
        == 0x3000
}

/// `s` with leading and trailing white space removed, as `str::trim` does.
pub fn trim_whitespace(s: &str) -> (r: String)
    ensures
        r@ == trim_white(s@),
{
    let ghost p = |c: char| is_white_space(c);
    let n = s.unicode_len();
    let mut front: usize = 0;
    while front < n
        invariant
            n == s@.len(),
            front <= n,
            forall|i: int| 0 <= i < front ==> #[trigger] is_white_space(s@[i]),
        ensures
            front == n || !is_white_space(s@[front as int]),
        decreases n - front,
    {
        if !(is_whitespace(s.get_char(front))) {
            break;
        }
        front = front + 1;
    }
    proof {
        lemma_leading_run_unique(s@, p, front as nat);
    }
    if front == n {
        return String::new();
    }
    let mut back: usize = n;
    while back > front
        invariant
            n == s@.len(),
            front < n,
            front <= back <= n,
            forall|i: int| back <= i < n ==> #[trigger] is_white_space(s@[i]),
        ensures
            front <= back <= n,
            back == front || !is_white_space(s@[back - 1]),
        decreases back,
    {
        if !(is_whitespace(s.get_char(back - 1))) {
            break;
        }
        back = back - 1;
    }
    proof {
        let rest = s@.skip(front as int);
        assert forall|i: int| rest.len() - (n - back) <= i < rest.len() implies #[trigger] p(rest[i]) by {
            assert(rest[i] == s@[front + i]);
        }
        if back == front {
            assert(!is_white_space(s@[front as int]));
            assert(rest[0] == s@[front as int]);
        }
        if n - back < rest.len() {
            assert(rest[rest.len() - 1 - (n - back)] == s@[back - 1]);
        }
        lemma_trailing_run_unique(rest, p, (n - back) as nat);
        assert(rest.take(rest.len() - (n - back)) == s@.subrange(front as int, back as int));
    }
    String::from_str(s.substring_char(front, back))
}

/// `s` with leading and trailing `"` removed, as `str::trim_matches('"')` does.
pub fn trim_double_quotes(s: &str) -> (r: String)
    ensures
        r@ == trim_quotes(s@),
{
    let ghost p = |c: char| c == '"';
    let n = s.unicode_len();
    let mut front: usize = 0;
    while front < n
        invariant
            n == s@.len(),
            front <= n,
            forall|i: int| 0 <= i < front ==> #[trigger] s@[i] == '"',
        ensures
            front == n || s@[front as int] != '"',
        decreases n - front,
    {
        if !(s.get_char(front) == '"') {
            break;
        }
        front = front + 1;
    }
    proof {
        lemma_leading_run_unique(s@, p, front as nat);
    }
    if front == n {
        return String::new();
    }
    let mut back: usize = n;
    while back > front
        invariant
            n == s@.len(),
            front < n,
            front <= back <= n,
            forall|i: int| back <= i < n ==> #[trigger] s@[i] == '"',
        ensures
            front <= back <= n,
            back == front || s@[back - 1] != '"',
        decreases back,
    {
        if !(s.get_char(back - 1) == '"') {
            break;
        }
        back = back - 1;
    }
    proof {
        let rest = s@.skip(front as int);
        assert forall|i: int| rest.len() - (n - back) <= i < rest.len() implies #[trigger] p(rest[i]) by {
            assert(rest[i] == s@[front + i]);
        }
        if back == front {
            assert(s@[front as int] != '"');
            assert(rest[0] == s@[front as int]);
        }
        if n - back < rest.len() {
            assert(rest[rest.len() - 1 - (n - back)] == s@[back - 1]);
        }
        lemma_trailing_run_unique(rest, p, (n - back) as nat);
        assert(rest.take(rest.len() - (n - back)) == s@.subrange(front as int, back as int));
    }
    String::from_str(s.substring_char(front, back))
}

} // verus!
