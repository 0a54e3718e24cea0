//! Plain text: decimal numbers, separators and the bytes of a string.
use vstd::prelude::*;
use vstd::string::*;

verus! {

/// The decimal digit of `d`, for `d` below ten.
pub open spec fn digit(d: nat) -> char {
    if d == 0 {
        '0'
    } else if d == 1 {
        '1'
    } else if d == 2 {
        '2'
    } else if d == 3 {
        '3'
    } else if d == 4 {
        '4'
    } else if d == 5 {
        '5'
    } else if d == 6 {
        '6'
    } else if d == 7 {
        '7'
    } else if d == 8 {
        '8'
    } else {
        '9'
    }
}

/// The value of a decimal digit; `None` for any other character.
pub open spec fn digit_value(c: char) -> Option<nat> {
    if '0' <= c && c <= '9' {
        Some((c as int - '0' as int) as nat)
    } else {
        None
    }
}

/// The decimal notation of a natural number, without leading zeros.
pub open spec fn decimal(n: nat) -> Seq<char>
    decreases n,
{
    if n < 10 {
        seq![digit(n)]
    } else {
        decimal(n / 10).push(digit(n % 10))
    }
}

/// The decimal notation of an integer, with a leading `-` below zero.
pub open spec fn decimal_int(n: int) -> Seq<char> {
    if n < 0 {
        seq!['-'] + decimal((-n) as nat)
    } else {
        decimal(n as nat)
    }
}

/// The number that a run of digits denotes; `None` if another character occurs in it.
pub open spec fn digits_value(s: Seq<char>) -> Option<nat>
    decreases s.len(),
{
    if s.len() == 0 {
        Some(0)
    } else {
        match (digits_value(s.drop_last()), digit_value(s.last())) {
            (Some(high), Some(low)) => Some(10 * high + low),
            _ => None,
        }
    }
}

/// The digits of a number's text: what follows the sign, where there is one.
pub open spec fn unsigned_part(s: Seq<char>) -> Seq<char> {
    if s.len() > 0 && (s[0] == '-' || s[0] == '+') {
        s.skip(1)
    } else {
        s
    }
}

/// The 64-bit integer that a text denotes: an optional sign, then one or more digits, the
/// value within range.
pub open spec fn parsed_i64(s: Seq<char>) -> Option<i64> {
    let digits = unsigned_part(s);
    if digits.len() == 0 {
        None
    } else {
        match digits_value(digits) {
            Some(v) => {
                let n = if s[0] == '-' {
                    -(v as int)
                } else {
                    v as int
                };
                if i64::MIN <= n <= i64::MAX {
                    Some(n as i64)
                } else {
                    None
                }
            },
            None => None,
        }
    }
}

/// The view of an optional string.
pub open spec fn opt_text(o: Option<String>) -> Option<Seq<char>> {
    match o {
        Some(s) => Some(s@),
        None => None,
    }
}

/// The view of an optional string slice.
pub open spec fn opt_str(o: Option<&str>) -> Option<Seq<char>> {
    match o {
        Some(s) => Some(s@),
        None => None,
    }
}

/// The view of a list of strings.
pub open spec fn texts(v: Seq<String>) -> Seq<Seq<char>> {
    Seq::new(v.len(), |i: int| v[i]@)
}

/// Three texts with `|` between them.
pub open spec fn piped(a: Seq<char>, b: Seq<char>, c: Seq<char>) -> Seq<char> {
    a + seq!['|'] + b + seq!['|'] + c
}

/// A text cut at the one place where `c` occurs in it; `None` if `c` does not occur, or
/// occurs more than once.
pub open spec fn cut_at_only(s: Seq<char>, c: char) -> Option<(Seq<char>, Seq<char>)> {
    match cut_at_first(s, c) {
        Some((head, tail)) => if tail.contains(c) {
            None
        } else {
            Some((head, tail))
        },
        None => None,
    }
}

/// A text cut at the first place where `c` occurs in it; `None` if `c` does not occur.
pub open spec fn cut_at_first(s: Seq<char>, c: char) -> Option<(Seq<char>, Seq<char>)> {
    if s.contains(c) {
        Some((s.take(s.index_of_first(c)->0), s.skip(s.index_of_first(c)->0 + 1)))
    } else {
        None
    }
}

/// A cut leaves out exactly the separator: put back between the two parts it restores the
/// text, and it does not occur in the first part.
pub proof fn cut_at_first_restores(s: Seq<char>, c: char)
    ensures
        cut_at_first(s, c) matches Some((head, tail)) ==> s == head + seq![c] + tail
            && !head.contains(c),
        cut_at_first(s, c) is None <==> !s.contains(c),
{
    if s.contains(c) {
        s.index_of_first_ensures(c);
        let i = s.index_of_first(c)->0;
        assert(s =~= s.take(i) + seq![c] + s.skip(i + 1));
        assert forall|j: int| 0 <= j < i implies s.take(i)[j] != c by {
            assert(s[j] != c);
        }
    }
}

/// Two parts joined by a separator that the first part does not hold are what a cut at the
/// first separator gives back.
pub proof fn cut_at_first_of_joined(head: Seq<char>, c: char, tail: Seq<char>)
    requires
        !head.contains(c),
    ensures
        cut_at_first(head + seq![c] + tail, c) == Some((head, tail)),
{
    let s = head + seq![c] + tail;
    assert(s[head.len() as int] == c);
    assert(s.contains(c));
    s.index_of_first_ensures(c);
    let i = s.index_of_first(c)->0;
    if i < head.len() {
        assert(head[i] == c);
        assert(head.contains(c));
    }
    if head.len() < i {
        assert(s.take(i)[head.len() as int] == c);
    }
    assert(s.take(i) =~= head);
    assert(s.skip(i + 1) =~= tail);
}

proof fn lemma_digits_value_of_decimal(n: nat)
    ensures
        digits_value(decimal(n)) == Some(n),
        decimal(n).len() > 0,
        digit_value(decimal(n)[0]) is Some,
    decreases n,
{
    if n < 10 {
        assert(decimal(n).drop_last() =~= Seq::<char>::empty());
        assert(digits_value(decimal(n).drop_last()) == Some(0nat));
        assert(digit_value(digit(n)) == Some(n));
    } else {
        lemma_digits_value_of_decimal(n / 10);
        assert(decimal(n).drop_last() =~= decimal(n / 10));
        assert(decimal(n).last() == digit(n % 10));
        assert(digit_value(digit(n % 10)) == Some(n % 10));
        assert(decimal(n)[0] == decimal(n / 10)[0]);
    }
}

/// The notation of a number below a power of ten has no more digits than its exponent.
proof fn lemma_decimal_len(n: nat, digits: nat)
    requires
        0 < digits,
        n < vstd::arithmetic::power::pow(10, digits),
    ensures
        decimal(n).len() <= digits,
    decreases digits,
{
    vstd::arithmetic::power::lemma_pow1(10);
    if n >= 10 {
        if digits == 1 {
            assert(false);
        }
        reveal(vstd::arithmetic::power::pow);
        assert(vstd::arithmetic::power::pow(10, digits) == 10 * vstd::arithmetic::power::pow(
            10,
            (digits - 1) as nat,
        ));
        lemma_decimal_len(n / 10, (digits - 1) as nat);
    }
}

/// A 64-bit number is written with at most twenty digits.
pub proof fn decimal_of_u64_is_short(n: u64)
    ensures
        decimal(n as nat).len() <= 20,
{
    assert(vstd::arithmetic::power::pow(10, 20) == 100_000_000_000_000_000_000) by {
        reveal_with_fuel(vstd::arithmetic::power::pow, 21);
    }
    lemma_decimal_len(n as nat, 20);
}

/// A signed 64-bit integer is written with at most twenty characters.
pub proof fn decimal_int_of_i64_is_short(n: i64)
    ensures
        decimal_int(n as int).len() <= 20,
{
    assert(vstd::arithmetic::power::pow(10, 19) == 10_000_000_000_000_000_000) by {
        reveal_with_fuel(vstd::arithmetic::power::pow, 20);
    }
    if n < 0 {
        lemma_decimal_len((-(n as int)) as nat, 19);
    } else {
        lemma_decimal_len(n as nat, 19);
    }
}

/// Reading back the decimal notation of a 64-bit integer gives that integer.
pub proof fn parsed_i64_of_decimal(n: i64)
    ensures
        parsed_i64(decimal_int(n as int)) == Some(n),
{
    if n < 0 {
        let m = (-(n as int)) as nat;
        lemma_digits_value_of_decimal(m);
        let s = decimal_int(n as int);
        assert(s[0] == '-');
        assert(s.skip(1) =~= decimal(m));
    } else {
        lemma_digits_value_of_decimal(n as nat);
        let s = decimal_int(n as int);
        assert(s[0] != '-' && s[0] != '+');
    }
}

/// Every prefix of a run of digits denotes a number that is no larger.
proof fn lemma_digits_value_grows(s: Seq<char>, i: int)
    requires
        0 <= i <= s.len(),
        digits_value(s) is Some,
    ensures
        digits_value(s.take(i)) is Some,
        digits_value(s.take(i))->0 <= digits_value(s)->0,
    decreases s.len(),
{
    if i == s.len() {
        assert(s.take(i) =~= s);
    } else {
        lemma_digits_value_grows(s.drop_last(), i);
        assert(s.drop_last().take(i) =~= s.take(i));
    }
}

/// The characters of a string.
pub(crate) fn chars_of(s: &str) -> (res: Vec<char>)
    ensures
        res@ == s@,
{
    broadcast use vstd::string::group_string_axioms;

    let mut out: Vec<char> = Vec::new();
    let mut it = s.chars();
    let ghost mut left: Seq<char> = s@;
    assert(out@ + left =~= s@);
    loop
        invariant
            vstd::std_specs::iter::IteratorSpec::remaining(&it) == left,
            out@ + left == s@,
        ensures
            out@ == s@,
        decreases left.len(),
    {
        match it.next() {
            Some(c) => {
                out.push(c);
                proof {
                    assert(out@ + left.drop_first() =~= s@);
                    left = left.drop_first();
                }
            },
            None => {
                assert(out@ =~= s@);
                break;
            },
        }
    }
    out
}

/// Whether two strings hold the same characters.
pub(crate) fn same_text(a: &str, b: &str) -> (res: bool)
    ensures
        res == (a@ == b@),
{
    let x = a.to_owned();
    let y = b.to_owned();
    x == y
}

/// Whether a string begins with another.
pub(crate) fn has_prefix(s: &str, prefix: &str) -> (res: bool)
    ensures
        res == prefix@.is_prefix_of(s@),
{
    let chars = chars_of(s);
    let head = chars_of(prefix);
    if chars.len() < head.len() {
        return false;
    }
    let mut i: usize = 0;
    while i < head.len()
        invariant
            chars@ == s@,
            head@ == prefix@,
            i <= head.len() <= chars.len(),
            forall|j: int| 0 <= j < i ==> s@[j] == prefix@[j],
        decreases head.len() - i,
    {
        if chars[i] != head[i] {
            assert(s@.take(prefix@.len() as int)[i as int] != prefix@[i as int]);
            return false;
        }
        i += 1;
    }
    assert(prefix@ =~= s@.take(prefix@.len() as int));
    true
}

/// The two parts of a string round the first occurrence of `c`.
pub(crate) fn split_at_first(s: &str, c: char) -> (res: Option<(String, String)>)
    ensures
        match res {
            Some((head, tail)) => cut_at_first(s@, c) == Some((head@, tail@)),
            None => cut_at_first(s@, c) is None,
        },
{
    let chars = chars_of(s);
    let mut i: usize = 0;
    while i < chars.len()
        invariant
            chars@ == s@,
            i <= chars.len(),
            forall|j: int| 0 <= j < i ==> s@[j] != c,
        decreases chars.len() - i,
    {
        if chars[i] == c {
            let head = s.substring_char(0, i);
            let tail = s.substring_char(i + 1, chars.len());
            proof {
                assert(!head@.contains(c));
                assert(s@ =~= head@ + seq![c] + tail@);
                cut_at_first_of_joined(head@, c, tail@);
            }
            return Some((head.to_owned(), tail.to_owned()));
        }
        i += 1;
    }
    None
}

/// Whether `c` occurs in a string.
pub(crate) fn holds_char(s: &str, c: char) -> (res: bool)
    ensures
        res == s@.contains(c),
{
    let res = split_at_first(s, c);
    proof {
        cut_at_first_restores(s@, c);
    }
    res.is_some()
}

/// The two parts of a string round the only occurrence of `c`.
pub(crate) fn split_at_only(s: &str, c: char) -> (res: Option<(String, String)>)
    ensures
        match res {
            Some((head, tail)) => cut_at_only(s@, c) == Some((head@, tail@)),
            None => cut_at_only(s@, c) is None,
        },
{
    match split_at_first(s, c) {
        Some((head, tail)) => if holds_char(tail.as_str(), c) {
            None
        } else {
            Some((head, tail))
        },
        None => None,
    }
}

fn digit_text(d: u64) -> (res: &'static str)
    requires
        d < 10,
    ensures
        res@ == seq![digit(d as nat)],
{
    proof {
        reveal_strlit("0");
        reveal_strlit("1");
        reveal_strlit("2");
        reveal_strlit("3");
        reveal_strlit("4");
        reveal_strlit("5");
        reveal_strlit("6");
        reveal_strlit("7");
        reveal_strlit("8");
        reveal_strlit("9");
    }
    let res = match d {
        0 => "0",
        1 => "1",
        2 => "2",
        3 => "3",
        4 => "4",
        5 => "5",
        6 => "6",
        7 => "7",
        8 => "8",
        _ => "9",
    };
    assert(res@ =~= seq![digit(d as nat)]);
    res
}

/// The decimal notation of an unsigned integer.
pub fn decimal_text(n: u64) -> (res: String)
    ensures
        res@ == decimal(n as nat),
    decreases n,
{
    if n < 10 {
        digit_text(n).to_owned()
    } else {
        let mut res = decimal_text(n / 10);
        res.append(digit_text(n % 10));
        assert(res@ =~= decimal(n as nat));
        res
    }
}

/// The decimal notation of a signed integer.
pub(crate) fn decimal_int_text(n: i64) -> (res: String)
    ensures
        res@ == decimal_int(n as int),
{
    if n < 0 {
        proof {
            reveal_strlit("-");
        }
        // the magnitude of the least integer does not fit in its own type
        let magnitude: u64 = (-(n as i128)) as u64;
        let mut res = "-".to_owned();
        let digits = decimal_text(magnitude);
        res.append(digits.as_str());
        assert(res@ =~= decimal_int(n as int));
        res
    } else {
        decimal_text(n as u64)
    }
}

/// The 64-bit integer that a string denotes.
pub(crate) fn parse_i64(s: &str) -> (res: Option<i64>)
    ensures
        res == parsed_i64(s@),
{
    let chars = chars_of(s);
    let negative: bool = chars.len() > 0 && chars[0] == '-';
    let start: usize = if chars.len() > 0 && (chars[0] == '-' || chars[0] == '+') {
        1
    } else {
        0
    };
    let ghost digits = unsigned_part(s@);
    assert(digits =~= s@.skip(start as int));
    if chars.len() == start {
        return None;
    }
    let limit: u64 = 0x8000_0000_0000_0000;
    let mut value: u64 = 0;
    let mut i: usize = start;
    assert(digits.take(0) =~= Seq::<char>::empty());
    while i < chars.len()
        invariant
            chars@ == s@,
            digits == s@.skip(start as int),
            start <= i <= chars.len(),
            limit == 0x8000_0000_0000_0000,
            value <= limit,
            digits_value(digits.take(i - start)) == Some(value as nat),
            start == 1 ==> s@.len() > 0 && (s@[0] == '-' || s@[0] == '+'),
            start == 0 || start == 1,
            digits == unsigned_part(s@),
            digits.len() > 0,
        decreases chars.len() - i,
    {
        let c = chars[i];
        let ghost upto = digits.take(i - start + 1);
        proof {
            assert(upto.drop_last() =~= digits.take(i - start));
            assert(upto.last() == c);
            if digits_value(digits) is Some {
                lemma_digits_value_grows(digits, i - start + 1);
            }
        }
        if c < '0' || '9' < c {
            return None;
        }
        let d: u64 = (c as u64) - ('0' as u64);
        if value > 922337203685477580 || value * 10 > limit - d {
            assert(digits_value(upto) == Some((10 * value + d) as nat));
            return None;
        }
        value = value * 10 + d;
        i += 1;
    }
    assert(digits.take(i - start) =~= digits);
    if negative {
        if value == limit {
            Some(i64::MIN)
        } else {
            Some(-(value as i64))
        }
    } else if value == limit {
        None
    } else {
        Some(value as i64)
    }
}

/// `a|b|c`.
pub(crate) fn piped_text(a: &str, b: &str, c: &str) -> (res: String)
    ensures
        res@ == piped(a@, b@, c@),
{
    proof {
        reveal_strlit("|");
    }
    let mut res = a.to_owned();
    res.append("|");
    res.append(b);
    res.append("|");
    res.append(c);
    assert(res@ =~= piped(a@, b@, c@));
    res
}

/// The bytes of `a|b|c`: what is signed on behalf of an identifier, a nonce and a time.
pub open spec fn payload_bytes(identifier: Seq<char>, nonce: Seq<char>, timestamp: i64) -> Seq<u8> {
    vstd::utf8::encode_utf8(piped(identifier, nonce, decimal_int(timestamp as int)))
}

/// Builds the bytes of `identifier|nonce|timestamp`.
pub(crate) fn payload(identifier: &str, nonce: &str, timestamp: i64) -> (res: Vec<u8>)
    ensures
        res@ == payload_bytes(identifier@, nonce@, timestamp),
{
    let time = decimal_int_text(timestamp);
    let text = piped_text(identifier, nonce, time.as_str());
    text.as_str().as_bytes_vec()
}

/// What `str::to_lowercase` makes of a text.
pub uninterp spec fn lowercased(s: Seq<char>) -> Seq<char>;

/// The lower-case form of an ASCII text.
pub open spec fn ascii_lowercased(s: Seq<char>) -> Seq<char> {
    Seq::new(
        s.len(),
        |i: int|
            if 'A' <= s[i] && s[i] <= 'Z' {
                (s[i] as int + 32) as char
            } else {
                s[i]
            },
    )
}

/// Calls `str::to_lowercase`. The result depends on the text alone; on an ASCII text the
/// letters `A` to `Z` become `a` to `z` and the rest stays.
#[verifier::external_body]
fn to_lowercase(s: &str) -> (res: String)
    ensures
        res@ == lowercased(s@),
        vstd::utf8::is_ascii_chars(s@) ==> res@ == ascii_lowercased(s@),
{
    s.to_lowercase()
}

/// Whether a text is `true`, in letters of any case.
pub open spec fn says_true(s: Seq<char>) -> bool {
    if vstd::utf8::is_ascii_chars(s) {
        ascii_lowercased(s) == "true"@
    } else {
        lowercased(s) == "true"@
    }
}

/// Whether a text is `true`, in letters of any case.
pub(crate) fn is_true(s: &str) -> (res: bool)
    ensures
        res == says_true(s@),
{
    let lower = to_lowercase(s);
    same_text(lower.as_str(), "true")
}

/// A copy of an optional string.
pub(crate) fn copy_opt(o: &Option<String>) -> (res: Option<String>)
    ensures
        opt_text(res) == opt_text(*o),
        res is Some <==> *o is Some,
{
    match o {
        Some(s) => Some(s.clone()),
        None => None,
    }
}

/// An owned copy of an optional string slice.
pub(crate) fn own_opt(o: Option<&str>) -> (res: Option<String>)
    ensures
        opt_text(res) == opt_str(o),
{
    match o {
        Some(s) => Some(s.to_owned()),
        None => None,
    }
}

/// A copy of a list of strings.
pub(crate) fn copy_texts(v: &[String]) -> (res: Vec<String>)
    ensures
        texts(res@) == texts(v@),
{
    let mut res: Vec<String> = Vec::new();
    let mut i: usize = 0;
    while i < v.len()
        invariant
            i <= v.len(),
            res.len() == i,
            forall|j: int| 0 <= j < i ==> (#[trigger] res@[j])@ == v@[j]@,
        decreases v.len() - i,
    {
        res.push(v[i].clone());
        i += 1;
    }
    assert(texts(res@) =~= texts(v@));
    res
}

} // verus!
