use vstd::prelude::*;

verus! {

// ---------------------------------------------------------------------------
// Decimal digits and numbers
// ---------------------------------------------------------------------------

/// A character is an ASCII decimal digit.
pub open spec fn is_digit(c: char) -> bool {
    '0' <= c && c <= '9'
}

/// Numeric value of a single decimal digit.
pub open spec fn digit_val(c: char) -> nat
    recommends
        is_digit(c),
{
    (c as nat - '0' as nat) as nat
}

/// Every character of the sequence is a decimal digit.
pub open spec fn all_digits(s: Seq<char>) -> bool {
    forall|i: int| 0 <= i < s.len() ==> is_digit(#[trigger] s[i])
}

/// Value of a sequence of decimal digits, most significant first.
pub open spec fn dec_value(s: Seq<char>) -> nat
    decreases s.len(),
{
    if s.len() == 0 {
        0
    } else {
        dec_value(s.drop_last()) * 10 + digit_val(s.last())
    }
}

/// The digit character for a value below ten.
pub open spec fn digit_char(n: nat) -> char
    recommends
        n < 10,
{
    if n == 0 { '0' } else if n == 1 { '1' } else if n == 2 { '2' }
    else if n == 3 { '3' } else if n == 4 { '4' } else if n == 5 { '5' }
    else if n == 6 { '6' } else if n == 7 { '7' } else if n == 8 { '8' }
    else { '9' }
}

/// Canonical decimal representation of a natural number (no leading zeros).
pub open spec fn dec_string(n: nat) -> Seq<char>
    decreases n,
{
    if n < 10 {
        seq![digit_char(n)]
    } else {
        dec_string(n / 10).push(digit_char(n % 10))
    }
}

pub proof fn lemma_dec_string_digits(n: nat)
    ensures
        dec_string(n).len() >= 1,
        all_digits(dec_string(n)),
    decreases n,
{
    if n >= 10 {
        lemma_dec_string_digits(n / 10);
    }
}

proof fn lemma_digit_char_val(n: nat)
    requires
        n < 10,
    ensures
        digit_val(digit_char(n)) == n,
{
    assert('0' as nat == 48);
    assert('9' as nat == 57);
}

/// The canonical representation of a number evaluates back to that number.
pub proof fn lemma_dec_round_trip(n: nat)
    ensures
        dec_value(dec_string(n)) == n,
    decreases n,
{
    lemma_digit_char_val(n % 10);
    if n < 10 {
        lemma_digit_char_val(n);
        let s = dec_string(n);
        assert(s.len() == 1);
        assert(s.last() == digit_char(n));
        assert(s.drop_last() =~= Seq::<char>::empty());
        assert(dec_value(s.drop_last()) == 0);
        assert(dec_value(s) == dec_value(s.drop_last()) * 10 + digit_val(s.last()));
        assert(dec_value(s) == digit_val(digit_char(n)));
    } else {
        lemma_dec_round_trip(n / 10);
        assert(dec_string(n).drop_last() =~= dec_string(n / 10));
        assert(dec_value(dec_string(n)) == (n / 10) * 10 + n % 10);
        assert(n == (n / 10) * 10 + n % 10) by (nonlinear_arith);
    }
}

/// A longer prefix of a digit string never has a smaller value.
pub proof fn lemma_dec_value_prefix_mono(s: Seq<char>, i: int, j: int)
    requires
        0 <= i <= j <= s.len(),
    ensures
        dec_value(s.subrange(0, j)) >= dec_value(s.subrange(0, i)),
    decreases j - i,
{
    if i < j {
        lemma_dec_value_prefix_mono(s, i, j - 1);
        let p = s.subrange(0, j);
        assert(p.drop_last() =~= s.subrange(0, j - 1));
        assert(dec_value(p) == dec_value(p.drop_last()) * 10 + digit_val(p.last()));
        assert(dec_value(p.drop_last()) * 10 >= dec_value(p.drop_last())) by (nonlinear_arith)
            requires dec_value(p.drop_last()) >= 0;
    }
}

fn try_digit(c: char) -> (r: Option<u8>)
    ensures
        r is Some <==> is_digit(c),
        r is Some ==> r->0 == digit_val(c),
{
    let v = c as u32;
    if 48 <= v && v <= 57 {
        Some((v - 48) as u8)
    } else {
        None
    }
}

/// Parses a string of decimal digits into a `u64`.
///
/// Succeeds exactly on non-empty all-digit strings whose value fits.
pub fn parse_u64(s: &str) -> (r: Option<u64>)
    ensures
        r is Some <==> s@.len() > 0 && all_digits(s@) && dec_value(s@) <= u64::MAX,
        r matches Some(v) ==> v == dec_value(s@),
{
    let len = s.unicode_len();
    if len == 0 {
        return None;
    }
    let mut acc: u64 = 0;
    let mut i: usize = 0;
    while i < len
        invariant
            0 < len == s@.len(),
            0 <= i <= len,
            all_digits(s@.subrange(0, i as int)),
            acc == dec_value(s@.subrange(0, i as int)),
        decreases len - i,
    {
        let c = s.get_char(i);
        let d = match try_digit(c) {
            Some(d) => d,
            None => {
                assert(!is_digit(s@[i as int]));
                return None;
            },
        };
        if acc > (u64::MAX - d as u64) / 10 {
            proof {
                let p = s@.subrange(0, i + 1);
                assert(p.drop_last() =~= s@.subrange(0, i as int));
                assert(dec_value(p) == acc * 10 + digit_val(s@[i as int]));
                assert(acc * 10 + d as nat > u64::MAX) by (nonlinear_arith)
                    requires acc > (u64::MAX - d as u64) / 10, 0 <= d < 10;
                lemma_dec_value_prefix_mono(s@, i + 1, s@.len() as int);
                assert(s@.subrange(0, s@.len() as int) =~= s@);
            }
            return None;
        }
        proof {
            let p = s@.subrange(0, i + 1);
            assert(p.drop_last() =~= s@.subrange(0, i as int));
            assert(acc * 10 + d as nat <= u64::MAX) by (nonlinear_arith)
                requires acc <= (u64::MAX - d as u64) / 10, 0 <= d < 10;
        }
        acc = acc * 10 + d as u64;
        i = i + 1;
    }
    assert(s@.subrange(0, len as int) =~= s@);
    Some(acc)
}

/// Parses a string of decimal digits into a `u16`.
pub fn parse_u16(s: &str) -> (r: Option<u16>)
    ensures
        r is Some <==> s@.len() > 0 && all_digits(s@) && dec_value(s@) <= u16::MAX,
        r matches Some(v) ==> v == dec_value(s@),
{
    match parse_u64(s) {
        Some(v) if v <= u16::MAX as u64 => Some(v as u16),
        _ => None,
    }
}

/// Parses a string of decimal digits into a `u8`.
pub fn parse_u8(s: &str) -> (r: Option<u8>)
    ensures
        r is Some <==> s@.len() > 0 && all_digits(s@) && dec_value(s@) <= u8::MAX,
        r matches Some(v) ==> v == dec_value(s@),
{
    match parse_u64(s) {
        Some(v) if v <= u8::MAX as u64 => Some(v as u8),
        _ => None,
    }
}

/// Appends one character to a string.
///
/// Relies on `String::push`: the character is appended at the end.
#[verifier::external_body]
pub fn push_char(s: &mut String, c: char)
    ensures
        final(s)@ == old(s)@ + seq![c],
{
    s.push(c);
}

fn digit_to_char(d: u8) -> (c: char)
    requires
        d < 10,
    ensures
        c == digit_char(d as nat),
{
    match d {
        0 => '0',
        1 => '1',
        2 => '2',
        3 => '3',
        4 => '4',
        5 => '5',
        6 => '6',
        7 => '7',
        8 => '8',
        _ => '9',
    }
}

/// Renders a `u64` in canonical decimal notation.
pub fn u64_to_string(n: u64) -> (s: String)
    ensures
        s@ == dec_string(n as nat),
    decreases n,
{
    if n < 10 {
        let mut s = String::new();
        push_char(&mut s, digit_to_char(n as u8));
        assert(s@ =~= dec_string(n as nat));
        s
    } else {
        let mut s = u64_to_string(n / 10);
        push_char(&mut s, digit_to_char((n % 10) as u8));
        assert(s@ =~= dec_string(n as nat));
        s
    }
}

/// The value of a score text in hundredths of a point: decimal digits with an
/// optional dot-separated fraction of one or two digits.
pub open spec fn score_of(s: Seq<char>) -> Option<nat> {
    let k = find_idx(s, '.');
    if k == s.len() {
        if s.len() > 0 && all_digits(s) {
            Some(dec_value(s) * 100)
        } else {
            None
        }
    } else {
        let ip = s.subrange(0, k);
        let fp = s.subrange(k + 1, s.len() as int);
        if ip.len() > 0 && all_digits(ip) && 1 <= fp.len() <= 2 && all_digits(fp) {
            Some(
                dec_value(ip) * 100 + (if fp.len() == 1 {
                    dec_value(fp) * 10
                } else {
                    dec_value(fp)
                }),
            )
        } else {
            None
        }
    }
}

/// Parses a score text into hundredths of a point.
pub fn parse_score(s: &str) -> (r: Option<u64>)
    ensures
        r is Some <==> (score_of(s@) matches Some(v) && v <= u64::MAX),
        r matches Some(v) ==> score_of(s@) == Some(v as nat),
{
    let len = s.unicode_len();
    let k = find_char(s, '.');
    if k == len {
        let i = match parse_u64(s) {
            Some(i) => i,
            None => {
                return None;
            },
        };
        if i > u64::MAX / 100 {
            proof {
                assert(i * 100 > u64::MAX) by (nonlinear_arith)
                    requires i > u64::MAX / 100;
            }
            return None;
        }
        proof {
            assert(i * 100 <= u64::MAX) by (nonlinear_arith)
                requires i <= u64::MAX / 100;
        }
        Some(i * 100)
    } else {
        let ip = s.substring_char(0, k);
        let fp = s.substring_char(k + 1, len);
        assert(ip@ =~= s@.subrange(0, k as int));
        assert(fp@ =~= s@.subrange(k + 1, s@.len() as int));
        let flen = fp.unicode_len();
        if flen == 0 || flen > 2 {
            return None;
        }
        let i = match parse_u64(ip) {
            Some(i) => i,
            None => {
                return None;
            },
        };
        let f_raw = match parse_u64(fp) {
            Some(f) => f,
            None => {
                return None;
            },
        };
        proof {
            crate::text::lemma_dec_value_prefix_mono(fp@, 0, fp@.len() as int);
            assert(fp@.subrange(0, fp@.len() as int) =~= fp@);
            assert(dec_value(fp@) < 100) by {
                if fp@.len() == 1 {
                    assert(dec_value(fp@) == dec_value(fp@.drop_last()) * 10 + digit_val(
                        fp@.last(),
                    ));
                    assert(fp@.drop_last().len() == 0);
                } else {
                    let p = fp@.drop_last();
                    assert(p.len() == 1);
                    assert(p.drop_last().len() == 0);
                    assert(dec_value(p.drop_last()) == 0);
                    assert(is_digit(fp@[0]));
                    assert(p.last() == fp@[0]);
                    assert(dec_value(p) == digit_val(p.last()));
                    assert(dec_value(fp@) == dec_value(p) * 10 + digit_val(fp@.last()));
                }
            }
        }
        let f = if flen == 1 {
            f_raw * 10
        } else {
            f_raw
        };
        if i > (u64::MAX - f) / 100 {
            proof {
                assert(i * 100 + f > u64::MAX) by (nonlinear_arith)
                    requires i > (u64::MAX - f) / 100, 0 <= f < 100;
            }
            return None;
        }
        proof {
            assert(i * 100 + f <= u64::MAX) by (nonlinear_arith)
                requires i <= (u64::MAX - f) / 100, 0 <= f < 100;
        }
        Some(i * 100 + f)
    }
}

// ---------------------------------------------------------------------------
// Whitespace, trimming and tokens
// ---------------------------------------------------------------------------

/// ASCII whitespace.
pub open spec fn is_ws(c: char) -> bool {
    c == ' ' || c == '\t' || c == '\n' || c == '\r'
}

/// The sequence without its leading whitespace.
pub open spec fn trim_start_spec(s: Seq<char>) -> Seq<char>
    decreases s.len(),
{
    if s.len() == 0 {
        s
    } else if is_ws(s[0]) {
        trim_start_spec(s.drop_first())
    } else {
        s
    }
}

/// The sequence without its trailing whitespace.
pub open spec fn trim_end_spec(s: Seq<char>) -> Seq<char>
    decreases s.len(),
{
    if s.len() == 0 {
        s
    } else if is_ws(s.last()) {
        trim_end_spec(s.drop_last())
    } else {
        s
    }
}

/// The sequence without leading and trailing whitespace.
pub open spec fn trimmed(s: Seq<char>) -> Seq<char> {
    trim_end_spec(trim_start_spec(s))
}

fn is_ws_exec(c: char) -> (r: bool)
    ensures
        r == is_ws(c),
{
    c == ' ' || c == '\t' || c == '\n' || c == '\r'
}

fn trim_start<'a>(s: &'a str) -> (r: &'a str)
    ensures
        r@ == trim_start_spec(s@),
    decreases s@.len(),
{
    let len = s.unicode_len();
    if len == 0 {
        s
    } else if is_ws_exec(s.get_char(0)) {
        let rest = s.substring_char(1, len);
        assert(rest@ =~= s@.drop_first());
        trim_start(rest)
    } else {
        s
    }
}

fn trim_end<'a>(s: &'a str) -> (r: &'a str)
    ensures
        r@ == trim_end_spec(s@),
    decreases s@.len(),
{
    let len = s.unicode_len();
    if len == 0 {
        s
    } else if is_ws_exec(s.get_char(len - 1)) {
        let rest = s.substring_char(0, len - 1);
        assert(rest@ =~= s@.drop_last());
        trim_end(rest)
    } else {
        s
    }
}

/// Removes leading and trailing ASCII whitespace.
pub fn trim<'a>(s: &'a str) -> (r: &'a str)
    ensures
        r@ == trimmed(s@),
{
    trim_end(trim_start(s))
}

/// Index of the first occurrence of `c`, or the length if absent.
pub open spec fn find_idx(s: Seq<char>, c: char) -> int
    decreases s.len(),
{
    if s.len() == 0 {
        0
    } else if s[0] == c {
        0
    } else {
        1 + find_idx(s.drop_first(), c)
    }
}

pub proof fn lemma_find_idx_bounds(s: Seq<char>, c: char)
    ensures
        0 <= find_idx(s, c) <= s.len(),
        find_idx(s, c) < s.len() ==> s[find_idx(s, c)] == c,
        forall|j: int| 0 <= j < find_idx(s, c) ==> s[j] != c,
    decreases s.len(),
{
    if s.len() > 0 && s[0] != c {
        lemma_find_idx_bounds(s.drop_first(), c);
        assert forall|j: int| 0 <= j < find_idx(s, c) implies s[j] != c by {
            if j > 0 {
                assert(s.drop_first()[j - 1] != c);
            }
        }
    }
}

/// Index of the first occurrence of `c` in `s`, or the length if absent.
pub fn find_char(s: &str, c: char) -> (r: usize)
    ensures
        r == find_idx(s@, c),
        r <= s@.len(),
    decreases s@.len(),
{
    proof {
        lemma_find_idx_bounds(s@, c);
    }
    let len = s.unicode_len();
    if len == 0 {
        0
    } else if s.get_char(0) == c {
        0
    } else {
        let rest = s.substring_char(1, len);
        assert(rest@ =~= s@.drop_first());
        1 + find_char(rest, c)
    }
}

// ---------------------------------------------------------------------------
// Case-insensitive comparison (ASCII letters)
// ---------------------------------------------------------------------------

/// The code point of a character with an ASCII upper-case letter folded down.
pub open spec fn fold_case(c: char) -> int {
    if 'A' <= c && c <= 'Z' {
        c as int + 32
    } else {
        c as int
    }
}

/// Two sequences are equal up to ASCII letter case.
pub open spec fn eq_ci(a: Seq<char>, b: Seq<char>) -> bool {
    a.len() == b.len() && forall|i: int| 0 <= i < a.len() ==> fold_case(a[i]) == fold_case(#[trigger] b[i])
}

fn fold_case_exec(c: char) -> (r: u32)
    ensures
        r as int == fold_case(c),
{
    let v = c as u32;
    if 65 <= v && v <= 90 {
        v + 32
    } else {
        v
    }
}

/// Compares two strings, ignoring the case of ASCII letters.
pub fn eq_ignore_case(a: &str, b: &str) -> (r: bool)
    ensures
        r == eq_ci(a@, b@),
{
    let alen = a.unicode_len();
    let blen = b.unicode_len();
    if alen != blen {
        return false;
    }
    let mut i: usize = 0;
    while i < alen
        invariant
            alen == a@.len() == b@.len(),
            0 <= i <= alen,
            forall|j: int| 0 <= j < i ==> fold_case(a@[j]) == fold_case(#[trigger] b@[j]),
        decreases alen - i,
    {
        if fold_case_exec(a.get_char(i)) != fold_case_exec(b.get_char(i)) {
            return false;
        }
        i = i + 1;
    }
    true
}

// ---------------------------------------------------------------------------
// Whitespace tokenization and joining
// ---------------------------------------------------------------------------

/// Index of the first whitespace character, or the length if absent.
pub open spec fn find_ws(s: Seq<char>) -> int
    decreases s.len(),
{
    if s.len() == 0 {
        0
    } else if is_ws(s[0]) {
        0
    } else {
        1 + find_ws(s.drop_first())
    }
}

pub proof fn lemma_find_ws_bounds(s: Seq<char>)
    ensures
        0 <= find_ws(s) <= s.len(),
        find_ws(s) < s.len() ==> is_ws(s[find_ws(s)]),
        forall|j: int| 0 <= j < find_ws(s) ==> !is_ws(s[j]),
    decreases s.len(),
{
    if s.len() > 0 && !is_ws(s[0]) {
        lemma_find_ws_bounds(s.drop_first());
        assert forall|j: int| 0 <= j < find_ws(s) implies !is_ws(s[j]) by {
            if j > 0 {
                assert(!is_ws(s.drop_first()[j - 1]));
            }
        }
    }
}

/// The whitespace-separated tokens of a sequence, in order.
pub open spec fn tokens_of(s: Seq<char>) -> Seq<Seq<char>>
    decreases s.len()
        via tokens_of_decreases
{
    if s.len() == 0 {
        Seq::empty()
    } else if is_ws(s[0]) {
        tokens_of(s.drop_first())
    } else {
        let k = find_ws(s);
        seq![s.subrange(0, k)] + tokens_of(s.subrange(k, s.len() as int))
    }
}

#[via_fn]
proof fn tokens_of_decreases(s: Seq<char>) {
    lemma_find_ws_bounds(s);
}

/// Every token is non-empty.
pub proof fn lemma_tokens_nonempty(s: Seq<char>)
    ensures
        forall|i: int| 0 <= i < tokens_of(s).len() ==> #[trigger] tokens_of(s)[i].len() > 0,
    decreases s.len(),
{
    if s.len() == 0 {
    } else if is_ws(s[0]) {
        lemma_tokens_nonempty(s.drop_first());
        assert(tokens_of(s) == tokens_of(s.drop_first()));
    } else {
        lemma_find_ws_bounds(s);
        let k = find_ws(s);
        assert(k >= 1);
        let rest = s.subrange(k, s.len() as int);
        lemma_tokens_nonempty(rest);
        assert(tokens_of(s) == seq![s.subrange(0, k)] + tokens_of(rest));
        assert forall|i: int| 0 <= i < tokens_of(s).len() implies #[trigger] tokens_of(s)[i].len() > 0 by {
            if i == 0 {
                assert(tokens_of(s)[0] == s.subrange(0, k));
                assert(s.subrange(0, k).len() == k);
            } else {
                assert(tokens_of(s)[i] == tokens_of(rest)[i - 1]);
                assert(tokens_of(rest)[i - 1].len() > 0);
            }
        }
    }
}

fn find_ws_char(s: &str) -> (r: usize)
    ensures
        r == find_ws(s@),
        r <= s@.len(),
    decreases s@.len(),
{
    proof {
        lemma_find_ws_bounds(s@);
    }
    let len = s.unicode_len();
    if len == 0 {
        0
    } else if is_ws_exec(s.get_char(0)) {
        0
    } else {
        let rest = s.substring_char(1, len);
        assert(rest@ =~= s@.drop_first());
        1 + find_ws_char(rest)
    }
}

/// Splits a string into its whitespace-separated tokens.
pub fn split_ws(s: &str) -> (r: Vec<String>)
    ensures
        r.deep_view() == tokens_of(s@),
    decreases s@.len(),
{
    let len = s.unicode_len();
    if len == 0 {
        let r: Vec<String> = Vec::new();
        assert(r.deep_view() =~= tokens_of(s@));
        r
    } else if is_ws_exec(s.get_char(0)) {
        let rest = s.substring_char(1, len);
        assert(rest@ =~= s@.drop_first());
        split_ws(rest)
    } else {
        proof {
            lemma_find_ws_bounds(s@);
        }
        let k = find_ws_char(s);
        let tok = s.substring_char(0, k);
        let tail = s.substring_char(k, len);
        let mut r = split_ws(tail);
        r.insert(0, tok.to_owned());
        assert(r.deep_view() =~= tokens_of(s@));
        r
    }
}

/// The parts joined with single spaces.
pub open spec fn join_sp(parts: Seq<Seq<char>>) -> Seq<char>
    decreases parts.len(),
{
    if parts.len() == 0 {
        Seq::empty()
    } else if parts.len() == 1 {
        parts[0]
    } else {
        parts[0] + seq![' '] + join_sp(parts.drop_first())
    }
}

/// A join that starts with a non-empty part is non-empty.
pub proof fn lemma_join_nonempty(parts: Seq<Seq<char>>)
    requires
        parts.len() >= 1,
        parts[0].len() > 0,
    ensures
        join_sp(parts).len() > 0,
{
}

/// Joins strings with single spaces.
pub fn join_spaces(parts: &Vec<String>, from: usize, to: usize) -> (r: String)
    requires
        from <= to <= parts@.len(),
    ensures
        r@ == join_sp(parts.deep_view().subrange(from as int, to as int)),
    decreases to - from,
{
    if from == to {
        let r = String::new();
        assert(r@ =~= join_sp(parts.deep_view().subrange(from as int, to as int)));
        r
    } else if from + 1 == to {
        let r = parts[from].clone();
        assert(parts.deep_view().subrange(from as int, to as int) =~= seq![parts.deep_view()[from as int]]);
        r
    } else {
        let mut r = parts[from].clone();
        r.append(" ");
        let rest = join_spaces(parts, from + 1, to);
        let r2 = r.concat(rest.as_str());
        proof {
            reveal_strlit(" ");
            let ps = parts.deep_view().subrange(from as int, to as int);
            assert(ps.drop_first() =~= parts.deep_view().subrange(from + 1, to as int));
            assert(ps[0] == parts.deep_view()[from as int]);
            assert(r2@ =~= join_sp(ps));
        }
        r2
    }
}

/// The view of an optional string.
pub open spec fn opt_view(s: Option<String>) -> Option<Seq<char>> {
    match s {
        Some(v) => Some(v@),
        None => None,
    }
}

/// The text after the last slash; the whole text if it holds no slash.
pub open spec fn last_seg(s: Seq<char>) -> Seq<char>
    decreases s.len()
        via last_seg_decreases
{
    let k = find_idx(s, '/');
    if k == s.len() {
        s
    } else {
        last_seg(s.subrange(k + 1, s.len() as int))
    }
}

#[via_fn]
proof fn last_seg_decreases(s: Seq<char>) {
    lemma_find_idx_bounds(s, '/');
}

/// The last slash-separated segment of a path.
pub fn last_segment<'a>(s: &'a str) -> (r: &'a str)
    ensures
        r@ == last_seg(s@),
    decreases s@.len(),
{
    proof {
        lemma_find_idx_bounds(s@, '/');
    }
    let len = s.unicode_len();
    let k = find_char(s, '/');
    if k == len {
        s
    } else {
        let rest = s.substring_char(k + 1, len);
        assert(rest@ =~= s@.subrange(k + 1, s@.len() as int));
        last_segment(rest)
    }
}

/// The digits of a path segment read as a `u64`, if they are one.
pub open spec fn seg_id(s: Seq<char>) -> Option<u64> {
    let seg = last_seg(s);
    if seg.len() > 0 && all_digits(seg) && dec_value(seg) <= u64::MAX {
        Some(dec_value(seg) as u64)
    } else {
        None
    }
}

/// Reads the numeric id that ends a path: its last slash-separated segment.
pub fn parse_path_id(s: &str) -> (r: Option<u64>)
    ensures
        r == seg_id(s@),
{
    let seg = last_segment(s);
    parse_u64(seg)
}

/// Character-for-character string equality.
pub fn str_eq(a: &str, b: &str) -> (r: bool)
    ensures
        r == (a@ == b@),
{
    let alen = a.unicode_len();
    let blen = b.unicode_len();
    if alen != blen {
        return false;
    }
    let mut i: usize = 0;
    while i < alen
        invariant
            alen == a@.len() == b@.len(),
            0 <= i <= alen,
            forall|j: int| 0 <= j < i ==> a@[j] == #[trigger] b@[j],
        decreases alen - i,
    {
        if a.get_char(i) != b.get_char(i) {
            assert(a@ != b@);
            return false;
        }
        i = i + 1;
    }
    assert(a@ =~= b@);
    true
}

/// If `c` does not occur in `s` at all, the search runs off the end.
pub proof fn lemma_find_idx_absent(s: Seq<char>, c: char)
    requires
        forall|i: int| 0 <= i < s.len() ==> s[i] != c,
    ensures
        find_idx(s, c) == s.len(),
    decreases s.len(),
{
    if s.len() > 0 {
        lemma_find_idx_absent(s.drop_first(), c);
    }
}

/// If `c` does not occur in `a`, the first occurrence of `c` in
/// `a + [c] + rest` is exactly at the end of `a`.
pub proof fn lemma_find_idx_concat(a: Seq<char>, c: char, rest: Seq<char>)
    requires
        forall|i: int| 0 <= i < a.len() ==> a[i] != c,
    ensures
        find_idx(a + seq![c] + rest, c) == a.len(),
    decreases a.len(),
{
    let s = a + seq![c] + rest;
    if a.len() == 0 {
        assert(s[0] == c);
    } else {
        assert(s[0] == a[0]);
        lemma_find_idx_concat(a.drop_first(), c, rest);
        assert(s.drop_first() =~= a.drop_first() + seq![c] + rest);
    }
}

// ---------------------------------------------------------------------------
// Prefix test
// ---------------------------------------------------------------------------

/// Whether `p` starts the string `s`.
pub fn starts_with(s: &str, p: &str) -> (r: bool)
    ensures
        r == p@.is_prefix_of(s@),
{
    let plen = p.unicode_len();
    let slen = s.unicode_len();
    if plen > slen {
        assert(!p@.is_prefix_of(s@));
        return false;
    }
    let mut i: usize = 0;
    while i < plen
        invariant
            plen == p@.len() <= slen == s@.len(),
            0 <= i <= plen,
            forall|j: int| 0 <= j < i ==> p@[j] == s@[j],
        decreases plen - i,
    {
        if s.get_char(i) != p.get_char(i) {
            assert(!p@.is_prefix_of(s@));
            return false;
        }
        i = i + 1;
    }
    assert(p@ =~= s@.subrange(0, plen as int));
    true
}

} // verus!
