use vstd::prelude::*;

verus! {

// ---------------------------------------------------------------------------
// Character classes
// ---------------------------------------------------------------------------

/// ASCII whitespace: the characters removed by trimming.
pub open spec fn is_space(c: char) -> bool {
    c == ' ' || c == '\t' || c == '\n' || c == '\r' || c == '\u{000B}' || c == '\u{000C}'
}

pub fn is_space_char(c: char) -> (r: bool)
    ensures
        r == is_space(c),
{
    c == ' ' || c == '\t' || c == '\n' || c == '\r' || c == '\u{000B}' || c == '\u{000C}'
}

pub open spec fn is_digit(c: char) -> bool {
    48 <= c as u32 && c as u32 <= 57
}

pub fn is_digit_char(c: char) -> (r: bool)
    ensures
        r == is_digit(c),
{
    let u = c as u32;
    48 <= u && u <= 57
}

pub open spec fn digit_val(c: char) -> nat {
    (c as u32 - 48) as nat
}

// ---------------------------------------------------------------------------
// Trimming
// ---------------------------------------------------------------------------

/// The sequence with leading whitespace removed.
pub open spec fn spec_trim_front(s: Seq<char>) -> Seq<char>
    decreases s.len(),
{
    if s.len() > 0 && is_space(s[0]) {
        spec_trim_front(s.drop_first())
    } else {
        s
    }
}

/// The sequence with trailing whitespace removed.
pub open spec fn spec_trim_back(s: Seq<char>) -> Seq<char>
    decreases s.len(),
{
    if s.len() > 0 && is_space(s.last()) {
        spec_trim_back(s.drop_last())
    } else {
        s
    }
}

/// The sequence with leading and trailing whitespace removed.
pub open spec fn spec_trim(s: Seq<char>) -> Seq<char> {
    spec_trim_back(spec_trim_front(s))
}

fn trim_front_str(s: &str) -> (r: &str)
    ensures
        r@ == spec_trim_front(s@),
    decreases s@.len(),
{
    let n = s.unicode_len();
    if n > 0 && is_space_char(s.get_char(0)) {
        let rest = s.substring_char(1, n);
        assert(rest@ =~= s@.drop_first());
        trim_front_str(rest)
    } else {
        s
    }
}

fn trim_back_str(s: &str) -> (r: &str)
    ensures
        r@ == spec_trim_back(s@),
    decreases s@.len(),
{
    let n = s.unicode_len();
    if n > 0 && is_space_char(s.get_char(n - 1)) {
        let rest = s.substring_char(0, n - 1);
        assert(rest@ =~= s@.drop_last());
        trim_back_str(rest)
    } else {
        s
    }
}

/// Remove leading and trailing whitespace.
pub fn trim_whitespace(s: &str) -> (r: String)
    ensures
        r@ == spec_trim(s@),
{
    String::from_str(trim_back_str(trim_front_str(s)))
}

/// After `spec_trim_back` the last character, if any, is not whitespace;
/// trimming the back keeps the first character when it is not whitespace.
pub proof fn lemma_trim_back_no_trailing_space(s: Seq<char>)
    ensures
        spec_trim_back(s).len() > 0 ==> !is_space(spec_trim_back(s).last()),
        spec_trim_back(spec_trim_back(s)) == spec_trim_back(s),
        s.len() > 0 && !is_space(s[0]) ==> spec_trim_back(s).len() > 0 && spec_trim_back(s)[0]
            == s[0],
        spec_trim_front(s) == s ==> spec_trim_front(spec_trim_back(s)) == spec_trim_back(s),
    decreases s.len(),
{
    if s.len() > 0 && is_space(s.last()) {
        lemma_trim_back_no_trailing_space(s.drop_last());
        if spec_trim_front(s) == s {
            if is_space(s[0]) {
                lemma_trim_front_len(s.drop_first());
                assert(false);
            }
            if s.len() > 1 {
                assert(s.drop_last()[0] == s[0]);
                assert(!is_space(s[0]));
                assert(spec_trim_front(s.drop_last()) == s.drop_last()) by {
                    lemma_trim_front_of_nonspace_head(s.drop_last());
                }
            } else {
                assert(spec_trim_back(s) =~= Seq::<char>::empty());
            }
        }
    }
}

/// Front trimming never lengthens a sequence.
pub proof fn lemma_trim_front_len(s: Seq<char>)
    ensures
        spec_trim_front(s).len() <= s.len(),
    decreases s.len(),
{
    if s.len() > 0 && is_space(s[0]) {
        lemma_trim_front_len(s.drop_first());
    }
}

/// A sequence whose first character is not whitespace is unchanged by front trimming.
pub proof fn lemma_trim_front_of_nonspace_head(s: Seq<char>)
    ensures
        s.len() > 0 && !is_space(s[0]) ==> spec_trim_front(s) == s,
        s.len() == 0 ==> spec_trim_front(s) == s,
{
}

// ---------------------------------------------------------------------------
// String comparison
// ---------------------------------------------------------------------------

/// Character-for-character string equality.
pub fn str_eq(a: &str, b: &str) -> (r: bool)
    ensures
        r == (a@ == b@),
{
    let na = a.unicode_len();
    let nb = b.unicode_len();
    if na != nb {
        assert(a@ != b@);
        return false;
    }
    let mut i: usize = 0;
    while i < na
        invariant
            na == a@.len(),
            na == b@.len(),
            i <= na,
            forall|k: int| 0 <= k < i ==> a@[k] == b@[k],
        decreases na - i,
    {
        if a.get_char(i) != b.get_char(i) {
            assert(a@ != b@);
            return false;
        }
        i = i + 1;
    }
    proof {
        assert(a@ =~= b@);
    }
    true
}

/// Equality of a `String` against a literal.
pub fn string_eq_str(a: &String, b: &str) -> (r: bool)
    ensures
        r == (a@ == b@),
{
    str_eq(a.as_str(), b)
}

// ---------------------------------------------------------------------------
// Digit strings and numbers
// ---------------------------------------------------------------------------

pub open spec fn all_digits(s: Seq<char>) -> bool {
    forall|i: int| 0 <= i < s.len() ==> is_digit(s[i])
}

pub fn str_all_digits(s: &str) -> (r: bool)
    ensures
        r == all_digits(s@),
{
    let n = s.unicode_len();
    let mut i: usize = 0;
    while i < n
        invariant
            n == s@.len(),
            i <= n,
            forall|k: int| 0 <= k < i ==> is_digit(s@[k]),
        decreases n - i,
    {
        if !is_digit_char(s.get_char(i)) {
            return false;
        }
        i = i + 1;
    }
    true
}

/// The number denoted by a digit string, most significant digit first.
pub open spec fn spec_num(s: Seq<char>) -> nat
    decreases s.len(),
{
    if s.len() == 0 {
        0
    } else {
        spec_num(s.drop_last()) * 10 + digit_val(s.last())
    }
}

proof fn lemma_spec_num_prefix_le(s: Seq<char>, i: int)
    requires
        0 <= i <= s.len(),
        all_digits(s),
    ensures
        spec_num(s.take(i)) <= spec_num(s),
    decreases s.len() - i,
{
    if i < s.len() {
        lemma_spec_num_prefix_le(s, i + 1);
        assert(s.take(i + 1).drop_last() =~= s.take(i));
        assert(spec_num(s.take(i + 1)) == spec_num(s.take(i)) * 10 + digit_val(s.take(i + 1).last()));
    } else {
        assert(s.take(i) =~= s);
    }
}

/// A two-character digit run denotes a number of at most two digits.
pub proof fn lemma_two_digit_num(v: Seq<char>, a: int)
    requires
        all_digits(v),
        0 <= a,
        a + 2 <= v.len(),
    ensures
        all_digits(v.subrange(a, a + 2)),
        v.subrange(a, a + 2).len() == 2,
        spec_num(v.subrange(a, a + 2)) <= 99,
{
    let s = v.subrange(a, a + 2);
    assert forall|i: int| 0 <= i < s.len() implies is_digit(s[i]) by {
        assert(s[i] == v[a + i]);
    }
    let s1 = s.drop_last();
    assert(spec_num(s) == spec_num(s1) * 10 + digit_val(s.last()));
    assert(spec_num(s1) == spec_num(s1.drop_last()) * 10 + digit_val(s1.last()));
    assert(s1.drop_last().len() == 0);
    assert(spec_num(s1.drop_last()) == 0);
    assert(s1.last() == s[0] && is_digit(s[0]));
    assert(digit_val(s1.last()) <= 9);
    assert(digit_val(s.last()) <= 9);
}

/// Parse an unsigned decimal integer.  Returns `Some` exactly when the string
/// is non-empty, consists of digits only, and the value fits in `u32`.
pub fn parse_u32(s: &str) -> (r: Option<u32>)
    ensures
        match r {
            Some(v) => s@.len() > 0 && all_digits(s@) && v == spec_num(s@) && spec_num(s@)
                <= u32::MAX,
            None => s@.len() == 0 || !all_digits(s@) || spec_num(s@) > u32::MAX,
        },
{
    let n = s.unicode_len();
    if n == 0 {
        return None;
    }
    let mut i: usize = 0;
    let mut acc: u32 = 0;
    while i < n
        invariant
            n == s@.len(),
            i <= n,
            forall|k: int| 0 <= k < i ==> is_digit(s@[k]),
            acc == spec_num(s@.take(i as int)),
        decreases n - i,
    {
        let c = s.get_char(i);
        if !is_digit_char(c) {
            return None;
        }
        let d = (c as u32) - 48;
        if acc > (u32::MAX - d) / 10 {
            proof {
                assert(s@.take(i as int + 1).drop_last() =~= s@.take(i as int));
                assert(spec_num(s@.take(i as int + 1)) == acc * 10 + d);
                if all_digits(s@) {
                    lemma_spec_num_prefix_le(s@, i as int + 1);
                }
                assert(acc * 10 + d > u32::MAX) by (nonlinear_arith)
                    requires
                        acc > (u32::MAX - d) / 10,
                        d <= 9,
                ;
            }
            return None;
        }
        proof {
            assert(acc * 10 + d <= u32::MAX) by (nonlinear_arith)
                requires
                    acc <= (u32::MAX - d) / 10,
                    d <= 9,
            ;
            assert(s@.take(i as int + 1).drop_last() =~= s@.take(i as int));
            assert(s@.take(i as int + 1).last() == s@[i as int]);
        }
        acc = acc * 10 + d;
        i = i + 1;
    }
    proof {
        assert(s@.take(n as int) =~= s@);
    }
    Some(acc)
}

/// Parse an unsigned decimal integer into `usize`.
pub fn parse_usize(s: &str) -> (r: Option<usize>)
    ensures
        match r {
            Some(v) => s@.len() > 0 && all_digits(s@) && v == spec_num(s@) && spec_num(s@)
                <= usize::MAX,
            None => s@.len() == 0 || !all_digits(s@) || spec_num(s@) > usize::MAX,
        },
{
    let n = s.unicode_len();
    if n == 0 {
        return None;
    }
    let mut i: usize = 0;
    let mut acc: usize = 0;
    while i < n
        invariant
            n == s@.len(),
            i <= n,
            forall|k: int| 0 <= k < i ==> is_digit(s@[k]),
            acc == spec_num(s@.take(i as int)),
        decreases n - i,
    {
        let c = s.get_char(i);
        if !is_digit_char(c) {
            return None;
        }
        let d = ((c as u32) - 48) as usize;
        if acc > (usize::MAX - d) / 10 {
            proof {
                assert(s@.take(i as int + 1).drop_last() =~= s@.take(i as int));
                assert(spec_num(s@.take(i as int + 1)) == acc * 10 + d);
                if all_digits(s@) {
                    lemma_spec_num_prefix_le(s@, i as int + 1);
                }
                assert(acc * 10 + d > usize::MAX) by (nonlinear_arith)
                    requires
                        acc > (usize::MAX - d) / 10,
                        d <= 9,
                ;
            }
            return None;
        }
        proof {
            assert(acc * 10 + d <= usize::MAX) by (nonlinear_arith)
                requires
                    acc <= (usize::MAX - d) / 10,
                    d <= 9,
            ;
            assert(s@.take(i as int + 1).drop_last() =~= s@.take(i as int));
            assert(s@.take(i as int + 1).last() == s@[i as int]);
        }
        acc = acc * 10 + d;
        i = i + 1;
    }
    proof {
        assert(s@.take(n as int) =~= s@);
    }
    Some(acc)
}

/// Whether a string list holds a given value.
pub fn string_vec_contains(v: &Vec<String>, value: &str) -> (r: bool)
    ensures
        r == v.deep_view().contains(value@),
{
    let mut i: usize = 0;
    while i < v.len()
        invariant
            i <= v.len(),
            forall|k: int| 0 <= k < i ==> v.deep_view()[k] != value@,
        decreases v.len() - i,
    {
        if str_eq(v[i].as_str(), value) {
            proof {
                assert(v.deep_view()[i as int] == value@);
            }
            return true;
        }
        i = i + 1;
    }
    proof {
        assert(!v.deep_view().contains(value@));
    }
    false
}

// ---------------------------------------------------------------------------
// Cloning collections of strings
// ---------------------------------------------------------------------------

/// Clone a vector of strings, preserving its contents.
pub fn clone_string_vec(v: &Vec<String>) -> (r: Vec<String>)
    ensures
        r@ == v@,
        r.deep_view() == v.deep_view(),
{
    let mut r: Vec<String> = Vec::new();
    let mut i: usize = 0;
    while i < v.len()
        invariant
            i <= v.len(),
            r@ == v@.take(i as int),
        decreases v.len() - i,
    {
        r.push(v[i].clone());
        proof {
            assert(r@ =~= v@.take(i as int + 1));
        }
        i = i + 1;
    }
    proof {
        assert(v@.take(v@.len() as int) =~= v@);
        assert(r.deep_view() =~= v.deep_view());
    }
    r
}

// ---------------------------------------------------------------------------
// Decimal formats
// ---------------------------------------------------------------------------

/// An unsigned base-10 real: digits with at most one decimal point and at
/// least one digit somewhere ("7", "7.", ".5", "10.50").
pub open spec fn is_unsigned_decimal(s: Seq<char>) -> bool {
    let i = first_idx(s, '.');
    if i == s.len() {
        s.len() > 0 && all_digits(s)
    } else {
        all_digits(s.take(i)) && all_digits(s.skip(i + 1)) && first_idx(s.skip(i + 1), '.')
            == s.len() - i - 1 && (i > 0 || s.len() > i + 1)
    }
}

/// A base-10 real with an optional leading sign.
pub open spec fn is_decimal(s: Seq<char>) -> bool {
    if s.len() > 0 && (s[0] == '+' || s[0] == '-') {
        is_unsigned_decimal(s.drop_first())
    } else {
        is_unsigned_decimal(s)
    }
}

fn str_is_unsigned_decimal(s: &str) -> (r: bool)
    ensures
        r == is_unsigned_decimal(s@),
{
    let n = s.unicode_len();
    match find_first(s, '.') {
        None => n > 0 && str_all_digits(s),
        Some(i) => {
            let head = s.substring_char(0, i);
            let tail = s.substring_char(i + 1, n);
            proof {
                assert(head@ =~= s@.take(i as int));
                assert(tail@ =~= s@.skip(i as int + 1));
            }
            let no_second_dot = match find_first(tail, '.') {
                None => true,
                Some(_) => false,
            };
            str_all_digits(head) && str_all_digits(tail) && no_second_dot && (i > 0 || n > i + 1)
        },
    }
}

/// Whether a string denotes a base-10 real with an optional sign.
pub fn str_is_decimal(s: &str) -> (r: bool)
    ensures
        r == is_decimal(s@),
{
    let n = s.unicode_len();
    if n > 0 && (s.get_char(0) == '+' || s.get_char(0) == '-') {
        let rest = s.substring_char(1, n);
        proof {
            assert(rest@ =~= s@.drop_first());
        }
        str_is_unsigned_decimal(rest)
    } else {
        str_is_unsigned_decimal(s)
    }
}

/// The strict decimal shape `digits ( "." digits )?`, both digit runs
/// non-empty.
pub open spec fn is_simple_decimal(s: Seq<char>) -> bool {
    let i = first_idx(s, '.');
    if i == s.len() {
        s.len() > 0 && all_digits(s)
    } else {
        i > 0 && s.len() > i + 1 && all_digits(s.take(i)) && all_digits(s.skip(i + 1))
            && first_idx(s.skip(i + 1), '.') == s.len() - i - 1
    }
}

/// Whether a string has the shape `digits ( "." digits )?`.
pub fn str_is_simple_decimal(s: &str) -> (r: bool)
    ensures
        r == is_simple_decimal(s@),
{
    let n = s.unicode_len();
    match find_first(s, '.') {
        None => n > 0 && str_all_digits(s),
        Some(i) => {
            let head = s.substring_char(0, i);
            let tail = s.substring_char(i + 1, n);
            proof {
                assert(head@ =~= s@.take(i as int));
                assert(tail@ =~= s@.skip(i as int + 1));
            }
            let no_second_dot = match find_first(tail, '.') {
                None => true,
                Some(_) => false,
            };
            i > 0 && n > i + 1 && str_all_digits(head) && str_all_digits(tail) && no_second_dot
        },
    }
}

// ---------------------------------------------------------------------------
// Rendering numbers
// ---------------------------------------------------------------------------

pub open spec fn digit_char(d: nat) -> char {
    if d == 0 {
        '0'
    } else if d == 1 {
        '1'
    } else if d == 2 {
        '2'
    } else if d == 3 {
        '3'
    } else if d == 4 {
        '4'
    } else if d == 5 {
        '5'
    } else if d == 6 {
        '6'
    } else if d == 7 {
        '7'
    } else if d == 8 {
        '8'
    } else {
        '9'
    }
}

/// The decimal rendering of a number, most significant digit first.
pub open spec fn spec_dec(n: nat) -> Seq<char>
    decreases n,
{
    if n < 10 {
        seq![digit_char(n)]
    } else {
        spec_dec(n / 10) + seq![digit_char(n % 10)]
    }
}

fn digit_str(d: u32) -> (r: &'static str)
    requires
        d < 10,
    ensures
        r@ =~= seq![digit_char(d as nat)],
{
    proof {
        reveal_strlit("0");
        reveal_strlit("1");
        reveal_strlit("2");
        reveal_strlit("3");
        reveal_strlit("4");
        reveal_strlit("5");
        reveal_strlit("6");
        reveal_strlit("7");
        reveal_strlit("8");
        reveal_strlit("9");
    }
    if d == 0 {
        "0"
    } else if d == 1 {
        "1"
    } else if d == 2 {
        "2"
    } else if d == 3 {
        "3"
    } else if d == 4 {
        "4"
    } else if d == 5 {
        "5"
    } else if d == 6 {
        "6"
    } else if d == 7 {
        "7"
    } else if d == 8 {
        "8"
    } else {
        "9"
    }
}

/// Render a `u32` in decimal.
pub fn u32_to_string(n: u32) -> (r: String)
    ensures
        r@ == spec_dec(n as nat),
    decreases n,
{
    if n < 10 {
        String::from_str(digit_str(n))
    } else {
        u32_to_string(n / 10).concat(digit_str(n % 10))
    }
}

/// Render a `usize` in decimal.
pub fn usize_to_string(n: usize) -> (r: String)
    ensures
        r@ == spec_dec(n as nat),
    decreases n,
{
    if n < 10 {
        String::from_str(digit_str(n as u32))
    } else {
        usize_to_string(n / 10).concat(digit_str((n % 10) as u32))
    }
}

// ---------------------------------------------------------------------------
// Splitting and joining
// ---------------------------------------------------------------------------

/// Index of the first occurrence of `sep`, or the length when absent.
pub open spec fn first_idx(s: Seq<char>, sep: char) -> int
    decreases s.len(),
{
    if s.len() == 0 {
        0
    } else if s[0] == sep {
        0
    } else {
        1 + first_idx(s.drop_first(), sep)
    }
}

pub proof fn lemma_first_idx_bounds(s: Seq<char>, sep: char)
    ensures
        0 <= first_idx(s, sep) <= s.len(),
        first_idx(s, sep) < s.len() ==> s[first_idx(s, sep)] == sep,
        forall|k: int| 0 <= k < first_idx(s, sep) ==> s[k] != sep,
    decreases s.len(),
{
    if s.len() > 0 && s[0] != sep {
        lemma_first_idx_bounds(s.drop_first(), sep);
        assert forall|k: int| 0 <= k < first_idx(s, sep) implies s[k] != sep by {
            if k > 0 {
                assert(s.drop_first()[k - 1] != sep);
            }
        }
    }
}

/// `first_idx` is determined by the position of the first separator.
pub proof fn lemma_first_idx_is(s: Seq<char>, sep: char, i: int)
    requires
        0 <= i <= s.len(),
        forall|k: int| 0 <= k < i ==> s[k] != sep,
        i < s.len() ==> s[i] == sep,
    ensures
        first_idx(s, sep) == i,
    decreases s.len(),
{
    if s.len() > 0 && s[0] != sep {
        assert(i > 0);
        lemma_first_idx_is(s.drop_first(), sep, i - 1);
    }
}

fn find_first(s: &str, sep: char) -> (r: Option<usize>)
    ensures
        match r {
            Some(i) => i == first_idx(s@, sep) && i < s@.len(),
            None => first_idx(s@, sep) == s@.len(),
        },
{
    let n = s.unicode_len();
    let mut i: usize = 0;
    while i < n
        invariant
            n == s@.len(),
            i <= n,
            forall|k: int| 0 <= k < i ==> s@[k] != sep,
        decreases n - i,
    {
        if s.get_char(i) == sep {
            proof {
                lemma_first_idx_is(s@, sep, i as int);
            }
            return Some(i);
        }
        i = i + 1;
    }
    proof {
        lemma_first_idx_is(s@, sep, n as int);
    }
    None
}

/// Split on a separator character.  The separator itself is removed; an empty
/// input yields one empty piece, and adjacent separators yield empty pieces.
pub open spec fn spec_split(s: Seq<char>, sep: char) -> Seq<Seq<char>>
    decreases s.len(),
    via spec_split_decreases
{
    let i = first_idx(s, sep);
    if i == s.len() {
        seq![s]
    } else {
        seq![s.take(i)] + spec_split(s.skip(i + 1), sep)
    }
}

#[via_fn]
proof fn spec_split_decreases(s: Seq<char>, sep: char) {
    lemma_first_idx_bounds(s, sep);
}

pub proof fn lemma_split_len(s: Seq<char>, sep: char)
    ensures
        spec_split(s, sep).len() >= 1,
{
    lemma_first_idx_bounds(s, sep);
}

/// Split a string on a separator character.
pub fn split_str(s: &str, sep: char) -> (r: Vec<String>)
    ensures
        r.deep_view() == spec_split(s@, sep),
        r.len() >= 1,
    decreases s@.len(),
{
    proof {
        lemma_first_idx_bounds(s@, sep);
    }
    let n = s.unicode_len();
    match find_first(s, sep) {
        None => {
            let mut r: Vec<String> = Vec::new();
            r.push(String::from_str(s));
            proof {
                assert(r.deep_view() =~= spec_split(s@, sep));
            }
            r
        },
        Some(i) => {
            let head = String::from_str(s.substring_char(0, i));
            let tail = s.substring_char(i + 1, n);
            proof {
                assert(head@ =~= s@.take(i as int));
                assert(tail@ =~= s@.skip(i as int + 1));
            }
            let mut rest = split_str(tail, sep);
            let mut r: Vec<String> = Vec::new();
            r.push(head);
            r.append(&mut rest);
            proof {
                assert(r.deep_view() =~= spec_split(s@, sep));
            }
            r
        },
    }
}

/// Join pieces with a separator character.
pub open spec fn spec_join(parts: Seq<Seq<char>>, sep: char) -> Seq<char>
    decreases parts.len(),
{
    if parts.len() == 0 {
        Seq::empty()
    } else if parts.len() == 1 {
        parts[0]
    } else {
        parts[0] + seq![sep] + spec_join(parts.drop_first(), sep)
    }
}

/// Unrolling `spec_join` at the back rather than the front.
pub proof fn lemma_join_push(parts: Seq<Seq<char>>, x: Seq<char>, sep: char)
    ensures
        parts.len() == 0 ==> spec_join(parts.push(x), sep) == x,
        parts.len() > 0 ==> spec_join(parts.push(x), sep) == spec_join(parts, sep) + seq![sep] + x,
    decreases parts.len(),
{
    if parts.len() == 0 {
        assert(spec_join(parts.push(x), sep) == parts.push(x)[0]);
        assert(parts.push(x)[0] == x);
    } else if parts.len() == 1 {
        assert(parts.push(x).drop_first() =~= seq![x]);
        assert(spec_join(seq![x], sep) == x);
    } else {
        assert(parts.push(x).drop_first() =~= parts.drop_first().push(x));
        lemma_join_push(parts.drop_first(), x, sep);
    }
}

/// Append a single character to a string.
///
/// Relies on `String::push`: appends exactly that character.
#[verifier::external_body]
pub fn push_char(s: &mut String, c: char)
    ensures
        final(s)@ == old(s)@.push(c),
{
    s.push(c);
}

/// Join strings with a separator character.
pub fn join_strings(parts: &Vec<String>, sep: char) -> (r: String)
    ensures
        r@ == spec_join(parts.deep_view(), sep),
{
    let mut r = String::new();
    let mut i: usize = 0;
    while i < parts.len()
        invariant
            i <= parts.len(),
            r@ == spec_join(parts.deep_view().take(i as int), sep),
        decreases parts.len() - i,
    {
        proof {
            assert(parts.deep_view().take(i as int).push(parts.deep_view()[i as int])
                =~= parts.deep_view().take(i as int + 1));
            lemma_join_push(parts.deep_view().take(i as int), parts.deep_view()[i as int], sep);
        }
        if i > 0 {
            push_char(&mut r, sep);
        }
        r.append(parts[i].as_str());
        i = i + 1;
    }
    proof {
        assert(parts.deep_view().take(parts.len() as int) =~= parts.deep_view());
    }
    r
}

// ---------------------------------------------------------------------------
// Round trip between splitting and joining
// ---------------------------------------------------------------------------

pub open spec fn seq_contains_char(s: Seq<char>, c: char) -> bool {
    exists|i: int| 0 <= i < s.len() && s[i] == c
}

proof fn lemma_first_idx_of_clean(s: Seq<char>, sep: char)
    requires
        !seq_contains_char(s, sep),
    ensures
        first_idx(s, sep) == s.len(),
{
    lemma_first_idx_bounds(s, sep);
    if first_idx(s, sep) < s.len() {
        assert(seq_contains_char(s, sep));
    }
}

/// Splitting a joined sequence recovers the pieces, provided no piece
/// contains the separator.
pub proof fn lemma_split_join(parts: Seq<Seq<char>>, sep: char)
    requires
        parts.len() > 0,
        forall|i: int| 0 <= i < parts.len() ==> !seq_contains_char(#[trigger] parts[i], sep),
    ensures
        spec_split(spec_join(parts, sep), sep) == parts,
    decreases parts.len(),
{
    if parts.len() == 1 {
        lemma_first_idx_of_clean(parts[0], sep);
        assert(spec_split(spec_join(parts, sep), sep) =~= parts);
    } else {
        let s = spec_join(parts, sep);
        let rest = spec_join(parts.drop_first(), sep);
        assert(s == parts[0] + seq![sep] + rest);
        assert(forall|k: int| 0 <= k < parts[0].len() ==> s[k] != sep);
        assert(s[parts[0].len() as int] == sep);
        lemma_first_idx_is(s, sep, parts[0].len() as int);
        assert(s.take(parts[0].len() as int) =~= parts[0]);
        assert(s.skip(parts[0].len() as int + 1) =~= rest);
        lemma_split_join(parts.drop_first(), sep);
        assert(spec_split(s, sep) =~= parts);
    }
}

} // verus!
