//! Small verified helpers for building and taking apart strings.
//!
//! Every contract here is stated over `Seq<char>`, the view of `str` and `String`.
use vstd::prelude::*;
use vstd::string::*;

verus! {

/// `str`'s own `==` from the standard library: two strings are equal exactly when
/// they hold the same characters.
pub assume_specification[ <str as PartialEq>::eq ](a: &str, b: &str) -> (r: bool)
    ensures
        r == (a@ == b@),
;

/// The strings of `parts`, in order, with `sep` between each two neighbours.
pub open spec fn join_spec(parts: Seq<Seq<char>>, sep: Seq<char>) -> Seq<char>
    decreases parts.len(),
{
    if parts.len() == 0 {
        Seq::empty()
    } else if parts.len() == 1 {
        parts[0]
    } else {
        join_spec(parts.drop_last(), sep) + sep + parts.last()
    }
}

/// The views of a vector of strings.
pub open spec fn views(parts: Seq<String>) -> Seq<Seq<char>> {
    parts.map_values(|s: String| s@)
}

/// `a` followed by `b`.
pub fn concat(a: &str, b: &str) -> (r: String)
    ensures
        r@ == a@ + b@,
{
    let mut out = String::from_str(a);
    out.append(b);
    out
}

/// `a`, `b` and `c` one after the other.
pub fn concat3(a: &str, b: &str, c: &str) -> (r: String)
    ensures
        r@ == a@ + b@ + c@,
{
    let mut out = String::from_str(a);
    out.append(b);
    out.append(c);
    out
}

/// Joins `parts` with `sep`.
pub fn join(parts: &Vec<String>, sep: &str) -> (r: String)
    ensures
        r@ == join_spec(views(parts@), sep@),
{
    let mut out = String::new();
    let mut i: usize = 0;
    while i < parts.len()
        invariant
            i <= parts.len(),
            out@ == join_spec(views(parts@).take(i as int), sep@),
        decreases parts.len() - i,
    {
        let ghost before = views(parts@).take(i as int);
        let ghost after = views(parts@).take(i as int + 1);
        proof {
            assert(after.drop_last() =~= before);
            assert(after.last() == parts@[i as int]@);
        }
        if i > 0 {
            out.append(sep);
            out.append(parts[i].as_str());
        } else {
            out.append(parts[i].as_str());
            assert(out@ =~= parts@[0]@);
        }
        i = i + 1;
    }
    proof {
        assert(views(parts@).take(parts.len() as int) =~= views(parts@));
    }
    out
}

/// The characters of `s`, one by one.
pub fn chars_of(s: &str) -> (r: Vec<char>)
    ensures
        r@ == s@,
{
    let mut out: Vec<char> = Vec::new();
    for c in it: s.chars()
        invariant
            it.seq() == s@,
            out@ == s@.take(it.index() as int),
    {
        out.push(c);
        proof {
            assert(s@.take(it.index() + 1) =~= s@.take(it.index() as int).push(c));
        }
    }
    proof {
        assert(s@.take(s@.len() as int) =~= s@);
    }
    out
}

/// Whether `a` comes before `b` in the order of strings: character by character,
/// by code point, a proper prefix before what extends it.
pub open spec fn seq_lt(a: Seq<char>, b: Seq<char>) -> bool
    decreases a.len(),
{
    if b.len() == 0 {
        false
    } else if a.len() == 0 {
        true
    } else if a[0] != b[0] {
        (a[0] as u32) < (b[0] as u32)
    } else {
        seq_lt(a.drop_first(), b.drop_first())
    }
}

/// Two different strings are ordered one way or the other, never both, and no
/// string comes before itself.
pub proof fn lemma_seq_lt_total(a: Seq<char>, b: Seq<char>)
    ensures
        a == b ==> !seq_lt(a, b),
        a != b ==> (seq_lt(a, b) <==> !seq_lt(b, a)),
    decreases a.len(),
{
    if a.len() == 0 || b.len() == 0 {
        if a.len() == 0 && b.len() == 0 {
            assert(a =~= b);
        }
    } else if a[0] != b[0] {
        vstd::utf8::char_u32_cast(a[0], a[0] as u32);
        vstd::utf8::char_u32_cast(b[0], b[0] as u32);
    } else {
        lemma_seq_lt_total(a.drop_first(), b.drop_first());
        if a.drop_first() == b.drop_first() {
            assert(a =~= seq![a[0]] + a.drop_first());
            assert(b =~= seq![b[0]] + b.drop_first());
        }
    }
}

/// The order of strings is transitive.
pub proof fn lemma_seq_lt_trans(a: Seq<char>, b: Seq<char>, c: Seq<char>)
    requires
        seq_lt(a, b),
        seq_lt(b, c),
    ensures
        seq_lt(a, c),
    decreases a.len(),
{
    if a.len() == 0 {
    } else if a[0] != b[0] {
    } else if b[0] != c[0] {
    } else {
        lemma_seq_lt_trans(a.drop_first(), b.drop_first(), c.drop_first());
    }
}

/// Skipping a common prefix does not change the order.
proof fn lemma_seq_lt_skip(a: Seq<char>, b: Seq<char>, i: int)
    requires
        0 <= i <= a.len(),
        i <= b.len(),
        a.take(i) == b.take(i),
    ensures
        seq_lt(a, b) == seq_lt(a.skip(i), b.skip(i)),
    decreases i,
{
    if i == 0 {
        assert(a.skip(0) =~= a);
        assert(b.skip(0) =~= b);
    } else {
        assert(a.take(i)[0] == a[0]);
        assert(b.take(i)[0] == b[0]);
        assert(a[0] == b[0]);
        assert(a.drop_first().take(i - 1) =~= a.take(i).drop_first());
        assert(b.drop_first().take(i - 1) =~= b.take(i).drop_first());
        lemma_seq_lt_skip(a.drop_first(), b.drop_first(), i - 1);
        assert(a.drop_first().skip(i - 1) =~= a.skip(i));
        assert(b.drop_first().skip(i - 1) =~= b.skip(i));
    }
}

/// Whether `a` comes before `b` in the order of strings.
pub fn str_lt(a: &str, b: &str) -> (r: bool)
    ensures
        r == seq_lt(a@, b@),
{
    let x = chars_of(a);
    let y = chars_of(b);
    let mut i: usize = 0;
    while i < x.len() && i < y.len() && x[i] == y[i]
        invariant
            i <= x.len(),
            i <= y.len(),
            x@.take(i as int) == y@.take(i as int),
        decreases x.len() - i,
    {
        proof {
            assert(x@.take(i + 1) =~= x@.take(i as int).push(x@[i as int]));
            assert(y@.take(i + 1) =~= y@.take(i as int).push(y@[i as int]));
        }
        i = i + 1;
    }
    proof {
        lemma_seq_lt_skip(x@, y@, i as int);
        if i < x.len() && i < y.len() {
            assert(x@.skip(i as int)[0] == x@[i as int]);
            assert(y@.skip(i as int)[0] == y@[i as int]);
        }
    }
    if i >= y.len() {
        false
    } else if i >= x.len() {
        true
    } else {
        let c: char = x[i];
        let d: char = y[i];
        (c as u32) < (d as u32)
    }
}

/// The digit `d` as text.
pub open spec fn digit_text(d: int) -> Seq<char> {
    if d == 0 {
        "0"@
    } else if d == 1 {
        "1"@
    } else if d == 2 {
        "2"@
    } else if d == 3 {
        "3"@
    } else if d == 4 {
        "4"@
    } else if d == 5 {
        "5"@
    } else if d == 6 {
        "6"@
    } else if d == 7 {
        "7"@
    } else if d == 8 {
        "8"@
    } else {
        "9"@
    }
}

/// A natural number in decimal digits, without leading zeros.
pub open spec fn decimal(n: nat) -> Seq<char>
    decreases n,
{
    if n < 10 {
        digit_text(n as int)
    } else {
        decimal(n / 10) + digit_text((n % 10) as int)
    }
}

/// An integer in decimal digits, with `-` before a negative one.
pub open spec fn signed_decimal(n: int) -> Seq<char> {
    if n < 0 {
        "-"@ + decimal((-n) as nat)
    } else {
        decimal(n as nat)
    }
}

fn digit_str(d: u64) -> (r: &'static str)
    requires
        d < 10,
    ensures
        r@ == digit_text(d as int),
{
    if d == 0 {
        "0"
    } else if d == 1 {
        "1"
    } else if d == 2 {
        "2"
    } else if d == 3 {
        "3"
    } else if d == 4 {
        "4"
    } else if d == 5 {
        "5"
    } else if d == 6 {
        "6"
    } else if d == 7 {
        "7"
    } else if d == 8 {
        "8"
    } else {
        "9"
    }
}

/// Writes `n` in decimal digits.
pub fn u64_to_string(n: u64) -> (r: String)
    ensures
        r@ == decimal(n as nat),
{
    let mut out = String::from_str(digit_str(n % 10));
    let mut rest = n / 10;
    // `out` holds the digits of `n` below those of `rest`.
    while rest > 0
        invariant
            decimal(n as nat) == if rest == 0 {
                out@
            } else {
                decimal(rest as nat) + out@
            },
        decreases rest,
    {
        let digit = digit_str(rest % 10);
        let ghost before = out@;
        out = concat(digit, out.as_str());
        proof {
            if rest >= 10 {
                assert(decimal(rest as nat) + before == decimal((rest / 10) as nat) + (digit@ + before));
            }
        }
        rest = rest / 10;
    }
    out
}

/// Writes `n` in decimal digits, with `-` before a negative number.
pub fn i64_to_string(n: i64) -> (r: String)
    ensures
        r@ == signed_decimal(n as int),
{
    if n < 0 {
        let magnitude: u64 = if n == i64::MIN {
            9223372036854775808u64
        } else {
            (-n) as u64
        };
        let digits = u64_to_string(magnitude);
        concat("-", digits.as_str())
    } else {
        u64_to_string(n as u64)
    }
}

/// Whether `i` is the first position of `c` in `s`.
pub open spec fn first_at(s: Seq<char>, c: char, i: int) -> bool {
    &&& 0 <= i < s.len()
    &&& s[i] == c
    &&& forall|j: int| 0 <= j < i ==> s[j] != c
}

/// The first position of `c` in `s`.
pub fn find_char(s: &str, c: char) -> (r: Option<usize>)
    ensures
        match r {
            Some(i) => first_at(s@, c, i as int),
            None => !s@.contains(c),
        },
{
    let chars = chars_of(s);
    let mut i: usize = 0;
    while i < chars.len()
        invariant
            i <= chars.len(),
            chars@ == s@,
            forall|j: int| 0 <= j < i ==> s@[j] != c,
        decreases chars.len() - i,
    {
        if chars[i] == c {
            return Some(i);
        }
        i = i + 1;
    }
    None
}

/// The two parts of `s` around the first `delimiter`, or `None` where `s` has
/// none.
pub fn split_once<'a>(s: &'a str, delimiter: char) -> (r: Option<(&'a str, &'a str)>)
    ensures
        match r {
            Some((head, tail)) => exists|i: int| #[trigger]
                first_at(s@, delimiter, i) && head@ == s@.subrange(0, i) && tail@ == s@.subrange(
                    i + 1,
                    s@.len() as int,
                ),
            None => !s@.contains(delimiter),
        },
{
    match find_char(s, delimiter) {
        Some(i) => {
            let n = s.unicode_len();
            Some((s.substring_char(0, i), s.substring_char(i + 1, n)))
        },
        None => None,
    }
}

/// The first position of `c` in `s`, where `s` holds `c`.
pub open spec fn first_index(s: Seq<char>, c: char) -> int {
    choose|i: int| first_at(s, c, i)
}

/// The position found first is the first position.
pub proof fn lemma_first_index(s: Seq<char>, c: char, i: int)
    requires
        first_at(s, c, i),
    ensures
        first_index(s, c) == i,
{
    let k = first_index(s, c);
    assert(first_at(s, c, k));
    if k < i {
        assert(s[k] != c);
    }
    if i < k {
        assert(s[i] != c);
    }
}

/// The text of `s` before its first line break; all of `s` where it has none.
pub open spec fn first_line_of(s: Seq<char>) -> Seq<char> {
    if s.contains('\n') {
        s.subrange(0, first_index(s, '\n'))
    } else {
        s
    }
}

/// The first line of `s`.
pub fn first_line(s: &str) -> (r: &str)
    ensures
        r@ == first_line_of(s@),
{
    match find_char(s, '\n') {
        Some(i) => {
            proof {
                lemma_first_index(s@, '\n', i as int);
            }
            s.substring_char(0, i)
        },
        None => s,
    }
}

/// Whether `s` begins with `prefix`.
pub fn starts_with(s: &str, prefix: &str) -> (r: bool)
    ensures
        r == prefix@.is_prefix_of(s@),
{
    let a = chars_of(s);
    let b = chars_of(prefix);
    if b.len() > a.len() {
        return false;
    }
    let mut i: usize = 0;
    while i < b.len()
        invariant
            i <= b.len() <= a.len(),
            a@ == s@,
            b@ == prefix@,
            forall|j: int| 0 <= j < i ==> a@[j] == b@[j],
        decreases b.len() - i,
    {
        if a[i] != b[i] {
            proof {
                if prefix@.is_prefix_of(s@) {
                    assert(s@.subrange(0, prefix@.len() as int)[i as int] == prefix@[i as int]);
                }
            }
            return false;
        }
        i = i + 1;
    }
    proof {
        assert(s@.subrange(0, prefix@.len() as int) =~= prefix@);
    }
    true
}

/// Whether `sep` stands in `s` at the position `i`.
pub open spec fn occurs_at(s: Seq<char>, sep: Seq<char>, i: int) -> bool {
    0 <= i && i + sep.len() <= s.len() && s.subrange(i, i + sep.len()) == sep
}

/// Whether `i` is the first position at which `sep` stands in `s`.
pub open spec fn first_occurrence_at(s: Seq<char>, sep: Seq<char>, i: int) -> bool {
    occurs_at(s, sep, i) && forall|j: int| 0 <= j < i ==> !occurs_at(s, sep, j)
}

/// Whether `sep` stands anywhere in `s`.
pub open spec fn occurs(s: Seq<char>, sep: Seq<char>) -> bool {
    exists|i: int| occurs_at(s, sep, i)
}

/// The piece number `n`, counted from 0, of `s` cut at every `sep`, from the
/// left and without overlap; `None` where there are fewer pieces.
pub open spec fn piece(s: Seq<char>, sep: Seq<char>, n: nat) -> Option<Seq<char>>
    decreases n,
{
    if occurs(s, sep) {
        let i = choose|i: int| first_occurrence_at(s, sep, i);
        if n == 0 {
            Some(s.subrange(0, i))
        } else {
            piece(s.subrange(i + sep.len(), s.len() as int), sep, (n - 1) as nat)
        }
    } else if n == 0 {
        Some(s)
    } else {
        None
    }
}

/// The first position from `from` on at which `needle` stands in `hay`.
fn find_from(hay: &Vec<char>, needle: &Vec<char>, from: usize) -> (r: Option<usize>)
    requires
        from <= hay@.len(),
    ensures
        match r {
            Some(i) => from <= i && occurs_at(hay@, needle@, i as int) && forall|j: int|
                from <= j < i ==> !occurs_at(hay@, needle@, j),
            None => forall|j: int| from <= j ==> !occurs_at(hay@, needle@, j),
        },
{
    if needle.len() > hay.len() {
        return None;
    }
    let last = hay.len() - needle.len();
    let mut i: usize = from;
    while i <= last
        invariant
            from <= i,
            needle@.len() <= hay@.len() <= usize::MAX,
            last == hay@.len() - needle@.len(),
            forall|j: int| from <= j < i ==> !occurs_at(hay@, needle@, j),
        decreases last + 1 - i,
    {
        let mut k: usize = 0;
        while k < needle.len() && hay[i + k] == needle[k]
            invariant
                k <= needle@.len(),
                i + needle@.len() <= hay@.len() <= usize::MAX,
                forall|m: int| 0 <= m < k ==> hay@[i + m] == needle@[m],
            decreases needle@.len() - k,
        {
            k = k + 1;
        }
        if k == needle.len() {
            proof {
                assert(hay@.subrange(i as int, i + needle@.len()) =~= needle@);
            }
            return Some(i);
        }
        proof {
            if occurs_at(hay@, needle@, i as int) {
                assert(hay@.subrange(i as int, i + needle@.len())[k as int] == needle@[k as int]);
            }
        }
        i = i + 1;
    }
    None
}

/// The piece number `n`, counted from 0, of `s` cut at every `sep`.
pub fn split_nth<'a>(s: &'a str, sep: &str, n: u64) -> (r: Option<&'a str>)
    requires
        sep@.len() > 0,
    ensures
        match r {
            Some(p) => piece(s@, sep@, n as nat) == Some(p@),
            None => piece(s@, sep@, n as nat) is None,
        },
{
    let hay = chars_of(s);
    let needle = chars_of(sep);
    // Asking for the length tells the prover that it fits the machine word.
    let _total = hay.len();
    let mut start: usize = 0;
    let mut left: u64 = n;
    proof {
        assert(s@.subrange(0, s@.len() as int) =~= s@);
    }
    loop
        invariant
            hay@ == s@,
            needle@ == sep@,
            sep@.len() > 0,
            start <= hay@.len() <= usize::MAX,
            piece(s@, sep@, n as nat) == piece(s@.subrange(start as int, s@.len() as int), sep@, left as nat),
        decreases hay@.len() - start, left,
    {
        let ghost rest = s@.subrange(start as int, s@.len() as int);
        let found = find_from(&hay, &needle, start);
        proof {
            assert forall|j: int| occurs_at(rest, sep@, j) == occurs_at(s@, sep@, start + j) || j < 0 by {
                if 0 <= j && j + sep@.len() <= rest.len() {
                    assert(rest.subrange(j, j + sep@.len()) =~= s@.subrange(start + j, start + j + sep@.len()));
                }
            }
        }
        match found {
            Some(i) => {
                proof {
                    let k = (i - start) as int;
                    assert(occurs_at(rest, sep@, k));
                    assert(first_occurrence_at(rest, sep@, k)) by {
                        assert forall|j: int| 0 <= j < k implies !occurs_at(rest, sep@, j) by {
                            assert(!occurs_at(s@, sep@, start + j));
                        }
                    }
                    let c = choose|c: int| first_occurrence_at(rest, sep@, c);
                    assert(c == k) by {
                        if c < k {
                            assert(!occurs_at(rest, sep@, c));
                        }
                        if k < c {
                            assert(!occurs_at(rest, sep@, k));
                        }
                    }
                    assert(rest.subrange(0, k) =~= s@.subrange(start as int, i as int));
                    assert(rest.subrange(k + sep@.len(), rest.len() as int) =~= s@.subrange(
                        i + sep@.len(),
                        s@.len() as int,
                    ));
                }
                if left == 0 {
                    return Some(s.substring_char(start, i));
                }
                assert(i + needle@.len() <= hay@.len());
                start = i + needle.len();
                left = left - 1;
            },
            None => {
                proof {
                    assert(!occurs(rest, sep@)) by {
                        if occurs(rest, sep@) {
                            let j = choose|j: int| occurs_at(rest, sep@, j);
                            assert(occurs_at(s@, sep@, start + j));
                        }
                    }
                }
                if left == 0 {
                    let n_chars = s.unicode_len();
                    return Some(s.substring_char(start, n_chars));
                }
                return None;
            },
        }
    }
}

/// `s` without the white space at its two ends, as `str::trim` leaves it.
pub uninterp spec fn trimmed(s: Seq<char>) -> Seq<char>;

/// `s` in lower case, as `str::to_lowercase` writes it.
pub uninterp spec fn lowercase(s: Seq<char>) -> Seq<char>;

/// `str::trim` from the standard library: the string without leading and
/// trailing white space. What comes back depends on the string alone.
#[verifier::external_body]
pub(crate) fn trim(s: &str) -> (r: &str)
    ensures
        r@ == trimmed(s@),
{
    s.trim()
}

/// `str::to_lowercase` from the standard library: the lower-case equivalent of
/// the string. What comes back depends on the string alone.
#[verifier::external_body]
pub(crate) fn to_lowercase(s: &str) -> (r: String)
    ensures
        r@ == lowercase(s@),
{
    s.to_lowercase()
}

/// Whether `c` is one of the digits `0` to `9`.
pub open spec fn is_digit(c: char) -> bool {
    48 <= c as u32 <= 57
}

/// Whether `s` is made of digits.
pub open spec fn all_digits(s: Seq<char>) -> bool {
    forall|i: int| 0 <= i < s.len() ==> is_digit(#[trigger] s[i])
}

/// The number that the digits of `s` write.
pub open spec fn digits_value(s: Seq<char>) -> nat
    decreases s.len(),
{
    if s.len() == 0 {
        0
    } else {
        (digits_value(s.drop_last()) * 10 + (s.last() as u32 - 48)) as nat
    }
}

/// A number is at least the number that any beginning of its digits writes.
proof fn lemma_digits_prefix(s: Seq<char>, i: int)
    requires
        all_digits(s),
        0 <= i <= s.len(),
    ensures
        digits_value(s.take(i)) <= digits_value(s),
    decreases s.len() - i,
{
    if i < s.len() {
        lemma_digits_prefix(s, i + 1);
        let longer = s.take(i + 1);
        assert(longer.drop_last() =~= s.take(i));
        assert(is_digit(longer.last()));
    } else {
        assert(s.take(i) =~= s);
    }
}

/// Reads a number written in the digits `0` to `9`. `None` for the empty string,
/// for a string with another character, and for a number above `u64::MAX`.
pub fn parse_u64(s: &str) -> (r: Option<u64>)
    ensures
        match r {
            Some(v) => s@.len() > 0 && all_digits(s@) && digits_value(s@) == v,
            None => s@.len() == 0 || !all_digits(s@) || digits_value(s@) > u64::MAX,
        },
{
    let chars = chars_of(s);
    if chars.len() == 0 {
        return None;
    }
    let mut acc: u64 = 0;
    let mut i: usize = 0;
    while i < chars.len()
        invariant
            i <= chars.len(),
            chars@ == s@,
            all_digits(s@.take(i as int)),
            acc == digits_value(s@.take(i as int)),
        decreases chars.len() - i,
    {
        let c = chars[i];
        let code = c as u32;
        if code < 48 || code > 57 {
            assert(!is_digit(s@[i as int]));
            return None;
        }
        let d = (code - 48) as u64;
        proof {
            let longer = s@.take(i + 1);
            assert(longer.drop_last() =~= s@.take(i as int));
            assert(longer.last() == c);
            assert forall|k: int| 0 <= k < longer.len() implies is_digit(#[trigger] longer[k]) by {
                if k < i {
                    assert(s@.take(i as int)[k] == longer[k]);
                }
            }
        }
        if acc > (u64::MAX - d) / 10 {
            proof {
                // The digits so far already write a number that is too large.
                let rest_ok = all_digits(s@);
                if rest_ok {
                    lemma_digits_prefix(s@, i + 1);
                    assert(digits_value(s@.take(i + 1)) == acc * 10 + d);
                    assert(acc * 10 + d > u64::MAX) by (nonlinear_arith)
                        requires
                            acc > (u64::MAX - d) / 10,
                            0 <= d <= 9,
                    ;
                }
            }
            return None;
        }
        assert(acc * 10 + d <= u64::MAX) by (nonlinear_arith)
            requires
                acc <= (u64::MAX - d) / 10,
                0 <= d <= 9,
        ;
        acc = acc * 10 + d;
        i = i + 1;
    }
    proof {
        assert(s@.take(s@.len() as int) =~= s@);
    }
    Some(acc)
}

/// `s` with every `pattern` left out, found from the left and without overlap.
pub open spec fn without(s: Seq<char>, pattern: Seq<char>) -> Seq<char>
    decreases s.len(),
{
    if pattern.len() > 0 && occurs(s, pattern) {
        let i = choose|i: int| first_occurrence_at(s, pattern, i);
        if 0 <= i && i + pattern.len() <= s.len() {
            s.subrange(0, i) + without(s.subrange(i + pattern.len(), s.len() as int), pattern)
        } else {
            s
        }
    } else {
        s
    }
}

/// Leaves every `pattern` out of `s`.
pub fn remove_all(s: &str, pattern: &str) -> (r: String)
    requires
        pattern@.len() > 0,
    ensures
        r@ == without(s@, pattern@),
{
    let hay = chars_of(s);
    let needle = chars_of(pattern);
    let total = hay.len();
    let mut out = String::new();
    let mut start: usize = 0;
    proof {
        assert(s@.subrange(0, s@.len() as int) =~= s@);
    }
    loop
        invariant
            hay@ == s@,
            needle@ == pattern@,
            pattern@.len() > 0,
            start <= hay@.len() <= usize::MAX,
            total == hay@.len(),
            without(s@, pattern@) == out@ + without(s@.subrange(start as int, s@.len() as int), pattern@),
        decreases hay@.len() - start,
    {
        let ghost rest = s@.subrange(start as int, s@.len() as int);
        proof {
            assert forall|j: int| occurs_at(rest, pattern@, j) == occurs_at(s@, pattern@, start + j) || j < 0 by {
                if 0 <= j && j + pattern@.len() <= rest.len() {
                    assert(rest.subrange(j, j + pattern@.len()) =~= s@.subrange(
                        start + j,
                        start + j + pattern@.len(),
                    ));
                }
            }
        }
        match find_from(&hay, &needle, start) {
            Some(i) => {
                proof {
                    let k = (i - start) as int;
                    assert(occurs_at(rest, pattern@, k));
                    assert(first_occurrence_at(rest, pattern@, k)) by {
                        assert forall|j: int| 0 <= j < k implies !occurs_at(rest, pattern@, j) by {
                            assert(!occurs_at(s@, pattern@, start + j));
                        }
                    }
                    let c = choose|c: int| first_occurrence_at(rest, pattern@, c);
                    assert(c == k) by {
                        if c < k {
                            assert(!occurs_at(rest, pattern@, c));
                        }
                        if k < c {
                            assert(!occurs_at(rest, pattern@, k));
                        }
                    }
                    assert(rest.subrange(0, k) =~= s@.subrange(start as int, i as int));
                    assert(rest.subrange(k + pattern@.len(), rest.len() as int) =~= s@.subrange(
                        i + pattern@.len(),
                        s@.len() as int,
                    ));
                }
                let ghost before = out@;
                out.append(s.substring_char(start, i));
                proof {
                    assert(out@ + without(s@.subrange(i + pattern@.len(), s@.len() as int), pattern@) =~= before
                        + (s@.subrange(start as int, i as int) + without(
                        s@.subrange(i + pattern@.len(), s@.len() as int),
                        pattern@,
                    )));
                }
                start = i + needle.len();
            },
            None => {
                proof {
                    assert(!occurs(rest, pattern@)) by {
                        if occurs(rest, pattern@) {
                            let j = choose|j: int| occurs_at(rest, pattern@, j);
                            assert(occurs_at(s@, pattern@, start + j));
                        }
                    }
                }
                out.append(s.substring_char(start, total));
                return out;
            },
        }
    }
}

} // verus!
