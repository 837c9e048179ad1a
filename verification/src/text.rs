//! Character-level helpers used by the attribute names: decimal rendering
//! and parsing of `u8` values, prefix and suffix tests, and the two name
//! patterns (`<prefix><n><suffix>` and `<prefix><n><middle><m>`).
use vstd::prelude::*;

verus! {

/// `c` is one of the ASCII digits `0` to `9`.
pub open spec fn is_digit(c: char) -> bool {
    '0' <= c && c <= '9'
}

/// The numeric value of an ASCII digit.
pub open spec fn digit_value(c: char) -> int {
    (c as int) - ('0' as int)
}

/// The ASCII digit for a value in `0..10`.
pub open spec fn digit_char(d: int) -> char {
    if d == 0 { '0' }
    else if d == 1 { '1' }
    else if d == 2 { '2' }
    else if d == 3 { '3' }
    else if d == 4 { '4' }
    else if d == 5 { '5' }
    else if d == 6 { '6' }
    else if d == 7 { '7' }
    else if d == 8 { '8' }
    else { '9' }
}

/// The decimal rendering of a byte, without leading zeros (as `{}` formats
/// a `u8`).
pub open spec fn dec(n: u8) -> Seq<char> {
    if n < 10 {
        seq![digit_char(n as int)]
    } else if n < 100 {
        seq![digit_char((n / 10) as int), digit_char((n % 10) as int)]
    } else {
        seq![digit_char((n / 100) as int), digit_char(((n / 10) % 10) as int), digit_char((n % 10) as int)]
    }
}

/// Every character of `s` is an ASCII digit.
pub open spec fn all_digits(s: Seq<char>) -> bool {
    forall|i: int| 0 <= i < s.len() ==> is_digit(#[trigger] s[i])
}

/// The value of a string of decimal digits, most significant first.
pub open spec fn digits_value(s: Seq<char>) -> int
    decreases s.len(),
{
    if s.len() == 0 {
        0
    } else {
        digits_value(s.drop_last()) * 10 + digit_value(s.last())
    }
}

/// What `str::parse::<u8>` returns: an optional `+` sign followed by at
/// least one ASCII digit, with a value of at most 255 (leading zeros are
/// allowed).
pub open spec fn parse_u8(s: Seq<char>) -> Option<u8> {
    let ds = if s.len() > 0 && s[0] == '+' { s.drop_first() } else { s };
    if ds.len() > 0 && all_digits(ds) && digits_value(ds) <= 255 {
        Some(digits_value(ds) as u8)
    } else {
        None
    }
}

/// `p` is a prefix of `s`.
pub open spec fn has_prefix(s: Seq<char>, p: Seq<char>) -> bool {
    &&& p.len() <= s.len()
    &&& forall|i: int| 0 <= i < p.len() ==> s[i] == p[i]
}

/// `q` is a suffix of `s`.
pub open spec fn has_suffix(s: Seq<char>, q: Seq<char>) -> bool {
    &&& q.len() <= s.len()
    &&& forall|j: int| 0 <= j < q.len() ==> s[s.len() - q.len() + j] == q[j]
}

/// The number in a name of the form `<p><n>`.
pub closed spec fn extract_n(s: Seq<char>, p: Seq<char>) -> Option<u8> {
    if has_prefix(s, p) {
        parse_u8(s.subrange(p.len() as int, s.len() as int))
    } else {
        None
    }
}

/// The number in a name of the form `<p><n><q>`.
pub closed spec fn extract_n_suffix(s: Seq<char>, p: Seq<char>, q: Seq<char>) -> Option<u8> {
    if p.len() + q.len() <= s.len() && has_prefix(s, p) && has_suffix(s, q) {
        parse_u8(s.subrange(p.len() as int, s.len() - q.len()))
    } else {
        None
    }
}

/// `m` occurs in `s` at position `i`.
pub open spec fn occurs_at(s: Seq<char>, m: Seq<char>, i: int) -> bool {
    &&& 0 <= i
    &&& i + m.len() <= s.len()
    &&& forall|k: int| 0 <= k < m.len() ==> s[i + k] == m[k]
}

/// The first position at or after `i` where `m` occurs in `s`.
pub open spec fn find_from(s: Seq<char>, m: Seq<char>, i: int) -> Option<int>
    decreases s.len() - i,
{
    if i < 0 || i + m.len() > s.len() {
        None
    } else if occurs_at(s, m, i) {
        Some(i)
    } else {
        find_from(s, m, i + 1)
    }
}

/// The two numbers in a name of the form `<p><n><m_sep><m>`, where the
/// separator is the first occurrence of `mid` after the prefix (as
/// `str::find` finds it).
pub closed spec fn extract_n_m(s: Seq<char>, p: Seq<char>, mid: Seq<char>) -> Option<(u8, u8)> {
    if has_prefix(s, p) {
        let rest = s.subrange(p.len() as int, s.len() as int);
        match find_from(rest, mid, 0) {
            Some(i) => match (
                parse_u8(rest.subrange(0, i)),
                parse_u8(rest.subrange(i + mid.len(), rest.len() as int)),
            ) {
                (Some(n), Some(m)) => Some((n, m)),
                _ => None,
            },
            None => None,
        }
    } else {
        None
    }
}

/// The characters of `s`, in order.
pub fn chars_of(s: &str) -> (r: Vec<char>)
    ensures
        r@ == s@,
{
    let n = s.unicode_len();
    let mut r: Vec<char> = Vec::new();
    for i in 0..n
        invariant
            n == s@.len(),
            r@ == s@.subrange(0, i as int),
    {
        r.push(s.get_char(i));
        assert(r@ =~= s@.subrange(0, i + 1));
    }
    assert(r@ =~= s@);
    r
}

/// `v` holds exactly the characters of `lit`.
pub fn eq_lit(v: &[char], lit: &str) -> (r: bool)
    ensures
        r == (v@ == lit@),
{
    let n = lit.unicode_len();
    if v.len() != n {
        return false;
    }
    for i in 0..n
        invariant
            n == lit@.len(),
            v@.len() == n,
            forall|k: int| 0 <= k < i ==> v@[k] == lit@[k],
    {
        if v[i] != lit.get_char(i) {
            return false;
        }
    }
    assert(v@ =~= lit@);
    true
}

/// `p` is a prefix of `v`.
fn starts_with_lit(v: &[char], p: &str) -> (r: bool)
    ensures
        r == has_prefix(v@, p@),
{
    let n = p.unicode_len();
    if n > v.len() {
        return false;
    }
    for i in 0..n
        invariant
            n == p@.len(),
            n <= v@.len(),
            forall|k: int| 0 <= k < i ==> v@[k] == p@[k],
    {
        if v[i] != p.get_char(i) {
            return false;
        }
    }
    true
}

/// `q` is a suffix of `v`.
fn ends_with_lit(v: &[char], q: &str) -> (r: bool)
    ensures
        r == has_suffix(v@, q@),
{
    let n = q.unicode_len();
    if n > v.len() {
        return false;
    }
    let base = v.len() - n;
    for j in 0..n
        invariant
            n == q@.len(),
            n <= v@.len(),
            base == v@.len() - n,
            base + n == v@.len(),
            v@.len() <= usize::MAX,
            forall|k: int| 0 <= k < j ==> v@[v@.len() - q@.len() + k] == q@[k],
    {
        if v[base + j] != q.get_char(j) {
            return false;
        }
    }
    true
}

proof fn lemma_digits_value_bound(s: Seq<char>)
    requires
        all_digits(s),
    ensures
        0 <= digits_value(s),
    decreases s.len(),
{
    if s.len() > 0 {
        assert(is_digit(s[s.len() - 1]));
        lemma_digits_value_bound(s.drop_last());
    }
}

/// `str::parse::<u8>` on the characters `v[lo..hi]`.
pub fn parse_u8_range(v: &[char], lo: usize, hi: usize) -> (r: Option<u8>)
    requires
        lo <= hi <= v@.len(),
    ensures
        r == parse_u8(v@.subrange(lo as int, hi as int)),
{
    let ghost s = v@.subrange(lo as int, hi as int);
    let mut start = lo;
    if lo < hi && v[lo] == '+' {
        start = lo + 1;
    }
    let ghost ds = v@.subrange(start as int, hi as int);
    assert(ds =~= (if s.len() > 0 && s[0] == '+' { s.drop_first() } else { s }));
    if start == hi {
        return None;
    }
    let mut value: u32 = 0;
    let mut i = start;
    while i < hi
        invariant
            lo <= start <= i <= hi <= v@.len(),
            start < hi,
            s == v@.subrange(lo as int, hi as int),
            ds == v@.subrange(start as int, hi as int),
            ds == (if s.len() > 0 && s[0] == '+' { s.drop_first() } else { s }),
            all_digits(v@.subrange(start as int, i as int)),
            value as int == digits_value(v@.subrange(start as int, i as int)),
            value <= 255,
        decreases hi - i,
    {
        let c = v[i];
        if c < '0' || c > '9' {
            assert(ds[i - start] == c);
            assert(!is_digit(ds[i - start]));
            return None;
        }
        let d = (c as u32) - ('0' as u32);
        let ghost pre = v@.subrange(start as int, i as int);
        let ghost next = v@.subrange(start as int, i + 1);
        assert(next.drop_last() =~= pre);
        assert(next.last() == c);
        assert(all_digits(next));
        if value > 25 || (value == 25 && d > 5) {
            // Every further digit only makes the value larger.
            assert(digits_value(next) == digits_value(pre) * 10 + digit_value(c));
            assert(digits_value(next) > 255);
            assert(ds.subrange(0, (i + 1 - start) as int) =~= next);
            proof {
                lemma_digits_prefix_grows(ds, (i + 1 - start) as int);
            }
            return None;
        }
        value = value * 10 + d;
        i = i + 1;
    }
    assert(v@.subrange(start as int, i as int) =~= ds);
    Some(value as u8)
}

/// The value of a digit string is at least the value of any of its
/// prefixes.
proof fn lemma_digits_prefix_grows(s: Seq<char>, k: int)
    requires
        0 <= k <= s.len(),
        all_digits(s.subrange(0, k)),
    ensures
        all_digits(s) ==> digits_value(s) >= digits_value(s.subrange(0, k)),
    decreases s.len() - k,
{
    if k < s.len() && all_digits(s) {
        let t = s.subrange(0, k + 1);
        assert(t.drop_last() =~= s.subrange(0, k));
        assert(is_digit(t.last()));
        lemma_digits_value_bound(s.subrange(0, k));
        assert(all_digits(t));
        lemma_digits_prefix_grows(s, k + 1);
    } else if k == s.len() {
        assert(s.subrange(0, k) =~= s);
    }
}

/// The number in a name of the form `<p><n>`.
pub fn extract_attr_n(v: &[char], p: &str) -> (r: Option<u8>)
    ensures
        r == extract_n(v@, p@),
{
    if !starts_with_lit(v, p) {
        return None;
    }
    let plen = p.unicode_len();
    parse_u8_range(v, plen, v.len())
}

/// The number in a name of the form `<p><n><q>`.
pub fn extract_attr_n_suffix(v: &[char], p: &str, q: &str) -> (r: Option<u8>)
    ensures
        r == extract_n_suffix(v@, p@, q@),
{
    let plen = p.unicode_len();
    let qlen = q.unicode_len();
    if plen > v.len() || qlen > v.len() - plen {
        return None;
    }
    if !starts_with_lit(v, p) || !ends_with_lit(v, q) {
        return None;
    }
    parse_u8_range(v, plen, v.len() - qlen)
}

/// The first position at or after `from` where `m` occurs in `v`.
fn find_lit(v: &[char], m: &str, from: usize) -> (r: Option<usize>)
    requires
        from <= v@.len(),
    ensures
        r matches Some(i) ==> find_from(v@, m@, from as int) == Some(i as int),
        r is None ==> find_from(v@, m@, from as int) is None,
{
    let mlen = m.unicode_len();
    if mlen == 0 {
        assert(occurs_at(v@, m@, from as int));
        return Some(from);
    }
    if mlen > v.len() {
        proof {
            lemma_find_from_short(v@, m@, from as int);
        }
        return None;
    }
    let last = v.len() - mlen;
    let mut i = from;
    while i <= last
        invariant
            mlen == m@.len(),
            1 <= mlen <= v@.len(),
            last == v@.len() - mlen,
            last < v@.len(),
            v@.len() <= usize::MAX,
            from <= i,
            find_from(v@, m@, from as int) == find_from(v@, m@, i as int),
        decreases last + 1 - i,
    {
        let mut found = true;
        let mut k: usize = 0;
        while k < mlen
            invariant
                mlen == m@.len(),
                i <= last,
                last + mlen == v@.len(),
                v@.len() <= usize::MAX,
                k <= mlen,
                found ==> forall|j: int| 0 <= j < k ==> v@[i + j] == m@[j],
                !found ==> !occurs_at(v@, m@, i as int),
            decreases mlen - k,
        {
            if v[i + k] != m.get_char(k) {
                found = false;
            }
            k = k + 1;
        }
        if found {
            return Some(i);
        }
        i = i + 1;
    }
    proof {
        lemma_find_from_short(v@, m@, i as int);
    }
    None
}

/// A position that `find_from` returns lies inside the searched range.
proof fn lemma_find_from_some(s: Seq<char>, m: Seq<char>, j: int)
    requires
        find_from(s, m, j) is Some,
    ensures
        j <= find_from(s, m, j)->0,
        find_from(s, m, j)->0 + m.len() <= s.len(),
    decreases s.len() - j,
{
    if !(j < 0 || j + m.len() > s.len()) && !occurs_at(s, m, j) {
        lemma_find_from_some(s, m, j + 1);
    }
}

proof fn lemma_find_from_short(s: Seq<char>, m: Seq<char>, i: int)
    requires
        i + m.len() > s.len(),
    ensures
        find_from(s, m, i) is None,
{
}

/// The two numbers in a name of the form `<p><n><mid><m>`.
pub fn extract_attr_n_m(v: &[char], p: &str, mid: &str) -> (r: Option<(u8, u8)>)
    ensures
        r == extract_n_m(v@, p@, mid@),
{
    if !starts_with_lit(v, p) {
        return None;
    }
    let plen = p.unicode_len();
    let rest_chars = slice_from(v, plen);
    let rest = rest_chars.as_slice();
    match find_lit(rest, mid, 0) {
        Some(i) => {
            proof {
                lemma_find_from_some(rest@, mid@, 0);
            }
            let mlen = mid.unicode_len();
            let n = parse_u8_range(rest, 0, i);
            let m = parse_u8_range(rest, i + mlen, rest.len());
            match (n, m) {
                (Some(n), Some(m)) => Some((n, m)),
                _ => None,
            }
        },
        None => None,
    }
}

/// The characters of `v` from position `lo` on.
fn slice_from(v: &[char], lo: usize) -> (r: Vec<char>)
    requires
        lo <= v@.len(),
    ensures
        r@ == v@.subrange(lo as int, v@.len() as int),
{
    let mut r: Vec<char> = Vec::new();
    let mut i = lo;
    while i < v.len()
        invariant
            lo <= i <= v@.len(),
            r@ == v@.subrange(lo as int, i as int),
        decreases v@.len() - i,
    {
        r.push(v[i]);
        i = i + 1;
        assert(r@ =~= v@.subrange(lo as int, i as int));
    }
    r
}

/// The ASCII digit for a value below ten, as a one-character string.
fn digit_str(d: u8) -> (r: &'static str)
    requires
        d < 10,
    ensures
        r@ == seq![digit_char(d as int)],
{
    proof {
        reveal_strlit("0");
        reveal_strlit("1");
        reveal_strlit("2");
        reveal_strlit("3");
        reveal_strlit("4");
        reveal_strlit("5");
        reveal_strlit("6");
        reveal_strlit("7");
        reveal_strlit("8");
        reveal_strlit("9");
    }
    let r = match d {
        0 => "0",
        1 => "1",
        2 => "2",
        3 => "3",
        4 => "4",
        5 => "5",
        6 => "6",
        7 => "7",
        8 => "8",
        _ => "9",
    };
    assert(r@ =~= seq![digit_char(d as int)]);
    r
}

/// Appends the decimal rendering of `n` to `s`.
pub fn push_u8(s: &mut String, n: u8)
    ensures
        final(s)@ == old(s)@ + dec(n),
{
    if n >= 100 {
        s.append(digit_str(n / 100));
        s.append(digit_str((n / 10) % 10));
        s.append(digit_str(n % 10));
    } else if n >= 10 {
        s.append(digit_str(n / 10));
        s.append(digit_str(n % 10));
    } else {
        s.append(digit_str(n));
    }
    assert(s@ =~= old(s)@ + dec(n));
}

/// The decimal rendering of a `u32`, without leading zeros.
pub open spec fn dec32(n: u32) -> Seq<char>
    decreases n,
{
    if n < 10 {
        seq![digit_char(n as int)]
    } else {
        dec32(n / 10) + seq![digit_char((n % 10) as int)]
    }
}

/// Appends the decimal rendering of `n` to `s`.
pub fn push_u32(s: &mut String, n: u32)
    ensures
        final(s)@ == old(s)@ + dec32(n),
    decreases n,
{
    if n >= 10 {
        push_u32(s, n / 10);
    }
    s.append(digit_str((n % 10) as u8));
    assert(s@ =~= old(s)@ + dec32(n));
}

/// The decimal rendering of `n`.
pub fn u32_text(n: u32) -> (r: String)
    ensures
        r@ == dec32(n),
{
    let mut s = String::new();
    push_u32(&mut s, n);
    assert(s@ =~= dec32(n));
    s
}

/// The decimal rendering of an `i32`, with a leading `-` where negative.
pub open spec fn dec_i32(n: i32) -> Seq<char> {
    if n < 0 {
        seq!['-'] + dec32((-n) as u32)
    } else {
        dec32(n as u32)
    }
}

/// Appends the decimal rendering of `n` to `s`.
pub fn push_i32(s: &mut String, n: i32)
    ensures
        final(s)@ == old(s)@ + dec_i32(n),
{
    if n < 0 {
        s.append("-");
        let m: i64 = n as i64;
        let a: u32 = (-m) as u32;
        proof {
            reveal_strlit("-");
        }
        push_u32(s, a);
        assert(s@ =~= old(s)@ + dec_i32(n));
    } else {
        push_u32(s, n as u32);
    }
}

/// The decimal rendering of a byte is one to three digits that parse back
/// to the byte.
pub proof fn lemma_dec(n: u8)
    ensures
        1 <= dec(n).len() <= 3,
        all_digits(dec(n)),
        is_digit(dec(n)[0]),
        parse_u8(dec(n)) == Some(n),
{
    let d = dec(n);
    lemma_digit_char((n % 10) as int);
    lemma_digit_char(((n / 10) % 10) as int);
    lemma_digit_char((n / 100) as int);
    if n < 10 {
        assert(d.drop_last().len() == 0);
        assert(digits_value(d.drop_last()) == 0);
        assert(d.last() == digit_char((n % 10) as int));
        assert(digits_value(d) == n);
    } else if n < 100 {
        lemma_digit_char((n / 10) as int);
        assert(d.drop_last() =~= seq![digit_char((n / 10) as int)]);
        assert(d.drop_last().drop_last().len() == 0);
        assert(digits_value(d.drop_last().drop_last()) == 0);
        assert(digits_value(d.drop_last()) == n / 10);
        assert(digits_value(d) == n);
    } else {
        let d1 = d.drop_last();
        let d2 = d1.drop_last();
        assert(d1 =~= seq![digit_char((n / 100) as int), digit_char(((n / 10) % 10) as int)]);
        assert(d2 =~= seq![digit_char((n / 100) as int)]);
        assert(d2.drop_last().len() == 0);
        assert(digits_value(d2.drop_last()) == 0);
        assert(digits_value(d2) == n / 100);
        assert(digits_value(d1) == (n / 100) * 10 + (n / 10) % 10);
        assert(digits_value(d) == n);
    }
    assert(d[0] != '+');
}

/// The digit characters are the digits of their values.
pub proof fn lemma_digit_char(k: int)
    requires
        0 <= k < 10,
    ensures
        is_digit(digit_char(k)),
        digit_value(digit_char(k)) == k,
{
}

/// A string that is empty or starts with a character that is neither a
/// digit nor `+` does not parse as a byte.
pub proof fn lemma_parse_u8_none_first(x: Seq<char>)
    requires
        x.len() == 0 || (!is_digit(x[0]) && x[0] != '+'),
    ensures
        parse_u8(x) is None,
{
    if x.len() > 0 {
        assert(!is_digit(x[0]));
    }
}

/// A string with a non-digit after its first character does not parse as a
/// byte.
pub proof fn lemma_parse_u8_none_at(x: Seq<char>, k: int)
    requires
        1 <= k < x.len(),
        !is_digit(x[k]),
    ensures
        parse_u8(x) is None,
{
    if x[0] == '+' {
        assert(x.drop_first()[k - 1] == x[k]);
    } else {
        assert(!is_digit(x[k]));
    }
}

/// No number follows `p` in `s` when `p` is not a prefix of `s`: they
/// differ at position `i`.
pub proof fn lemma_no_prefix_at(s: Seq<char>, p: Seq<char>, i: int)
    requires
        0 <= i < p.len(),
        i < s.len() ==> s[i] != p[i],
    ensures
        extract_n(s, p) is None,
        forall|q: Seq<char>| #[trigger] extract_n_suffix(s, p, q) is None,
        forall|mid: Seq<char>| #[trigger] extract_n_m(s, p, mid) is None,
{
    assert(!has_prefix(s, p));
}

/// No number of the form `<p><n><q>` is in `s` when `q` is not a suffix of
/// `s`: they differ at position `k` of `q`.
pub proof fn lemma_no_suffix_at(s: Seq<char>, p: Seq<char>, q: Seq<char>, k: int)
    requires
        0 <= k < q.len(),
        q.len() <= s.len() ==> s[s.len() - q.len() + k] != q[k],
    ensures
        extract_n_suffix(s, p, q) is None,
{
    assert(!has_suffix(s, q));
}

/// The character after the prefix `p` in `s` (if any) is neither a digit
/// nor `+`.
pub open spec fn letter_after(s: Seq<char>, p: Seq<char>) -> bool {
    p.len() >= s.len() || (!is_digit(s[p.len() as int]) && s[p.len() as int] != '+')
}

/// No number follows the prefix `p` when a letter does.
pub proof fn lemma_letter_after(s: Seq<char>, p: Seq<char>)
    requires
        letter_after(s, p),
    ensures
        extract_n(s, p) is None,
        forall|q: Seq<char>| #[trigger] extract_n_suffix(s, p, q) is None,
        forall|mid: Seq<char>| #[trigger] extract_n_m(s, p, mid) is None,
{
    if has_prefix(s, p) {
        let rest = s.subrange(p.len() as int, s.len() as int);
        lemma_parse_u8_none_first(rest);
        assert forall|q: Seq<char>| #[trigger] extract_n_suffix(s, p, q) is None by {
            if p.len() + q.len() <= s.len() {
                lemma_parse_u8_none_first(s.subrange(p.len() as int, s.len() - q.len()));
            }
        }
        assert forall|mid: Seq<char>| #[trigger] extract_n_m(s, p, mid) is None by {
            match find_from(rest, mid, 0) {
                Some(i) => {
                    lemma_find_from_some(rest, mid, 0);
                    lemma_parse_u8_none_first(rest.subrange(0, i));
                },
                None => {},
            }
        }
    }
}

/// The number in `<p><n>`.
pub proof fn lemma_extract_n_of(p: Seq<char>, n: u8)
    ensures
        extract_n(p + dec(n), p) == Some(n),
{
    let s = p + dec(n);
    lemma_dec(n);
    assert(has_prefix(s, p));
    assert(s.subrange(p.len() as int, s.len() as int) =~= dec(n));
}

/// The number in `<p><n><q>`.
pub proof fn lemma_extract_n_suffix_of(p: Seq<char>, n: u8, q: Seq<char>)
    ensures
        extract_n_suffix(p + dec(n) + q, p, q) == Some(n),
{
    let s = p + dec(n) + q;
    lemma_dec(n);
    assert(has_prefix(s, p));
    assert(has_suffix(s, q));
    assert(s.subrange(p.len() as int, s.len() - q.len()) =~= dec(n));
}

/// The numbers in `<p><n><mid><m>`, when `mid` starts with a non-digit.
pub proof fn lemma_extract_n_m_of(p: Seq<char>, n: u8, mid: Seq<char>, m: u8)
    requires
        mid.len() > 0,
        !is_digit(mid[0]),
    ensures
        extract_n_m(p + dec(n) + mid + dec(m), p, mid) == Some((n, m)),
{
    let s = p + dec(n) + mid + dec(m);
    lemma_dec(n);
    lemma_dec(m);
    assert(has_prefix(s, p));
    let rest = s.subrange(p.len() as int, s.len() as int);
    assert(rest =~= dec(n) + mid + dec(m));
    let d = dec(n).len() as int;
    assert forall|i: int| 0 <= i < d implies is_digit(#[trigger] rest[i]) by {
        assert(rest[i] == dec(n)[i]);
    }
    assert(occurs_at(rest, mid, d));
    lemma_find_after_digits(rest, mid, d);
    assert(rest.subrange(0, d) =~= dec(n));
    assert(rest.subrange(d + mid.len(), rest.len() as int) =~= dec(m));
}

/// No number of the form `<p><n>` is in `<p><n><t>` when `t` starts with a
/// non-digit.
pub proof fn lemma_extract_n_then_letter(p: Seq<char>, n: u8, t: Seq<char>)
    requires
        t.len() > 0,
        !is_digit(t[0]),
    ensures
        extract_n(p + dec(n) + t, p) is None,
{
    let s = p + dec(n) + t;
    lemma_dec(n);
    if has_prefix(s, p) {
        let rest = s.subrange(p.len() as int, s.len() as int);
        assert(rest =~= dec(n) + t);
        lemma_parse_u8_none_at(rest, dec(n).len() as int);
    }
}

/// No number of the form `<p><n><q>` is in `<p><n><t>` when `t` is longer
/// than `q` and starts with a non-digit.
pub proof fn lemma_extract_n_suffix_longer(p: Seq<char>, n: u8, t: Seq<char>, q: Seq<char>)
    requires
        t.len() > q.len(),
        !is_digit(t[0]),
    ensures
        extract_n_suffix(p + dec(n) + t, p, q) is None,
{
    let s = p + dec(n) + t;
    lemma_dec(n);
    if p.len() + q.len() <= s.len() && has_prefix(s, p) && has_suffix(s, q) {
        let mid = s.subrange(p.len() as int, s.len() - q.len());
        assert(mid[dec(n).len() as int] == t[0]);
        lemma_parse_u8_none_at(mid, dec(n).len() as int);
    }
}

/// No pair of numbers separated by `mid` is in `<p><n><t>` when the first
/// character of `mid` is neither a digit nor in `t`.
pub proof fn lemma_extract_n_m_absent(p: Seq<char>, n: u8, t: Seq<char>, mid: Seq<char>)
    requires
        mid.len() > 0,
        !is_digit(mid[0]),
        forall|i: int| 0 <= i < t.len() ==> #[trigger] t[i] != mid[0],
    ensures
        extract_n_m(p + dec(n) + t, p, mid) is None,
{
    let s = p + dec(n) + t;
    lemma_dec(n);
    if has_prefix(s, p) {
        let rest = s.subrange(p.len() as int, s.len() as int);
        assert(rest =~= dec(n) + t);
        assert forall|k: int| 0 <= k < rest.len() implies #[trigger] rest[k] != mid[0] by {
            if k < dec(n).len() {
                assert(is_digit(dec(n)[k]));
            } else {
                assert(rest[k] == t[k - dec(n).len()]);
            }
        }
        lemma_find_none(rest, mid, 0);
    }
}

/// `mid` is found right after a run of `d` digits when it starts with a
/// non-digit and occurs there.
pub proof fn lemma_find_after_digits(x: Seq<char>, mid: Seq<char>, d: int)
    requires
        0 <= d,
        forall|i: int| 0 <= i < d ==> is_digit(#[trigger] x[i]),
        mid.len() > 0,
        !is_digit(mid[0]),
        occurs_at(x, mid, d),
    ensures
        find_from(x, mid, 0) == Some(d),
{
    lemma_find_after_digits_from(x, mid, d, 0);
}

proof fn lemma_find_after_digits_from(x: Seq<char>, mid: Seq<char>, d: int, i: int)
    requires
        0 <= i <= d,
        forall|k: int| 0 <= k < d ==> is_digit(#[trigger] x[k]),
        mid.len() > 0,
        !is_digit(mid[0]),
        occurs_at(x, mid, d),
    ensures
        find_from(x, mid, i) == Some(d),
    decreases d - i,
{
    if i < d {
        assert(is_digit(x[i]));
        assert(x[i + 0] != mid[0]);
        lemma_find_after_digits_from(x, mid, d, i + 1);
    }
}

/// `mid` is not found when its first character does not occur.
pub proof fn lemma_find_none(x: Seq<char>, mid: Seq<char>, i: int)
    requires
        0 <= i,
        mid.len() > 0,
        forall|k: int| 0 <= k < x.len() ==> #[trigger] x[k] != mid[0],
    ensures
        find_from(x, mid, i) is None,
    decreases x.len() - i,
{
    if i + mid.len() <= x.len() {
        assert(x[i + 0] != mid[0]);
        lemma_find_none(x, mid, i + 1);
    }
}

} // verus!
