//! Character-level text helpers: search, trimming, ASCII case mapping and decimal rendering.
use vstd::prelude::*;

verus! {

broadcast use vstd::string::group_string_axioms;

/// Appends one character to a `String`.
///
/// Calls `String::push`, whose documentation says it appends the character to the end of the
/// string; the contract claims exactly that of the view.
#[verifier::external_body]
pub(crate) fn push_char(s: &mut String, c: char)
    ensures
        final(s)@ == old(s)@.push(c),
{
    s.push(c);
}

/// The characters of `s`, in order.
pub fn chars_of(s: &str) -> (v: Vec<char>)
    ensures
        v@ == s@,
{
    let mut v: Vec<char> = Vec::new();
    for c in it: s.chars()
        invariant
            v@ == it.seq().take(it.index()),
            it.seq() == s@,
    {
        v.push(c);
    }
    v
}

/// The string made of the characters `v[from..to]`.
pub fn string_of_range(v: &Vec<char>, from: usize, to: usize) -> (s: String)
    requires
        from <= to <= v.len(),
    ensures
        s@ == v@.subrange(from as int, to as int),
{
    let mut s = String::new();
    let mut i = from;
    while i < to
        invariant
            from <= i <= to <= v.len(),
            s@ == v@.subrange(from as int, i as int),
        decreases to - i,
    {
        push_char(&mut s, v[i]);
        i += 1;
    }
    s
}

/// The characters `v[from..to]`.
pub fn sub_chars(v: &Vec<char>, from: usize, to: usize) -> (r: Vec<char>)
    requires
        from <= to <= v.len(),
    ensures
        r@ == v@.subrange(from as int, to as int),
{
    let mut r: Vec<char> = Vec::new();
    let mut i = from;
    while i < to
        invariant
            from <= i <= to <= v.len(),
            r@ == v@.subrange(from as int, i as int),
        decreases to - i,
    {
        r.push(v[i]);
        assert(v@.subrange(from as int, i + 1) =~= v@.subrange(from as int, i as int).push(v@[i as int]));
        i += 1;
    }
    r
}

/// The characters of `s` without leading and trailing white space, in ASCII lower case.
pub fn trimmed_lower(s: &str) -> (r: Vec<char>)
    ensures
        r@ == ascii_lower(trim(s@)),
{
    let v = chars_of(s);
    let (a, b) = trim_bounds(&v, 0, v.len());
    assert(v@.subrange(0, v@.len() as int) =~= v@);
    let t = sub_chars(&v, a, b);
    ascii_lower_exec(&t)
}

/// The string made of the characters of `v`.
pub fn string_of(v: &Vec<char>) -> (s: String)
    ensures
        s@ == v@,
{
    let s = string_of_range(v, 0, v.len());
    assert(v@.subrange(0, v@.len() as int) == v@);
    s
}

/// Appends the characters of `v` to `s`.
pub fn append_chars(s: &mut String, v: &Vec<char>)
    ensures
        final(s)@ == old(s)@ + v@,
{
    let mut i: usize = 0;
    while i < v.len()
        invariant
            0 <= i <= v.len(),
            s@ == old(s)@ + v@.subrange(0, i as int),
        decreases v.len() - i,
    {
        push_char(s, v[i]);
        i += 1;
    }
    assert(v@.subrange(0, v@.len() as int) == v@);
}

/// Whether `n` occurs in `h` starting at position `i`.
pub open spec fn matches_at(h: Seq<char>, n: Seq<char>, i: int) -> bool {
    0 <= i && i + n.len() <= h.len() && h.subrange(i, i + n.len()) == n
}

/// The first position at or after `from` where `n` occurs in `h`.
pub open spec fn find_from(h: Seq<char>, n: Seq<char>, from: int) -> Option<int>
    decreases h.len() + 1 - from,
{
    if from < 0 || from + n.len() > h.len() {
        None
    } else if matches_at(h, n, from) {
        Some(from)
    } else {
        find_from(h, n, from + 1)
    }
}

/// The first position where `n` occurs in `h`.
pub open spec fn find(h: Seq<char>, n: Seq<char>) -> Option<int> {
    find_from(h, n, 0)
}

/// Whether `n` occurs anywhere in `h`.
pub open spec fn contains_sub(h: Seq<char>, n: Seq<char>) -> bool {
    find(h, n) is Some
}

/// `find_from` returns the first match at or after `from`, and `None` only when there is none.
pub proof fn lemma_find_from(h: Seq<char>, n: Seq<char>, from: int)
    requires
        0 <= from,
    ensures
        find_from(h, n, from) matches Some(i) ==> {
            &&& from <= i
            &&& matches_at(h, n, i)
            &&& forall|j: int| from <= j < i ==> !matches_at(h, n, j)
        },
        find_from(h, n, from) is None ==> forall|j: int| from <= j ==> !matches_at(h, n, j),
    decreases h.len() + 1 - from,
{
    if from + n.len() > h.len() {
    } else if matches_at(h, n, from) {
    } else {
        lemma_find_from(h, n, from + 1);
        assert forall|j: int| from <= j && find_from(h, n, from) is None implies !matches_at(h, n, j) by {
            if j > from {
            }
        }
    }
}

/// Whether `n` occurs at position `i` of `h`.
fn matches_at_exec(h: &Vec<char>, n: &Vec<char>, i: usize) -> (r: bool)
    ensures
        r == matches_at(h@, n@, i as int),
{
    if n.len() > h.len() || i > h.len() - n.len() {
        return false;
    }
    let mut k: usize = 0;
    while k < n.len()
        invariant
            i + n.len() <= h.len(),
            0 <= k <= n.len(),
            forall|j: int| 0 <= j < k ==> h@[i + j] == n@[j],
        decreases n.len() - k,
    {
        if h[i + k] != n[k] {
            assert(h@.subrange(i as int, i + n.len())[k as int] != n@[k as int]);
            return false;
        }
        k += 1;
    }
    assert(h@.subrange(i as int, i + n.len()) =~= n@);
    true
}

/// The first position at or after `from` where `n` occurs in `h`.
pub fn find_from_exec(h: &Vec<char>, n: &Vec<char>, from: usize) -> (r: Option<usize>)
    ensures
        r matches Some(i) ==> find_from(h@, n@, from as int) == Some(i as int) && from <= i
            && matches_at(h@, n@, i as int),
        r is None ==> find_from(h@, n@, from as int) is None,
{
    proof {
        lemma_find_from(h@, n@, from as int);
    }
    if n.len() == 0 {
        if from <= h.len() {
            assert(h@.subrange(from as int, from as int) =~= n@);
            return Some(from);
        }
        return None;
    }
    if n.len() > h.len() {
        return None;
    }
    let limit = h.len() - n.len();
    let mut i = from;
    while i <= limit
        invariant
            from <= i,
            n.len() >= 1,
            limit == h.len() - n.len(),
            find_from(h@, n@, from as int) == find_from(h@, n@, i as int),
        decreases h.len() + 1 - i,
    {
        if matches_at_exec(h, n, i) {
            return Some(i);
        }
        i += 1;
    }
    None
}

/// Whether the text `lit` occurs in `h`.
pub fn contains_exec(h: &Vec<char>, lit: &str) -> (r: bool)
    ensures
        r == contains_sub(h@, lit@),
{
    let n = chars_of(lit);
    find_from_exec(h, &n, 0).is_some()
}

/// The first position where the character `c` occurs in `h[from..]`.
pub fn find_char_from(h: &Vec<char>, c: char, from: usize) -> (r: Option<usize>)
    ensures
        r matches Some(i) ==> find_from(h@, seq![c], from as int) == Some(i as int) && from <= i
            && i < h.len() && h@[i as int] == c,
        r is None ==> find_from(h@, seq![c], from as int) is None,
{
    let mut n: Vec<char> = Vec::new();
    n.push(c);
    assert(n@ == seq![c]);
    let r = find_from_exec(h, &n, from);
    if let Some(i) = r {
        assert(h@.subrange(i as int, i + 1)[0] == c);
    }
    r
}

/// Whether two character sequences are equal.
pub fn chars_eq(a: &Vec<char>, b: &Vec<char>) -> (r: bool)
    ensures
        r == (a@ == b@),
{
    if a.len() != b.len() {
        return false;
    }
    let r = matches_at_exec(a, b, 0);
    assert(r == (a@ == b@)) by {
        if r {
            assert(a@.subrange(0, b@.len() as int) == a@);
        } else {
            assert(a@.subrange(0, b@.len() as int) == a@);
        }
    }
    r
}

/// Whether the characters `v` spell the text `lit`.
pub fn eq_lit(v: &Vec<char>, lit: &str) -> (r: bool)
    ensures
        r == (v@ == lit@),
{
    let l = chars_of(lit);
    chars_eq(v, &l)
}

/// Whether two texts are equal.
pub fn str_eq(a: &str, b: &str) -> (r: bool)
    ensures
        r == (a@ == b@),
{
    let va = chars_of(a);
    let vb = chars_of(b);
    chars_eq(&va, &vb)
}

/// Whether `v` starts with the text `lit`.
pub fn starts_with_lit(v: &Vec<char>, lit: &str) -> (r: bool)
    ensures
        r == matches_at(v@, lit@, 0),
{
    let l = chars_of(lit);
    matches_at_exec(v, &l, 0)
}

/// Unicode `White_Space`, the property that `char::is_whitespace` and `str::trim` use.
pub open spec fn is_white_space(c: char) -> bool {
    ||| c == ' '
    ||| ('\u{9}' <= c && c <= '\u{d}')
    ||| c == '\u{85}'
    ||| c == '\u{a0}'
    ||| c == '\u{1680}'
    ||| ('\u{2000}' <= c && c <= '\u{200a}')
    ||| c == '\u{2028}'
    ||| c == '\u{2029}'
    ||| c == '\u{202f}'
    ||| c == '\u{205f}'
    ||| c == '\u{3000}'
}

pub fn is_white_space_exec(c: char) -> (r: bool)
    ensures
        r == is_white_space(c),
{
    c == ' ' || ('\u{9}' <= c && c <= '\u{d}') || c == '\u{85}' || c == '\u{a0}' || c == '\u{1680}'
        || ('\u{2000}' <= c && c <= '\u{200a}') || c == '\u{2028}' || c == '\u{2029}' || c
        == '\u{202f}' || c == '\u{205f}' || c == '\u{3000}'
}

/// `s` without its leading white space.
pub open spec fn trim_start(s: Seq<char>) -> Seq<char>
    decreases s.len(),
{
    if s.len() > 0 && is_white_space(s[0]) {
        trim_start(s.drop_first())
    } else {
        s
    }
}

/// `s` without its trailing white space.
pub open spec fn trim_end(s: Seq<char>) -> Seq<char>
    decreases s.len(),
{
    if s.len() > 0 && is_white_space(s.last()) {
        trim_end(s.drop_last())
    } else {
        s
    }
}

/// `s` without leading and trailing white space, as `str::trim` gives it.
pub open spec fn trim(s: Seq<char>) -> Seq<char> {
    trim_end(trim_start(s))
}

proof fn lemma_trim_start_from(s: Seq<char>, k: int)
    requires
        0 <= k <= s.len(),
        forall|j: int| 0 <= j < k ==> is_white_space(s[j]),
    ensures
        trim_start(s) == trim_start(s.subrange(k, s.len() as int)),
    decreases k,
{
    if k > 0 {
        assert(is_white_space(s[0]));
        let t = s.drop_first();
        lemma_trim_start_from(t, k - 1);
        assert(t.subrange(k - 1, t.len() as int) =~= s.subrange(k, s.len() as int));
    } else {
        assert(s.subrange(0, s.len() as int) =~= s);
    }
}

proof fn lemma_trim_end_to(s: Seq<char>, k: int)
    requires
        0 <= k <= s.len(),
        forall|j: int| k <= j < s.len() ==> is_white_space(s[j]),
    ensures
        trim_end(s) == trim_end(s.subrange(0, k)),
    decreases s.len() - k,
{
    if k < s.len() {
        assert(is_white_space(s.last()));
        let t = s.drop_last();
        lemma_trim_end_to(t, k);
        assert(t.subrange(0, k) =~= s.subrange(0, k));
    } else {
        assert(s.subrange(0, k) =~= s);
    }
}

/// The bounds `[start, end)` of `v[from..to]` without its leading and trailing white space.
pub fn trim_bounds(v: &Vec<char>, from: usize, to: usize) -> (r: (usize, usize))
    requires
        from <= to <= v.len(),
    ensures
        from <= r.0 <= r.1 <= to,
        v@.subrange(r.0 as int, r.1 as int) == trim(v@.subrange(from as int, to as int)),
{
    let ghost s = v@.subrange(from as int, to as int);
    let mut start = from;
    while start < to && is_white_space_exec(v[start])
        invariant
            from <= start <= to <= v.len(),
            forall|j: int| from <= j < start ==> is_white_space(v@[j]),
        decreases to - start,
    {
        start += 1;
    }
    proof {
        lemma_trim_start_from(s, start - from);
        assert(s.subrange(start - from, s.len() as int) =~= v@.subrange(start as int, to as int));
    }
    let ghost u = v@.subrange(start as int, to as int);
    assert(trim_start(u) == u);
    let mut end = to;
    while end > start && is_white_space_exec(v[end - 1])
        invariant
            from <= start <= end <= to <= v.len(),
            forall|j: int| end <= j < to ==> is_white_space(v@[j]),
        decreases end - start,
    {
        end -= 1;
    }
    proof {
        lemma_trim_end_to(u, end - start);
        assert(u.subrange(0, end - start) =~= v@.subrange(start as int, end as int));
    }
    (start, end)
}

/// `c` mapped to ASCII lower case.
pub open spec fn ascii_lower_char(c: char) -> char {
    if 'A' <= c && c <= 'Z' {
        ((c as u32) + 32) as char
    } else {
        c
    }
}

/// `c` mapped to ASCII upper case.
pub open spec fn ascii_upper_char(c: char) -> char {
    if 'a' <= c && c <= 'z' {
        ((c as u32) - 32) as char
    } else {
        c
    }
}

/// `s` mapped to ASCII lower case, as `str::to_ascii_lowercase` gives it.
pub open spec fn ascii_lower(s: Seq<char>) -> Seq<char> {
    s.map_values(|c: char| ascii_lower_char(c))
}

/// `s` mapped to ASCII upper case, as `str::to_ascii_uppercase` gives it.
pub open spec fn ascii_upper(s: Seq<char>) -> Seq<char> {
    s.map_values(|c: char| ascii_upper_char(c))
}

pub fn ascii_lower_char_exec(c: char) -> (r: char)
    ensures
        r == ascii_lower_char(c),
{
    if 'A' <= c && c <= 'Z' {
        let b = c as u8;
        (b + 32) as char
    } else {
        c
    }
}

pub fn ascii_upper_char_exec(c: char) -> (r: char)
    ensures
        r == ascii_upper_char(c),
{
    if 'a' <= c && c <= 'z' {
        let b = c as u8;
        (b - 32) as char
    } else {
        c
    }
}

/// `v` mapped to ASCII lower case.
pub fn ascii_lower_exec(v: &Vec<char>) -> (r: Vec<char>)
    ensures
        r@ == ascii_lower(v@),
{
    let mut r: Vec<char> = Vec::new();
    let mut i: usize = 0;
    while i < v.len()
        invariant
            0 <= i <= v.len(),
            r@ == ascii_lower(v@.subrange(0, i as int)),
        decreases v.len() - i,
    {
        r.push(ascii_lower_char_exec(v[i]));
        assert(ascii_lower(v@.subrange(0, i + 1)) =~= ascii_lower(v@.subrange(0, i as int)).push(
            ascii_lower_char(v@[i as int]),
        ));
        i += 1;
    }
    assert(v@.subrange(0, v@.len() as int) == v@);
    r
}

/// `v` mapped to ASCII upper case.
pub fn ascii_upper_exec(v: &Vec<char>) -> (r: Vec<char>)
    ensures
        r@ == ascii_upper(v@),
{
    let mut r: Vec<char> = Vec::new();
    let mut i: usize = 0;
    while i < v.len()
        invariant
            0 <= i <= v.len(),
            r@ == ascii_upper(v@.subrange(0, i as int)),
        decreases v.len() - i,
    {
        r.push(ascii_upper_char_exec(v[i]));
        assert(ascii_upper(v@.subrange(0, i + 1)) =~= ascii_upper(v@.subrange(0, i as int)).push(
            ascii_upper_char(v@[i as int]),
        ));
        i += 1;
    }
    assert(v@.subrange(0, v@.len() as int) == v@);
    r
}

/// The decimal digits of `n`, most significant first, without leading zeros.
pub open spec fn decimal(n: nat) -> Seq<char>
    decreases n,
{
    if n < 10 {
        seq![digit_char(n)]
    } else {
        decimal(n / 10).push(digit_char(n % 10))
    }
}

/// The ASCII digit for `d`, which is below 10.
pub open spec fn digit_char(d: nat) -> char {
    (('0' as u32) + d) as char
}

/// Appends the decimal rendering of `n` to `s`, as `{}` formatting writes it.
pub fn append_decimal(s: &mut String, n: u64)
    ensures
        final(s)@ == old(s)@ + decimal(n as nat),
    decreases n,
{
    if n >= 10 {
        append_decimal(s, n / 10);
    }
    let d = (n % 10) as u8;
    let c = (48u8 + d) as char;
    assert(c == digit_char((n % 10) as nat));
    push_char(s, c);
    proof {
        if n >= 10 {
            assert(old(s)@ + decimal(n as nat) =~= old(s)@ + decimal((n / 10) as nat) + seq![c]);
        } else {
            assert(decimal(n as nat) == seq![c]);
        }
    }
}

/// Appends the text `lit` to `s`.
pub fn append_str(s: &mut String, lit: &str)
    ensures
        final(s)@ == old(s)@ + lit@,
{
    s.append(lit);
}


/// The `Debug` rendering of a string: quoted, with quotes, backslashes and non-printable
/// characters escaped.
pub uninterp spec fn debug_quoted(s: Seq<char>) -> Seq<char>;

/// Renders a string the way `{:?}` does.
///
/// Calls `<str as Debug>::fmt` through `format!`; the contract names its result
/// `debug_quoted` of the string and claims nothing more about it.
#[verifier::external_body]
pub(crate) fn debug_text(value: &str) -> (r: String)
    ensures
        r@ == debug_quoted(value@),
{
    format!("{:?}", value)
}

/// An optional text that is already quoted, rendered as `None` or `Some(..)` around it.
pub open spec fn quoted_option(o: Option<Seq<char>>) -> Seq<char> {
    match o {
        Some(q) => "Some("@ + q + ")"@,
        None => "None"@,
    }
}

/// The `Debug` rendering of an optional string: `None`, or `Some(..)` around the quoted text.
pub open spec fn debug_option(o: Option<Seq<char>>) -> Seq<char> {
    match o {
        Some(s) => quoted_option(Some(debug_quoted(s))),
        None => quoted_option(None),
    }
}

/// Appends an optional text that is already quoted, as `None` or `Some(..)` around it.
pub fn append_quoted_option(s: &mut String, quoted: Option<&str>)
    ensures
        final(s)@ == old(s)@ + quoted_option(
            match quoted {
                Some(q) => Some(q@),
                None => None,
            },
        ),
{
    match quoted {
        Some(q) => {
            append_str(s, "Some(");
            append_str(s, q);
            append_str(s, ")");
        },
        None => append_str(s, "None"),
    }
}

/// Appends the `Debug` rendering of an optional string.
pub fn append_debug_option(s: &mut String, o: Option<&str>)
    ensures
        final(s)@ == old(s)@ + debug_option(
            match o {
                Some(v) => Some(v@),
                None => None,
            },
        ),
{
    match o {
        Some(v) => {
            let quoted = debug_text(v);
            append_quoted_option(s, Some(quoted.as_str()));
        },
        None => append_quoted_option(s, None),
    }
}

/// Whether two texts are equal ignoring ASCII case.
pub open spec fn eq_ignore_ascii_case(a: Seq<char>, b: Seq<char>) -> bool {
    ascii_lower(a) == ascii_lower(b)
}

pub fn eq_ignore_ascii_case_exec(a: &str, b: &str) -> (r: bool)
    ensures
        r == eq_ignore_ascii_case(a@, b@),
{
    let la = ascii_lower_exec(&chars_of(a));
    let lb = ascii_lower_exec(&chars_of(b));
    chars_eq(&la, &lb)
}

} // verus!
