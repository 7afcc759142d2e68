//! Character-level helpers shared by the format parsers and writers.
use vstd::prelude::*;

verus! {

/// Whether a character has the Unicode `White_Space` property, as
/// `char::is_whitespace` reads it: tab through carriage return, space, next
/// line, no-break space, ogham space mark, en quad through hair space, line
/// and paragraph separators, narrow no-break space, medium mathematical space
/// and ideographic space.
pub open spec fn is_space(c: char) -> bool {
    let u = c as u32;
    ||| 0x09 <= u <= 0x0d
    ||| u == 0x20
    ||| u == 0x85
    ||| u == 0xa0
    ||| u == 0x1680
    ||| 0x2000 <= u <= 0x200a
    ||| u == 0x2028
    ||| u == 0x2029
    ||| u == 0x202f
    ||| u == 0x205f
    ||| u == 0x3000
}

/// What `{:?}` prints for a string: the text in double quotes, with quotes,
/// backslashes, control and non-printable characters escaped.
pub uninterp spec fn debug_of(s: Seq<char>) -> Seq<char>;

/// Reading `s` from the left: the words completed so far, and the word under
/// way (empty between words).
pub open spec fn scan_words(s: Seq<char>) -> (Seq<Seq<char>>, Seq<char>)
    decreases s.len(),
{
    if s.len() == 0 {
        (Seq::empty(), Seq::empty())
    } else {
        let (done, cur) = scan_words(s.drop_last());
        let c = s.last();
        if is_space(c) {
            if cur.len() > 0 {
                (done.push(cur), Seq::empty())
            } else {
                (done, cur)
            }
        } else {
            (done, cur.push(c))
        }
    }
}

/// The words of a line: its maximal runs of non-whitespace characters, in
/// order, as `str::split_whitespace` yields them.
pub open spec fn words_of(s: Seq<char>) -> Seq<Seq<char>> {
    let (done, cur) = scan_words(s);
    if cur.len() > 0 {
        done.push(cur)
    } else {
        done
    }
}

/// What `str::to_lowercase` yields for a string.
pub uninterp spec fn lower_of(s: Seq<char>) -> Seq<char>;

/// The views of a vector of strings.
pub open spec fn views(v: Seq<String>) -> Seq<Seq<char>> {
    v.map_values(|s: String| s@)
}

/// Pushing a string pushes its view.
pub proof fn lemma_views_push(v: Seq<String>, s: String)
    ensures
        views(v.push(s)) == views(v).push(s@),
{
    assert(views(v.push(s)) =~= views(v).push(s@));
}

/// One more element of a prefix of the views is the next string's view.
pub proof fn lemma_views_prefix(v: Seq<String>, i: int)
    requires
        0 <= i < v.len(),
    ensures
        views(v).take(i + 1).drop_last() == views(v).take(i),
        views(v).take(i + 1).last() == v[i]@,
        views(v).take(i + 1).len() == i + 1,
{
    assert(views(v).take(i + 1).drop_last() =~= views(v).take(i));
}

/// The prefix as long as the vector is all of it.
pub proof fn lemma_views_all(v: Seq<String>)
    ensures
        views(v).take(v.len() as int) == views(v),
{
    assert(views(v).take(v.len() as int) =~= views(v));
}

/// Appends a copy of `s` to `out`.
pub fn push_text(out: &mut Vec<String>, s: &str)
    ensures
        views(final(out)@) == views(old(out)@).push(s@),
{
    let t = String::from_str(s);
    proof {
        lemma_views_push(out@, t);
    }
    out.push(t);
}

/// `p` is a prefix of `s`.
pub open spec fn has_prefix(s: Seq<char>, p: Seq<char>) -> bool {
    p.len() <= s.len() && s.subrange(0, p.len() as int) == p
}

/// `p` occurs somewhere inside `s`.
pub open spec fn occurs_in(s: Seq<char>, p: Seq<char>) -> bool {
    exists|i: int| 0 <= i && i + p.len() <= s.len() && #[trigger] s.subrange(i, i + p.len()) == p
}

/// A line holding nothing but whitespace.
pub open spec fn is_blank_line(s: Seq<char>) -> bool {
    words_of(s).len() == 0
}

pub open spec fn is_digit(c: char) -> bool {
    '0' <= c && c <= '9'
}

pub open spec fn digit_value(c: char) -> nat {
    (c as u32 - '0' as u32) as nat
}

pub open spec fn all_digits(s: Seq<char>) -> bool {
    forall|i: int| 0 <= i < s.len() ==> is_digit(#[trigger] s[i])
}

/// The number that a string of decimal digits denotes.
pub open spec fn digits_value(s: Seq<char>) -> nat
    decreases s.len(),
{
    if s.len() == 0 {
        0
    } else {
        digits_value(s.drop_last()) * 10 + digit_value(s.last())
    }
}

/// The digits of an unsigned integer literal, after an optional leading `+`.
pub open spec fn unsigned_digits(s: Seq<char>) -> Seq<char> {
    if s.len() > 0 && s[0] == '+' {
        s.drop_first()
    } else {
        s
    }
}

/// How Rust's `FromStr` for an unsigned integer type whose largest value is
/// `max` reads `s`: an optional `+`, then at least one ASCII digit and nothing
/// else, with a value that fits.
pub open spec fn unsigned_parse(s: Seq<char>, max: nat) -> Option<nat> {
    let d = unsigned_digits(s);
    if d.len() > 0 && all_digits(d) && digits_value(d) <= max {
        Some(digits_value(d))
    } else {
        None
    }
}

pub open spec fn digit_char(d: nat) -> char
    recommends
        d < 10,
{
    ((d + '0' as u32) as u32) as char
}

/// The shortest decimal representation of `n`.
pub open spec fn decimal_of(n: nat) -> Seq<char>
    decreases n,
{
    if n < 10 {
        seq![digit_char(n)]
    } else {
        decimal_of(n / 10).push(digit_char(n % 10))
    }
}

/// A word: non-empty, with no whitespace in it.
pub open spec fn is_solid(w: Seq<char>) -> bool {
    w.len() > 0 && forall|j: int| 0 <= j < w.len() ==> !is_space(#[trigger] w[j])
}

proof fn lemma_scan_solid(s: Seq<char>)
    ensures
        forall|k: int| 0 <= k < scan_words(s).0.len() ==> is_solid(#[trigger] scan_words(s).0[k]),
        forall|j: int| 0 <= j < scan_words(s).1.len() ==> !is_space(#[trigger] scan_words(s).1[j]),
    decreases s.len(),
{
    if s.len() > 0 {
        let prev = scan_words(s.drop_last());
        lemma_scan_solid(s.drop_last());
        let c = s.last();
        if !is_space(c) {
            assert forall|j: int| 0 <= j < scan_words(s).1.len() implies !is_space(
                #[trigger] scan_words(s).1[j],
            ) by {
                if j < prev.1.len() {
                    assert(scan_words(s).1[j] == prev.1[j]);
                }
            }
        } else if prev.1.len() > 0 {
            assert forall|k: int| 0 <= k < scan_words(s).0.len() implies is_solid(
                #[trigger] scan_words(s).0[k],
            ) by {
                if k < prev.0.len() {
                    assert(scan_words(s).0[k] == prev.0[k]);
                }
            }
        }
    }
}

/// Every word of a line is non-empty and holds no whitespace.
pub proof fn lemma_words_solid(s: Seq<char>)
    ensures
        forall|k: int| 0 <= k < words_of(s).len() ==> is_solid(#[trigger] words_of(s)[k]),
{
    lemma_scan_solid(s);
    let (done, cur) = scan_words(s);
    if cur.len() > 0 {
        assert forall|k: int| 0 <= k < words_of(s).len() implies is_solid(
            #[trigger] words_of(s)[k],
        ) by {
            if k < done.len() {
                assert(words_of(s)[k] == done[k]);
            }
        }
    }
}

proof fn lemma_scan_nonempty(s: Seq<char>, i: int)
    requires
        0 <= i < s.len(),
        !is_space(s[i]),
    ensures
        scan_words(s).0.len() > 0 || scan_words(s).1.len() > 0,
    decreases s.len(),
{
    if i < s.len() - 1 {
        assert(s.drop_last()[i] == s[i]);
        lemma_scan_nonempty(s.drop_last(), i);
    }
}

/// A line with a character that is not whitespace is not blank.
pub proof fn lemma_not_blank(s: Seq<char>, i: int)
    requires
        0 <= i < s.len(),
        !is_space(s[i]),
    ensures
        !is_blank_line(s),
{
    lemma_scan_nonempty(s, i);
}


/// Whether a character is whitespace.
pub fn char_is_space(c: char) -> (r: bool)
    ensures
        r == is_space(c),
{
    let u = c as u32;
    (0x09 <= u && u <= 0x0d) || u == 0x20 || u == 0x85 || u == 0xa0 || u == 0x1680 || (0x2000
        <= u && u <= 0x200a) || u == 0x2028 || u == 0x2029 || u == 0x202f || u == 0x205f || u
        == 0x3000
}

/// Relies on the `Debug` formatting of `str` (`format!("{:?}", s)`): the
/// quoted, escaped text depends on the characters alone.
#[verifier::external_body]
pub(crate) fn debug_text(s: &str) -> (r: String)
    ensures
        r@ == debug_of(s@),
{
    format!("{:?}", s)
}

/// The words of the line, in order.
pub fn split_words(s: &str) -> (r: Vec<String>)
    ensures
        views(r@) == words_of(s@),
{
    let n = s.unicode_len();
    let mut words: Vec<String> = Vec::new();
    let mut start: usize = 0;
    let mut in_word = false;
    let mut i: usize = 0;
    while i < n
        invariant
            n == s@.len(),
            i <= n,
            in_word ==> start < i,
            scan_words(s@.take(i as int)) == (
                views(words@),
                if in_word {
                    s@.subrange(start as int, i as int)
                } else {
                    Seq::empty()
                },
            ),
        decreases n - i,
    {
        let c = s.get_char(i);
        assert(s@.take(i + 1).drop_last() == s@.take(i as int));
        assert(s@.take(i + 1).last() == c);
        if char_is_space(c) {
            if in_word {
                let w = String::from_str(s.substring_char(start, i));
                proof {
                    lemma_views_push(words@, w);
                }
                words.push(w);
                in_word = false;
            }
        } else {
            if !in_word {
                start = i;
                in_word = true;
                assert(s@.subrange(i as int, i + 1) == seq![c]);
            } else {
                assert(s@.subrange(start as int, i + 1) == s@.subrange(start as int, i as int).push(
                    c,
                ));
            }
        }
        i = i + 1;
    }
    assert(s@.take(n as int) == s@);
    if in_word {
        let w = String::from_str(s.substring_char(start, n));
        proof {
            lemma_views_push(words@, w);
        }
        words.push(w);
    }
    words
}

/// Relies on `str::to_lowercase`: the result depends on the characters alone.
#[verifier::external_body]
pub(crate) fn lowercase(s: &str) -> (r: String)
    ensures
        r@ == lower_of(s@),
{
    s.to_lowercase()
}

/// What `Path::join` gives for a base path and a relative name, as text.
pub uninterp spec fn path_joined(base: Seq<char>, name: Seq<char>) -> Seq<char>;

/// Relies on `Path::join`, its result read back as text (both parts are
/// valid UTF-8, so nothing is lost).
#[verifier::external_body]
pub(crate) fn join_path(base: &str, name: &str) -> (r: String)
    ensures
        r@ == path_joined(base@, name@),
{
    std::path::Path::new(base).join(name).to_string_lossy().into_owned()
}

/// Whether `s` begins with `p`.
pub fn starts_with(s: &str, p: &str) -> (r: bool)
    ensures
        r == has_prefix(s@, p@),
{
    let n = s.unicode_len();
    let m = p.unicode_len();
    if m > n {
        return false;
    }
    let mut i: usize = 0;
    while i < m
        invariant
            n == s@.len(),
            m == p@.len(),
            m <= n,
            i <= m,
            s@.subrange(0, i as int) == p@.subrange(0, i as int),
        decreases m - i,
    {
        if s.get_char(i) != p.get_char(i) {
            assert(s@.subrange(0, m as int)[i as int] != p@[i as int]);
            return false;
        }
        assert(s@.subrange(0, i + 1) == s@.subrange(0, i as int).push(s@[i as int]));
        assert(p@.subrange(0, i + 1) == p@.subrange(0, i as int).push(p@[i as int]));
        i = i + 1;
    }
    assert(p@.subrange(0, m as int) == p@);
    true
}

/// Whether `s` and `p` hold the same characters.
pub fn same_text(s: &str, p: &str) -> (r: bool)
    ensures
        r == (s@ == p@),
{
    if s.unicode_len() != p.unicode_len() {
        return false;
    }
    let r = starts_with(s, p);
    assert(s@.subrange(0, s@.len() as int) == s@);
    r
}

/// Whether `p` occurs inside `s`.
pub fn contains_text(s: &str, p: &str) -> (r: bool)
    ensures
        r == occurs_in(s@, p@),
{
    let n = s.unicode_len();
    let m = p.unicode_len();
    if m > n {
        return false;
    }
    let last: usize = n - m;
    let mut i: usize = 0;
    loop
        invariant
            n == s@.len(),
            m == p@.len(),
            last == n - m,
            i <= last,
            forall|k: int| 0 <= k < i ==> #[trigger] s@.subrange(k, k + m) != p@,
        decreases last - i,
    {
        let mut j: usize = 0;
        let mut same = true;
        while j < m
            invariant
                n == s@.len(),
                m == p@.len(),
                i + m <= n,
                j <= m,
                same ==> s@.subrange(i as int, i + j) == p@.subrange(0, j as int),
                !same ==> s@.subrange(i as int, i + m) != p@,
            decreases m - j,
        {
            if same {
                if s.get_char(i + j) != p.get_char(j) {
                    assert(s@.subrange(i as int, i + m)[j as int] != p@[j as int]);
                    same = false;
                } else {
                    assert(s@.subrange(i as int, i + j + 1) == s@.subrange(i as int, i + j).push(
                        s@[i + j],
                    ));
                    assert(p@.subrange(0, j + 1) == p@.subrange(0, j as int).push(p@[j as int]));
                }
            }
            j = j + 1;
        }
        if same {
            assert(p@.subrange(0, m as int) == p@);
            assert(s@.subrange(i as int, i + m) == p@);
            return true;
        }
        if i == last {
            assert forall|k: int| 0 <= k && k + p@.len() <= s@.len() implies #[trigger] s@.subrange(
                k,
                k + p@.len(),
            ) != p@ by {
                assert(k <= i);
            }
            return false;
        }
        i = i + 1;
    }
}

/// Whether the line holds nothing but whitespace.
pub fn is_blank(s: &str) -> (r: bool)
    ensures
        r == is_blank_line(s@),
{
    let w = split_words(s);
    w.len() == 0
}

proof fn lemma_digits_value_push(s: Seq<char>, c: char)
    ensures
        digits_value(s.push(c)) == digits_value(s) * 10 + digit_value(c),
{
    assert(s.push(c).drop_last() == s);
}

/// Reads an unsigned decimal literal whose value is at most `max`, as Rust's
/// `FromStr` does for the unsigned integer types.
pub fn parse_unsigned(s: &str, max: u64) -> (r: Option<u64>)
    ensures
        r matches Some(v) ==> unsigned_parse(s@, max as nat) == Some(v as nat),
        r is None ==> unsigned_parse(s@, max as nat) is None,
{
    let n = s.unicode_len();
    let mut start: usize = 0;
    if n > 0 && s.get_char(0) == '+' {
        start = 1;
    }
    let ghost d = unsigned_digits(s@);
    assert(d == s@.subrange(start as int, n as int));
    if start == n {
        return None;
    }
    let mut value: u64 = 0;
    let mut i: usize = start;
    while i < n
        invariant
            n == s@.len(),
            start <= i <= n,
            d == s@.subrange(start as int, n as int),
            d == unsigned_digits(s@),
            all_digits(s@.subrange(start as int, i as int)),
            value as nat == digits_value(s@.subrange(start as int, i as int)),
            value <= max,
        decreases n - i,
    {
        let c = s.get_char(i);
        assert(s@.subrange(start as int, i + 1) == s@.subrange(start as int, i as int).push(c));
        proof {
            lemma_digits_value_push(s@.subrange(start as int, i as int), c);
        }
        assert(d[i - start] == c);
        assert(d.subrange(0, i - start + 1) == s@.subrange(start as int, i + 1));
        if c < '0' || c > '9' {
            assert(!is_digit(d[i - start]));
            return None;
        }
        let dv: u64 = (c as u32 - '0' as u32) as u64;
        let next = match value.checked_mul(10) {
            Some(t) => t.checked_add(dv),
            None => None,
        };
        match next {
            Some(v) => {
                if v > max {
                    proof {
                        lemma_digits_prefix_bound(d, (i - start + 1) as int);
                    }
                    return None;
                }
                value = v;
            },
            None => {
                proof {
                    lemma_digits_prefix_bound(d, (i - start + 1) as int);
                }
                return None;
            },
        }
        i = i + 1;
    }
    Some(value)
}

/// A longer run of digits denotes at least the value of its prefix.
proof fn lemma_digits_prefix_bound(d: Seq<char>, k: int)
    requires
        0 <= k <= d.len(),
    ensures
        all_digits(d) ==> digits_value(d.subrange(0, k)) <= digits_value(d),
    decreases d.len() - k,
{
    if k < d.len() && all_digits(d) {
        let t = d.subrange(0, k + 1);
        assert(t.drop_last() == d.subrange(0, k));
        lemma_digits_prefix_bound(d, k + 1);
    } else if k == d.len() {
        assert(d.subrange(0, k) == d);
    }
}

/// The decimal representation of `n`.
pub fn decimal_text(n: usize) -> (r: String)
    ensures
        r@ == decimal_of(n as nat),
    decreases n,
{
    let digits = "0123456789";
    proof {
        reveal_strlit("0123456789");
    }
    let d: usize = n % 10;
    let one = digits.substring_char(d, d + 1);
    assert(one@ == seq![digit_char(d as nat)]) by {
        assert(one@.len() == 1);
        assert(one@[0] == digits@[d as int]);
    }
    if n < 10 {
        String::from_str(one)
    } else {
        let mut r = decimal_text(n / 10);
        r.append(one);
        r
    }
}

} // verus!
