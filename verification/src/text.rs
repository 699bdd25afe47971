use vstd::prelude::*;

verus! {

/// Appends one character to a `String` (std's `String::push`).
/// Trusted: std documents that `push` appends the given char to the end of the string.
#[verifier::external_body]
pub(crate) fn push_char(s: &mut String, c: char)
    ensures
        final(s)@ == old(s)@.push(c),
{
    s.push(c);
}

/// Builds a `String` holding exactly the given characters, in order.
pub fn string_from_chars(chars: &Vec<char>) -> (r: String)
    ensures
        r@ == chars@,
{
    let mut s = String::new();
    let mut i: usize = 0;
    while i < chars.len()
        invariant
            i <= chars.len(),
            s@ == chars@.subrange(0, i as int),
        decreases chars.len() - i,
    {
        push_char(&mut s, chars[i]);
        assert(chars@.subrange(0, i as int).push(chars@[i as int]) =~= chars@.subrange(0, i + 1));
        i = i + 1;
    }
    assert(chars@.subrange(0, chars@.len() as int) =~= chars@);
    s
}

/// The characters of a string slice, in order.
pub fn chars_of(text: &str) -> (r: Vec<char>)
    ensures
        r@ == text@,
{
    let mut v: Vec<char> = Vec::new();
    for c in it: text.chars()
        invariant
            v@ == text@.subrange(0, it.index() as int),
            it.seq() == text@,
    {
        v.push(c);
        assert(text@.subrange(0, it.index() as int).push(c) =~= text@.subrange(0, it.index() + 1));
    }
    v
}

} // verus!

verus! {

/// Whether two string slices hold the same characters.
pub fn str_equal(a: &str, b: &str) -> (r: bool)
    ensures
        r == (a@ == b@),
{
    let x = chars_of(a);
    let y = chars_of(b);
    if x.len() != y.len() {
        return false;
    }
    let mut i: usize = 0;
    while i < x.len()
        invariant
            i <= x.len(),
            x.len() == y.len(),
            x@ == a@,
            y@ == b@,
            forall|k: int| 0 <= k < i ==> x@[k] == y@[k],
        decreases x.len() - i,
    {
        if x[i] != y[i] {
            assert(a@[i as int] != b@[i as int]);
            return false;
        }
        i = i + 1;
    }
    assert(x@ =~= y@);
    true
}

/// A copy of a string slice.
pub fn string_of(s: &str) -> (r: String)
    ensures
        r@ == s@,
{
    let v = chars_of(s);
    string_from_chars(&v)
}

} // verus!

verus! {

/// The characters that `str::trim` removes: those with the Unicode White_Space property.
pub open spec fn is_white_space(c: char) -> bool {
    ||| c == '\t' || c == '\n' || c == '\u{0B}' || c == '\u{0C}' || c == '\r' || c == ' '
    ||| c == '\u{85}' || c == '\u{A0}' || c == '\u{1680}'
    ||| ('\u{2000}' <= c && c <= '\u{200A}')
    ||| c == '\u{2028}' || c == '\u{2029}' || c == '\u{202F}' || c == '\u{205F}' || c == '\u{3000}'
}

/// The characters trimmed from each argument: a space or a double quote.
pub open spec fn is_trim_char(c: char) -> bool {
    c == ' ' || c == '"'
}

/// `s` without its leading characters that satisfy `ws` (white space when `ws`, else spaces and quotes).
pub open spec fn trim_start(s: Seq<char>, ws: bool) -> Seq<char>
    decreases s.len(),
{
    if s.len() > 0 && (if ws { is_white_space(s[0]) } else { is_trim_char(s[0]) }) {
        trim_start(s.drop_first(), ws)
    } else {
        s
    }
}

/// `s` without its trailing characters that satisfy `ws` (white space when `ws`, else spaces and quotes).
pub open spec fn trim_end(s: Seq<char>, ws: bool) -> Seq<char>
    decreases s.len(),
{
    if s.len() > 0 && (if ws { is_white_space(s.last()) } else { is_trim_char(s.last()) }) {
        trim_end(s.drop_last(), ws)
    } else {
        s
    }
}

pub open spec fn trim(s: Seq<char>, ws: bool) -> Seq<char> {
    trim_end(trim_start(s, ws), ws)
}

pub fn is_white_space_char(c: char) -> (r: bool)
    ensures
        r == is_white_space(c),
{
    c == '\t' || c == '\n' || c == '\u{0B}' || c == '\u{0C}' || c == '\r' || c == ' ' || c == '\u{85}' || c == '\u{A0}'
        || c == '\u{1680}' || ('\u{2000}' <= c && c <= '\u{200A}') || c == '\u{2028}' || c == '\u{2029}'
        || c == '\u{202F}' || c == '\u{205F}' || c == '\u{3000}'
}

fn is_trim_char_exec(c: char, ws: bool) -> (r: bool)
    ensures
        r == (if ws { is_white_space(c) } else { is_trim_char(c) }),
{
    if ws { is_white_space_char(c) } else { c == ' ' || c == '"' }
}

pub(crate) proof fn lemma_trim_start(s: Seq<char>, ws: bool, lo: int)
    requires
        0 <= lo <= s.len(),
        forall|j: int| 0 <= j < lo ==> (if ws { is_white_space(#[trigger] s[j]) } else { is_trim_char(s[j]) }),
        lo == s.len() || !(if ws { is_white_space(s[lo]) } else { is_trim_char(s[lo]) }),
    ensures
        trim_start(s, ws) == s.subrange(lo, s.len() as int),
    decreases lo,
{
    if lo == 0 {
        assert(s.subrange(0, s.len() as int) =~= s);
    } else {
        let t = s.drop_first();
        assert forall|j: int| 0 <= j < lo - 1 implies (if ws { is_white_space(#[trigger] t[j]) } else { is_trim_char(t[j]) }) by {
            assert(t[j] == s[j + 1]);
        }
        if lo - 1 < t.len() {
            assert(t[lo - 1] == s[lo]);
        }
        lemma_trim_start(t, ws, lo - 1);
        assert(t.subrange(lo - 1, t.len() as int) =~= s.subrange(lo, s.len() as int));
    }
}

pub(crate) proof fn lemma_trim_end(s: Seq<char>, ws: bool, hi: int)
    requires
        0 <= hi <= s.len(),
        forall|j: int| hi <= j < s.len() ==> (if ws { is_white_space(#[trigger] s[j]) } else { is_trim_char(s[j]) }),
        hi == 0 || !(if ws { is_white_space(s[hi - 1]) } else { is_trim_char(s[hi - 1]) }),
    ensures
        trim_end(s, ws) == s.subrange(0, hi),
    decreases s.len() - hi,
{
    if hi == s.len() {
        assert(s.subrange(0, hi) =~= s);
    } else {
        let t = s.drop_last();
        assert forall|j: int| hi <= j < t.len() implies (if ws { is_white_space(#[trigger] t[j]) } else { is_trim_char(t[j]) }) by {
            assert(t[j] == s[j]);
        }
        if hi > 0 {
            assert(t[hi - 1] == s[hi - 1]);
        }
        lemma_trim_end(t, ws, hi);
        assert(t.subrange(0, hi) =~= s.subrange(0, hi));
    }
}

/// The bounds, within `v[from..to]`, of that range trimmed of white space (`ws`) or of spaces and quotes.
pub fn trim_bounds(v: &Vec<char>, from: usize, to: usize, ws: bool) -> (r: (usize, usize))
    requires
        from <= to <= v.len(),
    ensures
        from <= r.0 <= r.1 <= to,
        v@.subrange(r.0 as int, r.1 as int) == trim(v@.subrange(from as int, to as int), ws),
{
    let ghost s = v@.subrange(from as int, to as int);
    let mut lo = from;
    while lo < to && is_trim_char_exec(v[lo], ws)
        invariant
            from <= lo <= to <= v.len(),
            s == v@.subrange(from as int, to as int),
            forall|j: int| 0 <= j < lo - from ==> (if ws { is_white_space(#[trigger] s[j]) } else { is_trim_char(s[j]) }),
        decreases to - lo,
    {
        lo = lo + 1;
    }
    proof {
        lemma_trim_start(s, ws, lo - from);
    }
    let ghost u = v@.subrange(lo as int, to as int);
    assert(u =~= s.subrange(lo - from, s.len() as int));
    let mut hi = to;
    while hi > lo && is_trim_char_exec(v[hi - 1], ws)
        invariant
            from <= lo <= hi <= to <= v.len(),
            u == v@.subrange(lo as int, to as int),
            forall|j: int| hi - lo <= j < u.len() ==> (if ws { is_white_space(#[trigger] u[j]) } else { is_trim_char(u[j]) }),
        decreases hi,
    {
        hi = hi - 1;
    }
    proof {
        lemma_trim_end(u, ws, hi - lo);
        assert(u.subrange(0, hi - lo) =~= v@.subrange(lo as int, hi as int));
    }
    (lo, hi)
}

/// Where the trimmed `s` lies within `s`: a range such that everything before and after it is trimmed away.
pub proof fn lemma_trim_range(s: Seq<char>, ws: bool) -> (r: (int, int))
    ensures
        0 <= r.0 <= r.1 <= s.len(),
        trim(s, ws) == s.subrange(r.0, r.1),
        forall|j: int| 0 <= j < r.0 ==> (if ws { is_white_space(#[trigger] s[j]) } else { is_trim_char(s[j]) }),
        forall|j: int| r.1 <= j < s.len() ==> (if ws { is_white_space(#[trigger] s[j]) } else { is_trim_char(s[j]) }),
        r.0 < r.1 ==> !(if ws { is_white_space(s[r.0]) } else { is_trim_char(s[r.0]) }),
        r.0 < r.1 ==> !(if ws { is_white_space(s[r.1 - 1]) } else { is_trim_char(s[r.1 - 1]) }),
{
    let lo = lemma_trim_start_range(s, ws);
    let u = s.subrange(lo, s.len() as int);
    let hi = lemma_trim_end_range(u, ws);
    assert(u.subrange(0, hi) =~= s.subrange(lo, lo + hi));
    if hi > 0 {
        assert(u[0] == s[lo] && u[hi - 1] == s[lo + hi - 1]);
    }
    assert forall|j: int| lo + hi <= j < s.len() implies (if ws { is_white_space(#[trigger] s[j]) } else { is_trim_char(s[j]) }) by {
        assert(s[j] == u[j - lo]);
    }
    (lo, lo + hi)
}

proof fn lemma_trim_start_range(s: Seq<char>, ws: bool) -> (lo: int)
    ensures
        0 <= lo <= s.len(),
        trim_start(s, ws) == s.subrange(lo, s.len() as int),
        forall|j: int| 0 <= j < lo ==> (if ws { is_white_space(#[trigger] s[j]) } else { is_trim_char(s[j]) }),
        lo < s.len() ==> !(if ws { is_white_space(s[lo]) } else { is_trim_char(s[lo]) }),
    decreases s.len(),
{
    if s.len() > 0 && (if ws { is_white_space(s[0]) } else { is_trim_char(s[0]) }) {
        let t = s.drop_first();
        let k = lemma_trim_start_range(t, ws);
        assert forall|j: int| 0 <= j < k + 1 implies (if ws { is_white_space(#[trigger] s[j]) } else { is_trim_char(s[j]) }) by {
            if j > 0 {
                assert(s[j] == t[j - 1]);
            }
        }
        assert(t.subrange(k, t.len() as int) =~= s.subrange(k + 1, s.len() as int));
        if k < t.len() {
            assert(t[k] == s[k + 1]);
        }
        k + 1
    } else {
        assert(s.subrange(0, s.len() as int) =~= s);
        0
    }
}

proof fn lemma_trim_end_range(s: Seq<char>, ws: bool) -> (hi: int)
    ensures
        0 <= hi <= s.len(),
        trim_end(s, ws) == s.subrange(0, hi),
        forall|j: int| hi <= j < s.len() ==> (if ws { is_white_space(#[trigger] s[j]) } else { is_trim_char(s[j]) }),
        hi > 0 ==> !(if ws { is_white_space(s[hi - 1]) } else { is_trim_char(s[hi - 1]) }),
    decreases s.len(),
{
    if s.len() > 0 && (if ws { is_white_space(s.last()) } else { is_trim_char(s.last()) }) {
        let t = s.drop_last();
        let k = lemma_trim_end_range(t, ws);
        assert forall|j: int| k <= j < s.len() implies (if ws { is_white_space(#[trigger] s[j]) } else { is_trim_char(s[j]) }) by {
            if j < t.len() {
                assert(s[j] == t[j]);
            }
        }
        assert(t.subrange(0, k) =~= s.subrange(0, k));
        if k > 0 {
            assert(t[k - 1] == s[k - 1]);
        }
        k
    } else {
        assert(s.subrange(0, s.len() as int) =~= s);
        s.len() as int
    }
}

} // verus!

verus! {

/// The words of `s`: its maximal runs of characters that are not white space, in order.
pub open spec fn words(s: Seq<char>) -> Seq<Seq<char>>
    decreases s.len(),
{
    if s.len() == 0 {
        Seq::empty()
    } else {
        let p = words(s.drop_last());
        if is_white_space(s.last()) {
            p
        } else if s.len() > 1 && !is_white_space(s[s.len() - 2]) {
            p.update(p.len() - 1, p.last().push(s.last()))
        } else {
            p.push(seq![s.last()])
        }
    }
}

/// The words of a string: its maximal runs of characters that are not white space (std's
/// `split_whitespace`), as owned strings.
pub fn split_words(text: &str) -> (r: Vec<String>)
    ensures
        r@.map_values(|w: String| w@) == words(text@),
{
    let chars = chars_of(text);
    let mut out: Vec<String> = Vec::new();
    let mut current: Vec<char> = Vec::new();
    let mut in_word = false;
    let mut i: usize = 0;
    while i < chars.len()
        invariant
            i <= chars.len(),
            chars@ == text@,
            in_word == (i > 0 && !is_white_space(chars@[i - 1])),
            in_word ==> words(chars@.subrange(0, i as int)).len() > 0,
            in_word ==> out@.map_values(|w: String| w@) + seq![current@] == words(chars@.subrange(0, i as int)),
            !in_word ==> out@.map_values(|w: String| w@) == words(chars@.subrange(0, i as int)),
        decreases chars.len() - i,
    {
        let c = chars[i];
        let ghost prefix = chars@.subrange(0, i as int);
        let ghost next = chars@.subrange(0, i + 1);
        assert(next.drop_last() =~= prefix);
        assert(next.last() == c);
        if is_white_space_char(c) {
            if in_word {
                let w = string_from_chars(&current);
                out.push(w);
                current = Vec::new();
            }
            in_word = false;
        } else {
            if in_word {
                let ghost before = current@;
                current.push(c);
                proof {
                    let p = words(prefix);
                    assert(next.len() > 1 && !is_white_space(next[next.len() - 2]));
                    assert(words(next) == p.update(p.len() - 1, p.last().push(c)));
                    assert(out@.map_values(|w: String| w@) + seq![current@] =~= p.update(p.len() - 1, p.last().push(c)));
                }
            } else {
                current = Vec::new();
                current.push(c);
                proof {
                    assert(words(next) == words(prefix).push(seq![c]));
                    assert(out@.map_values(|w: String| w@) + seq![current@] =~= words(prefix).push(seq![c]));
                }
            }
            in_word = true;
        }
        i = i + 1;
    }
    if in_word {
        let w = string_from_chars(&current);
        out.push(w);
    }
    assert(chars@.subrange(0, chars@.len() as int) =~= text@);
    out
}

/// White space before or after a text adds no word to it.
pub proof fn lemma_words_white_space_around(w1: Seq<char>, s: Seq<char>, w2: Seq<char>)
    requires
        forall|j: int| 0 <= j < w1.len() ==> is_white_space(#[trigger] w1[j]),
        forall|j: int| 0 <= j < w2.len() ==> is_white_space(#[trigger] w2[j]),
    ensures
        words(w1 + s + w2) == words(s),
{
    lemma_words_trailing(w1 + s, w2);
    lemma_words_leading(w1, s);
}

proof fn lemma_words_trailing(s: Seq<char>, w: Seq<char>)
    requires
        forall|j: int| 0 <= j < w.len() ==> is_white_space(#[trigger] w[j]),
    ensures
        words(s + w) == words(s),
    decreases w.len(),
{
    if w.len() > 0 {
        let sw = s + w;
        assert(sw.drop_last() =~= s + w.drop_last());
        assert(sw.last() == w[w.len() - 1]);
        assert forall|j: int| 0 <= j < w.drop_last().len() implies is_white_space(#[trigger] w.drop_last()[j]) by {
            assert(w.drop_last()[j] == w[j]);
        }
        lemma_words_trailing(s, w.drop_last());
    } else {
        assert(s + w =~= s);
    }
}

proof fn lemma_words_all_white(w: Seq<char>)
    requires
        forall|j: int| 0 <= j < w.len() ==> is_white_space(#[trigger] w[j]),
    ensures
        words(w) == Seq::<Seq<char>>::empty(),
    decreases w.len(),
{
    if w.len() > 0 {
        assert(w.last() == w[w.len() - 1]);
        assert forall|j: int| 0 <= j < w.drop_last().len() implies is_white_space(#[trigger] w.drop_last()[j]) by {
            assert(w.drop_last()[j] == w[j]);
        }
        lemma_words_all_white(w.drop_last());
    }
}

proof fn lemma_words_leading(w: Seq<char>, s: Seq<char>)
    requires
        forall|j: int| 0 <= j < w.len() ==> is_white_space(#[trigger] w[j]),
    ensures
        words(w + s) == words(s),
    decreases s.len(),
{
    let ws = w + s;
    if s.len() == 0 {
        lemma_words_all_white(w);
        assert(ws =~= w);
    } else {
        assert(ws.drop_last() =~= w + s.drop_last());
        assert(ws.last() == s.last());
        lemma_words_leading(w, s.drop_last());
        if s.len() >= 2 {
            assert(ws[ws.len() - 2] == s[s.len() - 2]);
        } else if w.len() > 0 {
            assert(ws[ws.len() - 2] == w[w.len() - 1]);
        }
    }
}

} // verus!

verus! {

/// What std's `str::to_lowercase` gives for the characters `s`: their Unicode lowercase mapping, in which a
/// character may depend on its neighbours (a final capital sigma, for one) and may map to several characters.
pub uninterp spec fn lowercase(s: Seq<char>) -> Seq<char>;

/// A lowercase copy of a string slice (std's `str::to_lowercase`).
/// Trusted: the result is named by `lowercase` of the argument's characters; the Unicode case tables that
/// decide it are not restated here.
#[verifier::external_body]
pub(crate) fn to_lowercase(s: &str) -> (r: String)
    ensures
        r@ == lowercase(s@),
{
    s.to_lowercase()
}

/// Whether `needle` occurs in `haystack` as a run of consecutive characters (the empty run occurs in
/// every string).
pub open spec fn has_substring(haystack: Seq<char>, needle: Seq<char>) -> bool {
    exists|i: int| 0 <= i && i + needle.len() <= haystack.len()
        && #[trigger] haystack.subrange(i, i + needle.len()) == needle
}

/// Whether `needle` occurs at index `at` of `haystack`.
fn occurs_at(haystack: &Vec<char>, needle: &Vec<char>, at: usize) -> (r: bool)
    requires
        at + needle.len() <= haystack.len(),
    ensures
        r == (haystack@.subrange(at as int, at + needle.len()) == needle@),
{
    let mut j: usize = 0;
    while j < needle.len()
        invariant
            j <= needle.len(),
            at + needle.len() <= haystack.len(),
            forall|k: int| 0 <= k < j ==> haystack@[at + k] == needle@[k],
        decreases needle.len() - j,
    {
        if haystack[at + j] != needle[j] {
            assert(haystack@.subrange(at as int, at + needle.len())[j as int] != needle@[j as int]);
            return false;
        }
        j = j + 1;
    }
    assert(haystack@.subrange(at as int, at + needle.len()) =~= needle@);
    true
}

/// Whether `needle` occurs in `haystack` (std's `str::contains` with a string pattern).
pub fn contains_str(haystack: &str, needle: &str) -> (r: bool)
    ensures
        r == has_substring(haystack@, needle@),
{
    let h = chars_of(haystack);
    let n = chars_of(needle);
    if n.len() > h.len() {
        return false;
    }
    let last = h.len() - n.len();
    let mut i: usize = 0;
    loop
        invariant
            h@ == haystack@,
            n@ == needle@,
            last + n.len() == h.len(),
            i <= last,
            forall|k: int| 0 <= k < i ==> #[trigger] h@.subrange(k, k + n.len()) != n@,
        decreases last - i,
    {
        if occurs_at(&h, &n, i) {
            return true;
        }
        if i == last {
            return false;
        }
        i = i + 1;
    }
}

} // verus!

verus! {

/// The pieces of `s` between line feeds, in order (std's `str::split('\n')`): one more piece than there are
/// line feeds, so the empty string is one empty piece.
pub open spec fn lines(s: Seq<char>) -> Seq<Seq<char>>
    decreases s.len(),
{
    if s.len() == 0 {
        seq![Seq::empty()]
    } else {
        let p = lines(s.drop_last());
        if s.last() == '\n' {
            p.push(Seq::empty())
        } else {
            p.update(p.len() - 1, p.last().push(s.last()))
        }
    }
}

proof fn lemma_lines_nonempty(s: Seq<char>)
    ensures
        lines(s).len() >= 1,
    decreases s.len(),
{
    if s.len() > 0 {
        lemma_lines_nonempty(s.drop_last());
    }
}

/// The pieces of a text between line feeds.
pub fn split_lines(text: &str) -> (r: Vec<String>)
    ensures
        r@.map_values(|l: String| l@) == lines(text@),
{
    let chars = chars_of(text);
    let mut out: Vec<String> = Vec::new();
    let mut current: Vec<char> = Vec::new();
    let mut i: usize = 0;
    assert(chars@.subrange(0, 0) =~= Seq::<char>::empty());
    assert(out@.map_values(|l: String| l@) + seq![current@] =~= lines(Seq::<char>::empty()));
    while i < chars.len()
        invariant
            i <= chars.len(),
            chars@ == text@,
            out@.map_values(|l: String| l@) + seq![current@] == lines(chars@.subrange(0, i as int)),
        decreases chars.len() - i,
    {
        let c = chars[i];
        let ghost prefix = chars@.subrange(0, i as int);
        let ghost next = chars@.subrange(0, i + 1);
        assert(next.drop_last() =~= prefix);
        assert(next.last() == c);
        proof {
            lemma_lines_nonempty(prefix);
        }
        if c == '\n' {
            let w = string_from_chars(&current);
            out.push(w);
            current = Vec::new();
            assert(out@.map_values(|l: String| l@) + seq![current@] =~= lines(prefix).push(Seq::<char>::empty()));
        } else {
            let ghost p = lines(prefix);
            current.push(c);
            assert(out@.map_values(|l: String| l@) + seq![current@] =~= p.update(p.len() - 1, p.last().push(c)));
        }
        i = i + 1;
    }
    let w = string_from_chars(&current);
    out.push(w);
    assert(chars@.subrange(0, chars@.len() as int) =~= text@);
    assert(out@.map_values(|l: String| l@) =~= lines(text@));
    out
}

/// The character of the decimal digit `d`.
pub open spec fn digit_char(d: nat) -> char {
    (48 + d) as char
}

/// The decimal numeral of `n`, most significant digit first, without leading zeros (std's `Display` of an
/// unsigned integer).
pub open spec fn decimal_text(n: nat) -> Seq<char>
    decreases n,
{
    if n < 10 {
        seq![digit_char(n)]
    } else {
        decimal_text(n / 10).push(digit_char(n % 10))
    }
}

fn push_decimal(s: &mut String, n: u64)
    ensures
        final(s)@ == old(s)@ + decimal_text(n as nat),
    decreases n,
{
    if n >= 10 {
        push_decimal(s, n / 10);
    }
    let d: u64 = n % 10;
    let c: char = if d == 0 { '0' } else if d == 1 { '1' } else if d == 2 { '2' } else if d == 3 { '3' }
        else if d == 4 { '4' } else if d == 5 { '5' } else if d == 6 { '6' } else if d == 7 { '7' }
        else if d == 8 { '8' } else { '9' };
    assert(c == digit_char(d as nat));
    push_char(s, c);
    proof {
        if n >= 10 {
            assert(old(s)@ + decimal_text((n / 10) as nat) + seq![c] =~= old(s)@ + decimal_text(n as nat));
        } else {
            assert(old(s)@ + seq![c] =~= old(s)@ + decimal_text(n as nat));
        }
    }
}

/// The decimal numeral of `n`.
pub fn decimal_string(n: u64) -> (r: String)
    ensures
        r@ == decimal_text(n as nat),
{
    let mut s = String::new();
    push_decimal(&mut s, n);
    assert(Seq::<char>::empty() + decimal_text(n as nat) =~= decimal_text(n as nat));
    s
}

} // verus!

verus! {

/// Appends the characters of `t` to `s`.
pub fn append_str(s: &mut String, t: &str)
    ensures
        final(s)@ == old(s)@ + t@,
{
    let chars = chars_of(t);
    let mut i: usize = 0;
    while i < chars.len()
        invariant
            i <= chars.len(),
            chars@ == t@,
            s@ == old(s)@ + chars@.subrange(0, i as int),
        decreases chars.len() - i,
    {
        push_char(s, chars[i]);
        assert(old(s)@ + chars@.subrange(0, i + 1) =~= old(s)@ + chars@.subrange(0, i as int) + seq![chars@[i as int]]);
        i = i + 1;
    }
    assert(chars@.subrange(0, chars@.len() as int) =~= t@);
}

} // verus!

verus! {

/// `n` zeros.
pub open spec fn zeros(n: nat) -> Seq<char> {
    Seq::new(n, |i: int| '0')
}

/// The decimal numeral of `n`, padded on the left with zeros to at least `width` characters (std's `{:0w}`).
pub open spec fn zero_padded(n: nat, width: nat) -> Seq<char> {
    let digits = decimal_text(n);
    if digits.len() < width {
        zeros((width - digits.len()) as nat) + digits
    } else {
        digits
    }
}

/// The decimal numeral of a signed number: a minus sign before the numeral of its magnitude when negative.
pub open spec fn signed_decimal_text(i: int) -> Seq<char> {
    if i < 0 {
        seq!['-'] + decimal_text((-i) as nat)
    } else {
        decimal_text(i as nat)
    }
}

/// Appends the decimal numeral of `n`, padded on the left with zeros to at least `width` characters.
pub fn push_zero_padded(s: &mut String, n: u64, width: usize)
    ensures
        final(s)@ == old(s)@ + zero_padded(n as nat, width as nat),
{
    let digits = decimal_string(n);
    let len = digits.as_str().unicode_len();
    let mut k: usize = len;
    while k < width
        invariant
            len <= k,
            len == digits@.len(),
            k <= width || k == len,
            s@ == old(s)@ + zeros((k - len) as nat),
        decreases width - k,
    {
        push_char(s, '0');
        assert(zeros((k - len) as nat).push('0') =~= zeros((k + 1 - len) as nat));
        k = k + 1;
    }
    append_str(s, digits.as_str());
    if len < width {
        assert(k == width);
    } else {
        assert(zeros(0) =~= Seq::<char>::empty());
        assert(k == len);
    }
    assert(final(s)@ =~= old(s)@ + zero_padded(n as nat, width as nat));
}

/// Appends the decimal numeral of a signed number.
pub fn push_signed_decimal(s: &mut String, i: i64)
    ensures
        final(s)@ == old(s)@ + signed_decimal_text(i as int),
{
    if i < 0 {
        push_char(s, '-');
        let magnitude: u64 = if i == i64::MIN { 9223372036854775808u64 } else { (-i) as u64 };
        assert(magnitude == -(i as int));
        let digits = decimal_string(magnitude);
        append_str(s, digits.as_str());
        assert(final(s)@ =~= old(s)@ + signed_decimal_text(i as int));
    } else {
        let digits = decimal_string(i as u64);
        append_str(s, digits.as_str());
    }
}

} // verus!
