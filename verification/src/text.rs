//! Work on text, character by character: comparison, search in a list of
//! texts, trimming, removal of a pattern and splitting into words.

use vstd::prelude::*;
use vstd::std_specs::iter::IteratorSpec;
use vstd::string::*;

verus! {

/// Whether two string slices hold the same characters.
pub fn text_eq(a: &str, b: &str) -> (same: bool)
    ensures
        same == (a@ == b@),
{
    let mut left = a.chars();
    let mut right = b.chars();
    let ghost mut n: int = 0;
    loop
        invariant
            0 <= n <= a@.len(),
            n <= b@.len(),
            left.remaining() == a@.skip(n),
            right.remaining() == b@.skip(n),
            a@.take(n) == b@.take(n),
            left.obeys_prophetic_iter_laws(),
            right.obeys_prophetic_iter_laws(),
        decreases a@.len() - n,
    {
        let x = left.next();
        let y = right.next();
        match (x, y) {
            (None, None) => {
                assert(a@ =~= a@.take(n));
                assert(b@ =~= b@.take(n));
                return true;
            },
            (Some(p), Some(q)) => {
                if p != q {
                    assert(a@[n] != b@[n]);
                    return false;
                }
                proof {
                    assert(a@.take(n + 1) =~= a@.take(n).push(a@[n]));
                    assert(b@.take(n + 1) =~= b@.take(n).push(b@[n]));
                    assert(a@.skip(n).drop_first() =~= a@.skip(n + 1));
                    assert(b@.skip(n).drop_first() =~= b@.skip(n + 1));
                    n = n + 1;
                }
            },
            _ => {
                assert(a@.len() != b@.len());
                return false;
            },
        }
    }
}

/// The characters of an optional text, or none.
pub open spec fn opt_text(s: Option<String>) -> Option<Seq<char>> {
    match s {
        Some(t) => Some(t@),
        None => None,
    }
}

/// The characters of an optional text, the empty text standing for none.
pub open spec fn text_or_empty(s: Option<Seq<char>>) -> Seq<char> {
    match s {
        Some(t) => t,
        None => Seq::empty(),
    }
}

/// The first position at or after `from` at which `s` holds `a`.
pub open spec fn position_from(s: Seq<Seq<char>>, a: Seq<char>, from: int) -> Option<int>
    decreases s.len() - from,
{
    if from < 0 || from >= s.len() {
        None
    } else if s[from] == a {
        Some(from)
    } else {
        position_from(s, a, from + 1)
    }
}

/// The first position at which `s` holds `a`.
pub open spec fn position(s: Seq<Seq<char>>, a: Seq<char>) -> Option<int> {
    position_from(s, a, 0)
}

/// A position of a list as a mathematical integer.
pub open spec fn index_view(i: Option<usize>) -> Option<int> {
    match i {
        Some(k) => Some(k as int),
        None => None,
    }
}

/// What `position` finds is a place where the name stands, and the first
/// such place; it finds nothing only where the name stands nowhere.
pub proof fn lemma_position(s: Seq<Seq<char>>, a: Seq<char>, from: int)
    requires
        0 <= from <= s.len(),
    ensures
        match position_from(s, a, from) {
            Some(i) => from <= i < s.len() && s[i] == a && forall|j: int|
                from <= j < i ==> s[j] != a,
            None => forall|j: int| from <= j < s.len() ==> s[j] != a,
        },
    decreases s.len() - from,
{
    if from < s.len() && s[from] != a {
        lemma_position(s, a, from + 1);
    }
}

/// The first position at which `names` holds `name`.
pub fn find_name(names: &Vec<String>, name: &str) -> (found: Option<usize>)
    ensures
        index_view(found) == position(names.deep_view(), name@),
{
    let mut i: usize = 0;
    while i < names.len()
        invariant
            i <= names.len(),
            position(names.deep_view(), name@) == position_from(names.deep_view(), name@, i as int),
        decreases names.len() - i,
    {
        if text_eq(names[i].as_str(), name) {
            return Some(i);
        }
        i = i + 1;
    }
    None
}

/// Whether `a` and `b` agree on their first `k` characters and part there
/// with `a` in front: `a` ends and `b` goes on, or the next character of
/// `a` has the smaller code point.
pub open spec fn parts_at(a: Seq<char>, b: Seq<char>, k: int) -> bool {
    &&& 0 <= k <= a.len()
    &&& k <= b.len()
    &&& forall|i: int| 0 <= i < k ==> a[i] == b[i]
    &&& (k == a.len() && k < b.len()) || (k < a.len() && k < b.len() && (a[k] as u32) < (b[k]
        as u32))
}

/// Whether `a` comes before `b` in the order by code points, character by
/// character: the order in which the standard library sorts texts.
pub open spec fn text_before(a: Seq<char>, b: Seq<char>) -> bool {
    exists|k: int| parts_at(a, b, k)
}

/// Whether each text of `s` comes before the next one.
pub open spec fn increasing(s: Seq<Seq<char>>) -> bool {
    forall|i: int| 0 <= i < s.len() - 1 ==> text_before(#[trigger] s[i], s[i + 1])
}

/// No text comes before itself.
pub proof fn lemma_text_before_is_strict(a: Seq<char>)
    ensures
        !text_before(a, a),
{
}

/// What comes before a text comes before everything that the text comes
/// before.
pub proof fn lemma_text_before_is_transitive(a: Seq<char>, b: Seq<char>, c: Seq<char>)
    requires
        text_before(a, b),
        text_before(b, c),
    ensures
        text_before(a, c),
{
    let k1 = choose|k: int| parts_at(a, b, k);
    let k2 = choose|k: int| parts_at(b, c, k);
    if k1 <= k2 {
        assert(parts_at(a, c, k1));
    } else {
        assert(parts_at(a, c, k2));
    }
}

/// In an increasing list every text comes before every later one.
pub proof fn lemma_increasing_orders_all(s: Seq<Seq<char>>, i: int, j: int)
    requires
        increasing(s),
        0 <= i < j < s.len(),
    ensures
        text_before(s[i], s[j]),
    decreases j - i,
{
    if i + 1 < j {
        lemma_increasing_orders_all(s, i, j - 1);
        assert(text_before(s[j - 1], s[j - 1 + 1]));
        lemma_text_before_is_transitive(s[i], s[j - 1], s[j]);
    } else {
        assert(text_before(s[i], s[i + 1]));
    }
}

/// An increasing list holds no text twice: every text is found at its own
/// position.
pub proof fn lemma_increasing_has_no_repeats(s: Seq<Seq<char>>, i: int)
    requires
        increasing(s),
        0 <= i < s.len(),
    ensures
        position(s, s[i]) == Some(i),
{
    lemma_position(s, s[i], 0);
    let found = position(s, s[i])->0;
    if found < i {
        lemma_increasing_orders_all(s, found, i);
        lemma_text_before_is_strict(s[i]);
    }
}

/// Whether `c` is white space: a character with the Unicode property
/// `White_Space`.
pub open spec fn is_space(c: char) -> bool {
    let u = c as u32;
    ||| 0x09 <= u <= 0x0D
    ||| u == 0x20
    ||| u == 0x85
    ||| u == 0xA0
    ||| u == 0x1680
    ||| 0x2000 <= u <= 0x200A
    ||| u == 0x2028
    ||| u == 0x2029
    ||| u == 0x202F
    ||| u == 0x205F
    ||| u == 0x3000
}

/// The first position at or after `from` that holds no white space, or the
/// length of `s` where there is none.
pub open spec fn text_start(s: Seq<char>, from: int) -> int
    decreases s.len() - from,
{
    if 0 <= from < s.len() && is_space(s[from]) {
        text_start(s, from + 1)
    } else {
        from
    }
}

/// The position after the last character before `to` that is no white
/// space, or 0 where there is none.
pub open spec fn text_end(s: Seq<char>, to: int) -> int
    decreases to,
{
    if 0 < to <= s.len() && is_space(s[to - 1]) {
        text_end(s, to - 1)
    } else {
        to
    }
}

/// `s` without the white space at its two ends.
pub open spec fn trimmed(s: Seq<char>) -> Seq<char> {
    let from = text_start(s, 0);
    let to = text_end(s, s.len() as int);
    if from < to {
        s.subrange(from, to)
    } else {
        Seq::empty()
    }
}

/// What is left of `s` from `from` on when every occurrence of `pat` is
/// taken out, the occurrences found from left to right, none overlapping
/// the one before.
pub open spec fn without_from(s: Seq<char>, pat: Seq<char>, from: int) -> Seq<char>
    decreases s.len() - from,
{
    if pat.len() == 0 || from < 0 || from + pat.len() > s.len() {
        s.skip(from)
    } else if s.subrange(from, from + pat.len()) == pat {
        without_from(s, pat, from + pat.len())
    } else {
        seq![s[from]] + without_from(s, pat, from + 1)
    }
}

/// `s` with every occurrence of `pat` taken out.
pub open spec fn without(s: Seq<char>, pat: Seq<char>) -> Seq<char> {
    without_from(s, pat, 0)
}

/// `word` as a list of one word, or of none where `word` is empty.
pub open spec fn word_list(word: Seq<char>) -> Seq<Seq<char>> {
    if word.len() > 0 {
        seq![word]
    } else {
        Seq::empty()
    }
}

/// The words of `s` from `from` on, `word` being the part of a word read
/// just before `from`.
pub open spec fn words_from(s: Seq<char>, from: int, word: Seq<char>) -> Seq<Seq<char>>
    decreases s.len() - from,
{
    if from < 0 || from >= s.len() {
        word_list(word)
    } else if is_space(s[from]) {
        word_list(word) + words_from(s, from + 1, Seq::empty())
    } else {
        words_from(s, from + 1, word.push(s[from]))
    }
}

/// The words of `s`: its longest runs of characters that are no white
/// space, in order.
pub open spec fn words(s: Seq<char>) -> Seq<Seq<char>> {
    words_from(s, 0, Seq::empty())
}

/// Whether `c` is white space.
pub fn is_whitespace(c: char) -> (space: bool)
    ensures
        space == is_space(c),
{
    let u: u32 = c as u32;
    (0x09 <= u && u <= 0x0D) || u == 0x20 || u == 0x85 || u == 0xA0 || u == 0x1680 || (0x2000
        <= u && u <= 0x200A) || u == 0x2028 || u == 0x2029 || u == 0x202F || u == 0x205F || u
        == 0x3000
}

/// The characters of `s`.
pub fn chars_of(s: &str) -> (chars: Vec<char>)
    ensures
        chars@ == s@,
{
    let mut chars: Vec<char> = Vec::new();
    let mut rest = s.chars();
    loop
        invariant
            chars@.len() <= s@.len(),
            rest.remaining() == s@.skip(chars@.len() as int),
            chars@ == s@.take(chars@.len() as int),
            rest.obeys_prophetic_iter_laws(),
        decreases s@.len() - chars@.len(),
    {
        let ghost n = chars@.len() as int;
        match rest.next() {
            Some(c) => {
                chars.push(c);
                proof {
                    assert(s@.take(n + 1) =~= s@.take(n).push(s@[n]));
                    assert(s@.skip(n).drop_first() =~= s@.skip(n + 1));
                }
            },
            None => {
                assert(s@ =~= s@.take(n));
                return chars;
            },
        }
    }
}

/// `s` without the white space at its two ends.
pub fn trim(s: &str) -> (t: &str)
    ensures
        t@ == trimmed(s@),
{
    let chars = chars_of(s);
    let mut from: usize = 0;
    while from < chars.len() && is_whitespace(chars[from])
        invariant
            from <= chars.len(),
            chars@ == s@,
            text_start(s@, 0) == text_start(s@, from as int),
        decreases chars.len() - from,
    {
        from = from + 1;
    }
    let mut to: usize = chars.len();
    while to > 0 && is_whitespace(chars[to - 1])
        invariant
            to <= chars.len(),
            chars@ == s@,
            text_end(s@, s@.len() as int) == text_end(s@, to as int),
        decreases to,
    {
        to = to - 1;
    }
    if from < to {
        s.substring_char(from, to)
    } else {
        let t = s.substring_char(0, 0);
        assert(t@ =~= Seq::<char>::empty());
        t
    }
}

fn matches_at(text: &Vec<char>, pat: &Vec<char>, at: usize) -> (same: bool)
    requires
        at + pat.len() <= text.len(),
    ensures
        same == (text@.subrange(at as int, at + pat.len()) == pat@),
{
    let mut k: usize = 0;
    while k < pat.len()
        invariant
            k <= pat.len(),
            at + pat.len() <= text.len(),
            forall|j: int| 0 <= j < k ==> text[at + j] == pat[j],
        decreases pat.len() - k,
    {
        if text[at + k] != pat[k] {
            assert(text@.subrange(at as int, at + pat.len())[k as int] != pat@[k as int]);
            return false;
        }
        k = k + 1;
    }
    assert(text@.subrange(at as int, at + pat.len()) =~= pat@);
    true
}

/// `s` with every occurrence of `pat` taken out.
pub fn remove_all(s: &str, pat: &str) -> (t: String)
    ensures
        t@ == without(s@, pat@),
{
    let text = chars_of(s);
    let p = chars_of(pat);
    if p.len() == 0 || p.len() > text.len() {
        assert(s@.skip(0) =~= s@);
        return s.to_owned();
    }
    let mut out = String::new();
    let mut kept: usize = 0;
    let mut at: usize = 0;
    while at <= text.len() - p.len()
        invariant
            0 < p.len() <= text.len(),
            kept <= at <= text.len(),
            text@ == s@,
            p@ == pat@,
            without(s@, pat@) == out@ + s@.subrange(kept as int, at as int) + without_from(
                s@,
                pat@,
                at as int,
            ),
        decreases text.len() - at,
    {
        if matches_at(&text, &p, at) {
            out.append(s.substring_char(kept, at));
            at = at + p.len();
            kept = at;
            assert(s@.subrange(kept as int, at as int) =~= Seq::<char>::empty());
        } else {
            assert(s@.subrange(kept as int, at as int) + seq![s@[at as int]] =~= s@.subrange(
                kept as int,
                at + 1,
            ));
            at = at + 1;
        }
    }
    assert(s@.subrange(kept as int, at as int) + s@.skip(at as int) =~= s@.subrange(
        kept as int,
        s@.len() as int,
    ));
    out.append(s.substring_char(kept, text.len()));
    out
}

/// The words of `s`.
pub fn split_whitespace(s: &str) -> (list: Vec<String>)
    ensures
        list.deep_view() == words(s@),
{
    let text = chars_of(s);
    let mut list: Vec<String> = Vec::new();
    let mut begun: usize = 0;
    let mut at: usize = 0;
    proof {
        assert(s@.subrange(0, 0) =~= Seq::<char>::empty());
        assert(list.deep_view() + words(s@) =~= words(s@));
    }
    while at < text.len()
        invariant
            begun <= at <= text.len(),
            text@ == s@,
            words(s@) == list.deep_view() + words_from(
                s@,
                at as int,
                s@.subrange(begun as int, at as int),
            ),
        decreases text.len() - at,
    {
        let ghost before = list.deep_view();
        let ghost word = s@.subrange(begun as int, at as int);
        if is_whitespace(text[at]) {
            if begun < at {
                list.push(s.substring_char(begun, at).to_owned());
                assert(list.deep_view() =~= before + word_list(word));
            }
            at = at + 1;
            begun = at;
            assert(s@.subrange(begun as int, at as int) =~= Seq::<char>::empty());
        } else {
            assert(word.push(s@[at as int]) =~= s@.subrange(begun as int, at + 1));
            at = at + 1;
        }
    }
    if begun < at {
        let ghost before = list.deep_view();
        list.push(s.substring_char(begun, at).to_owned());
        assert(list.deep_view() =~= before + word_list(s@.subrange(begun as int, at as int)));
    }
    list
}

/// The lower-case form of a text.
pub uninterp spec fn lowercase(s: Seq<char>) -> Seq<char>;

/// `str::to_lowercase` of the standard library: the text with each
/// character in its lower-case form by the Unicode tables, which the text
/// alone decides.
#[verifier::external_body]
pub(crate) fn to_lowercase(s: &str) -> (lower: String)
    ensures
        lower@ == lowercase(s@),
{
    s.to_lowercase()
}

} // verus!
