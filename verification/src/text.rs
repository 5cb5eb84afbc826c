//! Text helpers: substring search, case conversion and name capitalisation.
use vstd::prelude::*;
use vstd::utf8::is_ascii_chars;

verus! {

/// `pat` occurs in `s` as a contiguous run of characters.
pub open spec fn is_substring(pat: Seq<char>, s: Seq<char>) -> bool {
    exists|i: int| 0 <= i <= s.len() - pat.len() && #[trigger] s.subrange(i, i + pat.len()) == pat
}

/// `pat` occurs in `s` starting at position `i`.
pub open spec fn occurs_at(pat: Seq<char>, s: Seq<char>, i: int) -> bool {
    &&& 0 <= i <= s.len() - pat.len()
    &&& forall|k: int| 0 <= k < pat.len() ==> s[i + k] == pat[k]
}

/// The characters of `s`, in order.
pub fn chars_of(s: &str) -> (v: Vec<char>)
    ensures
        v@ == s@,
{
    let n = s.unicode_len();
    let mut v: Vec<char> = Vec::new();
    let mut i: usize = 0;
    while i < n
        invariant
            n == s@.len(),
            i <= n,
            v@ == s@.subrange(0, i as int),
        decreases n - i,
    {
        let c = s.get_char(i);
        v.push(c);
        i = i + 1;
        assert(v@ =~= s@.subrange(0, i as int));
    }
    assert(v@ =~= s@);
    v
}

/// Whether `pat` occurs in `s` at position `i`.
fn matches_at(pat: &Vec<char>, s: &Vec<char>, i: usize) -> (b: bool)
    requires
        i + pat@.len() <= s@.len(),
    ensures
        b == occurs_at(pat@, s@, i as int),
{
    let mut k: usize = 0;
    while k < pat.len()
        invariant
            i + pat.len() <= s.len(),
            k <= pat@.len(),
            forall|j: int| 0 <= j < k ==> s@[i + j] == pat@[j],
        decreases pat@.len() - k,
    {
        if s[i + k] != pat[k] {
            return false;
        }
        k = k + 1;
    }
    true
}

proof fn lemma_occurs_at_subrange(pat: Seq<char>, s: Seq<char>, i: int)
    requires
        0 <= i <= s.len() - pat.len(),
    ensures
        occurs_at(pat, s, i) <==> s.subrange(i, i + pat.len()) == pat,
{
    if occurs_at(pat, s, i) {
        assert(s.subrange(i, i + pat.len()) =~= pat);
    }
    if s.subrange(i, i + pat.len()) == pat {
        assert forall|k: int| 0 <= k < pat.len() implies s[i + k] == pat[k] by {
            assert(s.subrange(i, i + pat.len())[k] == s[i + k]);
        }
    }
}

/// Whether the characters `pat` occur contiguously in the characters `s`.
pub fn contains_chars(s: &Vec<char>, pat: &Vec<char>) -> (b: bool)
    ensures
        b == is_substring(pat@, s@),
{
    if pat.len() == 0 {
        assert(s@.subrange(0int, 0int + pat@.len()) =~= pat@);
        return true;
    }
    if pat.len() > s.len() {
        return false;
    }
    let last = s.len() - pat.len();
    let mut i: usize = 0;
    while i <= last
        invariant
            last == s@.len() - pat@.len(),
            pat@.len() > 0,
            last < s.len(),
            i <= last + 1,
            forall|j: int| 0 <= j < i ==> !occurs_at(pat@, s@, j),
        decreases last + 1 - i,
    {
        if matches_at(pat, s, i) {
            proof {
                lemma_occurs_at_subrange(pat@, s@, i as int);
            }
            return true;
        }
        i = i + 1;
    }
    assert forall|j: int| 0 <= j <= s@.len() - pat@.len() implies #[trigger] s@.subrange(
        j,
        j + pat@.len(),
    ) != pat@ by {
        lemma_occurs_at_subrange(pat@, s@, j);
    }
    false
}

/// Whether `pat` occurs in `s`.
pub fn contains_str(s: &str, pat: &str) -> (b: bool)
    ensures
        b == is_substring(pat@, s@),
{
    let sv = chars_of(s);
    let pv = chars_of(pat);
    contains_chars(&sv, &pv)
}


/// The string that `str::to_lowercase` gives for the characters `s`
/// (Unicode lowercase mapping, which may change the length).
pub uninterp spec fn lowercase(s: Seq<char>) -> Seq<char>;

/// The string that `str::to_uppercase` gives for the characters `s`
/// (Unicode uppercase mapping, which may change the length).
pub uninterp spec fn uppercase(s: Seq<char>) -> Seq<char>;

/// The characters that `char::to_uppercase` yields for `c`.
pub uninterp spec fn char_uppercase(c: char) -> Seq<char>;

/// Calls `str::to_lowercase`. Trusted: the result is the lowercase mapping
/// named `lowercase`, and the empty string maps to the empty string.
#[verifier::external_body]
pub(crate) fn to_lowercase(s: &str) -> (r: String)
    ensures
        r@ == lowercase(s@),
        s@.len() == 0 ==> r@.len() == 0,
{
    s.to_lowercase()
}

/// Calls `str::to_uppercase`. Trusted: the result is the uppercase mapping
/// named `uppercase`.
#[verifier::external_body]
pub(crate) fn to_uppercase(s: &str) -> (r: String)
    ensures
        r@ == uppercase(s@),
{
    s.to_uppercase()
}

/// Calls `char::to_uppercase` and collects what it yields. Trusted: the result
/// is the mapping named `char_uppercase`.
#[verifier::external_body]
fn char_to_uppercase(c: char) -> (r: Vec<char>)
    ensures
        r@ == char_uppercase(c),
{
    c.to_uppercase().collect()
}

/// Collects characters into a `String` with `FromIterator`. Trusted: the
/// string holds exactly these characters in this order.
#[verifier::external_body]
fn string_from_chars(v: &Vec<char>) -> (r: String)
    ensures
        r@ == v@,
{
    v.iter().collect()
}

/// The lowercase form of an ASCII character: `A`..`Z` become `a`..`z`, every
/// other character stays.
pub open spec fn ascii_lower_char(c: char) -> char {
    if 'A' <= c <= 'Z' {
        ((c as int) + 32) as char
    } else {
        c
    }
}

/// The lowercase form of an ASCII text, character by character.
pub open spec fn ascii_lowercase(s: Seq<char>) -> Seq<char> {
    s.map_values(|c: char| ascii_lower_char(c))
}

/// The lowercase form of a text: an ASCII text is lowered character by
/// character; any other text takes the Unicode mapping of `str::to_lowercase`.
pub open spec fn lower_text(s: Seq<char>) -> Seq<char> {
    if is_ascii_chars(s) {
        ascii_lowercase(s)
    } else {
        lowercase(s)
    }
}

/// The lowercase form of an ASCII character.
fn ascii_lower(c: char) -> (r: char)
    ensures
        r == ascii_lower_char(c),
{
    if 'A' <= c && c <= 'Z' {
        let b: u8 = (c as u8) + 32;
        b as char
    } else {
        c
    }
}

/// The lowercase form of `s`: ASCII texts are lowered here, character by
/// character; other texts go to `str::to_lowercase`.
pub fn lower_text_of(s: &str) -> (r: Vec<char>)
    ensures
        r@ == lower_text(s@),
        s@.len() == 0 ==> r@.len() == 0,
{
    if s.is_ascii() {
        let cs = chars_of(s);
        let mut out: Vec<char> = Vec::new();
        let mut i: usize = 0;
        while i < cs.len()
            invariant
                cs@ == s@,
                i <= cs@.len(),
                out@ == ascii_lowercase(cs@.subrange(0, i as int)),
            decreases cs@.len() - i,
        {
            let c = ascii_lower(cs[i]);
            out.push(c);
            i = i + 1;
            assert(out@ =~= ascii_lowercase(cs@.subrange(0, i as int)));
        }
        assert(cs@.subrange(0, i as int) =~= s@);
        out
    } else {
        let l = to_lowercase(s);
        chars_of(l.as_str())
    }
}

/// Display form of a hyphenated name, read from `at_word_start`: each `-`
/// becomes a space, and the first character of each word is upper-cased.
pub open spec fn capitalized_from(s: Seq<char>, at_word_start: bool) -> Seq<char>
    decreases s.len(),
{
    if s.len() == 0 {
        Seq::empty()
    } else if s[0] == '-' {
        seq![' '] + capitalized_from(s.drop_first(), true)
    } else if at_word_start {
        char_uppercase(s[0]) + capitalized_from(s.drop_first(), false)
    } else {
        seq![s[0]] + capitalized_from(s.drop_first(), false)
    }
}

/// Display form of a hyphenated name such as `mr-mime` (`Mr Mime`).
pub open spec fn capitalized(s: Seq<char>) -> Seq<char> {
    capitalized_from(s, true)
}

/// Turns a hyphenated name into its display form: words separated by spaces,
/// each starting with its upper-case letter.
pub fn capitalize_string(input: &str) -> (r: String)
    ensures
        r@ == capitalized(input@),
{
    let cs = chars_of(input);
    let mut out: Vec<char> = Vec::new();
    let mut at_start = true;
    let mut i: usize = 0;
    assert(cs@.skip(0) =~= cs@);
    assert(out@ + capitalized_from(cs@.skip(0), true) =~= capitalized(cs@));
    while i < cs.len()
        invariant
            cs@ == input@,
            i <= cs@.len(),
            out@ + capitalized_from(cs@.skip(i as int), at_start) == capitalized(cs@),
        decreases cs@.len() - i,
    {
        let c = cs[i];
        let ghost rest = cs@.skip(i as int);
        assert(rest[0] == c);
        assert(rest.drop_first() =~= cs@.skip(i + 1));
        if c == '-' {
            out.push(' ');
            at_start = true;
        } else if at_start {
            let mut up = char_to_uppercase(c);
            out.append(&mut up);
            at_start = false;
        } else {
            out.push(c);
        }
        i = i + 1;
        proof {
            assert(out@ + capitalized_from(cs@.skip(i as int), at_start) =~= capitalized(cs@));
        }
    }
    assert(cs@.skip(i as int) =~= Seq::<char>::empty());
    assert(out@ + capitalized_from(cs@.skip(i as int), at_start) =~= out@);
    string_from_chars(&out)
}

} // verus!
