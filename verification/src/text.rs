//! Text primitives shared by the validation rules and the query engine.

use vstd::prelude::*;
use unicode_segmentation::UnicodeSegmentation;

verus! {

/// Characters with the Unicode `White_Space` property.
pub open spec fn is_whitespace(c: char) -> bool {
    let u = c as u32;
    ||| 0x09 <= u <= 0x0D
    ||| u == 0x20
    ||| u == 0x85
    ||| u == 0xA0
    ||| u == 0x1680
    ||| 0x2000 <= u <= 0x200A
    ||| u == 0x2028
    ||| u == 0x2029
    ||| u == 0x202F
    ||| u == 0x205F
    ||| u == 0x3000
}

/// `s` without its leading whitespace.
pub open spec fn trim_start(s: Seq<char>) -> Seq<char>
    decreases s.len(),
{
    if s.len() > 0 && is_whitespace(s.first()) {
        trim_start(s.drop_first())
    } else {
        s
    }
}

/// `s` without its trailing whitespace.
pub open spec fn trim_end(s: Seq<char>) -> Seq<char>
    decreases s.len(),
{
    if s.len() > 0 && is_whitespace(s.last()) {
        trim_end(s.drop_last())
    } else {
        s
    }
}

/// `s` without leading and trailing whitespace.
pub open spec fn trimmed(s: Seq<char>) -> Seq<char> {
    trim_end(trim_start(s))
}

/// A text is blank when nothing is left of it after trimming.
pub open spec fn is_blank(s: Seq<char>) -> bool {
    trimmed(s).len() == 0
}

/// The number of extended grapheme clusters of a text, as Unicode Standard
/// Annex #29 segments it.
pub uninterp spec fn grapheme_count(s: Seq<char>) -> nat;

/// The text in lower case, by the Unicode `Lowercase` mapping.
pub uninterp spec fn lowercase(s: Seq<char>) -> Seq<char>;

/// The identifier that a text spells, if it spells one: 32 hexadecimal
/// digits, plain, hyphenated, in braces or as a URN.
pub uninterp spec fn uuid_of(s: Seq<char>) -> Option<u128>;

/// Two texts are the same up to letter case.
pub open spec fn same_ignoring_case(a: Seq<char>, b: Seq<char>) -> bool {
    lowercase(a) == lowercase(b)
}

/// `needle` occurs in `hay` at position `at`.
pub open spec fn occurs_at(hay: Seq<char>, needle: Seq<char>, at: int) -> bool {
    0 <= at && at + needle.len() <= hay.len() && hay.subrange(at, at + needle.len()) == needle
}

/// `needle` occurs somewhere in `hay`.
pub open spec fn contains_text(hay: Seq<char>, needle: Seq<char>) -> bool {
    exists|at: int| occurs_at(hay, needle, at)
}

/// The characters that no category, merchant or wallet name may hold.
pub open spec fn forbidden_in_name(c: char) -> bool {
    c == '/' || c == '(' || c == ')' || c == '"' || c == '<' || c == '>' || c == '\\' || c == '{'
        || c == '}'
}

/// The characters that no category icon may hold.
pub open spec fn forbidden_in_icon(c: char) -> bool {
    c == '<' || c == '>' || c == '{' || c == '}' || c == '\0'
}

/// True when some character of `s` is forbidden in names.
pub open spec fn has_forbidden_name_char(s: Seq<char>) -> bool {
    exists|i: int| 0 <= i < s.len() && forbidden_in_name(#[trigger] s[i])
}

/// True when some character of `s` is forbidden in icons.
pub open spec fn has_forbidden_icon_char(s: Seq<char>) -> bool {
    exists|i: int| 0 <= i < s.len() && forbidden_in_icon(#[trigger] s[i])
}

/// Calls `str::trim`. The contract states what the standard library documents:
/// the result is the input without its leading and trailing characters that
/// have the `White_Space` property.
#[verifier::external_body]
pub(crate) fn trim(s: &str) -> (r: &str)
    ensures
        r@ == trimmed(s@),
{
    s.trim()
}

/// Calls `UnicodeSegmentation::graphemes` with extended clusters and counts
/// what it yields. The contract only names the count; nothing is claimed about
/// where the cluster boundaries fall.
#[verifier::external_body]
pub(crate) fn count_graphemes(s: &str) -> (n: usize)
    ensures
        n == grapheme_count(s@),
{
    s.graphemes(true).count()
}

/// Calls `str::to_lowercase`. The contract only names the result.
#[verifier::external_body]
pub(crate) fn to_lowercase(s: &str) -> (r: String)
    ensures
        r@ == lowercase(s@),
{
    s.to_lowercase()
}

/// Calls `Uuid::parse_str`, which `str::parse::<Uuid>` goes to, and takes
/// the 128 bits of the identifier. The contract only names the result.
#[verifier::external_body]
pub(crate) fn parse_uuid(s: &str) -> (r: Option<u128>)
    ensures
        r == uuid_of(s@),
{
    match uuid::Uuid::parse_str(s) {
        Ok(id) => Some(id.as_u128()),
        Err(_) => None,
    }
}

/// Whether a character is forbidden in names.
#[verifier::when_used_as_spec(forbidden_in_name)]
pub fn is_forbidden_in_name(c: char) -> (r: bool)
    ensures
        r == forbidden_in_name(c),
{
    c == '/' || c == '(' || c == ')' || c == '"' || c == '<' || c == '>' || c == '\\' || c == '{'
        || c == '}'
}

/// Whether a character is forbidden in icons.
#[verifier::when_used_as_spec(forbidden_in_icon)]
pub fn is_forbidden_in_icon(c: char) -> (r: bool)
    ensures
        r == forbidden_in_icon(c),
{
    c == '<' || c == '>' || c == '{' || c == '}' || c == '\0'
}

/// Scans `s` for a character that is forbidden in names.
pub fn contains_forbidden_name_char(s: &str) -> (r: bool)
    ensures
        r == has_forbidden_name_char(s@),
{
    let mut found = false;
    for c in it: s.chars()
        invariant
            it.seq() == s@,
            found == exists|i: int| 0 <= i < it.index() && forbidden_in_name(#[trigger] s@[i]),
    {
        if is_forbidden_in_name(c) {
            found = true;
        }
    }
    found
}

/// Scans `s` for a character that is forbidden in icons.
pub fn contains_forbidden_icon_char(s: &str) -> (r: bool)
    ensures
        r == has_forbidden_icon_char(s@),
{
    let mut found = false;
    for c in it: s.chars()
        invariant
            it.seq() == s@,
            found == exists|i: int| 0 <= i < it.index() && forbidden_in_icon(#[trigger] s@[i]),
    {
        if is_forbidden_in_icon(c) {
            found = true;
        }
    }
    found
}

/// Case-insensitive equality of two texts.
pub fn eq_ignoring_case(a: &str, b: &str) -> (r: bool)
    ensures
        r == same_ignoring_case(a@, b@),
{
    let la = to_lowercase(a);
    let lb = to_lowercase(b);
    la == lb
}

/// The characters of a text.
pub fn to_chars(s: &str) -> (r: Vec<char>)
    ensures
        r@ == s@,
{
    let mut out: Vec<char> = Vec::new();
    for c in it: s.chars()
        invariant
            it.seq() == s@,
            out@ == s@.take(it.index() as int),
    {
        out.push(c);
        assert(out@ =~= s@.take(it.index() + 1));
    }
    assert(s@.take(s@.len() as int) =~= s@);
    out
}

fn occurs_in_chars_at(hay: &Vec<char>, needle: &Vec<char>, at: usize) -> (r: bool)
    requires
        at + needle.len() <= hay.len(),
    ensures
        r == occurs_at(hay@, needle@, at as int),
{
    let mut i: usize = 0;
    while i < needle.len()
        invariant
            i <= needle.len(),
            at + needle.len() <= hay.len(),
            forall|j: int| 0 <= j < i ==> hay@[at + j] == needle@[j],
        decreases needle.len() - i,
    {
        if hay[at + i] != needle[i] {
            assert(hay@.subrange(at as int, at + needle@.len())[i as int] != needle@[i as int]);
            return false;
        }
        i += 1;
    }
    assert(hay@.subrange(at as int, at + needle@.len()) =~= needle@);
    true
}

/// Whether `needle` occurs somewhere in `hay`.
pub fn contains(hay: &str, needle: &str) -> (r: bool)
    ensures
        r == contains_text(hay@, needle@),
{
    let all = to_chars(hay);
    let wanted = to_chars(needle);
    if wanted.len() > all.len() {
        return false;
    }
    let last = all.len() - wanted.len();
    let mut at: usize = 0;
    loop
        invariant
            all@ == hay@,
            wanted@ == needle@,
            last == all.len() - wanted.len(),
            at <= last,
            forall|k: int| 0 <= k < at ==> !occurs_at(hay@, needle@, k),
        decreases last - at,
    {
        if occurs_in_chars_at(&all, &wanted, at) {
            return true;
        }
        if at == last {
            return false;
        }
        at += 1;
    }
}

/// What trimming at the start leaves is the text from its first character
/// that is no whitespace.
pub proof fn lemma_trim_start(s: Seq<char>) -> (k: int)
    ensures
        0 <= k <= s.len(),
        trim_start(s) == s.subrange(k, s.len() as int),
        forall|j: int| 0 <= j < k ==> is_whitespace(#[trigger] s[j]),
        k < s.len() ==> !is_whitespace(s[k]),
    decreases s.len(),
{
    if s.len() > 0 && is_whitespace(s.first()) {
        let rest = s.drop_first();
        let k = lemma_trim_start(rest);
        assert(rest.subrange(k, rest.len() as int) =~= s.subrange(k + 1, s.len() as int));
        assert forall|j: int| 0 <= j < k + 1 implies is_whitespace(#[trigger] s[j]) by {
            if j > 0 {
                assert(s[j] == rest[j - 1]);
            }
        }
        if k < rest.len() {
            assert(s[k + 1] == rest[k]);
        }
        k + 1
    } else {
        assert(s.subrange(0, s.len() as int) =~= s);
        0
    }
}

/// What trimming at the end leaves is the text up to its last character that
/// is no whitespace.
pub proof fn lemma_trim_end(s: Seq<char>) -> (m: int)
    ensures
        0 <= m <= s.len(),
        trim_end(s) == s.subrange(0, m),
        forall|j: int| m <= j < s.len() ==> is_whitespace(#[trigger] s[j]),
        m > 0 ==> !is_whitespace(s[m - 1]),
    decreases s.len(),
{
    if s.len() > 0 && is_whitespace(s.last()) {
        let front = s.drop_last();
        let m = lemma_trim_end(front);
        assert(front.subrange(0, m) =~= s.subrange(0, m));
        assert forall|j: int| m <= j < s.len() implies is_whitespace(#[trigger] s[j]) by {
            if j < front.len() {
                assert(s[j] == front[j]);
            }
        }
        if m > 0 {
            assert(s[m - 1] == front[m - 1]);
        }
        m
    } else {
        assert(s.subrange(0, s.len() as int) =~= s);
        s.len() as int
    }
}

/// A text is blank exactly when each of its characters is whitespace. The
/// empty text is blank.
pub proof fn lemma_blank_is_all_whitespace(s: Seq<char>)
    ensures
        is_blank(s) <==> forall|i: int| 0 <= i < s.len() ==> is_whitespace(#[trigger] s[i]),
{
    let k = lemma_trim_start(s);
    let rest = trim_start(s);
    let m = lemma_trim_end(rest);
    if is_blank(s) {
        assert forall|i: int| 0 <= i < s.len() implies is_whitespace(#[trigger] s[i]) by {
            if i >= k {
                assert(rest[i - k] == s[i]);
            }
        }
    }
    if forall|i: int| 0 <= i < s.len() ==> is_whitespace(#[trigger] s[i]) {
        if m > 0 {
            assert(rest[m - 1] == s[k + m - 1]);
        }
    }
}

} // verus!
