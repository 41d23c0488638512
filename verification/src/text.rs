//! Text shaping for inbound messages: stripping URLs, rewriting chat-emoji
//! markup `<:name:12345>` (or `<a:name:12345>`) to its plain display name,
//! and trimming surrounding whitespace.
//!
//! The character classes (whitespace, word characters, digits) are the ASCII
//! interpretations of the classes the shaping grammar uses.

use vstd::prelude::*;

verus! {

/// ASCII whitespace: space, tab, line feed, carriage return, vertical tab,
/// form feed.
pub open spec fn is_space_char(c: char) -> bool {
    c == ' ' || c == '\t' || c == '\n' || c == '\r' || c == '\x0b' || c == '\x0c'
}

/// ASCII decimal digit.
pub open spec fn is_digit_char(c: char) -> bool {
    '0' as u32 <= c as u32 && c as u32 <= '9' as u32
}

/// ASCII word character: letter, digit or underscore.
pub open spec fn is_word_char(c: char) -> bool {
    ('a' as u32 <= c as u32 && c as u32 <= 'z' as u32)
        || ('A' as u32 <= c as u32 && c as u32 <= 'Z' as u32)
        || is_digit_char(c)
        || c == '_'
}

/// Length of the URL scheme (`http://` or `https://`) starting at `i`,
/// or 0 when neither is present.
pub open spec fn url_scheme_len(s: Seq<char>, i: int) -> int {
    if i + 8 <= s.len() && s[i] == 'h' && s[i + 1] == 't' && s[i + 2] == 't' && s[i + 3] == 'p'
        && s[i + 4] == 's' && s[i + 5] == ':' && s[i + 6] == '/' && s[i + 7] == '/' {
        8
    } else if i + 7 <= s.len() && s[i] == 'h' && s[i + 1] == 't' && s[i + 2] == 't' && s[i + 3]
        == 'p' && s[i + 4] == ':' && s[i + 5] == '/' && s[i + 6] == '/' {
        7
    } else {
        0
    }
}

/// Length of the maximal run of non-whitespace characters starting at `i`.
pub open spec fn nonspace_run_len(s: Seq<char>, i: int) -> int
    decreases s.len() - i,
{
    if i < 0 || i >= s.len() || is_space_char(s[i]) {
        0
    } else {
        1 + nonspace_run_len(s, i + 1)
    }
}

/// Length of the maximal run of word characters starting at `i`.
pub open spec fn word_run_len(s: Seq<char>, i: int) -> int
    decreases s.len() - i,
{
    if i < 0 || i >= s.len() || !is_word_char(s[i]) {
        0
    } else {
        1 + word_run_len(s, i + 1)
    }
}

/// Length of the maximal run of digits starting at `i`.
pub open spec fn digit_run_len(s: Seq<char>, i: int) -> int
    decreases s.len() - i,
{
    if i < 0 || i >= s.len() || !is_digit_char(s[i]) {
        0
    } else {
        1 + digit_run_len(s, i + 1)
    }
}

/// Whether the character after the scheme may open the URL body: anything
/// but whitespace and `/`, `$`, `.`, `?`, `#`.
pub open spec fn is_url_open_char(c: char) -> bool {
    !is_space_char(c) && c != '/' && c != '$' && c != '.' && c != '?' && c != '#'
}

/// Length of the URL match starting at `i`, or 0 when there is none.
/// A match is a scheme, one opening character, one further character that is
/// not a line feed, and then the maximal run of non-whitespace characters.
pub open spec fn url_match_len(s: Seq<char>, i: int) -> int {
    let sch = url_scheme_len(s, i);
    if sch == 0 {
        0
    } else {
        let j = i + sch;
        if j < s.len() && is_url_open_char(s[j]) && j + 1 < s.len() && s[j + 1] != '\n' {
            sch + 2 + nonspace_run_len(s, j + 2)
        } else {
            0
        }
    }
}

/// Length of the emoji-markup head at `i`: `<a:` (3), `<:` (2), or 0.
pub open spec fn emoji_head_len(s: Seq<char>, i: int) -> int {
    if i + 3 <= s.len() && s[i] == '<' && s[i + 1] == 'a' && s[i + 2] == ':' {
        3
    } else if i + 2 <= s.len() && s[i] == '<' && s[i + 1] == ':' {
        2
    } else {
        0
    }
}

/// Length of the emoji-markup match starting at `i`, or 0 when there is
/// none. A match is a head, a non-empty run of word characters (the name),
/// `:`, a non-empty run of digits, and `>`.
pub open spec fn emoji_match_len(s: Seq<char>, i: int) -> int {
    let h = emoji_head_len(s, i);
    if h == 0 {
        0
    } else {
        let w = word_run_len(s, i + h);
        let cpos = i + h + w;
        if w > 0 && cpos < s.len() && s[cpos] == ':' {
            let d = digit_run_len(s, cpos + 1);
            let gpos = cpos + 1 + d;
            if d > 0 && gpos < s.len() && s[gpos] == '>' {
                gpos + 1 - i
            } else {
                0
            }
        } else {
            0
        }
    }
}

/// The captured name of the emoji-markup match starting at `i`.
pub open spec fn emoji_name(s: Seq<char>, i: int) -> Seq<char> {
    let h = emoji_head_len(s, i);
    s.subrange(i + h, i + h + word_run_len(s, i + h))
}

pub proof fn lemma_nonspace_run_bounds(s: Seq<char>, i: int)
    ensures
        0 <= nonspace_run_len(s, i),
        i <= s.len() ==> i + nonspace_run_len(s, i) <= s.len(),
    decreases s.len() - i,
{
    if !(i < 0 || i >= s.len() || is_space_char(s[i])) {
        lemma_nonspace_run_bounds(s, i + 1);
    }
}

pub proof fn lemma_word_run_bounds(s: Seq<char>, i: int)
    ensures
        0 <= word_run_len(s, i),
        i <= s.len() ==> i + word_run_len(s, i) <= s.len(),
    decreases s.len() - i,
{
    if !(i < 0 || i >= s.len() || !is_word_char(s[i])) {
        lemma_word_run_bounds(s, i + 1);
    }
}

pub proof fn lemma_digit_run_bounds(s: Seq<char>, i: int)
    ensures
        0 <= digit_run_len(s, i),
        i <= s.len() ==> i + digit_run_len(s, i) <= s.len(),
    decreases s.len() - i,
{
    if !(i < 0 || i >= s.len() || !is_digit_char(s[i])) {
        lemma_digit_run_bounds(s, i + 1);
    }
}

pub proof fn lemma_url_match_bounds(s: Seq<char>, i: int)
    requires
        0 <= i <= s.len(),
    ensures
        0 <= url_match_len(s, i),
        i + url_match_len(s, i) <= s.len(),
{
    let sch = url_scheme_len(s, i);
    if sch != 0 {
        lemma_nonspace_run_bounds(s, i + sch + 2);
    }
}

pub proof fn lemma_emoji_match_bounds(s: Seq<char>, i: int)
    requires
        0 <= i <= s.len(),
    ensures
        0 <= emoji_match_len(s, i),
        i + emoji_match_len(s, i) <= s.len(),
{
    let h = emoji_head_len(s, i);
    if h != 0 {
        lemma_word_run_bounds(s, i + h);
        lemma_digit_run_bounds(s, i + h + word_run_len(s, i + h) + 1);
    }
}

/// The input from position `i` on, with every URL match removed. Scanning is
/// leftmost: at each position either the match there is dropped whole, or
/// the character is kept.
pub open spec fn strip_urls_from(s: Seq<char>, i: int) -> Seq<char>
    decreases s.len() - i,
{
    if i < 0 || i >= s.len() {
        Seq::empty()
    } else {
        let m = url_match_len(s, i);
        if m > 0 {
            proof {
                lemma_url_match_bounds(s, i);
            }
            strip_urls_from(s, i + m)
        } else {
            seq![s[i]] + strip_urls_from(s, i + 1)
        }
    }
}

/// The whole input with every URL match removed.
pub open spec fn strip_urls(s: Seq<char>) -> Seq<char> {
    strip_urls_from(s, 0)
}

/// The input from position `i` on, with every emoji-markup match replaced by
/// its captured name.
pub open spec fn rewrite_emojis_from(s: Seq<char>, i: int) -> Seq<char>
    decreases s.len() - i,
{
    if i < 0 || i >= s.len() {
        Seq::empty()
    } else {
        let m = emoji_match_len(s, i);
        if m > 0 {
            proof {
                lemma_emoji_match_bounds(s, i);
            }
            emoji_name(s, i) + rewrite_emojis_from(s, i + m)
        } else {
            seq![s[i]] + rewrite_emojis_from(s, i + 1)
        }
    }
}

/// The whole input with every emoji-markup match replaced by its name.
pub open spec fn rewrite_emojis(s: Seq<char>) -> Seq<char> {
    rewrite_emojis_from(s, 0)
}

/// The input without its leading whitespace.
pub open spec fn trim_front(s: Seq<char>) -> Seq<char>
    decreases s.len(),
{
    if s.len() > 0 && is_space_char(s[0]) {
        trim_front(s.skip(1))
    } else {
        s
    }
}

/// The input without its trailing whitespace.
pub open spec fn trim_back(s: Seq<char>) -> Seq<char>
    decreases s.len(),
{
    if s.len() > 0 && is_space_char(s[s.len() - 1]) {
        trim_back(s.take(s.len() - 1))
    } else {
        s
    }
}

/// The input without leading and trailing whitespace.
pub open spec fn trim_spec(s: Seq<char>) -> Seq<char> {
    trim_back(trim_front(s))
}

/// Shaped message text: URLs stripped, emoji markup rewritten to names,
/// whitespace trimmed.
pub open spec fn shape_spec(s: Seq<char>) -> Seq<char> {
    trim_spec(rewrite_emojis(strip_urls(s)))
}

/// Whether `c` is ASCII whitespace.
pub fn is_space(c: char) -> (r: bool)
    ensures
        r == is_space_char(c),
{
    c == ' ' || c == '\t' || c == '\n' || c == '\r' || c == '\x0b' || c == '\x0c'
}

/// Whether `c` is an ASCII digit.
pub fn is_digit(c: char) -> (r: bool)
    ensures
        r == is_digit_char(c),
{
    c >= '0' && c <= '9'
}

/// Whether `c` is an ASCII word character.
pub fn is_word(c: char) -> (r: bool)
    ensures
        r == is_word_char(c),
{
    (c >= 'a' && c <= 'z') || (c >= 'A' && c <= 'Z') || (c >= '0' && c <= '9') || c == '_'
}

/// The characters of `s`, in order.
pub fn str_to_chars(s: &str) -> (v: Vec<char>)
    ensures
        v@ == s@,
{
    let n = s.unicode_len();
    let mut v: Vec<char> = Vec::new();
    let mut i: usize = 0;
    while i < n
        invariant
            i <= n,
            n == s@.len(),
            v@ == s@.subrange(0, i as int),
        decreases n - i,
    {
        let c = s.get_char(i);
        v.push(c);
        i = i + 1;
        proof {
            assert(v@ =~= s@.subrange(0, i as int));
        }
    }
    proof {
        assert(v@ =~= s@);
    }
    v
}

/// Relies on `String` implementing `FromIterator<char>`: collecting chars
/// yields the string of exactly those characters in order.
#[verifier::external_body]
pub fn chars_to_string(v: &Vec<char>) -> (s: String)
    ensures
        s@ == v@,
{
    v.iter().collect()
}

fn run_end_nonspace(s: &Vec<char>, start: usize) -> (e: usize)
    requires
        start <= s@.len(),
    ensures
        start <= e <= s@.len(),
        e - start == nonspace_run_len(s@, start as int),
    decreases s@.len() - start,
{
    let mut k = start;
    while k < s.len() && !is_space(s[k])
        invariant
            start <= k <= s@.len(),
            nonspace_run_len(s@, start as int) == (k - start) + nonspace_run_len(s@, k as int),
        decreases s@.len() - k,
    {
        k = k + 1;
    }
    k
}

fn run_end_word(s: &Vec<char>, start: usize) -> (e: usize)
    requires
        start <= s@.len(),
    ensures
        start <= e <= s@.len(),
        e - start == word_run_len(s@, start as int),
    decreases s@.len() - start,
{
    let mut k = start;
    while k < s.len() && is_word(s[k])
        invariant
            start <= k <= s@.len(),
            word_run_len(s@, start as int) == (k - start) + word_run_len(s@, k as int),
        decreases s@.len() - k,
    {
        k = k + 1;
    }
    k
}

fn run_end_digit(s: &Vec<char>, start: usize) -> (e: usize)
    requires
        start <= s@.len(),
    ensures
        start <= e <= s@.len(),
        e - start == digit_run_len(s@, start as int),
    decreases s@.len() - start,
{
    let mut k = start;
    while k < s.len() && is_digit(s[k])
        invariant
            start <= k <= s@.len(),
            digit_run_len(s@, start as int) == (k - start) + digit_run_len(s@, k as int),
        decreases s@.len() - k,
    {
        k = k + 1;
    }
    k
}

/// The length of the URL match at `i`, 0 when there is none.
fn url_match_at(s: &Vec<char>, i: usize) -> (m: usize)
    requires
        i < s@.len(),
    ensures
        m as int == url_match_len(s@, i as int),
{
    let n = s.len();
    let sch: usize = if n - i >= 8 && s[i] == 'h' && s[i + 1] == 't' && s[i + 2] == 't' && s[i + 3]
        == 'p' && s[i + 4] == 's' && s[i + 5] == ':' && s[i + 6] == '/' && s[i + 7] == '/' {
        8
    } else if n - i >= 7 && s[i] == 'h' && s[i + 1] == 't' && s[i + 2] == 't' && s[i + 3] == 'p'
        && s[i + 4] == ':' && s[i + 5] == '/' && s[i + 6] == '/' {
        7
    } else {
        0
    };
    if sch == 0 {
        return 0;
    }
    let j = i + sch;
    if !(j < n) {
        return 0;
    }
    let c = s[j];
    if is_space(c) || c == '/' || c == '$' || c == '.' || c == '?' || c == '#' {
        return 0;
    }
    if !(j + 1 < n) {
        return 0;
    }
    if s[j + 1] == '\n' {
        return 0;
    }
    let e = run_end_nonspace(s, j + 2);
    e - i
}

/// The length of the emoji-markup match at `i`, 0 when there is none.
fn emoji_match_at(s: &Vec<char>, i: usize) -> (m: usize)
    requires
        i < s@.len(),
    ensures
        m as int == emoji_match_len(s@, i as int),
{
    let n = s.len();
    let h: usize = if n - i >= 3 && s[i] == '<' && s[i + 1] == 'a' && s[i + 2] == ':' {
        3
    } else if n - i >= 2 && s[i] == '<' && s[i + 1] == ':' {
        2
    } else {
        0
    };
    if h == 0 {
        return 0;
    }
    let name_end = run_end_word(s, i + h);
    if name_end == i + h {
        return 0;
    }
    if !(name_end < n) {
        return 0;
    }
    if s[name_end] != ':' {
        return 0;
    }
    let digits_end = run_end_digit(s, name_end + 1);
    if digits_end == name_end + 1 {
        return 0;
    }
    if !(digits_end < n) {
        return 0;
    }
    if s[digits_end] != '>' {
        return 0;
    }
    digits_end + 1 - i
}

/// Removes every URL, replacing each with nothing.
pub fn strip_urls_chars(s: &Vec<char>) -> (r: Vec<char>)
    ensures
        r@ == strip_urls(s@),
{
    let mut out: Vec<char> = Vec::new();
    let mut i: usize = 0;
    while i < s.len()
        invariant
            i <= s@.len(),
            strip_urls(s@) == out@ + strip_urls_from(s@, i as int),
        decreases s@.len() - i,
    {
        let m = url_match_at(s, i);
        proof {
            lemma_url_match_bounds(s@, i as int);
        }
        if m > 0 {
            proof {
                assert(strip_urls_from(s@, i as int) == strip_urls_from(s@, i + m));
            }
            i = i + m;
        } else {
            let ghost prev = out@;
            out.push(s[i]);
            proof {
                assert(strip_urls_from(s@, i as int) == seq![s@[i as int]] + strip_urls_from(
                    s@,
                    i + 1,
                ));
                assert(prev + strip_urls_from(s@, i as int) =~= out@ + strip_urls_from(
                    s@,
                    i + 1,
                ));
            }
            i = i + 1;
        }
    }
    proof {
        assert(strip_urls(s@) =~= out@);
    }
    out
}

/// Removes every URL from the text, replacing each with nothing.
pub fn replace_links(text: &str) -> (r: String)
    ensures
        r@ == strip_urls(text@),
{
    let s = str_to_chars(text);
    let out = strip_urls_chars(&s);
    chars_to_string(&out)
}

/// Rewrites every piece of emoji markup to its plain name.
pub fn rewrite_emojis_chars(s: &Vec<char>) -> (r: Vec<char>)
    ensures
        r@ == rewrite_emojis(s@),
{
    let mut out: Vec<char> = Vec::new();
    let mut i: usize = 0;
    while i < s.len()
        invariant
            i <= s@.len(),
            rewrite_emojis(s@) == out@ + rewrite_emojis_from(s@, i as int),
        decreases s@.len() - i,
    {
        let m = emoji_match_at(s, i);
        proof {
            lemma_emoji_match_bounds(s@, i as int);
        }
        if m > 0 {
            let ghost prev = out@;
            // copy the captured name
            let h: usize = if s[i + 1] == 'a' {
                3
            } else {
                2
            };
            proof {
                assert(h as int == emoji_head_len(s@, i as int));
                lemma_word_run_bounds(s@, i + h);
            }
            let name_end = run_end_word(s, i + h);
            let mut t = i + h;
            while t < name_end
                invariant
                    i + h <= t <= name_end,
                    name_end <= s@.len(),
                    out@ == prev + s@.subrange(i + h, t as int),
                decreases name_end - t,
            {
                out.push(s[t]);
                t = t + 1;
                proof {
                    assert(out@ =~= prev + s@.subrange(i + h, t as int));
                }
            }
            proof {
                assert(out@ == prev + emoji_name(s@, i as int));
                assert(rewrite_emojis_from(s@, i as int) == emoji_name(s@, i as int)
                    + rewrite_emojis_from(s@, i + m));
                assert(prev + rewrite_emojis_from(s@, i as int) =~= out@ + rewrite_emojis_from(
                    s@,
                    i + m,
                ));
            }
            i = i + m;
        } else {
            let ghost prev = out@;
            out.push(s[i]);
            proof {
                assert(rewrite_emojis_from(s@, i as int) == seq![s@[i as int]]
                    + rewrite_emojis_from(s@, i + 1));
                assert(prev + rewrite_emojis_from(s@, i as int) =~= out@ + rewrite_emojis_from(
                    s@,
                    i + 1,
                ));
            }
            i = i + 1;
        }
    }
    proof {
        assert(rewrite_emojis(s@) =~= out@);
    }
    out
}

/// Rewrites every piece of emoji markup in the text to its plain name.
pub fn replace_discord_emojis(text: &str) -> (r: String)
    ensures
        r@ == rewrite_emojis(text@),
{
    let s = str_to_chars(text);
    let out = rewrite_emojis_chars(&s);
    chars_to_string(&out)
}

proof fn lemma_trim_front_range(s: Seq<char>, a: int)
    requires
        0 <= a <= s.len(),
        forall|t: int| 0 <= t < a ==> is_space_char(s[t]),
        a == s.len() || !is_space_char(s[a]),
    ensures
        trim_front(s) == s.skip(a),
    decreases a,
{
    if a == 0 {
        if s.len() > 0 && is_space_char(s[0]) {
            assert(false);
        }
        assert(s.skip(0) =~= s);
    } else {
        assert(is_space_char(s[0]));
        let s1 = s.skip(1);
        assert(forall|t: int| 0 <= t < a - 1 ==> s1[t] == s[t + 1]);
        lemma_trim_front_range(s1, a - 1);
        assert(s1.skip(a - 1) =~= s.skip(a));
    }
}

proof fn lemma_trim_back_range(s: Seq<char>, b: int)
    requires
        0 <= b <= s.len(),
        forall|t: int| b <= t < s.len() ==> is_space_char(s[t]),
        b == 0 || !is_space_char(s[b - 1]),
    ensures
        trim_back(s) == s.take(b),
    decreases s.len() - b,
{
    if b == s.len() {
        if s.len() > 0 && is_space_char(s[s.len() - 1]) {
            assert(false);
        }
        assert(s.take(b) =~= s);
    } else {
        assert(is_space_char(s[s.len() - 1]));
        let s1 = s.take(s.len() - 1);
        lemma_trim_back_range(s1, b);
        assert(s1.take(b) =~= s.take(b));
    }
}

/// The characters of `s` without leading and trailing whitespace.
pub fn trim_chars(s: &Vec<char>) -> (r: Vec<char>)
    ensures
        r@ == trim_spec(s@),
{
    let n = s.len();
    let mut a: usize = 0;
    while a < n && is_space(s[a])
        invariant
            a <= n,
            n == s@.len(),
            forall|t: int| 0 <= t < a ==> is_space_char(s@[t]),
        decreases n - a,
    {
        a = a + 1;
    }
    proof {
        lemma_trim_front_range(s@, a as int);
    }
    let ghost front = s@.skip(a as int);
    if a == n {
        proof {
            assert(front =~= Seq::<char>::empty());
            assert(trim_back(front) =~= Seq::<char>::empty());
        }
        let r: Vec<char> = Vec::new();
        proof {
            assert(r@ =~= trim_spec(s@));
        }
        return r;
    }
    // a < n and s[a] is not whitespace, so the scan from the end stops at or
    // after a + 1
    let mut b: usize = n;
    while b > a + 1 && is_space(s[b - 1])
        invariant
            a + 1 <= b <= n,
            n == s@.len(),
            forall|t: int| b <= t < n ==> is_space_char(s@[t]),
        decreases b,
    {
        b = b - 1;
    }
    if is_space(s[b - 1]) {
        // only possible when b == a + 1, i.e. everything after the first
        // non-space is whitespace; but s[a] itself is not whitespace
        proof {
            assert(false);
        }
    }
    proof {
        assert(forall|t: int| b - a <= t < front.len() ==> is_space_char(front[t]));
        assert(!is_space_char(front[b - a - 1]));
        lemma_trim_back_range(front, b - a as int);
    }
    let mut out: Vec<char> = Vec::new();
    let mut t = a;
    while t < b
        invariant
            a <= t <= b <= n,
            n == s@.len(),
            out@ == s@.subrange(a as int, t as int),
        decreases b - t,
    {
        out.push(s[t]);
        t = t + 1;
        proof {
            assert(out@ =~= s@.subrange(a as int, t as int));
        }
    }
    proof {
        assert(front.take(b - a as int) =~= s@.subrange(a as int, b as int));
        assert(out@ =~= trim_spec(s@));
    }
    out
}

/// Shapes message text as the pipeline requires: URLs removed, emoji
/// markup rewritten to plain names, and surrounding whitespace trimmed.
pub fn shape_chars(s: &Vec<char>) -> (r: Vec<char>)
    ensures
        r@ == shape_spec(s@),
{
    let no_links = strip_urls_chars(s);
    let renamed = rewrite_emojis_chars(&no_links);
    trim_chars(&renamed)
}

/// Shapes message text as the pipeline requires: URLs removed, emoji markup
/// rewritten to plain names, and surrounding whitespace trimmed.
pub fn shape_text(text: &str) -> (r: String)
    ensures
        r@ == shape_spec(text@),
{
    let s = str_to_chars(text);
    let shaped = shape_chars(&s);
    chars_to_string(&shaped)
}

} // verus!
