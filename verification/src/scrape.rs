use vstd::prelude::*;

use crate::error::DiscoveryError;

verus! {

// ---------------------------------------------------------------------------
// Character classes of the scraping grammar.
//
// A script URL is a substring that starts with "http://" or "https://",
// continues with characters that are neither (ASCII) whitespace nor a double
// quote, and ends with ".js"; of the possible ends the longest one is taken.
// A token is announced by the marker "client_id", followed by ':' or '=', an
// optional double quote, and exactly 32 word characters.
//
// Both character classes are deliberately the ASCII ones: the host's markup,
// script URLs and tokens are ASCII. A non-ASCII character is never
// whitespace here (so it extends a URL run) and never a word character (so
// it ends a token candidate).
// ---------------------------------------------------------------------------

/// ASCII whitespace: space, tab, line feed, vertical tab, form feed, carriage return.
pub open spec fn is_space_char(c: char) -> bool {
    c == ' ' || c == '\t' || c == '\n' || c == '\r' || c == '\u{b}' || c == '\u{c}'
}

/// A character that may appear inside a script URL.
pub open spec fn is_url_char(c: char) -> bool {
    !is_space_char(c) && c != '"'
}

/// An ASCII letter, digit, or underscore.
pub open spec fn is_word_char(c: char) -> bool {
    (97 <= c as u32 && c as u32 <= 122) || (65 <= c as u32 && c as u32 <= 90) || (48 <= c as u32
        && c as u32 <= 57) || c == '_'
}

fn space_char(c: char) -> (b: bool)
    ensures
        b == is_space_char(c),
{
    c == ' ' || c == '\t' || c == '\n' || c == '\r' || c == '\u{b}' || c == '\u{c}'
}

fn url_char(c: char) -> (b: bool)
    ensures
        b == is_url_char(c),
{
    !space_char(c) && c != '"'
}

fn word_char(c: char) -> (b: bool)
    ensures
        b == is_word_char(c),
{
    let u = c as u32;
    (97 <= u && u <= 122) || (65 <= u && u <= 90) || (48 <= u && u <= 57) || c == '_'
}

/// The characters of a string, as a vector for random access.
pub(crate) fn chars_of(s: &str) -> (v: Vec<char>)
    ensures
        v@ == s@,
{
    let n = s.unicode_len();
    let mut v: Vec<char> = Vec::new();
    let mut i: usize = 0;
    while i < n
        invariant
            i <= n,
            n == s@.len(),
            v@ == s@.subrange(0, i as int),
        decreases n - i,
    {
        let c = s.get_char(i);
        v.push(c);
        proof {
            assert(s@.subrange(0, i as int).push(s@[i as int]) =~= s@.subrange(0, i + 1 as int));
        }
        i = i + 1;
    }
    proof {
        assert(v@ =~= s@);
    }
    v
}

// ---------------------------------------------------------------------------
// Script URLs.
// ---------------------------------------------------------------------------

/// "http://" stands at position `i`.
pub open spec fn has_http_at(s: Seq<char>, i: int) -> bool {
    &&& 0 <= i
    &&& i + 7 <= s.len()
    &&& s[i] == 'h'
    &&& s[i + 1] == 't'
    &&& s[i + 2] == 't'
    &&& s[i + 3] == 'p'
    &&& s[i + 4] == ':'
    &&& s[i + 5] == '/'
    &&& s[i + 6] == '/'
}

/// "https://" stands at position `i`.
pub open spec fn has_https_at(s: Seq<char>, i: int) -> bool {
    &&& 0 <= i
    &&& i + 8 <= s.len()
    &&& s[i] == 'h'
    &&& s[i + 1] == 't'
    &&& s[i + 2] == 't'
    &&& s[i + 3] == 'p'
    &&& s[i + 4] == 's'
    &&& s[i + 5] == ':'
    &&& s[i + 6] == '/'
    &&& s[i + 7] == '/'
}

/// The end of the run of URL characters that starts at `i`: the first position
/// at or after `i` that is past the end or holds a non-URL character.
pub open spec fn run_end(s: Seq<char>, i: int) -> int
    decreases s.len() - i,
{
    if i < 0 || i >= s.len() {
        s.len() as int
    } else if !is_url_char(s[i]) {
        i
    } else {
        run_end(s, i + 1)
    }
}

proof fn lemma_run_end_bounds(s: Seq<char>, i: int)
    requires
        0 <= i <= s.len(),
    ensures
        i <= run_end(s, i) <= s.len(),
    decreases s.len() - i,
{
    if i < s.len() && is_url_char(s[i]) {
        lemma_run_end_bounds(s, i + 1);
    }
}

/// The three characters before position `k` are ".js".
pub open spec fn ends_js(s: Seq<char>, k: int) -> bool {
    &&& 3 <= k <= s.len()
    &&& s[k - 3] == '.'
    &&& s[k - 2] == 'j'
    &&& s[k - 1] == 's'
}

/// The largest position `k` with `lo <= k <= j` such that ".js" ends at `k`.
pub open spec fn last_js_end(s: Seq<char>, lo: int, j: int) -> Option<int>
    decreases j - lo + 1,
{
    if j < lo {
        None
    } else if ends_js(s, j) {
        Some(j)
    } else {
        last_js_end(s, lo, j - 1)
    }
}

proof fn lemma_last_js_end_bounds(s: Seq<char>, lo: int, j: int)
    ensures
        match last_js_end(s, lo, j) {
            Some(k) => lo <= k <= j && k <= s.len(),
            None => true,
        },
    decreases j - lo + 1,
{
    if j >= lo && !ends_js(s, j) {
        lemma_last_js_end_bounds(s, lo, j - 1);
    }
}

/// Where the URL match starting at position `i` ends, if there is one: the
/// scheme, then at least one URL character, with the longest extent whose last
/// three characters are ".js", never running past whitespace or a quote.
pub open spec fn match_end_at(s: Seq<char>, i: int) -> Option<int> {
    if has_https_at(s, i) {
        last_js_end(s, i + 12, run_end(s, i + 8))
    } else if has_http_at(s, i) {
        last_js_end(s, i + 11, run_end(s, i + 7))
    } else {
        None
    }
}

proof fn lemma_match_end_bounds(s: Seq<char>, i: int)
    ensures
        match match_end_at(s, i) {
            Some(j) => i + 11 <= j <= s.len(),
            None => true,
        },
{
    if has_https_at(s, i) {
        lemma_run_end_bounds(s, i + 8);
        lemma_last_js_end_bounds(s, i + 12, run_end(s, i + 8));
    } else if has_http_at(s, i) {
        lemma_run_end_bounds(s, i + 7);
        lemma_last_js_end_bounds(s, i + 11, run_end(s, i + 7));
    }
}

/// All script URLs found from position `i` on, in order of first appearance,
/// duplicates retained; matches do not overlap, the scan resumes where a
/// match ends.
pub open spec fn scan_urls(s: Seq<char>, i: int) -> Seq<Seq<char>>
    decreases s.len() - i,
        via scan_urls_decreases
{
    if i < 0 || i >= s.len() {
        Seq::empty()
    } else {
        match match_end_at(s, i) {
            Some(j) => seq![s.subrange(i, j)] + scan_urls(s, j),
            None => scan_urls(s, i + 1),
        }
    }
}

#[via_fn]
proof fn scan_urls_decreases(s: Seq<char>, i: int) {
    lemma_match_end_bounds(s, i);
}

/// The script URLs embedded in a page body.
pub open spec fn script_urls(s: Seq<char>) -> Seq<Seq<char>> {
    scan_urls(s, 0)
}

fn has_https(v: &Vec<char>, i: usize) -> (b: bool)
    requires
        i <= v@.len(),
    ensures
        b == has_https_at(v@, i as int),
{
    let n = v.len();
    n - i >= 8 && v[i] == 'h' && v[i + 1] == 't' && v[i + 2] == 't' && v[i + 3] == 'p' && v[i + 4]
        == 's' && v[i + 5] == ':' && v[i + 6] == '/' && v[i + 7] == '/'
}

fn has_http(v: &Vec<char>, i: usize) -> (b: bool)
    requires
        i <= v@.len(),
    ensures
        b == has_http_at(v@, i as int),
{
    let n = v.len();
    n - i >= 7 && v[i] == 'h' && v[i + 1] == 't' && v[i + 2] == 't' && v[i + 3] == 'p' && v[i + 4]
        == ':' && v[i + 5] == '/' && v[i + 6] == '/'
}

fn run_end_from(v: &Vec<char>, start: usize) -> (j: usize)
    requires
        start <= v@.len(),
    ensures
        j as int == run_end(v@, start as int),
        start <= j <= v@.len(),
{
    let n = v.len();
    let mut j = start;
    while j < n && url_char(v[j])
        invariant
            start <= j <= n,
            n == v@.len(),
            run_end(v@, start as int) == run_end(v@, j as int),
        decreases n - j,
    {
        j = j + 1;
    }
    j
}

fn ends_js_at(v: &Vec<char>, k: usize) -> (b: bool)
    requires
        k <= v@.len(),
    ensures
        b == ends_js(v@, k as int),
{
    k >= 3 && v[k - 3] == '.' && v[k - 2] == 'j' && v[k - 1] == 's'
}

fn last_js_end_from(v: &Vec<char>, lo: usize, j: usize) -> (r: Option<usize>)
    requires
        1 <= lo,
        j <= v@.len(),
    ensures
        match r {
            Some(k) => last_js_end(v@, lo as int, j as int) == Some(k as int) && lo <= k <= j,
            None => last_js_end(v@, lo as int, j as int) is None,
        },
{
    let mut k = j;
    loop
        invariant
            1 <= lo,
            k <= j <= v@.len(),
            last_js_end(v@, lo as int, j as int) == last_js_end(v@, lo as int, k as int),
        decreases k,
    {
        if k < lo {
            return None;
        }
        if ends_js_at(v, k) {
            return Some(k);
        }
        k = k - 1;
    }
}

/// Where the URL match starting at `i` ends, if there is one.
fn try_match_end(v: &Vec<char>, i: usize) -> (r: Option<usize>)
    requires
        i < v@.len(),
    ensures
        match r {
            Some(j) => match_end_at(v@, i as int) == Some(j as int) && i < j <= v@.len(),
            None => match_end_at(v@, i as int) is None,
        },
{
    let n = v.len();
    if has_https(v, i) {
        let hi = run_end_from(v, i + 8);
        let r = if n - i >= 12 {
            last_js_end_from(v, i + 12, hi)
        } else {
            None
        };
        proof {
            lemma_match_end_bounds(v@, i as int);
        }
        r
    } else if has_http(v, i) {
        let hi = run_end_from(v, i + 7);
        let r = if n - i >= 11 {
            last_js_end_from(v, i + 11, hi)
        } else {
            None
        };
        proof {
            lemma_match_end_bounds(v@, i as int);
        }
        r
    } else {
        None
    }
}

/// All script URLs embedded in a page body, in order of first appearance,
/// duplicates retained.
pub fn extract_script_urls(body: &str) -> (urls: Vec<String>)
    ensures
        urls.deep_view() == script_urls(body@),
{
    let v = chars_of(body);
    let n = v.len();
    let mut urls: Vec<String> = Vec::new();
    let mut i: usize = 0;
    while i < n
        invariant
            i <= n,
            v@ == body@,
            n == v@.len(),
            script_urls(body@) == urls.deep_view() + scan_urls(body@, i as int),
        decreases n - i,
    {
        let m = try_match_end(&v, i);
        match m {
            Some(j) => {
                let ghost pre = urls.deep_view();
                let u = body.substring_char(i, j).to_owned();
                urls.push(u);
                proof {
                    assert(urls.deep_view() =~= pre.push(body@.subrange(i as int, j as int)));
                    assert(pre.push(body@.subrange(i as int, j as int)) + scan_urls(
                        body@,
                        j as int,
                    ) =~= pre + scan_urls(body@, i as int));
                }
                i = j;
            },
            None => {
                i = i + 1;
            },
        }
    }
    proof {
        assert(urls.deep_view() + scan_urls(body@, i as int) =~= urls.deep_view());
    }
    urls
}

// ---------------------------------------------------------------------------
// The token inside a script body.
// ---------------------------------------------------------------------------

/// The marker "client_id" stands at position `i`, followed by ':' or '='.
pub open spec fn has_marker_at(s: Seq<char>, i: int) -> bool {
    &&& 0 <= i
    &&& i + 10 <= s.len()
    &&& s[i] == 'c'
    &&& s[i + 1] == 'l'
    &&& s[i + 2] == 'i'
    &&& s[i + 3] == 'e'
    &&& s[i + 4] == 'n'
    &&& s[i + 5] == 't'
    &&& s[i + 6] == '_'
    &&& s[i + 7] == 'i'
    &&& s[i + 8] == 'd'
    &&& (s[i + 9] == ':' || s[i + 9] == '=')
}

/// Where the 32 token characters would start for a marker at `i`: right after
/// the separator, skipping one optional double quote.
pub open spec fn token_start(s: Seq<char>, i: int) -> int {
    if i + 10 < s.len() && s[i + 10] == '"' {
        i + 11
    } else {
        i + 10
    }
}

/// A full token match stands at position `i`: the marker, the separator, an
/// optional quote, then exactly 32 word characters.
pub open spec fn token_match_at(s: Seq<char>, i: int) -> bool {
    &&& has_marker_at(s, i)
    &&& token_start(s, i) + 32 <= s.len()
    &&& (forall|k: int|
        token_start(s, i) <= k < token_start(s, i) + 32 ==> is_word_char(#[trigger] s[k]))
}

/// The 32 token characters of the match at position `i`.
pub open spec fn token_at(s: Seq<char>, i: int) -> Seq<char> {
    s.subrange(token_start(s, i), token_start(s, i) + 32)
}

/// The token of the leftmost match at or after position `i`, if any.
pub open spec fn first_token_from(s: Seq<char>, i: int) -> Option<Seq<char>>
    decreases s.len() - i,
{
    if i < 0 || i >= s.len() {
        None
    } else if token_match_at(s, i) {
        Some(token_at(s, i))
    } else {
        first_token_from(s, i + 1)
    }
}

/// The token embedded in a script body, if any.
pub open spec fn script_token(s: Seq<char>) -> Option<Seq<char>> {
    first_token_from(s, 0)
}

fn marker_at(v: &Vec<char>, i: usize) -> (b: bool)
    requires
        i < v@.len(),
    ensures
        b == has_marker_at(v@, i as int),
{
    let n = v.len();
    n - i >= 10 && v[i] == 'c' && v[i + 1] == 'l' && v[i + 2] == 'i' && v[i + 3] == 'e' && v[i + 4]
        == 'n' && v[i + 5] == 't' && v[i + 6] == '_' && v[i + 7] == 'i' && v[i + 8] == 'd' && (v[i
        + 9] == ':' || v[i + 9] == '=')
}

fn words_32_at(v: &Vec<char>, js: usize) -> (b: bool)
    requires
        js + 32 <= v@.len(),
    ensures
        b == (forall|k: int| js <= k < js + 32 ==> is_word_char(#[trigger] v@[k])),
{
    let n = v.len();
    let mut m: usize = 0;
    while m < 32
        invariant
            m <= 32,
            n == v@.len(),
            js + 32 <= v@.len(),
            forall|k: int| js <= k < js + m ==> is_word_char(#[trigger] v@[k]),
        decreases 32 - m,
    {
        if !word_char(v[js + m]) {
            proof {
                assert(!is_word_char(v@[js + m as int]));
            }
            return false;
        }
        m = m + 1;
    }
    true
}

/// The first embedded token of a script body, if any: the 32 word characters
/// announced by the leftmost "client_id" marker that a full match follows.
pub fn find_token(script: &str) -> (t: Option<String>)
    ensures
        match t {
            Some(tok) => script_token(script@) == Some(tok@),
            None => script_token(script@) is None,
        },
{
    let v = chars_of(script);
    let n = v.len();
    let mut i: usize = 0;
    while i < n
        invariant
            i <= n,
            v@ == script@,
            n == v@.len(),
            first_token_from(script@, 0) == first_token_from(script@, i as int),
        decreases n - i,
    {
        if marker_at(&v, i) {
            let js: usize = if n - i > 10 && v[i + 10] == '"' {
                i + 11
            } else {
                i + 10
            };
            proof {
                assert(js as int == token_start(script@, i as int));
            }
            if n - js >= 32 && words_32_at(&v, js) {
                proof {
                    assert(token_match_at(script@, i as int));
                }
                let tok = script.substring_char(js, js + 32).to_owned();
                return Some(tok);
            }
            proof {
                assert(!token_match_at(script@, i as int));
            }
        }
        i = i + 1;
    }
    None
}

// ---------------------------------------------------------------------------
// Discovery: walk the scripts of a landing page, in order, and take the first
// token that any of them yields.
// ---------------------------------------------------------------------------

/// The token that discovery yields when `n_urls` scripts were discovered and
/// `bodies[k]` is the fetched body of the `k`-th script (`None` where the
/// fetch failed and the script is skipped): the first script at or after
/// position `i` whose body holds a token decides the result.
pub open spec fn discovered_token(n_urls: int, bodies: Seq<Option<Seq<char>>>, i: int) -> Option<
    Seq<char>,
>
    decreases n_urls - i,
{
    if i < 0 || i >= n_urls {
        None
    } else {
        let b: Option<Seq<char>> = if i < bodies.len() {
            bodies[i]
        } else {
            None
        };
        match b {
            Some(body) => match script_token(body) {
                Some(t) => Some(t),
                None => discovered_token(n_urls, bodies, i + 1),
            },
            None => discovered_token(n_urls, bodies, i + 1),
        }
    }
}

/// Token discovery over already-fetched documents: extract the script URLs of
/// the landing page, then return the token of the first script body that
/// yields one, or `DiscoveryError::NotFound` when none does. `script_bodies`
/// corresponds positionally to the discovered script URLs; a missing or
/// `None` entry stands for a failed script fetch, which is skipped.
pub fn discover_from_bodies(landing_body: &str, script_bodies: &Vec<Option<String>>) -> (r: Result<
    String,
    DiscoveryError,
>)
    ensures
        match r {
            Ok(t) => discovered_token(
                script_urls(landing_body@).len() as int,
                script_bodies.deep_view(),
                0,
            ) == Some(t@),
            Err(e) => discovered_token(
                script_urls(landing_body@).len() as int,
                script_bodies.deep_view(),
                0,
            ) is None && e == DiscoveryError::NotFound,
        },
{
    let urls = extract_script_urls(landing_body);
    let n = urls.len();
    let ghost n_urls = script_urls(landing_body@).len() as int;
    proof {
        assert(n as int == n_urls);
    }
    let mut i: usize = 0;
    while i < n
        invariant
            i <= n,
            n as int == n_urls,
            n_urls == script_urls(landing_body@).len() as int,
            discovered_token(n_urls, script_bodies.deep_view(), 0) == discovered_token(
                n_urls,
                script_bodies.deep_view(),
                i as int,
            ),
        decreases n - i,
    {
        if i < script_bodies.len() {
            match &script_bodies[i] {
                Some(body) => {
                    match find_token(body.as_str()) {
                        Some(tok) => {
                            return Ok(tok);
                        },
                        None => {},
                    }
                },
                None => {},
            }
        }
        i = i + 1;
    }
    Err(DiscoveryError::NotFound)
}

/// Law: a token that a script yields is well-formed: exactly 32 word
/// characters.
pub proof fn lemma_script_token_well_formed(s: Seq<char>)
    requires
        script_token(s) is Some,
    ensures
        script_token(s)->Some_0.len() == 32,
        forall|k: int|
            0 <= k < 32 ==> is_word_char(#[trigger] script_token(s)->Some_0[k]),
{
    lemma_first_token_well_formed(s, 0);
}

proof fn lemma_first_token_well_formed(s: Seq<char>, i: int)
    requires
        first_token_from(s, i) is Some,
    ensures
        first_token_from(s, i)->Some_0.len() == 32,
        forall|k: int|
            0 <= k < 32 ==> is_word_char(#[trigger] first_token_from(s, i)->Some_0[k]),
    decreases s.len() - i,
{
    if 0 <= i < s.len() && token_match_at(s, i) {
    } else {
        lemma_first_token_well_formed(s, i + 1);
    }
}

/// Law: the token that discovery yields is well-formed: exactly 32 word
/// characters.
pub proof fn lemma_discovered_token_well_formed(n_urls: int, bodies: Seq<Option<Seq<char>>>)
    requires
        discovered_token(n_urls, bodies, 0) is Some,
    ensures
        discovered_token(n_urls, bodies, 0)->Some_0.len() == 32,
        forall|k: int|
            0 <= k < 32 ==> is_word_char(#[trigger] discovered_token(n_urls, bodies, 0)->Some_0[k]),
{
    lemma_discovered_token_well_formed_from(n_urls, bodies, 0);
}

proof fn lemma_discovered_token_well_formed_from(
    n_urls: int,
    bodies: Seq<Option<Seq<char>>>,
    i: int,
)
    requires
        discovered_token(n_urls, bodies, i) is Some,
    ensures
        discovered_token(n_urls, bodies, i)->Some_0.len() == 32,
        forall|k: int|
            0 <= k < 32 ==> is_word_char(#[trigger] discovered_token(n_urls, bodies, i)->Some_0[k]),
    decreases n_urls - i,
{
    if 0 <= i < n_urls {
        let b: Option<Seq<char>> = if i < bodies.len() {
            bodies[i]
        } else {
            None
        };
        match b {
            Some(body) => {
                if script_token(body) is Some {
                    lemma_script_token_well_formed(body);
                } else {
                    lemma_discovered_token_well_formed_from(n_urls, bodies, i + 1);
                }
            },
            None => {
                lemma_discovered_token_well_formed_from(n_urls, bodies, i + 1);
            },
        }
    }
}

/// Law: discovery returns exactly the token of the first script whose fetch
/// succeeded and whose body holds one; earlier scripts that failed to fetch
/// or held no token are skipped.
pub proof fn lemma_discovery_finds_first_token(
    n_urls: int,
    bodies: Seq<Option<Seq<char>>>,
    i: int,
)
    requires
        0 <= i < n_urls,
        i < bodies.len(),
        bodies[i] is Some,
        script_token(bodies[i]->Some_0) is Some,
        forall|k: int|
            0 <= k < i ==> !(k < bodies.len() && #[trigger] bodies[k] is Some && script_token(
                bodies[k]->Some_0,
            ) is Some),
    ensures
        discovered_token(n_urls, bodies, 0) == Some(script_token(bodies[i]->Some_0)->Some_0),
{
    lemma_discovery_finds_first_token_from(n_urls, bodies, 0, i);
}

proof fn lemma_discovery_finds_first_token_from(
    n_urls: int,
    bodies: Seq<Option<Seq<char>>>,
    j: int,
    i: int,
)
    requires
        0 <= j <= i < n_urls,
        i < bodies.len(),
        bodies[i] is Some,
        script_token(bodies[i]->Some_0) is Some,
        forall|k: int|
            j <= k < i ==> !(k < bodies.len() && #[trigger] bodies[k] is Some && script_token(
                bodies[k]->Some_0,
            ) is Some),
    ensures
        discovered_token(n_urls, bodies, j) == Some(script_token(bodies[i]->Some_0)->Some_0),
    decreases i - j,
{
    if j < i {
        lemma_discovery_finds_first_token_from(n_urls, bodies, j + 1, i);
    }
}

/// Law: when no script body holds a token, discovery finds nothing, so
/// `discover_from_bodies` fails with `DiscoveryError::NotFound`.
pub proof fn lemma_discovery_not_found(n_urls: int, bodies: Seq<Option<Seq<char>>>)
    requires
        forall|k: int|
            0 <= k < n_urls ==> !(k < bodies.len() && #[trigger] bodies[k] is Some && script_token(
                bodies[k]->Some_0,
            ) is Some),
    ensures
        discovered_token(n_urls, bodies, 0) is None,
{
    lemma_discovery_not_found_from(n_urls, bodies, 0);
}

proof fn lemma_discovery_not_found_from(n_urls: int, bodies: Seq<Option<Seq<char>>>, j: int)
    requires
        0 <= j,
        forall|k: int|
            j <= k < n_urls ==> !(k < bodies.len() && #[trigger] bodies[k] is Some && script_token(
                bodies[k]->Some_0,
            ) is Some),
    ensures
        discovered_token(n_urls, bodies, j) is None,
    decreases n_urls - j,
{
    if j < n_urls {
        lemma_discovery_not_found_from(n_urls, bodies, j + 1);
    }
}

} // verus!
