use vstd::prelude::*;
use vstd::utf8::encode_utf8;

verus! {

/// Tagged result of one HTTP attempt; constructed and consumed within a
/// single fetch call.
#[derive(Debug)]
pub enum RequestOutcome {
    /// 2xx status and the body decoded as expected: the payload.
    Success(String),
    /// HTTP 401: the status and the raw body.
    AuthFailure(u16, String),
    /// Any other non-2xx status: the status and the raw body, for diagnostics.
    OtherHttpFailure(u16, String),
    /// Network or connection-level failure: its cause.
    TransportFailure(String),
    /// 2xx status, but the body did not match the expected schema.
    DecodeFailure(String),
}

impl RequestOutcome {
    /// An exact copy of this outcome.
    pub fn duplicate(&self) -> (o: RequestOutcome)
        ensures
            o == *self,
    {
        match self {
            RequestOutcome::Success(b) => RequestOutcome::Success(b.clone()),
            RequestOutcome::AuthFailure(status, body) => RequestOutcome::AuthFailure(
                *status,
                body.clone(),
            ),
            RequestOutcome::OtherHttpFailure(status, body) => RequestOutcome::OtherHttpFailure(
                *status,
                body.clone(),
            ),
            RequestOutcome::TransportFailure(cause) => RequestOutcome::TransportFailure(
                cause.clone(),
            ),
            RequestOutcome::DecodeFailure(cause) => RequestOutcome::DecodeFailure(cause.clone()),
        }
    }
}

/// Classify one raw HTTP response: a 2xx status yields the payload when it
/// decoded and a decode failure when it did not; 401 is an authentication
/// failure; every other status is surfaced with its raw body.
pub fn classify_response(status: u16, body: String, decoded: bool) -> (o: RequestOutcome)
    ensures
        200 <= status < 300 && decoded ==> o == RequestOutcome::Success(body),
        200 <= status < 300 && !decoded ==> o == RequestOutcome::DecodeFailure(body),
        status == 401 ==> o == RequestOutcome::AuthFailure(401u16, body),
        !(200 <= status < 300) && status != 401 ==> o == RequestOutcome::OtherHttpFailure(
            status,
            body,
        ),
{
    if 200 <= status && status < 300 {
        if decoded {
            RequestOutcome::Success(body)
        } else {
            RequestOutcome::DecodeFailure(body)
        }
    } else if status == 401 {
        RequestOutcome::AuthFailure(401, body)
    } else {
        RequestOutcome::OtherHttpFailure(status, body)
    }
}

// ---------------------------------------------------------------------------
// URL construction.
// ---------------------------------------------------------------------------

/// `s` without its trailing slashes.
pub open spec fn trim_end_slashes(s: Seq<char>) -> Seq<char>
    decreases s.len(),
{
    if s.len() > 0 && s[s.len() - 1] == '/' {
        trim_end_slashes(s.drop_last())
    } else {
        s
    }
}

/// `s` without its leading slashes.
pub open spec fn trim_start_slashes(s: Seq<char>) -> Seq<char>
    decreases s.len(),
{
    if s.len() > 0 && s[0] == '/' {
        trim_start_slashes(s.subrange(1, s.len() as int))
    } else {
        s
    }
}

/// Base and path joined with exactly one slash at the boundary.
pub open spec fn joined_url(base: Seq<char>, path: Seq<char>) -> Seq<char> {
    trim_end_slashes(base) + seq!['/'] + trim_start_slashes(path)
}

fn trim_end_index(v: &Vec<char>) -> (k: usize)
    ensures
        k <= v@.len(),
        trim_end_slashes(v@) == v@.subrange(0, k as int),
{
    let n = v.len();
    let mut k = n;
    proof {
        assert(v@.subrange(0, n as int) =~= v@);
    }
    while k > 0 && v[k - 1] == '/'
        invariant
            k <= n,
            n == v@.len(),
            trim_end_slashes(v@) == trim_end_slashes(v@.subrange(0, k as int)),
        decreases k,
    {
        proof {
            assert(v@.subrange(0, k as int).drop_last() =~= v@.subrange(0, k - 1 as int));
        }
        k = k - 1;
    }
    proof {
        assert(trim_end_slashes(v@.subrange(0, k as int)) == v@.subrange(0, k as int));
    }
    k
}

fn trim_start_index(v: &Vec<char>) -> (k: usize)
    ensures
        k <= v@.len(),
        trim_start_slashes(v@) == v@.subrange(k as int, v@.len() as int),
{
    let n = v.len();
    let mut k: usize = 0;
    proof {
        assert(v@.subrange(0, n as int) =~= v@);
    }
    while k < n && v[k] == '/'
        invariant
            k <= n,
            n == v@.len(),
            trim_start_slashes(v@) == trim_start_slashes(v@.subrange(k as int, n as int)),
        decreases n - k,
    {
        proof {
            let s = v@.subrange(k as int, n as int);
            assert(s.subrange(1, s.len() as int) =~= v@.subrange(k + 1 as int, n as int));
        }
        k = k + 1;
    }
    k
}

/// Join `base` and `path` by normalizing exactly one slash at the boundary;
/// with no path, the base is used unchanged.
pub fn build_url(base: &str, path: Option<&str>) -> (u: String)
    ensures
        match path {
            Some(p) => u@ == joined_url(base@, p@),
            None => u@ == base@,
        },
{
    match path {
        None => base.to_owned(),
        Some(p) => {
            let bv = crate::scrape::chars_of(base);
            let pv = crate::scrape::chars_of(p);
            let b_end = trim_end_index(&bv);
            let p_start = trim_start_index(&pv);
            let mut u = base.substring_char(0, b_end).to_owned();
            u.append("/");
            let p_len = p.unicode_len();
            let tail = p.substring_char(p_start, p_len);
            u.append(tail);
            proof {
                reveal_strlit("/");
                assert("/"@ =~= seq!['/']);
                assert(u@ =~= joined_url(base@, p@));
            }
            u
        },
    }
}

// ---------------------------------------------------------------------------
// Query serialization: keys and values are form-urlencoded, so a reserved
// character in a caller-supplied value cannot break the request apart.
// ---------------------------------------------------------------------------

/// A byte that form-urlencoding leaves unchanged: an ASCII letter or digit,
/// or one of `*`, `-`, `.`, `_`.
pub open spec fn is_unencoded_byte(b: u8) -> bool {
    (48 <= b && b <= 57) || (65 <= b && b <= 90) || (97 <= b && b <= 122) || b == 42 || b == 45
        || b == 46 || b == 95
}

/// The uppercase hexadecimal digit character for `d` (0 through 15).
pub open spec fn hex_digit_char(d: int) -> char {
    if d < 10 {
        crate::numfmt::digit_char(d)
    } else if d == 10 {
        'A'
    } else if d == 11 {
        'B'
    } else if d == 12 {
        'C'
    } else if d == 13 {
        'D'
    } else if d == 14 {
        'E'
    } else {
        'F'
    }
}

/// How form-urlencoding renders one byte: an unchanged byte stays itself, a
/// space becomes '+', and every other byte becomes '%' and two uppercase
/// hexadecimal digits.
pub open spec fn encoded_byte(b: u8) -> Seq<char> {
    if b == 32 {
        seq!['+']
    } else if is_unencoded_byte(b) {
        seq![b as char]
    } else {
        seq!['%', hex_digit_char(b as int / 16), hex_digit_char(b as int % 16)]
    }
}

/// The form-urlencoded rendering of a byte string.
pub open spec fn form_urlencoded(bytes: Seq<u8>) -> Seq<char>
    decreases bytes.len(),
{
    if bytes.len() == 0 {
        Seq::empty()
    } else {
        form_urlencoded(bytes.drop_last()) + encoded_byte(bytes.last())
    }
}

fn append_encoded_byte(out: &mut String, b: u8)
    ensures
        final(out)@ == old(out)@ + encoded_byte(b),
{
    let unchanged = "0123456789ABCDEFGHIJKLMNOPQRSTUVWXYZabcdefghijklmnopqrstuvwxyz*-._+";
    proof {
        reveal_strlit("0123456789ABCDEFGHIJKLMNOPQRSTUVWXYZabcdefghijklmnopqrstuvwxyz*-._+");
    }
    if b == 32 {
        out.append(unchanged.substring_char(66, 67));
        proof {
            assert(unchanged@.subrange(66, 67) =~= encoded_byte(b));
        }
    } else if 48 <= b && b <= 57 {
        let idx = (b - 48) as usize;
        out.append(unchanged.substring_char(idx, idx + 1));
        proof {
            assert(unchanged@.subrange(idx as int, idx as int + 1) =~= encoded_byte(b));
        }
    } else if 65 <= b && b <= 90 {
        let idx = (b - 55) as usize;
        out.append(unchanged.substring_char(idx, idx + 1));
        proof {
            assert(unchanged@.subrange(idx as int, idx as int + 1) =~= encoded_byte(b));
        }
    } else if 97 <= b && b <= 122 {
        let idx = (b - 61) as usize;
        out.append(unchanged.substring_char(idx, idx + 1));
        proof {
            assert(unchanged@.subrange(idx as int, idx as int + 1) =~= encoded_byte(b));
        }
    } else if b == 42 || b == 45 || b == 46 || b == 95 {
        let idx: usize = if b == 42 {
            62
        } else if b == 45 {
            63
        } else if b == 46 {
            64
        } else {
            65
        };
        out.append(unchanged.substring_char(idx, idx + 1));
        proof {
            assert(unchanged@.subrange(idx as int, idx as int + 1) =~= encoded_byte(b));
        }
    } else {
        let hex = "0123456789ABCDEF%";
        proof {
            reveal_strlit("0123456789ABCDEF%");
        }
        let ghost pre = out@;
        let hi = (b / 16) as usize;
        let lo = (b % 16) as usize;
        out.append(hex.substring_char(16, 17));
        out.append(hex.substring_char(hi, hi + 1));
        out.append(hex.substring_char(lo, lo + 1));
        proof {
            assert(hex@.subrange(16, 17) =~= seq!['%']);
            assert(hex@.subrange(hi as int, hi as int + 1) =~= seq![
                hex_digit_char(b as int / 16),
            ]);
            assert(hex@.subrange(lo as int, lo as int + 1) =~= seq![
                hex_digit_char(b as int % 16),
            ]);
            assert(out@ =~= pre + encoded_byte(b));
        }
    }
}

/// Form-urlencode one component, as the query serializer renders it: ASCII
/// letters and digits and `*`, `-`, `.`, `_` stay; a space becomes `+`; every
/// other byte of the UTF-8 form becomes `%` and two uppercase hexadecimal
/// digits.
pub fn percent_encode(s: &str) -> (r: String)
    ensures
        r@ == form_urlencoded(encode_utf8(s@)),
{
    let bytes = s.as_bytes_vec();
    let n = bytes.len();
    let mut r = String::new();
    let mut i: usize = 0;
    while i < n
        invariant
            i <= n,
            n == bytes@.len(),
            bytes@ == encode_utf8(s@),
            r@ == form_urlencoded(bytes@.subrange(0, i as int)),
        decreases n - i,
    {
        append_encoded_byte(&mut r, bytes[i]);
        proof {
            let sub = bytes@.subrange(0, i + 1 as int);
            assert(sub.drop_last() =~= bytes@.subrange(0, i as int));
            assert(r@ =~= form_urlencoded(sub));
        }
        i = i + 1;
    }
    proof {
        assert(bytes@.subrange(0, n as int) =~= bytes@);
    }
    r
}

/// One key-value pair rendered as `key=value`, both sides form-urlencoded.
pub open spec fn pair_string(p: (String, String)) -> Seq<char> {
    form_urlencoded(encode_utf8(p.0@)) + seq!['='] + form_urlencoded(encode_utf8(p.1@))
}

/// Key-value pairs rendered as `k1=v1&k2=v2&...`, in order.
pub open spec fn query_pairs_string(pairs: Seq<(String, String)>) -> Seq<char>
    decreases pairs.len(),
{
    if pairs.len() == 0 {
        Seq::empty()
    } else if pairs.len() == 1 {
        pair_string(pairs[0])
    } else {
        query_pairs_string(pairs.drop_last()) + seq!['&'] + pair_string(pairs.last())
    }
}

/// The `client_id` query parameter carrying the token, form-urlencoded like
/// any other value.
pub open spec fn client_id_param(token: Seq<char>) -> Seq<char> {
    "client_id="@ + form_urlencoded(encode_utf8(token))
}

/// A URL with its query string: the serialized pairs, if any, and always the
/// token as a trailing `client_id` parameter.
pub open spec fn authenticated_url(
    url: Seq<char>,
    pairs: Seq<(String, String)>,
    token: Seq<char>,
) -> Seq<char> {
    if pairs.len() == 0 {
        url + seq!['?'] + client_id_param(token)
    } else {
        url + seq!['?'] + query_pairs_string(pairs) + seq!['&'] + client_id_param(token)
    }
}

/// Serialize key-value pairs as `k1=v1&k2=v2&...`, in order, each key and
/// value form-urlencoded.
pub fn encode_query(pairs: &Vec<(String, String)>) -> (q: String)
    ensures
        q@ == query_pairs_string(pairs@),
{
    let mut q = String::new();
    let n = pairs.len();
    let mut i: usize = 0;
    while i < n
        invariant
            i <= n,
            n == pairs@.len(),
            q@ == query_pairs_string(pairs@.subrange(0, i as int)),
        decreases n - i,
    {
        if i > 0 {
            q.append("&");
        }
        let key = percent_encode(pairs[i].0.as_str());
        q.append(key.as_str());
        q.append("=");
        let value = percent_encode(pairs[i].1.as_str());
        q.append(value.as_str());
        proof {
            reveal_strlit("&");
            reveal_strlit("=");
            let sub = pairs@.subrange(0, i + 1 as int);
            assert(sub.drop_last() =~= pairs@.subrange(0, i as int));
            assert("&"@ =~= seq!['&']);
            assert("="@ =~= seq!['=']);
            assert(q@ =~= query_pairs_string(sub));
        }
        i = i + 1;
    }
    proof {
        assert(pairs@.subrange(0, n as int) =~= pairs@);
    }
    q
}

/// The full target of one authenticated request: base and path joined with
/// one slash at the boundary (with no path, the base alone), then the
/// serialized query pairs and the token as a `client_id` parameter.
pub fn build_request_url(
    base: &str,
    path: Option<&str>,
    query: &Vec<(String, String)>,
    token: &str,
) -> (u: String)
    ensures
        match path {
            Some(p) => u@ == authenticated_url(joined_url(base@, p@), query@, token@),
            None => u@ == authenticated_url(base@, query@, token@),
        },
{
    let mut u = build_url(base, path);
    u.append("?");
    if query.len() > 0 {
        let q = encode_query(query);
        u.append(q.as_str());
        u.append("&");
    }
    u.append("client_id=");
    let encoded_token = percent_encode(token);
    u.append(encoded_token.as_str());
    proof {
        reveal_strlit("?");
        reveal_strlit("&");
        reveal_strlit("client_id=");
        assert("?"@ =~= seq!['?']);
        assert("&"@ =~= seq!['&']);
        match path {
            Some(p) => {
                assert(u@ =~= authenticated_url(joined_url(base@, p@), query@, token@));
            },
            None => {
                assert(u@ =~= authenticated_url(base@, query@, token@));
            },
        }
    }
    u
}

} // verus!
