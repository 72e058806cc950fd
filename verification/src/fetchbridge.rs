//! Fetch proxy for the quick app (single-frame protocol).
//!
//! The band sends `{tag:"fetch", id, url, options:{method,headers,body}}`; the
//! reply is `{tag:"fetch", id, resp:{ok,status,body,headers}}`, the shape the
//! quick app's bridge expects. The caller performs the HTTP request and the
//! send; this module reads the request and writes the reply.
use vstd::prelude::*;
use vstd::utf8::{valid_utf8, decode_utf8};
use crate::json::{Json, JsonModel, get_spec, as_str_spec, json_text, json_model, entry_models, lemma_entry_models};
use crate::text::{chars_of, string_of, ascii_upper_seq, dec_text};

verus! {

/// Bodies longer than this many UTF-8 bytes are cut to it.
pub const MAX_BODY_LEN: usize = 65536;

/// `c` may appear in an HTTP header name (an RFC 7230 `tchar`).
pub open spec fn is_tchar(c: char) -> bool {
    ||| ('0' <= c && c <= '9')
    ||| ('a' <= c && c <= 'z')
    ||| ('A' <= c && c <= 'Z')
    ||| c == '!' || c == '#' || c == '$' || c == '%' || c == '&' || c == '\'' || c == '*'
    ||| c == '+' || c == '-' || c == '.' || c == '^' || c == '_' || c == '`' || c == '|'
    ||| c == '~'
}

/// `name` is accepted by `http::HeaderName::from_str`: one to 65535 token
/// characters.
pub open spec fn valid_header_name(name: Seq<char>) -> bool {
    &&& 1 <= name.len() <= 65535
    &&& forall|i: int| 0 <= i < name.len() ==> is_tchar(#[trigger] name[i])
}

/// Whether `http::HeaderName::from_str` accepts `name`. That function maps
/// each byte through a table that is non-zero exactly on token characters and
/// fails on an empty name, on a name longer than 65535 bytes, and on any other
/// byte; token characters are ASCII, so bytes and characters coincide.
#[verifier::external_body]
fn header_name_ok(name: &str) -> (r: bool)
    ensures
        r == valid_header_name(name@),
{
    <http::header::HeaderName as std::str::FromStr>::from_str(name).is_ok()
}

/// Request methods the proxy forwards.
#[derive(Clone, Copy, Debug, PartialEq, Eq, Structural)]
pub enum HttpMethod {
    Get,
    Post,
    Put,
    Delete,
    Patch,
    Head,
    Options,
}

/// A fetch request as read from the band's message.
pub struct FetchRequest {
    pub id: String,
    pub url: String,
    pub method: HttpMethod,
    pub body: Option<String>,
    /// Header name and value pairs, in the order given.
    pub headers: Vec<(String, String)>,
}

/// The request id as text: a string id as is, any other value as its JSON
/// text, nothing when absent.
pub open spec fn id_spec(req: JsonModel) -> Seq<char> {
    match get_spec(req, "id"@) {
        Some(JsonModel::Str(s)) => s,
        Some(v) => json_text(v),
        None => seq![],
    }
}

/// Member `key` of the request's `options` (absent when the options are).
pub open spec fn option_spec(req: JsonModel, key: Seq<char>) -> Option<JsonModel> {
    match get_spec(req, "options"@) {
        Some(o) => get_spec(o, key),
        None => None,
    }
}

/// The method named by the request, upper-cased; `GET` for anything unknown.
pub open spec fn method_spec(req: JsonModel) -> HttpMethod {
    let m = match as_str_spec(option_spec(req, "method"@)) {
        Some(s) => ascii_upper_seq(s),
        None => "GET"@,
    };
    if m == "POST"@ {
        HttpMethod::Post
    } else if m == "PUT"@ {
        HttpMethod::Put
    } else if m == "DELETE"@ {
        HttpMethod::Delete
    } else if m == "PATCH"@ {
        HttpMethod::Patch
    } else if m == "HEAD"@ {
        HttpMethod::Head
    } else if m == "OPTIONS"@ {
        HttpMethod::Options
    } else {
        HttpMethod::Get
    }
}

/// The request is forwarded with the method its `options.method` names, read
/// case-insensitively for ASCII letters: each of the six other names gives the
/// method of that same name, and anything else, or no method string, gives
/// `GET`.
pub proof fn law_method_named(req: JsonModel, m: Seq<char>)
    requires
        as_str_spec(option_spec(req, "method"@)) == Some(m),
    ensures
        ascii_upper_seq(m) == "POST"@ ==> method_spec(req) == HttpMethod::Post,
        ascii_upper_seq(m) == "PUT"@ ==> method_spec(req) == HttpMethod::Put,
        ascii_upper_seq(m) == "DELETE"@ ==> method_spec(req) == HttpMethod::Delete,
        ascii_upper_seq(m) == "PATCH"@ ==> method_spec(req) == HttpMethod::Patch,
        ascii_upper_seq(m) == "HEAD"@ ==> method_spec(req) == HttpMethod::Head,
        ascii_upper_seq(m) == "OPTIONS"@ ==> method_spec(req) == HttpMethod::Options,
        ascii_upper_seq(m) != "POST"@ && ascii_upper_seq(m) != "PUT"@ && ascii_upper_seq(m)
            != "DELETE"@ && ascii_upper_seq(m) != "PATCH"@ && ascii_upper_seq(m) != "HEAD"@
            && ascii_upper_seq(m) != "OPTIONS"@ ==> method_spec(req) == HttpMethod::Get,
{
    reveal_strlit("POST");
    reveal_strlit("PUT");
    reveal_strlit("DELETE");
    reveal_strlit("PATCH");
    reveal_strlit("HEAD");
    reveal_strlit("OPTIONS");
    assert("POST"@ != "PUT"@) by { assert("POST"@[1] != "PUT"@[1]); }
    assert("POST"@ != "DELETE"@) by { assert("POST"@[0] != "DELETE"@[0]); }
    assert("POST"@ != "PATCH"@) by { assert("POST"@[1] != "PATCH"@[1]); }
    assert("POST"@ != "HEAD"@) by { assert("POST"@[0] != "HEAD"@[0]); }
    assert("POST"@ != "OPTIONS"@) by { assert("POST"@[0] != "OPTIONS"@[0]); }
    assert("PUT"@ != "DELETE"@) by { assert("PUT"@[0] != "DELETE"@[0]); }
    assert("PUT"@ != "PATCH"@) by { assert("PUT"@[1] != "PATCH"@[1]); }
    assert("PUT"@ != "HEAD"@) by { assert("PUT"@[0] != "HEAD"@[0]); }
    assert("PUT"@ != "OPTIONS"@) by { assert("PUT"@[0] != "OPTIONS"@[0]); }
    assert("DELETE"@ != "PATCH"@) by { assert("DELETE"@[0] != "PATCH"@[0]); }
    assert("DELETE"@ != "HEAD"@) by { assert("DELETE"@[0] != "HEAD"@[0]); }
    assert("DELETE"@ != "OPTIONS"@) by { assert("DELETE"@[0] != "OPTIONS"@[0]); }
    assert("PATCH"@ != "HEAD"@) by { assert("PATCH"@[0] != "HEAD"@[0]); }
    assert("PATCH"@ != "OPTIONS"@) by { assert("PATCH"@[0] != "OPTIONS"@[0]); }
    assert("HEAD"@ != "OPTIONS"@) by { assert("HEAD"@[0] != "OPTIONS"@[0]); }
}

/// A request without a method string is forwarded as `GET`.
pub proof fn law_method_default(req: JsonModel)
    requires
        as_str_spec(option_spec(req, "method"@)) is None,
    ensures
        method_spec(req) == HttpMethod::Get,
{
    reveal_strlit("GET");
    reveal_strlit("POST");
    reveal_strlit("PUT");
    reveal_strlit("DELETE");
    reveal_strlit("PATCH");
    reveal_strlit("HEAD");
    reveal_strlit("OPTIONS");
    assert("GET"@ != "POST"@) by { assert("GET"@[0] != "POST"@[0]); }
    assert("GET"@ != "PUT"@) by { assert("GET"@[0] != "PUT"@[0]); }
    assert("GET"@ != "DELETE"@) by { assert("GET"@[0] != "DELETE"@[0]); }
    assert("GET"@ != "PATCH"@) by { assert("GET"@[0] != "PATCH"@[0]); }
    assert("GET"@ != "HEAD"@) by { assert("GET"@[0] != "HEAD"@[0]); }
    assert("GET"@ != "OPTIONS"@) by { assert("GET"@[0] != "OPTIONS"@[0]); }
}

/// The header value text of a JSON value: strings as is, numbers and booleans
/// as their JSON text, nothing for other values.
pub open spec fn header_value_spec(v: JsonModel) -> Option<Seq<char>> {
    match v {
        JsonModel::Str(s) => Some(s),
        JsonModel::Number(t) => Some(t),
        JsonModel::Bool(b) => Some(
            if b {
                "true"@
            } else {
                "false"@
            },
        ),
        _ => None,
    }
}

/// The headers forwarded from object entries `es`: those with a usable value
/// and a valid name, in order.
pub open spec fn header_pairs(es: Seq<(Seq<char>, JsonModel)>) -> Seq<(Seq<char>, Seq<char>)>
    decreases es.len(),
{
    if es.len() == 0 {
        seq![]
    } else {
        let rest = header_pairs(es.drop_last());
        let (k, v) = es.last();
        match header_value_spec(v) {
            Some(t) => if valid_header_name(k) {
                rest.push((k, t))
            } else {
                rest
            },
            None => rest,
        }
    }
}

/// The headers the request asks for.
pub open spec fn headers_spec(req: JsonModel) -> Seq<(Seq<char>, Seq<char>)> {
    match option_spec(req, "headers"@) {
        Some(JsonModel::Object(es)) => header_pairs(es),
        _ => seq![],
    }
}

/// The views of header pairs.
pub open spec fn pair_views(v: Seq<(String, String)>) -> Seq<(Seq<char>, Seq<char>)> {
    v.map_values(|p: (String, String)| (p.0@, p.1@))
}

/// The text of a header value.
fn header_value_text(v: &Json) -> (r: Option<String>)
    ensures
        r is Some <==> header_value_spec(v@) is Some,
        r matches Some(t) ==> t@ == header_value_spec(v@).unwrap(),
{
    match v {
        Json::Str(s) => Some(s.clone()),
        Json::Number(t) => Some(t.clone()),
        Json::Bool(b) => if *b {
            Some(crate::text::copy_str("true"))
        } else {
            Some(crate::text::copy_str("false"))
        },
        _ => None,
    }
}

/// The member `key` of the request's options.
fn option_member<'a>(req: &'a Json, key: &str) -> (r: Option<&'a Json>)
    ensures
        r is Some <==> option_spec(req@, key@) is Some,
        r matches Some(v) ==> option_spec(req@, key@) == Some(v@),
{
    match req.get("options") {
        Some(o) => o.get(key),
        None => None,
    }
}

/// Reads a fetch request (the first half of `handle_fetch`); `None` when it
/// names no URL, in which case nothing is fetched and nothing is replied.
pub fn parse_fetch_request(req: &Json) -> (r: Option<FetchRequest>)
    ensures
        r is Some <==> (as_str_spec(get_spec(req@, "url"@)) matches Some(u) && u.len() > 0),
        r matches Some(f) ==> {
            &&& f.url@ == as_str_spec(get_spec(req@, "url"@)).unwrap()
            &&& f.id@ == id_spec(req@)
            &&& f.method == method_spec(req@)
            &&& (f.body is Some <==> as_str_spec(option_spec(req@, "body"@)) is Some)
            &&& (f.body matches Some(b) ==> b@ == as_str_spec(option_spec(req@, "body"@)).unwrap())
            &&& pair_views(f.headers@) == headers_spec(req@)
        },
{
    let id = match req.get("id") {
        Some(v) => match v.as_str() {
            Some(s) => s.clone(),
            None => crate::json::to_text(v),
        },
        None => String::new(),
    };
    let url = match req.get("url") {
        Some(v) => match v.as_str() {
            Some(s) => s.clone(),
            None => String::new(),
        },
        None => String::new(),
    };
    if url.as_str().is_empty() {
        return None;
    }
    let method_text = match option_member(req, "method") {
        Some(v) => match v.as_str() {
            Some(s) => crate::text::ascii_uppercase(&chars_of(s.as_str())),
            None => chars_of("GET"),
        },
        None => chars_of("GET"),
    };
    let method = if crate::text::chars_eq(&method_text, &chars_of("POST")) {
        HttpMethod::Post
    } else if crate::text::chars_eq(&method_text, &chars_of("PUT")) {
        HttpMethod::Put
    } else if crate::text::chars_eq(&method_text, &chars_of("DELETE")) {
        HttpMethod::Delete
    } else if crate::text::chars_eq(&method_text, &chars_of("PATCH")) {
        HttpMethod::Patch
    } else if crate::text::chars_eq(&method_text, &chars_of("HEAD")) {
        HttpMethod::Head
    } else if crate::text::chars_eq(&method_text, &chars_of("OPTIONS")) {
        HttpMethod::Options
    } else {
        HttpMethod::Get
    };
    let body = match option_member(req, "body") {
        Some(v) => match v.as_str() {
            Some(s) => Some(s.clone()),
            None => None,
        },
        None => None,
    };
    let mut headers: Vec<(String, String)> = Vec::new();
    match option_member(req, "headers") {
        Some(h) => match h.as_object() {
            Some(es) => {
                let n = es.len();
                proof {
                    lemma_entry_models(es@);
                }
                for i in 0..n
                    invariant
                        n == es@.len(),
                        entry_models(es@).len() == n,
                        forall|t: int|
                            0 <= t < n ==> #[trigger] entry_models(es@)[t] == (
                                es@[t].0@,
                                crate::json::json_model(es@[t].1),
                            ),
                        pair_views(headers@) == header_pairs(entry_models(es@).take(i as int)),
                {
                    let ghost ms = entry_models(es@);
                    assert(ms.take(i + 1).drop_last() =~= ms.take(i as int));
                    match header_value_text(&es[i].1) {
                        Some(t) => {
                            if header_name_ok(es[i].0.as_str()) {
                                headers.push((es[i].0.clone(), t));
                                assert(pair_views(headers@) =~= header_pairs(ms.take(i as int)).push(
                                    (es@[i as int].0@, t@),
                                ));
                            }
                        },
                        None => {},
                    }
                }
                assert(entry_models(es@).take(n as int) =~= entry_models(es@));
            },
            None => {},
        },
        None => {},
    }
    Some(FetchRequest { id, url, method, body, headers })
}

/// `HeaderValue::to_str` succeeds: every byte is visible ASCII or a tab.
pub open spec fn visible_ascii(b: Seq<u8>) -> bool {
    forall|i: int| 0 <= i < b.len() ==> (32 <= #[trigger] b[i] < 127 || b[i] == 9)
}

/// The characters of ASCII bytes.
pub open spec fn ascii_chars(b: Seq<u8>) -> Seq<char> {
    b.map_values(|x: u8| x as char)
}

/// The reply's header entries for response headers `pairs`: each header whose
/// value is text, in the order given. (Written as a JSON object, they keep one
/// entry per name, the last, as `serde_json`'s map does.)
pub open spec fn text_headers(pairs: Seq<(Seq<char>, Seq<u8>)>) -> Seq<(Seq<char>, JsonModel)>
    decreases pairs.len(),
{
    if pairs.len() == 0 {
        seq![]
    } else if visible_ascii(pairs.last().1) {
        text_headers(pairs.drop_last()).push(
            (pairs.last().0, JsonModel::Str(ascii_chars(pairs.last().1))),
        )
    } else {
        text_headers(pairs.drop_last())
    }
}

/// The views of raw response headers.
pub open spec fn raw_views(v: Seq<(String, Vec<u8>)>) -> Seq<(Seq<char>, Seq<u8>)> {
    v.map_values(|p: (String, Vec<u8>)| (p.0@, p.1@))
}

/// The text of a header value when it is visible ASCII (`HeaderValue::to_str`).
pub fn header_text(b: &Vec<u8>) -> (r: Option<String>)
    ensures
        r is Some <==> visible_ascii(b@),
        r matches Some(t) ==> t@ == ascii_chars(b@),
{
    let mut out: Vec<char> = Vec::new();
    let n = b.len();
    for i in 0..n
        invariant
            n == b@.len(),
            out@ == ascii_chars(b@.take(i as int)),
            visible_ascii(b@.take(i as int)),
    {
        let x = b[i];
        if !(x >= 32 && x < 127 || x == 9) {
            assert(b@.take(i + 1)[i as int] == x);
            assert(!visible_ascii(b@)) by {
                assert(b@[i as int] == x);
            }
            return None;
        }
        out.push(x as char);
        assert(ascii_chars(b@.take(i + 1)) =~= ascii_chars(b@.take(i as int)).push(x as char));
        assert(visible_ascii(b@.take(i + 1))) by {
            assert forall|t: int| 0 <= t < i + 1 implies (32 <= #[trigger] b@.take(i + 1)[t] < 127
                || b@.take(i + 1)[t] == 9) by {
                if t < i {
                    assert(b@.take(i + 1)[t] == b@.take(i as int)[t]);
                }
            }
        }
    }
    assert(b@.take(n as int) =~= b@);
    Some(string_of(&out))
}

/// The reply's header entries built from the response headers.
pub fn reply_headers(raw: &Vec<(String, Vec<u8>)>) -> (r: Vec<(String, Json)>)
    ensures
        entry_models(r@) == text_headers(raw_views(raw@)),
{
    let mut es: Vec<(String, Json)> = Vec::new();
    let n = raw.len();
    for i in 0..n
        invariant
            n == raw@.len(),
            entry_models(es@) == text_headers(raw_views(raw@.take(i as int))),
    {
        let ghost before = raw_views(raw@.take(i as int));
        let ghost after = raw_views(raw@.take(i + 1));
        assert(after.drop_last() =~= before);
        assert(after.last() == (raw@[i as int].0@, raw@[i as int].1@));
        match header_text(&raw[i].1) {
            Some(t) => {
                let ghost old_es = es@;
                let ghost entry = (raw@[i as int].0@, JsonModel::Str(t@));
                let ghost tv = t@;
                es.push((raw[i].0.clone(), Json::Str(t)));
                assert(es@.drop_last() =~= old_es);
                assert(es@.last().0@ == raw@[i as int].0@);
                assert(json_model(es@.last().1) == JsonModel::Str(tv));
                assert(entry_models(es@) == entry_models(old_es).push(entry));
                assert(text_headers(after) == text_headers(before).push(entry));
            },
            None => {
                assert(text_headers(after) == text_headers(before));
            },
        }
    }
    assert(raw@.take(n as int) =~= raw@);
    es
}

/// UTF-8 length of one character.
pub open spec fn char_utf8_len(c: char) -> nat {
    if (c as u32) < 0x80 {
        1
    } else if (c as u32) < 0x800 {
        2
    } else if (c as u32) < 0x10000 {
        3
    } else {
        4
    }
}

/// UTF-8 length of a text (`str::len`).
pub open spec fn utf8_len(s: Seq<char>) -> nat
    decreases s.len(),
{
    if s.len() == 0 {
        0
    } else {
        utf8_len(s.drop_last()) + char_utf8_len(s.last())
    }
}

/// Longer prefixes have longer encodings.
pub proof fn lemma_utf8_len_grows(s: Seq<char>, i: int, j: int)
    requires
        0 <= i < j <= s.len(),
    ensures
        utf8_len(s.take(i)) < utf8_len(s.take(j)),
    decreases j - i,
{
    assert(s.take(j).drop_last() =~= s.take(j - 1));
    if i < j - 1 {
        lemma_utf8_len_grows(s, i, j - 1);
    }
}

/// `cut` is the longest prefix of `s` whose UTF-8 encoding takes at most
/// [`MAX_BODY_LEN`] bytes: the body cut at the last character boundary at or
/// below the limit.
pub open spec fn body_cut(s: Seq<char>, cut: Seq<char>) -> bool {
    &&& cut.len() <= s.len()
    &&& cut == s.take(cut.len() as int)
    &&& utf8_len(cut) <= MAX_BODY_LEN
    &&& cut.len() < s.len() ==> utf8_len(s.take((cut.len() + 1) as int)) > MAX_BODY_LEN
}

/// A body cut is a function of the body: there is at most one.
pub proof fn lemma_body_cut_unique(s: Seq<char>, a: Seq<char>, b: Seq<char>)
    requires
        body_cut(s, a),
        body_cut(s, b),
    ensures
        a == b,
{
    if a.len() < b.len() {
        if a.len() + 1 < b.len() {
            lemma_utf8_len_grows(s, (a.len() + 1) as int, b.len() as int);
        }
        assert(s.take(b.len() as int) == b);
    } else if b.len() < a.len() {
        if b.len() + 1 < a.len() {
            lemma_utf8_len_grows(s, (b.len() + 1) as int, a.len() as int);
        }
        assert(s.take(a.len() as int) == a);
    }
}

/// A body that fits is kept whole, and a longer one whose byte
/// [`MAX_BODY_LEN`] falls on a character boundary is cut exactly there.
pub proof fn law_body_cut_at_boundary(s: Seq<char>, cut: Seq<char>, k: int)
    requires
        body_cut(s, cut),
        0 <= k <= s.len(),
        utf8_len(s.take(k)) == MAX_BODY_LEN || (k == s.len() && utf8_len(s) <= MAX_BODY_LEN),
    ensures
        cut == s.take(k),
{
    assert(s.take(s.len() as int) =~= s);
    if k < s.len() {
        lemma_utf8_len_grows(s, k, k + 1);
    }
    assert(s.take(k).len() == k);
    assert(s.take(k) =~= s.take(s.take(k).len() as int));
    lemma_body_cut_unique(s, cut, s.take(k));
}

/// Cuts a body longer than [`MAX_BODY_LEN`] bytes at the last character
/// boundary at or below that length; a shorter body is kept whole.
pub fn truncate_body(s: &str) -> (r: String)
    ensures
        body_cut(s@, r@),
        utf8_len(s@) <= MAX_BODY_LEN ==> r@ == s@,
{
    let cs = chars_of(s);
    let n = cs.len();
    let mut k: usize = 0;
    let mut total: usize = 0;
    loop
        invariant
            n == cs@.len(),
            cs@ == s@,
            k <= n,
            total == utf8_len(s@.take(k as int)),
            total <= MAX_BODY_LEN,
        ensures
            k <= n,
            total == utf8_len(s@.take(k as int)),
            total <= MAX_BODY_LEN,
            k < n ==> total + char_utf8_len(s@[k as int]) > MAX_BODY_LEN,
        decreases n - k,
    {
        if k == n {
            break;
        }
        let c = cs[k];
        let w: usize = if (c as u32) < 0x80 {
            1
        } else if (c as u32) < 0x800 {
            2
        } else if (c as u32) < 0x10000 {
            3
        } else {
            4
        };
        if total + w > MAX_BODY_LEN {
            break;
        }
        assert(s@.take(k + 1).drop_last() =~= s@.take(k as int));
        total = total + w;
        k = k + 1;
    }
    if k == n {
        assert(s@.take(n as int) =~= s@);
        return crate::text::copy_str(s);
    }
    assert(s@.take(k + 1).drop_last() =~= s@.take(k as int));
    assert(utf8_len(s@.take(k + 1)) > MAX_BODY_LEN);
    proof {
        if utf8_len(s@) <= MAX_BODY_LEN {
            assert(s@.take(s@.len() as int) =~= s@);
            if k + 1 < s@.len() {
                lemma_utf8_len_grows(s@, k + 1, s@.len() as int);
            }
        }
    }
    let mut out: Vec<char> = Vec::new();
    for i in 0..k
        invariant
            k <= n,
            n == cs@.len(),
            cs@ == s@,
            out@ == s@.take(i as int),
    {
        out.push(cs[i]);
        assert(s@.take(i + 1) =~= s@.take(i as int).push(s@[i as int]));
    }
    assert(out@.len() == k);
    string_of(&out)
}

/// The text `String::from_utf8_lossy` makes of `bytes`.
pub uninterp spec fn lossy_text(bytes: Seq<u8>) -> Seq<char>;

/// `String::from_utf8_lossy`: the bytes decoded as UTF-8, each invalid
/// sequence replaced by U+FFFD; on valid UTF-8 that is the plain decoding.
#[verifier::external_body]
fn decode_lossy(bytes: &[u8]) -> (r: String)
    ensures
        r@ == lossy_text(bytes@),
        valid_utf8(bytes@) ==> r@ == decode_utf8(bytes@),
{
    String::from_utf8_lossy(bytes).into_owned()
}

/// The reply to request `id`: HTTP `status`, header object `hs`, `body`.
pub open spec fn reply_model(
    id: Seq<char>,
    status: u16,
    hs: Seq<(Seq<char>, JsonModel)>,
    body: Seq<char>,
) -> JsonModel {
    JsonModel::Object(
        seq![
            ("id"@, JsonModel::Str(id)),
            (
                "resp"@,
                JsonModel::Object(
                    seq![
                        ("body"@, JsonModel::Str(body)),
                        ("headers"@, JsonModel::Object(hs)),
                        ("ok"@, JsonModel::Bool(200 <= status < 300)),
                        ("status"@, JsonModel::Number(dec_text(status as nat))),
                    ],
                ),
            ),
            ("tag"@, JsonModel::Str("fetch"@)),
        ],
    )
}

/// The reply text for a response already decoded to text (the rest of
/// `handle_fetch` after the body is decoded): the body is cut as
/// [`body_cut`] says.
pub fn fetch_reply(id: &str, status: u16, raw_headers: &Vec<(String, Vec<u8>)>, body: &str) -> (r:
    String)
    ensures
        exists|cut: Seq<char>|
            {
                &&& body_cut(body@, cut)
                &&& r@ == json_text(reply_model(id@, status, text_headers(raw_views(raw_headers@)), cut))
            },
{
    let text = truncate_body(body);
    let ghost cut = text@;
    let hs = reply_headers(raw_headers);
    let ghost hsm = entry_models(hs@);
    let mut inner: Vec<(String, Json)> = Vec::new();
    inner.push((crate::text::copy_str("body"), Json::Str(text)));
    inner.push((crate::text::copy_str("headers"), Json::Object(hs)));
    inner.push((crate::text::copy_str("ok"), Json::Bool(200 <= status && status < 300)));
    inner.push(
        (crate::text::copy_str("status"), Json::Number(string_of(&crate::text::u64_text(status as u64)))),
    );
    let ghost inner_v = inner@;
    proof {
        lemma_entry_models(inner_v);
        assert(entry_models(inner_v) =~= seq![
            ("body"@, JsonModel::Str(cut)),
            ("headers"@, JsonModel::Object(hsm)),
            ("ok"@, JsonModel::Bool(200 <= status < 300)),
            ("status"@, JsonModel::Number(dec_text(status as nat))),
        ]);
    }
    let mut outer: Vec<(String, Json)> = Vec::new();
    outer.push((crate::text::copy_str("id"), Json::Str(crate::text::copy_str(id))));
    outer.push((crate::text::copy_str("resp"), Json::Object(inner)));
    outer.push((crate::text::copy_str("tag"), Json::Str(crate::text::copy_str("fetch"))));
    let reply = Json::Object(outer);
    proof {
        lemma_entry_models(outer@);
        assert(entry_models(outer@) =~= seq![
            ("id"@, JsonModel::Str(id@)),
            ("resp"@, JsonModel::Object(entry_models(inner_v))),
            ("tag"@, JsonModel::Str("fetch"@)),
        ]);
        assert(reply@ == reply_model(id@, status, hsm, cut));
    }
    let r = crate::json::to_text(&reply);
    assert(body_cut(body@, cut));
    assert(r@ == json_text(reply_model(id@, status, text_headers(raw_views(raw_headers@)), cut)));
    r
}

/// The reply text for a response whose body arrived as `body` bytes: the body
/// is decoded (`String::from_utf8_lossy`) and handed to [`fetch_reply`].
pub fn fetch_ok_reply(id: &str, status: u16, raw_headers: &Vec<(String, Vec<u8>)>, body: &Vec<u8>) -> (r:
    String)
    ensures
        exists|cut: Seq<char>|
            {
                &&& body_cut(lossy_text(body@), cut)
                &&& r@ == json_text(reply_model(id@, status, text_headers(raw_views(raw_headers@)), cut))
            },
{
    let text = decode_lossy(body.as_slice());
    fetch_reply(id, status, raw_headers, text.as_str())
}

/// The reply text when the request failed with error text `err`.
pub fn fetch_error_reply(id: &str, err: &str) -> (r: String)
    ensures
        r@ == json_text(reply_model(id@, 0, seq![], err@)),
{
    let mut inner: Vec<(String, Json)> = Vec::new();
    inner.push((crate::text::copy_str("body"), Json::Str(crate::text::copy_str(err))));
    let no_headers: Vec<(String, Json)> = Vec::new();
    proof {
        assert(entry_models(no_headers@) =~= seq![]);
    }
    inner.push((crate::text::copy_str("headers"), Json::Object(no_headers)));
    inner.push((crate::text::copy_str("ok"), Json::Bool(false)));
    let zero = string_of(&crate::text::u64_text(0));
    inner.push((crate::text::copy_str("status"), Json::Number(zero)));
    let ghost inner_v = inner@;
    proof {
        lemma_entry_models(inner_v);
        assert(entry_models(inner_v) =~= seq![
            ("body"@, JsonModel::Str(err@)),
            ("headers"@, JsonModel::Object(seq![])),
            ("ok"@, JsonModel::Bool(false)),
            ("status"@, JsonModel::Number(dec_text(0))),
        ]);
    }
    let mut outer: Vec<(String, Json)> = Vec::new();
    outer.push((crate::text::copy_str("id"), Json::Str(crate::text::copy_str(id))));
    outer.push((crate::text::copy_str("resp"), Json::Object(inner)));
    outer.push((crate::text::copy_str("tag"), Json::Str(crate::text::copy_str("fetch"))));
    let reply = Json::Object(outer);
    proof {
        lemma_entry_models(outer@);
        assert(entry_models(outer@) =~= seq![
            ("id"@, JsonModel::Str(id@)),
            ("resp"@, JsonModel::Object(entry_models(inner_v))),
            ("tag"@, JsonModel::Str("fetch"@)),
        ]);
        let e: Seq<(Seq<char>, JsonModel)> = seq![];
        let m = reply_model(id@, 0, e, err@);
        let rm = m->Object_0[1].1->Object_0;
        assert(rm[0] == entry_models(inner_v)[0]);
        assert(rm[1] == entry_models(inner_v)[1]);
        assert(rm[2] == entry_models(inner_v)[2]);
        assert(rm[3] == entry_models(inner_v)[3]);
        assert(rm =~= entry_models(inner_v));
        assert(reply@ == m);
    }
    crate::json::to_text(&reply)
}

/// A reply answers request `id` and carries the response: `ok` exactly for
/// a 2xx status, the status, the body and the header entries.
pub proof fn law_reply_fields(id: Seq<char>, status: u16, hs: Seq<(Seq<char>, JsonModel)>, body: Seq<char>)
    ensures
        get_spec(reply_model(id, status, hs, body), "tag"@) == Some(JsonModel::Str("fetch"@)),
        get_spec(reply_model(id, status, hs, body), "id"@) == Some(JsonModel::Str(id)),
        get_spec(reply_model(id, status, hs, body), "resp"@) matches Some(resp) && get_spec(
            resp,
            "ok"@,
        ) == Some(JsonModel::Bool(200 <= status && status < 300)) && get_spec(resp, "status"@)
            == Some(JsonModel::Number(dec_text(status as nat))) && get_spec(resp, "body"@) == Some(
            JsonModel::Str(body),
        ) && get_spec(resp, "headers"@) == Some(JsonModel::Object(hs)),
{
    reveal_strlit("tag");
    reveal_strlit("id");
    reveal_strlit("resp");
    reveal_strlit("ok");
    reveal_strlit("status");
    reveal_strlit("body");
    reveal_strlit("headers");
    let es = reply_model(id, status, hs, body)->Object_0;
    assert("id"@ != "resp"@) by { assert("id"@[0] != "resp"@[0]); }
    assert("id"@ != "tag"@) by { assert("id"@[0] != "tag"@[0]); }
    assert("resp"@ != "tag"@) by { assert("resp"@[0] != "tag"@[0]); }
    crate::json::lemma_lookup_first(es, "id"@, 0);
    crate::json::lemma_lookup_first(es, "resp"@, 1);
    crate::json::lemma_lookup_first(es, "tag"@, 2);
    let rs = es[1].1->Object_0;
    assert("body"@ != "headers"@) by { assert("body"@[0] != "headers"@[0]); }
    assert("body"@ != "ok"@) by { assert("body"@[0] != "ok"@[0]); }
    assert("body"@ != "status"@) by { assert("body"@[0] != "status"@[0]); }
    assert("headers"@ != "ok"@) by { assert("headers"@[0] != "ok"@[0]); }
    assert("headers"@ != "status"@) by { assert("headers"@[0] != "status"@[0]); }
    assert("ok"@ != "status"@) by { assert("ok"@[0] != "status"@[0]); }
    crate::json::lemma_lookup_first(rs, "body"@, 0);
    crate::json::lemma_lookup_first(rs, "headers"@, 1);
    crate::json::lemma_lookup_first(rs, "ok"@, 2);
    crate::json::lemma_lookup_first(rs, "status"@, 3);
}

} // verus!
