//! Observability back ends (Prometheus and VictoriaMetrics): the URLs queries go to and how
//! their JSON answers are read.
//!
//! Numbers in answers are kept as the text the server sent; the caller turns them into times
//! and floating-point values.

use crate::config::schema::AIOpsProviderConfig;
use crate::json::{
    index_in, json_array, json_get, json_index, json_str, json_u64, or_null, str_in, str_view,
    JsonValue,
};
use crate::text::{decimal, push_char, push_str, str_eq, to_chars, u64_to_decimal};
use vstd::prelude::*;

verus! {

/// How many times a query is retried, how long it may take, whether it may be cached.
#[derive(Debug, Clone, Copy)]
pub struct QueryOptions {
    pub timeout_secs: Option<u64>,
    pub retry_attempts: Option<u32>,
    pub cache: bool,
}

impl QueryOptions {
    pub fn new() -> (o: QueryOptions)
        ensures
            o.timeout_secs is None,
            o.retry_attempts is None,
            !o.cache,
    {
        QueryOptions { timeout_secs: None, retry_attempts: None, cache: false }
    }

    pub fn with_timeout(self, secs: u64) -> (o: QueryOptions)
        ensures
            o.timeout_secs == Some(secs),
            o.retry_attempts == self.retry_attempts,
            o.cache == self.cache,
    {
        QueryOptions { timeout_secs: Some(secs), ..self }
    }

    pub fn with_retry(self, attempts: u32) -> (o: QueryOptions)
        ensures
            o.retry_attempts == Some(attempts),
            o.timeout_secs == self.timeout_secs,
            o.cache == self.cache,
    {
        QueryOptions { retry_attempts: Some(attempts), ..self }
    }

    pub fn with_cache(self, enable: bool) -> (o: QueryOptions)
        ensures
            o.cache == enable,
            o.timeout_secs == self.timeout_secs,
            o.retry_attempts == self.retry_attempts,
    {
        QueryOptions { cache: enable, ..self }
    }
}

/// The two back ends.
#[derive(Debug, Clone, Copy, PartialEq, Eq, Structural)]
pub enum AIOpsKind {
    VictoriaMetrics,
    Prometheus,
}

/// Why a back end cannot be used.
#[derive(Debug, Clone, PartialEq, Eq)]
pub enum AIOpsError {
    /// The provider type is unknown; carries it.
    UnknownProvider(String),
    /// The answer does not hold `data.result` as an array (or, for logs, is not an array).
    InvalidResponse,
}

pub open spec fn aiops_kind(t: Seq<char>) -> Option<AIOpsKind> {
    if t == "victoria"@ || t == "victoriametrics"@ {
        Some(AIOpsKind::VictoriaMetrics)
    } else if t == "prometheus"@ {
        Some(AIOpsKind::Prometheus)
    } else {
        None
    }
}

/// Chooses back ends.
pub struct AIOpsProviderFactory;

impl AIOpsProviderFactory {
    /// The back end a provider entry names.
    pub fn create(_name: &str, config: &AIOpsProviderConfig) -> (r: Result<AIOpsKind, AIOpsError>)
        ensures
            match aiops_kind(config.provider_type@) {
                Some(k) => r == Ok::<AIOpsKind, AIOpsError>(k),
                None => r matches Err(AIOpsError::UnknownProvider(t)) && t@ == config.provider_type@,
            },
    {
        let t = config.provider_type.as_str();
        if str_eq(t, "victoria") || str_eq(t, "victoriametrics") {
            Ok(AIOpsKind::VictoriaMetrics)
        } else if str_eq(t, "prometheus") {
            Ok(AIOpsKind::Prometheus)
        } else {
            Err(AIOpsError::UnknownProvider(config.provider_type.clone()))
        }
    }

    /// The back ends of the enabled entries, in order; the first unknown type among them is
    /// an error.
    pub fn create_all(configs: &Vec<(String, AIOpsProviderConfig)>) -> (r: Result<
        Vec<(String, AIOpsKind)>,
        AIOpsError,
    >)
        ensures
            match enabled_kinds(configs@) {
                Ok(ks) => r matches Ok(v) && v@.len() == ks.len() && forall|i: int|
                    0 <= i < ks.len() ==> (#[trigger] v@[i]).0@ == ks[i].0 && v@[i].1 == ks[i].1,
                Err(t) => r matches Err(AIOpsError::UnknownProvider(u)) && u@ == t,
            },
    {
        let mut r: Vec<(String, AIOpsKind)> = Vec::new();
        let mut i: usize = 0;
        while i < configs.len()
            invariant
                i <= configs@.len(),
                enabled_kinds(configs@.take(i as int)) matches Ok(ks) && r@.len() == ks.len()
                    && forall|j: int|
                    0 <= j < ks.len() ==> (#[trigger] r@[j]).0@ == ks[j].0 && r@[j].1 == ks[j].1,
            decreases configs.len() - i,
        {
            assert(configs@.take(i + 1).drop_last() =~= configs@.take(i as int));
            if configs[i].1.enabled {
                match Self::create(configs[i].0.as_str(), &configs[i].1) {
                    Ok(k) => {
                        r.push((configs[i].0.clone(), k));
                    },
                    Err(e) => {
                        proof {
                            lemma_enabled_kinds_err(configs@, i as int + 1);
                        }
                        return Err(e);
                    },
                }
            }
            i = i + 1;
        }
        assert(configs@.take(i as int) =~= configs@);
        Ok(r)
    }
}

/// The enabled entries with their back ends, or the first unknown type among them.
pub open spec fn enabled_kinds(s: Seq<(String, AIOpsProviderConfig)>) -> Result<
    Seq<(Seq<char>, AIOpsKind)>,
    Seq<char>,
>
    decreases s.len(),
{
    if s.len() == 0 {
        Ok(Seq::empty())
    } else {
        match enabled_kinds(s.drop_last()) {
            Err(t) => Err(t),
            Ok(ks) => if !s.last().1.enabled {
                Ok(ks)
            } else {
                match aiops_kind(s.last().1.provider_type@) {
                    Some(k) => Ok(ks.push((s.last().0@, k))),
                    None => Err(s.last().1.provider_type@),
                }
            },
        }
    }
}

proof fn lemma_enabled_kinds_err(s: Seq<(String, AIOpsProviderConfig)>, n: int)
    requires
        0 <= n <= s.len(),
        enabled_kinds(s.take(n)) is Err,
    ensures
        enabled_kinds(s) == enabled_kinds(s.take(n)),
    decreases s.len(),
{
    if n < s.len() {
        assert(s.drop_last().take(n) =~= s.take(n));
        lemma_enabled_kinds_err(s.drop_last(), n);
    } else {
        assert(s.take(n) =~= s);
    }
}

/// The endpoint without trailing slashes.
pub open spec fn trim_slashes(s: Seq<char>) -> Seq<char>
    decreases s.len(),
{
    if s.len() > 0 && s.last() == '/' {
        trim_slashes(s.drop_last())
    } else {
        s
    }
}

/// An endpoint without trailing slashes.
pub fn endpoint_base(endpoint: &str) -> (r: String)
    ensures
        r@ == trim_slashes(endpoint@),
{
    let v = to_chars(endpoint);
    let mut end = v.len();
    assert(v@.take(end as int) =~= v@);
    while end > 0 && v[end - 1] == '/'
        invariant
            end <= v@.len(),
            v@ == endpoint@,
            trim_slashes(endpoint@) == trim_slashes(v@.take(end as int)),
        decreases end,
    {
        assert(v@.take(end as int).drop_last() =~= v@.take(end - 1));
        end = end - 1;
    }
    let t = crate::text::slice_chars(v.as_slice(), 0, end);
    crate::text::from_chars(t.as_slice())
}

/// Characters sent as they are in a URL query.
pub open spec fn unreserved(c: char) -> bool {
    ('A' <= c <= 'Z') || ('a' <= c <= 'z') || ('0' <= c <= '9') || c == '-' || c == '_' || c
        == '.' || c == '~'
}

/// An upper-case hexadecimal digit.
pub open spec fn hex_digit(d: u8) -> char {
    if d < 10 {
        ((48 + d) as u8) as char
    } else {
        ((55 + d) as u8) as char
    }
}

/// `%XX` for each byte.
pub open spec fn percent_bytes(bs: Seq<u8>) -> Seq<char>
    decreases bs.len(),
{
    if bs.len() == 0 {
        Seq::empty()
    } else {
        percent_bytes(bs.drop_last()) + seq!['%', hex_digit(bs.last() / 16), hex_digit(bs.last() % 16)]
    }
}

/// Percent-encoding: unreserved characters as they are, every other character as its UTF-8
/// bytes in `%XX` form.
pub open spec fn url_encoded(s: Seq<char>) -> Seq<char>
    decreases s.len(),
{
    if s.len() == 0 {
        Seq::empty()
    } else {
        url_encoded(s.drop_last()) + if unreserved(s.last()) {
            seq![s.last()]
        } else {
            percent_bytes(vstd::utf8::encode_utf8(seq![s.last()]))
        }
    }
}

/// An upper-case hexadecimal digit character.
pub open spec fn is_hex_char(c: char) -> bool {
    ('0' <= c <= '9') || ('A' <= c <= 'F')
}

/// The value of an upper-case hexadecimal digit character.
pub open spec fn hex_value(c: char) -> int {
    if '0' <= c <= '9' {
        c as int - 48
    } else {
        c as int - 55
    }
}

/// Percent-decoding, read from the end: a trailing `%XX` is the byte `XX`, any other trailing
/// character stands for its UTF-8 bytes.
pub open spec fn url_decoded(t: Seq<char>) -> Seq<u8>
    decreases t.len(),
{
    if t.len() == 0 {
        Seq::empty()
    } else if t.len() >= 3 && t[t.len() - 3] == '%' && is_hex_char(t[t.len() - 2]) && is_hex_char(
        t[t.len() - 1],
    ) {
        url_decoded(t.take(t.len() - 3)) + seq![
            (hex_value(t[t.len() - 2]) * 16 + hex_value(t[t.len() - 1])) as u8,
        ]
    } else {
        url_decoded(t.drop_last()) + vstd::utf8::encode_utf8(seq![t.last()])
    }
}

/// Every `%` of the text starts a complete `%XX` group.
spec fn escapes_complete(t: Seq<char>) -> bool {
    forall|i: int| 0 <= i < t.len() && #[trigger] t[i] == '%' ==> i + 3 <= t.len()
}

proof fn lemma_hex_digit(d: u8)
    requires
        d < 16,
    ensures
        is_hex_char(hex_digit(d)),
        hex_digit(d) != '%',
        hex_value(hex_digit(d)) == d,
{
}

proof fn lemma_encode_utf8_concat(a: Seq<char>, b: Seq<char>)
    ensures
        vstd::utf8::encode_utf8(a + b) == vstd::utf8::encode_utf8(a) + vstd::utf8::encode_utf8(b),
    decreases a.len(),
{
    if a.len() == 0 {
        assert(a + b =~= b);
    } else {
        lemma_encode_utf8_concat(a.drop_first(), b);
        assert((a + b).drop_first() =~= a.drop_first() + b);
        assert((a + b)[0] == a[0]);
    }
}

proof fn lemma_decode_escapes(e: Seq<char>, bs: Seq<u8>)
    requires
        escapes_complete(e),
    ensures
        url_decoded(e + percent_bytes(bs)) == url_decoded(e) + bs,
        escapes_complete(e + percent_bytes(bs)),
    decreases bs.len(),
{
    if bs.len() == 0 {
        assert(e + percent_bytes(bs) =~= e);
        assert(url_decoded(e) + bs =~= url_decoded(e));
    } else {
        let b = bs.last();
        lemma_decode_escapes(e, bs.drop_last());
        lemma_hex_digit(b / 16);
        lemma_hex_digit(b % 16);
        let x = e + percent_bytes(bs.drop_last());
        let t = e + percent_bytes(bs);
        assert(t =~= x + seq!['%', hex_digit(b / 16), hex_digit(b % 16)]);
        assert(t.take(t.len() - 3) =~= x);
        assert((hex_value(hex_digit(b / 16)) * 16 + hex_value(hex_digit(b % 16))) as u8 == b);
        assert(url_decoded(t) =~= url_decoded(e) + bs);
        assert forall|i: int| 0 <= i < t.len() && #[trigger] t[i] == '%' implies i + 3 <= t.len() by {
            if i < x.len() {
                assert(t[i] == x[i]);
            }
        }
    }
}

proof fn lemma_decode_encoded(s: Seq<char>)
    ensures
        url_decoded(url_encoded(s)) == vstd::utf8::encode_utf8(s),
        escapes_complete(url_encoded(s)),
    decreases s.len(),
{
    if s.len() == 0 {
        assert(vstd::utf8::encode_utf8(s) =~= Seq::<u8>::empty());
    } else {
        let c = s.last();
        lemma_decode_encoded(s.drop_last());
        let e = url_encoded(s.drop_last());
        assert(s =~= s.drop_last() + seq![c]);
        lemma_encode_utf8_concat(s.drop_last(), seq![c]);
        if unreserved(c) {
            let t = e + seq![c];
            assert(t.drop_last() =~= e);
            if t.len() >= 3 && t[t.len() - 3] == '%' {
                assert(e[e.len() - 2] == '%');
            }
            assert forall|i: int| 0 <= i < t.len() && #[trigger] t[i] == '%' implies i + 3 <= t.len() by {
                if i < e.len() {
                    assert(t[i] == e[i]);
                }
            }
        } else {
            lemma_decode_escapes(e, vstd::utf8::encode_utf8(seq![c]));
        }
    }
}

/// Decoding a percent-encoded query gives back the UTF-8 bytes of the query.
pub proof fn decoding_the_encoding_gives_the_bytes(s: Seq<char>)
    ensures
        url_decoded(url_encoded(s)) == vstd::utf8::encode_utf8(s),
{
    lemma_decode_encoded(s);
}

/// Every character of the text is unreserved, or a `%` followed by two upper-case
/// hexadecimal digits.
pub open spec fn only_unreserved_and_escapes(t: Seq<char>) -> bool {
    forall|i: int|
        0 <= i < t.len() ==> unreserved(#[trigger] t[i]) || (t[i] == '%' && i + 2 < t.len()
            && is_hex_char(t[i + 1]) && is_hex_char(t[i + 2]))
}

proof fn lemma_escapes_keep_alphabet(e: Seq<char>, bs: Seq<u8>)
    requires
        only_unreserved_and_escapes(e),
    ensures
        only_unreserved_and_escapes(e + percent_bytes(bs)),
    decreases bs.len(),
{
    if bs.len() == 0 {
        assert(e + percent_bytes(bs) =~= e);
    } else {
        let b = bs.last();
        lemma_escapes_keep_alphabet(e, bs.drop_last());
        lemma_hex_digit(b / 16);
        lemma_hex_digit(b % 16);
        let x = e + percent_bytes(bs.drop_last());
        let t = e + percent_bytes(bs);
        assert(t =~= x + seq!['%', hex_digit(b / 16), hex_digit(b % 16)]);
        assert forall|i: int| 0 <= i < t.len() implies unreserved(#[trigger] t[i]) || (t[i] == '%'
            && i + 2 < t.len() && is_hex_char(t[i + 1]) && is_hex_char(t[i + 2])) by {
            if i < x.len() {
                assert(t[i] == x[i]);
                if !unreserved(x[i]) {
                    assert(t[i + 1] == x[i + 1]);
                    assert(t[i + 2] == x[i + 2]);
                }
            }
        }
    }
}

/// The percent-encoding of a query holds only unreserved characters and `%XX` escapes with
/// upper-case hexadecimal digits.
pub proof fn encoding_uses_only_unreserved_and_escapes(s: Seq<char>)
    ensures
        only_unreserved_and_escapes(url_encoded(s)),
    decreases s.len(),
{
    if s.len() > 0 {
        let c = s.last();
        encoding_uses_only_unreserved_and_escapes(s.drop_last());
        let e = url_encoded(s.drop_last());
        if unreserved(c) {
            let t = e + seq![c];
            assert forall|i: int| 0 <= i < t.len() implies unreserved(#[trigger] t[i]) || (t[i]
                == '%' && i + 2 < t.len() && is_hex_char(t[i + 1]) && is_hex_char(t[i + 2])) by {
                if i < e.len() {
                    assert(t[i] == e[i]);
                    if !unreserved(e[i]) {
                        assert(t[i + 1] == e[i + 1]);
                        assert(t[i + 2] == e[i + 2]);
                    }
                }
            }
        } else {
            lemma_escapes_keep_alphabet(e, vstd::utf8::encode_utf8(seq![c]));
        }
    }
}

fn hex(d: u8) -> (c: char)
    requires
        d < 16,
    ensures
        c == hex_digit(d),
{
    if d < 10 {
        (48u8 + d) as char
    } else {
        (55u8 + d) as char
    }
}

/// Percent-encodes a query.
pub fn encode(input: &str) -> (r: String)
    ensures
        r@ == url_encoded(input@),
{
    let v = to_chars(input);
    let mut out = String::new();
    let mut i: usize = 0;
    while i < v.len()
        invariant
            i <= v@.len(),
            v@ == input@,
            out@ == url_encoded(v@.take(i as int)),
        decreases v.len() - i,
    {
        assert(v@.take(i + 1).drop_last() =~= v@.take(i as int));
        let c = v[i];
        if ('A' <= c && c <= 'Z') || ('a' <= c && c <= 'z') || ('0' <= c && c <= '9') || c == '-'
            || c == '_' || c == '.' || c == '~' {
            push_char(&mut out, c);
        } else {
            let mut one = String::new();
            push_char(&mut one, c);
            assert(one@ =~= seq![c]);
            let bytes = one.as_str().as_bytes();
            let ghost before = out@;
            let mut j: usize = 0;
            while j < bytes.len()
                invariant
                    j <= bytes@.len(),
                    bytes@ == vstd::utf8::encode_utf8(seq![c]),
                    out@ == before + percent_bytes(bytes@.take(j as int)),
                decreases bytes.len() - j,
            {
                assert(bytes@.take(j + 1).drop_last() =~= bytes@.take(j as int));
                let b = bytes[j];
                push_char(&mut out, '%');
                push_char(&mut out, hex(b / 16));
                push_char(&mut out, hex(b % 16));
                j = j + 1;
            }
            assert(bytes@.take(j as int) =~= bytes@);
        }
        assert(out@ =~= url_encoded(v@.take(i + 1)));
        i = i + 1;
    }
    assert(v@.take(i as int) =~= v@);
    out
}

} // verus!

verus! {

/// An integer as `{}` formats it.
pub open spec fn idecimal(x: int) -> Seq<char> {
    if x < 0 {
        "-"@ + decimal((-x) as nat)
    } else {
        decimal(x as nat)
    }
}

fn push_i64(s: &mut String, x: i64)
    ensures
        final(s)@ == old(s)@ + idecimal(x as int),
{
    if x < 0 {
        push_str(s, "-");
        let m: i128 = -(x as i128);
        push_str(s, u64_to_decimal(m as u64).as_str());
    } else {
        push_str(s, u64_to_decimal(x as u64).as_str());
    }
}

/// The URL of an instant query: at a given time (seconds), or for the encoded query.
pub open spec fn instant_url(base: Seq<char>, query: Seq<char>, time: Option<i64>) -> Seq<char> {
    match time {
        Some(t) => base + "/api/v1/query_at?time="@ + idecimal(t as int),
        None => base + "/api/v1/query?query="@ + url_encoded(query),
    }
}

pub fn instant_query_url(base: &str, query: &str, time: Option<i64>) -> (r: String)
    ensures
        r@ == instant_url(base@, query@, time),
{
    let mut s = base.to_string();
    match time {
        Some(t) => {
            push_str(&mut s, "/api/v1/query_at?time=");
            push_i64(&mut s, t);
        },
        None => {
            push_str(&mut s, "/api/v1/query?query=");
            push_str(&mut s, encode(query).as_str());
        },
    }
    s
}

/// Integer division rounding toward zero, as Rust's `/` does.
pub open spec fn div_toward_zero(a: int, b: int) -> int {
    if a >= 0 {
        a / b
    } else {
        -((-a) / b)
    }
}

/// The step of a range query: a hundredth of the range, at least one second.
pub open spec fn range_step(start: i64, end: i64) -> int {
    let q = div_toward_zero(end - start, 100);
    if q > 1 {
        q
    } else {
        1
    }
}

pub open spec fn range_url(base: Seq<char>, query: Seq<char>, start: i64, end: i64) -> Seq<char> {
    base + "/api/v1/query_range?query="@ + url_encoded(query) + "&start="@ + idecimal(start as int)
        + "&end="@ + idecimal(end as int) + "&step="@ + idecimal(range_step(start, end))
}

/// The URL of a range query over `[start, end]` (seconds).
pub fn range_query_url(base: &str, query: &str, start: i64, end: i64) -> (r: String)
    requires
        i64::MIN <= end - start <= i64::MAX,
    ensures
        r@ == range_url(base@, query@, start, end),
{
    let d: i64 = end - start;
    let q: i64 = if d >= 0 {
        ((d as u64) / 100) as i64
    } else {
        let m: u128 = (-(d as i128)) as u128;
        -(((m / 100) as i128) as i64)
    };
    assert(q == div_toward_zero(d as int, 100));
    let step: i64 = if q > 1 {
        q
    } else {
        1
    };
    let mut s = base.to_string();
    push_str(&mut s, "/api/v1/query_range?query=");
    push_str(&mut s, encode(query).as_str());
    push_str(&mut s, "&start=");
    push_i64(&mut s, start);
    push_str(&mut s, "&end=");
    push_i64(&mut s, end);
    push_str(&mut s, "&step=");
    push_i64(&mut s, step);
    s
}

/// The URL of a log query.
pub fn logs_query_url(base: &str, query: &str, limit: usize) -> (r: String)
    ensures
        r@ == base@ + "/select/logsql/query?query="@ + url_encoded(query@) + "&limit="@ + decimal(
            limit as nat,
        ),
{
    let mut s = base.to_string();
    push_str(&mut s, "/select/logsql/query?query=");
    push_str(&mut s, encode(query).as_str());
    push_str(&mut s, "&limit=");
    push_str(&mut s, u64_to_decimal(limit as u64).as_str());
    s
}

} // verus!

verus! {

/// A sample as the server sent it: the time when it is a JSON number (as its text) and the
/// value when it is a string.
#[derive(Debug, Clone)]
pub struct RawSample {
    pub timestamp: Option<String>,
    pub value: Option<String>,
}

pub struct SampleModel {
    pub timestamp: Option<Seq<char>>,
    pub value: Option<Seq<char>>,
}

pub open spec fn number_text(v: JsonValue) -> Option<Seq<char>> {
    match v {
        JsonValue::Number(n) => Some(n@),
        _ => None,
    }
}

pub open spec fn sample_model(ts: JsonValue, val: JsonValue) -> SampleModel {
    SampleModel { timestamp: number_text(ts), value: json_str(val) }
}

pub open spec fn sample_view(s: RawSample) -> SampleModel {
    SampleModel { timestamp: str_view(s.timestamp), value: str_view(s.value) }
}

pub open spec fn samples_view(s: Seq<RawSample>) -> Seq<SampleModel> {
    Seq::new(s.len(), |i: int| sample_view(s[i]))
}

/// `data.result` of an answer, when it is an array.
pub open spec fn result_array(data: JsonValue) -> Option<Seq<JsonValue>> {
    json_array(json_index(json_index(data, "data"@), "result"@))
}

/// The sample of an instant result: its `value` pair (the first two elements), when present;
/// VictoriaMetrics also asks for a `metric` object.
pub open spec fn instant_sample(r: JsonValue, need_metric: bool) -> Seq<SampleModel> {
    match json_array(json_index(r, "value"@)) {
        Some(arr) => if arr.len() >= 2 && (!need_metric || json_index(r, "metric"@) is Object) {
            seq![sample_model(arr[0], arr[1])]
        } else {
            Seq::empty()
        },
        None => Seq::empty(),
    }
}

pub open spec fn instant_samples(rs: Seq<JsonValue>, need_metric: bool) -> Seq<SampleModel>
    decreases rs.len(),
{
    if rs.len() == 0 {
        Seq::empty()
    } else {
        instant_samples(rs.drop_last(), need_metric) + instant_sample(rs.last(), need_metric)
    }
}

fn number_in(v: &JsonValue) -> (r: Option<String>)
    ensures
        str_view(r) == number_text(*v),
{
    match v {
        JsonValue::Number(n) => Some(n.clone()),
        _ => None,
    }
}

fn sample_of(ts: &JsonValue, val: &JsonValue) -> (s: RawSample)
    ensures
        sample_view(s) == sample_model(*ts, *val),
{
    RawSample { timestamp: number_in(ts), value: str_in(Some(val)) }
}

fn result_vec(data: &JsonValue) -> (r: Option<&Vec<JsonValue>>)
    ensures
        match r {
            Some(v) => result_array(*data) == Some(v@),
            None => result_array(*data) is None,
        },
{
    match index_in(index_in(Some(data), "data"), "result") {
        Some(r) => r.as_array(),
        None => None,
    }
}

/// The samples of an instant query's answer, or an error when it has no result array.
pub fn parse_instant_samples(data: &JsonValue, need_metric: bool) -> (r: Result<Vec<RawSample>, AIOpsError>)
    ensures
        match result_array(*data) {
            None => r == Err::<Vec<RawSample>, AIOpsError>(AIOpsError::InvalidResponse),
            Some(rs) => r matches Ok(v) && samples_view(v@) == instant_samples(rs, need_metric),
        },
{
    let results = match result_vec(data) {
        Some(r) => r,
        None => {
            return Err(AIOpsError::InvalidResponse);
        },
    };
    let mut out: Vec<RawSample> = Vec::new();
    let mut i: usize = 0;
    while i < results.len()
        invariant
            i <= results@.len(),
            samples_view(out@) == instant_samples(results@.take(i as int), need_metric),
        decreases results.len() - i,
    {
        assert(results@.take(i + 1).drop_last() =~= results@.take(i as int));
        let r = &results[i];
        let ghost before = samples_view(out@);
        match index_in(Some(r), "value") {
            Some(v) => match v.as_array() {
                Some(arr) => {
                    let metric_ok = if need_metric {
                        match index_in(Some(r), "metric") {
                            Some(m) => m.is_object(),
                            None => false,
                        }
                    } else {
                        true
                    };
                    if arr.len() >= 2 && metric_ok {
                        out.push(sample_of(&arr[0], &arr[1]));
                    }
                },
                None => {},
            },
            None => {},
        }
        assert(samples_view(out@) =~= instant_samples(results@.take(i + 1), need_metric));
        i = i + 1;
    }
    assert(results@.take(i as int) =~= results@);
    Ok(out)
}

/// The samples of one range result: each pair of exactly two elements in its `values`.
pub open spec fn pair_samples(pairs: Seq<JsonValue>) -> Seq<SampleModel>
    decreases pairs.len(),
{
    if pairs.len() == 0 {
        Seq::empty()
    } else {
        pair_samples(pairs.drop_last()) + match json_array(pairs.last()) {
            Some(a) => if a.len() == 2 {
                seq![sample_model(a[0], a[1])]
            } else {
                Seq::empty()
            },
            None => Seq::empty(),
        }
    }
}

pub open spec fn range_samples(rs: Seq<JsonValue>) -> Seq<SampleModel>
    decreases rs.len(),
{
    if rs.len() == 0 {
        Seq::empty()
    } else {
        range_samples(rs.drop_last()) + match json_array(json_index(rs.last(), "values"@)) {
            Some(pairs) => pair_samples(pairs),
            None => Seq::empty(),
        }
    }
}

/// The string entries of an object, except those under the excluded keys, in order.
pub open spec fn string_labels(m: Seq<(String, JsonValue)>, excluded: Seq<Seq<char>>) -> Seq<(Seq<char>, Seq<char>)>
    decreases m.len(),
{
    if m.len() == 0 {
        Seq::empty()
    } else {
        string_labels(m.drop_last(), excluded) + if !excluded.contains(m.last().0@) && json_str(
            m.last().1,
        ) is Some {
            seq![(m.last().0@, json_str(m.last().1).unwrap())]
        } else {
            Seq::empty()
        }
    }
}

pub open spec fn object_labels(v: JsonValue, excluded: Seq<Seq<char>>) -> Seq<(Seq<char>, Seq<char>)> {
    match v {
        JsonValue::Object(m) => string_labels(m@, excluded),
        _ => Seq::empty(),
    }
}

pub open spec fn labels_view(s: Seq<(String, String)>) -> Seq<(Seq<char>, Seq<char>)> {
    Seq::new(s.len(), |i: int| (s[i].0@, s[i].1@))
}

fn is_excluded(k: &str, excluded: &Vec<&str>) -> (b: bool)
    ensures
        b == Seq::new(excluded@.len(), |i: int| excluded@[i]@).contains(k@),
{
    let ghost ex = Seq::new(excluded@.len(), |i: int| excluded@[i]@);
    let mut i: usize = 0;
    while i < excluded.len()
        invariant
            i <= excluded@.len(),
            ex == Seq::new(excluded@.len(), |i: int| excluded@[i]@),
            forall|j: int| 0 <= j < i ==> ex[j] != k@,
        decreases excluded.len() - i,
    {
        if str_eq(excluded[i], k) {
            assert(ex[i as int] == k@);
            return true;
        }
        i = i + 1;
    }
    false
}

/// The string entries of a JSON object, except the excluded keys.
pub fn labels_of(v: &JsonValue, excluded: &Vec<&str>) -> (r: Vec<(String, String)>)
    ensures
        labels_view(r@) == object_labels(*v, Seq::new(excluded@.len(), |i: int| excluded@[i]@)),
{
    let ghost ex = Seq::new(excluded@.len(), |i: int| excluded@[i]@);
    let mut r: Vec<(String, String)> = Vec::new();
    match v {
        JsonValue::Object(m) => {
            let mut i: usize = 0;
            while i < m.len()
                invariant
                    i <= m@.len(),
                    ex == Seq::new(excluded@.len(), |i: int| excluded@[i]@),
                    labels_view(r@) == string_labels(m@.take(i as int), ex),
                decreases m.len() - i,
            {
                assert(m@.take(i + 1).drop_last() =~= m@.take(i as int));
                let (k, x) = (&m[i].0, &m[i].1);
                if !is_excluded(k.as_str(), excluded) {
                    match x.as_str() {
                        Some(s) => {
                            r.push((k.clone(), s.clone()));
                        },
                        None => {},
                    }
                }
                assert(labels_view(r@) =~= string_labels(m@.take(i + 1), ex));
                i = i + 1;
            }
            assert(m@.take(i as int) =~= m@);
        },
        _ => {},
    }
    r
}

/// A range query's answer: the metric's name, the samples of all results, and the labels of
/// the first result.
#[derive(Debug, Clone)]
pub struct RangeResult {
    pub metric_name: String,
    pub samples: Vec<RawSample>,
    pub labels: Vec<(String, String)>,
}

/// The labels a back end reads from the first result's `metric`: all string entries, except
/// `__name__` for VictoriaMetrics.
pub open spec fn range_excluded(kind: AIOpsKind) -> Seq<Seq<char>> {
    match kind {
        AIOpsKind::VictoriaMetrics => seq!["__name__"@],
        AIOpsKind::Prometheus => Seq::empty(),
    }
}

/// The metric name a back end reports: the query for Prometheus; for VictoriaMetrics the
/// answer's `data.metric.__name__` when it is a string, else the query.
pub open spec fn range_metric_name(kind: AIOpsKind, data: JsonValue, query: Seq<char>) -> Seq<char> {
    match kind {
        AIOpsKind::Prometheus => query,
        AIOpsKind::VictoriaMetrics => match json_str(
            json_index(json_index(json_index(data, "data"@), "metric"@), "__name__"@),
        ) {
            Some(n) => n,
            None => query,
        },
    }
}

/// Reads a range query's answer.
pub fn parse_range_result(kind: AIOpsKind, data: &JsonValue, query: &str) -> (r: Result<RangeResult, AIOpsError>)
    ensures
        match result_array(*data) {
            None => r == Err::<RangeResult, AIOpsError>(AIOpsError::InvalidResponse),
            Some(rs) => r matches Ok(res) && res.metric_name@ == range_metric_name(kind, *data, query@)
                && samples_view(res.samples@) == range_samples(rs) && labels_view(res.labels@) == (
            if rs.len() > 0 {
                object_labels(json_index(rs[0], "metric"@), range_excluded(kind))
            } else {
                Seq::empty()
            }),
        },
{
    let results = match result_vec(data) {
        Some(r) => r,
        None => {
            return Err(AIOpsError::InvalidResponse);
        },
    };
    let metric_name = match kind {
        AIOpsKind::Prometheus => query.to_string(),
        AIOpsKind::VictoriaMetrics => match str_in(
            index_in(index_in(index_in(Some(data), "data"), "metric"), "__name__"),
        ) {
            Some(n) => n,
            None => query.to_string(),
        },
    };
    let mut excluded: Vec<&str> = Vec::new();
    match kind {
        AIOpsKind::VictoriaMetrics => excluded.push("__name__"),
        AIOpsKind::Prometheus => {},
    }
    assert(Seq::new(excluded@.len(), |i: int| excluded@[i]@) =~= range_excluded(kind));
    let labels = if results.len() > 0 {
        match index_in(Some(&results[0]), "metric") {
            Some(m) => labels_of(m, &excluded),
            None => Vec::new(),
        }
    } else {
        Vec::new()
    };
    proof {
        if results@.len() > 0 {
            if json_index(results@[0], "metric"@) is Null {
                assert(labels_view(labels@) =~= Seq::<(Seq<char>, Seq<char>)>::empty());
            }
        } else {
            assert(labels_view(labels@) =~= Seq::<(Seq<char>, Seq<char>)>::empty());
        }
    }
    let mut samples: Vec<RawSample> = Vec::new();
    let mut i: usize = 0;
    while i < results.len()
        invariant
            i <= results@.len(),
            samples_view(samples@) == range_samples(results@.take(i as int)),
        decreases results.len() - i,
    {
        assert(results@.take(i + 1).drop_last() =~= results@.take(i as int));
        let ghost before = samples_view(samples@);
        match index_in(Some(&results[i]), "values") {
            Some(vs) => match vs.as_array() {
                Some(pairs) => {
                    let mut j: usize = 0;
                    while j < pairs.len()
                        invariant
                            j <= pairs@.len(),
                            samples_view(samples@) == before + pair_samples(pairs@.take(j as int)),
                        decreases pairs.len() - j,
                    {
                        assert(pairs@.take(j + 1).drop_last() =~= pairs@.take(j as int));
                        assert(pairs@.take(j + 1).last() == pairs@[j as int]);
                        let ghost pre = samples_view(samples@);
                        match pairs[j].as_array() {
                            Some(a) => {
                                if a.len() == 2 {
                                    let x = sample_of(&a[0], &a[1]);
                                    samples.push(x);
                                    assert(samples_view(samples@) =~= pre.push(sample_view(x)));
                                }
                            },
                            None => {},
                        }
                        assert(samples_view(samples@) =~= before + pair_samples(pairs@.take(j + 1)));
                        j = j + 1;
                    }
                    assert(pairs@.take(j as int) =~= pairs@);
                },
                None => {},
            },
            None => {},
        }
        assert(samples_view(samples@) =~= range_samples(results@.take(i + 1)));
        i = i + 1;
    }
    assert(results@.take(i as int) =~= results@);
    Ok(RangeResult { metric_name, samples, labels })
}

} // verus!

verus! {

/// A log line as the server sent it; the time is its `_time` text (RFC 3339).
#[derive(Debug, Clone)]
pub struct LogRecord {
    pub time: Option<String>,
    pub message: String,
    pub labels: Vec<(String, String)>,
    pub stream: String,
    pub filename: Option<String>,
    pub line_number: Option<u64>,
}

pub struct LogModel {
    pub time: Option<Seq<char>>,
    pub message: Seq<char>,
    pub labels: Seq<(Seq<char>, Seq<char>)>,
    pub stream: Seq<char>,
    pub filename: Option<Seq<char>>,
    pub line_number: Option<u64>,
}

pub open spec fn or_empty(o: Option<Seq<char>>) -> Seq<char> {
    match o {
        Some(s) => s,
        None => Seq::empty(),
    }
}

/// The fields a log line's own keys do not take become its labels.
pub open spec fn log_reserved() -> Seq<Seq<char>> {
    seq!["_time"@, "message"@, "_msg"@]
}

/// A log entry: its `message` (or, when there is none, its `_msg`), its other string fields
/// as labels, its stream, file and line.
pub open spec fn log_model(e: JsonValue) -> LogModel {
    LogModel {
        time: json_str(json_index(e, "_time"@)),
        message: or_empty(
            match json_get(e, "message"@) {
                Some(m) => json_str(m),
                None => json_str(json_index(e, "_msg"@)),
            },
        ),
        labels: object_labels(e, log_reserved()),
        stream: or_empty(json_str(json_index(e, "_stream"@))),
        filename: json_str(json_index(e, "filename"@)),
        line_number: json_u64(json_index(e, "line_num"@)),
    }
}

pub open spec fn log_view(r: LogRecord) -> LogModel {
    LogModel {
        time: str_view(r.time),
        message: r.message@,
        labels: labels_view(r.labels@),
        stream: r.stream@,
        filename: str_view(r.filename),
        line_number: r.line_number,
    }
}

fn or_empty_string(s: Option<String>) -> (r: String)
    ensures
        r@ == or_empty(str_view(s)),
{
    match s {
        Some(t) => t,
        None => String::new(),
    }
}

fn log_of(e: &JsonValue) -> (r: LogRecord)
    ensures
        log_view(r) == log_model(*e),
{
    let message = match e.get("message") {
        Some(m) => str_in(Some(m)),
        None => str_in(index_in(Some(e), "_msg")),
    };
    let mut reserved: Vec<&str> = Vec::new();
    reserved.push("_time");
    reserved.push("message");
    reserved.push("_msg");
    assert(Seq::new(reserved@.len(), |i: int| reserved@[i]@) =~= log_reserved());
    LogRecord {
        time: str_in(index_in(Some(e), "_time")),
        message: or_empty_string(message),
        labels: labels_of(e, &reserved),
        stream: or_empty_string(str_in(index_in(Some(e), "_stream"))),
        filename: str_in(index_in(Some(e), "filename")),
        line_number: crate::json::u64_opt_in(index_in(Some(e), "line_num")),
    }
}

/// Reads a log query's answer, which must be an array of entries.
pub fn parse_logs(data: &JsonValue) -> (r: Result<Vec<LogRecord>, AIOpsError>)
    ensures
        match json_array(*data) {
            None => r == Err::<Vec<LogRecord>, AIOpsError>(AIOpsError::InvalidResponse),
            Some(es) => r matches Ok(v) && v@.len() == es.len() && forall|i: int|
                0 <= i < es.len() ==> log_view(#[trigger] v@[i]) == log_model(es[i]),
        },
{
    let entries = match data.as_array() {
        Some(a) => a,
        None => {
            return Err(AIOpsError::InvalidResponse);
        },
    };
    let mut logs: Vec<LogRecord> = Vec::new();
    let mut i: usize = 0;
    while i < entries.len()
        invariant
            i <= entries@.len(),
            logs@.len() == i,
            forall|j: int| 0 <= j < i ==> log_view(#[trigger] logs@[j]) == log_model(entries@[j]),
        decreases entries.len() - i,
    {
        logs.push(log_of(&entries[i]));
        i = i + 1;
    }
    Ok(logs)
}

/// Text made only of unreserved characters goes into a query string as it is.
pub proof fn unreserved_text_is_not_escaped(s: Seq<char>)
    requires
        forall|i: int| 0 <= i < s.len() ==> unreserved(#[trigger] s[i]),
    ensures
        url_encoded(s) == s,
    decreases s.len(),
{
    if s.len() > 0 {
        let p = s.drop_last();
        assert forall|i: int| 0 <= i < p.len() implies unreserved(#[trigger] p[i]) by {
            assert(p[i] == s[i]);
        }
        unreserved_text_is_not_escaped(p);
        assert(unreserved(s[s.len() - 1]));
        assert(p + seq![s.last()] =~= s);
    }
}

} // verus!
