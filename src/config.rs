//! Settings of a run: reading them from raw text, validating them, and the
//! headers that every request carries.
use vstd::prelude::*;
use vstd::string::StringSliceAdditionalSpecFns;

verus! {

pub const PLUS: u8 = 0x2b;

pub const DIGIT_ZERO: u8 = 0x30;

pub const DIGIT_NINE: u8 = 0x39;

pub open spec fn is_digit(b: u8) -> bool {
    DIGIT_ZERO <= b <= DIGIT_NINE
}

/// The number written by the decimal digits `d`.
pub open spec fn digits_value(d: Seq<u8>) -> nat
    decreases d.len(),
{
    if d.len() == 0 {
        0
    } else {
        digits_value(d.drop_last()) * 10 + (d.last() - DIGIT_ZERO) as nat
    }
}

/// `t` without a leading `+`.
pub open spec fn unsigned_digits(t: Seq<u8>) -> Seq<u8> {
    if t.len() > 0 && t[0] == PLUS {
        t.drop_first()
    } else {
        t
    }
}

/// `t` is an optional `+` followed by one or more decimal digits, and
/// nothing else (no sign `-`, no whitespace, no separators).
pub open spec fn is_count_text(t: Seq<u8>) -> bool {
    let d = unsigned_digits(t);
    d.len() > 0 && forall|i: int| 0 <= i < d.len() ==> is_digit(#[trigger] d[i])
}

/// What reading a `usize` from the bytes `t` gives: its value, when `t` is
/// count text whose value fits.
pub open spec fn count_of(t: Seq<u8>) -> Option<usize> {
    if is_count_text(t) && digits_value(unsigned_digits(t)) <= usize::MAX {
        Some(digits_value(unsigned_digits(t)) as usize)
    } else {
        None
    }
}

proof fn lemma_prefix_value_bound(d: Seq<u8>, j: int)
    requires
        0 <= j <= d.len(),
    ensures
        digits_value(d.subrange(0, j)) <= digits_value(d),
    decreases d.len() - j,
{
    if j < d.len() {
        lemma_prefix_value_bound(d, j + 1);
        let p = d.subrange(0, j + 1);
        assert(p.drop_last() =~= d.subrange(0, j));
        assert(digits_value(p.drop_last()) <= digits_value(p.drop_last()) * 10) by (nonlinear_arith);
    } else {
        assert(d.subrange(0, j) =~= d);
    }
}

/// Reads an unsigned decimal count, as an optional `+` and digits.
pub fn parse_count(text: &str) -> (r: Option<usize>)
    ensures
        r == count_of(text.spec_bytes()),
{
    let bytes = text.as_bytes();
    let ghost t = bytes@;
    let ghost d = unsigned_digits(t);
    let mut i: usize = 0;
    if bytes.len() > 0 && bytes[0] == PLUS {
        i = 1;
    }
    let start = i;
    assert(d =~= t.subrange(start as int, t.len() as int));
    if i == bytes.len() {
        return None;
    }
    let mut value: usize = 0;
    while i < bytes.len()
        invariant
            t == bytes@,
            t == text.spec_bytes(),
            d == unsigned_digits(t),
            d =~= t.subrange(start as int, t.len() as int),
            start <= i <= t.len(),
            start < t.len(),
            forall|k: int| 0 <= k < i - start ==> is_digit(#[trigger] d[k]),
            value == digits_value(d.subrange(0, i - start)),
        decreases t.len() - i,
    {
        let b = bytes[i];
        if b < DIGIT_ZERO || b > DIGIT_NINE {
            assert(!is_digit(d[i - start]));
            assert(!is_count_text(t));
            return None;
        }
        proof {
            assert(d.subrange(0, i - start + 1).drop_last() =~= d.subrange(0, i - start));
        }
        let digit = (b - DIGIT_ZERO) as usize;
        match value.checked_mul(10) {
            Some(tens) => match tens.checked_add(digit) {
                Some(next) => {
                    value = next;
                },
                None => {
                    proof {
                        lemma_prefix_value_bound(d, i - start + 1);
                        assert(digits_value(d.subrange(0, i - start + 1)) == value * 10 + digit);
                        assert(digits_value(d) > usize::MAX);
                    }
                    return None;
                },
            },
            None => {
                proof {
                    lemma_prefix_value_bound(d, i - start + 1);
                }
                return None;
            },
        }
        i = i + 1;
    }
    proof {
        assert(d.subrange(0, i - start) =~= d);
    }
    Some(value)
}

/// Where the value of a setting came from.
#[derive(Clone, Copy, Debug, PartialEq, Eq, Structural)]
pub enum SettingSource {
    /// The raw text gave it.
    Given,
    /// No usable raw text: the default.
    Default,
    /// Raw text that could not be read: the default.
    DefaultForInvalid,
}

/// Resolves a count setting from its raw text, if any: a readable count is
/// taken, anything else gives `default`.
pub fn resolve_count(raw: Option<&str>, default: usize) -> (r: (usize, SettingSource))
    ensures
        raw is None ==> r == (default, SettingSource::Default),
        raw matches Some(t) ==> r == match count_of(t.spec_bytes()) {
            Some(v) => (v, SettingSource::Given),
            None => (default, SettingSource::DefaultForInvalid),
        },
{
    match raw {
        None => (default, SettingSource::Default),
        Some(t) => match parse_count(t) {
            Some(v) => (v, SettingSource::Given),
            None => (default, SettingSource::DefaultForInvalid),
        },
    }
}

/// Resolves a text setting: non-empty raw text is taken, otherwise
/// `default`.
pub fn resolve_text(raw: Option<&str>, default: &str) -> (r: (String, SettingSource))
    ensures
        (raw matches Some(t) && t@.len() > 0) ==> r.0@ == raw.unwrap()@ && r.1
            == SettingSource::Given,
        !(raw matches Some(t) && t@.len() > 0) ==> r.0@ == default@ && r.1
            == SettingSource::Default,
{
    match raw {
        Some(t) => {
            if !t.is_empty() {
                return (t.to_owned(), SettingSource::Given);
            }
        },
        None => {},
    }
    (default.to_owned(), SettingSource::Default)
}

/// Why a configuration was rejected before any request was sent.
#[derive(Clone, Copy, Debug, PartialEq, Eq, Structural)]
pub enum ConfigError {
    /// The target URL is empty.
    MissingTargetUrl,
    /// The number of requests planned does not fit in 64 bits.
    TooManyRequests,
}

/// The settings of one run, shared read-only by every worker.
pub struct RunConfig {
    pub worker_count: usize,
    pub requests_per_worker: usize,
    pub target_url: String,
    /// Empty means that requests carry no `Authorization` header.
    pub auth_token: String,
    /// The body of every request, sent unchanged.
    pub payload: Vec<u8>,
}

/// The number of requests that a run of `worker_count` workers, each
/// sending `requests_per_worker`, plans.
pub open spec fn planned_requests(worker_count: usize, requests_per_worker: usize) -> int {
    worker_count * requests_per_worker
}

impl RunConfig {
    pub open spec fn wf(&self) -> bool {
        &&& self.target_url@.len() > 0
        &&& planned_requests(self.worker_count, self.requests_per_worker) <= u64::MAX
    }

    /// Validates and assembles a configuration. Zero workers or zero
    /// requests per worker are accepted: such a run sends nothing.
    pub fn new(
        worker_count: usize,
        requests_per_worker: usize,
        target_url: String,
        auth_token: String,
        payload: Vec<u8>,
    ) -> (r: Result<RunConfig, ConfigError>)
        ensures
            target_url@.len() == 0 ==> r == Err::<RunConfig, ConfigError>(
                ConfigError::MissingTargetUrl,
            ),
            target_url@.len() > 0 && planned_requests(worker_count, requests_per_worker)
                > u64::MAX ==> r == Err::<RunConfig, ConfigError>(ConfigError::TooManyRequests),
            target_url@.len() > 0 && planned_requests(worker_count, requests_per_worker)
                <= u64::MAX ==> (r matches Ok(c) && c.wf() && c.worker_count == worker_count
                && c.requests_per_worker == requests_per_worker && c.target_url == target_url
                && c.auth_token == auth_token && c.payload == payload),
    {
        if target_url.as_str().is_empty() {
            return Err(ConfigError::MissingTargetUrl);
        }
        match (worker_count as u64).checked_mul(requests_per_worker as u64) {
            None => Err(ConfigError::TooManyRequests),
            Some(_) => Ok(RunConfig { worker_count, requests_per_worker, target_url, auth_token, payload }),
        }
    }

    /// worker_count times requests_per_worker.
    pub fn total_requests(&self) -> (r: u64)
        requires
            self.wf(),
        ensures
            r == planned_requests(self.worker_count, self.requests_per_worker),
    {
        (self.worker_count as u64) * (self.requests_per_worker as u64)
    }

    /// The headers of every request of this run.
    pub fn request_headers(&self) -> (r: Vec<(String, String)>)
        ensures
            headers_ok(r@, self.auth_token@),
    {
        request_headers(self.auth_token.as_str())
    }
}

/// The value of the `Authorization` header for `token`.
pub open spec fn bearer(token: Seq<char>) -> Seq<char> {
    seq!['B', 'e', 'a', 'r', 'e', 'r', ' '] + token
}

/// The `Authorization` header value for `token`; none for an empty token.
pub fn auth_header_value(token: &str) -> (r: Option<String>)
    ensures
        token@.len() == 0 <==> r is None,
        r matches Some(v) ==> v@ == bearer(token@),
{
    if token.is_empty() {
        None
    } else {
        let mut v = String::from_str("Bearer ");
        v.append(token);
        proof {
            reveal_strlit("Bearer ");
            assert(v@ =~= bearer(token@));
        }
        Some(v)
    }
}

pub open spec fn content_type_name() -> Seq<char> {
    seq!['C', 'o', 'n', 't', 'e', 'n', 't', '-', 'T', 'y', 'p', 'e']
}

pub open spec fn json_media_type() -> Seq<char> {
    seq!['a', 'p', 'p', 'l', 'i', 'c', 'a', 't', 'i', 'o', 'n', '/', 'j', 's', 'o', 'n']
}

pub open spec fn authorization_name() -> Seq<char> {
    seq!['A', 'u', 't', 'h', 'o', 'r', 'i', 'z', 'a', 't', 'i', 'o', 'n']
}

/// `h` is `Content-Type: application/json`, followed by
/// `Authorization: Bearer <token>` exactly when `token` is not empty.
pub open spec fn headers_ok(h: Seq<(String, String)>, token: Seq<char>) -> bool {
    &&& h.len() == if token.len() == 0 {
        1int
    } else {
        2int
    }
    &&& h[0].0@ == content_type_name()
    &&& h[0].1@ == json_media_type()
    &&& token.len() > 0 ==> h[1].0@ == authorization_name() && h[1].1@ == bearer(token)
}

/// The headers of a request sent with `auth_token`.
pub fn request_headers(auth_token: &str) -> (r: Vec<(String, String)>)
    ensures
        headers_ok(r@, auth_token@),
{
    let name = String::from_str("Content-Type");
    let value = String::from_str("application/json");
    proof {
        reveal_strlit("Content-Type");
        reveal_strlit("application/json");
        assert(name@ =~= content_type_name());
        assert(value@ =~= json_media_type());
    }
    let mut headers: Vec<(String, String)> = Vec::new();
    headers.push((name, value));
    match auth_header_value(auth_token) {
        Some(v) => {
            let auth = String::from_str("Authorization");
            proof {
                reveal_strlit("Authorization");
                assert(auth@ =~= authorization_name());
            }
            headers.push((auth, v));
        },
        None => {},
    }
    headers
}

} // verus!
