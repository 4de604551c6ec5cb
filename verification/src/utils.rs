//! Reusable small pieces: the logical clock, secure token generation, and
//! test helpers.

use vstd::prelude::*;

verus! {

/// Seconds since the Unix epoch: the pipeline's logical time.  Totally
/// ordered; produced only by a `Clock`.
pub type Instant = i64;

/// A source of the current logical time, swappable between the real wall
/// clock and a deterministic test clock that is advanced by hand.
pub trait Clock: Send + Sync {
    /// Whether this clock can be moved forward by the given amount.
    spec fn advance_ok(&self, by: i64) -> bool;

    /// The current time, in seconds.
    fn utcnow(&self) -> Instant;

    /// Moves the clock forward (deterministic test clocks only) and returns
    /// the new time.
    fn advance(&mut self, by: i64) -> Instant
        requires
            old(self).advance_ok(by),
    ;
}

/// Relies on chrono's `Utc::now().timestamp()`: the current number of
/// non-leap seconds since the Unix epoch.
#[verifier::external_body]
fn chrono_utc_now_seconds() -> i64 {
    chrono::offset::Utc::now().timestamp()
}

/// The wall clock.
pub struct RealClock {}

impl RealClock {
    pub fn new() -> Self {
        Self {  }
    }
}

impl Clock for RealClock {
    /// The real clock cannot be moved by hand.
    open spec fn advance_ok(&self, by: i64) -> bool {
        false
    }

    fn utcnow(&self) -> Instant {
        chrono_utc_now_seconds()
    }

    fn advance(&mut self, by: i64) -> Instant {
        unreached()
    }
}

/// A deterministic clock for tests, advanced by hand.
pub struct MockClock {
    pub time: Instant,
}

impl MockClock {
    pub fn new() -> (c: MockClock)
        ensures
            c.time == 1000,
    {
        MockClock { time: 1000 }
    }
}

impl Clone for MockClock {
    fn clone(&self) -> (c: Self)
        ensures
            c.time == self.time,
    {
        MockClock { time: self.time }
    }
}

impl Clock for MockClock {
    open spec fn advance_ok(&self, by: i64) -> bool {
        i64::MIN <= self.time + by <= i64::MAX
    }

    fn utcnow(&self) -> (t: Instant)
        ensures
            t == self.time,
    {
        self.time
    }

    fn advance(&mut self, by: i64) -> (t: Instant)
        ensures
            final(self).time == old(self).time + by,
            t == final(self).time,
    {
        self.time = self.time + by;
        self.time
    }
}

#[verifier::external_type_specification]
#[verifier::external_body]
pub struct ExStdInstant(std::time::Instant);

/// Relies on std::time::Instant::now: an opaque monotonic timestamp.
#[verifier::external_body]
fn std_instant_now() -> std::time::Instant {
    std::time::Instant::now()
}

/// A started timer labelled with the metric it will feed; unverified glue
/// reads the elapsed time when it retires the value.
pub struct TimeMetric {
    pub started: std::time::Instant,
    pub label: &'static str,
}

impl TimeMetric {
    pub fn new(label: &'static str) -> (m: TimeMetric)
        ensures
            m.label@ == label@,
    {
        TimeMetric { label, started: std_instant_now() }
    }
}

/// Relies on rand's `thread_rng().fill_bytes`: fills a 16-byte buffer from
/// the thread-local secure generator.
#[verifier::external_body]
fn random_bytes_16() -> (b: Vec<u8>)
    ensures
        b@.len() == 16,
{
    let mut buf = [0u8; 16];
    rand::RngCore::fill_bytes(&mut rand::thread_rng(), &mut buf);
    buf.to_vec()
}

/// Relies on `bs58::encode(..).into_string()`: the Base58 text of the given
/// bytes.
#[verifier::external_body]
fn bs58_encode_string(b: &Vec<u8>) -> String {
    bs58::encode(b).into_string()
}

/// Generates a secure, unguessable opaque token.
pub fn gentoken() -> String {
    let buf = random_bytes_16();
    bs58_encode_string(&buf)
}

/// What `make_ascii_uppercase` does to one character.
pub open spec fn ascii_upper_char(c: char) -> char {
    if 'a' <= c && c <= 'z' {
        ((c as u8) - 32) as char
    } else {
        c
    }
}

/// Relies on str's `make_ascii_uppercase`: ASCII lowercase letters become
/// uppercase in place; every other character is unchanged.
#[verifier::external_body]
fn ascii_uppercase_in_place(s: &mut String)
    ensures
        final(s)@ == old(s)@.map_values(|c: char| ascii_upper_char(c)),
{
    s.make_ascii_uppercase();
}

/// Relies on rand's `Alphanumeric` distribution: a uniformly random string
/// of ASCII letters and digits, of exactly the requested length.
#[verifier::external_body]
fn random_alphanumeric(len: usize) -> (s: String)
    ensures
        s@.len() == len as nat,
{
    rand::Rng::sample_iter(rand::thread_rng(), rand::distributions::Alphanumeric)
        .take(len)
        .map(char::from)
        .collect()
}

/// A random identifier of the requested length, in capital letters and
/// digits.
pub fn gen_alphabetical(len: usize) -> (s: String)
    ensures
        s@.len() == len as nat,
{
    let mut result = random_alphanumeric(len);
    ascii_uppercase_in_place(&mut result);
    result
}

/// Whether two strings hold the same characters.
pub fn str_eq(a: &str, b: &str) -> (r: bool)
    ensures
        r == (a@ == b@),
{
    let n = a.unicode_len();
    let m = b.unicode_len();
    if n != m {
        return false;
    }
    let mut i: usize = 0;
    while i < n
        invariant
            n == a@.len(),
            n == b@.len(),
            i <= n,
            forall|k: int| 0 <= k < i ==> a@[k] == b@[k],
        decreases n - i,
    {
        if a.get_char(i) != b.get_char(i) {
            return false;
        }
        i = i + 1;
    }
    proof {
        assert(a@ =~= b@);
    }
    true
}

/// `pat` occurs in `text` beginning at position `i`.
pub open spec fn occurs_at(text: Seq<char>, pat: Seq<char>, i: int) -> bool {
    0 <= i && i + pat.len() <= text.len() && text.subrange(i, i + pat.len()) == pat
}

/// `pat` occurs somewhere in `text`.
pub open spec fn spec_contains(text: Seq<char>, pat: Seq<char>) -> bool {
    exists|i: int| occurs_at(text, pat, i)
}

/// Whether `pat` matches `text` at position `i`.
fn match_at(text: &str, pat: &str, i: usize) -> (r: bool)
    requires
        i + pat@.len() <= text@.len(),
        text@.len() <= usize::MAX,
    ensures
        r == occurs_at(text@, pat@, i as int),
{
    let m = pat.unicode_len();
    let mut j: usize = 0;
    while j < m
        invariant
            j <= m,
            m == pat@.len(),
            i + m <= text@.len(),
            text@.len() <= usize::MAX,
            forall|t: int| 0 <= t < j ==> text@[i + t] == pat@[t],
        decreases m - j,
    {
        if text.get_char(i + j) != pat.get_char(j) {
            proof {
                assert(!occurs_at(text@, pat@, i as int)) by {
                    if text@.subrange(i as int, i + pat@.len() as int) == pat@ {
                        assert(text@.subrange(i as int, i + pat@.len() as int)[j as int]
                            == pat@[j as int]);
                    }
                }
            }
            return false;
        }
        j = j + 1;
    }
    proof {
        assert(text@.subrange(i as int, i + pat@.len() as int) =~= pat@);
    }
    true
}

/// Whether `pat` occurs as a contiguous substring of `text`.
pub fn str_contains(text: &str, pat: &str) -> (r: bool)
    ensures
        r == spec_contains(text@, pat@),
{
    let n = text.unicode_len();
    let m = pat.unicode_len();
    if m > n {
        proof {
            assert forall|k: int| !occurs_at(text@, pat@, k) by {}
        }
        return false;
    }
    if m == 0 {
        proof {
            assert(text@.subrange(0, 0) =~= pat@);
            assert(occurs_at(text@, pat@, 0));
        }
        return true;
    }
    let mut i: usize = 0;
    while i <= n - m
        invariant
            1 <= m <= n,
            n == text@.len(),
            m == pat@.len(),
            i <= n - m + 1,
            forall|k: int| 0 <= k < i ==> !occurs_at(text@, pat@, k),
        decreases n - m + 1 - i,
    {
        if match_at(text, pat, i) {
            return true;
        }
        i = i + 1;
    }
    proof {
        assert forall|k: int| !occurs_at(text@, pat@, k) by {}
    }
    false
}

/// Test helper: checks that the given outcome is an error whose rendered
/// text contains the expected fragment.
pub fn err_expected(act: Option<String>, exp: &str) -> (r: bool)
    ensures
        r == (act matches Some(s) && spec_contains(s@, exp@)),
{
    match act {
        None => false,
        Some(s) => str_contains(s.as_str(), exp),
    }
}

/// Returns its argument unchanged; unverified glue may log it on the way.
#[allow(unused_variables)]
pub fn debug<T>(name: &str, v: T) -> (r: T)
    ensures
        r == v,
{
    v
}

} // verus!
