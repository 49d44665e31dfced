//! Core types of the LLM layer: the generation request and response, the
//! provider and clock abstractions, client metrics, and error
//! classification.

use crate::text::{contains_at, contains_sub, lower_of, lowercase};
use vstd::prelude::*;

verus! {

/// One logical text-generation request. The temperature is held in
/// thousandths (300 stands for 0.3); the transport turns it into the wire
/// value.
#[derive(Clone, Debug)]
pub struct GenerateRequest {
    pub model: String,
    pub system: String,
    pub prompt: String,
    pub temperature_milli: u32,
    pub max_tokens: u32,
    pub stage: String,
}

/// A normalized provider response. `cost_nanos` (nanodollars) and `provider`
/// are filled in by the client layer, never by the adapter.
#[derive(Clone, Debug)]
pub struct GenerateResponse {
    pub content: String,
    pub model: String,
    pub input_tokens: u32,
    pub output_tokens: u32,
    pub cost_nanos: u64,
    pub finish_reason: String,
    pub provider: String,
}

/// A provider failure as the client reports it: the transport's message and
/// the category that [`classify_error`] assigns to it.
#[derive(Clone, Debug)]
pub struct LlmError {
    pub message: String,
    pub category: String,
}

/// A remote text-generation backend. Nothing is promised of a remote call:
/// the client states what holds of every outcome.
pub trait Provider {
    /// Issue one generation request.
    fn generate(&mut self, req: &GenerateRequest) -> Result<GenerateResponse, String>;

    /// The provider's own name (the client tags responses with its
    /// configured logical name, which may differ).
    fn name(&self) -> String;
}

/// An injectable time source and sleeper, so the retry budget can run
/// without wall-clock delay under test.
pub trait Clock {
    /// Milliseconds of elapsed time from an arbitrary fixed origin.
    fn now_ms(&mut self) -> u64;

    /// Suspend the caller for `ms` milliseconds.
    fn sleep_ms(&mut self, ms: u64);
}

/// A counter bumped by one, held at its ceiling rather than wrapping.
pub open spec fn inc(c: u64) -> u64 {
    if c < u64::MAX {
        (c + 1) as u64
    } else {
        c
    }
}

/// A counter bumped `n` times, each bump held at the ceiling.
pub open spec fn inc_n(c: u64, n: nat) -> u64
    decreases n,
{
    if n == 0 {
        c
    } else {
        inc(inc_n(c, (n - 1) as nat))
    }
}

/// `n` bumps move a counter up by at most `n`.
pub proof fn lemma_inc_n_bounds(c: u64, n: nat)
    ensures
        c <= inc_n(c, n) <= c + n,
    decreases n,
{
    if n > 0 {
        lemma_inc_n_bounds(c, (n - 1) as nat);
    }
}

/// Bump runs compose: `a` bumps then `b` bumps are `a + b` bumps.
pub proof fn lemma_inc_n_add(c: u64, a: nat, b: nat)
    ensures
        inc_n(inc_n(c, a), b) == inc_n(c, a + b),
    decreases b,
{
    if b > 0 {
        lemma_inc_n_add(c, a, (b - 1) as nat);
    }
}

/// Client-side metric counters.
#[derive(Clone, Copy, Debug, PartialEq, Eq, Structural)]
pub struct ClientMetrics {
    /// Failed attempts after the first within one retry budget.
    pub retries: u64,
    /// Escalations from the primary to the fallback provider.
    pub fallbacks: u64,
    /// Failed provider calls.
    pub errors: u64,
}

impl ClientMetrics {
    /// All counters at zero.
    pub fn new() -> (r: ClientMetrics)
        ensures
            r.retries == 0 && r.fallbacks == 0 && r.errors == 0,
    {
        ClientMetrics { retries: 0, fallbacks: 0, errors: 0 }
    }
}

/// Bump a counter, holding at the ceiling.
pub fn bump(c: u64) -> (r: u64)
    ensures
        r == inc(c),
{
    if c < u64::MAX {
        c + 1
    } else {
        c
    }
}

/// The category [`classify_error`] assigns to a lowercased message: checked
/// in priority order, so the rate-limit and timeout patterns win over the
/// generic client- and server-error patterns.
pub open spec fn classify_spec(m: Seq<char>) -> Seq<char> {
    if contains_at(m, "rate limit"@) || contains_at(m, "429"@) {
        "rate_limit"@
    } else if contains_at(m, "timeout"@) || contains_at(m, "timed out"@) || contains_at(
        m,
        "deadline"@,
    ) {
        "timeout"@
    } else if contains_at(m, "401"@) || contains_at(m, "403"@) || contains_at(m, "auth"@)
        || contains_at(m, "api key"@) {
        "auth_error"@
    } else if contains_at(m, "400"@) || contains_at(m, "422"@) || contains_at(m, "invalid"@) {
        "invalid_request"@
    } else if contains_at(m, "500"@) || contains_at(m, "502"@) || contains_at(m, "503"@)
        || contains_at(m, "server"@) {
        "server_error"@
    } else if contains_at(m, "connect"@) || contains_at(m, "dns"@) || contains_at(m, "network"@)
        || contains_at(m, "reset"@) {
        "network_error"@
    } else {
        "unknown_error"@
    }
}

/// Classify a provider failure by case-insensitive substring matching over
/// its message, into one of `rate_limit`, `timeout`, `auth_error`,
/// `invalid_request`, `server_error`, `network_error` or `unknown_error`.
pub fn classify_error(message: &str) -> (r: &'static str)
    ensures
        r@ == classify_spec(lower_of(message@)),
{
    let lowered = lowercase(message);
    let l = lowered.as_str();
    if contains_sub(l, "rate limit") || contains_sub(l, "429") {
        "rate_limit"
    } else if contains_sub(l, "timeout") || contains_sub(l, "timed out") || contains_sub(
        l,
        "deadline",
    ) {
        "timeout"
    } else if contains_sub(l, "401") || contains_sub(l, "403") || contains_sub(l, "auth")
        || contains_sub(l, "api key") {
        "auth_error"
    } else if contains_sub(l, "400") || contains_sub(l, "422") || contains_sub(l, "invalid") {
        "invalid_request"
    } else if contains_sub(l, "500") || contains_sub(l, "502") || contains_sub(l, "503")
        || contains_sub(l, "server") {
        "server_error"
    } else if contains_sub(l, "connect") || contains_sub(l, "dns") || contains_sub(l, "network")
        || contains_sub(l, "reset") {
        "network_error"
    } else {
        "unknown_error"
    }
}

/// Classification is by priority: any message whose lowercased form contains
/// `429` is rate-limit, whatever else it also matches (for example a message
/// that also contains `server`).
pub proof fn lemma_rate_limit_precedence(m: Seq<char>)
    requires
        contains_at(m, "429"@),
    ensures
        classify_spec(m) == "rate_limit"@,
{
}

/// Classification is total and deterministic: it is a function of the
/// message text alone, so equal messages always land in the same category.
pub proof fn lemma_classify_deterministic(m1: Seq<char>, m2: Seq<char>)
    requires
        m1 == m2,
    ensures
        classify_spec(m1) == classify_spec(m2),
{
}

} // verus!
