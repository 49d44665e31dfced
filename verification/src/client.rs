//! The LLM client: drives a provider through bounded retries with jittered
//! exponential backoff, classifies failures, escalates to a fallback
//! provider on exhaustion, and fills in cost and serving-provider name on
//! every success.

use crate::llm::{
    bump, classify_error, classify_spec, inc, inc_n, lemma_inc_n_add, lemma_inc_n_bounds,
    ClientMetrics, Clock, GenerateRequest, GenerateResponse, LlmError, Provider,
};
use crate::pricing::{cost_nanos_spec, PricingTable};
use crate::text::lower_of;
use vstd::prelude::*;
use vstd::string::StringExecFns;

verus! {

/// Attempts made against one provider before giving up on it.
pub const MAX_ATTEMPTS: u32 = 3;

/// Backoff cap per attempt, in milliseconds.
pub const BACKOFF_CAP_MS: u64 = 10_000;

/// The capped exponential backoff base: `min(2^attempt, 10)` seconds.
pub open spec fn backoff_base_spec(attempt: nat) -> u64 {
    if attempt == 0 {
        1_000
    } else if attempt == 1 {
        2_000
    } else if attempt == 2 {
        4_000
    } else if attempt == 3 {
        8_000
    } else {
        10_000
    }
}

/// Backoff base before the next attempt, in milliseconds.
pub fn backoff_base_ms(attempt: u32) -> (r: u64)
    ensures
        r == backoff_base_spec(attempt as nat),
        1_000 <= r <= BACKOFF_CAP_MS,
{
    if attempt == 0 {
        1_000
    } else if attempt == 1 {
        2_000
    } else if attempt == 2 {
        4_000
    } else if attempt == 3 {
        8_000
    } else {
        10_000
    }
}

/// Relies on fastrand::u64: a random value within the given inclusive range.
#[verifier::external_body]
fn random_below(max_inclusive: u64) -> (r: u64)
    ensures
        r <= max_inclusive,
{
    fastrand::u64(0..=max_inclusive)
}

/// One attempt against a provider. On success the response is stamped with
/// the configured provider name and its cost from the pricing table; on
/// failure the error counter is bumped and the failure is classified.
pub fn generate_once<Q: Provider>(
    provider: &mut Q,
    provider_name: &str,
    pricing: &PricingTable,
    metrics: &mut ClientMetrics,
    req: &GenerateRequest,
) -> (r: Result<GenerateResponse, LlmError>)
    requires
        pricing.wf(),
    ensures
        final(metrics).retries == old(metrics).retries,
        final(metrics).fallbacks == old(metrics).fallbacks,
        r matches Ok(resp) ==> final(metrics).errors == old(metrics).errors && resp.provider@
            == provider_name@ && resp.cost_nanos == cost_nanos_spec(
            pricing@,
            resp.model@,
            resp.input_tokens,
            resp.output_tokens,
        ),
        r matches Err(e) ==> final(metrics).errors == inc(old(metrics).errors) && e.category@
            == classify_spec(lower_of(e.message@)),
{
    match provider.generate(req) {
        Ok(resp) => {
            let cost = pricing.calculate_cost(resp.model.as_str(), resp.input_tokens, resp.output_tokens);
            Ok(
                GenerateResponse {
                    content: resp.content,
                    model: resp.model,
                    input_tokens: resp.input_tokens,
                    output_tokens: resp.output_tokens,
                    cost_nanos: cost,
                    finish_reason: resp.finish_reason,
                    provider: provider_name.to_owned(),
                },
            )
        },
        Err(message) => {
            metrics.errors = bump(metrics.errors);
            let category = classify_error(message.as_str()).to_owned();
            Err(LlmError { message, category })
        },
    }
}

/// Up to [`MAX_ATTEMPTS`] attempts against one provider. A failed attempt
/// after the first bumps the retry counter; between attempts the caller's
/// clock sleeps for the capped exponential base plus up to a quarter jitter.
/// After the budget is exhausted the last error is returned.
pub fn generate_with_retry<Q: Provider, C: Clock>(
    provider: &mut Q,
    provider_name: &str,
    pricing: &PricingTable,
    clock: &mut C,
    metrics: &mut ClientMetrics,
    req: &GenerateRequest,
) -> (r: Result<GenerateResponse, LlmError>)
    requires
        pricing.wf(),
    ensures
        final(metrics).fallbacks == old(metrics).fallbacks,
        old(metrics).retries <= final(metrics).retries <= old(metrics).retries + (MAX_ATTEMPTS
            - 1),
        old(metrics).errors <= final(metrics).errors <= old(metrics).errors + MAX_ATTEMPTS,
        r matches Ok(resp) ==> resp.provider@ == provider_name@ && resp.cost_nanos
            == cost_nanos_spec(pricing@, resp.model@, resp.input_tokens, resp.output_tokens),
        r is Ok ==> (exists|failures: nat|
            failures < MAX_ATTEMPTS && #[trigger] inc_n(old(metrics).errors, failures)
                == final(metrics).errors && final(metrics).retries == inc_n(
                old(metrics).retries,
                if failures == 0 {
                    0nat
                } else {
                    (failures - 1) as nat
                },
            )),
        r matches Err(e) ==> e.category@ == classify_spec(lower_of(e.message@)),
        r is Err ==> final(metrics).errors == inc_n(old(metrics).errors, MAX_ATTEMPTS as nat)
            && final(metrics).retries == inc_n(old(metrics).retries, (MAX_ATTEMPTS - 1) as nat),
{
    let mut attempt: u32 = 0;
    let mut last_err: Option<LlmError> = None;
    while attempt < MAX_ATTEMPTS
        invariant
            pricing.wf(),
            0 <= attempt <= MAX_ATTEMPTS,
            metrics.fallbacks == old(metrics).fallbacks,
            metrics.errors == inc_n(old(metrics).errors, attempt as nat),
            metrics.retries == inc_n(
                old(metrics).retries,
                if attempt == 0 {
                    0nat
                } else {
                    (attempt - 1) as nat
                },
            ),
            attempt > 0 ==> last_err is Some,
            last_err matches Some(e) ==> e.category@ == classify_spec(lower_of(e.message@)),
        ensures
            last_err is Some,
            metrics.fallbacks == old(metrics).fallbacks,
            metrics.errors == inc_n(old(metrics).errors, MAX_ATTEMPTS as nat),
            metrics.retries == inc_n(old(metrics).retries, (MAX_ATTEMPTS - 1) as nat),
            last_err matches Some(e) ==> e.category@ == classify_spec(lower_of(e.message@)),
        decreases MAX_ATTEMPTS - attempt,
    {
        match generate_once(provider, provider_name, pricing, metrics, req) {
            Ok(resp) => {
                proof {
                    assert(inc_n(old(metrics).errors, attempt as nat) == metrics.errors);
                    lemma_inc_n_bounds(old(metrics).errors, attempt as nat);
                    lemma_inc_n_bounds(
                        old(metrics).retries,
                        if attempt == 0 {
                            0nat
                        } else {
                            (attempt - 1) as nat
                        },
                    );
                }
                return Ok(resp);
            },
            Err(err) => {
                if attempt > 0 {
                    metrics.retries = bump(metrics.retries);
                }
                proof {
                    assert(metrics.errors == inc_n(old(metrics).errors, (attempt + 1) as nat));
                    assert(metrics.retries == inc_n(old(metrics).retries, attempt as nat));
                }
                last_err = Some(err);
                if attempt < MAX_ATTEMPTS - 1 {
                    let base = backoff_base_ms(attempt);
                    let jitter = random_below(base / 4);
                    clock.sleep_ms(base + jitter);
                }
            },
        }
        attempt = attempt + 1;
    }
    proof {
        lemma_inc_n_bounds(old(metrics).errors, MAX_ATTEMPTS as nat);
        lemma_inc_n_bounds(old(metrics).retries, (MAX_ATTEMPTS - 1) as nat);
    }
    match last_err {
        Some(e) => Err(e),
        None => Err(
            LlmError { message: "all retries exhausted".to_owned(), category: "unknown_error".to_owned() },
        ),
    }
}

/// The LLM client: one primary provider, an optional fallback provider with
/// its own model override, the pricing table, an injectable clock and the
/// metric counters. Configuration is never changed by a call.
pub struct LlmClient<P, F, C> {
    pub primary: P,
    pub fallback: Option<F>,
    pub primary_provider: String,
    pub fallback_provider: String,
    pub fallback_model: String,
    pub pricing: PricingTable,
    pub clock: C,
    pub metrics: ClientMetrics,
}

impl<P: Provider, F: Provider, C: Clock> LlmClient<P, F, C> {
    /// The configuration a call must not change: provider names, fallback
    /// model, pricing, and whether a fallback exists.
    pub open spec fn same_setup(self, other: Self) -> bool {
        &&& self.primary_provider@ == other.primary_provider@
        &&& self.fallback_provider@ == other.fallback_provider@
        &&& self.fallback_model@ == other.fallback_model@
        &&& self.pricing@ == other.pricing@
        &&& self.pricing.wf() == other.pricing.wf()
        &&& (self.fallback is Some <==> other.fallback is Some)
    }

    /// Everything one logical generation call promises, as a relation
    /// between the client before the call, the client after it, and the
    /// result: configuration untouched; the fallback counter unchanged or,
    /// with a fallback configured, bumped once; every success carries the
    /// table-computed cost and the name of the provider that served it,
    /// consistently with the counter; every failure is classified; a failure
    /// with no fallback wraps the primary's cause under the terminal
    /// message; and the error and retry counters move exactly as the two
    /// bounded retry budgets dictate.
    pub open spec fn generate_post(
        pre: Self,
        post: Self,
        r: Result<GenerateResponse, LlmError>,
    ) -> bool {
        &&& post.same_setup(pre)
        &&& (post.metrics.fallbacks == pre.metrics.fallbacks || (pre.fallback is Some
            && post.metrics.fallbacks == inc(pre.metrics.fallbacks)))
        &&& (pre.fallback is None ==> post.metrics.fallbacks == pre.metrics.fallbacks)
        &&& (r matches Ok(resp) ==> resp.cost_nanos == cost_nanos_spec(
            pre.pricing@,
            resp.model@,
            resp.input_tokens,
            resp.output_tokens,
        ) && ((resp.provider@ == pre.primary_provider@ && post.metrics.fallbacks
            == pre.metrics.fallbacks) || (resp.provider@ == pre.fallback_provider@ && pre.fallback
            is Some && post.metrics.fallbacks == inc(pre.metrics.fallbacks))))
        &&& (r matches Err(e) ==> e.category@ == classify_spec(lower_of(e.message@)))
        &&& (r matches Err(e) ==> (pre.fallback is None ==> exists|cause: Seq<char>|
            e.message@ == "primary provider "@ + pre.primary_provider@
                + " failed after retries: "@ + cause))
        &&& pre.metrics.errors <= post.metrics.errors <= pre.metrics.errors + 2 * MAX_ATTEMPTS
        &&& pre.metrics.retries <= post.metrics.retries <= pre.metrics.retries + 2 * (MAX_ATTEMPTS
            - 1)
        &&& (r is Err && pre.fallback is None ==> post.metrics.errors == inc_n(
            pre.metrics.errors,
            MAX_ATTEMPTS as nat,
        ) && post.metrics.retries == inc_n(pre.metrics.retries, (MAX_ATTEMPTS - 1) as nat))
        &&& (r is Err && pre.fallback is Some ==> post.metrics.errors == inc_n(
            pre.metrics.errors,
            (2 * MAX_ATTEMPTS) as nat,
        ) && post.metrics.retries == inc_n(pre.metrics.retries, (2 * (MAX_ATTEMPTS - 1)) as nat))
    }

    /// A logical call escalates at most once, observably: when the two
    /// provider names differ, a response served by the fallback shows the
    /// fallback counter exactly one higher (and a fallback configured), and
    /// a response served by the primary leaves it unchanged. Equal names
    /// would make the serving provider unobservable in the response, so they
    /// are excluded.
    pub proof fn lemma_fallback_counts_once(
        pre: Self,
        post: Self,
        r: Result<GenerateResponse, LlmError>,
        resp: GenerateResponse,
    )
        requires
            Self::generate_post(pre, post, r),
            r == Ok::<GenerateResponse, LlmError>(resp),
            pre.primary_provider@ != pre.fallback_provider@,
        ensures
            resp.provider@ == pre.primary_provider@ || resp.provider@ == pre.fallback_provider@,
            resp.provider@ == pre.fallback_provider@ ==> pre.fallback is Some
                && post.metrics.fallbacks == inc(pre.metrics.fallbacks),
            resp.provider@ == pre.primary_provider@ ==> post.metrics.fallbacks
                == pre.metrics.fallbacks,
    {
    }

    /// One logical generation call: the primary provider with retries, then
    /// the fallback provider (with its model override) if the primary
    /// exhausts its budget, else a terminal error naming the primary.
    pub fn generate(&mut self, req: &GenerateRequest) -> (r: Result<GenerateResponse, LlmError>)
        requires
            old(self).pricing.wf(),
        ensures
            Self::generate_post(*old(self), *final(self), r),
    {
        let primary_result = generate_with_retry(
            &mut self.primary,
            self.primary_provider.as_str(),
            &self.pricing,
            &mut self.clock,
            &mut self.metrics,
            req,
        );
        match primary_result {
            Ok(resp) => Ok(resp),
            Err(primary_err) => {
                match &mut self.fallback {
                    Some(fb) => {
                        self.metrics.fallbacks = bump(self.metrics.fallbacks);
                        let fallback_req = GenerateRequest {
                            model: self.fallback_model.clone(),
                            system: req.system.clone(),
                            prompt: req.prompt.clone(),
                            temperature_milli: req.temperature_milli,
                            max_tokens: req.max_tokens,
                            stage: req.stage.clone(),
                        };
                        let fallback_result = generate_with_retry(
                            fb,
                            self.fallback_provider.as_str(),
                            &self.pricing,
                            &mut self.clock,
                            &mut self.metrics,
                            &fallback_req,
                        );
                        proof {
                            if fallback_result is Err {
                                lemma_inc_n_add(
                                    old(self).metrics.errors,
                                    MAX_ATTEMPTS as nat,
                                    MAX_ATTEMPTS as nat,
                                );
                                lemma_inc_n_add(
                                    old(self).metrics.retries,
                                    (MAX_ATTEMPTS - 1) as nat,
                                    (MAX_ATTEMPTS - 1) as nat,
                                );
                            }
                        }
                        fallback_result
                    },
                    None => {
                        let mut message = String::new();
                        message.append("primary provider ");
                        message.append(self.primary_provider.as_str());
                        message.append(" failed after retries: ");
                        message.append(primary_err.message.as_str());
                        let category = classify_error(message.as_str()).to_owned();
                        proof {
                            assert(message@ == "primary provider "@ + old(
                                self,
                            ).primary_provider@ + " failed after retries: "@
                                + primary_err.message@);
                        }
                        Err(LlmError { message, category })
                    },
                }
            },
        }
    }
}

} // verus!
