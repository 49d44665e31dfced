//! The pricing table: maps a model identifier to per-token input/output
//! prices and computes the cost of a call. Prices are held in nanodollars
//! per token, so a cost is exact integer arithmetic; one dollar is
//! 1,000,000,000 nanodollars. An unknown model costs nothing: reports must
//! still be producible without current pricing data.

use crate::text::str_eq;
use vstd::prelude::*;

verus! {

/// Upper bound on a stored per-token price: one dollar per token, far above
/// any real price, low enough that no cost computation can overflow a `u64`.
pub const MAX_PRICE_NANOS: u64 = 1_000_000_000;

/// Per-token prices for one model, in nanodollars.
#[derive(Clone, Debug)]
pub struct PriceEntry {
    pub model: String,
    pub input_nanos: u64,
    pub output_nanos: u64,
}

/// Mathematical image of a [`PriceEntry`].
pub ghost struct PriceEntryView {
    pub model: Seq<char>,
    pub input_nanos: u64,
    pub output_nanos: u64,
}

impl View for PriceEntry {
    type V = PriceEntryView;

    open spec fn view(&self) -> PriceEntryView {
        PriceEntryView { model: self.model@, input_nanos: self.input_nanos, output_nanos: self.output_nanos }
    }
}

/// The first entry for `model`, if any.
pub open spec fn lookup_price(entries: Seq<PriceEntryView>, model: Seq<char>) -> Option<
    PriceEntryView,
>
    decreases entries.len(),
{
    if entries.len() == 0 {
        None
    } else if entries[0].model == model {
        Some(entries[0])
    } else {
        lookup_price(entries.drop_first(), model)
    }
}

/// Cost in nanodollars of a call: `input_tokens` times the per-token input
/// price plus `output_tokens` times the per-token output price, and zero for
/// a model the table does not list.
pub open spec fn cost_nanos_spec(
    entries: Seq<PriceEntryView>,
    model: Seq<char>,
    input_tokens: u32,
    output_tokens: u32,
) -> int {
    match lookup_price(entries, model) {
        None => 0,
        Some(e) => input_tokens * e.input_nanos + output_tokens * e.output_nanos,
    }
}

/// The model pricing table, loaded once at startup by the application and
/// read-only afterwards.
#[derive(Clone, Debug)]
pub struct PricingTable {
    pub entries: Vec<PriceEntry>,
}

impl View for PricingTable {
    type V = Seq<PriceEntryView>;

    open spec fn view(&self) -> Seq<PriceEntryView> {
        Seq::new(self.entries@.len(), |i: int| self.entries@[i]@)
    }
}

impl PricingTable {
    /// All stored prices are within [`MAX_PRICE_NANOS`].
    pub open spec fn wf(&self) -> bool {
        forall|i: int|
            0 <= i < self@.len() ==> #[trigger] self@[i].input_nanos <= MAX_PRICE_NANOS
                && self@[i].output_nanos <= MAX_PRICE_NANOS
    }

    /// An empty table: every model is unknown and every cost is zero.
    pub fn new() -> (r: PricingTable)
        ensures
            r@.len() == 0,
            r.wf(),
    {
        let r = PricingTable { entries: Vec::new() };
        proof {
            assert(r@ =~= Seq::<PriceEntryView>::empty());
        }
        r
    }

    /// Add a price entry. An entry whose price exceeds [`MAX_PRICE_NANOS`]
    /// nanodollars per token is rejected and the table is left unchanged.
    pub fn insert(&mut self, model: String, input_nanos: u64, output_nanos: u64) -> (ok: bool)
        requires
            old(self).wf(),
        ensures
            final(self).wf(),
            ok == (input_nanos <= MAX_PRICE_NANOS && output_nanos <= MAX_PRICE_NANOS),
            ok ==> final(self)@ =~= old(self)@.push(
                PriceEntryView { model: model@, input_nanos, output_nanos },
            ),
            !ok ==> final(self)@ =~= old(self)@,
    {
        if input_nanos <= MAX_PRICE_NANOS && output_nanos <= MAX_PRICE_NANOS {
            let ghost pre = self@;
            let ghost mv = model@;
            self.entries.push(PriceEntry { model, input_nanos, output_nanos });
            proof {
                assert(self@ =~= pre.push(
                    PriceEntryView { model: mv, input_nanos, output_nanos },
                ));
            }
            true
        } else {
            false
        }
    }

    /// Number of entries in the table.
    pub fn len(&self) -> (r: usize)
        ensures
            r == self@.len(),
    {
        self.entries.len()
    }

    /// Cost in nanodollars of a call that sent `input_tokens` tokens to
    /// `model` and got `output_tokens` back. A model the table does not list
    /// costs zero.
    pub fn calculate_cost(&self, model: &str, input_tokens: u32, output_tokens: u32) -> (r: u64)
        requires
            self.wf(),
        ensures
            r == cost_nanos_spec(self@, model@, input_tokens, output_tokens),
    {
        let n = self.entries.len();
        proof {
            assert(self@.skip(0) =~= self@);
        }
        let mut i: usize = 0;
        while i < n
            invariant
                0 <= i <= n,
                n == self@.len(),
                n == self.entries@.len(),
                self.wf(),
                lookup_price(self@, model@) == lookup_price(self@.skip(i as int), model@),
            decreases n - i,
        {
            proof {
                assert(self@.skip(i as int)[0] == self@[i as int]);
                assert(self@.skip(i as int).drop_first() =~= self@.skip(i as int + 1));
            }
            let e = &self.entries[i];
            if str_eq(e.model.as_str(), model) {
                proof {
                    assert(lookup_price(self@, model@) == Some(self@[i as int]));
                    assert(self@[i as int].input_nanos == e.input_nanos);
                    assert(self@[i as int].output_nanos == e.output_nanos);
                    assert(self@[i as int].input_nanos <= MAX_PRICE_NANOS);
                    vstd::arithmetic::mul::lemma_mul_upper_bound(
                        input_tokens as int,
                        u32::MAX as int,
                        e.input_nanos as int,
                        MAX_PRICE_NANOS as int,
                    );
                    vstd::arithmetic::mul::lemma_mul_upper_bound(
                        output_tokens as int,
                        u32::MAX as int,
                        e.output_nanos as int,
                        MAX_PRICE_NANOS as int,
                    );
                }
                return (input_tokens as u64) * e.input_nanos + (output_tokens as u64)
                    * e.output_nanos;
            }
            i = i + 1;
        }
        proof {
            assert(self@.skip(i as int) =~= Seq::<PriceEntryView>::empty());
        }
        0
    }
}

/// Observability lookup: the server address behind a provider name, with
/// `unknown` for a name outside the known set.
pub fn provider_server(name: &str) -> (r: &'static str)
    ensures
        name@ == "openai"@ ==> r@ == "api.openai.com"@,
        name@ == "anthropic"@ ==> r@ == "api.anthropic.com"@,
        name@ == "google"@ ==> r@ == "generativelanguage.googleapis.com"@,
        name@ == "ollama"@ ==> r@ == "localhost"@,
        name@ != "openai"@ && name@ != "anthropic"@ && name@ != "google"@ && name@ != "ollama"@
            ==> r@ == "unknown"@,
{
    proof {
        reveal_strlit("openai");
        reveal_strlit("anthropic");
        reveal_strlit("google");
        reveal_strlit("ollama");
        assert("openai"@ != "anthropic"@) by {
            assert("openai"@.len() != "anthropic"@.len());
        }
        assert("google"@ != "anthropic"@) by {
            assert("google"@.len() != "anthropic"@.len());
        }
        assert("ollama"@ != "anthropic"@) by {
            assert("ollama"@.len() != "anthropic"@.len());
        }
        assert("openai"@ != "google"@) by {
            assert("openai"@[0] != "google"@[0]);
        }
        assert("openai"@ != "ollama"@) by {
            assert("openai"@[1] != "ollama"@[1]);
        }
        assert("google"@ != "ollama"@) by {
            assert("google"@[0] != "ollama"@[0]);
        }
    }
    if str_eq(name, "openai") {
        "api.openai.com"
    } else if str_eq(name, "anthropic") {
        "api.anthropic.com"
    } else if str_eq(name, "google") {
        "generativelanguage.googleapis.com"
    } else if str_eq(name, "ollama") {
        "localhost"
    } else {
        "unknown"
    }
}

/// Observability lookup: the port behind a provider name, with 443 for a
/// name outside the known set.
pub fn provider_port(name: &str) -> (r: i64)
    ensures
        name@ == "ollama"@ ==> r == 11434,
        name@ != "ollama"@ ==> r == 443,
{
    if str_eq(name, "ollama") {
        11434
    } else {
        443
    }
}

} // verus!
