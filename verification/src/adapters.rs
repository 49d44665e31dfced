//! The pure half of the provider adapters: normalizing vendor response
//! shapes into a [`GenerateResponse`] and building error messages from a
//! vendor error envelope. The HTTP transport itself lives with the
//! application; it hands these functions plain values.
//!
//! An adapter never fills in cost or logical provider name — those are the
//! client layer's, which may serve one vendor through another's transport.

use crate::llm::GenerateResponse;
use crate::text::{lower_of, lowercase, str_eq};
use vstd::prelude::*;
use vstd::string::StringExecFns;

verus! {

/// One block of a multi-part response body.
#[derive(Clone, Debug)]
pub struct ContentBlock {
    /// The block's vendor-reported type tag.
    pub kind: String,
    pub text: Option<String>,
}

/// The concatenated text of all text-typed blocks, in order.
pub open spec fn text_concat(blocks: Seq<ContentBlock>) -> Seq<char>
    decreases blocks.len(),
{
    if blocks.len() == 0 {
        Seq::empty()
    } else {
        text_concat(blocks.drop_last()) + (if blocks.last().kind@ == "text"@
            && blocks.last().text is Some {
            blocks.last().text->0@
        } else {
            Seq::<char>::empty()
        })
    }
}

/// Concatenate the text of all text-typed blocks.
pub fn concat_text_blocks(blocks: &Vec<ContentBlock>) -> (r: String)
    ensures
        r@ == text_concat(blocks@),
{
    let mut out = String::new();
    let n = blocks.len();
    let mut i: usize = 0;
    proof {
        assert(out@ =~= text_concat(blocks@.take(0)));
    }
    while i < n
        invariant
            0 <= i <= n,
            n == blocks@.len(),
            out@ == text_concat(blocks@.take(i as int)),
        decreases n - i,
    {
        proof {
            assert(blocks@.take(i as int + 1).drop_last() =~= blocks@.take(i as int));
            assert(blocks@.take(i as int + 1).last() == blocks@[i as int]);
        }
        let block = &blocks[i];
        if str_eq(block.kind.as_str(), "text") {
            match &block.text {
                Some(t) => {
                    out.append(t.as_str());
                },
                None => {
                    proof {
                        assert(out@ + Seq::<char>::empty() =~= out@);
                    }
                },
            }
        } else {
            proof {
                assert(out@ + Seq::<char>::empty() =~= out@);
            }
        }
        i = i + 1;
    }
    proof {
        assert(blocks@.take(n as int) =~= blocks@);
    }
    out
}

/// The error surfaced for a non-success status from the native vendor API:
/// always the status, then the envelope's human-readable message when the
/// envelope parsed, else the raw response body.
pub fn anthropic_error_message(status: &str, envelope_message: Option<String>, raw_body: &str) -> (r:
    String)
    ensures
        envelope_message matches Some(m) ==> r@ == "Anthropic API error ("@ + status@ + "): "@
            + m@,
        envelope_message is None ==> r@ == "Anthropic API error ("@ + status@ + "): "@
            + raw_body@,
{
    let mut s = String::new();
    s.append("Anthropic API error (");
    s.append(status);
    s.append("): ");
    match envelope_message {
        Some(m) => {
            s.append(m.as_str());
        },
        None => {
            s.append(raw_body);
        },
    }
    s
}

/// Normalize a native-format response: text blocks concatenated, the stop
/// reason as reported (empty when absent), cost and provider left for the
/// client layer.
pub fn anthropic_response(
    content: Vec<ContentBlock>,
    model: String,
    input_tokens: u32,
    output_tokens: u32,
    stop_reason: Option<String>,
) -> (r: GenerateResponse)
    ensures
        r.content@ == text_concat(content@),
        r.model == model,
        r.input_tokens == input_tokens,
        r.output_tokens == output_tokens,
        r.cost_nanos == 0,
        r.provider@.len() == 0,
        stop_reason matches Some(s) ==> r.finish_reason == s,
        stop_reason is None ==> r.finish_reason@.len() == 0,
{
    GenerateResponse {
        content: concat_text_blocks(&content),
        model,
        input_tokens,
        output_tokens,
        cost_nanos: 0,
        finish_reason: match stop_reason {
            Some(s) => s,
            None => String::new(),
        },
        provider: String::new(),
    }
}

/// Normalize an OpenAI-wire-format response: the first choice's text (empty
/// when absent), its finish reason lowercased into the shared vocabulary,
/// token usage or zeros, cost and provider left for the client layer.
pub fn openai_response(
    first_choice_content: Option<String>,
    model: String,
    usage: Option<(u32, u32)>,
    finish_reason: Option<String>,
) -> (r: GenerateResponse)
    ensures
        first_choice_content matches Some(c) ==> r.content == c,
        first_choice_content is None ==> r.content@.len() == 0,
        r.model == model,
        usage matches Some(u) ==> r.input_tokens == u.0 && r.output_tokens == u.1,
        usage is None ==> r.input_tokens == 0 && r.output_tokens == 0,
        r.cost_nanos == 0,
        r.provider@.len() == 0,
        finish_reason matches Some(f) ==> r.finish_reason@ == lower_of(f@),
        finish_reason is None ==> r.finish_reason@.len() == 0,
{
    let (input_tokens, output_tokens) = match usage {
        Some(u) => u,
        None => (0, 0),
    };
    GenerateResponse {
        content: match first_choice_content {
            Some(c) => c,
            None => String::new(),
        },
        model,
        input_tokens,
        output_tokens,
        cost_nanos: 0,
        finish_reason: match finish_reason {
            Some(f) => lowercase(f.as_str()),
            None => String::new(),
        },
        provider: String::new(),
    }
}

} // verus!
