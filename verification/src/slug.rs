//! URL slugs for article titles: lowercase, alphanumeric runs joined by
//! single hyphens, nothing leading or trailing.

use crate::text::{lower_of, lowercase};
use vstd::prelude::*;
use vstd::string::StrSliceExecFns;
use vstd::string::StringExecFns;

verus! {

/// Whether the character is alphanumeric, named: a Unicode property of the
/// character alone.
pub uninterp spec fn is_alnum(c: char) -> bool;

/// Relies on char::is_alphanumeric: a Unicode property of the character
/// alone.
#[verifier::external_body]
fn char_is_alphanumeric(c: char) -> (r: bool)
    ensures
        r == is_alnum(c),
{
    c.is_alphanumeric()
}

/// The slug of a (lowercased) text: its alphanumeric characters, with each
/// maximal run of anything else collapsed into a single inner hyphen.
pub open spec fn slug_of(s: Seq<char>) -> Seq<char>
    decreases s.len(),
{
    if s.len() == 0 {
        Seq::empty()
    } else {
        let rest = slug_of(s.drop_last());
        let c = s.last();
        if is_alnum(c) {
            if s.len() >= 2 && is_alnum(s[s.len() - 2]) {
                rest.push(c)
            } else if rest.len() > 0 {
                rest.push('-').push(c)
            } else {
                rest.push(c)
            }
        } else {
            rest
        }
    }
}

/// The shape every slug has: each character is alphanumeric or a hyphen,
/// the first and last characters are alphanumeric, and every
/// non-alphanumeric character is a single interior hyphen with alphanumeric
/// neighbours — so a slug never starts or ends with a hyphen and never holds
/// two in a row.
pub open spec fn well_formed_slug(t: Seq<char>) -> bool {
    &&& forall|i: int| 0 <= i < t.len() ==> is_alnum(#[trigger] t[i]) || t[i] == '-'
    &&& (t.len() > 0 ==> is_alnum(t[0]) && is_alnum(t.last()))
    &&& forall|i: int|
        0 <= i < t.len() && !is_alnum(#[trigger] t[i]) ==> 0 < i < t.len() - 1 && is_alnum(
            t[i - 1],
        ) && is_alnum(t[i + 1])
}

/// Every slug is well formed, whatever the text it came from.
pub proof fn lemma_slug_well_formed(s: Seq<char>)
    ensures
        well_formed_slug(slug_of(s)),
    decreases s.len(),
{
    if s.len() > 0 {
        lemma_slug_well_formed(s.drop_last());
        let rest = slug_of(s.drop_last());
        let c = s.last();
        let out = slug_of(s);
        if is_alnum(c) {
            if s.len() >= 2 && is_alnum(s[s.len() - 2]) {
                assert(out == rest.push(c));
                assert(well_formed_slug(out)) by {
                    assert forall|i: int|
                        0 <= i < out.len() && !is_alnum(#[trigger] out[i]) implies 0 < i
                        < out.len() - 1 && is_alnum(out[i - 1]) && is_alnum(out[i + 1]) by {
                        assert(out[i] == rest[i]);
                    }
                }
            } else if rest.len() > 0 {
                assert(out == rest.push('-').push(c));
                assert(well_formed_slug(out)) by {
                    assert forall|i: int|
                        0 <= i < out.len() && !is_alnum(#[trigger] out[i]) implies 0 < i
                        < out.len() - 1 && is_alnum(out[i - 1]) && is_alnum(out[i + 1]) by {
                        if i < rest.len() {
                            assert(out[i] == rest[i]);
                            assert(out[i - 1] == rest[i - 1]);
                            assert(out[i + 1] == rest[i + 1]);
                        } else if i == rest.len() {
                            assert(out[i - 1] == rest.last());
                            assert(out[i + 1] == c);
                        } else {
                            assert(out[i] == c);
                        }
                    }
                }
            } else {
                assert(out == rest.push(c));
                assert(out.len() == 1);
            }
        } else {
            assert(out == rest);
        }
    }
}

/// Turn an article title into its URL slug.
pub fn generate_slug(title: &str) -> (r: String)
    ensures
        r@ == slug_of(lower_of(title@)),
{
    proof {
        reveal_strlit("-");
    }
    let lowered = lowercase(title);
    let l = lowered.as_str();
    let n = l.unicode_len();
    let mut out = String::new();
    let mut started = false;
    let mut prev_alnum = false;
    let mut i: usize = 0;
    proof {
        assert(l@.take(0) =~= Seq::<char>::empty());
    }
    while i < n
        invariant
            0 <= i <= n,
            n == l@.len(),
            l@ == lower_of(title@),
            out@ == slug_of(l@.take(i as int)),
            started == (out@.len() > 0),
            prev_alnum == (i > 0 && is_alnum(l@[i as int - 1])),
        decreases n - i,
    {
        proof {
            reveal_strlit("-");
            assert(l@.take(i as int + 1).drop_last() =~= l@.take(i as int));
            assert(l@.take(i as int + 1).last() == l@[i as int]);
        }
        let c = l.get_char(i);
        if char_is_alphanumeric(c) {
            if !prev_alnum && started {
                out.append("-");
                proof {
                    assert(out@ =~= slug_of(l@.take(i as int)).push('-'));
                }
            }
            out.append(l.substring_char(i, i + 1));
            proof {
                assert(l@.subrange(i as int, i as int + 1) =~= seq![l@[i as int]]);
                assert(out@ =~= slug_of(l@.take(i as int + 1)));
            }
            started = true;
            prev_alnum = true;
        } else {
            prev_alnum = false;
        }
        i = i + 1;
    }
    proof {
        assert(l@.take(n as int) =~= l@);
    }
    out
}

} // verus!
