//! Routing Decision Engine: an ordered list of (prefix, backend) rules,
//! evaluated in order, first match wins. A match yields the backend identity
//! and the tool name with the matched prefix removed; no match means
//! passthrough.

use vstd::prelude::*;
use crate::text::is_prefix_of;
use crate::text::skip_bytes;
use crate::text::starts_with;

verus! {

/// Identity of a routed backend. The literal spelling each one goes by on the
/// wire is configuration, not part of this value.
#[derive(Clone, Copy, PartialEq, Eq, Structural, Debug)]
pub enum BackendId {
    A,
    B,
}

/// One routing rule: tool names starting with `prefix` go to `backend`.
#[derive(Clone, Debug)]
pub struct Rule {
    pub prefix: Vec<u8>,
    pub backend: BackendId,
}

/// Mathematical shape of a [`Rule`].
pub struct RuleV {
    pub prefix: Seq<u8>,
    pub backend: BackendId,
}

impl View for Rule {
    type V = RuleV;

    open spec fn view(&self) -> RuleV {
        RuleV { prefix: self.prefix@, backend: self.backend }
    }
}

/// The views of a sequence of rules.
pub open spec fn rules_v(rs: Seq<Rule>) -> Seq<RuleV> {
    Seq::new(rs.len(), |i: int| rs[i]@)
}

/// The routing decision for `tool` under `rules`: the first rule whose prefix
/// starts `tool` wins, and the stripped name is `tool` without that prefix.
pub open spec fn first_match(rules: Seq<RuleV>, tool: Seq<u8>) -> Option<(BackendId, Seq<u8>)>
    decreases rules.len(),
{
    if rules.len() == 0 {
        None
    } else if is_prefix_of(rules[0].prefix, tool) {
        Some((rules[0].backend, tool.skip(rules[0].prefix.len() as int)))
    } else {
        first_match(rules.skip(1), tool)
    }
}

/// Evaluates the rules in order on `tool`; on the first matching prefix,
/// returns the backend and the tool name with exactly that prefix removed.
pub fn decide(rules: &Vec<Rule>, tool: &Vec<u8>) -> (r: Option<(BackendId, Vec<u8>)>)
    ensures
        match (r, first_match(rules_v(rules@), tool@)) {
            (None, None) => true,
            (Some(e), Some(s)) => e.0 == s.0 && e.1@ == s.1,
            _ => false,
        },
{
    let ghost all = rules_v(rules@);
    proof {
        assert(all.skip(0) =~= all);
    }
    let mut i: usize = 0;
    while i < rules.len()
        invariant
            0 <= i <= rules.len(),
            all == rules_v(rules@),
            all.len() == rules@.len(),
            first_match(all, tool@) == first_match(all.skip(i as int), tool@),
        decreases rules.len() - i,
    {
        proof {
            assert(all.skip(i as int)[0] == all[i as int]);
        }
        if starts_with(tool, &rules[i].prefix) {
            let stripped = skip_bytes(tool, rules[i].prefix.len());
            return Some((rules[i].backend, stripped));
        }
        proof {
            assert(all.skip(i as int).skip(1) =~= all.skip(i + 1));
        }
        i = i + 1;
    }
    proof {
        assert(all.skip(rules@.len() as int).len() == 0);
    }
    None
}

/// When no configured prefix starts the tool name, the decision is
/// passthrough: `first_match` returns `None` (and the caller leaves the body
/// byte-identical to its input).
pub proof fn lemma_no_match_is_passthrough(rules: Seq<RuleV>, tool: Seq<u8>)
    requires
        forall|i: int| 0 <= i < rules.len() ==> !is_prefix_of(rules[i].prefix, tool),
    ensures
        first_match(rules, tool) is None,
    decreases rules.len(),
{
    if rules.len() > 0 {
        assert(forall|i: int|
            0 <= i < rules.skip(1).len() ==> rules.skip(1)[i] == rules[i + 1]);
        lemma_no_match_is_passthrough(rules.skip(1), tool);
    }
}

/// When the decision is a match, it comes from the first rule whose prefix
/// starts the tool name, and the stripped name is the tool name with exactly
/// that prefix removed — an empty remainder stays an empty string.
pub proof fn lemma_match_strips_prefix(rules: Seq<RuleV>, tool: Seq<u8>, b: BackendId, s: Seq<u8>)
    requires
        first_match(rules, tool) == Some((b, s)),
    ensures
        exists|i: int|
            0 <= i < rules.len() && is_prefix_of(#[trigger] rules[i].prefix, tool) && b == rules[i].backend && s == tool.skip(rules[i].prefix.len() as int) && (forall|j: int|
                0 <= j < i ==> !is_prefix_of(rules[j].prefix, tool)),
    decreases rules.len(),
{
    if is_prefix_of(rules[0].prefix, tool) {
        assert(0 <= 0 < rules.len() && is_prefix_of(rules[0].prefix, tool) && b == rules[0].backend && s == tool.skip(rules[0].prefix.len() as int) && (forall|j: int|
            0 <= j < 0 ==> !is_prefix_of(rules[j].prefix, tool)));
    } else {
        lemma_match_strips_prefix(rules.skip(1), tool, b, s);
        let i = choose|i: int|
            0 <= i < rules.skip(1).len() && is_prefix_of(
                #[trigger] rules.skip(1)[i].prefix,
                tool,
            ) && b == rules.skip(1)[i].backend && s == tool.skip(
                rules.skip(1)[i].prefix.len() as int,
            ) && (forall|j: int| 0 <= j < i ==> !is_prefix_of(rules.skip(1)[j].prefix, tool));
        assert(forall|k: int| 0 <= k < rules.skip(1).len() ==> rules.skip(1)[k] == rules[k + 1]);
        assert(0 <= i + 1 < rules.len() && is_prefix_of(rules[i + 1].prefix, tool) && b == rules[i + 1].backend && s == tool.skip(rules[i + 1].prefix.len() as int));
        assert(forall|j: int| 0 <= j < i + 1 ==> !is_prefix_of(rules[j].prefix, tool)) by {
            assert(forall|j: int|
                1 <= j < i + 1 ==> rules[j] == rules.skip(1)[j - 1] && !is_prefix_of(
                    rules.skip(1)[j - 1].prefix,
                    tool,
                ));
        }
    }
}

} // verus!
