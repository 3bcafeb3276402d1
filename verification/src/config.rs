//! Filter configuration: the debug flag read from a JSON text, the ordered
//! routing rules, and the literal each backend identity goes by on the wire.
//! Empty or malformed configuration input never prevents initialization; it
//! degrades to the defaults.

use vstd::prelude::*;
use crate::routing::BackendId;
use crate::routing::Rule;
use crate::routing::RuleV;
use crate::routing::rules_v;
use crate::text::is_prefix_of;
use crate::text::literal_server1;
use crate::text::literal_server1_bytes;
use crate::text::literal_server2;
use crate::text::literal_server2_bytes;
use crate::text::prefix_server1;
use crate::text::prefix_server1_bytes;
use crate::text::prefix_server2;
use crate::text::prefix_server2_bytes;
use crate::text::session_sep;

verus! {

/// Configuration of the router: a debug flag, the ordered (prefix, backend)
/// rules, and the wire literal of each backend identity.
#[derive(Clone)]
pub struct FilterConfig {
    pub debug: bool,
    pub rules: Vec<Rule>,
    pub literal_a: Vec<u8>,
    pub literal_b: Vec<u8>,
}

/// Mathematical shape of a [`FilterConfig`].
pub struct FilterConfigV {
    pub debug: bool,
    pub rules: Seq<RuleV>,
    pub literal_a: Seq<u8>,
    pub literal_b: Seq<u8>,
}

impl View for FilterConfig {
    type V = FilterConfigV;

    open spec fn view(&self) -> FilterConfigV {
        FilterConfigV {
            debug: self.debug,
            rules: rules_v(self.rules@),
            literal_a: self.literal_a@,
            literal_b: self.literal_b@,
        }
    }
}

impl FilterConfigV {
    /// The literal a backend identity goes by on the wire.
    pub open spec fn literal_of(self, b: BackendId) -> Seq<u8> {
        match b {
            BackendId::A => self.literal_a,
            BackendId::B => self.literal_b,
        }
    }

    /// The recognized backend-session prefix of `b`: its literal followed by
    /// `"-session-"`.
    pub open spec fn session_prefix(self, b: BackendId) -> Seq<u8> {
        self.literal_of(b) + session_sep()
    }

    /// Well-formed: the two recognized backend-session prefixes tell the
    /// backends apart — neither is a prefix of the other.
    pub open spec fn wf(self) -> bool {
        &&& !is_prefix_of(self.session_prefix(BackendId::A), self.session_prefix(BackendId::B))
        &&& !is_prefix_of(self.session_prefix(BackendId::B), self.session_prefix(BackendId::A))
    }
}

/// The default routing rules: `"server1-"` to the first backend, `"server2-"`
/// to the second, in that order.
pub open spec fn default_rules_v() -> Seq<RuleV> {
    seq![
        RuleV { prefix: prefix_server1(), backend: BackendId::A },
        RuleV { prefix: prefix_server2(), backend: BackendId::B },
    ]
}

/// What a configuration text holds: `None` when it does not parse as a JSON
/// object or its `"debug"` member is not a boolean; `Some(None)` for an object
/// without a `"debug"` member; `Some(Some(b))` for a boolean member `b`.
pub uninterp spec fn config_debug_of(s: Seq<char>) -> Option<Option<bool>>;

/// Relies on `serde_json::from_str` and `serde_json::Value::{is_object, get}`:
/// reads the `"debug"` member of a JSON object. The result depends on the
/// characters of `s` alone.
#[verifier::external_body]
fn parse_debug_flag(s: &str) -> (r: Option<Option<bool>>)
    ensures
        r == config_debug_of(s@),
{
    let v: serde_json::Value = serde_json::from_str(s).ok()?;
    if !v.is_object() {
        return None;
    }
    match v.get("debug") {
        None => Some(None),
        Some(serde_json::Value::Bool(b)) => Some(Some(*b)),
        Some(_) => None,
    }
}

impl FilterConfig {
    /// Builds a configuration from a JSON text. A boolean `"debug"` member is
    /// honoured; anything else — empty input, text that is not a JSON object,
    /// a missing or non-boolean member — degrades to `debug == false`. The
    /// routing rules and backend literals are the defaults either way.
    pub fn new(filter_config: &str) -> (r: Self)
        ensures
            r@.debug == (match config_debug_of(filter_config@) {
                Some(Some(b)) => b,
                _ => false,
            }),
            r@.rules == default_rules_v(),
            r@.literal_a == literal_server1(),
            r@.literal_b == literal_server2(),
            r@.wf(),
    {
        let debug = match parse_debug_flag(filter_config) {
            Some(Some(b)) => b,
            _ => false,
        };
        let mut rules: Vec<Rule> = Vec::new();
        rules.push(Rule { prefix: prefix_server1_bytes(), backend: BackendId::A });
        rules.push(Rule { prefix: prefix_server2_bytes(), backend: BackendId::B });
        let r = FilterConfig {
            debug,
            rules,
            literal_a: literal_server1_bytes(),
            literal_b: literal_server2_bytes(),
        };
        proof {
            assert(rules_v(r.rules@) =~= default_rules_v());
            lemma_default_literals_wf(r@);
        }
        r
    }
}

/// The default backend literals are told apart by their session prefixes:
/// `"server1-session-"` and `"server2-session-"` differ in the seventh byte.
proof fn lemma_default_literals_wf(cfg: FilterConfigV)
    requires
        cfg.literal_a == literal_server1(),
        cfg.literal_b == literal_server2(),
    ensures
        cfg.wf(),
{
    let pa = cfg.session_prefix(BackendId::A);
    let pb = cfg.session_prefix(BackendId::B);
    assert(pa[6] == 49u8);
    assert(pb[6] == 50u8);
    if is_prefix_of(pa, pb) {
        assert(pb[6] == pa[6]);
    }
    if is_prefix_of(pb, pa) {
        assert(pa[6] == pb[6]);
    }
}

} // verus!
