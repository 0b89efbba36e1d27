use vstd::prelude::*;

use crate::models::DelayConfig;
use vstd::string::StringExecFns;

verus! {

/// The pause a call must take, given the pacing policy and a random roll:
/// nothing when pacing is disabled, otherwise a duration within the
/// configured range, picked by the roll.
pub open spec fn delay_spec(cfg: DelayConfig, roll: u64) -> u64 {
    if !cfg.enabled {
        0
    } else if cfg.min_delay_ms >= cfg.max_delay_ms {
        cfg.min_delay_ms
    } else if cfg.max_delay_ms - cfg.min_delay_ms == u64::MAX {
        roll
    } else {
        (cfg.min_delay_ms + roll % ((cfg.max_delay_ms - cfg.min_delay_ms + 1) as u64)) as u64
    }
}

/// Computes the pre-call pause in milliseconds.
///
/// With pacing enabled the result always lies in the configured range; with
/// pacing disabled no artificial delay is added.
pub fn delay_ms(cfg: &DelayConfig, roll: u64) -> (d: u64)
    ensures
        d == delay_spec(*cfg, roll),
        !cfg.enabled ==> d == 0,
        cfg.enabled && cfg.min_delay_ms <= cfg.max_delay_ms ==> cfg.min_delay_ms <= d
            <= cfg.max_delay_ms,
{
    if !cfg.enabled {
        0
    } else if cfg.min_delay_ms >= cfg.max_delay_ms {
        cfg.min_delay_ms
    } else if cfg.max_delay_ms - cfg.min_delay_ms == u64::MAX {
        roll
    } else {
        cfg.min_delay_ms + roll % (cfg.max_delay_ms - cfg.min_delay_ms + 1)
    }
}

/// The fixed pool of client-identity strings, one per index below five.
pub open spec fn identity_spec(i: int) -> Seq<char> {
    if i == 0 {
        "Mozilla/5.0 (Windows NT 10.0; Win64; x64) AppleWebKit/537.36 (KHTML, like Gecko) Chrome/124.0.0.0 Safari/537.36"@
    } else if i == 1 {
        "Mozilla/5.0 (Windows NT 10.0; Win64; x64; rv:126.0) Gecko/20100101 Firefox/126.0"@
    } else if i == 2 {
        "Mozilla/5.0 (Macintosh; Intel Mac OS X 10_15_7) AppleWebKit/605.1.15 (KHTML, like Gecko) Version/17.4 Safari/605.1.15"@
    } else if i == 3 {
        "Mozilla/5.0 (X11; Linux x86_64) AppleWebKit/537.36 (KHTML, like Gecko) Chrome/123.0.0.0 Safari/537.36"@
    } else {
        "Mozilla/5.0 (Windows NT 10.0; Win64; x64) AppleWebKit/537.36 (KHTML, like Gecko) Chrome/122.0.0.0 Safari/537.36 Edg/122.0.0.0"@
    }
}

/// How many identities the pool holds.
pub fn identity_pool_size() -> (n: usize)
    ensures
        n == 5,
{
    5
}

/// Selects a client identity from the fixed pool, uniformly by the roll.
pub fn pick_identity(roll: u64) -> (s: String)
    ensures
        s@ == identity_spec((roll % 5) as int),
{
    match roll % 5 {
        0 => String::from_str(
            "Mozilla/5.0 (Windows NT 10.0; Win64; x64) AppleWebKit/537.36 (KHTML, like Gecko) Chrome/124.0.0.0 Safari/537.36",
        ),
        1 => String::from_str(
            "Mozilla/5.0 (Windows NT 10.0; Win64; x64; rv:126.0) Gecko/20100101 Firefox/126.0",
        ),
        2 => String::from_str(
            "Mozilla/5.0 (Macintosh; Intel Mac OS X 10_15_7) AppleWebKit/605.1.15 (KHTML, like Gecko) Version/17.4 Safari/605.1.15",
        ),
        3 => String::from_str(
            "Mozilla/5.0 (X11; Linux x86_64) AppleWebKit/537.36 (KHTML, like Gecko) Chrome/123.0.0.0 Safari/537.36",
        ),
        _ => String::from_str(
            "Mozilla/5.0 (Windows NT 10.0; Win64; x64) AppleWebKit/537.36 (KHTML, like Gecko) Chrome/122.0.0.0 Safari/537.36 Edg/122.0.0.0",
        ),
    }
}

/// Everything a caller must apply to one outbound call: the pause to take
/// before sending, and the per-call identity override.
pub struct CallPlan {
    /// Milliseconds to sleep before the call.
    pub delay_ms: u64,
    /// The client-identity string for this call.
    pub identity: String,
}

/// Plans one outbound call from the pacing policy and two random rolls: the
/// pause follows the policy, and the identity is re-rolled for this call.
pub fn prepare_call(cfg: &DelayConfig, delay_roll: u64, identity_roll: u64) -> (plan: CallPlan)
    ensures
        plan.delay_ms == delay_spec(*cfg, delay_roll),
        plan.identity@ == identity_spec((identity_roll % 5) as int),
{
    CallPlan { delay_ms: delay_ms(cfg, delay_roll), identity: pick_identity(identity_roll) }
}

} // verus!
