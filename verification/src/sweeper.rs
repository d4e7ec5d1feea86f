//! The orphan lifecycle sweep: a scheduled job that purges anonymous
//! links past their retention window. It runs off the request path, at a
//! fixed daily boundary; only the cutoff computation touches the clock,
//! and the removal itself is the registry's `remove_expired_orphans`.

use vstd::prelude::*;

use crate::registry::{links_wf, survives, LinkRegistry};
use crate::links::RouteView;

verus! {

/// Relies on `chrono::Utc::now` and `DateTime::timestamp`: seconds since
/// the Unix epoch at the moment of the call. Nothing can be promised of a
/// clock reading.
#[verifier::external_body]
fn now_timestamp() -> i64 {
    chrono::Utc::now().timestamp()
}

/// Run the sweep against the clock: remove every orphan older than
/// `retention_secs` seconds. Whatever instant the clock reports, only
/// orphans past some cutoff are removed and every owned link stays.
pub fn sweep_expired_now(reg: &mut LinkRegistry, retention_secs: i64) -> (removed: usize)
    requires
        old(reg).wf(),
        retention_secs >= 0,
    ensures
        final(reg).wf(),
        exists|cutoff: i64|
            final(reg)@ == old(reg)@.filter(survives(cutoff)) && removed == old(reg)@.len()
                - final(reg)@.len(),
{
    let now = now_timestamp();
    let cutoff: i64 = if now >= i64::MIN + retention_secs {
        now - retention_secs
    } else {
        i64::MIN
    };
    let removed = reg.remove_expired_orphans(cutoff);
    removed
}

/// Law: the sweep removes an orphan link created before the cutoff, and
/// leaves untouched a link of the same age — or any age — that has a
/// creator.
pub proof fn lemma_sweep_scope(s: Seq<RouteView>, cutoff: i64, i: int, j: int)
    requires
        links_wf(s),
        0 <= i < s.len(),
        0 <= j < s.len(),
        s[i].creator_id is None,
        s[i].created_at < cutoff,
        s[j].creator_id is Some,
    ensures
        !s.filter(survives(cutoff)).contains(s[i]),
        s.filter(survives(cutoff)).contains(s[j]),
{
    let out = s.filter(survives(cutoff));
    if out.contains(s[i]) {
        let k = choose|k: int| 0 <= k < out.len() && out[k] == s[i];
        s.lemma_filter_pred(survives(cutoff), k);
    }
    s.lemma_filter_contains(survives(cutoff), j);
}

} // verus!
