//! The launch plan: which pool managers and worker tasks to start.
//!
//! For each of `poolsize` logical slots and each target endpoint, one pool
//! manager is launched, and `concurrency` worker tasks share its handoff
//! queue on a multiplexed transport.  The runtime that actually spawns the
//! tasks lives outside the engine; it walks this plan.
use vstd::prelude::*;

use crate::config::Config;
use crate::wire::views_of;

verus! {

/// One slot to launch: a pool manager for `endpoint`, and `workers` worker
/// tasks consuming its handoff queue.
pub struct SlotPlan {
    pub endpoint: Vec<u8>,
    pub workers: usize,
}

/// The endpoints of a plan's slots, in order.
pub open spec fn slot_endpoints(p: Seq<SlotPlan>) -> Seq<Seq<u8>> {
    Seq::new(p.len(), |i: int| p[i].endpoint@)
}

/// The endpoint list repeated once per logical slot.
pub open spec fn spec_slot_rounds(eps: Seq<Seq<u8>>, pools: nat) -> Seq<Seq<u8>>
    decreases pools,
{
    if pools == 0 {
        Seq::empty()
    } else {
        spec_slot_rounds(eps, (pools - 1) as nat) + eps
    }
}

/// Build the launch plan: one slot per (pool, endpoint) pair, in pool-major
/// order, each slot carrying the configured worker count.
pub fn launch_plan(config: &Config) -> (plan: Vec<SlotPlan>)
    ensures
        slot_endpoints(plan@) == spec_slot_rounds(
            views_of(config.endpoints@),
            config.poolsize as nat,
        ),
        plan@.len() == config.poolsize * config.endpoints@.len(),
        forall|i: int| 0 <= i < plan@.len() ==> (#[trigger] plan@[i]).workers == config.concurrency,
{
    let mut plan: Vec<SlotPlan> = Vec::new();
    let mut p: usize = 0;
    proof {
        assert(slot_endpoints(plan@) =~= spec_slot_rounds(views_of(config.endpoints@), 0));
    }
    while p < config.poolsize
        invariant
            p <= config.poolsize,
            slot_endpoints(plan@) == spec_slot_rounds(views_of(config.endpoints@), p as nat),
            plan@.len() == p * config.endpoints@.len(),
            forall|i: int|
                0 <= i < plan@.len() ==> (#[trigger] plan@[i]).workers == config.concurrency,
        decreases config.poolsize - p,
    {
        let mut j: usize = 0;
        proof {
            assert(views_of(config.endpoints@).subrange(0, 0) =~= Seq::<Seq<u8>>::empty());
            assert(slot_endpoints(plan@) =~= spec_slot_rounds(views_of(config.endpoints@), p as nat)
                + views_of(config.endpoints@).subrange(0, 0));
        }
        while j < config.endpoints.len()
            invariant
                j <= config.endpoints@.len(),
                slot_endpoints(plan@) == spec_slot_rounds(views_of(config.endpoints@), p as nat)
                    + views_of(config.endpoints@).subrange(0, j as int),
                plan@.len() == p * config.endpoints@.len() + j,
                forall|i: int|
                    0 <= i < plan@.len() ==> (#[trigger] plan@[i]).workers == config.concurrency,
            decreases config.endpoints@.len() - j,
        {
            let endpoint = config.endpoints[j].clone();
            let ghost before = plan@;
            plan.push(SlotPlan { endpoint, workers: config.concurrency });
            proof {
                assert(views_of(config.endpoints@).subrange(0, j as int) + seq![
                    config.endpoints@[j as int]@,
                ] =~= views_of(config.endpoints@).subrange(0, j + 1));
                assert(slot_endpoints(plan@) =~= slot_endpoints(before) + seq![
                    config.endpoints@[j as int]@,
                ]);
            }
            j = j + 1;
        }
        proof {
            assert(views_of(config.endpoints@).subrange(0, config.endpoints@.len() as int)
                =~= views_of(config.endpoints@));
            assert(spec_slot_rounds(views_of(config.endpoints@), (p + 1) as nat)
                == spec_slot_rounds(views_of(config.endpoints@), p as nat) + views_of(
                config.endpoints@,
            ));
            assert((p + 1) * config.endpoints@.len() == p * config.endpoints@.len()
                + config.endpoints@.len()) by (nonlinear_arith);
        }
        p = p + 1;
    }
    plan
}

} // verus!
