//! Fan-out over the configured destinations. Each destination is driven
//! by its own connection manager and the outcomes are collected
//! pointwise: no destination's result depends on any other's.
use vstd::prelude::*;
use crate::sender::SendError;

verus! {

/// One receiver endpoint, host bytes and port, configured at process
/// start. Destinations are independent: no ordering or priority holds
/// between them.
pub struct Destination {
    pub host: Vec<u8>,
    pub port: u16,
}

/// The delivery flags for one file event: destination `i` is marked
/// delivered exactly when its own send succeeded.
pub open spec fn delivered_flags(results: Seq<Result<(), SendError>>) -> Seq<bool> {
    results.map(|i: int, r: Result<(), SendError>| r is Ok)
}

/// Collects the per-destination outcomes of one file event into a
/// delivery report, one flag per destination, pointwise.
pub fn summarize_fanout(results: &Vec<Result<(), SendError>>) -> (r: Vec<bool>)
    ensures
        r@ == delivered_flags(results@),
{
    let mut r: Vec<bool> = Vec::new();
    let mut i: usize = 0;
    while i < results.len()
        invariant
            i <= results@.len(),
            r@ == delivered_flags(results@.subrange(0, i as int)),
        decreases results@.len() - i,
    {
        let ok = match &results[i] {
            Ok(_) => true,
            Err(_) => false,
        };
        r.push(ok);
        i += 1;
        proof {
            assert(results@.subrange(0, i as int).drop_last() =~= results@.subrange(
                0,
                i as int - 1,
            ));
            assert(r@ =~= delivered_flags(results@.subrange(0, i as int)));
        }
    }
    proof {
        assert(results@.subrange(0, results@.len() as int) =~= results@);
    }
    r
}

/// Fan-out independence: replacing one destination's outcome — say an
/// unreachable destination's failure — changes no other destination's
/// flag, and the replaced destination's flag reflects its own outcome
/// alone.
pub proof fn lemma_fanout_independence(
    results: Seq<Result<(), SendError>>,
    j: int,
    alt: Result<(), SendError>,
)
    requires
        0 <= j < results.len(),
    ensures
        forall|i: int|
            0 <= i < results.len() && i != j ==> delivered_flags(results.update(j, alt))[i]
                == delivered_flags(results)[i],
        delivered_flags(results.update(j, alt))[j] == (alt is Ok),
{
}

} // verus!
