//! What a whole recording delivers, iteration by iteration.

use vstd::prelude::*;
use crate::producer::Producer;
use crate::producer::ProducerStep;

verus! {

/// What the sampling task meets in one iteration.
pub struct Tick {
    /// Nanoseconds since the recording started.
    pub now_ns: u64,
    /// The stop flag as read at the top of the iteration.
    pub cancelled: bool,
    /// The raster that reading the screen yields, if it succeeds.
    pub raster: Option<(u32, u32, Seq<u8>)>,
}

/// The rasters that reach the channel, in sending order, when the sampling
/// task starts from `p` and meets `ticks` one after the other. A read that
/// fails ends the run; so does a step that decides to finish.
pub open spec fn delivered(p: Producer, ticks: Seq<Tick>) -> Seq<(u32, u32, Seq<u8>)>
    decreases ticks.len(),
{
    if ticks.len() == 0 {
        Seq::empty()
    } else {
        match (p.decide(ticks[0].now_ns, ticks[0].cancelled), ticks[0].raster) {
            (ProducerStep::Grab(_), Some(raster)) => seq![raster] + delivered(
                p.advanced(),
                ticks.drop_first(),
            ),
            _ => Seq::empty(),
        }
    }
}

/// The rasters of the first `n` ticks, in order.
pub open spec fn first_rasters(ticks: Seq<Tick>, n: nat) -> Seq<(u32, u32, Seq<u8>)>
    recommends
        n <= ticks.len(),
{
    Seq::new(n, |i: int| ticks[i].raster.unwrap())
}

/// A frame is read only before the deadline, within the budget, with the
/// stop flag down and after no failed read.
pub proof fn lemma_grab_only_in_time(p: Producer, now_ns: u64, cancelled: bool)
    ensures
        p.decide(now_ns, cancelled) is Grab <==> {
            &&& !cancelled
            &&& !p.failed
            &&& p.emitted < p.budget
            &&& now_ns < p.deadline_ns
        },
        p.decide(now_ns, cancelled) is Grab ==> p.decide(now_ns, cancelled) == ProducerStep::Grab(
            p.region,
        ),
{
}

/// A recording never delivers more frames than its budget has left,
/// whatever the clock, the stop flag and the screen do.
pub proof fn lemma_delivery_within_budget(p: Producer, ticks: Seq<Tick>)
    requires
        p.wf(),
    ensures
        delivered(p, ticks).len() <= p.budget - p.emitted,
    decreases ticks.len(),
{
    if ticks.len() > 0 {
        match (p.decide(ticks[0].now_ns, ticks[0].cancelled), ticks[0].raster) {
            (ProducerStep::Grab(_), Some(raster)) => {
                lemma_delivery_within_budget(p.advanced(), ticks.drop_first());
            },
            _ => {},
        }
    }
}

/// Where the stop flag goes up after `n` frames were sent, within budget and
/// before the deadline, exactly those `n` frames are delivered, in the order
/// in which they were read.
pub proof fn lemma_cancel_keeps_sent(p: Producer, ticks: Seq<Tick>, n: nat)
    requires
        p.wf(),
        !p.failed,
        p.emitted + n <= p.budget,
        n < ticks.len(),
        forall|i: int|
            0 <= i < n ==> {
                &&& !(#[trigger] ticks[i]).cancelled
                &&& ticks[i].now_ns < p.deadline_ns
                &&& ticks[i].raster is Some
            },
        ticks[n as int].cancelled,
    ensures
        delivered(p, ticks) == first_rasters(ticks, n),
    decreases n,
{
    if n == 0 {
        assert(delivered(p, ticks) =~= first_rasters(ticks, n));
    } else {
        let rest = ticks.drop_first();
        assert forall|i: int| 0 <= i < n - 1 implies {
            &&& !(#[trigger] rest[i]).cancelled
            &&& rest[i].now_ns < p.advanced().deadline_ns
            &&& rest[i].raster is Some
        } by {
            assert(rest[i] == ticks[i + 1]);
        }
        assert(rest[n - 1] == ticks[n as int]);
        lemma_cancel_keeps_sent(p.advanced(), rest, (n - 1) as nat);
        assert(first_rasters(rest, (n - 1) as nat) =~= first_rasters(ticks, n).drop_first()) by {
            assert forall|i: int| 0 <= i < n - 1 implies first_rasters(rest, (n - 1) as nat)[i]
                == first_rasters(ticks, n).drop_first()[i] by {
                assert(rest[i] == ticks[i + 1]);
            }
        }
        assert(delivered(p, ticks) =~= first_rasters(ticks, n));
    }
}

} // verus!
