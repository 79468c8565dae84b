use vstd::prelude::*;

verus! {

/// The driver's position in its fixed two-pass sequence: both scanners run
/// once cold, then both again warm, strictly in this order, with no retries
/// and no branching.
#[derive(Clone, Copy, Debug, PartialEq, Eq, Structural)]
pub enum Phase {
    Start,
    ColdColumnarScan,
    ColdFastFieldScan,
    WarmColumnarScan,
    WarmFastFieldScan,
    Done,
}

/// The successor of each phase in the fixed sequence; `Done` stays `Done`.
pub open spec fn phase_after(p: Phase) -> Phase {
    match p {
        Phase::Start => Phase::ColdColumnarScan,
        Phase::ColdColumnarScan => Phase::ColdFastFieldScan,
        Phase::ColdFastFieldScan => Phase::WarmColumnarScan,
        Phase::WarmColumnarScan => Phase::WarmFastFieldScan,
        Phase::WarmFastFieldScan => Phase::Done,
        Phase::Done => Phase::Done,
    }
}

/// How many steps a phase still is from `Done`; strictly falls along
/// `phase_after` until `Done` is reached.
pub open spec fn phase_rank(p: Phase) -> nat {
    match p {
        Phase::Start => 5,
        Phase::ColdColumnarScan => 4,
        Phase::ColdFastFieldScan => 3,
        Phase::WarmColumnarScan => 2,
        Phase::WarmFastFieldScan => 1,
        Phase::Done => 0,
    }
}

/// The phase reached after `n` steps from `Start`.
pub open spec fn phase_at(n: nat) -> Phase
    decreases n,
{
    if n == 0 {
        Phase::Start
    } else {
        phase_after(phase_at((n - 1) as nat))
    }
}

/// Advances the driver by one step of the fixed sequence.
pub fn next_phase(p: &Phase) -> (r: Phase)
    ensures
        r == phase_after(*p),
        *p != Phase::Done ==> phase_rank(r) < phase_rank(*p),
{
    match p {
        Phase::Start => Phase::ColdColumnarScan,
        Phase::ColdColumnarScan => Phase::ColdFastFieldScan,
        Phase::ColdFastFieldScan => Phase::WarmColumnarScan,
        Phase::WarmColumnarScan => Phase::WarmFastFieldScan,
        Phase::WarmFastFieldScan => Phase::Done,
        Phase::Done => Phase::Done,
    }
}

/// Whether the driver has finished both passes.
pub fn is_done(p: &Phase) -> (r: bool)
    ensures
        r <==> *p == Phase::Done,
{
    match p {
        Phase::Done => true,
        _ => false,
    }
}

/// Law: starting from `Start`, the driver visits exactly the sequence
/// cold columnar scan, cold fast-field scan, warm columnar scan, warm
/// fast-field scan, and is done after five steps and thereafter.
pub proof fn lemma_driver_order()
    ensures
        phase_at(0) == Phase::Start,
        phase_at(1) == Phase::ColdColumnarScan,
        phase_at(2) == Phase::ColdFastFieldScan,
        phase_at(3) == Phase::WarmColumnarScan,
        phase_at(4) == Phase::WarmFastFieldScan,
        phase_at(5) == Phase::Done,
        forall|n: nat| n >= 5 ==> #[trigger] phase_at(n) == Phase::Done,
{
    assert forall|n: nat| n >= 5 implies #[trigger] phase_at(n) == Phase::Done by {
        lemma_done_from(n);
    }
}

/// Every step count of five or more lands on `Done`.
proof fn lemma_done_from(n: nat)
    requires
        n >= 5,
    ensures
        phase_at(n) == Phase::Done,
    decreases n,
{
    if n > 5 {
        lemma_done_from((n - 1) as nat);
    } else {
        reveal_with_fuel(phase_at, 6);
    }
}

} // verus!
