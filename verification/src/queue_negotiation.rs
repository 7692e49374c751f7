//! Matching desired queue capabilities against the queue families of a
//! physical device.
//!
//! Capabilities are served in the caller's order. Each takes the first
//! family that still has queues and whose flags share a bit with it, and
//! uses the family up, so that no family serves two capabilities. The first
//! matched family that can present to the surface becomes the presentation
//! family.
use vstd::prelude::*;
use crate::vulkan_bindings::{flags_intersect, VkQueueFamilyProperties, VkQueueFlags};

verus! {

/// Priority given to every queue of an assigned family, in hundredths: one
/// half.
pub const DEFAULT_QUEUE_PRIORITY_PERCENT: u8 = 50;

/// A family assigned to a desired capability, with one priority for each of
/// the family's queues.
#[derive(Debug)]
pub struct QueueInfo {
    pub familyIndex: usize,
    pub capability: VkQueueFlags,
    pub priorities: Vec<u8>,
}

/// What a queue assignment says.
pub struct QueueAssignment {
    pub family: int,
    pub capability: VkQueueFlags,
    pub priorities: Seq<u8>,
}

impl View for QueueInfo {
    type V = QueueAssignment;

    open spec fn view(&self) -> QueueAssignment {
        QueueAssignment {
            family: self.familyIndex as int,
            capability: self.capability,
            priorities: self.priorities@,
        }
    }
}

/// What a list of queue assignments says, in order.
pub open spec fn assignments_of(queues: Seq<QueueInfo>) -> Seq<QueueAssignment> {
    queues.map_values(|q: QueueInfo| q@)
}

/// `count` priorities, each the default.
pub open spec fn default_priorities(count: u32) -> Seq<u8> {
    Seq::new(count as nat, |i: int| DEFAULT_QUEUE_PRIORITY_PERCENT)
}

/// A negotiation in progress.
pub struct Negotiation {
    /// Queues that each family still has to give.
    pub remaining: Seq<u32>,
    /// Assignments made so far, in the order of the capabilities they serve.
    pub assignments: Seq<QueueAssignment>,
    /// The family latched for presentation, once one is found.
    pub presentation: Option<int>,
}

/// The queue counts that the families report.
pub open spec fn queue_counts(families: Seq<VkQueueFamilyProperties>) -> Seq<u32> {
    families.map_values(|f: VkQueueFamilyProperties| f.queueCount)
}

/// Family `i` can serve `capability`: it has queues left and its flags
/// share a bit with the capability.
pub open spec fn family_serves(
    remaining: Seq<u32>,
    families: Seq<VkQueueFamilyProperties>,
    capability: VkQueueFlags,
    i: int,
) -> bool {
    &&& 0 <= i < families.len()
    &&& i < remaining.len()
    &&& remaining[i] > 0
    &&& flags_intersect(families[i].queueFlags, capability)
}

/// The first family below `n` that can serve `capability`.
pub open spec fn first_serving_family(
    remaining: Seq<u32>,
    families: Seq<VkQueueFamilyProperties>,
    capability: VkQueueFlags,
    n: int,
) -> Option<int>
    decreases n,
{
    if n <= 0 {
        None
    } else {
        match first_serving_family(remaining, families, capability, n - 1) {
            Some(i) => Some(i),
            None => if family_serves(remaining, families, capability, n - 1) {
                Some(n - 1)
            } else {
                None
            },
        }
    }
}

/// Family `i` can present to the surface.
pub open spec fn can_present(support: Seq<bool>, i: int) -> bool {
    0 <= i < support.len() && support[i]
}

/// The state before any capability is served.
pub open spec fn negotiation_start(families: Seq<VkQueueFamilyProperties>) -> Negotiation {
    Negotiation {
        remaining: queue_counts(families),
        assignments: Seq::empty(),
        presentation: None,
    }
}

/// Serves one capability.
pub open spec fn negotiation_step(
    state: Negotiation,
    families: Seq<VkQueueFamilyProperties>,
    support: Seq<bool>,
    capability: VkQueueFlags,
) -> Negotiation {
    match first_serving_family(state.remaining, families, capability, families.len() as int) {
        None => state,
        Some(i) => Negotiation {
            remaining: state.remaining.update(i, 0),
            assignments: state.assignments.push(
                QueueAssignment {
                    family: i,
                    capability,
                    priorities: default_priorities(state.remaining[i]),
                },
            ),
            presentation: if state.presentation is None && can_present(support, i) {
                Some(i)
            } else {
                state.presentation
            },
        },
    }
}

/// The state after the first `k` desired capabilities have been served.
pub open spec fn negotiate(
    families: Seq<VkQueueFamilyProperties>,
    support: Seq<bool>,
    desired: Seq<VkQueueFlags>,
    k: int,
) -> Negotiation
    decreases k,
{
    if k <= 0 {
        negotiation_start(families)
    } else {
        negotiation_step(negotiate(families, support, desired, k - 1), families, support, desired[k - 1])
    }
}

/// The whole negotiation.
pub open spec fn negotiation_of(
    families: Seq<VkQueueFamilyProperties>,
    support: Seq<bool>,
    desired: Seq<VkQueueFlags>,
) -> Negotiation {
    negotiate(families, support, desired, desired.len() as int)
}

/// A device is usable when every desired capability got a family and some
/// matched family can present.
pub open spec fn negotiation_succeeded(state: Negotiation, desired: Seq<VkQueueFlags>) -> bool {
    state.assignments.len() == desired.len() && state.presentation is Some
}

/// Capability `k` finds no family when its turn comes.
pub open spec fn capability_unmatched(
    families: Seq<VkQueueFamilyProperties>,
    support: Seq<bool>,
    desired: Seq<VkQueueFlags>,
    k: int,
) -> bool {
    &&& 0 <= k < desired.len()
    &&& first_serving_family(
        negotiate(families, support, desired, k).remaining,
        families,
        desired[k],
        families.len() as int,
    ) is None
}

/// What the first serving family is: a family that serves, with none
/// before it that does.
pub proof fn lemma_first_serving_family(
    remaining: Seq<u32>,
    families: Seq<VkQueueFamilyProperties>,
    capability: VkQueueFlags,
    n: int,
)
    ensures
        match first_serving_family(remaining, families, capability, n) {
            Some(i) => 0 <= i < n && family_serves(remaining, families, capability, i) && forall|
                j: int,
            |
                0 <= j < i ==> !family_serves(remaining, families, capability, j),
            None => forall|j: int| 0 <= j < n ==> !family_serves(remaining, families, capability, j),
        },
    decreases n,
{
    if n > 0 {
        lemma_first_serving_family(remaining, families, capability, n - 1);
    }
}

/// What holds of a negotiation at every step: the families that were
/// assigned are used up, nothing else changed, and the presentation family
/// is one of the assigned families that can present.
pub open spec fn negotiation_consistent(
    state: Negotiation,
    families: Seq<VkQueueFamilyProperties>,
    support: Seq<bool>,
) -> bool {
    &&& state.remaining.len() == families.len()
    &&& forall|a: int|
        0 <= a < state.assignments.len() ==> {
            &&& 0 <= (#[trigger] state.assignments[a]).family < families.len()
            &&& state.remaining[state.assignments[a].family] == 0
            &&& families[state.assignments[a].family].queueCount > 0
            &&& flags_intersect(
                families[state.assignments[a].family].queueFlags,
                state.assignments[a].capability,
            )
            &&& state.assignments[a].priorities == default_priorities(
                families[state.assignments[a].family].queueCount,
            )
        }
    &&& forall|i: int|
        0 <= i < families.len() ==> #[trigger] state.remaining[i] == 0 || state.remaining[i]
            == families[i].queueCount
    &&& forall|a: int, b: int|
        0 <= a < b < state.assignments.len() ==> (#[trigger] state.assignments[a]).family != (
        #[trigger] state.assignments[b]).family
    &&& match state.presentation {
        Some(p) => can_present(support, p) && exists|a: int|
            0 <= a < state.assignments.len() && (#[trigger] state.assignments[a]).family == p,
        None => forall|a: int|
            0 <= a < state.assignments.len() ==> !can_present(
                support,
                (#[trigger] state.assignments[a]).family,
            ),
    }
}

/// One step keeps a negotiation consistent.
pub proof fn lemma_step_consistent(
    state: Negotiation,
    families: Seq<VkQueueFamilyProperties>,
    support: Seq<bool>,
    capability: VkQueueFlags,
)
    requires
        negotiation_consistent(state, families, support),
    ensures
        negotiation_consistent(
            negotiation_step(state, families, support, capability),
            families,
            support,
        ),
{
    let next = negotiation_step(state, families, support, capability);
    lemma_first_serving_family(state.remaining, families, capability, families.len() as int);
    match first_serving_family(state.remaining, families, capability, families.len() as int) {
        None => {},
        Some(i) => {
            let n = state.assignments.len() as int;
            assert(next.assignments[n].family == i);
            assert forall|a: int| 0 <= a < next.assignments.len() implies {
                &&& 0 <= (#[trigger] next.assignments[a]).family < families.len()
                &&& next.remaining[next.assignments[a].family] == 0
                &&& families[next.assignments[a].family].queueCount > 0
                &&& flags_intersect(
                    families[next.assignments[a].family].queueFlags,
                    next.assignments[a].capability,
                )
                &&& next.assignments[a].priorities == default_priorities(
                    families[next.assignments[a].family].queueCount,
                )
            } by {
                if a < n {
                    assert(next.assignments[a] == state.assignments[a]);
                }
            }
            assert forall|a: int, b: int| 0 <= a < b < next.assignments.len() implies (
            #[trigger] next.assignments[a]).family != (#[trigger] next.assignments[b]).family by {
                assert(next.assignments[a] == state.assignments[a]);
                if b < n {
                    assert(next.assignments[b] == state.assignments[b]);
                }
            }
            match next.presentation {
                Some(p) => {
                    if state.presentation is None {
                        assert(next.assignments[n].family == p);
                    } else {
                        let a = choose|a: int|
                            0 <= a < state.assignments.len() && (
                            #[trigger] state.assignments[a]).family == p;
                        assert(next.assignments[a] == state.assignments[a]);
                    }
                },
                None => {
                    assert forall|a: int| 0 <= a < next.assignments.len() implies !can_present(
                        support,
                        (#[trigger] next.assignments[a]).family,
                    ) by {
                        if a < n {
                            assert(next.assignments[a] == state.assignments[a]);
                        }
                    }
                },
            }
        },
    }
}

/// A negotiation is consistent at every step, and has made at most one
/// assignment for each capability served.
pub proof fn lemma_negotiation_consistent(
    families: Seq<VkQueueFamilyProperties>,
    support: Seq<bool>,
    desired: Seq<VkQueueFlags>,
    k: int,
)
    ensures
        negotiation_consistent(negotiate(families, support, desired, k), families, support),
        negotiate(families, support, desired, k).assignments.len() <= if k < 0 {
            0
        } else {
            k
        },
    decreases k,
{
    if k > 0 {
        lemma_negotiation_consistent(families, support, desired, k - 1);
        lemma_step_consistent(
            negotiate(families, support, desired, k - 1),
            families,
            support,
            desired[k - 1],
        );
    }
}

/// No family is assigned to two desired capabilities: the families of any
/// two assignments of a negotiation differ.
pub proof fn lemma_no_family_assigned_twice(
    families: Seq<VkQueueFamilyProperties>,
    support: Seq<bool>,
    desired: Seq<VkQueueFlags>,
    a: int,
    b: int,
)
    requires
        0 <= a < negotiation_of(families, support, desired).assignments.len(),
        0 <= b < negotiation_of(families, support, desired).assignments.len(),
        a != b,
    ensures
        negotiation_of(families, support, desired).assignments[a].family != negotiation_of(
            families,
            support,
            desired,
        ).assignments[b].family,
{
    lemma_negotiation_consistent(families, support, desired, desired.len() as int);
    let state = negotiation_of(families, support, desired);
    if a < b {
        assert(state.assignments[a].family != state.assignments[b].family);
    } else {
        assert(state.assignments[b].family != state.assignments[a].family);
    }
}

/// Once a capability went unmatched, fewer assignments than capabilities
/// served have been made.
proof fn lemma_unmatched_leaves_gap(
    families: Seq<VkQueueFamilyProperties>,
    support: Seq<bool>,
    desired: Seq<VkQueueFlags>,
    unmatched: int,
    k: int,
)
    requires
        capability_unmatched(families, support, desired, unmatched),
        unmatched < k,
    ensures
        negotiate(families, support, desired, k).assignments.len() < k,
    decreases k,
{
    if k == unmatched + 1 {
        lemma_negotiation_consistent(families, support, desired, unmatched);
    } else {
        lemma_unmatched_leaves_gap(families, support, desired, unmatched, k - 1);
    }
}

/// A negotiation fails when any desired capability finds no family.
pub proof fn lemma_unmatched_capability_fails(
    families: Seq<VkQueueFamilyProperties>,
    support: Seq<bool>,
    desired: Seq<VkQueueFlags>,
    unmatched: int,
)
    requires
        capability_unmatched(families, support, desired, unmatched),
    ensures
        !negotiation_succeeded(negotiation_of(families, support, desired), desired),
{
    lemma_unmatched_leaves_gap(families, support, desired, unmatched, desired.len() as int);
}

/// A negotiation that made an assignment for every capability served each
/// of them in turn: assignment `k` serves capability `k`.
pub proof fn lemma_complete_negotiation_in_order(
    families: Seq<VkQueueFamilyProperties>,
    support: Seq<bool>,
    desired: Seq<VkQueueFlags>,
    k: int,
)
    requires
        0 <= k <= desired.len(),
        negotiate(families, support, desired, k).assignments.len() == k,
    ensures
        forall|j: int|
            0 <= j < k ==> (#[trigger] negotiate(
                families,
                support,
                desired,
                k,
            ).assignments[j]).capability == desired[j],
    decreases k,
{
    if k > 0 {
        lemma_negotiation_consistent(families, support, desired, k - 1);
        let before = negotiate(families, support, desired, k - 1);
        let after = negotiate(families, support, desired, k);
        lemma_complete_negotiation_in_order(families, support, desired, k - 1);
        assert forall|j: int| 0 <= j < k implies (#[trigger] after.assignments[j]).capability
            == desired[j] by {
            if j < k - 1 {
                assert(after.assignments[j] == before.assignments[j]);
            }
        }
    }
}

/// `count` priorities, each the default.
pub fn make_default_priorities(count: u32) -> (priorities: Vec<u8>)
    ensures
        priorities@ == default_priorities(count),
{
    let mut priorities: Vec<u8> = Vec::new();
    let mut i: u32 = 0;
    while i < count
        invariant
            i <= count,
            priorities@ == default_priorities(i),
        decreases count - i,
    {
        priorities.push(DEFAULT_QUEUE_PRIORITY_PERCENT);
        i = i + 1;
        proof {
            assert(priorities@ =~= default_priorities(i));
        }
    }
    proof {
        assert(priorities@ =~= default_priorities(count));
    }
    priorities
}

/// The queue counts that the families report.
pub fn remaining_counts(families: &Vec<VkQueueFamilyProperties>) -> (remaining: Vec<u32>)
    ensures
        remaining@ == queue_counts(families@),
{
    let mut remaining: Vec<u32> = Vec::new();
    let mut i: usize = 0;
    while i < families.len()
        invariant
            i <= families@.len(),
            remaining@ == queue_counts(families@.take(i as int)),
        decreases families@.len() - i,
    {
        remaining.push(families[i].queueCount);
        proof {
            assert(remaining@ =~= queue_counts(families@.take(i as int + 1)));
        }
        i = i + 1;
    }
    proof {
        assert(families@.take(i as int) =~= families@);
    }
    remaining
}

/// The first family that can serve `capability`, if any.
pub fn find_serving_family(
    remaining: &Vec<u32>,
    families: &Vec<VkQueueFamilyProperties>,
    capability: VkQueueFlags,
) -> (found: Option<usize>)
    ensures
        match found {
            Some(i) => first_serving_family(
                remaining@,
                families@,
                capability,
                families@.len() as int,
            ) == Some(i as int),
            None => first_serving_family(remaining@, families@, capability, families@.len() as int)
                is None,
        },
{
    let mut i: usize = 0;
    while i < families.len()
        invariant
            i <= families@.len(),
            first_serving_family(remaining@, families@, capability, i as int) is None,
        decreases families@.len() - i,
    {
        if i < remaining.len() && remaining[i] > 0 && families[i].queueFlags & capability != 0 {
            proof {
                lemma_first_found_stays(
                    remaining@,
                    families@,
                    capability,
                    i as int,
                    families@.len() as int,
                );
            }
            return Some(i);
        }
        i = i + 1;
    }
    None
}

/// A family found as first below some bound is the first below any larger
/// bound.
proof fn lemma_first_found_stays(
    remaining: Seq<u32>,
    families: Seq<VkQueueFamilyProperties>,
    capability: VkQueueFlags,
    i: int,
    n: int,
)
    requires
        0 <= i < n,
        first_serving_family(remaining, families, capability, i) is None,
        family_serves(remaining, families, capability, i),
    ensures
        first_serving_family(remaining, families, capability, n) == Some(i),
    decreases n,
{
    if n > i + 1 {
        lemma_first_found_stays(remaining, families, capability, i, n - 1);
    }
}

/// What a finished negotiation yields: the assignments and the
/// presentation family.
pub struct NegotiationOutcome {
    pub queues: Vec<QueueInfo>,
    pub presentation: Option<usize>,
}

/// Serves the desired capabilities in order.
///
/// `support[i]` tells whether family `i` can present to the surface; a
/// family beyond the end of `support` cannot.
pub fn negotiate_queues(
    families: &Vec<VkQueueFamilyProperties>,
    desired: &[VkQueueFlags],
    support: &Vec<bool>,
) -> (outcome: NegotiationOutcome)
    ensures
        assignments_of(outcome.queues@) == negotiation_of(families@, support@, desired@).assignments,
        match outcome.presentation {
            Some(p) => negotiation_of(families@, support@, desired@).presentation == Some(p as int),
            None => negotiation_of(families@, support@, desired@).presentation is None,
        },
{
    let mut remaining = remaining_counts(families);
    let mut queues: Vec<QueueInfo> = Vec::new();
    let mut presentation: Option<usize> = None;
    let mut k: usize = 0;
    proof {
        assert(assignments_of(queues@) =~= Seq::<QueueAssignment>::empty());
    }
    while k < desired.len()
        invariant
            k <= desired@.len(),
            remaining@ == negotiate(families@, support@, desired@, k as int).remaining,
            remaining@.len() == families@.len(),
            assignments_of(queues@) == negotiate(families@, support@, desired@, k as int).assignments,
            match presentation {
                Some(p) => negotiate(families@, support@, desired@, k as int).presentation == Some(
                    p as int,
                ),
                None => negotiate(families@, support@, desired@, k as int).presentation is None,
            },
        decreases desired@.len() - k,
    {
        let capability = desired[k];
        let ghost before = negotiate(families@, support@, desired@, k as int);
        proof {
            lemma_first_serving_family(remaining@, families@, capability, families@.len() as int);
        }
        match find_serving_family(&remaining, families, capability) {
            None => {},
            Some(i) => {
                if presentation.is_none() && i < support.len() && support[i] {
                    presentation = Some(i);
                }
                let count = remaining[i];
                let ghost queues_before = queues@;
                queues.push(
                    QueueInfo {
                        familyIndex: i,
                        capability,
                        priorities: make_default_priorities(count),
                    },
                );
                remaining.set(i, 0);
                proof {
                    assert(assignments_of(queues@) =~= assignments_of(queues_before).push(
                        QueueAssignment {
                            family: i as int,
                            capability,
                            priorities: default_priorities(count),
                        },
                    ));
                }
            },
        }
        k = k + 1;
    }
    NegotiationOutcome { queues, presentation }
}

} // verus!
