use engine::queue_negotiation::{
    find_serving_family, make_default_priorities, negotiate_queues, remaining_counts,
    DEFAULT_QUEUE_PRIORITY_PERCENT,
};
use engine::vulkan_bindings::{VkExtent3D, VkQueueFamilyProperties};

const GRAPHICS: u32 = 0x1;
const COMPUTE: u32 = 0x2;
const TRANSFER: u32 = 0x4;

fn family(flags: u32, count: u32) -> VkQueueFamilyProperties {
    VkQueueFamilyProperties {
        queueFlags: flags,
        queueCount: count,
        timestampValidBits: 0,
        minImageTransferGranularity: VkExtent3D { width: 1, height: 1, depth: 1 },
    }
}

#[test]
fn default_priority_is_one_half() {
    assert_eq!(DEFAULT_QUEUE_PRIORITY_PERCENT, 50);
    assert_eq!(make_default_priorities(3), vec![50, 50, 50]);
    assert_eq!(make_default_priorities(0), Vec::<u8>::new());
}

#[test]
fn remaining_counts_are_the_queue_counts() {
    let families = vec![family(GRAPHICS, 4), family(COMPUTE, 0), family(TRANSFER, 2)];
    assert_eq!(remaining_counts(&families), vec![4, 0, 2]);
    assert_eq!(remaining_counts(&Vec::new()), Vec::<u32>::new());
}

#[test]
fn serving_family_is_the_first_that_intersects() {
    let families = vec![family(TRANSFER, 1), family(GRAPHICS | COMPUTE, 2), family(GRAPHICS, 1)];
    assert_eq!(find_serving_family(&vec![1, 2, 1], &families, GRAPHICS), Some(1));
    assert_eq!(find_serving_family(&vec![1, 2, 1], &families, TRANSFER), Some(0));
    assert_eq!(find_serving_family(&vec![1, 2, 1], &families, 0x8), None);
}

#[test]
fn used_up_family_does_not_serve() {
    let families = vec![family(GRAPHICS, 2), family(GRAPHICS, 1)];
    assert_eq!(find_serving_family(&vec![0, 1], &families, GRAPHICS), Some(1));
    assert_eq!(find_serving_family(&vec![0, 0], &families, GRAPHICS), None);
    assert_eq!(find_serving_family(&vec![], &families, GRAPHICS), None);
}

#[test]
fn one_capability_takes_the_whole_family() {
    let families = vec![family(GRAPHICS | COMPUTE, 3)];
    let outcome = negotiate_queues(&families, &[GRAPHICS | COMPUTE], &vec![true]);
    assert_eq!(outcome.queues.len(), 1);
    assert_eq!(outcome.queues[0].familyIndex, 0);
    assert_eq!(outcome.queues[0].capability, GRAPHICS | COMPUTE);
    assert_eq!(outcome.queues[0].priorities, vec![50, 50, 50]);
    assert_eq!(outcome.presentation, Some(0));
}

#[test]
fn no_family_serves_two_capabilities() {
    let families = vec![family(GRAPHICS | COMPUTE, 2), family(COMPUTE, 1)];
    let outcome = negotiate_queues(&families, &[GRAPHICS, COMPUTE], &vec![true, true]);
    assert_eq!(outcome.queues.len(), 2);
    assert_eq!(outcome.queues[0].familyIndex, 0);
    assert_eq!(outcome.queues[1].familyIndex, 1);
    assert_eq!(outcome.queues[1].priorities, vec![50]);
}

#[test]
fn second_capability_fails_when_its_only_family_is_used_up() {
    let families = vec![family(GRAPHICS | COMPUTE, 2)];
    let outcome = negotiate_queues(&families, &[GRAPHICS, COMPUTE], &vec![true]);
    assert_eq!(outcome.queues.len(), 1);
    assert_eq!(outcome.queues[0].capability, GRAPHICS);
}

#[test]
fn unmatched_capability_is_skipped_and_later_ones_still_served() {
    let families = vec![family(GRAPHICS, 1), family(TRANSFER, 1)];
    let outcome = negotiate_queues(&families, &[COMPUTE, TRANSFER], &vec![false, true]);
    assert_eq!(outcome.queues.len(), 1);
    assert_eq!(outcome.queues[0].familyIndex, 1);
    assert_eq!(outcome.queues[0].capability, TRANSFER);
    assert_eq!(outcome.presentation, Some(1));
}

#[test]
fn presentation_is_latched_on_the_first_matched_family_that_presents() {
    let families = vec![family(GRAPHICS, 1), family(COMPUTE, 1), family(TRANSFER, 1)];
    let outcome = negotiate_queues(&families, &[GRAPHICS, COMPUTE, TRANSFER], &vec![false, true, true]);
    assert_eq!(outcome.queues.len(), 3);
    assert_eq!(outcome.presentation, Some(1));
}

#[test]
fn presentation_needs_a_matched_family() {
    let families = vec![family(GRAPHICS, 1), family(COMPUTE, 1)];
    let outcome = negotiate_queues(&families, &[GRAPHICS], &vec![false, true]);
    assert_eq!(outcome.queues.len(), 1);
    assert_eq!(outcome.presentation, None);
}

#[test]
fn missing_support_flags_mean_no_presentation() {
    let families = vec![family(GRAPHICS, 1)];
    let outcome = negotiate_queues(&families, &[GRAPHICS], &Vec::new());
    assert_eq!(outcome.queues.len(), 1);
    assert_eq!(outcome.presentation, None);
}

#[test]
fn family_without_queues_is_never_assigned() {
    let families = vec![family(GRAPHICS, 0), family(GRAPHICS, 2)];
    let outcome = negotiate_queues(&families, &[GRAPHICS], &vec![true, true]);
    assert_eq!(outcome.queues.len(), 1);
    assert_eq!(outcome.queues[0].familyIndex, 1);
    assert_eq!(outcome.presentation, Some(1));
}

#[test]
fn no_capabilities_means_no_assignments() {
    let families = vec![family(GRAPHICS, 1)];
    let outcome = negotiate_queues(&families, &[], &vec![true]);
    assert!(outcome.queues.is_empty());
    assert_eq!(outcome.presentation, None);
}

#[test]
fn assigned_families_are_pairwise_distinct() {
    let families = vec![
        family(GRAPHICS | COMPUTE | TRANSFER, 1),
        family(GRAPHICS | COMPUTE | TRANSFER, 1),
        family(GRAPHICS | COMPUTE | TRANSFER, 1),
    ];
    let outcome = negotiate_queues(
        &families,
        &[GRAPHICS, GRAPHICS, COMPUTE, TRANSFER],
        &vec![true, true, true],
    );
    assert_eq!(outcome.queues.len(), 3);
    let mut seen: Vec<usize> = outcome.queues.iter().map(|q| q.familyIndex).collect();
    assert_eq!(seen, vec![0, 1, 2]);
    seen.dedup();
    assert_eq!(seen.len(), 3);
}
