use engine::logical_device::VulkanLogicalDevice;
use engine::vulkan_synchro::{
    init_fence, init_semaphore, init_semaphore_reply, is_started, remove_started, reset_fences,
    wait_fences, CommandBufferAllocation, VulkanBufferType, VulkanCmdBuffer, VulkanCmdPool,
    VulkanSynchroError, VulkanWaitSemaphoresInfo,
};

fn device() -> VulkanLogicalDevice {
    VulkanLogicalDevice {
        device: 500,
        demanded_queues: Vec::new(),
        enabled_extensions: Vec::new(),
        physical_device: 0,
        ph_device: 1,
        queues: Vec::new(),
        memory_types: Vec::new(),
        presentation_mode: 0,
        functions: Vec::new(),
    }
}

fn pool() -> VulkanCmdPool {
    VulkanCmdPool::new(&device(), 0, 42).unwrap()
}

fn allocation(result: i32, buffers: &[u64]) -> CommandBufferAllocation {
    CommandBufferAllocation { result, buffers: buffers.to_vec() }
}

fn buffers(primary: &[u64]) -> VulkanCmdBuffer {
    VulkanCmdBuffer::new(&pool(), primary.len() as u32, 0, allocation(0, primary), allocation(0, &[])).unwrap()
}

#[test]
fn pool_create_info_is_transient_and_resettable() {
    let info = VulkanCmdPool::pool_create_info();
    assert_eq!(info.flags, 3);
    assert_eq!(info.queueFamilyIndex, 0);
}

#[test]
fn pool_creation_needs_success() {
    assert_eq!(
        VulkanCmdPool::new(&device(), -1, 42).unwrap_err(),
        VulkanSynchroError::COULDNT_CREATE_CMD_POOL
    );
    let p = pool();
    assert_eq!(p.cmd_pool_handle, 42);
    assert_eq!(p.logical_device, 500);
    assert!(p.cmd_buffers.is_none());
    assert_eq!(p.destroy(), 42);
}

#[test]
fn buffer_set_with_primary_and_secondary_buffers() {
    let set =
        VulkanCmdBuffer::new(&pool(), 3, 2, allocation(0, &[1, 2, 3]), allocation(0, &[4, 5])).unwrap();
    assert_eq!(set.cmd_pool, 42);
    assert_eq!(set.logical_device, 500);
    assert_eq!(set.primary_buffers, vec![1, 2, 3]);
    assert_eq!(set.secondary_buffers, vec![4, 5]);
    assert!(set.started_buffers.is_empty());
}

#[test]
fn secondary_allocation_is_skipped_when_none_is_asked_for() {
    let set = VulkanCmdBuffer::new(&pool(), 1, 0, allocation(0, &[1]), allocation(-1, &[9])).unwrap();
    assert_eq!(set.primary_buffers, vec![1]);
    assert!(set.secondary_buffers.is_empty());
}

#[test]
fn buffer_set_fails_when_an_allocation_fails() {
    assert_eq!(
        VulkanCmdBuffer::new(&pool(), 1, 1, allocation(-1, &[1]), allocation(0, &[2])).unwrap_err(),
        VulkanSynchroError::COULDNT_CREATE_CMD_BUFFER
    );
    assert_eq!(
        VulkanCmdBuffer::new(&pool(), 1, 1, allocation(0, &[1]), allocation(-1, &[2])).unwrap_err(),
        VulkanSynchroError::COULDNT_CREATE_CMD_BUFFER
    );
}

#[test]
fn allocate_info_names_pool_level_and_count() {
    let set = buffers(&[1]);
    let info = set.allocate_info(3, 1);
    assert_eq!(info.commandPool, 42);
    assert_eq!(info.level, 1);
    assert_eq!(info.commandBufferCount, 3);
    assert_eq!(set.create_buffer(2, 0, allocation(0, &[7, 8])), Ok(vec![7, 8]));
    assert_eq!(
        set.create_buffer(2, 0, allocation(5, &[7, 8])),
        Err(VulkanSynchroError::COULDNT_CREATE_CMD_BUFFER)
    );
}

#[test]
fn pool_gets_its_buffer_set() {
    let mut p = pool();
    assert_eq!(
        p.create_buffers(2, 0, allocation(-1, &[]), allocation(0, &[])).unwrap_err(),
        VulkanSynchroError::COULDNT_CREATE_CMD_BUFFER
    );
    assert!(p.cmd_buffers.is_none());
    let handed = p.create_buffers(2, 1, allocation(0, &[10, 11]), allocation(0, &[12])).unwrap();
    assert_eq!(handed.primary_buffers, vec![10, 11]);
    handed.begin_primary_buffer(1, 0, 0).unwrap();
    let set = p.cmd_buffers.as_ref().unwrap();
    assert_eq!(set.primary_buffers, vec![10, 11]);
    assert_eq!(set.secondary_buffers, vec![12]);
    assert_eq!(set.cmd_pool, 42);
    assert_eq!(set.started_buffers, vec![(VulkanBufferType::PRIMARY, 1)]);
}

#[test]
fn begin_records_the_buffer() {
    let mut set = buffers(&[1, 2, 3]);
    assert!(!set.is_recording(VulkanBufferType::PRIMARY, 1));
    assert_eq!(set.begin_primary_buffer(1, 1, 0), Ok(()));
    assert!(set.is_recording(VulkanBufferType::PRIMARY, 1));
    assert!(!set.is_recording(VulkanBufferType::SECONDARY, 1));
    assert!(!set.is_recording(VulkanBufferType::PRIMARY, 0));
    assert_eq!(set.started_buffers, vec![(VulkanBufferType::PRIMARY, 1)]);
}

#[test]
fn begin_twice_leaves_one_entry() {
    let mut set = buffers(&[1, 2, 3]);
    assert_eq!(set.begin_primary_buffer(2, 1, 0), Ok(()));
    assert_eq!(set.begin_primary_buffer(2, 1, 0), Ok(()));
    assert_eq!(set.started_buffers, vec![(VulkanBufferType::PRIMARY, 2)]);
    let entries = set.started_buffers.iter().filter(|e| **e == (VulkanBufferType::PRIMARY, 2)).count();
    assert_eq!(entries, 1);
}

#[test]
fn begin_fails_out_of_range_or_when_the_call_failed() {
    let mut set = buffers(&[1, 2, 3]);
    assert_eq!(
        set.begin_primary_buffer(3, 1, 0),
        Err(VulkanSynchroError::FAILED_STARTING_PRIMARY_BUFFER_RECORDING)
    );
    assert_eq!(
        set.begin_primary_buffer(0, 1, -1),
        Err(VulkanSynchroError::FAILED_STARTING_PRIMARY_BUFFER_RECORDING)
    );
    assert!(set.started_buffers.is_empty());
    assert_eq!(VulkanCmdBuffer::begin_info(1).flags, 1);
}

#[test]
fn end_makes_a_recording_buffer_idle() {
    let mut set = buffers(&[1, 2, 3]);
    set.begin_primary_buffer(0, 1, 0).unwrap();
    set.begin_primary_buffer(2, 1, 0).unwrap();
    assert_eq!(set.end_primary_buffer(0, 0), Ok(()));
    assert_eq!(set.started_buffers, vec![(VulkanBufferType::PRIMARY, 2)]);
    assert_eq!(set.end_primary_buffer(2, 0), Ok(()));
    assert!(set.started_buffers.is_empty());
}

#[test]
fn end_of_an_idle_buffer_does_nothing() {
    let mut set = buffers(&[1, 2, 3]);
    set.begin_primary_buffer(0, 1, 0).unwrap();
    assert_eq!(set.end_primary_buffer(1, -1), Ok(()));
    assert_eq!(set.end_primary_buffer(7, -1), Ok(()));
    assert_eq!(set.started_buffers, vec![(VulkanBufferType::PRIMARY, 0)]);
}

#[test]
fn failed_end_keeps_the_buffer_recording() {
    let mut set = buffers(&[1, 2, 3]);
    set.begin_primary_buffer(0, 1, 0).unwrap();
    assert_eq!(
        set.end_primary_buffer(0, -1),
        Err(VulkanSynchroError::FAILED_ENDING_PRIMARY_BUFFER_RECORDING)
    );
    assert!(set.is_recording(VulkanBufferType::PRIMARY, 0));
}

#[test]
fn reset_removes_the_entry_of_a_recording_buffer() {
    let mut set = buffers(&[1, 2, 3]);
    set.begin_primary_buffer(0, 1, 0).unwrap();
    set.begin_primary_buffer(1, 1, 0).unwrap();
    assert_eq!(set.reset_primary_buffer(0, true, 0), Ok(()));
    assert!(!set.is_recording(VulkanBufferType::PRIMARY, 0));
    assert_eq!(set.started_buffers, vec![(VulkanBufferType::PRIMARY, 1)]);
}

#[test]
fn reset_of_an_idle_buffer_leaves_no_entry() {
    let mut set = buffers(&[1, 2, 3]);
    set.begin_primary_buffer(1, 1, 0).unwrap();
    assert_eq!(set.reset_primary_buffer(0, false, 0), Ok(()));
    assert!(!set.is_recording(VulkanBufferType::PRIMARY, 0));
    assert_eq!(set.started_buffers, vec![(VulkanBufferType::PRIMARY, 1)]);
}

#[test]
fn reset_removes_the_entry_even_when_it_fails() {
    let mut set = buffers(&[1, 2, 3]);
    set.begin_primary_buffer(0, 1, 0).unwrap();
    assert_eq!(
        set.reset_primary_buffer(0, false, -1),
        Err(VulkanSynchroError::FAILED_RESETING_PRIMARY_BUFFER)
    );
    assert!(!set.is_recording(VulkanBufferType::PRIMARY, 0));
    assert_eq!(
        set.reset_primary_buffer(3, false, 0),
        Err(VulkanSynchroError::FAILED_RESETING_PRIMARY_BUFFER)
    );
}

#[test]
fn reset_removes_every_duplicate() {
    let mut set = buffers(&[1, 2, 3]);
    set.started_buffers = vec![
        (VulkanBufferType::PRIMARY, 1),
        (VulkanBufferType::SECONDARY, 1),
        (VulkanBufferType::PRIMARY, 1),
        (VulkanBufferType::PRIMARY, 2),
    ];
    assert_eq!(set.reset_primary_buffer(1, false, 0), Ok(()));
    assert_eq!(
        set.started_buffers,
        vec![(VulkanBufferType::SECONDARY, 1), (VulkanBufferType::PRIMARY, 2)]
    );
}

#[test]
fn begin_after_reset_records_again() {
    let mut set = buffers(&[1]);
    set.begin_primary_buffer(0, 0, 0).unwrap();
    set.reset_primary_buffer(0, true, 0).unwrap();
    set.begin_primary_buffer(0, 0, 0).unwrap();
    assert_eq!(set.started_buffers, vec![(VulkanBufferType::PRIMARY, 0)]);
}

#[test]
fn reset_flags_release_resources_on_demand() {
    assert_eq!(VulkanCmdBuffer::reset_flags(true), 1);
    assert_eq!(VulkanCmdBuffer::reset_flags(false), 0);
    assert_eq!(VulkanCmdPool::reset_flags(true), 1);
    assert_eq!(VulkanCmdPool::reset_flags(false), 0);
}

#[test]
fn recording_set_helpers() {
    let started = vec![
        (VulkanBufferType::PRIMARY, 4),
        (VulkanBufferType::SECONDARY, 4),
        (VulkanBufferType::PRIMARY, 4),
    ];
    assert_eq!(is_started(&started, VulkanBufferType::PRIMARY, 4), Some(0));
    assert_eq!(is_started(&started, VulkanBufferType::SECONDARY, 4), Some(1));
    assert_eq!(is_started(&started, VulkanBufferType::SECONDARY, 5), None);
    assert_eq!(
        remove_started(&started, VulkanBufferType::PRIMARY, 4),
        vec![(VulkanBufferType::SECONDARY, 4)]
    );
    assert_eq!(remove_started(&started, VulkanBufferType::PRIMARY, 5), started);
}

#[test]
fn pool_reset_makes_every_buffer_idle() {
    let mut p = pool();
    p.create_buffers(2, 0, allocation(0, &[10, 11]), allocation(0, &[])).unwrap();
    p.cmd_buffers.as_mut().unwrap().begin_primary_buffer(0, 0, 0).unwrap();
    p.cmd_buffers.as_mut().unwrap().begin_primary_buffer(1, 0, 0).unwrap();
    assert_eq!(p.reset_pool(true, -1), Err(VulkanSynchroError::FAILED_RESETING_POOL));
    assert_eq!(p.cmd_buffers.as_ref().unwrap().started_buffers.len(), 2);
    assert_eq!(p.reset_pool(true, 0), Ok(()));
    let set = p.cmd_buffers.as_ref().unwrap();
    assert!(set.started_buffers.is_empty());
    assert_eq!(set.primary_buffers, vec![10, 11]);
    assert_eq!(p.cmd_pool_handle, 42);
}

#[test]
fn pool_reset_without_buffers() {
    let mut p = pool();
    assert_eq!(p.reset_pool(false, 0), Ok(()));
    assert!(p.cmd_buffers.is_none());
}

#[test]
fn submission_signals_one_semaphore() {
    let mut p = pool();
    p.create_buffers(3, 0, allocation(0, &[10, 11, 12]), allocation(0, &[])).unwrap();
    let waits = VulkanWaitSemaphoresInfo { semaphores: vec![1, 2], waiting_stage: vec![0x400, 0x400] };
    let info = p.submit_info(&waits, 88);
    assert_eq!(info.waitSemaphoreCount, 2);
    assert_eq!(info.commandBufferCount, 3);
    assert_eq!(info.signalSemaphoreCount, 1);
    assert_eq!(info.signalSemaphore, 88);
    assert_eq!(p.submit_buffers(600, &waits, 0, 88, 0), Ok(()));
}

#[test]
fn submission_failures_are_reported() {
    let mut p = pool();
    p.create_buffers(1, 0, allocation(0, &[10]), allocation(0, &[])).unwrap();
    let waits = VulkanWaitSemaphoresInfo { semaphores: Vec::new(), waiting_stage: Vec::new() };
    assert_eq!(
        p.submit_buffers(600, &waits, -1, 0, 0),
        Err(VulkanSynchroError::FAILED_CREATING_SEMAPHORE)
    );
    assert_eq!(
        p.submit_buffers(600, &waits, 0, 88, -4),
        Err(VulkanSynchroError::FAILED_SUBMITING_BUFFERS)
    );
    assert_eq!(
        p.submit_buffers(600, &waits, -1, 0, -4),
        Err(VulkanSynchroError::FAILED_CREATING_SEMAPHORE)
    );
}

#[test]
fn semaphore_and_fence_replies() {
    let d = device();
    assert_eq!(init_semaphore(&d, 0, 5), Ok(5));
    assert_eq!(init_semaphore(&d, -1, 5), Err(VulkanSynchroError::FAILED_CREATING_SEMAPHORE));
    assert_eq!(init_semaphore_reply(0, 6), Ok(6));
    assert_eq!(init_semaphore_reply(2, 6), Err(VulkanSynchroError::FAILED_CREATING_SEMAPHORE));
    assert_eq!(init_fence(&d, 0, 7), Ok(7));
    assert_eq!(init_fence(&d, -1, 7), Err(VulkanSynchroError::FAILED_CREATING_FENCE));
}

#[test]
fn fence_wait_and_reset_replies() {
    let d = device();
    let fences = vec![1, 2];
    assert_eq!(wait_fences(&d, &fences, 1, 20000000, 0), Ok(()));
    assert_eq!(wait_fences(&d, &fences, 1, 20000000, 2), Err(VulkanSynchroError::COULDNT_WAIT_FOR_FENCES));
    assert_eq!(wait_fences(&d, &fences, 0, 0, -4), Err(VulkanSynchroError::COULDNT_WAIT_FOR_FENCES));
    assert_eq!(reset_fences(&d, &fences, 0), Ok(()));
    assert_eq!(reset_fences(&d, &fences, -1), Err(VulkanSynchroError::COULDNT_RESET_FENCES));
}

#[test]
fn synchro_errors_have_their_text() {
    assert_eq!(VulkanSynchroError::COULDNT_CREATE_CMD_POOL.to_string(), "Couldnt create a Command pool");
    assert_eq!(VulkanSynchroError::COULDNT_CREATE_CMD_BUFFER.to_string(), "Couldn't create a Command Buffer");
    assert_eq!(
        VulkanSynchroError::FAILED_STARTING_PRIMARY_BUFFER_RECORDING.to_string(),
        "Failed Starting primary buffer recording"
    );
    assert_eq!(
        VulkanSynchroError::FAILED_STARTING_SECONDARY_BUFFER_RECORDING.to_string(),
        "Failed Starting secondary buffer recording"
    );
    assert_eq!(
        VulkanSynchroError::FAILED_ENDING_PRIMARY_BUFFER_RECORDING.to_string(),
        "Failed Closing primary buffer recording"
    );
    assert_eq!(
        VulkanSynchroError::FAILED_RESETING_PRIMARY_BUFFER.to_string(),
        "Failed resetting primary buffer"
    );
    assert_eq!(VulkanSynchroError::FAILED_RESETING_POOL.to_string(), "Failed resetting pool");
    assert_eq!(VulkanSynchroError::FAILED_CREATING_SEMAPHORE.to_string(), "Failed creating semaphore");
    assert_eq!(VulkanSynchroError::FAILED_CREATING_FENCE.to_string(), "Failed creating fence");
    assert_eq!(VulkanSynchroError::COULDNT_WAIT_FOR_FENCES.to_string(), "Couldnt wait for fences");
    assert_eq!(VulkanSynchroError::COULDNT_RESET_FENCES.to_string(), "Couldn't reset fences");
    assert_eq!(VulkanSynchroError::FAILED_SUBMITING_BUFFERS.to_string(), "Failed Submiting buffers");
}
