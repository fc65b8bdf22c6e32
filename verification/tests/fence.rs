use runtime::context::Context;
use runtime::error::{RegistryError, WaitStatus};
use runtime::fence::{Fence, VkFenceCreateInfo, VK_FENCE_CREATE_SIGNALED_BIT};
use runtime::handle::{VkDispatchableHandle, VkNonDispatchableHandle};
use runtime::logical_device::LogicalDevice;
use runtime::physical_device::PhysicalDevice;
use runtime::queue::VkDeviceQueueCreateInfo;

fn new_device(context: &mut Context) -> LogicalDevice {
    let physical_device = PhysicalDevice::get(context).unwrap();
    let info = VkDeviceQueueCreateInfo { flags: 0, queue_family_index: 0, queue_count: 1 };
    let handle = LogicalDevice::new(context, physical_device, &info).unwrap();
    *runtime::dispatchable::lookup::<LogicalDevice>(context, handle).unwrap()
}

fn new_fence(context: &mut Context, device: &LogicalDevice, flags: u32) -> VkNonDispatchableHandle {
    Fence::create(context, device.handle, &VkFenceCreateInfo { flags }).unwrap()
}

fn is_signaled(context: &Context, fence: VkNonDispatchableHandle) -> bool {
    context.fences.get(&fence.0).unwrap().object.signaled
}

fn plain_fence(signaled: bool) -> Fence {
    Fence {
        handle: VkNonDispatchableHandle(8),
        logical_device: VkDispatchableHandle(3),
        flags: 0,
        signaled,
    }
}

#[test]
fn signal_is_idempotent() {
    let mut fence = plain_fence(false);
    fence.signal();
    assert!(fence.signaled);
    fence.signal();
    assert!(fence.signaled);
    assert_eq!(fence.handle, VkNonDispatchableHandle(8));
    assert_eq!(fence.logical_device, VkDispatchableHandle(3));
    assert_eq!(fence.flags, 0);
}

#[test]
fn reset_is_idempotent() {
    let mut fence = plain_fence(true);
    fence.reset();
    assert!(!fence.signaled);
    fence.reset();
    assert!(!fence.signaled);
    assert_eq!(fence.handle, VkNonDispatchableHandle(8));
    assert_eq!(fence.logical_device, VkDispatchableHandle(3));
}

#[test]
fn fence_starts_in_the_state_its_flags_ask_for() {
    let mut context = Context::new();
    let device = new_device(&mut context);
    let plain = new_fence(&mut context, &device, 0);
    let signaled = new_fence(&mut context, &device, VK_FENCE_CREATE_SIGNALED_BIT);
    let other_bits = new_fence(&mut context, &device, 6);
    let mixed = new_fence(&mut context, &device, 7);
    assert!(!is_signaled(&context, plain));
    assert!(is_signaled(&context, signaled));
    assert!(!is_signaled(&context, other_bits));
    assert!(is_signaled(&context, mixed));
    let entry = context.fences.get(&mixed.0).unwrap();
    assert_eq!(entry.object.flags, 7);
    assert_eq!(entry.object.handle, mixed);
    assert_eq!(entry.object.logical_device, device.handle);
    assert_eq!(entry.holders, 0);
}

#[test]
fn fence_created_signaled_is_unsignaled_after_reset() {
    let mut context = Context::new();
    let device = new_device(&mut context);
    let fence = new_fence(&mut context, &device, VK_FENCE_CREATE_SIGNALED_BIT);
    assert!(is_signaled(&context, fence));
    device.reset_fences(&mut context, &vec![fence]);
    assert!(!is_signaled(&context, fence));
    assert_eq!(Fence::reset_handle(&mut context, fence), Ok(()));
    assert!(!is_signaled(&context, fence));
}

#[test]
fn fence_needs_a_live_device() {
    let mut context = Context::new();
    let next = context.ids.next;
    assert_eq!(
        Fence::create(&mut context, VkDispatchableHandle(9), &VkFenceCreateInfo { flags: 0 }),
        Err(RegistryError::NotFound)
    );
    assert_eq!(
        Fence::create(&mut context, VkDispatchableHandle::null(), &VkFenceCreateInfo { flags: 0 }),
        Err(RegistryError::NotFound)
    );
    assert!(context.fences.is_empty());
    assert_eq!(context.ids.next, next);
}

#[test]
fn fence_creation_is_refused_when_identities_run_out() {
    let mut context = Context::new();
    let device = new_device(&mut context);
    context.ids.next = u64::MAX;
    assert_eq!(
        Fence::create(&mut context, device.handle, &VkFenceCreateInfo { flags: 0 }),
        Err(RegistryError::OutOfHandles)
    );
    assert!(context.fences.is_empty());
}

#[test]
fn signal_and_reset_by_handle() {
    let mut context = Context::new();
    let device = new_device(&mut context);
    let a = new_fence(&mut context, &device, 0);
    let b = new_fence(&mut context, &device, 0);
    assert_eq!(runtime::non_dispatchable::from_handle::<Fence>(&mut context, a), Ok(()));
    assert_eq!(Fence::signal_handle(&mut context, a), Ok(()));
    assert!(is_signaled(&context, a));
    assert!(!is_signaled(&context, b));
    assert_eq!(context.fences.get(&a.0).unwrap().holders, 1);
    assert_eq!(Fence::signal_handle(&mut context, a), Ok(()));
    assert!(is_signaled(&context, a));
    assert_eq!(Fence::reset_handle(&mut context, a), Ok(()));
    assert!(!is_signaled(&context, a));
    assert_eq!(context.fences.get(&a.0).unwrap().holders, 1);
    assert_eq!(context.fences.get(&a.0).unwrap().object.handle, a);
    assert_eq!(context.fences.len(), 2);
}

#[test]
fn signal_and_reset_of_unknown_fence_report_not_found() {
    let mut context = Context::new();
    let device = new_device(&mut context);
    let a = new_fence(&mut context, &device, 0);
    let unknown = VkNonDispatchableHandle(a.0 + 1);
    assert_eq!(Fence::signal_handle(&mut context, unknown), Err(RegistryError::NotFound));
    assert_eq!(Fence::reset_handle(&mut context, unknown), Err(RegistryError::NotFound));
    assert_eq!(
        Fence::signal_handle(&mut context, VkNonDispatchableHandle::null()),
        Err(RegistryError::NotFound)
    );
    assert!(!is_signaled(&context, a));
    assert_eq!(context.fences.len(), 1);
}

#[test]
fn wait_times_out_then_succeeds_after_signal() {
    let mut context = Context::new();
    let device = new_device(&mut context);
    let fence = new_fence(&mut context, &device, 0);
    assert_eq!(device.wait_for_fences(&context, &vec![fence], true, 0), WaitStatus::Timeout);
    assert!(!is_signaled(&context, fence));
    assert_eq!(Fence::signal_handle(&mut context, fence), Ok(()));
    assert_eq!(device.wait_for_fences(&context, &vec![fence], true, 0), WaitStatus::Success);
    assert!(is_signaled(&context, fence));
}

#[test]
fn wait_expires_whatever_the_timeout() {
    let mut context = Context::new();
    let device = new_device(&mut context);
    let fence = new_fence(&mut context, &device, 0);
    assert_eq!(device.wait_for_fences(&context, &vec![fence], true, 1), WaitStatus::Timeout);
    assert_eq!(
        device.wait_for_fences(&context, &vec![fence], false, u64::MAX),
        WaitStatus::Timeout
    );
}

#[test]
fn wait_for_all_and_for_any() {
    let mut context = Context::new();
    let device = new_device(&mut context);
    let a = new_fence(&mut context, &device, 0);
    let b = new_fence(&mut context, &device, VK_FENCE_CREATE_SIGNALED_BIT);
    let both = vec![a, b];
    assert_eq!(device.wait_for_fences(&context, &both, true, 0), WaitStatus::Timeout);
    assert_eq!(device.wait_for_fences(&context, &both, false, 0), WaitStatus::Success);
    assert_eq!(device.wait_for_fences(&context, &vec![b, a], false, 0), WaitStatus::Success);
    assert_eq!(Fence::signal_handle(&mut context, a), Ok(()));
    assert_eq!(device.wait_for_fences(&context, &both, true, 0), WaitStatus::Success);
    assert_eq!(device.wait_for_fences(&context, &vec![a, a, b], true, 0), WaitStatus::Success);
}

#[test]
fn wait_on_no_fences() {
    let mut context = Context::new();
    let device = new_device(&mut context);
    assert_eq!(device.wait_for_fences(&context, &vec![], true, 0), WaitStatus::Success);
    assert_eq!(device.wait_for_fences(&context, &vec![], false, 0), WaitStatus::Timeout);
}

#[test]
fn wait_passes_over_fences_of_other_devices() {
    let mut context = Context::new();
    let first = new_device(&mut context);
    let second = new_device(&mut context);
    assert_ne!(first.handle, second.handle);
    let mine = new_fence(&mut context, &first, VK_FENCE_CREATE_SIGNALED_BIT);
    let theirs = new_fence(&mut context, &second, 0);
    assert_eq!(first.wait_for_fences(&context, &vec![mine, theirs], true, 0), WaitStatus::Success);
    assert_eq!(second.wait_for_fences(&context, &vec![mine, theirs], true, 0), WaitStatus::Timeout);
    assert_eq!(second.wait_for_fences(&context, &vec![mine], false, 0), WaitStatus::Timeout);
    assert_eq!(second.wait_for_fences(&context, &vec![mine], true, 0), WaitStatus::Success);
}

#[test]
fn wait_passes_over_unknown_fences() {
    let mut context = Context::new();
    let device = new_device(&mut context);
    let fence = new_fence(&mut context, &device, 0);
    let unknown = VkNonDispatchableHandle(fence.0 + 100);
    assert_eq!(device.wait_for_fences(&context, &vec![unknown], true, 0), WaitStatus::Success);
    assert_eq!(device.wait_for_fences(&context, &vec![unknown], false, 0), WaitStatus::Timeout);
    assert_eq!(device.wait_for_fences(&context, &vec![unknown, fence], true, 0), WaitStatus::Timeout);
}

#[test]
fn reset_passes_over_fences_of_other_devices() {
    let mut context = Context::new();
    let first = new_device(&mut context);
    let second = new_device(&mut context);
    let mine = new_fence(&mut context, &first, VK_FENCE_CREATE_SIGNALED_BIT);
    let theirs = new_fence(&mut context, &second, VK_FENCE_CREATE_SIGNALED_BIT);
    let untouched = new_fence(&mut context, &first, VK_FENCE_CREATE_SIGNALED_BIT);
    assert_eq!(runtime::non_dispatchable::from_handle::<Fence>(&mut context, mine), Ok(()));
    let unknown = VkNonDispatchableHandle(untouched.0 + 100);
    first.reset_fences(&mut context, &vec![mine, theirs, unknown, mine]);
    assert!(!is_signaled(&context, mine));
    assert!(is_signaled(&context, theirs));
    assert!(is_signaled(&context, untouched));
    assert_eq!(context.fences.len(), 3);
    assert_eq!(context.fences.get(&mine.0).unwrap().holders, 1);
    assert_eq!(context.fences.get(&mine.0).unwrap().object.handle, mine);
    assert_eq!(context.fences.get(&mine.0).unwrap().object.flags, VK_FENCE_CREATE_SIGNALED_BIT);
    assert!(!context.fences.contains_key(&unknown.0));
}

#[test]
fn reset_of_no_fences_changes_nothing() {
    let mut context = Context::new();
    let device = new_device(&mut context);
    let fence = new_fence(&mut context, &device, VK_FENCE_CREATE_SIGNALED_BIT);
    device.reset_fences(&mut context, &vec![]);
    assert!(is_signaled(&context, fence));
}

#[test]
fn device_queue_and_fence_scenario() {
    let mut context = Context::new();
    let device = new_device(&mut context);
    let first = device.queue(0, 0);
    let second = device.queue(0, 0);
    assert_eq!(first, second);
    assert_eq!(runtime::dispatchable::lookup::<runtime::queue::Queue>(&context, first).unwrap().handle, second);

    let fence = new_fence(&mut context, &device, 0);
    assert_eq!(device.wait_for_fences(&context, &vec![fence], true, 0), WaitStatus::Timeout);
    assert_eq!(runtime::non_dispatchable::from_handle::<Fence>(&mut context, fence), Ok(()));
    assert_eq!(Fence::signal_handle(&mut context, fence), Ok(()));
    assert_eq!(runtime::non_dispatchable::release::<Fence>(&mut context, fence), Ok(()));
    assert_eq!(device.wait_for_fences(&context, &vec![fence], true, 0), WaitStatus::Success);

    let other = new_fence(&mut context, &device, VK_FENCE_CREATE_SIGNALED_BIT);
    assert!(is_signaled(&context, other));
    device.reset_fences(&mut context, &vec![other]);
    assert!(!is_signaled(&context, other));
    assert!(is_signaled(&context, fence));
}
