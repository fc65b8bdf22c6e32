use runtime::context::{Context, Shared};
use runtime::error::RegistryError;
use runtime::fence::{Fence, VkFenceCreateInfo};
use runtime::handle::{HandleAllocator, VkDispatchableHandle, VkNonDispatchableHandle};
use runtime::instance::Instance;
use runtime::logical_device::LogicalDevice;
use runtime::non_dispatchable::{
    drop_handle, from_handle, lookup, register_object, release, unregister_object, NonDispatchable,
};
use runtime::physical_device::PhysicalDevice;
use runtime::queue::VkDeviceQueueCreateInfo;
use runtime::semaphore::{Semaphore, VkSemaphoreCreateInfo};

fn device(context: &mut Context) -> VkDispatchableHandle {
    let physical_device = PhysicalDevice::get(context).unwrap();
    let info = VkDeviceQueueCreateInfo { flags: 0, queue_family_index: 0, queue_count: 1 };
    LogicalDevice::new(context, physical_device, &info).unwrap()
}

fn semaphore(context: &mut Context) -> VkNonDispatchableHandle {
    Semaphore::create(context, &VkSemaphoreCreateInfo { flags: 0 }).unwrap()
}

#[test]
fn new_context_is_empty() {
    let context = Context::new();
    assert_eq!(context.ids.next, 1);
    assert!(context.instances.is_empty());
    assert!(context.physical_devices.is_empty());
    assert!(context.logical_devices.is_empty());
    assert!(context.queues.is_empty());
    assert!(context.fences.is_empty());
    assert!(context.semaphores.is_empty());
    assert!(context.pipeline_layouts.is_empty());
    assert!(context.render_passes.is_empty());
    assert!(context.shader_modules.is_empty());
    assert!(context.pipeline_caches.is_empty());
}

#[test]
fn allocator_counts_up_from_one() {
    let mut ids = HandleAllocator::new();
    assert_eq!(ids.allocate(), Some(1));
    assert_eq!(ids.allocate(), Some(2));
    assert_eq!(ids.allocate(), Some(3));
    assert_eq!(ids.next, 4);
}

#[test]
fn allocator_reports_exhaustion_and_stays() {
    let mut ids = HandleAllocator { next: u64::MAX - 1 };
    assert_eq!(ids.allocate(), Some(u64::MAX - 1));
    assert_eq!(ids.allocate(), None);
    assert_eq!(ids.allocate(), None);
    assert_eq!(ids.next, u64::MAX);
}

#[test]
fn null_handles_are_zero() {
    assert_eq!(VkNonDispatchableHandle::null(), VkNonDispatchableHandle(0));
    assert!(VkNonDispatchableHandle::null().is_null());
    assert!(!VkNonDispatchableHandle(7).is_null());
    assert_eq!(VkDispatchableHandle::null(), VkDispatchableHandle(0));
    assert!(VkDispatchableHandle::null().is_null());
    assert!(!VkDispatchableHandle(7).is_null());
}

#[test]
fn handles_are_pairwise_distinct_across_destructions() {
    let mut context = Context::new();
    let device = device(&mut context);
    let mut issued: Vec<u64> = Vec::new();
    for round in 0..20u32 {
        let s = semaphore(&mut context);
        let f = Fence::create(&mut context, device, &VkFenceCreateInfo { flags: round & 1 }).unwrap();
        issued.push(s.0);
        issued.push(f.0);
        if round % 2 == 0 {
            assert_eq!(drop_handle::<Semaphore>(&mut context, s), Ok(()));
        }
        if round % 3 == 0 {
            assert_eq!(drop_handle::<Fence>(&mut context, f), Ok(()));
        }
    }
    for i in 0..issued.len() {
        assert_ne!(issued[i], 0);
        for j in (i + 1)..issued.len() {
            assert_ne!(issued[i], issued[j]);
            assert!(issued[i] < issued[j]);
        }
    }
}

#[test]
fn registration_issues_the_next_identity_and_records_it() {
    let mut context = Context::new();
    let next = context.ids.next;
    let handle = register_object(
        Semaphore { handle: VkNonDispatchableHandle::null(), flags: 9 },
        &mut context,
    )
    .unwrap();
    assert_eq!(handle, VkNonDispatchableHandle(next));
    assert_eq!(context.ids.next, next + 1);
    let entry = context.semaphores.get(&handle.0).unwrap();
    assert_eq!(entry.object.handle, handle);
    assert_eq!(entry.object.get_handle(), handle);
    assert_eq!(entry.object.flags, 9);
    assert_eq!(entry.holders, 0);
    assert_eq!(context.semaphores.len(), 1);
    assert!(context.fences.is_empty());
}

#[test]
fn registration_is_refused_when_identities_run_out() {
    let mut context = Context::new();
    context.ids.next = u64::MAX;
    let r = register_object(Semaphore { handle: VkNonDispatchableHandle::null(), flags: 0 }, &mut context);
    assert_eq!(r, Err(RegistryError::OutOfHandles));
    assert_eq!(context.ids.next, u64::MAX);
    assert!(context.semaphores.is_empty());
}

#[test]
fn last_identity_is_issued_before_exhaustion() {
    let mut context = Context::new();
    context.ids.next = u64::MAX - 1;
    assert_eq!(semaphore(&mut context), VkNonDispatchableHandle(u64::MAX - 1));
    assert_eq!(
        Semaphore::create(&mut context, &VkSemaphoreCreateInfo { flags: 0 }),
        Err(RegistryError::OutOfHandles)
    );
    assert_eq!(context.semaphores.len(), 1);
}

#[test]
fn set_handle_changes_the_handle_only() {
    let mut fence = Fence {
        handle: VkNonDispatchableHandle::null(),
        logical_device: VkDispatchableHandle(5),
        flags: 1,
        signaled: true,
    };
    fence.set_handle(VkNonDispatchableHandle(42));
    assert_eq!(fence.get_handle(), VkNonDispatchableHandle(42));
    assert_eq!(fence.logical_device, VkDispatchableHandle(5));
    assert_eq!(fence.flags, 1);
    assert!(fence.signaled);
}

#[test]
fn resolve_counts_a_reference() {
    let mut context = Context::new();
    let s = semaphore(&mut context);
    assert_eq!(from_handle::<Semaphore>(&mut context, s), Ok(()));
    assert_eq!(context.semaphores.get(&s.0).unwrap().holders, 1);
    assert_eq!(from_handle::<Semaphore>(&mut context, s), Ok(()));
    assert_eq!(context.semaphores.get(&s.0).unwrap().holders, 2);
    assert_eq!(context.semaphores.get(&s.0).unwrap().object.flags, 0);
    assert_eq!(context.semaphores.len(), 1);
}

#[test]
fn resolve_of_unknown_or_null_handle_reports_not_found() {
    let mut context = Context::new();
    let s = semaphore(&mut context);
    assert_eq!(
        from_handle::<Semaphore>(&mut context, VkNonDispatchableHandle(s.0 + 1)),
        Err(RegistryError::NotFound)
    );
    assert_eq!(
        from_handle::<Semaphore>(&mut context, VkNonDispatchableHandle::null()),
        Err(RegistryError::NotFound)
    );
    assert_eq!(from_handle::<Fence>(&mut context, s), Err(RegistryError::NotFound));
    assert_eq!(context.semaphores.get(&s.0).unwrap().holders, 0);
}

#[test]
fn resolve_is_refused_at_the_limit_of_the_count() {
    let mut context = Context::new();
    let s = semaphore(&mut context);
    context.semaphores.get_mut(&s.0).unwrap().holders = u64::MAX;
    assert_eq!(from_handle::<Semaphore>(&mut context, s), Err(RegistryError::TooManyReferences));
    assert_eq!(context.semaphores.get(&s.0).unwrap().holders, u64::MAX);
    assert_eq!(release::<Semaphore>(&mut context, s), Ok(()));
    assert_eq!(context.semaphores.get(&s.0).unwrap().holders, u64::MAX - 1);
}

#[test]
fn resolve_after_destroy_reports_not_found() {
    let mut context = Context::new();
    let device = device(&mut context);
    let f = Fence::create(&mut context, device, &VkFenceCreateInfo { flags: 0 }).unwrap();
    assert_eq!(from_handle::<Fence>(&mut context, f), Ok(()));
    assert_eq!(release::<Fence>(&mut context, f), Ok(()));
    assert_eq!(drop_handle::<Fence>(&mut context, f), Ok(()));
    assert_eq!(from_handle::<Fence>(&mut context, f), Err(RegistryError::NotFound));
    assert!(lookup::<Fence>(&context, f).is_none());
    let later = Fence::create(&mut context, device, &VkFenceCreateInfo { flags: 0 }).unwrap();
    assert_ne!(later, f);
    assert_eq!(from_handle::<Fence>(&mut context, f), Err(RegistryError::NotFound));
}

#[test]
fn round_trip_leaves_the_registry_unchanged() {
    let mut context = Context::new();
    let device = device(&mut context);
    let f = Fence::create(&mut context, device, &VkFenceCreateInfo { flags: 1 }).unwrap();
    let s = semaphore(&mut context);
    let next = context.ids.next;
    assert_eq!(from_handle::<Fence>(&mut context, f), Ok(()));
    assert_eq!(release::<Fence>(&mut context, f), Ok(()));
    assert_eq!(context.ids.next, next);
    assert_eq!(context.fences.len(), 1);
    assert_eq!(context.semaphores.len(), 1);
    let entry = context.fences.get(&f.0).unwrap();
    assert_eq!(entry.holders, 0);
    assert_eq!(entry.object.handle, f);
    assert_eq!(entry.object.logical_device, device);
    assert_eq!(entry.object.flags, 1);
    assert!(entry.object.signaled);
    assert_eq!(context.semaphores.get(&s.0).unwrap().holders, 0);
}

#[test]
fn release_without_reference_is_refused() {
    let mut context = Context::new();
    let s = semaphore(&mut context);
    assert_eq!(release::<Semaphore>(&mut context, s), Err(RegistryError::NotReferenced));
    assert_eq!(
        release::<Semaphore>(&mut context, VkNonDispatchableHandle(s.0 + 1)),
        Err(RegistryError::NotFound)
    );
    assert_eq!(context.semaphores.get(&s.0).unwrap().holders, 0);
}

#[test]
fn destroy_is_refused_while_a_reference_is_outstanding() {
    let mut context = Context::new();
    let s = semaphore(&mut context);
    assert_eq!(from_handle::<Semaphore>(&mut context, s), Ok(()));
    assert_eq!(drop_handle::<Semaphore>(&mut context, s), Err(RegistryError::StillReferenced));
    assert_eq!(context.semaphores.get(&s.0).unwrap().holders, 1);
    assert_eq!(context.semaphores.get(&s.0).unwrap().object.handle, s);
    assert_eq!(release::<Semaphore>(&mut context, s), Ok(()));
    assert_eq!(drop_handle::<Semaphore>(&mut context, s), Ok(()));
    assert!(context.semaphores.is_empty());
}

#[test]
fn destroy_of_null_handle_does_nothing() {
    let mut context = Context::new();
    let s = semaphore(&mut context);
    assert_eq!(drop_handle::<Semaphore>(&mut context, VkNonDispatchableHandle::null()), Ok(()));
    assert_eq!(context.semaphores.len(), 1);
    assert!(context.semaphores.contains_key(&s.0));
}

#[test]
fn destroy_of_unknown_handle_reports_not_found() {
    let mut context = Context::new();
    let s = semaphore(&mut context);
    assert_eq!(
        drop_handle::<Semaphore>(&mut context, VkNonDispatchableHandle(s.0 + 10)),
        Err(RegistryError::NotFound)
    );
    assert_eq!(drop_handle::<Semaphore>(&mut context, s), Ok(()));
    assert_eq!(drop_handle::<Semaphore>(&mut context, s), Err(RegistryError::NotFound));
}

#[test]
fn destroy_removes_one_entry_only() {
    let mut context = Context::new();
    let a = semaphore(&mut context);
    let b = semaphore(&mut context);
    let c = semaphore(&mut context);
    assert_eq!(drop_handle::<Semaphore>(&mut context, b), Ok(()));
    assert_eq!(context.semaphores.len(), 2);
    assert!(context.semaphores.contains_key(&a.0));
    assert!(!context.semaphores.contains_key(&b.0));
    assert!(context.semaphores.contains_key(&c.0));
}

#[test]
fn unregister_hands_the_entry_out_whatever_is_outstanding() {
    let mut context = Context::new();
    let s = Semaphore::create(&mut context, &VkSemaphoreCreateInfo { flags: 3 }).unwrap();
    assert_eq!(from_handle::<Semaphore>(&mut context, s), Ok(()));
    let entry: Shared<Semaphore> = unregister_object::<Semaphore>(&mut context, s).unwrap();
    assert_eq!(entry.holders, 1);
    assert_eq!(entry.object.handle, s);
    assert_eq!(entry.object.flags, 3);
    assert!(context.semaphores.is_empty());
    assert!(unregister_object::<Semaphore>(&mut context, s).is_none());
    assert_eq!(from_handle::<Semaphore>(&mut context, s), Err(RegistryError::NotFound));
}

#[test]
fn lookup_reads_without_counting() {
    let mut context = Context::new();
    let s = Semaphore::create(&mut context, &VkSemaphoreCreateInfo { flags: 5 }).unwrap();
    let object = lookup::<Semaphore>(&context, s).unwrap();
    assert_eq!(object.flags, 5);
    assert_eq!(object.handle, s);
    assert_eq!(context.semaphores.get(&s.0).unwrap().holders, 0);
    assert!(lookup::<Semaphore>(&context, VkNonDispatchableHandle::null()).is_none());
}

#[test]
fn categories_share_one_allocator() {
    let mut context = Context::new();
    let instance = Instance::new(&mut context).unwrap();
    let s = semaphore(&mut context);
    let device = device(&mut context);
    let f = Fence::create(&mut context, device, &VkFenceCreateInfo { flags: 0 }).unwrap();
    assert_eq!(instance, VkDispatchableHandle(1));
    assert_eq!(s, VkNonDispatchableHandle(2));
    assert_eq!(device, VkDispatchableHandle(5));
    assert_eq!(f, VkNonDispatchableHandle(6));
}

#[test]
fn many_resolutions_all_succeed_and_see_the_same_object() {
    let mut context = Context::new();
    let device = device(&mut context);
    let f = Fence::create(&mut context, device, &VkFenceCreateInfo { flags: 1 }).unwrap();
    for n in 1..=64u64 {
        assert_eq!(from_handle::<Fence>(&mut context, f), Ok(()));
        let entry = context.fences.get(&f.0).unwrap();
        assert_eq!(entry.holders, n);
        assert_eq!(entry.object.handle, f);
        assert_eq!(entry.object.logical_device, device);
        assert!(entry.object.signaled);
    }
    for _ in 0..64 {
        assert_eq!(release::<Fence>(&mut context, f), Ok(()));
    }
    assert_eq!(context.fences.get(&f.0).unwrap().holders, 0);
    assert_eq!(drop_handle::<Fence>(&mut context, f), Ok(()));
}
