use mev::{
    CommandBuffer, EpochStep, OutOfMemory, PresentRequest, Queue, SubmitOutcome, DeviceError,
    MAX_EPOCHS, MAX_POOLS,
};

/// Hands out fresh native handles, as a driver would.
struct Handles(u64);

impl Handles {
    fn next(&mut self) -> u64 {
        self.0 += 1;
        self.0
    }
}

/// Requests a command buffer the way the native layer drives the queue.
fn new_encoder(q: &mut Queue, h: &mut Handles) -> Result<(u64, u64), OutOfMemory> {
    q.refresh_pools(Ok(()))?;
    let created = if q.pools().needs_new_pool() { Some(Ok(h.next())) } else { None };
    let idx = q.get_pool(created)?;
    let fresh = if q.pools().next_free(idx).is_none() { Some(Ok(h.next())) } else { None };
    q.allocate(idx, fresh, true)
}

/// Makes sure an epoch is open, waiting for the oldest when needed.
fn ready_epoch(q: &mut Queue, h: &mut Handles) {
    match q.epoch_step() {
        EpochStep::Ready => {}
        EpochStep::WaitOldest(_) => q.recycle_oldest(Ok(()), Ok(())).unwrap(),
        EpochStep::CreateFence => q.open_epoch(Ok(h.next())).unwrap(),
    }
}

fn finished(cbuf: (u64, u64), refs: Vec<u64>) -> CommandBuffer {
    CommandBuffer { handle: cbuf.0, pool: cbuf.1, refs, presents: Vec::new() }
}

#[test]
fn epoch_count_stays_bounded() {
    let mut q = Queue::new();
    let mut h = Handles(100);
    for i in 0..20u64 {
        let cb = new_encoder(&mut q, &mut h).unwrap();
        ready_epoch(&mut q, &mut h);
        q.submit(vec![finished(cb, vec![i])], true, SubmitOutcome::Success).unwrap();
        assert!(q.epoch_count() <= MAX_EPOCHS + 1);
        assert!(q.pending_len() <= MAX_EPOCHS);
    }
    assert_eq!(q.pending_len(), MAX_EPOCHS);
}

#[test]
fn pool_count_stays_bounded() {
    let mut q = Queue::new();
    let mut h = Handles(0);
    for _ in 0..50 {
        let cb = new_encoder(&mut q, &mut h).unwrap();
        ready_epoch(&mut q, &mut h);
        q.submit(vec![finished(cb, vec![7])], true, SubmitOutcome::Success).unwrap();
        q.wait_idle(Ok(())).unwrap();
        assert!(q.pools().len() <= MAX_POOLS);
    }
    assert_eq!(q.pools().len(), MAX_POOLS);
}

#[test]
fn submitted_resource_retained_until_fence() {
    let mut q = Queue::new();
    let mut h = Handles(0);
    let buffer_id = 4242;
    let cb = new_encoder(&mut q, &mut h).unwrap();
    ready_epoch(&mut q, &mut h);
    q.submit(vec![finished(cb, vec![buffer_id])], true, SubmitOutcome::Success).unwrap();
    // The caller dropped its handle; the epoch still holds the buffer.
    assert!(q.is_retained(buffer_id));
    // More checkpointed work, fences unsignaled: still retained.
    for _ in 0..(MAX_EPOCHS - 1) {
        let cb = new_encoder(&mut q, &mut h).unwrap();
        ready_epoch(&mut q, &mut h);
        q.submit(vec![finished(cb, vec![1])], true, SubmitOutcome::Success).unwrap();
        assert!(q.is_retained(buffer_id));
    }
    // A failed wait on the oldest fence releases nothing.
    assert_eq!(q.epoch_step(), EpochStep::WaitOldest(q_first_fence(&q)));
    assert_eq!(q.recycle_oldest(Err(DeviceError::DeviceLost), Ok(())), Err(DeviceError::DeviceLost));
    assert!(q.is_retained(buffer_id));
    // Once the fence signalled, the oldest epoch is recycled and the buffer released.
    q.recycle_oldest(Ok(()), Ok(())).unwrap();
    assert!(!q.is_retained(buffer_id));
}

fn q_first_fence(q: &Queue) -> u64 {
    match q.epoch_step() {
        EpochStep::WaitOldest(f) => f,
        _ => 0,
    }
}

#[test]
fn end_to_end_upload_and_idle() {
    let mut q = Queue::new();
    let mut h = Handles(0);
    let buffer_id = 256;
    let cb = new_encoder(&mut q, &mut h).unwrap();
    ready_epoch(&mut q, &mut h);
    let result = q.submit(vec![finished(cb, vec![buffer_id])], true, SubmitOutcome::Success);
    assert_eq!(result, Ok(()));
    assert_eq!(q.wait_idle(Ok(())), Ok(()));
    assert!(!q.is_retained(buffer_id));
    assert!(!q.has_open_epoch());
    assert_eq!(q.pending_len(), 1);
}

#[test]
fn non_checkpoint_submission_joins_open_epoch() {
    let mut q = Queue::new();
    let mut h = Handles(0);
    let cb = new_encoder(&mut q, &mut h).unwrap();
    ready_epoch(&mut q, &mut h);
    q.submit(vec![finished(cb, vec![9])], false, SubmitOutcome::Success).unwrap();
    assert!(q.has_open_epoch());
    assert_eq!(q.pending_len(), 0);
    assert!(q.is_retained(9));
    // Idle wait releases only closed epochs.
    q.wait_idle(Ok(())).unwrap();
    assert!(q.is_retained(9));
}

#[test]
fn out_of_device_memory_returns_buffers_to_pool() {
    let mut q = Queue::new();
    let mut h = Handles(0);
    let cb = new_encoder(&mut q, &mut h).unwrap();
    ready_epoch(&mut q, &mut h);
    assert_eq!(q.pools().len(), 1);
    let r = q.submit(vec![finished(cb, vec![3])], true, SubmitOutcome::OutOfDeviceMemory);
    assert_eq!(r, Err(DeviceError::OutOfMemory));
    assert!(!q.is_retained(3));
    assert!(q.has_open_epoch());
    assert_eq!(q.pools().next_free(0), Some(cb.0));
}

#[test]
fn device_lost_keeps_state() {
    let mut q = Queue::new();
    let mut h = Handles(0);
    let cb = new_encoder(&mut q, &mut h).unwrap();
    ready_epoch(&mut q, &mut h);
    let r = q.submit(vec![finished(cb, vec![3])], true, SubmitOutcome::DeviceLost);
    assert_eq!(r, Err(DeviceError::DeviceLost));
    assert!(q.has_open_epoch());
    assert_eq!(q.pools().next_free(0), None);
}

#[test]
fn failed_fence_creation_is_out_of_memory() {
    let mut q = Queue::new();
    assert_eq!(q.epoch_step(), EpochStep::CreateFence);
    assert_eq!(q.open_epoch(Err(OutOfMemory)), Err(DeviceError::OutOfMemory));
    assert!(!q.has_open_epoch());
}

#[test]
fn submission_signals_presents() {
    let mut q = Queue::new();
    let mut h = Handles(0);
    let cb = new_encoder(&mut q, &mut h).unwrap();
    ready_epoch(&mut q, &mut h);
    q.add_wait(77, 1);
    let real = PresentRequest { swapchain: 5, image_index: 2, present: 50, fence: 0 };
    let fake = PresentRequest { swapchain: 0, image_index: 0, present: 60, fence: 0 };
    let cbs = vec![CommandBuffer { handle: cb.0, pool: cb.1, refs: vec![], presents: vec![real, fake] }];
    let s = q.submission(&cbs, true);
    assert_eq!(s.cbufs, vec![cb.0]);
    assert_eq!(s.waits, vec![(77, 1)]);
    assert_eq!(s.signals, vec![50, 60]);
    assert!(s.fence.is_some());
    assert_eq!(Queue::presents(&cbs), vec![real]);
    let s2 = q.submission(&cbs, false);
    assert_eq!(s2.fence, None);
    q.submit(cbs, true, SubmitOutcome::Success).unwrap();
    let empty: Vec<CommandBuffer> = Vec::new();
    ready_epoch(&mut q, &mut h);
    assert!(q.submission(&empty, false).waits.is_empty());
}

#[test]
fn free_command_buffers_are_reused() {
    let mut q = Queue::new();
    let mut h = Handles(0);
    let cb = new_encoder(&mut q, &mut h).unwrap();
    q.discard(vec![finished(cb, vec![])]);
    let again = new_encoder(&mut q, &mut h).unwrap();
    assert_eq!(again, cb);
    assert_eq!(q.pools().len(), 1);
}

#[test]
fn teardown_lists_fences_and_pools() {
    let mut q = Queue::new();
    let mut h = Handles(0);
    let cb = new_encoder(&mut q, &mut h).unwrap();
    ready_epoch(&mut q, &mut h);
    q.submit(vec![finished(cb, vec![])], true, SubmitOutcome::Success).unwrap();
    ready_epoch(&mut q, &mut h);
    let (fences, pools) = q.teardown();
    assert_eq!(fences.len(), 2);
    assert_eq!(pools, vec![cb.1]);
}
