use rustroarch::audio::{AudioBuffer, AudioQueue, BufferPool};

#[test]
fn audio_buffer_new_is_zero_filled() {
    let buffer = AudioBuffer::new(4);
    assert_eq!(buffer.len(), 4);
    assert_eq!(buffer.as_ptr(), &[0, 0, 0, 0]);
}

#[test]
fn audio_buffer_clear_then_extend_copies_samples() {
    let mut buffer = AudioBuffer::new(4);
    buffer.clear();
    assert_eq!(buffer.len(), 0);
    buffer.extend_from_slice(&[1, -2, 3, -4]);
    assert_eq!(buffer.len(), 4);
    assert_eq!(buffer.as_ptr(), &[1, -2, 3, -4]);
}

#[test]
fn audio_buffer_extend_appends_in_order() {
    let mut buffer = AudioBuffer::new(0);
    buffer.extend_from_slice(&[5, 6]);
    buffer.extend_from_slice(&[7]);
    assert_eq!(buffer.as_ptr(), &[5, 6, 7]);
}

#[test]
fn pool_starts_full_of_standard_buffers() {
    let mut pool = BufferPool::new(2, 3);
    assert_eq!(pool.free_len(), 2);
    let buffer = pool.acquire();
    assert_eq!(buffer.len(), 3);
    assert_eq!(buffer.as_ptr(), &[0, 0, 0]);
    assert_eq!(pool.free_len(), 1);
}

#[test]
fn pool_allocates_fresh_buffer_when_empty() {
    let mut pool = BufferPool::new(1, 2);
    let first = pool.acquire();
    assert_eq!(pool.free_len(), 0);
    // The pool is exhausted: acquire still succeeds with a fresh
    // zero-filled buffer of the standard chunk size, never blocking.
    let second = pool.acquire();
    assert_eq!(second.len(), 2);
    assert_eq!(second.as_ptr(), &[0, 0]);
    drop(first);
}

#[test]
fn pool_conservation_under_acquire_release() {
    // Capacity 2, three buffers in circulation after one empty acquire:
    // circulation never exceeds capacity + empty acquisitions (2 + 1).
    let mut pool = BufferPool::new(2, 1);
    let a = pool.acquire();
    let b = pool.acquire();
    let c = pool.acquire();
    assert_eq!(pool.free_len(), 0);
    pool.release(a);
    pool.release(b);
    assert_eq!(pool.free_len(), 2);
    // The pool is at capacity: the excess buffer is dropped, not retained.
    pool.release(c);
    assert_eq!(pool.free_len(), 2);
}

#[test]
fn pool_acquire_returns_most_recently_released() {
    let mut pool = BufferPool::new(2, 1);
    let _ = pool.acquire();
    let _ = pool.acquire();
    let mut marked = AudioBuffer::new(0);
    marked.extend_from_slice(&[42]);
    pool.release(marked);
    let back = pool.acquire();
    assert_eq!(back.as_ptr(), &[42]);
}

#[test]
fn queue_preserves_submission_order() {
    let mut queue = AudioQueue::new();
    for value in [1i16, 2, 3] {
        let mut chunk = AudioBuffer::new(0);
        chunk.extend_from_slice(&[value]);
        queue.send(chunk);
    }
    assert_eq!(queue.len(), 3);
    assert_eq!(queue.recv().unwrap().as_ptr(), &[1]);
    assert_eq!(queue.recv().unwrap().as_ptr(), &[2]);
    assert_eq!(queue.recv().unwrap().as_ptr(), &[3]);
    assert!(queue.recv().is_none());
}

#[test]
fn queue_drain_takes_everything_in_order() {
    let mut queue = AudioQueue::new();
    for value in [9i16, 8, 7, 6] {
        let mut chunk = AudioBuffer::new(0);
        chunk.extend_from_slice(&[value]);
        queue.send(chunk);
    }
    let drained = queue.drain();
    let values: Vec<i16> = drained.iter().map(|c| c.as_ptr()[0]).collect();
    assert_eq!(values, vec![9, 8, 7, 6]);
    assert_eq!(queue.len(), 0);
    assert!(queue.drain().is_empty());
}
