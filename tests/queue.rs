use m5150::queue::{DynamicQueue, Queue, QueueError, StaticQueue};

#[test]
fn test_static_queue_core() {
    let mut queue = StaticQueue::<i32, 3>::new();

    assert_eq!(queue.capacity(), 3);

    assert!(queue.push(0).is_ok());
    assert!(queue.ext(vec![1, 2]).is_ok());
    assert!(queue.push(3).is_err());

    assert_eq!(queue.full(), true);
    assert_eq!(queue.empty(), false);
    assert_eq!(queue.size(), 3);

    assert_eq!(queue.pop(), Some(0));
    assert_eq!(queue.remaining(), 1);
    assert_eq!(queue.drain(), vec![1, 2]);
    assert_eq!(queue.pop(), None);

    assert!(queue.ext(vec![0, 1, 2]).is_ok());
    assert_eq!(queue.drain_part(2), vec![0, 1]);
    assert_eq!(queue.try_push(3), true);
    assert_eq!(queue.drain_part(5), vec![2, 3]);
}

#[test]
fn fifo_order_of_three_pushes() {
    let mut q = StaticQueue::<char, 5>::new();
    assert!(q.push('a').is_ok());
    assert!(q.push('b').is_ok());
    assert!(q.push('c').is_ok());
    assert_eq!(q.pop(), Some('a'));
    assert_eq!(q.pop(), Some('b'));
    assert_eq!(q.pop(), Some('c'));
    assert_eq!(q.pop(), None);
}

#[test]
fn capacity_refuses_then_accepts_after_pop() {
    let mut q = StaticQueue::<u8, 4>::new();
    for i in 0..4u8 {
        assert_eq!(q.push(i), Ok(()));
    }
    assert_eq!(q.push(9), Err(QueueError::QueueFull));
    assert_eq!(q.size(), 4);
    assert_eq!(q.pop(), Some(0));
    assert_eq!(q.push(9), Ok(()));
    assert_eq!(q.drain(), vec![1, 2, 3, 9]);
}

#[test]
fn drain_part_takes_min_and_keeps_rest_in_order() {
    let mut q = StaticQueue::<u32, 6>::new();
    assert!(q.ext(vec![10, 20, 30, 40, 50]).is_ok());
    assert_eq!(q.drain_part(3), vec![10, 20, 30]);
    assert_eq!(q.size(), 2);
    assert_eq!(q.pop(), Some(40));
    assert_eq!(q.pop(), Some(50));
    assert_eq!(q.drain_part(4), Vec::<u32>::new());
}

#[test]
fn ring_wraps_around_the_end_of_storage() {
    let mut q = StaticQueue::<u16, 3>::new();
    assert!(q.ext(vec![1, 2, 3]).is_ok());
    assert_eq!(q.pop(), Some(1));
    assert_eq!(q.pop(), Some(2));
    assert!(q.ext(vec![4, 5]).is_ok());
    assert_eq!(q.peek(), Some(&3));
    assert_eq!(q.back(), Some(&5));
    assert_eq!(q.get(1), Some(&4));
    assert_eq!(q.get(3), None);
    assert_eq!(q.drain(), vec![3, 4, 5]);
}

#[test]
fn ext_is_all_or_nothing() {
    let mut q = StaticQueue::<i32, 3>::new();
    assert!(q.push(7).is_ok());
    assert_eq!(q.ext(vec![1, 2, 3]), Err(QueueError::QueueFull));
    assert_eq!(q.size(), 1);
    assert_eq!(q.drain(), vec![7]);
}

#[test]
fn try_ext_reports_how_many_were_taken() {
    let mut q = StaticQueue::<i32, 3>::new();
    assert!(q.push(7).is_ok());
    assert_eq!(q.try_ext(vec![1, 2, 3, 4]), 2);
    assert_eq!(q.drain(), vec![7, 1, 2]);
    assert_eq!(q.try_ext(vec![5]), 1);
}

#[test]
fn mutable_accessors_change_one_element() {
    let mut q = StaticQueue::<i32, 4>::new();
    assert!(q.ext(vec![1, 2, 3]).is_ok());
    if let Some(x) = q.peek_mut() {
        *x = 10;
    }
    if let Some(x) = q.back_mut() {
        *x = 30;
    }
    if let Some(x) = q.get_mut(1) {
        *x = 20;
    }
    assert!(q.get_mut(3).is_none());
    assert_eq!(q.drain(), vec![10, 20, 30]);
    assert!(q.peek_mut().is_none());
    assert!(q.back_mut().is_none());
}

#[test]
fn iter_walks_front_to_back() {
    let mut q = StaticQueue::<i32, 3>::new();
    assert!(q.ext(vec![1, 2, 3]).is_ok());
    assert_eq!(q.pop(), Some(1));
    assert!(q.push(4).is_ok());
    let mut it = q.iter();
    assert_eq!(it.next(), Some(&2));
    assert_eq!(it.next(), Some(&3));
    assert_eq!(it.next(), Some(&4));
    assert_eq!(it.next(), None);
}

#[test]
fn clear_empties_the_queue() {
    let mut q = StaticQueue::<i32, 2>::new();
    assert!(q.ext(vec![1, 2]).is_ok());
    q.clear();
    assert!(q.empty());
    assert_eq!(q.remaining(), 2);
}

#[test]
fn dynamic_queue_grows_past_its_nominal_capacity() {
    let mut q = DynamicQueue::<i32, 2>::new();
    assert_eq!(q.capacity(), 2);
    assert!(q.ext(vec![1, 2, 3]).is_ok());
    assert_eq!(q.push(4), Ok(()));
    assert!(q.try_push(5));
    assert_eq!(q.size(), 5);
    assert!(!q.full());
    assert_eq!(q.peek(), Some(&1));
    assert_eq!(q.back(), Some(&5));
    assert_eq!(q.pop(), Some(1));
    assert_eq!(q.drain_part(2), vec![2, 3]);
    assert_eq!(q.try_ext(vec![6, 7]), 2);
    assert_eq!(q.drain(), vec![4, 5, 6, 7]);
    assert!(q.empty());
}

#[test]
fn dynamic_queue_mutable_access() {
    let mut q = DynamicQueue::<i32, 4>::new();
    assert!(q.ext(vec![1, 2, 3]).is_ok());
    if let Some(x) = q.get_mut(1) {
        *x = 20;
    }
    if let Some(x) = q.peek_mut() {
        *x = 10;
    }
    if let Some(x) = q.back_mut() {
        *x = 30;
    }
    assert!(q.get_mut(5).is_none());
    assert_eq!(q.get(1), Some(&20));
    assert_eq!(q.drain(), vec![10, 20, 30]);
    q.clear();
    assert_eq!(q.pop(), None);
}

#[test]
fn queue_error_texts() {
    assert_eq!(QueueError::QueueFull.to_string(), "Queue ran out of space.");
    assert_eq!(QueueError::QueueAlloc.to_string(), "Queue allocation failure.");
}
