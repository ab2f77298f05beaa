use takeflight::video::queue::{is_current, send_to_queue, FrameType, VideoTask, VideoTaskFull, VideoWorkQueue};

fn task(origin: usize, byte: u8) -> VideoTaskFull {
    VideoTaskFull::new(origin, VideoTask::Transcode(FrameType::TelloH264, FrameType::Png), vec![byte])
}

#[test]
fn only_the_current_source_is_queued() {
    let t = VideoTask::CV(FrameType::Rgb(4, 2));
    let queued = send_to_queue(5, Some(5), vec![1], t).unwrap();
    assert_eq!((queued.origin, queued.task, queued.image_data), (5, t, vec![1]));
    assert!(send_to_queue(5, Some(6), vec![1], t).is_none());
    assert!(send_to_queue(5, None, vec![1], t).is_none());
    assert!(is_current(3, 3));
    assert!(!is_current(3, 4));
}

#[test]
fn cull_keeps_the_latest_event_of_each_source() {
    let mut q = VideoWorkQueue::new();
    q.handle_incoming_message(task(1, 10));
    q.handle_incoming_message(task(2, 20));
    q.handle_incoming_message(task(1, 11));
    q.handle_incoming_message(task(3, 30));
    q.cull_work_events();
    assert!(q.chrono_stack.is_empty());
    let order: Vec<(usize, u8)> = q.sorted_dequeue.iter().map(|t| (t.origin, t.image_data[0])).collect();
    assert_eq!(order, vec![(3, 30), (1, 11), (2, 20)]);
    assert_eq!(q.sorting_set.len(), 3);
}

#[test]
fn sources_served_this_round_are_skipped() {
    let mut q = VideoWorkQueue::new();
    q.sorting_set.insert(2);
    q.handle_incoming_message(task(2, 20));
    q.handle_incoming_message(task(4, 40));
    q.cull_work_events();
    let order: Vec<usize> = q.sorted_dequeue.iter().map(|t| t.origin).collect();
    assert_eq!(order, vec![4]);
}

#[test]
fn held_events_go_back_in_order() {
    let mut q = VideoWorkQueue::new();
    q.handle_incoming_message(task(1, 10));
    q.handle_incoming_message(task(2, 20));
    q.cull_work_events();
    q.fill_batch_set();
    assert!(q.batch_set.contains(&1) && q.batch_set.contains(&2));
    q.drain_held_events_into_unsorted_buffer();
    assert!(q.sorted_dequeue.is_empty());
    let order: Vec<usize> = q.chrono_stack.iter().map(|t| t.origin).collect();
    assert_eq!(order, vec![1, 2]);
    q.clear_sorting_set();
    q.handle_incoming_message(task(1, 12));
    q.cull_work_events();
    let next = q.next_task().unwrap();
    assert_eq!((next.origin, next.image_data[0]), (1, 12));
    let after = q.next_task().unwrap();
    assert_eq!(after.origin, 2);
    assert!(q.next_task().is_none());
}

#[test]
fn each_round_hands_out_the_latest_event_of_a_source() {
    let mut q = VideoWorkQueue::new();
    let first = q.schedule(vec![task(1, 10), task(2, 20), task(1, 11)]).unwrap();
    assert_eq!((first.origin, first.image_data[0]), (1, 11));
    let held: Vec<(usize, u8)> = q.sorted_dequeue.iter().map(|t| (t.origin, t.image_data[0])).collect();
    assert_eq!(held, vec![(2, 20)]);
    assert!(q.batch_set.contains(&1) && q.batch_set.contains(&2));
    // Held events rank below new ones.
    let second = q.schedule(vec![task(3, 30)]).unwrap();
    assert_eq!((second.origin, second.image_data[0]), (3, 30));
    let held: Vec<usize> = q.sorted_dequeue.iter().map(|t| t.origin).collect();
    assert_eq!(held, vec![2]);
    assert_eq!(q.batch_set.len(), 2);
    let third = q.schedule(Vec::new()).unwrap();
    assert_eq!(third.origin, 2);
    assert!(q.schedule(Vec::new()).is_none());
}
