use convertoid::scheduler::BatchScheduler;

#[test]
fn at_most_two_items_are_ever_in_flight() {
    let mut sched: BatchScheduler<Result<usize, String>> = BatchScheduler::new(5, 2);
    let mut in_flight: Vec<usize> = Vec::new();
    let mut high_water = 0;
    let mut launched_order: Vec<usize> = Vec::new();
    while !sched.is_finished() {
        while sched.can_launch() {
            let idx = sched.launch();
            launched_order.push(idx);
            in_flight.push(idx);
            if in_flight.len() > high_water {
                high_water = in_flight.len();
            }
        }
        // Complete the oldest in-flight item; two of the five are stubbed
        // to fail, which must not stop the batch.
        let idx = in_flight.remove(0);
        let outcome = if idx == 1 || idx == 3 {
            Err(format!("item {} failed", idx))
        } else {
            Ok(idx * 10)
        };
        sched.complete(0, outcome);
    }
    assert_eq!(high_water, 2);
    assert_eq!(launched_order, vec![0, 1, 2, 3, 4]);

    let results = sched.into_results();
    assert_eq!(results.len(), 5);
    let mut seen = [false; 5];
    for (idx, outcome) in &results {
        assert!(!seen[*idx], "index {} reported twice", idx);
        seen[*idx] = true;
        match outcome {
            Ok(v) => assert_eq!(*v, idx * 10),
            Err(m) => assert!(*idx == 1 || *idx == 3, "unexpected failure: {}", m),
        }
    }
    assert!(seen.iter().all(|&s| s));
}

#[test]
fn completions_in_any_order_keep_the_association() {
    let mut sched: BatchScheduler<&'static str> = BatchScheduler::new(3, 3);
    let a = sched.launch();
    let b = sched.launch();
    let c = sched.launch();
    assert_eq!((a, b, c), (0, 1, 2));
    assert!(!sched.can_launch());
    // Complete out of launch order: slot 1 is item 1, then slot 1 is item
    // 2 (after the removal), then slot 0 is item 0.
    assert_eq!(sched.complete(1, "one"), 1);
    assert_eq!(sched.complete(1, "two"), 2);
    assert_eq!(sched.complete(0, "zero"), 0);
    let mut results = sched.into_results();
    results.sort_by_key(|p| p.0);
    assert_eq!(results, vec![(0, "zero"), (1, "one"), (2, "two")]);
}

#[test]
fn a_window_wider_than_the_batch_launches_everything_at_once() {
    let mut sched: BatchScheduler<()> = BatchScheduler::new(2, 10);
    assert!(sched.can_launch());
    sched.launch();
    sched.launch();
    assert!(!sched.can_launch());
    assert!(!sched.is_finished());
    sched.complete(0, ());
    sched.complete(0, ());
    assert!(sched.is_finished());
    assert_eq!(sched.into_results().len(), 2);
}

#[test]
fn an_empty_batch_is_finished_immediately() {
    let sched: BatchScheduler<()> = BatchScheduler::new(0, 4);
    assert!(sched.is_finished());
    assert!(!sched.can_launch());
    assert_eq!(sched.into_results().len(), 0);
}
