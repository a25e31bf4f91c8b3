use kliento::batch::{get_iteration, get_upload_summary, plan_batches, Batch};

#[test]
fn test_get_upload_summary() {
    let (current, remaining) = get_upload_summary(13, 5, 1);
    assert_eq!(current, 5);
    assert_eq!(remaining, 13);

    let (current, remaining) = get_upload_summary(13, 5, 2);
    assert_eq!(current, 5);
    assert_eq!(remaining, 8);

    let (current, remaining) = get_upload_summary(13, 5, 3);
    assert_eq!(current, 3);
    assert_eq!(remaining, 3);
}

#[test]
fn test_get_iteration() {
    let iteration = get_iteration(&5, &4);
    assert_eq!(iteration, 1);

    let iteration = get_iteration(&5, &9);
    assert_eq!(iteration, 2);

    let iteration = get_iteration(&5, &12);
    assert_eq!(iteration, 3);

    let iteration = get_iteration(&5, &16);
    assert_eq!(iteration, 4);
}

#[test]
fn iteration_at_batch_boundaries() {
    assert_eq!(get_iteration(&5, &0), 1);
    assert_eq!(get_iteration(&5, &5), 2);
    assert_eq!(get_iteration(&1, &6), 7);
}

#[test]
fn plan_with_short_last_batch() {
    let plan = plan_batches(13, 5);
    assert_eq!(
        plan,
        vec![
            Batch { start: 0, end: 5, sequence_number: 1 },
            Batch { start: 5, end: 10, sequence_number: 2 },
            Batch { start: 10, end: 13, sequence_number: 3 },
        ]
    );
}

#[test]
fn plan_with_exact_multiple() {
    let plan = plan_batches(10, 5);
    assert_eq!(plan.len(), 2);
    assert_eq!(plan[1], Batch { start: 5, end: 10, sequence_number: 2 });
}

#[test]
fn plan_with_fewer_records_than_batch_size() {
    let plan = plan_batches(3, 500);
    assert_eq!(plan, vec![Batch { start: 0, end: 3, sequence_number: 1 }]);
}

#[test]
fn plan_of_nothing_is_empty() {
    assert!(plan_batches(0, 5).is_empty());
}

#[test]
fn remaining_count_falls_to_last_batch_size() {
    let plan = plan_batches(13, 5);
    let mut previous = usize::MAX;
    for b in &plan {
        let (current, remaining) = get_upload_summary(13, 5, b.sequence_number);
        assert_eq!(current, b.end - b.start);
        assert_eq!(remaining, 13 - b.start);
        assert!(remaining < previous);
        previous = remaining;
    }
    assert_eq!(previous, 3);
}
