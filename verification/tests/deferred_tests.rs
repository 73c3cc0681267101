use deferred_tasks::deferred::deferred_block;
use deferred_tasks::deferred::deferred_named;
use deferred_tasks::deferred::drive;
use deferred_tasks::deferred::drive_sequentially;
use deferred_tasks::deferred::narrated_future;
use deferred_tasks::deferred::Step;

#[test]
fn both_construction_styles_drive_identically() {
    let steps_a = vec![
        Step::Narrate(String::from("Task 1 is running......")),
        Step::Suspend(1),
    ];
    let steps_b = vec![
        Step::Narrate(String::from("Task 1 is running......")),
        Step::Suspend(1),
    ];
    let a = deferred_block(steps_a, String::from("Task 1 is done."));
    let b = deferred_named(steps_b, String::from("Task 1 is done."));
    let (log_a, value_a) = drive(&a);
    let (log_b, value_b) = drive(&b);
    assert_eq!(log_a, log_b);
    assert_eq!(value_a, value_b);
    assert_eq!(value_a, "Task 1 is done.");
}

#[test]
fn drive_reports_narration_and_value() {
    let steps = vec![
        Step::Narrate(String::from("first line")),
        Step::Suspend(2),
        Step::Narrate(String::from("second line")),
    ];
    let d = deferred_block(steps, String::from("the value"));
    let (log, value) = drive(&d);
    assert_eq!(log, vec!["first line", "second line"]);
    assert_eq!(value, "the value");
}

#[test]
fn drive_with_no_narration() {
    let steps = vec![Step::Suspend(1)];
    let d = deferred_named(steps, String::from("Request done, here is the data: ABC"));
    let (log, value) = drive(&d);
    assert!(log.is_empty());
    assert_eq!(value, "Request done, here is the data: ABC");
}

#[test]
fn narrated_future_runs_then_finishes() {
    let d = narrated_future(
        String::from("My Future is running..."),
        String::from("My Future is Done."),
        String::from("Result from 'My Future'."),
    );
    let (log, value) = drive(&d);
    assert_eq!(log, vec!["My Future is running...", "My Future is Done."]);
    assert_eq!(value, "Result from 'My Future'.");
}

#[test]
fn sequential_awaiting_does_not_interleave() {
    let first = narrated_future(
        String::from("My Future is running..."),
        String::from("My Future is Done."),
        String::from("Result from 'My Future'."),
    );
    let second = narrated_future(
        String::from("My Future_2 is running..."),
        String::from("My Future_2 is Done."),
        String::from("Result from 'My Future'_2."),
    );
    let (log, value1, value2) = drive_sequentially(&first, &second);
    assert_eq!(
        log,
        vec![
            "My Future is running...",
            "My Future is Done.",
            "My Future_2 is running...",
            "My Future_2 is Done.",
        ]
    );
    for line in &log {
        assert_eq!(log.iter().filter(|l| l == &line).count(), 1);
    }
    assert_eq!(value1, "Result from 'My Future'.");
    assert_eq!(value2, "Result from 'My Future'_2.");
}
