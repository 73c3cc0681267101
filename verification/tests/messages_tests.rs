use deferred_tasks::digits::decimal_string;
use deferred_tasks::messages::task_done_line;
use deferred_tasks::messages::task_running_line;

#[test]
fn decimal_zero() {
    assert_eq!(decimal_string(0), "0");
}

#[test]
fn decimal_single_digit() {
    assert_eq!(decimal_string(7), "7");
}

#[test]
fn decimal_two_digits() {
    assert_eq!(decimal_string(10), "10");
}

#[test]
fn decimal_inner_zero() {
    assert_eq!(decimal_string(909), "909");
}

#[test]
fn decimal_larger() {
    assert_eq!(decimal_string(123456), "123456");
}

#[test]
fn running_line_exact() {
    assert_eq!(task_running_line(5), "Task 5 is running......");
}

#[test]
fn done_line_exact() {
    assert_eq!(task_done_line(9), "Task 9 is done.");
}

#[test]
fn done_line_two_digit_index() {
    assert_eq!(task_done_line(12), "Task 12 is done.");
}
