use guarded_access::arith::{divide, DivisionError};
use guarded_access::indexing::{get, unsafe_access, IndexError};
use guarded_access::shared::SharedImmutableValue;
use guarded_access::task::{join_result, TaskError};

#[test]
fn divide_by_zero_is_reported() {
    assert_eq!(divide(10, 0), Err(DivisionError::ByZero));
}

#[test]
fn divide_by_zero_for_any_dividend() {
    for a in [0, 1, -1, 42, i32::MIN, i32::MAX] {
        assert_eq!(divide(a, 0), Err(DivisionError::ByZero));
    }
}

#[test]
fn divide_min_by_minus_one_overflows() {
    assert_eq!(divide(i32::MIN, -1), Err(DivisionError::Overflow));
}

#[test]
fn divide_truncates_toward_zero() {
    assert_eq!(divide(10, 3), Ok(3));
    assert_eq!(divide(-7, 2), Ok(-3));
    assert_eq!(divide(7, -2), Ok(-3));
    assert_eq!(divide(-7, -2), Ok(3));
    assert_eq!(divide(0, -5), Ok(0));
}

#[test]
fn divide_at_the_limits() {
    assert_eq!(divide(i32::MIN, 1), Ok(i32::MIN));
    assert_eq!(divide(i32::MAX, -1), Ok(-i32::MAX));
    assert_eq!(divide(i32::MIN, 2), Ok(-1073741824));
    assert_eq!(divide(i32::MAX, i32::MIN), Ok(0));
}

#[test]
fn get_out_of_bounds_reports_index_and_length() {
    let s = [1, 2, 3];
    assert_eq!(get(&s, 5), Err(IndexError::OutOfBounds(5, 3)));
    assert_eq!(get(&s, 3), Err(IndexError::OutOfBounds(3, 3)));
}

#[test]
fn get_on_empty_slice() {
    let s: [u8; 0] = [];
    assert_eq!(get(&s, 0), Err(IndexError::OutOfBounds(0, 0)));
}

#[test]
fn get_returns_each_element() {
    let s = [10, 20, 30];
    for i in 0..s.len() {
        assert_eq!(get(&s, i), Ok(&s[i]));
    }
    assert_eq!(get(&s, 2), Ok(&30));
}

#[test]
fn unsafe_access_reads_in_bounds() {
    let s = [4, 5, 6];
    assert_eq!(unsafe_access(&s, 0), Ok(4));
    assert_eq!(unsafe_access(&s, 2), Ok(6));
}

#[test]
fn unsafe_access_reports_out_of_bounds() {
    let s = [1, 2, 3];
    assert_eq!(unsafe_access(&s, 5), Err(IndexError::OutOfBounds(5, 3)));
    assert_eq!(unsafe_access(&s, 3), Err(IndexError::OutOfBounds(3, 3)));
    assert_eq!(
        unsafe_access(&s, usize::MAX),
        Err(IndexError::OutOfBounds(usize::MAX, 3))
    );
    let empty: [i32; 0] = [];
    assert_eq!(unsafe_access(&empty, 0), Err(IndexError::OutOfBounds(0, 0)));
}

#[test]
fn unsafe_access_agrees_through_shared_handle() {
    let v = vec![7, 8, 9];
    let h = SharedImmutableValue::create(v.clone());
    let c = h.clone_handle();
    for i in 0..5 {
        assert_eq!(unsafe_access(c.read(), i), unsafe_access(&v, i));
    }
}

#[test]
fn read_after_clone_handle_gives_value() {
    let h = SharedImmutableValue::create(String::from("shared"));
    let c = h.clone_handle();
    assert_eq!(c.read(), "shared");
    assert_eq!(h.read(), "shared");
}

#[test]
fn run_with_passes_the_value() {
    let h = SharedImmutableValue::create(vec![1u32, 2, 3]);
    let sum = h.clone_handle().run_with(|v: &Vec<u32>| v.iter().sum::<u32>());
    assert_eq!(sum, 6);
}

#[test]
fn create_run_and_join_gives_value() {
    let h = SharedImmutableValue::create(42);
    let worker = h.clone_handle();
    let returned = worker.run_with(|v: &i32| *v);
    assert_eq!(join_result(Some(returned)), Ok(42));
}

#[test]
fn join_of_failed_work_reports_panic() {
    assert_eq!(join_result::<i32>(None), Err(TaskError::Panicked));
}
