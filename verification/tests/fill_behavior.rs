use bumpalo_try::BumpaloExtend;
use std::cell::Cell;

#[test]
fn with_result_builds_all_elements() {
    let bump = bumpalo::Bump::new();
    let x = bump.alloc_slice_fill_with_result(5, |i| Ok::<usize, ()>(5 * (i + 1)));
    assert_eq!(x.unwrap(), &[5, 10, 15, 20, 25]);
}

#[test]
fn with_result_returns_first_error() {
    let bump = bumpalo::Bump::new();
    let x = bump.alloc_slice_fill_with_result(5, |_| Err::<usize, ()>(()));
    assert_eq!(x, Err(()));
}

#[test]
fn with_result_error_payload_unchanged() {
    let bump = bumpalo::Bump::new();
    let x = bump.alloc_slice_fill_with_result(6, |i| {
        if i == 2 {
            Err(String::from("boom"))
        } else {
            Ok(i as u64)
        }
    });
    assert_eq!(x, Err(String::from("boom")));
}

#[test]
fn with_result_immediate_failure_calls_once() {
    let bump = bumpalo::Bump::new();
    let calls = Cell::new(0usize);
    let x = bump.alloc_slice_fill_with_result(5, |_| {
        calls.set(calls.get() + 1);
        Err::<usize, ()>(())
    });
    assert_eq!(x, Err(()));
    assert_eq!(calls.get(), 1);
}

#[test]
fn with_result_stops_at_first_failure() {
    let bump = bumpalo::Bump::new();
    let highest = Cell::new(None::<usize>);
    let x = bump.alloc_slice_fill_with_result(8, |i| {
        highest.set(Some(i));
        if i >= 3 {
            Err(i)
        } else {
            Ok(i * 2)
        }
    });
    assert_eq!(x, Err(3));
    assert_eq!(highest.get(), Some(3));
}

#[test]
fn with_result_visits_indices_in_order() {
    let bump = bumpalo::Bump::new();
    let seen = Cell::new(0usize);
    let x = bump.alloc_slice_fill_with_result(6, |i| {
        assert_eq!(seen.get(), i);
        seen.set(i + 1);
        Ok::<usize, ()>(i)
    });
    assert_eq!(x.unwrap(), &[0, 1, 2, 3, 4, 5]);
    assert_eq!(seen.get(), 6);
}

#[test]
fn with_result_zero_length_never_calls() {
    let bump = bumpalo::Bump::new();
    let x = bump.alloc_slice_fill_with_result(0, |_| -> Result<u8, ()> { panic!("must not be called") });
    assert_eq!(x.unwrap(), &[] as &[u8]);
}

#[test]
fn with_option_builds_all_elements() {
    let bump = bumpalo::Bump::new();
    let x = bump.alloc_slice_fill_with_option(5, |i| Some(5 * (i + 1)));
    assert_eq!(x.unwrap(), &[5, 10, 15, 20, 25]);
}

#[test]
fn with_option_reports_bare_absence() {
    let bump = bumpalo::Bump::new();
    let x = bump.alloc_slice_fill_with_option(5, |_| None::<usize>);
    assert_eq!(x, None);
}

#[test]
fn with_option_stops_at_first_absence() {
    let bump = bumpalo::Bump::new();
    let highest = Cell::new(None::<usize>);
    let x = bump.alloc_slice_fill_with_option(8, |i| {
        highest.set(Some(i));
        if i >= 2 {
            None
        } else {
            Some(i * 10)
        }
    });
    assert_eq!(x, None);
    assert_eq!(highest.get(), Some(2));
}

#[test]
fn with_option_zero_length_never_calls() {
    let bump = bumpalo::Bump::new();
    let x = bump.alloc_slice_fill_with_option(0, |_| -> Option<u8> { panic!("must not be called") });
    assert_eq!(x.unwrap(), &[] as &[u8]);
}

#[test]
fn iter_result_builds_all_elements() {
    let bump = bumpalo::Bump::new();
    let items: Vec<Result<i32, ()>> = [2, 3, 5].iter().map(|&i| Ok(i * i)).collect();
    let x = bump.alloc_slice_fill_iter_result(items);
    assert_eq!(x.unwrap(), &[4, 9, 25]);
}

#[test]
fn iter_result_returns_first_error() {
    let bump = bumpalo::Bump::new();
    let x: Result<&mut [i32], ()> = bump.alloc_slice_fill_iter_result(vec![Ok(2), Err(()), Ok(5)]);
    assert_eq!(x, Err(()));
}

#[test]
fn iter_result_first_error_payload_wins() {
    let bump = bumpalo::Bump::new();
    let x: Result<&mut [u8], &str> =
        bump.alloc_slice_fill_iter_result(vec![Ok(1), Err("first"), Ok(2), Err("second")]);
    assert_eq!(x, Err("first"));
}

#[test]
fn iter_result_round_trip_preserves_order() {
    let bump = bumpalo::Bump::new();
    let source = vec![10u64, 7, 7, 3, 99];
    let items: Vec<Result<u64, ()>> = source.iter().map(|&v| Ok(v)).collect();
    let x = bump.alloc_slice_fill_iter_result(items).unwrap();
    assert_eq!(x, source.as_slice());
}

#[test]
fn iter_result_empty_source() {
    let bump = bumpalo::Bump::new();
    let x: Result<&mut [u8], ()> = bump.alloc_slice_fill_iter_result(vec![]);
    assert_eq!(x.unwrap(), &[] as &[u8]);
}

#[test]
fn iter_option_checked_squares() {
    let bump = bumpalo::Bump::new();
    let items: Vec<Option<i32>> = [2, 3, 5].iter().map(|&i: &i32| i.checked_pow(2)).collect();
    let x = bump.alloc_slice_fill_iter_option(items);
    assert_eq!(x.unwrap(), &[4, 9, 25]);
}

#[test]
fn iter_option_checked_square_overflow() {
    let bump = bumpalo::Bump::new();
    let items: Vec<Option<i32>> = [2, 3, i32::MAX].iter().map(|&i: &i32| i.checked_pow(2)).collect();
    let x = bump.alloc_slice_fill_iter_option(items);
    assert_eq!(x, None);
}

#[test]
fn iter_option_round_trip_preserves_order() {
    let bump = bumpalo::Bump::new();
    let source = vec![8i16, -1, 0, -1, 42];
    let items: Vec<Option<i16>> = source.iter().map(|&v| Some(v)).collect();
    let x = bump.alloc_slice_fill_iter_option(items).unwrap();
    assert_eq!(x, source.as_slice());
}

#[test]
fn slices_are_exclusive_and_writable() {
    let bump = bumpalo::Bump::new();
    let x = bump.alloc_slice_fill_with_result(3, |i| Ok::<usize, ()>(i)).unwrap();
    x[0] = 100;
    assert_eq!(x, &[100, 1, 2]);
}
