use dav1d::{check_status, Action, DataProps, DecodeLoop, Error};

const AGAIN: i32 = 11;

#[test]
fn empty_chunk_gives_no_pictures() {
    let l: DecodeLoop<u32> = DecodeLoop::new(0, AGAIN);
    assert_eq!(l.next_action(), Action::Stop);
    assert!(l.is_over());
    assert_eq!(l.finish().unwrap(), Vec::<u32>::new());
}

#[test]
fn pictures_collected_until_bytes_run_out() {
    let mut l: DecodeLoop<u32> = DecodeLoop::new(100, AGAIN);
    assert_eq!(l.next_action(), Action::Submit);
    l.submitted(0);
    assert_eq!(l.next_action(), Action::Retrieve);
    l.retrieved(Ok(1), 50);
    assert_eq!(l.next_action(), Action::Submit);
    l.submitted(-AGAIN);
    l.retrieved(Err(Error(-AGAIN)), 50);
    assert_eq!(l.next_action(), Action::Submit);
    l.submitted(0);
    l.retrieved(Ok(2), 0);
    assert_eq!(l.next_action(), Action::Stop);
    assert_eq!(l.finish().unwrap(), vec![1, 2]);
}

#[test]
fn rejected_submission_discards_pictures() {
    let mut l: DecodeLoop<u32> = DecodeLoop::new(100, AGAIN);
    l.submitted(0);
    l.retrieved(Ok(7), 10);
    l.submitted(-22);
    assert_eq!(l.next_action(), Action::Stop);
    assert_eq!(l.finish().unwrap_err(), Error(-22));
}

#[test]
fn fatal_retrieval_keeps_pictures() {
    let mut l: DecodeLoop<u32> = DecodeLoop::new(100, AGAIN);
    l.submitted(0);
    l.retrieved(Ok(7), 10);
    l.submitted(0);
    l.retrieved(Err(Error(-22)), 10);
    assert_eq!(l.next_action(), Action::Stop);
    assert_eq!(l.finish().unwrap(), vec![7]);
}

#[test]
fn retryable_retrieval_is_not_terminal() {
    let mut l: DecodeLoop<u32> = DecodeLoop::new(100, -AGAIN);
    l.submitted(1);
    l.retrieved(Err(Error(-AGAIN)), 10);
    assert!(!l.is_over());
    assert_eq!(l.next_action(), Action::Submit);
}

#[test]
fn again_in_both_sign_conventions() {
    assert!(Error(-11).is_again(11));
    assert!(Error(-11).is_again(-11));
    assert!(!Error(11).is_again(11));
    assert!(!Error(-22).is_again(11));
    assert_eq!(Error(-5).code(), -5);
}

#[test]
fn status_codes() {
    assert_eq!(check_status(0), Ok(()));
    assert_eq!(check_status(4), Ok(()));
    assert_eq!(check_status(-22), Err(Error(-22)));
}

#[test]
fn given_props_replace_defaults() {
    let base = DataProps { offset: -1, timestamp: i64::MIN, duration: 0 };
    assert_eq!(base.apply(None, None, None), base);
    assert_eq!(
        base.apply(Some(5), Some(1000), None),
        DataProps { offset: 5, timestamp: 1000, duration: 0 }
    );
    assert_eq!(
        base.apply(None, None, Some(33)),
        DataProps { offset: -1, timestamp: i64::MIN, duration: 33 }
    );
}
