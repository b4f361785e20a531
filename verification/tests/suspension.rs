use starstream_sys::sleep;
use starstream_sys::sleep_mut;
use starstream_sys::BoundaryViolation;
use starstream_sys::Channel;
use starstream_sys::HostEndpoint;

#[test]
fn sleep_round_trip() {
    let channel = Channel { id: 3, yield_size: 1, resume_size: 3 };
    let mut host = HostEndpoint::new();
    host.queue_resume(vec![1, 2, 3]);
    let r = sleep(&mut host, &channel, &vec![10]);
    // The unit observes exactly the resume value the host supplied.
    assert_eq!(r, Ok(vec![1, 2, 3]));
    // The host observes exactly the yielded value, on the named channel.
    assert_eq!(host.observed_count(), 1);
    assert_eq!(host.observed_channel(0), 3);
    assert_eq!(host.observed_data(0), &vec![10]);
}

#[test]
fn sleep_with_empty_resume_type() {
    // Yield a 64-bit value of 10; the resume type is the empty value: the
    // unit continues with no observable payload.
    let channel = Channel { id: 1, yield_size: 8, resume_size: 0 };
    let mut host = HostEndpoint::new();
    host.queue_resume(Vec::new());
    let r = sleep(&mut host, &channel, &vec![10, 0, 0, 0, 0, 0, 0, 0]);
    assert_eq!(r, Ok(Vec::new()));
    assert_eq!(host.observed_data(0), &vec![10, 0, 0, 0, 0, 0, 0, 0]);
}

#[test]
fn resume_of_wrong_size_is_rejected() {
    let channel = Channel { id: 2, yield_size: 1, resume_size: 2 };
    let mut host = HostEndpoint::new();
    host.queue_resume(vec![1]);
    let r = sleep(&mut host, &channel, &vec![0]);
    assert_eq!(r, Err(BoundaryViolation::ResumeSizeMismatch));
    // The yield still reached the host before the violation was detected.
    assert_eq!(host.observed_count(), 1);
}

#[test]
fn sleep_mut_leaves_storage_unchanged() {
    let channel = Channel { id: 4, yield_size: 2, resume_size: 1 };
    let mut host = HostEndpoint::new();
    host.queue_resume(vec![9]);
    let mut data = vec![5, 6];
    let r = sleep_mut(&mut host, &channel, &mut data);
    assert_eq!(r, Ok(vec![9]));
    assert_eq!(data, vec![5, 6]);
    assert_eq!(host.observed_data(0), &vec![5, 6]);
}

#[test]
fn script_is_consumed_in_order() {
    let channel = Channel { id: 7, yield_size: 1, resume_size: 1 };
    let mut host = HostEndpoint::new();
    host.queue_resume(vec![11]);
    host.queue_resume(vec![22]);
    let first = sleep(&mut host, &channel, &vec![1]);
    let second = sleep(&mut host, &channel, &vec![2]);
    assert_eq!(first, Ok(vec![11]));
    assert_eq!(second, Ok(vec![22]));
    assert_eq!(host.observed_count(), 2);
    assert_eq!(host.observed_data(0), &vec![1]);
    assert_eq!(host.observed_data(1), &vec![2]);
}
