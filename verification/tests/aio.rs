use socketcan_alt::aio::{is_accepted, start, step, AioAction, AioEvent, AioState, Attempt};
use socketcan_alt::{ByteOrder, DataFrame, Error, Frame, Id, Socket};

const EAGAIN: i32 = 11;

type State = AioState<Vec<u8>>;
type Event = AioEvent<u32, Vec<u8>, Error>;
type Action = AioAction<u32, Vec<u8>, Error>;

#[test]
fn test_start_waits() {
    let (state, action): (State, Action) = start(vec![1, 2, 3]);
    assert!(matches!(state, AioState::Waiting(ref b) if b == &[1, 2, 3]));
    assert!(matches!(action, AioAction::Await));
}

#[test]
fn test_ready_then_finished() {
    let (state, _): (State, Action) = start(vec![9]);
    let (state, action) = step(state, Event::Readiness(Ok(())));
    assert!(matches!(state, AioState::Attempting));
    assert!(matches!(action, AioAction::Attempt(ref b) if b == &[9]));
    let (state, action) = step(state, Event::Attempted(Attempt::Finished(Ok(7))));
    assert!(matches!(state, AioState::Done));
    assert!(matches!(action, AioAction::Return(Ok(7))));
}

#[test]
fn test_would_block_waits_again_with_the_same_buffer() {
    let buffer = vec![0xAAu8; 64];
    let (mut state, _): (State, Action) = start(buffer.clone());
    for _ in 0..5 {
        let (next, action) = step(state, Event::Readiness(Ok(())));
        let lent = match action {
            AioAction::Attempt(b) => b,
            _ => panic!(),
        };
        assert_eq!(lent, buffer);
        let (next, action) = step(next, Event::Attempted(Attempt::WouldBlock(lent)));
        assert!(matches!(action, AioAction::ClearReadyAndAwait));
        assert!(matches!(next, AioState::Waiting(ref b) if b == &buffer));
        state = next;
    }
    let (state, _) = step(state, Event::Readiness(Ok(())));
    let (state, action) = step(state, Event::Attempted(Attempt::Finished(Ok(1))));
    assert!(matches!(state, AioState::Done));
    assert!(matches!(action, AioAction::Return(Ok(1))));
}

#[test]
fn test_failed_attempt_is_returned() {
    let (state, _): (State, Action) = start(Vec::new());
    let (state, _) = step(state, Event::Readiness(Ok(())));
    let error = Error::Os { errno: 22 };
    let (state, action) = step(state, Event::Attempted(Attempt::Finished(Err(error))));
    assert!(matches!(state, AioState::Done));
    assert!(matches!(action, AioAction::Return(Err(e)) if e == error));
}

#[test]
fn test_failed_wait_is_returned() {
    let (state, _): (State, Action) = start(Vec::new());
    let error = Error::Os { errno: 9 };
    let (state, action) = step(state, Event::Readiness(Err(error)));
    assert!(matches!(state, AioState::Done));
    assert!(matches!(action, AioAction::Return(Err(e)) if e == error));
}

#[test]
fn test_events_accepted() {
    let waiting: State = AioState::Waiting(Vec::new());
    let attempting: State = AioState::Attempting;
    let done: State = AioState::Done;
    let ready: Event = AioEvent::Readiness(Ok(()));
    let attempted: Event = AioEvent::Attempted(Attempt::Finished(Ok(1)));
    assert!(is_accepted(&waiting, &ready));
    assert!(!is_accepted(&waiting, &attempted));
    assert!(is_accepted(&attempting, &attempted));
    assert!(!is_accepted(&attempting, &ready));
    assert!(!is_accepted(&done, &ready));
    assert!(!is_accepted(&done, &attempted));
}

#[test]
fn test_recv_before_and_after_a_frame_is_sent() {
    let socket = Socket::from_fd(3);
    let sent = Frame::Data(DataFrame::new(Id::Standard(0x42), &[0, 1, 2, 3, 4, 5, 6, 7]));
    let wire = sent.encode(ByteOrder::Little);
    let mut buf = [0u8; 72];

    let (state, action): (AioState<()>, AioAction<Frame, (), Error>) = start(());
    assert!(matches!(action, AioAction::Await));
    let (state, action): (AioState<()>, AioAction<Frame, (), Error>) =
        step(state, AioEvent::Readiness(Ok(())));
    assert!(matches!(action, AioAction::Attempt(())));

    let attempt = match socket.recv(ByteOrder::Little, &buf, -1, EAGAIN) {
        Err(Error::Os { errno: EAGAIN }) => Attempt::WouldBlock(()),
        other => Attempt::Finished(other),
    };
    let (state, action): (AioState<()>, AioAction<Frame, (), Error>) =
        step(state, AioEvent::Attempted(attempt));
    assert!(matches!(state, AioState::Waiting(())));
    assert!(matches!(action, AioAction::ClearReadyAndAwait));

    buf[..16].copy_from_slice(&wire);
    let (state, action): (AioState<()>, AioAction<Frame, (), Error>) =
        step(state, AioEvent::Readiness(Ok(())));
    assert!(matches!(action, AioAction::Attempt(())));
    let attempt = match socket.recv(ByteOrder::Little, &buf, 16, 0) {
        Err(Error::Os { errno: EAGAIN }) => Attempt::WouldBlock(()),
        other => Attempt::Finished(other),
    };
    let (state, action): (AioState<()>, AioAction<Frame, (), Error>) =
        step(state, AioEvent::Attempted(attempt));
    assert!(matches!(state, AioState::Done));
    match action {
        AioAction::Return(Ok(Frame::Data(frame))) => {
            assert_eq!(frame.id(), Id::Standard(0x42));
            assert_eq!(frame.data(), &[0, 1, 2, 3, 4, 5, 6, 7]);
        }
        _ => panic!(),
    }
}
