use async_spdk::bridge::{BridgeCall, Poll};
use async_spdk::error::SpdkError;
use async_spdk::executor::{Executor, PollOutcome, Step, TaskState};
use async_spdk::reactor::Reactor;
use async_spdk::waker::WakeToken;
use std::cell::RefCell;
use std::rc::Rc;

type WriteCall = Rc<RefCell<BridgeCall<()>>>;
type ReadCall = Rc<RefCell<BridgeCall<Vec<u8>>>>;

/// A simulated native device. A write is answered later, when the device is
/// driven; a read is answered at once, before the call that asked for it
/// returns.
struct Device {
    stored: Vec<u8>,
    write_status: i32,
    in_flight: Vec<(WriteCall, Vec<u8>)>,
    writes_issued: u32,
    reads_issued: u32,
}

impl Device {
    fn new(write_status: i32) -> Device {
        Device { stored: Vec::new(), write_status, in_flight: Vec::new(), writes_issued: 0, reads_issued: 0 }
    }

    fn write(&mut self, call: WriteCall, data: Vec<u8>) -> i32 {
        self.writes_issued += 1;
        self.in_flight.push((call, data));
        0
    }

    fn read(&mut self, call: ReadCall, reactor: &mut Reactor) -> i32 {
        self.reads_issued += 1;
        call.borrow_mut().complete(0, self.stored.clone(), reactor);
        0
    }

    /// Answers every write that is in flight.
    fn drive(&mut self, reactor: &mut Reactor) {
        let in_flight = std::mem::take(&mut self.in_flight);
        for (call, data) in in_flight {
            if self.write_status == 0 {
                self.stored = data;
            }
            call.borrow_mut().complete(self.write_status, (), reactor);
        }
    }
}

enum WriteThenRead {
    Start { data: Vec<u8> },
    Writing { call: WriteCall, data: Vec<u8> },
    Reading { call: ReadCall, data: Vec<u8> },
}

type Output = Result<(), SpdkError>;

fn check(read: Result<Vec<u8>, SpdkError>, data: &[u8]) -> Output {
    let bytes = read?;
    assert_eq!(bytes, data);
    Ok(())
}

fn advance(
    computation: WriteThenRead,
    token: WakeToken,
    device: &mut Device,
    reactor: &mut Reactor,
) -> Step<WriteThenRead, Output> {
    match computation {
        WriteThenRead::Start { data } => {
            let call: WriteCall = Rc::new(RefCell::new(BridgeCall::new()));
            let status = device.write(call.clone(), data.clone());
            let answer = call.borrow_mut().start(status, token);
            after_write(answer, call, data, token, device, reactor)
        }
        WriteThenRead::Writing { call, data } => {
            let answer = call.borrow_mut().poll(token);
            after_write(answer, call, data, token, device, reactor)
        }
        WriteThenRead::Reading { call, data } => {
            let answer = call.borrow_mut().poll(token);
            after_read(answer, call, data)
        }
    }
}

fn after_write(
    answer: Poll<Result<(), SpdkError>>,
    call: WriteCall,
    data: Vec<u8>,
    token: WakeToken,
    device: &mut Device,
    reactor: &mut Reactor,
) -> Step<WriteThenRead, Output> {
    match answer {
        Poll::Pending => Step::Pending(WriteThenRead::Writing { call, data }),
        Poll::Ready(Err(failure)) => Step::Ready(Err(failure)),
        Poll::Ready(Ok(())) => {
            let read: ReadCall = Rc::new(RefCell::new(BridgeCall::new()));
            let status = device.read(read.clone(), reactor);
            let answer = read.borrow_mut().start(status, token);
            after_read(answer, read, data)
        }
    }
}

fn after_read(
    answer: Poll<Result<Vec<u8>, SpdkError>>,
    call: ReadCall,
    data: Vec<u8>,
) -> Step<WriteThenRead, Output> {
    match answer {
        Poll::Pending => Step::Pending(WriteThenRead::Reading { call, data }),
        Poll::Ready(read) => Step::Ready(check(read, &data)),
    }
}

fn tick(
    executor: &mut Executor<WriteThenRead, Output>,
    reactor: &mut Reactor,
    device: &mut Device,
) -> Vec<PollOutcome> {
    let mut outcomes = Vec::new();
    for task in executor.due_tasks(reactor) {
        if let Some((token, computation)) = executor.begin_poll(reactor, task) {
            let step = advance(computation, token, device, reactor);
            outcomes.push(executor.finish_poll(reactor, task, step).outcome);
        }
    }
    device.drive(reactor);
    outcomes
}

fn joined(answer: Poll<Output>) -> Output {
    match answer {
        Poll::Ready(output) => output,
        Poll::Pending => panic!("pending"),
    }
}

#[test]
fn write_then_read_completes_in_two_ticks() {
    let mut reactor = Reactor::new();
    let mut executor: Executor<WriteThenRead, Output> = Executor::new();
    let mut device = Device::new(0);
    let me = WakeToken::new(reactor.register_poller());
    let handle = executor.spawn(&mut reactor, WriteThenRead::Start { data: vec![0x5a; 512] });
    let task = handle.task();

    assert_eq!(tick(&mut executor, &mut reactor, &mut device), vec![PollOutcome::Paused]);
    assert_eq!(device.writes_issued, 1);
    assert_eq!(device.reads_issued, 0);
    assert_eq!(executor.state(task), Some(TaskState::Suspended));
    assert!(matches!(executor.join(&handle, me), Poll::Pending));

    assert_eq!(tick(&mut executor, &mut reactor, &mut device), vec![PollOutcome::Finished]);
    assert_eq!(device.reads_issued, 1);
    assert_eq!(device.stored, vec![0x5a; 512]);
    assert_eq!(executor.state(task), Some(TaskState::Completed));
    assert_eq!(joined(executor.join(&handle, me)), Ok(()));
    assert!(tick(&mut executor, &mut reactor, &mut device).is_empty());
}

#[test]
fn failed_write_ends_the_task_before_the_read() {
    let mut reactor = Reactor::new();
    let mut executor: Executor<WriteThenRead, Output> = Executor::new();
    let mut device = Device::new(-5);
    let me = WakeToken::new(reactor.register_poller());
    let handle = executor.spawn(&mut reactor, WriteThenRead::Start { data: vec![1, 2, 3] });
    let task = handle.task();

    assert_eq!(tick(&mut executor, &mut reactor, &mut device), vec![PollOutcome::Paused]);
    assert_eq!(tick(&mut executor, &mut reactor, &mut device), vec![PollOutcome::Finished]);
    assert_eq!(executor.state(task), Some(TaskState::Completed));
    assert_eq!(joined(executor.join(&handle, me)), Err(SpdkError::OperationFailure { code: -5 }));
    assert_eq!(device.writes_issued, 1);
    assert_eq!(device.reads_issued, 0);
    assert!(device.stored.is_empty());
}

#[test]
fn failing_root_computation_gives_its_failure_as_final_output() {
    let mut reactor = Reactor::new();
    let mut executor: Executor<WriteThenRead, Output> = Executor::new();
    let mut device = Device::new(-5);
    let root = executor
        .spawn_root(&mut reactor, WriteThenRead::Start { data: vec![9] })
        .ok()
        .unwrap();
    assert_eq!(tick(&mut executor, &mut reactor, &mut device), vec![PollOutcome::Paused]);
    assert!(!reactor.is_stopped());
    assert_eq!(
        tick(&mut executor, &mut reactor, &mut device),
        vec![PollOutcome::FinishedAndStopped]
    );
    assert!(reactor.is_stopped());
    assert_eq!(executor.state(root), None);
    assert_eq!(
        executor.take_final_output(),
        Some(Err(SpdkError::OperationFailure { code: -5 }))
    );
}
