use bytes::Bytes;
use tokio::io::ReadBuf;
use uni_stream::error::{ErrorKind, NetError};
use uni_stream::idle::{timer_after_read, timer_after_receive, TimerStep};
use uni_stream::read::{
    poll_read, poll_read_incoming, recv_datagram, recv_datagram_incoming, Polled, ReadStep,
    ReceiveStep,
};
use uni_stream::timeout::Duration;

const TIMEOUT: u64 = 20;

/// A stream, with its deadline in seconds.
struct Clocked {
    remaining: Option<Bytes>,
    deadline: u64,
}

impl Clocked {
    fn turn(&mut self, timer: TimerStep, now: u64) {
        if let TimerStep::Restart(timeout) = timer {
            self.deadline = now + timeout.as_secs();
        }
    }

    fn read(&mut self, now: u64, incoming: Polled<Option<Bytes>>) -> ReadStep {
        let mut storage = [0u8; 2];
        let mut buf = ReadBuf::new(&mut storage);
        let timeout = Duration::from_secs(TIMEOUT);
        let fired = self.deadline <= now;
        let step = match poll_read(&mut self.remaining, fired, &timeout, &mut buf) {
            ReadStep::AwaitDatagram => poll_read_incoming(&mut self.remaining, incoming, &mut buf),
            step => step,
        };
        self.turn(timer_after_read(&step, &timeout), now);
        step
    }

    fn receive(&mut self, now: u64, incoming: Polled<Option<Bytes>>) -> ReceiveStep {
        let timeout = Duration::from_secs(TIMEOUT);
        let step = match recv_datagram(&self.remaining, self.deadline <= now, &timeout) {
            ReceiveStep::AwaitDatagram => recv_datagram_incoming(incoming),
            step => step,
        };
        self.turn(timer_after_receive(&step, &timeout), now);
        step
    }
}

fn datagram() -> Polled<Option<Bytes>> {
    Polled::Ready(Some(Bytes::from_static(b"abc")))
}

#[test]
fn timer_steps() {
    let timeout = Duration::from_secs(7);
    let fail = || NetError::new(ErrorKind::BrokenPipe, "Broken pipe");
    let restart = TimerStep::Restart(timeout);
    assert_eq!(timer_after_read(&ReadStep::Delivered, &timeout), restart);
    assert_eq!(timer_after_read(&ReadStep::Fail(fail()), &timeout), TimerStep::Keep);
    assert_eq!(timer_after_read(&ReadStep::AwaitDatagram, &timeout), TimerStep::Keep);
    let received = ReceiveStep::Received(Bytes::new());
    assert_eq!(timer_after_receive(&received, &timeout), restart);
    assert_eq!(timer_after_receive(&ReceiveStep::Fail(fail()), &timeout), TimerStep::Keep);
    assert_eq!(timer_after_receive(&ReceiveStep::AwaitDatagram, &timeout), TimerStep::Keep);
}

#[test]
fn success_alone_moves_the_deadline() {
    let mut stream = Clocked { remaining: None, deadline: 20 };
    assert!(matches!(stream.read(5, Polled::Pending), ReadStep::AwaitDatagram));
    assert_eq!(stream.deadline, 20);
    assert!(matches!(stream.read(6, Polled::Ready(None)), ReadStep::Fail(_)));
    assert_eq!(stream.deadline, 20);
    assert!(matches!(stream.read(7, datagram()), ReadStep::Delivered));
    assert_eq!(stream.deadline, 27);
    assert!(matches!(stream.receive(8, datagram()), ReceiveStep::Fail(_)));
    assert_eq!(stream.deadline, 27);
    assert!(matches!(stream.read(9, Polled::Pending), ReadStep::Delivered));
    assert_eq!(stream.deadline, 29);
    assert!(matches!(stream.receive(28, datagram()), ReceiveStep::Received(_)));
    assert_eq!(stream.deadline, 48);
}

#[test]
fn stream_that_timed_out_stays_so() {
    let mut stream = Clocked { remaining: None, deadline: 20 };
    for now in [20, 21, 400] {
        match stream.read(now, datagram()) {
            ReadStep::Fail(e) => assert_eq!(e.kind, ErrorKind::TimedOut),
            _ => panic!("the timer ran out"),
        }
        match stream.receive(now, datagram()) {
            ReceiveStep::Fail(e) => assert_eq!(e.kind, ErrorKind::TimedOut),
            _ => panic!("the timer ran out"),
        }
        assert_eq!(stream.deadline, 20);
    }
}
