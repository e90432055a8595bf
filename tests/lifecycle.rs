use phidget::channel::{Action, Channel, ChannelState, EventKind};
use phidget::error::{check_ret, ChannelError, STATUS_OK, STATUS_TIMEOUT};
use phidget::payload::{event_target, fixed_payload, OCTAVE_BANDS};
use std::cell::RefCell;
use std::collections::HashMap;
use std::rc::Rc;

/// A stand-in for the native library: it records every call, keeps the
/// installed contexts, and tracks which closures are allocated.
struct MockNative {
    calls: Vec<Action>,
    installed: HashMap<usize, usize>,
    closures: HashMap<usize, Box<dyn Fn(f64)>>,
    freed: Vec<usize>,
    next_ctx: usize,
}

fn slot_index(k: EventKind) -> usize {
    match k {
        EventKind::Attach => 0,
        EventKind::Detach => 1,
        EventKind::DataChange => 2,
    }
}

impl MockNative {
    fn new() -> Self {
        MockNative {
            calls: Vec::new(),
            installed: HashMap::new(),
            closures: HashMap::new(),
            freed: Vec::new(),
            next_ctx: 0x1000,
        }
    }

    fn allocate(&mut self, f: Box<dyn Fn(f64)>) -> usize {
        self.next_ctx += 16;
        self.closures.insert(self.next_ctx, f);
        self.next_ctx
    }

    fn run(&mut self, plan: Vec<Action>) {
        for a in plan {
            self.calls.push(a);
            match a {
                Action::SetHandler(k, ctx) => {
                    self.installed.insert(slot_index(k), ctx);
                }
                Action::ClearHandler(k) => {
                    self.installed.remove(&slot_index(k));
                }
                Action::Delete => self.installed.clear(),
                Action::Release(_, ctx) => {
                    assert!(!self.installed.values().any(|&c| c == ctx), "freed while installed");
                    assert!(self.closures.remove(&ctx).is_some(), "double free of {ctx:#x}");
                    self.freed.push(ctx);
                }
                Action::Close => {}
            }
        }
    }

    fn fire(&self, k: EventKind, value: f64) -> bool {
        let ctx = *self.installed.get(&slot_index(k)).unwrap_or(&0);
        match event_target(ctx) {
            Some(addr) => {
                (self.closures[&addr])(value);
                true
            }
            None => false,
        }
    }
}

#[test]
fn status_translation() {
    assert_eq!(check_ret(STATUS_OK), Ok(()));
    assert_eq!(check_ret(STATUS_TIMEOUT), Err(ChannelError::Timeout));
    assert_eq!(check_ret(52), Err(ChannelError::NotAttached));
    assert_eq!(check_ret(20), Err(ChannelError::Unsupported));
    assert_eq!(check_ret(7), Err(ChannelError::NativeStatus(7)));
    assert_eq!(ChannelError::NativeStatus(7).code(), Some(7));
    assert_eq!(ChannelError::Timeout.code(), Some(3));
    assert_eq!(ChannelError::NotAttached.code(), Some(52));
    assert_eq!(ChannelError::PayloadShape { expected: 10, found: 9 }.code(), None);
}

#[test]
fn reregister_keeps_one_live_context() {
    let mut native = MockNative::new();
    let mut ch = Channel::new();
    let a = native.allocate(Box::new(|_| {}));
    let plan = ch.register(EventKind::DataChange, a);
    assert_eq!(plan, vec![Action::SetHandler(EventKind::DataChange, a)]);
    native.run(plan);
    assert_eq!(native.closures.len(), 1);

    let plan = ch.unregister(EventKind::DataChange);
    assert_eq!(plan, vec![Action::ClearHandler(EventKind::DataChange), Action::Release(EventKind::DataChange, a)]);
    native.run(plan);
    assert_eq!(native.closures.len(), 0);
    assert_eq!(ch.handler(EventKind::DataChange), None);

    let b = native.allocate(Box::new(|_| {}));
    native.run(ch.register(EventKind::DataChange, b));
    assert_eq!(native.closures.len(), 1);
    assert_eq!(native.freed, vec![a]);
    assert_eq!(ch.handler(EventKind::DataChange), Some(b));
}

#[test]
fn register_over_live_handler_clears_then_frees_first() {
    let mut ch = Channel::new();
    ch.register(EventKind::Attach, 0x10);
    let plan = ch.register(EventKind::Attach, 0x20);
    assert_eq!(
        plan,
        vec![
            Action::ClearHandler(EventKind::Attach),
            Action::Release(EventKind::Attach, 0x10),
            Action::SetHandler(EventKind::Attach, 0x20),
        ]
    );
    assert_eq!(ch.handler(EventKind::Attach), Some(0x20));
    assert_eq!(ch.handler(EventKind::Detach), None);
}

#[test]
fn unregister_without_handler_is_noop() {
    let mut ch = Channel::new();
    assert_eq!(ch.unregister(EventKind::Detach), Vec::<Action>::new());
    assert_eq!(ch.state(), ChannelState::Unopened);
}

#[test]
fn rejected_registration_returns_context() {
    let mut ch = Channel::new();
    ch.register(EventKind::Detach, 0x40);
    let (res, back) = ch.confirm_register(EventKind::Detach, 50);
    assert_eq!(res, Err(ChannelError::NativeStatus(50)));
    assert_eq!(back, Some(0x40));
    assert_eq!(ch.handler(EventKind::Detach), None);

    ch.register(EventKind::Detach, 0x50);
    let (res, back) = ch.confirm_register(EventKind::Detach, STATUS_OK);
    assert_eq!(res, Ok(()));
    assert_eq!(back, None);
    assert_eq!(ch.handler(EventKind::Detach), Some(0x50));
}

#[test]
fn teardown_order_unopened_without_handlers() {
    let ch = Channel::new();
    assert_eq!(ch.teardown(), vec![Action::Delete]);
}

#[test]
fn teardown_order_unopened_with_handlers() {
    let mut ch = Channel::new();
    ch.register(EventKind::Detach, 0x20);
    assert_eq!(
        ch.teardown(),
        vec![Action::Delete, Action::Release(EventKind::Detach, 0x20)]
    );
}

#[test]
fn teardown_order_with_handlers() {
    let mut ch = Channel::new();
    ch.opened(STATUS_OK).unwrap();
    ch.register(EventKind::Detach, 0x20);
    ch.register(EventKind::DataChange, 0x30);
    ch.register(EventKind::Attach, 0x10);
    assert_eq!(
        ch.teardown(),
        vec![
            Action::Close,
            Action::Delete,
            Action::Release(EventKind::DataChange, 0x30),
            Action::Release(EventKind::Attach, 0x10),
            Action::Release(EventKind::Detach, 0x20),
        ]
    );
}

#[test]
fn teardown_after_close_does_not_close_again() {
    let mut ch = Channel::new();
    ch.opened(STATUS_OK).unwrap();
    assert_eq!(ch.close(), Some(Action::Close));
    ch.register(EventKind::DataChange, 0x30);
    assert_eq!(
        ch.teardown(),
        vec![Action::Delete, Action::Release(EventKind::DataChange, 0x30)]
    );
}

#[test]
fn payload_round_trip() {
    let octaves: Vec<f64> = (0..10).map(|i| i as f64 * 1.5).collect();
    let got = fixed_payload(&octaves, OCTAVE_BANDS).unwrap();
    assert_eq!(got, octaves);
    assert_eq!(
        fixed_payload(&octaves[..9], OCTAVE_BANDS),
        Err(ChannelError::PayloadShape { expected: 10, found: 9 })
    );
    assert_eq!(fixed_payload::<u8>(&[], 0), Ok(vec![]));
}

#[test]
fn handler_receives_injected_payload() {
    let mut native = MockNative::new();
    let mut ch = Channel::new();
    let seen = Rc::new(RefCell::new(Vec::new()));
    let log = seen.clone();
    let ctx = native.allocate(Box::new(move |v| log.borrow_mut().push(v)));
    native.run(ch.register(EventKind::DataChange, ctx));
    assert!(native.fire(EventKind::DataChange, 21.25));
    assert_eq!(*seen.borrow(), vec![21.25]);
    assert!(!native.fire(EventKind::Attach, 1.0));
}

#[test]
fn null_context_calls_nothing() {
    assert_eq!(event_target(0), None);
    assert_eq!(event_target(0x1234), Some(0x1234));
}

#[test]
fn close_twice_and_unopened_close() {
    let mut ch = Channel::new();
    assert_eq!(ch.close(), None);
    assert_eq!(ch.state(), ChannelState::Unopened);
    ch.opened(STATUS_OK).unwrap();
    assert_eq!(ch.close(), Some(Action::Close));
    assert_eq!(ch.state(), ChannelState::Closed);
    assert_eq!(ch.close(), None);
    assert_eq!(ch.state(), ChannelState::Closed);
}

#[test]
fn read_requires_attached_open_channel() {
    let mut ch = Channel::new();
    assert_eq!(ch.read_gate(true), Err(ChannelError::NotAttached));
    assert_eq!(ch.state(), ChannelState::Unopened);
    assert_eq!(ch.opened(STATUS_OK), Ok(()));
    assert_eq!(ch.state(), ChannelState::Opening);
    assert_eq!(ch.read_gate(false), Err(ChannelError::NotAttached));
    assert_eq!(ch.read_gate(true), Ok(()));
    ch.sync_attached(true);
    assert_eq!(ch.state(), ChannelState::Open);
    assert_eq!(ch.read_gate(false), Err(ChannelError::NotAttached));
    ch.sync_attached(false);
    assert_eq!(ch.state(), ChannelState::Opening);
    ch.sync_attached(true);
    ch.close();
    assert_eq!(ch.read_gate(true), Err(ChannelError::NotAttached));
    assert_eq!(ch.state(), ChannelState::Closed);
}

#[test]
fn failed_open_keeps_state() {
    let mut ch = Channel::new();
    assert_eq!(ch.opened(13), Err(ChannelError::NativeStatus(13)));
    assert_eq!(ch.state(), ChannelState::Unopened);
}

#[test]
fn open_timeout_fails_with_timeout() {
    let mut ch = Channel::new();
    assert_eq!(ch.opened(STATUS_TIMEOUT), Err(ChannelError::Timeout));
    assert_eq!(ch.state(), ChannelState::Unopened);
    assert_eq!(ch.read_gate(false), Err(ChannelError::NotAttached));
    assert_eq!(ch.teardown(), vec![Action::Delete]);
}

#[test]
fn data_log_then_drop() {
    let mut native = MockNative::new();
    let mut ch = Channel::new();
    let log = Rc::new(RefCell::new(Vec::new()));
    let sink = log.clone();
    let ctx = native.allocate(Box::new(move |v| sink.borrow_mut().push(v)));
    native.run(ch.register(EventKind::DataChange, ctx));
    native.run(ch.opened(STATUS_OK).map(|_| Vec::new()).unwrap());
    for v in [10.0, 12.5, 9.8] {
        assert!(native.fire(EventKind::DataChange, v));
    }
    assert_eq!(*log.borrow(), vec![10.0, 12.5, 9.8]);

    native.run(ch.teardown());
    let deletes = native.calls.iter().filter(|a| **a == Action::Delete).count();
    assert_eq!(deletes, 1);
    assert_eq!(native.freed, vec![ctx]);
    assert!(!native.fire(EventKind::DataChange, 1.0));
    assert_eq!(log.borrow().len(), 3);
}
