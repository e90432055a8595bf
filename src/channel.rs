//! The owning side of one native channel: its lifecycle state and its
//! callback-context slots, and the native actions each operation needs.
use vstd::prelude::*;

use crate::error::{check_ret, status_error, ChannelError, STATUS_OK};

verus! {

/// The events for which a closure can be registered.
#[derive(Debug, Clone, Copy, PartialEq, Eq, Structural)]
pub enum EventKind {
    Attach,
    Detach,
    DataChange,
}

/// Lifecycle of a channel as seen from the owning side.
#[derive(Debug, Clone, Copy, PartialEq, Eq, Structural)]
pub enum ChannelState {
    /// Created; `open` was never issued.
    Unopened,
    /// `open` was issued; no device is attached yet.
    Opening,
    /// Open with a device attached: values can be read.
    Open,
    /// Closed after having been opened.
    Closed,
}

/// A call into the native layer, or the release of a callback context.
///
/// A context is the address of a boxed closure; `0` stands for null.
#[derive(Debug, Clone, Copy, PartialEq, Eq, Structural)]
pub enum Action {
    Close,
    Delete,
    /// Install the trampoline of the event with this context.
    SetHandler(EventKind, usize),
    /// Install a null callback and a null context for the event.
    ClearHandler(EventKind),
    /// Free the boxed closure of the event's type at this address.
    Release(EventKind, usize),
}

/// The actions that registering `ctx` for `k` takes when the slot held `prev`.
pub open spec fn register_plan(prev: Option<usize>, k: EventKind, ctx: usize) -> Seq<Action> {
    match prev {
        Some(p) => seq![Action::ClearHandler(k), Action::Release(k, p), Action::SetHandler(k, ctx)],
        None => seq![Action::SetHandler(k, ctx)],
    }
}

/// The actions that removing the handler of `k` takes when the slot held `prev`.
pub open spec fn unregister_plan(prev: Option<usize>, k: EventKind) -> Seq<Action> {
    match prev {
        Some(p) => seq![Action::ClearHandler(k), Action::Release(k, p)],
        None => seq![],
    }
}

/// The release of a context, if there is one.
pub open spec fn release_of(k: EventKind, slot: Option<usize>) -> Seq<Action> {
    match slot {
        Some(p) => seq![Action::Release(k, p)],
        None => seq![],
    }
}

/// The native call `a`, if there is one, as a plan.
pub open spec fn optional_action(a: Option<Action>) -> Seq<Action> {
    match a {
        Some(x) => seq![x],
        None => seq![],
    }
}

/// The actions of teardown from state `s`: close if still open, delete the
/// handle, then free every context (data change, attach, detach).
pub open spec fn teardown_plan(
    s: ChannelState,
    attach: Option<usize>,
    detach: Option<usize>,
    data: Option<usize>,
) -> Seq<Action> {
    optional_action(close_action(s)) + seq![Action::Delete] + release_of(EventKind::DataChange, data)
        + release_of(EventKind::Attach, attach) + release_of(EventKind::Detach, detach)
}

/// What the state becomes once `attached` has been observed.
pub open spec fn attach_transition(s: ChannelState, attached: bool) -> ChannelState {
    match s {
        ChannelState::Opening => if attached { ChannelState::Open } else { ChannelState::Opening },
        ChannelState::Open => if attached { ChannelState::Open } else { ChannelState::Opening },
        _ => s,
    }
}

/// The state after a successful native `open` from state `s`.
pub open spec fn opened_state(s: ChannelState) -> ChannelState {
    if s == ChannelState::Open {
        ChannelState::Open
    } else {
        ChannelState::Opening
    }
}

/// The state after `close` from state `s`.
pub open spec fn closed_state(s: ChannelState) -> ChannelState {
    if is_open_state(s) {
        ChannelState::Closed
    } else {
        s
    }
}

/// The native call that `close` makes from state `s`.
pub open spec fn close_action(s: ChannelState) -> Option<Action> {
    if is_open_state(s) {
        Some(Action::Close)
    } else {
        None
    }
}

/// What reading a domain value in state `s` gives before the native read.
pub open spec fn read_result(s: ChannelState) -> Result<(), ChannelError> {
    if s == ChannelState::Open {
        Ok(())
    } else {
        Err(ChannelError::NotAttached)
    }
}

/// Whether the native channel is open (attached or not).
pub open spec fn is_open_state(s: ChannelState) -> bool {
    s == ChannelState::Opening || s == ChannelState::Open
}

/// One native channel, owned: its state and one context slot per event.
pub struct Channel {
    state: ChannelState,
    attach: Option<usize>,
    detach: Option<usize>,
    data: Option<usize>,
}

impl Channel {
    /// The lifecycle state.
    pub closed spec fn state_of(&self) -> ChannelState {
        self.state
    }

    /// The context registered for `k`, if any.
    pub closed spec fn slot(&self, k: EventKind) -> Option<usize> {
        match k {
            EventKind::Attach => self.attach,
            EventKind::Detach => self.detach,
            EventKind::DataChange => self.data,
        }
    }

    /// The actions that dropping this channel takes.
    pub open spec fn teardown_actions(&self) -> Seq<Action> {
        teardown_plan(
            self.state_of(),
            self.slot(EventKind::Attach),
            self.slot(EventKind::Detach),
            self.slot(EventKind::DataChange),
        )
    }

    /// A channel whose native handle was just created.
    pub fn new() -> (r: Channel)
        ensures
            r.state_of() == ChannelState::Unopened,
            forall|k: EventKind| r.slot(k) is None,
    {
        Channel { state: ChannelState::Unopened, attach: None, detach: None, data: None }
    }

    /// The lifecycle state.
    pub fn state(&self) -> (r: ChannelState)
        ensures
            r == self.state_of(),
    {
        self.state
    }

    /// The context registered for `k`, if any.
    pub fn handler(&self, k: EventKind) -> (r: Option<usize>)
        ensures
            r == self.slot(k),
    {
        match k {
            EventKind::Attach => self.attach,
            EventKind::Detach => self.detach,
            EventKind::DataChange => self.data,
        }
    }

    /// Empties the slot of `k` and hands back what it held.
    ///
    /// This is the one place a context leaves the channel; the caller frees
    /// it only after the native layer has dropped its reference.
    pub fn take_handler(&mut self, k: EventKind) -> (r: Option<usize>)
        ensures
            r == old(self).slot(k),
            final(self).slot(k) is None,
            forall|j: EventKind| j != k ==> final(self).slot(j) == old(self).slot(j),
            final(self).state_of() == old(self).state_of(),
    {
        match k {
            EventKind::Attach => self.attach.take(),
            EventKind::Detach => self.detach.take(),
            EventKind::DataChange => self.data.take(),
        }
    }

    fn put_handler(&mut self, k: EventKind, ctx: usize)
        ensures
            final(self).slot(k) == Some(ctx),
            forall|j: EventKind| j != k ==> final(self).slot(j) == old(self).slot(j),
            final(self).state_of() == old(self).state_of(),
    {
        match k {
            EventKind::Attach => self.attach = Some(ctx),
            EventKind::Detach => self.detach = Some(ctx),
            EventKind::DataChange => self.data = Some(ctx),
        }
    }

    /// Registers the context `ctx` for `k`.
    ///
    /// A previous registration is first removed natively and its context
    /// freed; then the trampoline is installed with `ctx`.
    pub fn register(&mut self, k: EventKind, ctx: usize) -> (plan: Vec<Action>)
        ensures
            plan@ == register_plan(old(self).slot(k), k, ctx),
            final(self).slot(k) == Some(ctx),
            forall|j: EventKind| j != k ==> final(self).slot(j) == old(self).slot(j),
            final(self).state_of() == old(self).state_of(),
    {
        let mut plan: Vec<Action> = Vec::new();
        let prev = self.take_handler(k);
        match prev {
            Some(p) => {
                plan.push(Action::ClearHandler(k));
                plan.push(Action::Release(k, p));
            },
            None => {},
        }
        plan.push(Action::SetHandler(k, ctx));
        self.put_handler(k, ctx);
        proof {
            assert(plan@ =~= register_plan(old(self).slot(k), k, ctx));
        }
        plan
    }

    /// Settles a registration of `k` once the native layer answered `status`.
    ///
    /// If the native layer refused it, the context goes back to the caller
    /// (to be freed) and the slot is empty.
    pub fn confirm_register(&mut self, k: EventKind, status: u32) -> (r: (Result<(), ChannelError>, Option<usize>))
        ensures
            status == STATUS_OK ==> r.0 is Ok && r.1 is None && *final(self) == *old(self),
            status != STATUS_OK ==> {
                &&& r.0 == Err::<(), ChannelError>(status_error(status))
                &&& r.1 == old(self).slot(k)
                &&& final(self).slot(k) is None
            },
            forall|j: EventKind| j != k ==> final(self).slot(j) == old(self).slot(j),
            final(self).state_of() == old(self).state_of(),
    {
        let res = check_ret(status);
        match res {
            Ok(()) => (res, None),
            Err(_) => {
                let ctx = self.take_handler(k);
                (res, ctx)
            },
        }
    }

    /// Removes the handler of `k`: null callback first, then the context is freed.
    ///
    /// With no handler registered nothing is done.
    pub fn unregister(&mut self, k: EventKind) -> (plan: Vec<Action>)
        ensures
            plan@ == unregister_plan(old(self).slot(k), k),
            final(self).slot(k) is None,
            forall|j: EventKind| j != k ==> final(self).slot(j) == old(self).slot(j),
            final(self).state_of() == old(self).state_of(),
    {
        let mut plan: Vec<Action> = Vec::new();
        let prev = self.take_handler(k);
        match prev {
            Some(p) => {
                plan.push(Action::ClearHandler(k));
                plan.push(Action::Release(k, p));
            },
            None => {},
        }
        proof {
            assert(plan@ =~= unregister_plan(old(self).slot(k), k));
        }
        plan
    }

    /// Records the answer `status` of the native `open`.
    pub fn opened(&mut self, status: u32) -> (r: Result<(), ChannelError>)
        ensures
            status == STATUS_OK <==> r is Ok,
            status != STATUS_OK ==> r == Err::<(), ChannelError>(status_error(status))
                && final(self).state_of() == old(self).state_of(),
            status == STATUS_OK ==> final(self).state_of() == opened_state(old(self).state_of()),
            forall|k: EventKind| final(self).slot(k) == old(self).slot(k),
    {
        let r = check_ret(status);
        if r.is_ok() {
            match self.state {
                ChannelState::Open => {},
                _ => self.state = ChannelState::Opening,
            }
        }
        r
    }

    /// Records whether the native layer reports a device attached.
    pub fn sync_attached(&mut self, attached: bool)
        ensures
            final(self).state_of() == attach_transition(old(self).state_of(), attached),
            forall|k: EventKind| final(self).slot(k) == old(self).slot(k),
    {
        match self.state {
            ChannelState::Opening | ChannelState::Open => {
                self.state = if attached { ChannelState::Open } else { ChannelState::Opening };
            },
            _ => {},
        }
    }

    /// Closes the channel if it is open; otherwise does nothing.
    ///
    /// Either way closing succeeds: the result is the native call to make, if any.
    pub fn close(&mut self) -> (r: Option<Action>)
        ensures
            r == close_action(old(self).state_of()),
            final(self).state_of() == closed_state(old(self).state_of()),
            !is_open_state(old(self).state_of()) ==> *final(self) == *old(self),
            forall|k: EventKind| final(self).slot(k) == old(self).slot(k),
    {
        match self.state {
            ChannelState::Opening | ChannelState::Open => {
                self.state = ChannelState::Closed;
                Some(Action::Close)
            },
            _ => None,
        }
    }

    /// Whether a domain value may be read now, the native layer reporting
    /// `attached`: only an opened, not closed, channel with a device attached.
    pub fn read_gate(&self, attached: bool) -> (r: Result<(), ChannelError>)
        ensures
            r == read_result(attach_transition(self.state_of(), attached)),
    {
        match self.state {
            ChannelState::Opening | ChannelState::Open => if attached {
                Ok(())
            } else {
                Err(ChannelError::NotAttached)
            },
            _ => Err(ChannelError::NotAttached),
        }
    }

    /// Tears the channel down: close if still open, delete the native
    /// handle, then free every registered context, in that order.
    pub fn teardown(self) -> (plan: Vec<Action>)
        ensures
            plan@ == self.teardown_actions(),
    {
        let mut plan: Vec<Action> = Vec::new();
        match self.state {
            ChannelState::Opening | ChannelState::Open => plan.push(Action::Close),
            _ => {},
        }
        plan.push(Action::Delete);
        match self.data {
            Some(p) => plan.push(Action::Release(EventKind::DataChange, p)),
            None => {},
        }
        match self.attach {
            Some(p) => plan.push(Action::Release(EventKind::Attach, p)),
            None => {},
        }
        match self.detach {
            Some(p) => plan.push(Action::Release(EventKind::Detach, p)),
            None => {},
        }
        proof {
            assert(plan@ =~= self.teardown_actions());
        }
        plan
    }
}

} // verus!
