//! Properties that relate several operations of a channel.
use vstd::prelude::*;

use crate::channel::{
    attach_transition, close_action, closed_state, is_open_state, opened_state, optional_action,
    read_result, register_plan, release_of, teardown_plan, unregister_plan, Action, Channel,
    ChannelState, EventKind,
};
use crate::error::{status_error, ChannelError, STATUS_TIMEOUT};
use crate::payload::target_of;

verus! {

/// The contexts a sequence of actions frees, in order.
pub open spec fn released(plan: Seq<Action>) -> Seq<usize>
    decreases plan.len(),
{
    if plan.len() == 0 {
        seq![]
    } else {
        let rest = released(plan.drop_last());
        match plan.last() {
            Action::Release(_, p) => rest.push(p),
            _ => rest,
        }
    }
}

/// The contexts a slot holding `slot` frees on release.
pub open spec fn slot_contents(slot: Option<usize>) -> Seq<usize> {
    match slot {
        Some(p) => seq![p],
        None => seq![],
    }
}

/// Freeing is additive over consecutive plans.
pub proof fn lemma_released_concat(a: Seq<Action>, b: Seq<Action>)
    ensures
        released(a + b) == released(a) + released(b),
    decreases b.len(),
{
    if b.len() == 0 {
        assert(a + b =~= a);
        assert(released(b) =~= seq![]);
        assert(released(a) + released(b) =~= released(a));
    } else {
        let b0 = b.drop_last();
        lemma_released_concat(a, b0);
        assert((a + b).drop_last() =~= a + b0);
        assert((a + b).last() == b.last());
        match b.last() {
            Action::Release(_, p) => {
                assert(released(a) + released(b0).push(p) =~= (released(a) + released(b0)).push(p));
            },
            _ => {},
        }
    }
}

proof fn lemma_released_single(x: Action)
    ensures
        released(seq![x]) == (match x {
            Action::Release(_, p) => seq![p],
            _ => Seq::<usize>::empty(),
        }),
{
    assert(seq![x].drop_last() =~= Seq::<Action>::empty());
    assert(released(Seq::<Action>::empty()) =~= Seq::<usize>::empty());
    match x {
        Action::Release(_, p) => {
            assert(Seq::<usize>::empty().push(p) =~= seq![p]);
        },
        _ => {},
    }
}

/// Registering frees exactly the context it displaces, if any; with the
/// new context installed in its place, a slot's live context stays what
/// the slot holds.
pub proof fn lemma_released_register(prev: Option<usize>, k: EventKind, ctx: usize)
    ensures
        released(register_plan(prev, k, ctx)) == slot_contents(prev),
{
    match prev {
        Some(p) => {
            let s = register_plan(prev, k, ctx);
            assert(s =~= seq![Action::ClearHandler(k)] + seq![Action::Release(k, p)] + seq![Action::SetHandler(k, ctx)]);
            lemma_released_concat(seq![Action::ClearHandler(k)] + seq![Action::Release(k, p)], seq![Action::SetHandler(k, ctx)]);
            lemma_released_concat(seq![Action::ClearHandler(k)], seq![Action::Release(k, p)]);
            lemma_released_single(Action::ClearHandler(k));
            lemma_released_single(Action::Release(k, p));
            lemma_released_single(Action::SetHandler(k, ctx));
            assert(Seq::<usize>::empty() + seq![p] + Seq::<usize>::empty() =~= seq![p]);
        },
        None => {
            lemma_released_single(Action::SetHandler(k, ctx));
        },
    }
}

/// Removing a handler frees exactly the context the slot held, if any.
pub proof fn lemma_released_unregister(prev: Option<usize>, k: EventKind)
    ensures
        released(unregister_plan(prev, k)) == slot_contents(prev),
{
    match prev {
        Some(p) => {
            let s = unregister_plan(prev, k);
            assert(s =~= seq![Action::ClearHandler(k)] + seq![Action::Release(k, p)]);
            lemma_released_concat(seq![Action::ClearHandler(k)], seq![Action::Release(k, p)]);
            lemma_released_single(Action::ClearHandler(k));
            lemma_released_single(Action::Release(k, p));
            assert(Seq::<usize>::empty() + seq![p] =~= seq![p]);
        },
        None => {
            assert(released(Seq::<Action>::empty()) =~= Seq::<usize>::empty());
        },
    }
}

/// Registering `a`, removing it, then registering `b` on a slot that held
/// `prev` frees exactly what was displaced (`prev`, then `a`), each once,
/// never frees `b`, and leaves `b` as the one installed handler.
pub proof fn lemma_reregister_frees_once(prev: Option<usize>, k: EventKind, a: usize, b: usize)
    requires
        prev != Some(a),
        prev != Some(b),
        a != b,
    ensures
        ({
            let plan = register_plan(prev, k, a) + unregister_plan(Some(a), k) + register_plan(None, k, b);
            &&& released(plan) == slot_contents(prev).push(a)
            &&& released(plan).no_duplicates()
            &&& !released(plan).contains(b)
            &&& plan.last() == Action::SetHandler(k, b)
        }),
{
    let p1 = register_plan(prev, k, a);
    let p2 = unregister_plan(Some(a), k);
    let p3 = register_plan(None, k, b);
    lemma_released_concat(p1 + p2, p3);
    lemma_released_concat(p1, p2);
    lemma_released_register(prev, k, a);
    lemma_released_unregister(Some(a), k);
    lemma_released_register(None, k, b);
    let r = released(p1 + p2 + p3);
    assert(r =~= slot_contents(prev).push(a));
    match prev {
        Some(p) => {
            assert(r =~= seq![p, a]);
            assert(!r.contains(b)) by {
                if r.contains(b) {
                    let i = choose|i: int| 0 <= i < r.len() && r[i] == b;
                    assert(i == 0 || i == 1);
                }
            }
        },
        None => {
            assert(r =~= seq![a]);
            assert(!r.contains(b)) by {
                if r.contains(b) {
                    let i = choose|i: int| 0 <= i < r.len() && r[i] == b;
                    assert(i == 0);
                }
            }
        },
    }
}

/// Teardown closes only a channel that is still open, and then first;
/// deletes the handle next and exactly once; and after that only frees
/// contexts: every registered one, each once, data change first, then
/// attach, then detach.
pub proof fn lemma_teardown_order(c: Channel)
    ensures
        ({
            let plan = c.teardown_actions();
            let n: int = if is_open_state(c.state_of()) { 1 } else { 0 };
            &&& plan.len() >= n + 1
            &&& is_open_state(c.state_of()) ==> plan[0] == Action::Close
            &&& forall|i: int| 0 <= i < plan.len() && plan[i] == Action::Close ==> i == 0 && n == 1
            &&& plan[n] == Action::Delete
            &&& forall|i: int| 0 <= i < plan.len() && i != n ==> plan[i] != Action::Delete
            &&& forall|i: int| n < i < plan.len() ==> plan[i] is Release
            &&& released(plan) == slot_contents(c.slot(EventKind::DataChange))
                + slot_contents(c.slot(EventKind::Attach))
                + slot_contents(c.slot(EventKind::Detach))
        }),
{
    let st = c.state_of();
    let at = c.slot(EventKind::Attach);
    let de = c.slot(EventKind::Detach);
    let da = c.slot(EventKind::DataChange);
    let head = optional_action(close_action(st)) + seq![Action::Delete];
    let r1 = release_of(EventKind::DataChange, da);
    let r2 = release_of(EventKind::Attach, at);
    let r3 = release_of(EventKind::Detach, de);
    let tail = r1 + r2 + r3;
    let plan = c.teardown_actions();
    assert(plan == teardown_plan(st, at, de, da));
    assert(plan =~= head + tail);
    assert forall|k: EventKind, o: Option<usize>| released(#[trigger] release_of(k, o)) == slot_contents(o) by {
        match o {
            Some(p) => lemma_released_single(Action::Release(k, p)),
            None => assert(released(Seq::<Action>::empty()) =~= Seq::<usize>::empty()),
        }
    }
    assert forall|k: EventKind, o: Option<usize>, i: int| 0 <= i < release_of(k, o).len() implies (#[trigger] release_of(k, o)[i]) is Release by {
    }
    assert forall|i: int| 0 <= i < tail.len() implies tail[i] is Release by {
        if i < r1.len() {
            assert(tail[i] == r1[i]);
        } else if i < r1.len() + r2.len() {
            assert(tail[i] == r2[i - r1.len()]);
        } else {
            assert(tail[i] == r3[i - r1.len() - r2.len()]);
        }
    }
    if is_open_state(st) {
        assert(head =~= seq![Action::Close] + seq![Action::Delete]);
        lemma_released_concat(seq![Action::Close], seq![Action::Delete]);
        lemma_released_single(Action::Close);
    } else {
        assert(head =~= seq![Action::Delete]);
    }
    lemma_released_single(Action::Delete);
    assert(released(head) =~= Seq::<usize>::empty());
    lemma_released_concat(head, tail);
    lemma_released_concat(r1 + r2, r3);
    lemma_released_concat(r1, r2);
    assert(released(plan) =~= slot_contents(da) + slot_contents(at) + slot_contents(de));
    assert forall|i: int| 0 <= i < plan.len() && i >= head.len() implies plan[i] == tail[i - head.len()] by {
    }
}

/// Closing twice, or closing a channel that was never opened, makes no
/// native call the second (resp. only) time and changes nothing.
pub proof fn lemma_close_idempotent(s: ChannelState)
    ensures
        closed_state(closed_state(s)) == closed_state(s),
        close_action(closed_state(s)) is None,
        close_action(ChannelState::Unopened) is None,
        closed_state(ChannelState::Unopened) == ChannelState::Unopened,
{
}

/// Reading fails with `NotAttached` before opening and after closing,
/// whatever the native layer reports, and succeeds once an open channel
/// sees its device attached.
pub proof fn lemma_read_needs_attach(s: ChannelState, attached: bool)
    ensures
        read_result(attach_transition(ChannelState::Unopened, attached))
            == Err::<(), ChannelError>(ChannelError::NotAttached),
        read_result(attach_transition(closed_state(s), attached))
            == Err::<(), ChannelError>(ChannelError::NotAttached),
        read_result(attach_transition(opened_state(s), false)) is Err,
        read_result(attach_transition(opened_state(s), true)) is Ok,
{
}

/// An open-with-timeout that the native layer ends by its deadline fails
/// with `Timeout`, not with a generic status, and leaves a channel that was
/// never opened unreadable.
pub proof fn lemma_open_timeout_fails(attached: bool)
    ensures
        status_error(STATUS_TIMEOUT) == ChannelError::Timeout,
        read_result(attach_transition(ChannelState::Unopened, attached)) is Err,
{
}

/// A handler registered with a non-null context is what the trampoline
/// calls: the installed context designates exactly that closure.
pub proof fn lemma_registered_handler_reached(prev: Option<usize>, k: EventKind, ctx: usize)
    requires
        ctx != 0,
    ensures
        register_plan(prev, k, ctx).last() == Action::SetHandler(k, ctx),
        target_of(ctx) == Some(ctx),
{
}

} // verus!
