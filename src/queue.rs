//! The instruction queue of a turn: its steps, the order of a turn's
//! script, and what one tick may do to the queue.


use std::collections::VecDeque;
use vstd::prelude::*;

verus! {

/// Takes the front element off a non-empty queue.
pub fn take_front<T>(q: &mut VecDeque<T>) -> (r: T)
    requires
        old(q)@.len() > 0,
    ensures
        r == old(q)@[0],
        final(q)@ == old(q)@.drop_first(),
{
    q.pop_front().unwrap()
}

/// Puts `x` in place of the front element of a non-empty queue.
pub fn replace_front<T>(q: &mut VecDeque<T>, x: T)
    requires
        old(q)@.len() > 0,
    ensures
        final(q)@ == old(q)@.update(0, x),
{
    let _ = take_front(q);
    q.push_front(x);
    assert(q@ =~= old(q)@.update(0, x));
}

/// One step of a turn.
#[derive(Clone, Copy, Debug, PartialEq, Eq, Structural)]
pub enum Instruction {
    /// Wait this many more milliseconds.
    Wait(u64),
    /// Exchange the chest at this coordinate with the front one.
    SwapWithFirst(i32, i32),
    MoveCameraToFirstChest,
    MoveCameraToRest,
    PresentItem,
    HideItem,
    ResolveRequest,
    ResolveStatusEffects,
    EndOfTurn,
}

/// The order of the steps of a turn; `-1` for a wait.
pub open spec fn stage(i: Instruction) -> int {
    match i {
        Instruction::Wait(_) => -1,
        Instruction::SwapWithFirst(_, _) => 0,
        Instruction::MoveCameraToFirstChest => 1,
        Instruction::PresentItem => 2,
        Instruction::ResolveRequest => 3,
        Instruction::HideItem => 4,
        Instruction::MoveCameraToRest => 5,
        Instruction::ResolveStatusEffects => 6,
        Instruction::EndOfTurn => 7,
    }
}

/// The full script of a turn in which the player picked the chest at `pos`.
pub open spec fn script(pos: (i32, i32)) -> Seq<Instruction> {
    seq![
        Instruction::SwapWithFirst(pos.0, pos.1),
        Instruction::MoveCameraToFirstChest,
        Instruction::PresentItem,
        Instruction::ResolveRequest,
        Instruction::HideItem,
        Instruction::MoveCameraToRest,
        Instruction::ResolveStatusEffects,
        Instruction::EndOfTurn,
    ]
}

/// The instructions of a queue that are not waits, in queue order.
pub open spec fn pending(q: Seq<Instruction>) -> Seq<Instruction>
    decreases q.len(),
{
    if q.len() == 0 {
        Seq::empty()
    } else if q[0] is Wait {
        pending(q.drop_first())
    } else {
        seq![q[0]] + pending(q.drop_first())
    }
}

/// What one tick may do to the queue: nothing if it is empty; else it
/// drops the front instruction or puts a wait in its place, and the rest
/// of the queue stays as it was. A front instruction other than a wait is
/// always consumed.
pub open spec fn advanced(q0: Seq<Instruction>, q1: Seq<Instruction>) -> bool {
    if q0.len() == 0 {
        q1 == q0
    } else {
        ||| q1 == q0.drop_first()
        ||| (q1.len() == q0.len() && q1[0] is Wait && forall|i: int|
            1 <= i < q0.len() ==> #[trigger] q1[i] == q0[i])
    }
}

/// One tick's change to the queue: a non-wait front instruction leaves the
/// pending steps, a wait leaves them as they were.
pub proof fn lemma_pending_advanced(q0: Seq<Instruction>, q1: Seq<Instruction>)
    requires
        q0.len() > 0,
        advanced(q0, q1),
    ensures
        !(q0[0] is Wait) ==> pending(q0).len() > 0 && pending(q0)[0] == q0[0],
        q0[0] is Wait ==> pending(q1) == pending(q0),
        !(q0[0] is Wait) ==> pending(q1) == pending(q0).drop_first(),
{
    assert(pending(q0) == if q0[0] is Wait {
        pending(q0.drop_first())
    } else {
        seq![q0[0]] + pending(q0.drop_first())
    });
    if q1 != q0.drop_first() {
        assert(q1.len() > 0);
        assert(q1.drop_first() =~= q0.drop_first());
        assert(pending(q1) == pending(q1.drop_first()));
    }
    if !(q0[0] is Wait) {
        assert((seq![q0[0]] + pending(q0.drop_first())).drop_first() =~= pending(q0.drop_first()));
    }
}

/// A queue without waits is pending as a whole.
pub proof fn lemma_pending_no_waits(q: Seq<Instruction>)
    requires
        forall|i: int| 0 <= i < q.len() ==> !(#[trigger] q[i] is Wait),
    ensures
        pending(q) == q,
    decreases q.len(),
{
    if q.len() > 0 {
        lemma_pending_no_waits(q.drop_first());
        assert(seq![q[0]] + q.drop_first() =~= q);
    }
}

/// The instructions that a run of ticks carried out, in order: the front
/// of each queue but the last whose front was not a wait.
pub open spec fn carried_out(qs: Seq<Seq<Instruction>>) -> Seq<Instruction>
    decreases qs.len(),
{
    if qs.len() <= 1 {
        Seq::empty()
    } else {
        (if qs[0].len() > 0 && !(qs[0][0] is Wait) {
            seq![qs[0][0]]
        } else {
            Seq::empty()
        }) + carried_out(qs.drop_first())
    }
}

/// Whether `qs` are the queues of a run of ticks, each from the one before.
pub open spec fn is_run(qs: Seq<Seq<Instruction>>) -> bool {
    &&& qs.len() > 0
    &&& forall|i: int| 0 <= i < qs.len() - 1 ==> advanced(#[trigger] qs[i], qs[i + 1])
}

/// Ticks carry out the pending steps in queue order, whatever time each
/// tick reports: over any run of ticks, the steps carried out, followed by
/// those still pending, are the steps pending at the start.
pub proof fn lemma_turn_order(qs: Seq<Seq<Instruction>>)
    requires
        is_run(qs),
    ensures
        carried_out(qs) + pending(qs.last()) == pending(qs[0]),
    decreases qs.len(),
{
    if qs.len() > 1 {
        let rest = qs.drop_first();
        assert forall|i: int| 0 <= i < rest.len() - 1 implies advanced(#[trigger] rest[i], rest[i + 1]) by {
            assert(advanced(qs[i + 1], qs[i + 2]));
        }
        lemma_turn_order(rest);
        assert(advanced(qs[0], qs[1]));
        if qs[0].len() > 0 {
            lemma_pending_advanced(qs[0], qs[1]);
            if !(qs[0][0] is Wait) {
                let p0 = pending(qs[0]);
                assert(seq![p0[0]] + p0.drop_first() =~= p0);
                assert(seq![qs[0][0]] + carried_out(rest) + pending(qs.last()) =~= seq![qs[0][0]]
                    + (carried_out(rest) + pending(rest.last())));
            } else {
                assert(Seq::<Instruction>::empty() + carried_out(rest) =~= carried_out(rest));
            }
        } else {
            assert(Seq::<Instruction>::empty() + carried_out(rest) =~= carried_out(rest));
        }
    }
}

/// A turn that runs from its script to an empty queue carries out the
/// script's steps exactly in the script's order, whatever time each tick
/// reports.
pub proof fn lemma_script_order(pos: (i32, i32), qs: Seq<Seq<Instruction>>)
    requires
        is_run(qs),
        qs[0] == script(pos),
        qs.last().len() == 0,
    ensures
        carried_out(qs) == script(pos),
{
    lemma_turn_order(qs);
    lemma_pending_no_waits(script(pos));
    assert(pending(qs.last()) == Seq::<Instruction>::empty());
    assert(carried_out(qs) + Seq::<Instruction>::empty() =~= carried_out(qs));
}

} // verus!
