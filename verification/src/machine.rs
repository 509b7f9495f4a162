//! The run's state machine: the states a run passes through, the events that
//! move it, and the proofs that the success path and the fault path are the
//! only paths.

use vstd::prelude::*;

verus! {

/// Where a run stands.
///
/// `Terminated` is the only successful terminal state; it is what the parent
/// observes as exit status 0. `Trapped` is the fault path's terminal state:
/// the process hangs there until externally killed.
#[derive(Clone, Copy, Debug, PartialEq, Eq, Structural)]
pub enum State {
    Started,
    MessageWritten,
    Terminated,
    Trapped,
}

/// What can happen to a run: one of the two syscalls is issued, or a
/// contract/logic fault surfaces.
#[derive(Clone, Copy, Debug, PartialEq, Eq, Structural)]
pub enum Event {
    WriteIssued,
    ExitIssued,
    Fault,
}

/// The transition relation, total over states and events.
///
/// The success path is `Started` to `MessageWritten` on the write call, then
/// `MessageWritten` to `Terminated` on the exit call. A fault before
/// termination traps the run, and a syscall out of order is itself a contract
/// fault: control reached code it should not have. The two terminal states
/// absorb every event — the process is gone, or hangs forever.
pub open spec fn next_state(s: State, e: Event) -> State {
    match (s, e) {
        (State::Started, Event::WriteIssued) => State::MessageWritten,
        (State::MessageWritten, Event::ExitIssued) => State::Terminated,
        (State::Terminated, _) => State::Terminated,
        (State::Trapped, _) => State::Trapped,
        (_, _) => State::Trapped,
    }
}

/// Advances a run by one event, exactly as `next_state` says.
pub fn step(s: State, e: Event) -> (t: State)
    ensures
        t == next_state(s, e),
{
    match (s, e) {
        (State::Started, Event::WriteIssued) => State::MessageWritten,
        (State::MessageWritten, Event::ExitIssued) => State::Terminated,
        (State::Terminated, _) => State::Terminated,
        (State::Trapped, _) => State::Trapped,
        (_, _) => State::Trapped,
    }
}

/// The fault handler: a contract violation before termination leaves the
/// normal path for the trapped state. The real handler loops forever rather
/// than unwinding, allocating or printing — no runtime exists to support
/// those — so the trapped state is where the run stays.
pub fn panic(s: State) -> (t: State)
    ensures
        t == next_state(s, Event::Fault),
        s is Started || s is MessageWritten ==> t is Trapped,
{
    step(s, Event::Fault)
}

/// Runs the machine from `s` through a sequence of events, first to last.
pub open spec fn run(s: State, es: Seq<Event>) -> State
    decreases es.len(),
{
    if es.len() == 0 {
        s
    } else {
        run(next_state(s, es[0]), es.drop_first())
    }
}

/// A fault in any state before termination traps the run.
pub proof fn lemma_fault_traps(s: State)
    requires
        s is Started || s is MessageWritten,
    ensures
        next_state(s, Event::Fault) is Trapped,
{
}

/// The trapped state is terminal: no event leads out of it, so the fault
/// path never exits except by external termination.
pub proof fn lemma_trapped_is_terminal(e: Event)
    ensures
        next_state(State::Trapped, e) is Trapped,
{
}

/// Once trapped, a run stays trapped whatever happens next: no sequence of
/// later events reaches any other state, so the fault path never terminates
/// and the process hangs until externally killed.
pub proof fn lemma_trapped_never_terminates(es: Seq<Event>)
    ensures
        run(State::Trapped, es) is Trapped,
    decreases es.len(),
{
    if es.len() > 0 {
        lemma_trapped_never_terminates(es.drop_first());
    }
}

/// The terminated state is terminal: a run that has exited makes no further
/// transition.
pub proof fn lemma_terminated_is_terminal(e: Event)
    ensures
        next_state(State::Terminated, e) is Terminated,
{
}

/// The fault path hangs rather than exits: a run that writes the message and
/// then faults — the entry point returning instead of invoking exit — is
/// trapped for good, whatever events follow, and never reaches `Terminated`.
pub proof fn lemma_return_instead_of_exit_hangs(es: Seq<Event>)
    ensures
        run(State::Started, seq![Event::WriteIssued, Event::Fault] + es) is Trapped,
{
    let all = seq![Event::WriteIssued, Event::Fault] + es;
    assert(all[0] == Event::WriteIssued);
    assert(all.drop_first()[0] == Event::Fault);
    assert(all.drop_first().drop_first() =~= es);
    assert(run(State::Started, all) == run(State::MessageWritten, all.drop_first()));
    assert(run(State::MessageWritten, all.drop_first()) == run(
        State::Trapped,
        all.drop_first().drop_first(),
    ));
    lemma_trapped_never_terminates(es);
}

/// Termination is reached only through the exit call, and only after the
/// message was written: no other state and event lead to `Terminated`.
pub proof fn lemma_only_exit_terminates(s: State, e: Event)
    requires
        next_state(s, e) is Terminated,
        s !is Terminated,
    ensures
        s is MessageWritten && e is ExitIssued,
{
}

} // verus!
