//! The entry point's observable behaviour: the plan of raw system calls it
//! issues, pinned call for call, and its replay through the state machine.

use crate::machine::next_state;
use crate::machine::run;
use crate::machine::step;
use crate::machine::Event;
use crate::machine::State;
use crate::message::message;
use crate::message::message_bytes;
use crate::message::EXIT_SUCCESS;
use crate::message::STDOUT_FD;
use vstd::prelude::*;

verus! {

/// A raw system call as this program issues it. These two are the only kinds
/// the program ever makes: no filesystem, network or environment access.
pub enum Syscall {
    /// `write(fd, buf, len)`: emit `data` on stream `fd`. The numeric return
    /// value is deliberately discarded — no retry, no error check.
    Write { fd: u64, data: Vec<u8> },
    /// `exit(status)`: end the process with `status`. Does not return.
    Exit { status: i32 },
}

/// The event a syscall is to the run's state machine.
pub open spec fn event_of(c: Syscall) -> Event {
    match c {
        Syscall::Write { .. } => Event::WriteIssued,
        Syscall::Exit { .. } => Event::ExitIssued,
    }
}

/// The plan's events, in the order the calls are made.
pub open spec fn events_of(p: Seq<Syscall>) -> Seq<Event> {
    p.map(|i: int, c: Syscall| event_of(c))
}

/// The whole observable behaviour of a run: exactly one write of the message
/// to standard output, then exactly one exit with status 0, and nothing else.
pub open spec fn plan_is_nominal(p: Seq<Syscall>) -> bool {
    &&& p.len() == 2
    &&& p[0] matches Syscall::Write { fd, data } && fd == STDOUT_FD && data@ == message_bytes()
    &&& p[1] matches Syscall::Exit { status } && status == EXIT_SUCCESS
}

/// The entry point's behaviour as data: the nominal plan. A thin runner
/// performs each call in order with the platform's raw syscall sequence;
/// everything observable about a run is fixed here.
pub fn entry() -> (p: Vec<Syscall>)
    ensures
        plan_is_nominal(p@),
{
    let mut p: Vec<Syscall> = Vec::new();
    p.push(Syscall::Write { fd: STDOUT_FD, data: message() });
    p.push(Syscall::Exit { status: EXIT_SUCCESS });
    p
}

/// In a nominal plan every position is the one write or the one exit: the
/// write is first, the exit second, and no other kind of call appears. This
/// is the syscall trace a supervisor observes — one `write`, one `exit`, in
/// that order, nothing interleaved.
pub proof fn lemma_nominal_plan_calls(p: Seq<Syscall>)
    requires
        plan_is_nominal(p),
    ensures
        forall|i: int| 0 <= i < p.len() ==> ((p[i] is Write) <==> i == 0),
        forall|i: int| 0 <= i < p.len() ==> ((p[i] is Exit) <==> i == 1),
        forall|i: int| 0 <= i < p.len() ==> (p[i] is Write || p[i] is Exit),
        forall|i: int|
            0 <= i < p.len() ==> (#[trigger] p[i] matches Syscall::Write { fd, .. } ==> fd
                == STDOUT_FD),
{
}

/// Replaying a nominal plan drives the machine along the success path: the
/// write moves `Started` to `MessageWritten`, the exit moves that to
/// `Terminated`, the only successful terminal state.
pub proof fn lemma_nominal_run_terminates(p: Seq<Syscall>)
    requires
        plan_is_nominal(p),
    ensures
        next_state(State::Started, event_of(p[0])) is MessageWritten,
        run(State::Started, events_of(p)) is Terminated,
{
    let es = events_of(p);
    assert(es.len() == 2);
    assert(es[0] == Event::WriteIssued);
    assert(es[1] == Event::ExitIssued);
    assert(es.drop_first()[0] == es[1]);
    assert(es.drop_first().drop_first().len() == 0);
    assert(run(State::Started, es) == run(State::MessageWritten, es.drop_first()));
    assert(run(State::MessageWritten, es.drop_first()) == run(
        State::Terminated,
        es.drop_first().drop_first(),
    ));
}

/// Replays a plan through the state machine, one call after the other.
pub fn run_plan(s: State, p: &Vec<Syscall>) -> (t: State)
    ensures
        t == run(s, events_of(p@)),
{
    let ghost es = events_of(p@);
    let mut t = s;
    let mut i: usize = 0;
    proof {
        assert(es.skip(0) =~= es);
    }
    while i < p.len()
        invariant
            0 <= i <= p.len(),
            es == events_of(p@),
            run(s, es) == run(t, es.skip(i as int)),
        decreases p.len() - i,
    {
        let e = match &p[i] {
            Syscall::Write { .. } => Event::WriteIssued,
            Syscall::Exit { .. } => Event::ExitIssued,
        };
        proof {
            assert(e == event_of(p@[i as int]));
            assert(es.skip(i as int)[0] == es[i as int]);
            assert(es.skip(i as int).drop_first() =~= es.skip(i as int + 1));
        }
        t = step(t, e);
        i = i + 1;
    }
    proof {
        assert(es.skip(p@.len() as int) =~= Seq::<Event>::empty());
    }
    t
}

} // verus!
