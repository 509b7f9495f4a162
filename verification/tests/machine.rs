use hello_start::message;
use hello_start::run_plan;
use hello_start::step;
use hello_start::Event;
use hello_start::State;
use hello_start::Syscall;

#[test]
fn success_path_started_to_terminated() {
    let written = step(State::Started, Event::WriteIssued);
    assert_eq!(written, State::MessageWritten);
    let done = step(written, Event::ExitIssued);
    assert_eq!(done, State::Terminated);
}

#[test]
fn fault_before_termination_traps() {
    assert_eq!(step(State::Started, Event::Fault), State::Trapped);
    assert_eq!(step(State::MessageWritten, Event::Fault), State::Trapped);
}

#[test]
fn out_of_order_syscall_is_a_contract_fault() {
    assert_eq!(step(State::Started, Event::ExitIssued), State::Trapped);
    assert_eq!(step(State::MessageWritten, Event::WriteIssued), State::Trapped);
}

#[test]
fn trapped_absorbs_every_event() {
    for e in [Event::WriteIssued, Event::ExitIssued, Event::Fault] {
        assert_eq!(step(State::Trapped, e), State::Trapped);
    }
}

#[test]
fn terminated_absorbs_every_event() {
    for e in [Event::WriteIssued, Event::ExitIssued, Event::Fault] {
        assert_eq!(step(State::Terminated, e), State::Terminated);
    }
}

#[test]
fn panic_handler_traps_the_run() {
    assert_eq!(hello_start::machine::panic(State::Started), State::Trapped);
    assert_eq!(
        hello_start::machine::panic(State::MessageWritten),
        State::Trapped
    );
}

#[test]
fn returning_instead_of_exiting_hangs_the_run() {
    let truncated = vec![Syscall::Write {
        fd: 1,
        data: message(),
    }];
    let after_write = run_plan(State::Started, &truncated);
    assert_eq!(after_write, State::MessageWritten);
    let mut s = step(after_write, Event::Fault);
    assert_eq!(s, State::Trapped);
    for e in [Event::ExitIssued, Event::WriteIssued, Event::Fault] {
        s = step(s, e);
        assert_eq!(s, State::Trapped);
    }
}
