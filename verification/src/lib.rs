//! A freestanding two-stage startup sequence, modelled and verified.
//!
//! The program this library describes does exactly one thing: a loader-facing
//! trampoline establishes an execution context and hands control to an entry
//! point, which writes one fixed message to standard output through a raw
//! `write` system call and then ends the process through a raw `exit` system
//! call with status 0. The library states that behaviour precisely — the
//! message bytes, the system-call plan, and the run's state machine with its
//! fault path — and proves the statements. A thin unverified runner performs
//! the plan with the platform's actual syscall sequence.

pub mod entry;
pub mod machine;
pub mod message;
pub mod start;

pub use entry::entry;
pub use entry::event_of;
pub use entry::events_of;
pub use entry::plan_is_nominal;
pub use entry::run_plan;
pub use entry::Syscall;
pub use machine::next_state;
pub use machine::run;
pub use machine::step;
pub use machine::Event;
pub use machine::State;
pub use message::message;
pub use message::message_bytes;
pub use message::EXIT_SUCCESS;
pub use message::MESSAGE_LEN;
pub use message::STDOUT_FD;
pub use start::start;
pub use start::EntryContext;
pub use start::LoaderRegs;
