//! The program's only data: the fixed message buffer and the exit status.

use vstd::prelude::*;

verus! {

/// The message buffer's length in bytes.
pub const MESSAGE_LEN: usize = 14;

/// The output stream the message goes to: standard output.
pub const STDOUT_FD: u64 = 1;

/// The status the process terminates with on the success path.
pub const EXIT_SUCCESS: i32 = 0;

/// The message, byte for byte: the ASCII text `Hello, world!\n`,
/// fourteen bytes ending in a single newline.
pub open spec fn message_bytes() -> Seq<u8> {
    seq![
        72u8, 101u8, 108u8, 108u8, 111u8, 44u8, 32u8, 119u8, 111u8, 114u8, 108u8, 100u8, 33u8,
        10u8,
    ]
}

/// Builds the message buffer handed to the write syscall.
///
/// The buffer's contents are exactly `message_bytes()`: no truncation and no
/// extra bytes, so the address/length pair derived from it covers precisely
/// the bytes to be emitted.
pub fn message() -> (m: Vec<u8>)
    ensures
        m@ == message_bytes(),
        m@.len() == MESSAGE_LEN,
{
    let mut m: Vec<u8> = Vec::new();
    m.push(72);
    m.push(101);
    m.push(108);
    m.push(108);
    m.push(111);
    m.push(44);
    m.push(32);
    m.push(119);
    m.push(111);
    m.push(114);
    m.push(108);
    m.push(100);
    m.push(33);
    m.push(10);
    proof {
        assert(m@ =~= message_bytes());
    }
    m
}

} // verus!
