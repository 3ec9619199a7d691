use vstd::prelude::*;
use crate::trace::{hex, pad_left, push_hex, push_padded_left, push_text, string_of_chars};

verus! {

/// What can go wrong while running the CPU or laying out the bus.
#[derive(Copy, Clone, Debug, PartialEq, Eq)]
pub enum Error {
    /// An error with no further detail.
    Other,
    /// The byte fetched at the program counter is no known opcode.
    UnknownOpCode(u8),
    /// The opcode is known but its instruction is not implemented.
    UnhandledOpCode(u8),
    /// The region lies within one that is already mapped, given as `(start, end)`.
    MemoryMapConflict((u16, u16)),
}

/// The message of an error. An opcode is shown in upper-case hexadecimal in
/// a field two characters wide (a single digit gets a leading space); the
/// bounds of a region in four digits.
pub open spec fn error_text(e: Error) -> Seq<char> {
    match e {
        Error::Other => "an error occurred"@,
        Error::UnhandledOpCode(code) => "unhandled opcode: 0x"@ + pad_left(hex(code as nat, 1), 2),
        Error::UnknownOpCode(code) => "unknown opcode: 0x"@ + pad_left(hex(code as nat, 1), 2),
        Error::MemoryMapConflict((start, end)) => "memory region is already mapped: $"@ + hex(start as nat, 4)
            + "-$"@ + hex(end as nat, 4),
    }
}

impl Error {
    /// The error's message.
    pub fn text(&self) -> (r: String)
        ensures
            r@ == error_text(*self),
    {
        let mut out: Vec<char> = Vec::new();
        match self {
            Error::Other => {
                push_text(&mut out, &['a', 'n', ' ', 'e', 'r', 'r', 'o', 'r', ' ', 'o', 'c', 'c', 'u', 'r', 'r', 'e', 'd']);
                proof {
                    reveal_strlit("an error occurred");
                }
            },
            Error::UnhandledOpCode(code) => {
                push_text(&mut out, &['u', 'n', 'h', 'a', 'n', 'd', 'l', 'e', 'd', ' ', 'o', 'p', 'c', 'o', 'd', 'e', ':', ' ', '0', 'x']);
                let mut digits: Vec<char> = Vec::new();
                push_hex(&mut digits, *code as usize, 1);
                push_padded_left(&mut out, &digits, 2);
                proof {
                    reveal_strlit("unhandled opcode: 0x");
                }
            },
            Error::UnknownOpCode(code) => {
                push_text(&mut out, &['u', 'n', 'k', 'n', 'o', 'w', 'n', ' ', 'o', 'p', 'c', 'o', 'd', 'e', ':', ' ', '0', 'x']);
                let mut digits: Vec<char> = Vec::new();
                push_hex(&mut digits, *code as usize, 1);
                push_padded_left(&mut out, &digits, 2);
                proof {
                    reveal_strlit("unknown opcode: 0x");
                }
            },
            Error::MemoryMapConflict((start, end)) => {
                push_text(&mut out, &['m', 'e', 'm', 'o', 'r', 'y', ' ', 'r', 'e', 'g', 'i', 'o', 'n', ' ', 'i', 's', ' ', 'a', 'l', 'r', 'e', 'a', 'd', 'y', ' ', 'm', 'a', 'p', 'p', 'e', 'd', ':', ' ', '$']);
                push_hex(&mut out, *start as usize, 4);
                push_text(&mut out, &['-', '$']);
                push_hex(&mut out, *end as usize, 4);
                proof {
                    reveal_strlit("memory region is already mapped: $");
                    reveal_strlit("-$");
                }
            },
        }
        assert(out@ =~= error_text(*self));
        string_of_chars(&out)
    }
}

} // verus!
