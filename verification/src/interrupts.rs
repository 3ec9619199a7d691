use vstd::prelude::*;

verus! {

/// Interrupt operations.
#[derive(Copy, Clone, Debug, PartialEq, Eq, Structural)]
pub enum Interrupt {
    /// Vector $FFFA/$FFFB | Push PC and P. Same as BRK, but through the vector
    /// at $FFFA/$FFFB. 7 cycles.
    NMI,
    /// Vector $FFFC/$FFFD: the stack pointer ends at $FD and the program
    /// counter is read from $FFFC (low byte) and $FFFD (high byte). 8 cycles.
    RESET,
    /// Vector $FFFE/$FFFF | Push PC and P. Same as BRK, but clears the B flag.
    /// 6 cycles.
    IRQ,
    /// Vector $FFFE/$FFFF | Push PC and P | Set B flag: stores PC (high byte,
    /// then low byte) and P, then fetches PC from $FFFE (low) and $FFFF
    /// (high). 6 cycles.
    BRK,
}

} // verus!
