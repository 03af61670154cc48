//! Operand addressing: one signed index per operand.

use vstd::prelude::*;

verus! {

/// An index into a call frame. Negative indices address the frame's local
/// slots (more negative is deeper), non-negative indices address argument
/// slots, counted from zero.
#[derive(Clone, Copy, Debug, PartialEq, Eq, Structural)]
pub struct VirtualRegister(i32);

impl VirtualRegister {
    /// The index that stands for "no register".
    pub const INVALID_VIRTUAL_REGISTER: i32 = 0x3fffffff;

    /// The index this register holds.
    pub closed spec fn index(self) -> int {
        self.0 as int
    }

    /// The register with the given index.
    pub fn new(index: i32) -> (r: Self)
        ensures
            r.index() == index,
    {
        VirtualRegister(index)
    }

    /// The register that stands for "no register".
    pub fn invalid() -> (r: Self)
        ensures
            r.index() == Self::INVALID_VIRTUAL_REGISTER,
            !r.is_valid(),
    {
        VirtualRegister(Self::INVALID_VIRTUAL_REGISTER)
    }

    /// The index of this register.
    pub fn to_i32(self) -> (i: i32)
        ensures
            i == self.index(),
    {
        self.0
    }

    pub open spec fn spec_is_local(self) -> bool {
        self.index() < 0
    }

    pub open spec fn spec_is_argument(self) -> bool {
        self.index() >= 0
    }

    pub open spec fn spec_is_valid(self) -> bool {
        self.index() != Self::INVALID_VIRTUAL_REGISTER
    }

    /// Whether this register addresses a local slot of the frame.
    #[verifier::when_used_as_spec(spec_is_local)]
    pub fn is_local(self) -> (b: bool)
        ensures
            b == (self.index() < 0),
    {
        self.0 < 0
    }

    /// Whether this register addresses an argument slot.
    #[verifier::when_used_as_spec(spec_is_argument)]
    pub fn is_argument(self) -> (b: bool)
        ensures
            b == (self.index() >= 0),
    {
        self.0 >= 0
    }

    /// Every register addresses either a local slot or an argument slot,
    /// never both: a local slot when its index is negative, an argument
    /// slot when it is not. The sentinel is an index like any other, told
    /// apart by `is_valid` alone.
    pub proof fn law_local_or_argument(self)
        ensures
            self.index() < 0 ==> self.is_local() && !self.is_argument(),
            self.index() >= 0 ==> self.is_argument() && !self.is_local(),
            self.is_local() != self.is_argument(),
            !self.is_valid() <==> self.index() == Self::INVALID_VIRTUAL_REGISTER,
    {
    }

    /// Whether this register is anything but the "no register" sentinel.
    #[verifier::when_used_as_spec(spec_is_valid)]
    pub fn is_valid(self) -> (b: bool)
        ensures
            b == (self.index() != Self::INVALID_VIRTUAL_REGISTER),
    {
        self.0 != Self::INVALID_VIRTUAL_REGISTER
    }
}

} // verus!
