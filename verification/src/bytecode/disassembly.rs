//! Instructions as text: the mnemonic, a space, and the operands separated
//! by a comma and a space. An operand is written as its number in decimal:
//! a register as its index, a label as its signed offset.

use vstd::prelude::*;
use vstd::string::StringExecFns;
use crate::bytecode::def::Instruction;
use crate::bytecode::def::Operand;

verus! {

/// The digit `d` as text.
pub open spec fn digit_text(d: int) -> Seq<char> {
    if d == 0 {
        "0"@
    } else if d == 1 {
        "1"@
    } else if d == 2 {
        "2"@
    } else if d == 3 {
        "3"@
    } else if d == 4 {
        "4"@
    } else if d == 5 {
        "5"@
    } else if d == 6 {
        "6"@
    } else if d == 7 {
        "7"@
    } else if d == 8 {
        "8"@
    } else {
        "9"@
    }
}

/// The natural number `n` in decimal, without leading zeros.
pub open spec fn natural_text(n: nat) -> Seq<char>
    decreases n,
{
    if n < 10 {
        digit_text(n as int)
    } else {
        natural_text(n / 10) + digit_text((n % 10) as int)
    }
}

/// The integer `n` in decimal, with a minus sign if it is negative.
pub open spec fn decimal_text(n: int) -> Seq<char> {
    if n < 0 {
        "-"@ + natural_text((-n) as nat)
    } else {
        natural_text(n as nat)
    }
}

/// The operand as text.
pub open spec fn operand_text(operand: Operand) -> Seq<char> {
    match operand {
        Operand::Register(r) => decimal_text(r.index()),
        Operand::Index(i) => decimal_text(i as int),
        Operand::Feedback(slot) => decimal_text(slot as int),
        Operand::Label(offset) => decimal_text(offset as int),
    }
}

/// The operands as text, separated by a comma and a space.
pub open spec fn operands_text(operands: Seq<Operand>) -> Seq<char>
    decreases operands.len(),
{
    if operands.len() == 0 {
        Seq::empty()
    } else if operands.len() == 1 {
        operand_text(operands[0])
    } else {
        operands_text(operands.drop_last()) + ", "@ + operand_text(operands.last())
    }
}

/// The instruction as text.
pub open spec fn listing(instruction: Instruction) -> Seq<char> {
    instruction.spec_opcode().spec_mnemonic() + " "@ + operands_text(instruction.spec_operands())
}

fn digit(d: u64) -> (text: &'static str)
    requires
        d < 10,
    ensures
        text@ == digit_text(d as int),
{
    if d == 0 {
        "0"
    } else if d == 1 {
        "1"
    } else if d == 2 {
        "2"
    } else if d == 3 {
        "3"
    } else if d == 4 {
        "4"
    } else if d == 5 {
        "5"
    } else if d == 6 {
        "6"
    } else if d == 7 {
        "7"
    } else if d == 8 {
        "8"
    } else {
        "9"
    }
}

fn append_natural(text: &mut String, n: u64)
    ensures
        final(text)@ == old(text)@ + natural_text(n as nat),
    decreases n,
{
    if n >= 10 {
        append_natural(text, n / 10);
    }
    text.append(digit(n % 10));
}

fn append_decimal(text: &mut String, n: i64)
    requires
        n > i64::MIN,
    ensures
        final(text)@ == old(text)@ + decimal_text(n as int),
{
    if n < 0 {
        text.append("-");
        append_natural(text, (-n) as u64);
    } else {
        append_natural(text, n as u64);
    }
}

fn append_operand(text: &mut String, operand: Operand)
    ensures
        final(text)@ == old(text)@ + operand_text(operand),
{
    match operand {
        Operand::Register(r) => append_decimal(text, r.to_i32() as i64),
        Operand::Index(i) => append_decimal(text, i as i64),
        Operand::Feedback(slot) => append_decimal(text, slot as i64),
        Operand::Label(offset) => append_decimal(text, offset as i64),
    }
}

impl Instruction {
    /// This instruction as text: its mnemonic, a space, and its operands
    /// separated by a comma and a space.
    pub fn disassemble(self) -> (text: String)
        ensures
            text@ == listing(self),
    {
        let mut text = self.mnemonic().to_owned();
        text.append(" ");
        let operands = self.operands();
        let ghost head = text@;
        let mut i: usize = 0;
        while i < operands.len()
            invariant
                i <= operands.len(),
                text@ == head + operands_text(operands@.take(i as int)),
            decreases operands.len() - i,
        {
            proof {
                assert(operands@.take(i + 1).drop_last() == operands@.take(i as int));
            }
            if i > 0 {
                text.append(", ");
            }
            append_operand(&mut text, operands[i]);
            i = i + 1;
        }
        proof {
            assert(operands@.take(i as int) == operands@);
        }
        text
    }
}

} // verus!
