//! A readable dump of a machine, and the decimal notation it is written in.

use crate::instruction::REGISTER_COUNT;
use crate::model::Machine;
use crate::vm::RegisterVM;
use vstd::prelude::*;

verus! {

/// The character of a decimal digit.
pub open spec fn digit(d: int) -> char
    recommends
        0 <= d < 10,
{
    if d == 0 {
        '0'
    } else if d == 1 {
        '1'
    } else if d == 2 {
        '2'
    } else if d == 3 {
        '3'
    } else if d == 4 {
        '4'
    } else if d == 5 {
        '5'
    } else if d == 6 {
        '6'
    } else if d == 7 {
        '7'
    } else if d == 8 {
        '8'
    } else {
        '9'
    }
}

/// Decimal notation of a natural number, without leading zeros.
pub open spec fn digits(n: nat) -> Seq<char>
    decreases n,
{
    if n < 10 {
        seq![digit(n as int)]
    } else {
        digits(n / 10).push(digit((n % 10) as int))
    }
}

/// Decimal notation of an integer, with a minus sign if it is negative.
pub open spec fn decimal(v: int) -> Seq<char> {
    if v < 0 {
        seq!['-'] + digits((-v) as nat)
    } else {
        digits(v as nat)
    }
}

/// The line of register `index` in a dump.
pub open spec fn register_line(index: int, value: i64) -> Seq<char> {
    "R"@ + decimal(index) + ": "@ + decimal(value as int) + "\n"@
}

/// The lines of the first `count` registers, in order.
pub open spec fn register_lines(registers: Seq<i64>, count: nat) -> Seq<char>
    decreases count,
{
    if count == 0 {
        Seq::empty()
    } else {
        register_lines(registers, (count - 1) as nat) + register_line(
            count - 1,
            registers[count - 1],
        )
    }
}

/// The dump of a machine: program counter, flag, then one line for each
/// register.
pub open spec fn dump_text(m: Machine) -> Seq<char> {
    "Program Counter: "@ + decimal(m.pc as int) + "\nComparison Flag: "@ + decimal(m.flag)
        + "\nRegisters:\n"@ + register_lines(m.registers, m.registers.len())
}

/// The digit `d` as a string of one character.
fn digit_str(d: u64) -> (s: &'static str)
    requires
        d < 10,
    ensures
        s@ == seq![digit(d as int)],
{
    proof {
        reveal_strlit("0");
        reveal_strlit("1");
        reveal_strlit("2");
        reveal_strlit("3");
        reveal_strlit("4");
        reveal_strlit("5");
        reveal_strlit("6");
        reveal_strlit("7");
        reveal_strlit("8");
        reveal_strlit("9");
    }
    let s = if d == 0 {
        "0"
    } else if d == 1 {
        "1"
    } else if d == 2 {
        "2"
    } else if d == 3 {
        "3"
    } else if d == 4 {
        "4"
    } else if d == 5 {
        "5"
    } else if d == 6 {
        "6"
    } else if d == 7 {
        "7"
    } else if d == 8 {
        "8"
    } else {
        "9"
    };
    assert(s@ =~= seq![digit(d as int)]);
    s
}

/// Appends the decimal notation of `n`.
fn append_digits(out: &mut String, n: u64)
    ensures
        final(out)@ == old(out)@ + digits(n as nat),
    decreases n,
{
    if n >= 10 {
        append_digits(out, n / 10);
    }
    out.append(digit_str(n % 10));
    assert(out@ =~= old(out)@ + digits(n as nat));
}

/// Appends the decimal notation of `v`.
fn append_decimal(out: &mut String, v: i64)
    ensures
        final(out)@ == old(out)@ + decimal(v as int),
{
    if v < 0 {
        proof {
            reveal_strlit("-");
        }
        out.append("-");
        let magnitude: u64 = if v == i64::MIN {
            0x8000_0000_0000_0000
        } else {
            (-v) as u64
        };
        append_digits(out, magnitude);
        assert(out@ =~= old(out)@ + decimal(v as int));
    } else {
        append_digits(out, v as u64);
    }
}

impl RegisterVM {
    /// A readable dump of the machine: the program counter, the comparison
    /// flag and the ten registers, one to a line, labelled `R0` to `R9`.
    pub fn dump(&self) -> (text: String)
        ensures
            text@ == dump_text(self@),
    {
        let registers = self.registers();
        let mut text = String::from_str("Program Counter: ");
        append_digits(&mut text, self.pc() as u64);
        text.append("\nComparison Flag: ");
        append_decimal(&mut text, self.flag() as i64);
        text.append("\nRegisters:\n");
        let ghost head = text@;
        let mut index: usize = 0;
        while index < REGISTER_COUNT
            invariant
                index <= REGISTER_COUNT,
                text@ == head + register_lines(registers@, index as nat),
            decreases REGISTER_COUNT - index,
        {
            let ghost before = text@;
            text.append("R");
            append_digits(&mut text, index as u64);
            text.append(": ");
            append_decimal(&mut text, registers[index]);
            text.append("\n");
            index += 1;
            assert(text@ =~= before + register_line(index - 1, registers@[index - 1]));
            assert(text@ =~= head + register_lines(registers@, index as nat));
        }
        text
    }
}

} // verus!
