//! The closed set of register names, split by access width.
use vstd::prelude::*;

verus! {

/// Every register name of the machine: eight byte registers and four pairs.
#[derive(Clone, Copy, Debug, PartialEq, Eq, Structural)]
pub enum RegName {
    B,
    C,
    D,
    E,
    H,
    L,
    /// Accumulator.
    A,
    /// Flags.
    F,
    BC,
    DE,
    HL,
    /// Accumulator and flags.
    AF,
}

/// A register with storage of its own, accessed 8 bits at a time.
#[derive(Clone, Copy, Debug, PartialEq, Eq, Structural)]
pub enum ByteReg {
    B,
    C,
    D,
    E,
    H,
    L,
    A,
    F,
}

/// A 16-bit register that is a view over two byte registers.
#[derive(Clone, Copy, Debug, PartialEq, Eq, Structural)]
pub enum PairReg {
    BC,
    DE,
    HL,
    AF,
}

/// A condition bit of the flags register.
#[derive(Clone, Copy, Debug, PartialEq, Eq, Structural)]
pub enum FlagName {
    /// Zero: the result of the previous operation was zero.
    Z,
    /// Subtract: the previous operation was a subtraction.
    N,
    /// Half-carry: a carry out of the lower four bits of the result.
    H,
    /// Carry: an 8-bit or 16-bit operation rolled over.
    C,
}

impl ByteReg {
    /// The slot of this register in the register file's storage.
    pub open spec fn spec_slot(self) -> int {
        match self {
            ByteReg::B => 0,
            ByteReg::C => 1,
            ByteReg::D => 2,
            ByteReg::E => 3,
            ByteReg::H => 4,
            ByteReg::L => 5,
            ByteReg::A => 6,
            ByteReg::F => 7,
        }
    }

    pub fn slot(self) -> (r: usize)
        ensures
            r == self.spec_slot(),
            r < 8,
    {
        match self {
            ByteReg::B => 0,
            ByteReg::C => 1,
            ByteReg::D => 2,
            ByteReg::E => 3,
            ByteReg::H => 4,
            ByteReg::L => 5,
            ByteReg::A => 6,
            ByteReg::F => 7,
        }
    }

    pub open spec fn spec_name(self) -> RegName {
        match self {
            ByteReg::B => RegName::B,
            ByteReg::C => RegName::C,
            ByteReg::D => RegName::D,
            ByteReg::E => RegName::E,
            ByteReg::H => RegName::H,
            ByteReg::L => RegName::L,
            ByteReg::A => RegName::A,
            ByteReg::F => RegName::F,
        }
    }

    /// The general name of this register.
    pub fn name(self) -> (r: RegName)
        ensures
            r == self.spec_name(),
    {
        match self {
            ByteReg::B => RegName::B,
            ByteReg::C => RegName::C,
            ByteReg::D => RegName::D,
            ByteReg::E => RegName::E,
            ByteReg::H => RegName::H,
            ByteReg::L => RegName::L,
            ByteReg::A => RegName::A,
            ByteReg::F => RegName::F,
        }
    }
}

/// Two distinct byte registers have distinct storage slots.
pub proof fn lemma_slot_injective(r: ByteReg, q: ByteReg)
    ensures
        r != q ==> r.spec_slot() != q.spec_slot(),
        0 <= r.spec_slot() < 8,
{
}

impl PairReg {
    /// The byte register that holds the high byte: the first one named.
    pub open spec fn spec_upper(self) -> ByteReg {
        match self {
            PairReg::BC => ByteReg::B,
            PairReg::DE => ByteReg::D,
            PairReg::HL => ByteReg::H,
            PairReg::AF => ByteReg::A,
        }
    }

    /// The byte register that holds the low byte: the second one named.
    pub open spec fn spec_lower(self) -> ByteReg {
        match self {
            PairReg::BC => ByteReg::C,
            PairReg::DE => ByteReg::E,
            PairReg::HL => ByteReg::L,
            PairReg::AF => ByteReg::F,
        }
    }

    pub open spec fn spec_name(self) -> RegName {
        match self {
            PairReg::BC => RegName::BC,
            PairReg::DE => RegName::DE,
            PairReg::HL => RegName::HL,
            PairReg::AF => RegName::AF,
        }
    }

    /// The general name of this pair.
    pub fn name(self) -> (r: RegName)
        ensures
            r == self.spec_name(),
    {
        match self {
            PairReg::BC => RegName::BC,
            PairReg::DE => RegName::DE,
            PairReg::HL => RegName::HL,
            PairReg::AF => RegName::AF,
        }
    }
}

impl RegName {
    pub open spec fn spec_as_byte(self) -> Option<ByteReg> {
        match self {
            RegName::B => Some(ByteReg::B),
            RegName::C => Some(ByteReg::C),
            RegName::D => Some(ByteReg::D),
            RegName::E => Some(ByteReg::E),
            RegName::H => Some(ByteReg::H),
            RegName::L => Some(ByteReg::L),
            RegName::A => Some(ByteReg::A),
            RegName::F => Some(ByteReg::F),
            _ => None,
        }
    }

    pub open spec fn spec_as_pair(self) -> Option<PairReg> {
        match self {
            RegName::BC => Some(PairReg::BC),
            RegName::DE => Some(PairReg::DE),
            RegName::HL => Some(PairReg::HL),
            RegName::AF => Some(PairReg::AF),
            _ => None,
        }
    }

    /// The byte register of this name, if it names one.
    pub fn as_byte(self) -> (r: Option<ByteReg>)
        ensures
            r == self.spec_as_byte(),
            r matches Some(b) ==> b.spec_name() == self,
    {
        match self {
            RegName::B => Some(ByteReg::B),
            RegName::C => Some(ByteReg::C),
            RegName::D => Some(ByteReg::D),
            RegName::E => Some(ByteReg::E),
            RegName::H => Some(ByteReg::H),
            RegName::L => Some(ByteReg::L),
            RegName::A => Some(ByteReg::A),
            RegName::F => Some(ByteReg::F),
            _ => None,
        }
    }

    /// The pair register of this name, if it names one.
    pub fn as_pair(self) -> (r: Option<PairReg>)
        ensures
            r == self.spec_as_pair(),
            r matches Some(p) ==> p.spec_name() == self,
    {
        match self {
            RegName::BC => Some(PairReg::BC),
            RegName::DE => Some(PairReg::DE),
            RegName::HL => Some(PairReg::HL),
            RegName::AF => Some(PairReg::AF),
            _ => None,
        }
    }
}

impl RegName {
    /// The name as written in assembly: one or two capital letters.
    pub open spec fn spec_label(self) -> Seq<char> {
        match self {
            RegName::B => seq!['B'],
            RegName::C => seq!['C'],
            RegName::D => seq!['D'],
            RegName::E => seq!['E'],
            RegName::H => seq!['H'],
            RegName::L => seq!['L'],
            RegName::A => seq!['A'],
            RegName::F => seq!['F'],
            RegName::BC => seq!['B', 'C'],
            RegName::DE => seq!['D', 'E'],
            RegName::HL => seq!['H', 'L'],
            RegName::AF => seq!['A', 'F'],
        }
    }

    pub fn label(self) -> (r: &'static str)
        ensures
            r@ == self.spec_label(),
    {
        proof {
            reveal_strlit("B");
            reveal_strlit("C");
            reveal_strlit("D");
            reveal_strlit("E");
            reveal_strlit("H");
            reveal_strlit("L");
            reveal_strlit("A");
            reveal_strlit("F");
            reveal_strlit("BC");
            reveal_strlit("DE");
            reveal_strlit("HL");
            reveal_strlit("AF");
        }
        match self {
            RegName::B => "B",
            RegName::C => "C",
            RegName::D => "D",
            RegName::E => "E",
            RegName::H => "H",
            RegName::L => "L",
            RegName::A => "A",
            RegName::F => "F",
            RegName::BC => "BC",
            RegName::DE => "DE",
            RegName::HL => "HL",
            RegName::AF => "AF",
        }
    }
}

/// Each name is of exactly one of the two kinds.
pub proof fn lemma_name_kinds(n: RegName)
    ensures
        n.spec_as_byte() is Some <==> n.spec_as_pair() is None,
{
}

impl FlagName {
    /// Position of this condition bit within the flags register.
    pub open spec fn spec_bit(self) -> u8 {
        match self {
            FlagName::Z => 7,
            FlagName::N => 6,
            FlagName::H => 5,
            FlagName::C => 4,
        }
    }

    pub fn bit(self) -> (r: u8)
        ensures
            r == self.spec_bit(),
            4 <= r < 8,
    {
        match self {
            FlagName::Z => 7,
            FlagName::N => 6,
            FlagName::H => 5,
            FlagName::C => 4,
        }
    }
}

} // verus!
