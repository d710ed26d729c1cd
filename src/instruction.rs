use vstd::prelude::*;

verus! {

/// One decoded instruction of the machine.
///
/// `vx` and `vy` select general-purpose registers, `addr` is a 12-bit
/// address, `byte` an 8-bit immediate and `n` a 4-bit sprite height.
#[derive(Debug, Clone, Copy, PartialEq, Eq, Structural)]
pub enum Instruction {
    Cls,
    Ret,
    Jp { addr: usize },
    Call { addr: usize },
    SeV { vx: usize, byte: u8 },
    SneV { vx: usize, byte: u8 },
    SeVV { vx: usize, vy: usize },
    LdV { vx: usize, byte: u8 },
    AddV { vx: usize, byte: u8 },
    LdVV { vx: usize, vy: usize },
    OrVV { vx: usize, vy: usize },
    AndVV { vx: usize, vy: usize },
    XorVV { vx: usize, vy: usize },
    AddVV { vx: usize, vy: usize },
    SubVV { vx: usize, vy: usize },
    ShrVV { vx: usize, vy: usize },
    SubnVV { vx: usize, vy: usize },
    ShlVV { vx: usize, vy: usize },
    SneVV { vx: usize, vy: usize },
    LdI { addr: usize },
    JpV { addr: usize },
    RndV { vx: usize, byte: u8 },
    Drw { vx: usize, vy: usize, n: usize },
    SkpV { vx: usize },
    SknpV { vx: usize },
    LdVDt { vx: usize },
    LdVK { vx: usize },
    LdDtV { vx: usize },
    LdStV { vx: usize },
    AddIV { vx: usize },
    LdFV { vx: usize },
    LdBV { vx: usize },
    LdIV { vx: usize },
    LdVI { vx: usize },
}

/// A word that names no instruction.
#[derive(Debug, Clone, Copy, PartialEq, Eq, Structural)]
pub struct DecodeError {
    pub word: u16,
}

/// Top nibble of a word: the instruction family.
pub open spec fn op_of(w: u16) -> int {
    w as int / 0x1000
}

/// Bits 8 to 11: the first register selector.
pub open spec fn x_of(w: u16) -> usize {
    ((w as int / 0x100) % 16) as usize
}

/// Bits 4 to 7: the second register selector.
pub open spec fn y_of(w: u16) -> usize {
    ((w as int / 0x10) % 16) as usize
}

/// Bits 0 to 3.
pub open spec fn n_of(w: u16) -> int {
    w as int % 16
}

/// Low 8 bits.
pub open spec fn byte_of(w: u16) -> u8 {
    (w as int % 0x100) as u8
}

/// Low 12 bits.
pub open spec fn addr_of(w: u16) -> usize {
    (w as int % 0x1000) as usize
}

/// Sub-operations of the 0x8xy_ family, chosen by the low nibble.
pub open spec fn decode_alu(w: u16) -> Option<Instruction> {
    let (vx, vy) = (x_of(w), y_of(w));
    let n = n_of(w);
    if n == 0x0 {
        Some(Instruction::LdVV { vx, vy })
    } else if n == 0x1 {
        Some(Instruction::OrVV { vx, vy })
    } else if n == 0x2 {
        Some(Instruction::AndVV { vx, vy })
    } else if n == 0x3 {
        Some(Instruction::XorVV { vx, vy })
    } else if n == 0x4 {
        Some(Instruction::AddVV { vx, vy })
    } else if n == 0x5 {
        Some(Instruction::SubVV { vx, vy })
    } else if n == 0x6 {
        Some(Instruction::ShrVV { vx, vy })
    } else if n == 0x7 {
        Some(Instruction::SubnVV { vx, vy })
    } else if n == 0xE {
        Some(Instruction::ShlVV { vx, vy })
    } else {
        None
    }
}

/// Instructions of the 0xEx__ family, chosen by the low byte.
pub open spec fn decode_key(w: u16) -> Option<Instruction> {
    let vx = x_of(w);
    let b = byte_of(w);
    if b == 0x9E {
        Some(Instruction::SkpV { vx })
    } else if b == 0xA1 {
        Some(Instruction::SknpV { vx })
    } else {
        None
    }
}

/// Instructions of the 0xFx__ family, chosen by the low byte.
pub open spec fn decode_misc(w: u16) -> Option<Instruction> {
    let vx = x_of(w);
    let b = byte_of(w);
    if b == 0x07 {
        Some(Instruction::LdVDt { vx })
    } else if b == 0x0A {
        Some(Instruction::LdVK { vx })
    } else if b == 0x15 {
        Some(Instruction::LdDtV { vx })
    } else if b == 0x18 {
        Some(Instruction::LdStV { vx })
    } else if b == 0x1E {
        Some(Instruction::AddIV { vx })
    } else if b == 0x29 {
        Some(Instruction::LdFV { vx })
    } else if b == 0x33 {
        Some(Instruction::LdBV { vx })
    } else if b == 0x55 {
        Some(Instruction::LdIV { vx })
    } else if b == 0x65 {
        Some(Instruction::LdVI { vx })
    } else {
        None
    }
}

/// The instruction table: what each word means, or `None` where it means
/// nothing.
pub open spec fn decode_spec(w: u16) -> Option<Instruction> {
    let op = op_of(w);
    let (vx, vy) = (x_of(w), y_of(w));
    let (addr, byte) = (addr_of(w), byte_of(w));
    if w == 0x00E0 {
        Some(Instruction::Cls)
    } else if w == 0x00EE {
        Some(Instruction::Ret)
    } else if op == 0x1 {
        Some(Instruction::Jp { addr })
    } else if op == 0x2 {
        Some(Instruction::Call { addr })
    } else if op == 0x3 {
        Some(Instruction::SeV { vx, byte })
    } else if op == 0x4 {
        Some(Instruction::SneV { vx, byte })
    } else if op == 0x5 && n_of(w) == 0 {
        Some(Instruction::SeVV { vx, vy })
    } else if op == 0x6 {
        Some(Instruction::LdV { vx, byte })
    } else if op == 0x7 {
        Some(Instruction::AddV { vx, byte })
    } else if op == 0x8 {
        decode_alu(w)
    } else if op == 0x9 && n_of(w) == 0 {
        Some(Instruction::SneVV { vx, vy })
    } else if op == 0xA {
        Some(Instruction::LdI { addr })
    } else if op == 0xB {
        Some(Instruction::JpV { addr })
    } else if op == 0xC {
        Some(Instruction::RndV { vx, byte })
    } else if op == 0xD {
        Some(Instruction::Drw { vx, vy, n: n_of(w) as usize })
    } else if op == 0xE {
        decode_key(w)
    } else if op == 0xF {
        decode_misc(w)
    } else {
        None
    }
}

/// Register selectors of a decoded instruction name one of the sixteen
/// registers, and its sprite height fits in a nibble.
pub open spec fn operands_in_range(i: Instruction) -> bool {
    match i {
        Instruction::SeV { vx, .. } | Instruction::SneV { vx, .. } | Instruction::LdV { vx, .. }
        | Instruction::AddV { vx, .. } | Instruction::RndV { vx, .. } | Instruction::SkpV { vx }
        | Instruction::SknpV { vx } | Instruction::LdVDt { vx } | Instruction::LdVK { vx }
        | Instruction::LdDtV { vx } | Instruction::LdStV { vx } | Instruction::AddIV { vx }
        | Instruction::LdFV { vx } | Instruction::LdBV { vx } | Instruction::LdIV { vx }
        | Instruction::LdVI { vx } => vx < 16,
        Instruction::SeVV { vx, vy } | Instruction::LdVV { vx, vy } | Instruction::OrVV { vx, vy }
        | Instruction::AndVV { vx, vy } | Instruction::XorVV { vx, vy }
        | Instruction::AddVV { vx, vy } | Instruction::SubVV { vx, vy }
        | Instruction::ShrVV { vx, vy } | Instruction::SubnVV { vx, vy }
        | Instruction::ShlVV { vx, vy } | Instruction::SneVV { vx, vy } => vx < 16 && vy < 16,
        Instruction::Drw { vx, vy, n } => vx < 16 && vy < 16 && n < 16,
        Instruction::Jp { addr } | Instruction::Call { addr } | Instruction::LdI { addr }
        | Instruction::JpV { addr } => addr < 0x1000,
        _ => true,
    }
}

/// Every decoded instruction has its operands in range.
pub proof fn lemma_decoded_operands_in_range(w: u16)
    ensures
        decode_spec(w) matches Some(i) ==> operands_in_range(i),
{
}

/// Uppercase hexadecimal digit for a value below 16.
pub open spec fn hex_char(d: nat) -> char {
    if d < 10 {
        ('0' as nat + d) as char
    } else {
        ('A' as nat + (d - 10)) as char
    }
}

/// Uppercase hexadecimal notation of `v`, without leading zeros.
pub open spec fn hex_upper(v: nat) -> Seq<char>
    decreases v,
{
    if v < 16 {
        seq![hex_char(v)]
    } else {
        hex_upper(v / 16) + seq![hex_char(v % 16)]
    }
}

/// The text that reports an unknown word.
pub open spec fn unknown_message(w: u16) -> Seq<char> {
    "Unknown instruction 0x"@ + hex_upper(w as nat)
}

fn hex_digit_str(d: u16) -> (r: &'static str)
    requires
        d < 16,
    ensures
        r@ == seq![hex_char(d as nat)],
{
    proof {
        reveal_strlit("0");
        reveal_strlit("1");
        reveal_strlit("2");
        reveal_strlit("3");
        reveal_strlit("4");
        reveal_strlit("5");
        reveal_strlit("6");
        reveal_strlit("7");
        reveal_strlit("8");
        reveal_strlit("9");
        reveal_strlit("A");
        reveal_strlit("B");
        reveal_strlit("C");
        reveal_strlit("D");
        reveal_strlit("E");
        reveal_strlit("F");
    }
    let r = match d {
        0 => "0",
        1 => "1",
        2 => "2",
        3 => "3",
        4 => "4",
        5 => "5",
        6 => "6",
        7 => "7",
        8 => "8",
        9 => "9",
        10 => "A",
        11 => "B",
        12 => "C",
        13 => "D",
        14 => "E",
        _ => "F",
    };
    assert(r@ =~= seq![hex_char(d as nat)]);
    r
}

fn append_hex(s: &mut String, v: u16)
    ensures
        final(s)@ == old(s)@ + hex_upper(v as nat),
    decreases v,
{
    if v >= 16 {
        append_hex(s, v / 16);
    }
    s.append(hex_digit_str(v % 16));
    assert(s@ =~= old(s)@ + hex_upper(v as nat));
}

impl Instruction {
    /// Decodes one 16-bit word, or fails with an error naming the word when
    /// it is not in the instruction table.
    pub fn decode(value: u16) -> (r: Result<Instruction, DecodeError>)
        ensures
            match r {
                Ok(i) => decode_spec(value) == Some(i),
                Err(e) => decode_spec(value) is None && e.word == value,
            },
    {
        let addr = (value % 0x1000) as usize;
        let byte = (value % 0x100) as u8;
        let vx = (value / 0x100 % 16) as usize;
        let vy = (value / 0x10 % 16) as usize;
        let n = value % 16;
        let low = value % 0x100;
        let decoded = match value / 0x1000 {
            0x0 => {
                if value == 0x00E0 {
                    Some(Instruction::Cls)
                } else if value == 0x00EE {
                    Some(Instruction::Ret)
                } else {
                    None
                }
            },
            0x1 => Some(Instruction::Jp { addr }),
            0x2 => Some(Instruction::Call { addr }),
            0x3 => Some(Instruction::SeV { vx, byte }),
            0x4 => Some(Instruction::SneV { vx, byte }),
            0x5 => {
                if n == 0 {
                    Some(Instruction::SeVV { vx, vy })
                } else {
                    None
                }
            },
            0x6 => Some(Instruction::LdV { vx, byte }),
            0x7 => Some(Instruction::AddV { vx, byte }),
            0x8 => match n {
                0x0 => Some(Instruction::LdVV { vx, vy }),
                0x1 => Some(Instruction::OrVV { vx, vy }),
                0x2 => Some(Instruction::AndVV { vx, vy }),
                0x3 => Some(Instruction::XorVV { vx, vy }),
                0x4 => Some(Instruction::AddVV { vx, vy }),
                0x5 => Some(Instruction::SubVV { vx, vy }),
                0x6 => Some(Instruction::ShrVV { vx, vy }),
                0x7 => Some(Instruction::SubnVV { vx, vy }),
                0xE => Some(Instruction::ShlVV { vx, vy }),
                _ => None,
            },
            0x9 => {
                if n == 0 {
                    Some(Instruction::SneVV { vx, vy })
                } else {
                    None
                }
            },
            0xA => Some(Instruction::LdI { addr }),
            0xB => Some(Instruction::JpV { addr }),
            0xC => Some(Instruction::RndV { vx, byte }),
            0xD => Some(Instruction::Drw { vx, vy, n: n as usize }),
            0xE => match low {
                0x9E => Some(Instruction::SkpV { vx }),
                0xA1 => Some(Instruction::SknpV { vx }),
                _ => None,
            },
            _ => match low {
                0x07 => Some(Instruction::LdVDt { vx }),
                0x0A => Some(Instruction::LdVK { vx }),
                0x15 => Some(Instruction::LdDtV { vx }),
                0x18 => Some(Instruction::LdStV { vx }),
                0x1E => Some(Instruction::AddIV { vx }),
                0x29 => Some(Instruction::LdFV { vx }),
                0x33 => Some(Instruction::LdBV { vx }),
                0x55 => Some(Instruction::LdIV { vx }),
                0x65 => Some(Instruction::LdVI { vx }),
                _ => None,
            },
        };
        match decoded {
            Some(i) => Ok(i),
            None => Err(DecodeError { word: value }),
        }
    }

    /// Decodes one word; an unknown word gives the text
    /// `Unknown instruction 0x` followed by the word in uppercase hexadecimal.
    pub fn try_from(value: u16) -> (r: Result<Instruction, String>)
        ensures
            match r {
                Ok(i) => decode_spec(value) == Some(i),
                Err(s) => decode_spec(value) is None && s@ == unknown_message(value),
            },
    {
        match Instruction::decode(value) {
            Ok(i) => Ok(i),
            Err(e) => Err(e.message()),
        }
    }
}

impl DecodeError {
    /// Human-readable report naming the offending word in hexadecimal.
    pub fn message(&self) -> (r: String)
        ensures
            r@ == unknown_message(self.word),
    {
        proof {
            reveal_strlit("Unknown instruction 0x");
        }
        let mut s = String::from_str("Unknown instruction 0x");
        append_hex(&mut s, self.word);
        s
    }
}

} // verus!
