use vstd::prelude::*;

use crate::instruction::{decode_spec, Instruction};

verus! {

/// The instruction set in tuple form: the same table as `Instruction`, with
/// the sprite height as a byte.
#[derive(Debug, Clone, Copy, PartialEq, Eq, Structural)]
pub enum Command {
    Cls,
    Ret,
    Jp(usize),
    Call(usize),
    SeV(usize, u8),
    SneV(usize, u8),
    SeVV(usize, usize),
    LdV(usize, u8),
    AddV(usize, u8),
    LdVV(usize, usize),
    OrVV(usize, usize),
    AndVV(usize, usize),
    XorVV(usize, usize),
    AddVV(usize, usize),
    SubVV(usize, usize),
    ShrVV(usize, usize),
    SubnVV(usize, usize),
    ShlVV(usize, usize),
    SneVV(usize, usize),
    LdI(usize),
    JpV0(usize),
    RndV(usize, u8),
    DrwVV(usize, usize, u8),
    SkpV(usize),
    SknpV(usize),
    LdVDt(usize),
    LdVK(usize),
    LdDtV(usize),
    LdStV(usize),
    AddIV(usize),
    LdFV(usize),
    LdBV(usize),
    LdIV(usize),
    LdVI(usize),
}

/// The command that stands for instruction `i`.
pub open spec fn command_of(i: Instruction) -> Command {
    match i {
        Instruction::Cls => Command::Cls,
        Instruction::Ret => Command::Ret,
        Instruction::Jp { addr } => Command::Jp(addr),
        Instruction::Call { addr } => Command::Call(addr),
        Instruction::SeV { vx, byte } => Command::SeV(vx, byte),
        Instruction::SneV { vx, byte } => Command::SneV(vx, byte),
        Instruction::SeVV { vx, vy } => Command::SeVV(vx, vy),
        Instruction::LdV { vx, byte } => Command::LdV(vx, byte),
        Instruction::AddV { vx, byte } => Command::AddV(vx, byte),
        Instruction::LdVV { vx, vy } => Command::LdVV(vx, vy),
        Instruction::OrVV { vx, vy } => Command::OrVV(vx, vy),
        Instruction::AndVV { vx, vy } => Command::AndVV(vx, vy),
        Instruction::XorVV { vx, vy } => Command::XorVV(vx, vy),
        Instruction::AddVV { vx, vy } => Command::AddVV(vx, vy),
        Instruction::SubVV { vx, vy } => Command::SubVV(vx, vy),
        Instruction::ShrVV { vx, vy } => Command::ShrVV(vx, vy),
        Instruction::SubnVV { vx, vy } => Command::SubnVV(vx, vy),
        Instruction::ShlVV { vx, vy } => Command::ShlVV(vx, vy),
        Instruction::SneVV { vx, vy } => Command::SneVV(vx, vy),
        Instruction::LdI { addr } => Command::LdI(addr),
        Instruction::JpV { addr } => Command::JpV0(addr),
        Instruction::RndV { vx, byte } => Command::RndV(vx, byte),
        Instruction::Drw { vx, vy, n } => Command::DrwVV(vx, vy, n as u8),
        Instruction::SkpV { vx } => Command::SkpV(vx),
        Instruction::SknpV { vx } => Command::SknpV(vx),
        Instruction::LdVDt { vx } => Command::LdVDt(vx),
        Instruction::LdVK { vx } => Command::LdVK(vx),
        Instruction::LdDtV { vx } => Command::LdDtV(vx),
        Instruction::LdStV { vx } => Command::LdStV(vx),
        Instruction::AddIV { vx } => Command::AddIV(vx),
        Instruction::LdFV { vx } => Command::LdFV(vx),
        Instruction::LdBV { vx } => Command::LdBV(vx),
        Instruction::LdIV { vx } => Command::LdIV(vx),
        Instruction::LdVI { vx } => Command::LdVI(vx),
    }
}

impl Command {
    /// Decodes one 16-bit word; a word outside the instruction table gives
    /// the text `Unknown command`.
    pub fn try_from(value: u16) -> (r: Result<Command, &'static str>)
        ensures
            match r {
                Ok(c) => decode_spec(value) matches Some(i) && c == command_of(i),
                Err(s) => decode_spec(value) is None && s@ == "Unknown command"@,
            },
    {
        proof {
            reveal_strlit("Unknown command");
        }
        let ins = match Instruction::decode(value) {
            Ok(ins) => ins,
            Err(_) => return Err("Unknown command"),
        };
        proof {
            crate::instruction::lemma_decoded_operands_in_range(value);
        }
        let c = match ins {
            Instruction::Cls => Command::Cls,
            Instruction::Ret => Command::Ret,
            Instruction::Jp { addr } => Command::Jp(addr),
            Instruction::Call { addr } => Command::Call(addr),
            Instruction::SeV { vx, byte } => Command::SeV(vx, byte),
            Instruction::SneV { vx, byte } => Command::SneV(vx, byte),
            Instruction::SeVV { vx, vy } => Command::SeVV(vx, vy),
            Instruction::LdV { vx, byte } => Command::LdV(vx, byte),
            Instruction::AddV { vx, byte } => Command::AddV(vx, byte),
            Instruction::LdVV { vx, vy } => Command::LdVV(vx, vy),
            Instruction::OrVV { vx, vy } => Command::OrVV(vx, vy),
            Instruction::AndVV { vx, vy } => Command::AndVV(vx, vy),
            Instruction::XorVV { vx, vy } => Command::XorVV(vx, vy),
            Instruction::AddVV { vx, vy } => Command::AddVV(vx, vy),
            Instruction::SubVV { vx, vy } => Command::SubVV(vx, vy),
            Instruction::ShrVV { vx, vy } => Command::ShrVV(vx, vy),
            Instruction::SubnVV { vx, vy } => Command::SubnVV(vx, vy),
            Instruction::ShlVV { vx, vy } => Command::ShlVV(vx, vy),
            Instruction::SneVV { vx, vy } => Command::SneVV(vx, vy),
            Instruction::LdI { addr } => Command::LdI(addr),
            Instruction::JpV { addr } => Command::JpV0(addr),
            Instruction::RndV { vx, byte } => Command::RndV(vx, byte),
            Instruction::Drw { vx, vy, n } => Command::DrwVV(vx, vy, n as u8),
            Instruction::SkpV { vx } => Command::SkpV(vx),
            Instruction::SknpV { vx } => Command::SknpV(vx),
            Instruction::LdVDt { vx } => Command::LdVDt(vx),
            Instruction::LdVK { vx } => Command::LdVK(vx),
            Instruction::LdDtV { vx } => Command::LdDtV(vx),
            Instruction::LdStV { vx } => Command::LdStV(vx),
            Instruction::AddIV { vx } => Command::AddIV(vx),
            Instruction::LdFV { vx } => Command::LdFV(vx),
            Instruction::LdBV { vx } => Command::LdBV(vx),
            Instruction::LdIV { vx } => Command::LdIV(vx),
            Instruction::LdVI { vx } => Command::LdVI(vx),
        };
        Ok(c)
    }
}

} // verus!
