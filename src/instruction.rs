use vstd::prelude::*;

verus! {

/// Bytes in the instruction header: one command tag and a little-endian `u32` offset.
pub const HEADER_LEN: usize = 5;

/// The commands of the program, selected by the first byte of an instruction.
#[derive(Clone, Copy, Debug, PartialEq, Eq, Structural)]
pub enum WriteCommand {
    /// Copy the payload into the target buffer at the offset (tag `0`).
    Write,
}

impl WriteCommand {
    /// The command that a tag byte selects, if any.
    pub open spec fn spec_from_tag(tag: u8) -> Option<WriteCommand> {
        if tag == 0 {
            Some(WriteCommand::Write)
        } else {
            None
        }
    }

    /// Decodes a command tag; every byte but `0` is unknown.
    pub fn from_tag(tag: u8) -> (r: Option<WriteCommand>)
        ensures
            r == Self::spec_from_tag(tag),
    {
        if tag == 0 {
            Some(WriteCommand::Write)
        } else {
            None
        }
    }
}

/// The offset field of an instruction: bytes 1 to 4, little-endian.
pub open spec fn offset_of(ins: Seq<u8>) -> nat
    recommends
        ins.len() >= HEADER_LEN,
{
    ins[1] as nat + ins[2] as nat * 0x100 + ins[3] as nat * 0x1_0000 + ins[4] as nat * 0x100_0000
}

/// The payload of an instruction: every byte after the header.
pub open spec fn payload_of(ins: Seq<u8>) -> Seq<u8>
    recommends
        ins.len() >= HEADER_LEN,
{
    ins.subrange(HEADER_LEN as int, ins.len() as int)
}

/// Reads the little-endian offset field of an instruction whose header is complete.
pub fn read_offset(ins: &[u8]) -> (r: u32)
    requires
        ins@.len() >= HEADER_LEN,
    ensures
        r as nat == offset_of(ins@),
{
    let b1 = ins[1] as u32;
    let b2 = ins[2] as u32;
    let b3 = ins[3] as u32;
    let b4 = ins[4] as u32;
    b1 + b2 * 0x100 + b3 * 0x1_0000 + b4 * 0x100_0000
}

} // verus!
