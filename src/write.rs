use vstd::prelude::*;

use crate::instruction::{
    offset_of, payload_of, read_offset, WriteCommand, HEADER_LEN,
};

verus! {

/// Why an instruction was refused.
#[derive(Clone, Copy, Debug, PartialEq, Eq, Structural)]
pub enum WriteError {
    /// No target buffer was supplied.
    MissingTarget,
    /// The instruction is shorter than its header.
    MalformedInstruction,
    /// The payload would end past the end of the target buffer.
    OutOfBounds,
    /// The command tag names no known command.
    UnknownCommand,
}

/// `data` with `payload` laid over it from `offset` on; every other byte is kept.
pub open spec fn overwrite(data: Seq<u8>, offset: int, payload: Seq<u8>) -> Seq<u8> {
    Seq::new(
        data.len(),
        |i: int|
            if offset <= i < offset + payload.len() {
                payload[i - offset]
            } else {
                data[i]
            },
    )
}

/// What one instruction does to a target buffer: the buffer's contents after
/// the call, and the call's result. A refused instruction leaves the buffer as it was.
pub open spec fn write_outcome(data: Seq<u8>, ins: Seq<u8>) -> (Seq<u8>, Result<(), WriteError>) {
    if ins.len() < HEADER_LEN {
        (data, Err(WriteError::MalformedInstruction))
    } else if WriteCommand::spec_from_tag(ins[0]) is None {
        (data, Err(WriteError::UnknownCommand))
    } else if offset_of(ins) + payload_of(ins).len() > data.len() {
        (data, Err(WriteError::OutOfBounds))
    } else {
        (overwrite(data, offset_of(ins) as int, payload_of(ins)), Ok(()))
    }
}

/// Decodes one instruction and applies it to the target buffer.
///
/// The header is checked first, then the command tag, then the bounds; the
/// payload is copied only when all three pass, so a refused instruction
/// changes no byte.
pub fn write_at(data: &mut [u8], instruction: &[u8]) -> (r: Result<(), WriteError>)
    ensures
        (final(data)@, r) == write_outcome(old(data)@, instruction@),
{
    if instruction.len() < HEADER_LEN {
        return Err(WriteError::MalformedInstruction);
    }
    let offset = read_offset(instruction) as usize;
    match WriteCommand::from_tag(instruction[0]) {
        Some(WriteCommand::Write) => {
            let ins_len = instruction.len();
            let data_len = data.len();
            let payload_len = ins_len - HEADER_LEN;
            if offset > data_len || payload_len > data_len - offset {
                return Err(WriteError::OutOfBounds);
            }
            let ghost before = data@;
            let ghost payload = payload_of(instruction@);
            let mut k: usize = 0;
            while k < payload_len
                invariant
                    k <= payload_len,
                    payload_len == payload.len(),
                    payload == payload_of(instruction@),
                    instruction@.len() == ins_len,
                    ins_len == HEADER_LEN + payload_len,
                    offset + payload_len <= data_len,
                    data@.len() == data_len,
                    before.len() == data_len,
                    forall|i: int|
                        0 <= i < data@.len() ==> #[trigger] data@[i] == if offset <= i < offset + k {
                            payload[i - offset]
                        } else {
                            before[i]
                        },
                decreases payload_len - k,
            {
                data[offset + k] = instruction[HEADER_LEN + k];
                k = k + 1;
            }
            assert(data@ =~= overwrite(before, offset as int, payload));
            Ok(())
        },
        None => Err(WriteError::UnknownCommand),
    }
}

/// A Write that fits puts the payload at `[offset, offset + len)`, keeps
/// every other byte, and keeps the buffer's length.
pub proof fn lemma_write_round_trip(data: Seq<u8>, ins: Seq<u8>)
    requires
        ins.len() >= HEADER_LEN,
        ins[0] == 0,
        offset_of(ins) + payload_of(ins).len() <= data.len(),
    ensures
        write_outcome(data, ins).1 == Ok::<(), WriteError>(()),
        write_outcome(data, ins).0.len() == data.len(),
        write_outcome(data, ins).0.subrange(
            offset_of(ins) as int,
            (offset_of(ins) + payload_of(ins).len()) as int,
        ) == payload_of(ins),
        forall|i: int|
            0 <= i < data.len() && !(offset_of(ins) <= i < offset_of(ins) + payload_of(ins).len())
                ==> #[trigger] write_outcome(data, ins).0[i] == data[i],
{
    let after = write_outcome(data, ins).0;
    assert(after.subrange(offset_of(ins) as int, (offset_of(ins) + payload_of(ins).len()) as int)
        =~= payload_of(ins));
}

/// A Write whose payload would end past the buffer fails with `OutOfBounds`
/// and leaves the buffer as it was.
pub proof fn lemma_write_out_of_bounds(data: Seq<u8>, ins: Seq<u8>)
    requires
        ins.len() >= HEADER_LEN,
        ins[0] == 0,
        offset_of(ins) + payload_of(ins).len() > data.len(),
    ensures
        write_outcome(data, ins) == (data, Err::<(), WriteError>(WriteError::OutOfBounds)),
{
}

/// An instruction shorter than its header fails with `MalformedInstruction`,
/// whatever it holds, and leaves the buffer as it was.
pub proof fn lemma_short_instruction(data: Seq<u8>, ins: Seq<u8>)
    requires
        ins.len() < HEADER_LEN,
    ensures
        write_outcome(data, ins) == (data, Err::<(), WriteError>(WriteError::MalformedInstruction)),
{
}

/// A complete instruction whose tag is not `0` fails with `UnknownCommand`
/// and leaves the buffer as it was, whatever its offset and payload.
pub proof fn lemma_unknown_command(data: Seq<u8>, ins: Seq<u8>)
    requires
        ins.len() >= HEADER_LEN,
        ins[0] != 0,
    ensures
        write_outcome(data, ins) == (data, Err::<(), WriteError>(WriteError::UnknownCommand)),
{
}

/// Applying an instruction a second time leaves the buffer as the first
/// application left it.
pub proof fn lemma_write_idempotent(data: Seq<u8>, ins: Seq<u8>)
    ensures
        write_outcome(write_outcome(data, ins).0, ins).0 == write_outcome(data, ins).0,
{
    let once = write_outcome(data, ins).0;
    if write_outcome(data, ins).1 is Ok {
        assert(write_outcome(once, ins).0 =~= once);
    }
}

/// A Write with an empty payload changes nothing: it succeeds when the offset
/// is within the buffer, and fails with `OutOfBounds` past it.
pub proof fn lemma_empty_payload(data: Seq<u8>, ins: Seq<u8>)
    requires
        ins.len() == HEADER_LEN,
        ins[0] == 0,
    ensures
        offset_of(ins) <= data.len() ==> write_outcome(data, ins) == (data, Ok::<(), WriteError>(())),
        offset_of(ins) > data.len() ==> write_outcome(data, ins) == (
            data,
            Err::<(), WriteError>(WriteError::OutOfBounds),
        ),
{
    assert(overwrite(data, offset_of(ins) as int, payload_of(ins)) =~= data);
}

} // verus!
