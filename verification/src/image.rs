//! Parsing of Inko bytecode images.
//!
//! Numbers are encoded in little-endian order. A parser reads from a
//! `Stream`, a byte buffer with a read position; each reader has a
//! specification (a `spec_*` function) that describes, as a function of the
//! bytes and the start position, which value it reads and where the next read
//! starts, or which error it reports.
pub mod loader;

use vstd::prelude::*;
use vstd::utf8::{valid_utf8, decode_utf8};
use crate::instruction::{Instruction, Opcode, opcode_byte, OPCODE_COUNT};
use crate::config::Config;
use crate::indexes::MethodIndex;
use crate::mem::permanent_space::MethodCounts;

verus! {

/// The bytes that every bytecode file must start with ("inko").
pub const SIGNATURE_BYTES: [u8; 4] = [105, 110, 107, 111];

/// The current version of the bytecode format.
pub const VERSION: u8 = 1;

/// The tag that marks the start of an integer literal.
pub const LITERAL_INTEGER: u8 = 0;

/// The tag that marks the start of an unsigned integer literal.
pub const LITERAL_UNSIGNED_INTEGER: u8 = 1;

/// The tag that marks the start of a float literal.
pub const LITERAL_FLOAT: u8 = 2;

/// The tag that marks the start of a string literal.
pub const LITERAL_STRING: u8 = 3;

/// The maximum number of arguments of a single instruction.
pub const MAX_INSTRUCTION_ARGUMENTS: u8 = 6;

/// The highest valid class kind.
pub const MAX_CLASS_KIND: u8 = 14;

/// The reasons a bytecode image can be rejected.
#[derive(Debug, PartialEq, Eq, Clone, Copy)]
pub enum ImageError {
    /// The input ended before a value could be read completely.
    UnexpectedEnd,
    /// A string is not valid UTF-8.
    InvalidUtf8,
    /// The image doesn't start with the signature bytes.
    InvalidSignature,
    /// The image uses an unsupported version of the format.
    UnsupportedVersion(u8),
    /// An instruction has more than six arguments.
    TooManyArguments(u8),
    /// An instruction uses an unknown opcode.
    InvalidOpcode(u8),
    /// A class uses an unknown kind.
    InvalidClassKind(u8),
    /// A literal uses an unknown type tag.
    InvalidLiteralType(u8),
}

/// The outcome of a specified read: the value and the position after it, or
/// an error.
pub type SpecRead<T> = Result<(T, int), ImageError>;

/// A byte buffer with a read position.
pub struct Stream {
    bytes: Vec<u8>,
    pos: usize,
}

impl Stream {
    /// The bytes of the stream.
    pub closed spec fn data(&self) -> Seq<u8> {
        self.bytes@
    }

    /// The position of the next read.
    pub closed spec fn position(&self) -> int {
        self.pos as int
    }

    /// The position never lies beyond the end of the bytes.
    pub closed spec fn wf(&self) -> bool {
        self.pos <= self.bytes@.len()
    }

    /// Returns a stream that reads `bytes` from the start.
    pub fn new(bytes: Vec<u8>) -> (r: Self)
        ensures
            r.wf(),
            r.data() == bytes@,
            r.position() == 0,
    {
        Stream { bytes, pos: 0 }
    }

    /// The number of bytes left to read.
    pub fn remaining(&self) -> (r: usize)
        requires
            self.wf(),
        ensures
            r == self.data().len() - self.position(),
    {
        self.bytes.len() - self.pos
    }
}

/// Reading `n` bytes at `pos`.
pub open spec fn spec_bytes(s: Seq<u8>, pos: int, n: int) -> SpecRead<Seq<u8>> {
    if 0 <= pos && 0 <= n && pos + n <= s.len() {
        Ok((s.subrange(pos, pos + n), pos + n))
    } else {
        Err(ImageError::UnexpectedEnd)
    }
}

/// The unsigned value of little-endian bytes.
pub open spec fn le_value(b: Seq<u8>) -> int
    decreases b.len(),
{
    if b.len() == 0 {
        0
    } else {
        b[0] + 256 * le_value(b.drop_first())
    }
}

/// Reading a single byte.
pub open spec fn spec_u8(s: Seq<u8>, pos: int) -> SpecRead<u8> {
    match spec_bytes(s, pos, 1) {
        Ok((b, p)) => Ok((b[0], p)),
        Err(e) => Err(e),
    }
}

/// Reading a little-endian `u16`.
pub open spec fn spec_u16(s: Seq<u8>, pos: int) -> SpecRead<u16> {
    match spec_bytes(s, pos, 2) {
        Ok((b, p)) => Ok((le_value(b) as u16, p)),
        Err(e) => Err(e),
    }
}

/// Reading a little-endian `u32`.
pub open spec fn spec_u32(s: Seq<u8>, pos: int) -> SpecRead<u32> {
    match spec_bytes(s, pos, 4) {
        Ok((b, p)) => Ok((le_value(b) as u32, p)),
        Err(e) => Err(e),
    }
}

/// Reading a little-endian `u64`.
pub open spec fn spec_u64(s: Seq<u8>, pos: int) -> SpecRead<u64> {
    match spec_bytes(s, pos, 8) {
        Ok((b, p)) => Ok((le_value(b) as u64, p)),
        Err(e) => Err(e),
    }
}

/// Reading a little-endian, two's complement `i64`.
pub open spec fn spec_i64(s: Seq<u8>, pos: int) -> SpecRead<i64> {
    match spec_u64(s, pos) {
        Ok((v, p)) => Ok((v as i64, p)),
        Err(e) => Err(e),
    }
}

/// Reading a string: a `u32` byte count followed by that many bytes of UTF-8.
pub open spec fn spec_string(s: Seq<u8>, pos: int) -> SpecRead<Seq<char>> {
    match spec_u32(s, pos) {
        Err(e) => Err(e),
        Ok((n, p)) => match spec_bytes(s, p, n as int) {
            Err(e) => Err(e),
            Ok((b, p2)) => if valid_utf8(b) {
                Ok((decode_utf8(b), p2))
            } else {
                Err(ImageError::InvalidUtf8)
            },
        },
    }
}

/// Reads `n` bytes into a new vector.
fn read_bytes(stream: &mut Stream, n: usize) -> (r: Result<Vec<u8>, ImageError>)
    requires
        old(stream).wf(),
    ensures
        final(stream).wf(),
        final(stream).data() == old(stream).data(),
        match spec_bytes(old(stream).data(), old(stream).position(), n as int) {
            Ok((b, p)) => r matches Ok(v) && v@ == b && final(stream).position() == p,
            Err(e) => r == Err::<Vec<u8>, ImageError>(e),
        },
{
    if n > stream.bytes.len() - stream.pos {
        return Err(ImageError::UnexpectedEnd);
    }
    let start: usize = stream.pos;
    let mut out: Vec<u8> = Vec::new();
    let mut i: usize = 0;
    while i < n
        invariant
            start == stream.pos,
            start + n <= stream.bytes.len(),
            i <= n,
            out@ == stream.bytes@.subrange(start as int, start + i),
        decreases n - i,
    {
        out.push(stream.bytes[start + i]);
        i += 1;
        assert(out@ =~= stream.bytes@.subrange(start as int, start + i));
    }
    stream.pos = start + n;
    Ok(out)
}

/// The value of up to eight little-endian bytes, written out term by term.
proof fn lemma_le_value_explicit(b: Seq<u8>)
    requires
        b.len() <= 8,
    ensures
        b.len() == 1 ==> le_value(b) == b[0],
        b.len() == 2 ==> le_value(b) == b[0] + 256 * b[1],
        b.len() == 3 ==> le_value(b) == b[0] + 256 * b[1] + 65536 * b[2],
        b.len() == 4 ==> le_value(b) == b[0] + 256 * b[1] + 65536 * b[2] + 16777216 * b[3],
        b.len() == 5 ==> le_value(b) == b[0] + 256 * b[1] + 65536 * b[2] + 16777216 * b[3]
            + 4294967296 * b[4],
        b.len() == 6 ==> le_value(b) == b[0] + 256 * b[1] + 65536 * b[2] + 16777216 * b[3]
            + 4294967296 * b[4] + 1099511627776 * b[5],
        b.len() == 7 ==> le_value(b) == b[0] + 256 * b[1] + 65536 * b[2] + 16777216 * b[3]
            + 4294967296 * b[4] + 1099511627776 * b[5] + 281474976710656 * b[6],
        b.len() == 8 ==> le_value(b) == b[0] + 256 * b[1] + 65536 * b[2] + 16777216 * b[3]
            + 4294967296 * b[4] + 1099511627776 * b[5] + 281474976710656 * b[6]
            + 72057594037927936 * b[7],
    decreases b.len(),
{
    if b.len() > 0 {
        lemma_le_value_explicit(b.drop_first());
        assert(le_value(b) == b[0] + 256 * le_value(b.drop_first()));
    }
}

/// Reads a single byte.
pub fn read_u8(stream: &mut Stream) -> (r: Result<u8, ImageError>)
    requires
        old(stream).wf(),
    ensures
        final(stream).wf(),
        final(stream).data() == old(stream).data(),
        match spec_u8(old(stream).data(), old(stream).position()) {
            Ok((v, p)) => r == Ok::<u8, ImageError>(v) && final(stream).position() == p,
            Err(e) => r == Err::<u8, ImageError>(e),
        },
{
    if stream.pos >= stream.bytes.len() {
        return Err(ImageError::UnexpectedEnd);
    }
    let b: u8 = stream.bytes[stream.pos];
    stream.pos = stream.pos + 1;
    Ok(b)
}

/// Reads a little-endian `u16`.
pub fn read_u16(stream: &mut Stream) -> (r: Result<u16, ImageError>)
    requires
        old(stream).wf(),
    ensures
        final(stream).wf(),
        final(stream).data() == old(stream).data(),
        match spec_u16(old(stream).data(), old(stream).position()) {
            Ok((v, p)) => r == Ok::<u16, ImageError>(v) && final(stream).position() == p,
            Err(e) => r == Err::<u16, ImageError>(e),
        },
{
    let b = read_bytes(stream, 2)?;
    proof {
        lemma_le_value_explicit(b@);
    }
    Ok((b[0] as u16) + (b[1] as u16) * 256)
}

/// Reads a little-endian `u32`.
pub fn read_u32(stream: &mut Stream) -> (r: Result<u32, ImageError>)
    requires
        old(stream).wf(),
    ensures
        final(stream).wf(),
        final(stream).data() == old(stream).data(),
        match spec_u32(old(stream).data(), old(stream).position()) {
            Ok((v, p)) => r == Ok::<u32, ImageError>(v) && final(stream).position() == p,
            Err(e) => r == Err::<u32, ImageError>(e),
        },
{
    let b = read_bytes(stream, 4)?;
    proof {
        lemma_le_value_explicit(b@);
    }
    Ok((b[0] as u32) + (b[1] as u32) * 256 + (b[2] as u32) * 65536 + (b[3] as u32) * 16777216)
}

/// Reads a little-endian `u16`, as a `usize`.
pub fn read_u16_as_usize(stream: &mut Stream) -> (r: Result<usize, ImageError>)
    requires
        old(stream).wf(),
    ensures
        final(stream).wf(),
        final(stream).data() == old(stream).data(),
        match spec_u16(old(stream).data(), old(stream).position()) {
            Ok((v, p)) => r == Ok::<usize, ImageError>(v as usize) && final(stream).position() == p,
            Err(e) => r == Err::<usize, ImageError>(e),
        },
{
    let v = read_u16(stream)?;
    Ok(v as usize)
}

/// Reads a little-endian `u64`.
pub fn read_u64(stream: &mut Stream) -> (r: Result<u64, ImageError>)
    requires
        old(stream).wf(),
    ensures
        final(stream).wf(),
        final(stream).data() == old(stream).data(),
        match spec_u64(old(stream).data(), old(stream).position()) {
            Ok((v, p)) => r == Ok::<u64, ImageError>(v) && final(stream).position() == p,
            Err(e) => r == Err::<u64, ImageError>(e),
        },
{
    let b = read_bytes(stream, 8)?;
    proof {
        lemma_le_value_explicit(b@);
    }
    Ok((b[0] as u64) + (b[1] as u64) * 256 + (b[2] as u64) * 65536 + (b[3] as u64) * 16777216
        + (b[4] as u64) * 4294967296 + (b[5] as u64) * 1099511627776
        + (b[6] as u64) * 281474976710656 + (b[7] as u64) * 72057594037927936)
}

/// Reads a little-endian, two's complement `i64`.
pub fn read_i64(stream: &mut Stream) -> (r: Result<i64, ImageError>)
    requires
        old(stream).wf(),
    ensures
        final(stream).wf(),
        final(stream).data() == old(stream).data(),
        match spec_i64(old(stream).data(), old(stream).position()) {
            Ok((v, p)) => r == Ok::<i64, ImageError>(v) && final(stream).position() == p,
            Err(e) => r == Err::<i64, ImageError>(e),
        },
{
    let v = read_u64(stream)?;
    Ok(v as i64)
}

/// Decodes UTF-8 bytes into a string, if they are valid UTF-8.
///
/// Calls `String::from_utf8`, which (as its documentation states) succeeds
/// exactly when the bytes are valid UTF-8, and then holds the characters that
/// the bytes encode.
#[verifier::external_body]
fn string_from_utf8(bytes: Vec<u8>) -> (r: Option<String>)
    ensures
        r.is_some() <==> valid_utf8(bytes@),
        r matches Some(s) ==> s@ == decode_utf8(bytes@),
{
    String::from_utf8(bytes).ok()
}

/// Reads a string: a `u32` byte count followed by that many bytes of UTF-8.
pub fn read_string(stream: &mut Stream) -> (r: Result<String, ImageError>)
    requires
        old(stream).wf(),
    ensures
        final(stream).wf(),
        final(stream).data() == old(stream).data(),
        match spec_string(old(stream).data(), old(stream).position()) {
            Ok((v, p)) => r matches Ok(x) && x@ == v && final(stream).position() == p,
            Err(e) => r matches Err(x) && x == e,
        },
{
    let size = read_u32(stream)?;
    let buff = read_bytes(stream, size as usize)?;
    match string_from_utf8(buff) {
        Some(s) => Ok(s),
        None => Err(ImageError::InvalidUtf8),
    }
}

/// Reading `n` items one after the other, each with `item`.
pub open spec fn spec_repeat<T>(
    s: Seq<u8>,
    pos: int,
    n: nat,
    item: spec_fn(Seq<u8>, int) -> SpecRead<T>,
) -> SpecRead<Seq<T>>
    decreases n,
{
    if n == 0 {
        Ok((Seq::empty(), pos))
    } else {
        match spec_repeat(s, pos, (n - 1) as nat, item) {
            Err(e) => Err(e),
            Ok((xs, p)) => match item(s, p) {
                Err(e) => Err(e),
                Ok((x, p2)) => Ok((xs.push(x), p2)),
            },
        }
    }
}

/// Once reading `k` items fails, reading more items fails the same way.
proof fn lemma_repeat_error<T>(
    s: Seq<u8>,
    pos: int,
    k: nat,
    n: nat,
    item: spec_fn(Seq<u8>, int) -> SpecRead<T>,
)
    requires
        k <= n,
        spec_repeat(s, pos, k, item) is Err,
    ensures
        spec_repeat(s, pos, n, item) == spec_repeat(s, pos, k, item),
    decreases n - k,
{
    if k < n {
        lemma_repeat_error(s, pos, k, (n - 1) as nat, item);
    }
}

/// Reading a string, as an item of a list.
pub open spec fn string_item() -> spec_fn(Seq<u8>, int) -> SpecRead<Seq<char>> {
    |s: Seq<u8>, p: int| spec_string(s, p)
}

/// Reading a list of strings preceded by a `u8` count (argument names and
/// class fields).
pub open spec fn spec_string_list_u8(s: Seq<u8>, pos: int) -> SpecRead<Seq<Seq<char>>> {
    match spec_u8(s, pos) {
        Err(e) => Err(e),
        Ok((n, p)) => spec_repeat(s, p, n as nat, string_item()),
    }
}

/// Reads `amount` strings.
fn read_strings(stream: &mut Stream, amount: usize) -> (r: Result<Vec<String>, ImageError>)
    requires
        old(stream).wf(),
    ensures
        final(stream).wf(),
        final(stream).data() == old(stream).data(),
        match spec_repeat(old(stream).data(), old(stream).position(), amount as nat, string_item()) {
            Ok((v, p)) => r matches Ok(x) && x.deep_view() == v && final(stream).position() == p,
            Err(e) => r matches Err(x) && x == e,
        },
{
    let ghost data = stream.data();
    let ghost p0 = stream.position();
    let mut buff: Vec<String> = Vec::new();
    assert(buff.deep_view() =~= Seq::<Seq<char>>::empty());
    let mut i: usize = 0;
    while i < amount
        invariant
            stream.wf(),
            stream.data() == data,
            data == old(stream).data(),
            p0 == old(stream).position(),
            i <= amount,
            spec_repeat(data, p0, i as nat, string_item()) == Ok::<(Seq<Seq<char>>, int), ImageError>((buff.deep_view(), stream.position())),
        decreases amount - i,
    {
        let ghost before = buff.deep_view();
        match read_string(stream) {
            Ok(v) => {
                buff.push(v);
                assert(buff.deep_view() =~= before.push(v@));
            },
            Err(e) => {
                proof {
                    lemma_repeat_error(data, p0, (i + 1) as nat, amount as nat, string_item());
                }
                return Err(e);
            },
        }
        i += 1;
    }
    Ok(buff)
}

/// Reads the names of a method's arguments.
pub fn read_argument_names(stream: &mut Stream) -> (r: Result<Vec<String>, ImageError>)
    requires
        old(stream).wf(),
    ensures
        final(stream).wf(),
        final(stream).data() == old(stream).data(),
        match spec_string_list_u8(old(stream).data(), old(stream).position()) {
            Ok((v, p)) => r matches Ok(x) && x.deep_view() == v && final(stream).position() == p,
            Err(e) => r matches Err(x) && x == e,
        },
{
    let amount = read_u8(stream)?;
    read_strings(stream, amount as usize)
}

/// Reads the names of a class's fields.
pub fn read_class_fields(stream: &mut Stream) -> (r: Result<Vec<String>, ImageError>)
    requires
        old(stream).wf(),
    ensures
        final(stream).wf(),
        final(stream).data() == old(stream).data(),
        match spec_string_list_u8(old(stream).data(), old(stream).position()) {
            Ok((v, p)) => r matches Ok(x) && x.deep_view() == v && final(stream).position() == p,
            Err(e) => r matches Err(x) && x == e,
        },
{
    let amount = read_u8(stream)?;
    read_strings(stream, amount as usize)
}

/// Reading a `u16`, as an item of a list.
pub open spec fn u16_item() -> spec_fn(Seq<u8>, int) -> SpecRead<u16> {
    |s: Seq<u8>, p: int| spec_u16(s, p)
}

/// The opcode that a valid opcode byte encodes.
pub open spec fn opcode_for_byte(b: u8) -> Opcode {
    choose|op: Opcode| opcode_byte(op) == b
}

/// Instruction arguments padded with zeros to six arguments.
pub open spec fn padded_arguments(args: Seq<u16>) -> Seq<u16> {
    args + Seq::new((6 - args.len()) as nat, |i: int| 0u16)
}

/// The parts of an instruction: its opcode, its six arguments and its line.
pub open spec fn instruction_parts(ins: Instruction) -> (Opcode, Seq<u16>, u16) {
    (ins.opcode, ins.args(), ins.line)
}

/// Reading an instruction: an opcode byte, a `u8` argument count (at most
/// six), that many `u16` arguments and a `u16` line number.
pub open spec fn spec_instruction(s: Seq<u8>, pos: int) -> SpecRead<(Opcode, Seq<u16>, u16)> {
    match spec_u8(s, pos) {
        Err(e) => Err(e),
        Ok((op, p1)) => if op >= OPCODE_COUNT {
            Err(ImageError::InvalidOpcode(op))
        } else {
            match spec_u8(s, p1) {
                Err(e) => Err(e),
                Ok((amount, p2)) => if amount > MAX_INSTRUCTION_ARGUMENTS {
                    Err(ImageError::TooManyArguments(amount))
                } else {
                    match spec_repeat(s, p2, amount as nat, u16_item()) {
                        Err(e) => Err(e),
                        Ok((args, p3)) => match spec_u16(s, p3) {
                            Err(e) => Err(e),
                            Ok((line, p4)) => Ok(
                                ((opcode_for_byte(op), padded_arguments(args), line), p4),
                            ),
                        },
                    }
                }
            }
        },
    }
}

/// Reading an instruction, as an item of a list.
pub open spec fn instruction_item() -> spec_fn(Seq<u8>, int) -> SpecRead<(Opcode, Seq<u16>, u16)> {
    |s: Seq<u8>, p: int| spec_instruction(s, p)
}

/// Reading a list of instructions preceded by a `u32` count.
pub open spec fn spec_instructions(s: Seq<u8>, pos: int) -> SpecRead<Seq<(Opcode, Seq<u16>, u16)>> {
    match spec_u32(s, pos) {
        Err(e) => Err(e),
        Ok((n, p)) => spec_repeat(s, p, n as nat, instruction_item()),
    }
}

/// The parts of each instruction of a list.
pub open spec fn instructions_parts(v: Seq<Instruction>) -> Seq<(Opcode, Seq<u16>, u16)> {
    v.map_values(|i: Instruction| instruction_parts(i))
}

/// Reads a single instruction.
#[verifier::loop_isolation(false)]
pub fn read_instruction(stream: &mut Stream) -> (r: Result<Instruction, ImageError>)
    requires
        old(stream).wf(),
    ensures
        final(stream).wf(),
        final(stream).data() == old(stream).data(),
        match spec_instruction(old(stream).data(), old(stream).position()) {
            Ok((v, p)) => r matches Ok(x) && instruction_parts(x) == v && final(stream).position() == p,
            Err(e) => r matches Err(x) && x == e,
        },
{
    let op_byte = read_u8(stream)?;
    let opcode = match Opcode::from_byte(op_byte) {
        Some(op) => op,
        None => return Err(ImageError::InvalidOpcode(op_byte)),
    };
    proof {
        crate::instruction::lemma_opcode_byte_round_trip(opcode);
    }
    let amount = read_u8(stream)?;
    if amount > MAX_INSTRUCTION_ARGUMENTS {
        return Err(ImageError::TooManyArguments(amount));
    }
    let ghost data = stream.data();
    let ghost p2 = stream.position();
    let mut args: [u16; 6] = [0, 0, 0, 0, 0, 0];
    assert(args@.take(0) =~= Seq::<u16>::empty());
    let mut index: usize = 0;
    while index < amount as usize
        invariant
            stream.wf(),
            stream.data() == data,
            data == old(stream).data(),
            amount <= 6,
            index <= amount,
            args@.len() == 6,
            spec_repeat(data, p2, index as nat, u16_item()) == Ok::<(Seq<u16>, int), ImageError>((args@.take(index as int), stream.position())),
            forall|k: int| index <= k < 6 ==> args@[k] == 0,
        decreases amount - index,
    {
        let ghost before = args@.take(index as int);
        match read_u16(stream) {
            Ok(v) => {
                args[index] = v;
                assert(args@.take(index + 1) =~= before.push(v));
            },
            Err(e) => {
                proof {
                    lemma_repeat_error(data, p2, (index + 1) as nat, amount as nat, u16_item());
                }
                return Err(e);
            },
        }
        index += 1;
    }
    assert(args@ =~= padded_arguments(args@.take(amount as int)));
    let line = read_u16(stream)?;
    Ok(Instruction::new(opcode, args, line))
}

/// Reads a list of instructions preceded by a `u32` count.
#[verifier::loop_isolation(false)]
pub fn read_instructions(stream: &mut Stream) -> (r: Result<Vec<Instruction>, ImageError>)
    requires
        old(stream).wf(),
    ensures
        final(stream).wf(),
        final(stream).data() == old(stream).data(),
        match spec_instructions(old(stream).data(), old(stream).position()) {
            Ok((v, p)) => r matches Ok(x) && instructions_parts(x@) == v && final(stream).position() == p,
            Err(e) => r matches Err(x) && x == e,
        },
{
    let amount = read_u32(stream)?;
    let ghost data = stream.data();
    let ghost p0 = stream.position();
    let mut buff: Vec<Instruction> = Vec::new();
    assert(instructions_parts(buff@) =~= Seq::<(Opcode, Seq<u16>, u16)>::empty());
    let mut i: u32 = 0;
    while i < amount
        invariant
            stream.wf(),
            stream.data() == data,
            data == old(stream).data(),
            i <= amount,
            spec_repeat(data, p0, i as nat, instruction_item()) == Ok::<(Seq<(Opcode, Seq<u16>, u16)>, int), ImageError>((instructions_parts(buff@), stream.position())),
        decreases amount - i,
    {
        let ghost before = instructions_parts(buff@);
        match read_instruction(stream) {
            Ok(v) => {
                buff.push(v);
                assert(instructions_parts(buff@) =~= before.push(instruction_parts(v)));
            },
            Err(e) => {
                proof {
                    lemma_repeat_error(data, p0, (i + 1) as nat, amount as nat, instruction_item());
                }
                return Err(e);
            },
        }
        i += 1;
    }
    Ok(buff)
}

/// A literal value of a module.
#[derive(Debug, PartialEq)]
pub enum Literal {
    /// A signed integer.
    Int(i64),
    /// An unsigned integer.
    UnsignedInt(u64),
    /// A float, as the bits of an IEEE 754 double.
    Float(u64),
    /// A string.
    String(String),
}

/// The value of a literal, with strings taken as characters.
pub enum LiteralView {
    Int(i64),
    UnsignedInt(u64),
    Float(u64),
    String(Seq<char>),
}

impl DeepView for Literal {
    type V = LiteralView;

    open spec fn deep_view(&self) -> LiteralView {
        match self {
            Literal::Int(v) => LiteralView::Int(*v),
            Literal::UnsignedInt(v) => LiteralView::UnsignedInt(*v),
            Literal::Float(v) => LiteralView::Float(*v),
            Literal::String(v) => LiteralView::String(v@),
        }
    }
}

/// Reading a literal: a `u8` type tag followed by its value.
pub open spec fn spec_literal(s: Seq<u8>, pos: int) -> SpecRead<LiteralView> {
    match spec_u8(s, pos) {
        Err(e) => Err(e),
        Ok((tag, p)) => if tag == LITERAL_INTEGER {
            match spec_i64(s, p) {
                Err(e) => Err(e),
                Ok((v, p2)) => Ok((LiteralView::Int(v), p2)),
            }
        } else if tag == LITERAL_UNSIGNED_INTEGER {
            match spec_u64(s, p) {
                Err(e) => Err(e),
                Ok((v, p2)) => Ok((LiteralView::UnsignedInt(v), p2)),
            }
        } else if tag == LITERAL_FLOAT {
            match spec_u64(s, p) {
                Err(e) => Err(e),
                Ok((v, p2)) => Ok((LiteralView::Float(v), p2)),
            }
        } else if tag == LITERAL_STRING {
            match spec_string(s, p) {
                Err(e) => Err(e),
                Ok((v, p2)) => Ok((LiteralView::String(v), p2)),
            }
        } else {
            Err(ImageError::InvalidLiteralType(tag))
        },
    }
}

/// Reading a literal, as an item of a list.
pub open spec fn literal_item() -> spec_fn(Seq<u8>, int) -> SpecRead<LiteralView> {
    |s: Seq<u8>, p: int| spec_literal(s, p)
}

/// Reading a list of literals preceded by a `u32` count.
pub open spec fn spec_literals(s: Seq<u8>, pos: int) -> SpecRead<Seq<LiteralView>> {
    match spec_u32(s, pos) {
        Err(e) => Err(e),
        Ok((n, p)) => spec_repeat(s, p, n as nat, literal_item()),
    }
}

/// Reads a single literal.
pub fn read_literal(stream: &mut Stream) -> (r: Result<Literal, ImageError>)
    requires
        old(stream).wf(),
    ensures
        final(stream).wf(),
        final(stream).data() == old(stream).data(),
        match spec_literal(old(stream).data(), old(stream).position()) {
            Ok((v, p)) => r matches Ok(x) && x.deep_view() == v && final(stream).position() == p,
            Err(e) => r matches Err(x) && x == e,
        },
{
    let literal_type = read_u8(stream)?;
    let literal = if literal_type == LITERAL_INTEGER {
        Literal::Int(read_i64(stream)?)
    } else if literal_type == LITERAL_UNSIGNED_INTEGER {
        Literal::UnsignedInt(read_u64(stream)?)
    } else if literal_type == LITERAL_FLOAT {
        Literal::Float(read_u64(stream)?)
    } else if literal_type == LITERAL_STRING {
        Literal::String(read_string(stream)?)
    } else {
        return Err(ImageError::InvalidLiteralType(literal_type));
    };
    Ok(literal)
}

/// Reads a list of literals preceded by a `u32` count.
#[verifier::loop_isolation(false)]
pub fn read_literals(stream: &mut Stream) -> (r: Result<Vec<Literal>, ImageError>)
    requires
        old(stream).wf(),
    ensures
        final(stream).wf(),
        final(stream).data() == old(stream).data(),
        match spec_literals(old(stream).data(), old(stream).position()) {
            Ok((v, p)) => r matches Ok(x) && x.deep_view() == v && final(stream).position() == p,
            Err(e) => r matches Err(x) && x == e,
        },
{
    let amount = read_u32(stream)?;
    let ghost data = stream.data();
    let ghost p0 = stream.position();
    let mut buff: Vec<Literal> = Vec::new();
    assert(buff.deep_view() =~= Seq::<LiteralView>::empty());
    let mut i: u32 = 0;
    while i < amount
        invariant
            stream.wf(),
            stream.data() == data,
            i <= amount,
            spec_repeat(data, p0, i as nat, literal_item()) == Ok::<(Seq<LiteralView>, int), ImageError>((buff.deep_view(), stream.position())),
        decreases amount - i,
    {
        let ghost before = buff.deep_view();
        match read_literal(stream) {
            Ok(v) => {
                let ghost vv = v.deep_view();
                buff.push(v);
                assert(buff.deep_view() =~= before.push(vv));
            },
            Err(e) => {
                proof {
                    lemma_repeat_error(data, p0, (i + 1) as nat, amount as nat, literal_item());
                }
                return Err(e);
            },
        }
        i += 1;
    }
    Ok(buff)
}

/// The data of a method read from an image.
pub struct MethodData {
    /// The hash of the method's name, used for dynamic dispatch.
    pub hash: u32,
    /// The name of the method.
    pub name: String,
    /// The path of the source file the method is defined in.
    pub file: String,
    /// The line the method is defined on.
    pub line: u16,
    /// The number of local variables (including arguments).
    pub locals: u16,
    /// The number of registers required.
    pub registers: u16,
    /// The names of the arguments.
    pub arguments: Vec<String>,
    /// The instructions to execute.
    pub instructions: Vec<Instruction>,
}

/// The value of a method's data, with strings taken as characters.
pub struct MethodView {
    pub hash: u32,
    pub name: Seq<char>,
    pub file: Seq<char>,
    pub line: u16,
    pub locals: u16,
    pub registers: u16,
    pub arguments: Seq<Seq<char>>,
    pub instructions: Seq<(Opcode, Seq<u16>, u16)>,
}

impl DeepView for MethodData {
    type V = MethodView;

    open spec fn deep_view(&self) -> MethodView {
        MethodView {
            hash: self.hash,
            name: self.name@,
            file: self.file@,
            line: self.line,
            locals: self.locals,
            registers: self.registers,
            arguments: self.arguments.deep_view(),
            instructions: instructions_parts(self.instructions@),
        }
    }
}

/// Reading a method: a `u32` hash, name, file, `u16` line, locals and
/// registers, the argument names and the instructions.
pub open spec fn spec_method(s: Seq<u8>, pos: int) -> SpecRead<MethodView> {
    match spec_u32(s, pos) {
        Err(e) => Err(e),
        Ok((hash, p1)) => match spec_string(s, p1) {
            Err(e) => Err(e),
            Ok((name, p2)) => match spec_string(s, p2) {
                Err(e) => Err(e),
                Ok((file, p3)) => match spec_u16(s, p3) {
                    Err(e) => Err(e),
                    Ok((line, p4)) => match spec_u16(s, p4) {
                        Err(e) => Err(e),
                        Ok((locals, p5)) => match spec_u16(s, p5) {
                            Err(e) => Err(e),
                            Ok((registers, p6)) => match spec_string_list_u8(s, p6) {
                                Err(e) => Err(e),
                                Ok((arguments, p7)) => match spec_instructions(s, p7) {
                                    Err(e) => Err(e),
                                    Ok((instructions, p8)) => Ok(
                                        (
                                            MethodView {
                                                hash,
                                                name,
                                                file,
                                                line,
                                                locals,
                                                registers,
                                                arguments,
                                                instructions,
                                            },
                                            p8,
                                        ),
                                    ),
                                },
                            },
                        },
                    },
                },
            },
        },
    }
}

/// Reads a single method.
pub fn read_method(stream: &mut Stream) -> (r: Result<MethodData, ImageError>)
    requires
        old(stream).wf(),
    ensures
        final(stream).wf(),
        final(stream).data() == old(stream).data(),
        match spec_method(old(stream).data(), old(stream).position()) {
            Ok((v, p)) => r matches Ok(x) && x.deep_view() == v && final(stream).position() == p,
            Err(e) => r matches Err(x) && x == e,
        },
{
    let hash = read_u32(stream)?;
    let name = read_string(stream)?;
    let file = read_string(stream)?;
    let line = read_u16(stream)?;
    let locals = read_u16(stream)?;
    let registers = read_u16(stream)?;
    let arguments = read_argument_names(stream)?;
    let instructions = read_instructions(stream)?;
    Ok(MethodData { hash, name, file, line, locals, registers, arguments, instructions })
}

/// A method together with the index of the method table slot it goes into.
pub struct IndexedMethod {
    /// The slot of the method in its class's method table.
    pub index: u16,
    /// The method.
    pub method: MethodData,
}

impl DeepView for IndexedMethod {
    type V = (u16, MethodView);

    open spec fn deep_view(&self) -> (u16, MethodView) {
        (self.index, self.method.deep_view())
    }
}

/// Reading a method preceded by the `u16` index of its slot.
pub open spec fn spec_indexed_method(s: Seq<u8>, pos: int) -> SpecRead<(u16, MethodView)> {
    match spec_u16(s, pos) {
        Err(e) => Err(e),
        Ok((index, p)) => match spec_method(s, p) {
            Err(e) => Err(e),
            Ok((m, p2)) => Ok(((index, m), p2)),
        },
    }
}

/// Reading an indexed method, as an item of a list.
pub open spec fn indexed_method_item() -> spec_fn(Seq<u8>, int) -> SpecRead<(u16, MethodView)> {
    |s: Seq<u8>, p: int| spec_indexed_method(s, p)
}

/// Reads `amount` methods, each preceded by the index of its slot.
#[verifier::loop_isolation(false)]
pub fn read_methods(stream: &mut Stream, amount: u16) -> (r: Result<Vec<IndexedMethod>, ImageError>)
    requires
        old(stream).wf(),
    ensures
        final(stream).wf(),
        final(stream).data() == old(stream).data(),
        match spec_repeat(old(stream).data(), old(stream).position(), amount as nat, indexed_method_item()) {
            Ok((v, p)) => r matches Ok(x) && x.deep_view() == v && final(stream).position() == p,
            Err(e) => r matches Err(x) && x == e,
        },
{
    let ghost data = stream.data();
    let ghost p0 = stream.position();
    let mut buff: Vec<IndexedMethod> = Vec::new();
    assert(buff.deep_view() =~= Seq::<(u16, MethodView)>::empty());
    let mut i: u16 = 0;
    while i < amount
        invariant
            stream.wf(),
            stream.data() == data,
            i <= amount,
            spec_repeat(data, p0, i as nat, indexed_method_item()) == Ok::<(Seq<(u16, MethodView)>, int), ImageError>((buff.deep_view(), stream.position())),
        decreases amount - i,
    {
        let ghost before = buff.deep_view();
        let index = match read_u16(stream) {
            Ok(v) => v,
            Err(e) => {
                proof {
                    lemma_repeat_error(data, p0, (i + 1) as nat, amount as nat, indexed_method_item());
                }
                return Err(e);
            },
        };
        match read_method(stream) {
            Ok(method) => {
                let entry = IndexedMethod { index, method };
                let ghost ev = entry.deep_view();
                buff.push(entry);
                assert(buff.deep_view() =~= before.push(ev));
            },
            Err(e) => {
                proof {
                    lemma_repeat_error(data, p0, (i + 1) as nat, amount as nat, indexed_method_item());
                }
                return Err(e);
            },
        }
        i += 1;
    }
    Ok(buff)
}

/// The data of a class read from an image.
pub struct ClassData {
    /// The kind of the class: 0 for a regular class, 1 for a process class,
    /// and 2 to 14 for one of the built-in classes.
    pub kind: u8,
    /// The name of the class.
    pub name: String,
    /// The names of the fields of the class.
    pub fields: Vec<String>,
    /// The methods of the class.
    pub methods: Vec<IndexedMethod>,
}

/// The value of a class's data, with strings taken as characters.
pub struct ClassView {
    pub kind: u8,
    pub name: Seq<char>,
    pub fields: Seq<Seq<char>>,
    pub methods: Seq<(u16, MethodView)>,
}

impl DeepView for ClassData {
    type V = ClassView;

    open spec fn deep_view(&self) -> ClassView {
        ClassView {
            kind: self.kind,
            name: self.name@,
            fields: self.fields.deep_view(),
            methods: self.methods.deep_view(),
        }
    }
}

/// Reading a class: a `u8` kind, the name, the field names, a `u16` method
/// count and that many indexed methods. The kind is checked once the method
/// count has been read.
pub open spec fn spec_class(s: Seq<u8>, pos: int) -> SpecRead<ClassView> {
    match spec_u8(s, pos) {
        Err(e) => Err(e),
        Ok((kind, p1)) => match spec_string(s, p1) {
            Err(e) => Err(e),
            Ok((name, p2)) => match spec_string_list_u8(s, p2) {
                Err(e) => Err(e),
                Ok((fields, p3)) => match spec_u16(s, p3) {
                    Err(e) => Err(e),
                    Ok((num_methods, p4)) => if kind > MAX_CLASS_KIND {
                        Err(ImageError::InvalidClassKind(kind))
                    } else {
                        match spec_repeat(s, p4, num_methods as nat, indexed_method_item()) {
                            Err(e) => Err(e),
                            Ok((methods, p5)) => Ok((ClassView { kind, name, fields, methods }, p5)),
                        }
                    },
                },
            },
        },
    }
}

/// Reading a class, as an item of a list.
pub open spec fn class_item() -> spec_fn(Seq<u8>, int) -> SpecRead<ClassView> {
    |s: Seq<u8>, p: int| spec_class(s, p)
}

/// Reading a list of classes preceded by a `u16` count.
pub open spec fn spec_classes(s: Seq<u8>, pos: int) -> SpecRead<Seq<ClassView>> {
    match spec_u16(s, pos) {
        Err(e) => Err(e),
        Ok((n, p)) => spec_repeat(s, p, n as nat, class_item()),
    }
}

/// Reads a single class.
pub fn read_class(stream: &mut Stream) -> (r: Result<ClassData, ImageError>)
    requires
        old(stream).wf(),
    ensures
        final(stream).wf(),
        final(stream).data() == old(stream).data(),
        match spec_class(old(stream).data(), old(stream).position()) {
            Ok((v, p)) => r matches Ok(x) && x.deep_view() == v && final(stream).position() == p,
            Err(e) => r matches Err(x) && x == e,
        },
{
    let kind = read_u8(stream)?;
    let name = read_string(stream)?;
    let fields = read_class_fields(stream)?;
    let num_methods = read_u16(stream)?;
    if kind > MAX_CLASS_KIND {
        return Err(ImageError::InvalidClassKind(kind));
    }
    let methods = read_methods(stream, num_methods)?;
    Ok(ClassData { kind, name, fields, methods })
}

/// Reads a list of classes preceded by a `u16` count.
#[verifier::loop_isolation(false)]
pub fn read_classes(stream: &mut Stream) -> (r: Result<Vec<ClassData>, ImageError>)
    requires
        old(stream).wf(),
    ensures
        final(stream).wf(),
        final(stream).data() == old(stream).data(),
        match spec_classes(old(stream).data(), old(stream).position()) {
            Ok((v, p)) => r matches Ok(x) && x.deep_view() == v && final(stream).position() == p,
            Err(e) => r matches Err(x) && x == e,
        },
{
    let amount = read_u16_as_usize(stream)?;
    let ghost data = stream.data();
    let ghost p0 = stream.position();
    let mut buff: Vec<ClassData> = Vec::new();
    assert(buff.deep_view() =~= Seq::<ClassView>::empty());
    let mut i: usize = 0;
    while i < amount
        invariant
            stream.wf(),
            stream.data() == data,
            i <= amount,
            spec_repeat(data, p0, i as nat, class_item()) == Ok::<(Seq<ClassView>, int), ImageError>((buff.deep_view(), stream.position())),
        decreases amount - i,
    {
        let ghost before = buff.deep_view();
        match read_class(stream) {
            Ok(v) => {
                let ghost vv = v.deep_view();
                buff.push(v);
                assert(buff.deep_view() =~= before.push(vv));
            },
            Err(e) => {
                proof {
                    lemma_repeat_error(data, p0, (i + 1) as nat, amount as nat, class_item());
                }
                return Err(e);
            },
        }
        i += 1;
    }
    Ok(buff)
}

/// The data of a module read from an image.
pub struct ModuleData {
    /// The name of the module, which is also the name of its class.
    pub name: String,
    /// The path of the module's source file.
    pub path: String,
    /// The number of global variables of the module.
    pub globals: u16,
    /// The number of methods of the module's class.
    pub num_methods: u16,
    /// The literals of the module.
    pub literals: Vec<Literal>,
    /// The classes defined in the module.
    pub classes: Vec<ClassData>,
    /// The methods of the module's class.
    pub methods: Vec<IndexedMethod>,
}

/// The value of a module's data, with strings taken as characters.
pub struct ModuleView {
    pub name: Seq<char>,
    pub path: Seq<char>,
    pub globals: u16,
    pub num_methods: u16,
    pub literals: Seq<LiteralView>,
    pub classes: Seq<ClassView>,
    pub methods: Seq<(u16, MethodView)>,
}

impl DeepView for ModuleData {
    type V = ModuleView;

    open spec fn deep_view(&self) -> ModuleView {
        ModuleView {
            name: self.name@,
            path: self.path@,
            globals: self.globals,
            num_methods: self.num_methods,
            literals: self.literals.deep_view(),
            classes: self.classes.deep_view(),
            methods: self.methods.deep_view(),
        }
    }
}

/// Reading a module: its name and path, `u16` global and method counts, the
/// literals, the classes and the module's own methods.
pub open spec fn spec_module(s: Seq<u8>, pos: int) -> SpecRead<ModuleView> {
    match spec_string(s, pos) {
        Err(e) => Err(e),
        Ok((name, p1)) => match spec_string(s, p1) {
            Err(e) => Err(e),
            Ok((path, p2)) => match spec_u16(s, p2) {
                Err(e) => Err(e),
                Ok((globals, p3)) => match spec_u16(s, p3) {
                    Err(e) => Err(e),
                    Ok((num_methods, p4)) => match spec_literals(s, p4) {
                        Err(e) => Err(e),
                        Ok((literals, p5)) => match spec_classes(s, p5) {
                            Err(e) => Err(e),
                            Ok((classes, p6)) => match spec_repeat(
                                s,
                                p6,
                                num_methods as nat,
                                indexed_method_item(),
                            ) {
                                Err(e) => Err(e),
                                Ok((methods, p7)) => Ok(
                                    (
                                        ModuleView {
                                            name,
                                            path,
                                            globals,
                                            num_methods,
                                            literals,
                                            classes,
                                            methods,
                                        },
                                        p7,
                                    ),
                                ),
                            },
                        },
                    },
                },
            },
        },
    }
}

/// Reads a single module.
pub fn read_module(stream: &mut Stream) -> (r: Result<ModuleData, ImageError>)
    requires
        old(stream).wf(),
    ensures
        final(stream).wf(),
        final(stream).data() == old(stream).data(),
        match spec_module(old(stream).data(), old(stream).position()) {
            Ok((v, p)) => r matches Ok(x) && x.deep_view() == v && final(stream).position() == p,
            Err(e) => r matches Err(x) && x == e,
        },
{
    let name = read_string(stream)?;
    let path = read_string(stream)?;
    let globals = read_u16(stream)?;
    let num_methods = read_u16(stream)?;
    let literals = read_literals(stream)?;
    let classes = read_classes(stream)?;
    let methods = read_methods(stream, num_methods)?;
    Ok(ModuleData { name, path, globals, num_methods, literals, classes, methods })
}

/// The method counts made of twelve `u16` values, in the order of the
/// struct's fields.
pub open spec fn counts_from(v: Seq<u16>) -> MethodCounts {
    MethodCounts {
        int_class: v[0],
        unsigned_int_class: v[1],
        float_class: v[2],
        string_class: v[3],
        array_class: v[4],
        method_class: v[5],
        boolean_class: v[6],
        nil_class: v[7],
        byte_array_class: v[8],
        generator_class: v[9],
        future_class: v[10],
        client_class: v[11],
    }
}

/// Reading the method counts of the built-in classes: twelve `u16` values.
pub open spec fn spec_method_counts(s: Seq<u8>, pos: int) -> SpecRead<MethodCounts> {
    match spec_repeat(s, pos, 12, u16_item()) {
        Err(e) => Err(e),
        Ok((v, p)) => Ok((counts_from(v), p)),
    }
}

/// Reads the method counts of the built-in classes.
#[verifier::loop_isolation(false)]
pub fn read_builtin_method_counts(stream: &mut Stream) -> (r: Result<MethodCounts, ImageError>)
    requires
        old(stream).wf(),
    ensures
        final(stream).wf(),
        final(stream).data() == old(stream).data(),
        match spec_method_counts(old(stream).data(), old(stream).position()) {
            Ok((v, p)) => r == Ok::<MethodCounts, ImageError>(v) && final(stream).position() == p,
            Err(e) => r == Err::<MethodCounts, ImageError>(e),
        },
{
    let ghost data = stream.data();
    let ghost p0 = stream.position();
    let mut values: Vec<u16> = Vec::new();
    let mut i: usize = 0;
    while i < 12
        invariant
            stream.wf(),
            stream.data() == data,
            i <= 12,
            values@.len() == i,
            spec_repeat(data, p0, i as nat, u16_item()) == Ok::<(Seq<u16>, int), ImageError>((values@, stream.position())),
        decreases 12 - i,
    {
        match read_u16(stream) {
            Ok(v) => values.push(v),
            Err(e) => {
                proof {
                    lemma_repeat_error(data, p0, (i + 1) as nat, 12, u16_item());
                }
                return Err(e);
            },
        }
        i += 1;
    }
    Ok(MethodCounts {
        int_class: values[0],
        unsigned_int_class: values[1],
        float_class: values[2],
        string_class: values[3],
        array_class: values[4],
        method_class: values[5],
        boolean_class: values[6],
        nil_class: values[7],
        byte_array_class: values[8],
        generator_class: values[9],
        future_class: values[10],
        client_class: values[11],
    })
}

/// Reading the bytes of a module: a `u64` size followed by that many bytes.
pub open spec fn spec_chunk(s: Seq<u8>, pos: int) -> SpecRead<Seq<u8>> {
    match spec_u64(s, pos) {
        Err(e) => Err(e),
        Ok((n, p)) => spec_bytes(s, p, n as int),
    }
}

/// Reading the bytes of a module, as an item of a list.
pub open spec fn chunk_item() -> spec_fn(Seq<u8>, int) -> SpecRead<Seq<u8>> {
    |s: Seq<u8>, p: int| spec_chunk(s, p)
}

/// Parsing each module's bytes from their start, in order; the first module
/// that fails to parse decides the error.
pub open spec fn spec_parse_chunks(chunks: Seq<Seq<u8>>) -> Result<Seq<ModuleView>, ImageError>
    decreases chunks.len(),
{
    if chunks.len() == 0 {
        Ok(Seq::empty())
    } else {
        match spec_parse_chunks(chunks.drop_last()) {
            Err(e) => Err(e),
            Ok(ms) => match spec_module(chunks.last(), 0) {
                Err(e) => Err(e),
                Ok((m, _)) => Ok(ms.push(m)),
            },
        }
    }
}

/// Reading the modules: a `u64` module count, the bytes of each module, and
/// then the parsed modules.
pub open spec fn spec_modules(s: Seq<u8>, pos: int) -> SpecRead<Seq<ModuleView>> {
    match spec_u64(s, pos) {
        Err(e) => Err(e),
        Ok((n, p)) => match spec_repeat(s, p, n as nat, chunk_item()) {
            Err(e) => Err(e),
            Ok((chunks, p2)) => match spec_parse_chunks(chunks) {
                Err(e) => Err(e),
                Ok(ms) => Ok((ms, p2)),
            },
        },
    }
}

/// Once parsing some modules fails, parsing more modules fails the same way.
proof fn lemma_parse_chunks_error(chunks: Seq<Seq<u8>>, k: int)
    requires
        0 <= k <= chunks.len(),
        spec_parse_chunks(chunks.take(k)) is Err,
    ensures
        spec_parse_chunks(chunks) == spec_parse_chunks(chunks.take(k)),
    decreases chunks.len() - k,
{
    if k < chunks.len() {
        assert(chunks.take(k + 1).drop_last() =~= chunks.take(k));
        lemma_parse_chunks_error(chunks, k + 1);
    } else {
        assert(chunks.take(k) =~= chunks);
    }
}

/// The bytes of each chunk of a list.
pub open spec fn chunks_view(v: Seq<Vec<u8>>) -> Seq<Seq<u8>> {
    v.map_values(|c: Vec<u8>| c@)
}

/// Reads the bytes of `num_modules` modules.
#[verifier::loop_isolation(false)]
fn read_module_chunks(stream: &mut Stream, num_modules: u64) -> (r: Result<Vec<Vec<u8>>, ImageError>)
    requires
        old(stream).wf(),
    ensures
        final(stream).wf(),
        final(stream).data() == old(stream).data(),
        match spec_repeat(old(stream).data(), old(stream).position(), num_modules as nat, chunk_item()) {
            Ok((v, p)) => r matches Ok(x) && chunks_view(x@) == v && final(stream).position() == p,
            Err(e) => r matches Err(x) && x == e,
        },
{
    let ghost data = stream.data();
    let ghost p0 = stream.position();
    let mut chunks: Vec<Vec<u8>> = Vec::new();
    assert(chunks_view(chunks@) =~= Seq::<Seq<u8>>::empty());
    let mut i: u64 = 0;
    while i < num_modules
        invariant
            stream.wf(),
            stream.data() == data,
            i <= num_modules,
            spec_repeat(data, p0, i as nat, chunk_item()) == Ok::<(Seq<Seq<u8>>, int), ImageError>((chunks_view(chunks@), stream.position())),
        decreases num_modules - i,
    {
        let ghost before = chunks_view(chunks@);
        let amount = match read_u64(stream) {
            Ok(v) => v,
            Err(e) => {
                proof {
                    lemma_repeat_error(data, p0, (i + 1) as nat, num_modules as nat, chunk_item());
                }
                return Err(e);
            },
        };
        if amount > stream.bytes.len() as u64 {
            proof {
                lemma_repeat_error(data, p0, (i + 1) as nat, num_modules as nat, chunk_item());
            }
            return Err(ImageError::UnexpectedEnd);
        }
        match read_bytes(stream, amount as usize) {
            Ok(chunk) => {
                let ghost cv = chunk@;
                chunks.push(chunk);
                assert(chunks_view(chunks@) =~= before.push(cv));
            },
            Err(e) => {
                proof {
                    lemma_repeat_error(data, p0, (i + 1) as nat, num_modules as nat, chunk_item());
                }
                return Err(e);
            },
        }
        i += 1;
    }
    Ok(chunks)
}

/// Parses each module's bytes from their start, in order.
fn parse_module_chunks(chunks: &Vec<Vec<u8>>) -> (r: Result<Vec<ModuleData>, ImageError>)
    ensures
        match spec_parse_chunks(chunks_view(chunks@)) {
            Ok(v) => r matches Ok(x) && x.deep_view() == v,
            Err(e) => r matches Err(x) && x == e,
        },
{
    let ghost all = chunks_view(chunks@);
    let mut modules: Vec<ModuleData> = Vec::new();
    assert(modules.deep_view() =~= Seq::<ModuleView>::empty());
    assert(all.take(0) =~= Seq::<Seq<u8>>::empty());
    let mut j: usize = 0;
    let n: usize = chunks.len();
    while j < n
        invariant
            n == chunks.len(),
            all == chunks_view(chunks@),
            j <= n,
            spec_parse_chunks(all.take(j as int)) == Ok::<Seq<ModuleView>, ImageError>(modules.deep_view()),
        decreases n - j,
    {
        let ghost before = modules.deep_view();
        let chunk: Vec<u8> = chunks[j].clone();
        assert(chunk@ =~= all[j as int]);
        let mut chunk_stream = Stream::new(chunk);
        assert(all.take(j + 1).drop_last() =~= all.take(j as int));
        match read_module(&mut chunk_stream) {
            Ok(m) => {
                let ghost mv = m.deep_view();
                modules.push(m);
                assert(modules.deep_view() =~= before.push(mv));
            },
            Err(e) => {
                proof {
                    lemma_parse_chunks_error(all, j + 1);
                }
                return Err(e);
            },
        }
        j += 1;
    }
    assert(all.take(n as int) =~= all);
    Ok(modules)
}

/// Reads the bytes of all modules, then parses each of them.
pub fn read_modules(stream: &mut Stream) -> (r: Result<Vec<ModuleData>, ImageError>)
    requires
        old(stream).wf(),
    ensures
        final(stream).wf(),
        final(stream).data() == old(stream).data(),
        match spec_modules(old(stream).data(), old(stream).position()) {
            Ok((v, p)) => r matches Ok(x) && x.deep_view() == v && final(stream).position() == p,
            Err(e) => r matches Err(x) && x == e,
        },
{
    let num_modules = read_u64(stream)?;
    let chunks = read_module_chunks(stream, num_modules)?;
    parse_module_chunks(&chunks)
}

/// A parsed bytecode image.
pub struct Image {
    /// The name of the first module to run.
    pub entry_module: String,
    /// The index of the method of the entry module to run.
    pub entry_method: MethodIndex,
    /// The number of methods of each built-in class.
    pub counts: MethodCounts,
    /// The modules of the image.
    pub modules: Vec<ModuleData>,
    /// The settings to use when running the image.
    pub config: Config,
}

/// The value of an image, with strings taken as characters.
pub struct ImageView {
    pub entry_module: Seq<char>,
    pub entry_method: u16,
    pub counts: MethodCounts,
    pub modules: Seq<ModuleView>,
}

/// Reading an image: the signature bytes, the version byte, the method counts
/// of the built-in classes, the name of the entry module, the `u16` index of
/// the entry method and the modules.
pub open spec fn spec_image(s: Seq<u8>) -> Result<ImageView, ImageError> {
    match spec_bytes(s, 0, 4) {
        Err(e) => Err(e),
        Ok((sig, p1)) => if sig != SIGNATURE_BYTES@ {
            Err(ImageError::InvalidSignature)
        } else {
            match spec_u8(s, p1) {
                Err(e) => Err(e),
                Ok((version, p2)) => if version != VERSION {
                    Err(ImageError::UnsupportedVersion(version))
                } else {
                    match spec_method_counts(s, p2) {
                        Err(e) => Err(e),
                        Ok((counts, p3)) => match spec_string(s, p3) {
                            Err(e) => Err(e),
                            Ok((entry_module, p4)) => match spec_u16(s, p4) {
                                Err(e) => Err(e),
                                Ok((entry_method, p5)) => match spec_modules(s, p5) {
                                    Err(e) => Err(e),
                                    Ok((modules, _)) => Ok(
                                        ImageView { entry_module, entry_method, counts, modules },
                                    ),
                                },
                            },
                        },
                    }
                },
            }
        },
    }
}

impl Image {
    /// The value of this image, with strings taken as characters.
    pub open spec fn image_view(&self) -> ImageView {
        ImageView {
            entry_module: self.entry_module@,
            entry_method: self.entry_method.0,
            counts: self.counts,
            modules: self.modules.deep_view(),
        }
    }

    /// Loads a bytecode image from the start of a stream of bytes.
    pub fn load(config: Config, stream: &mut Stream) -> (r: Result<Image, ImageError>)
        requires
            old(stream).wf(),
            old(stream).position() == 0,
        ensures
            final(stream).wf(),
            final(stream).data() == old(stream).data(),
            match spec_image(old(stream).data()) {
                Ok(v) => r matches Ok(x) && x.image_view() == v && x.config == config,
                Err(e) => r matches Err(x) && x == e,
            },
    {
        let sig = read_bytes(stream, 4)?;
        if sig[0] != SIGNATURE_BYTES[0] || sig[1] != SIGNATURE_BYTES[1]
            || sig[2] != SIGNATURE_BYTES[2] || sig[3] != SIGNATURE_BYTES[3] {
            proof {
                assert(sig@ != SIGNATURE_BYTES@);
            }
            return Err(ImageError::InvalidSignature);
        }
        assert(sig@ =~= SIGNATURE_BYTES@);
        let version = read_u8(stream)?;
        if version != VERSION {
            return Err(ImageError::UnsupportedVersion(version));
        }
        let counts = read_builtin_method_counts(stream)?;
        let entry_module = read_string(stream)?;
        let entry_method = read_u16(stream)?;
        let modules = read_modules(stream)?;
        Ok(Image { entry_module, entry_method: MethodIndex::new(entry_method), counts, modules, config })
    }
}

} // verus!
