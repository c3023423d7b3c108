//! Virtual machine instructions: opcodes and fixed-width instructions.
use vstd::prelude::*;

verus! {

/// The number of opcodes; every byte below this value encodes an opcode.
pub const OPCODE_COUNT: u8 = 105;

/// All possible instruction types.
#[derive(Debug, PartialEq, Eq, Clone, Copy)]
pub enum Opcode {
    Allocate,
    ArrayAllocate,
    ArrayGet,
    ArrayLength,
    ArrayRemove,
    ArraySet,
    ByteArrayAllocate,
    ByteArrayEquals,
    ByteArrayGet,
    ByteArrayLength,
    ByteArrayRemove,
    ByteArraySet,
    CopyRegister,
    DecrementRef,
    Drop,
    DynamicCall,
    Exit,
    ExternalFunctionCall,
    ExternalFunctionLoad,
    FloatAdd,
    FloatDiv,
    FloatEquals,
    FloatGreater,
    FloatGreaterOrEqual,
    FloatMod,
    FloatMul,
    FloatSmaller,
    FloatSmallerOrEqual,
    FloatSub,
    FutureAllocate,
    FutureGet,
    FutureGetWithTimeout,
    FutureWrite,
    GeneratorAllocate,
    GeneratorResume,
    GeneratorValue,
    GeneratorYield,
    GetClass,
    GetCurrentModule,
    GetFalse,
    GetField,
    GetGlobal,
    GetLiteral,
    GetLiteralWide,
    GetLocal,
    GetNil,
    GetTrue,
    GetUndefined,
    Goto,
    GotoIfFalse,
    GotoIfThrown,
    GotoIfTrue,
    IncrementRef,
    IntAdd,
    IntBitwiseAnd,
    IntBitwiseOr,
    IntBitwiseXor,
    IntDiv,
    IntEquals,
    IntGreater,
    IntGreaterOrEqual,
    IntMod,
    IntMul,
    IntShiftLeft,
    IntShiftRight,
    IntSmaller,
    IntSmallerOrEqual,
    IntSub,
    LoadModule,
    MethodGet,
    MoveResult,
    ObjectEquals,
    Panic,
    ProcessAllocate,
    ProcessSendMessage,
    ProcessSetBlocking,
    ProcessSetPinned,
    ProcessSuspend,
    ProcessYield,
    Return,
    SetField,
    SetGlobal,
    SetLocal,
    StaticCall,
    StringByte,
    StringConcat,
    StringEquals,
    StringLength,
    StringSize,
    Throw,
    UnsignedIntAdd,
    UnsignedIntBitwiseAnd,
    UnsignedIntBitwiseOr,
    UnsignedIntBitwiseXor,
    UnsignedIntDiv,
    UnsignedIntEquals,
    UnsignedIntGreater,
    UnsignedIntGreaterOrEqual,
    UnsignedIntMod,
    UnsignedIntMul,
    UnsignedIntShiftLeft,
    UnsignedIntShiftRight,
    UnsignedIntSmaller,
    UnsignedIntSmallerOrEqual,
    UnsignedIntSub,
}

/// The byte that encodes an opcode in a bytecode image (its position in the
/// list of opcodes).
pub open spec fn opcode_byte(op: Opcode) -> u8 {
    match op {
        Opcode::Allocate => 0,
        Opcode::ArrayAllocate => 1,
        Opcode::ArrayGet => 2,
        Opcode::ArrayLength => 3,
        Opcode::ArrayRemove => 4,
        Opcode::ArraySet => 5,
        Opcode::ByteArrayAllocate => 6,
        Opcode::ByteArrayEquals => 7,
        Opcode::ByteArrayGet => 8,
        Opcode::ByteArrayLength => 9,
        Opcode::ByteArrayRemove => 10,
        Opcode::ByteArraySet => 11,
        Opcode::CopyRegister => 12,
        Opcode::DecrementRef => 13,
        Opcode::Drop => 14,
        Opcode::DynamicCall => 15,
        Opcode::Exit => 16,
        Opcode::ExternalFunctionCall => 17,
        Opcode::ExternalFunctionLoad => 18,
        Opcode::FloatAdd => 19,
        Opcode::FloatDiv => 20,
        Opcode::FloatEquals => 21,
        Opcode::FloatGreater => 22,
        Opcode::FloatGreaterOrEqual => 23,
        Opcode::FloatMod => 24,
        Opcode::FloatMul => 25,
        Opcode::FloatSmaller => 26,
        Opcode::FloatSmallerOrEqual => 27,
        Opcode::FloatSub => 28,
        Opcode::FutureAllocate => 29,
        Opcode::FutureGet => 30,
        Opcode::FutureGetWithTimeout => 31,
        Opcode::FutureWrite => 32,
        Opcode::GeneratorAllocate => 33,
        Opcode::GeneratorResume => 34,
        Opcode::GeneratorValue => 35,
        Opcode::GeneratorYield => 36,
        Opcode::GetClass => 37,
        Opcode::GetCurrentModule => 38,
        Opcode::GetFalse => 39,
        Opcode::GetField => 40,
        Opcode::GetGlobal => 41,
        Opcode::GetLiteral => 42,
        Opcode::GetLiteralWide => 43,
        Opcode::GetLocal => 44,
        Opcode::GetNil => 45,
        Opcode::GetTrue => 46,
        Opcode::GetUndefined => 47,
        Opcode::Goto => 48,
        Opcode::GotoIfFalse => 49,
        Opcode::GotoIfThrown => 50,
        Opcode::GotoIfTrue => 51,
        Opcode::IncrementRef => 52,
        Opcode::IntAdd => 53,
        Opcode::IntBitwiseAnd => 54,
        Opcode::IntBitwiseOr => 55,
        Opcode::IntBitwiseXor => 56,
        Opcode::IntDiv => 57,
        Opcode::IntEquals => 58,
        Opcode::IntGreater => 59,
        Opcode::IntGreaterOrEqual => 60,
        Opcode::IntMod => 61,
        Opcode::IntMul => 62,
        Opcode::IntShiftLeft => 63,
        Opcode::IntShiftRight => 64,
        Opcode::IntSmaller => 65,
        Opcode::IntSmallerOrEqual => 66,
        Opcode::IntSub => 67,
        Opcode::LoadModule => 68,
        Opcode::MethodGet => 69,
        Opcode::MoveResult => 70,
        Opcode::ObjectEquals => 71,
        Opcode::Panic => 72,
        Opcode::ProcessAllocate => 73,
        Opcode::ProcessSendMessage => 74,
        Opcode::ProcessSetBlocking => 75,
        Opcode::ProcessSetPinned => 76,
        Opcode::ProcessSuspend => 77,
        Opcode::ProcessYield => 78,
        Opcode::Return => 79,
        Opcode::SetField => 80,
        Opcode::SetGlobal => 81,
        Opcode::SetLocal => 82,
        Opcode::StaticCall => 83,
        Opcode::StringByte => 84,
        Opcode::StringConcat => 85,
        Opcode::StringEquals => 86,
        Opcode::StringLength => 87,
        Opcode::StringSize => 88,
        Opcode::Throw => 89,
        Opcode::UnsignedIntAdd => 90,
        Opcode::UnsignedIntBitwiseAnd => 91,
        Opcode::UnsignedIntBitwiseOr => 92,
        Opcode::UnsignedIntBitwiseXor => 93,
        Opcode::UnsignedIntDiv => 94,
        Opcode::UnsignedIntEquals => 95,
        Opcode::UnsignedIntGreater => 96,
        Opcode::UnsignedIntGreaterOrEqual => 97,
        Opcode::UnsignedIntMod => 98,
        Opcode::UnsignedIntMul => 99,
        Opcode::UnsignedIntShiftLeft => 100,
        Opcode::UnsignedIntShiftRight => 101,
        Opcode::UnsignedIntSmaller => 102,
        Opcode::UnsignedIntSmallerOrEqual => 103,
        Opcode::UnsignedIntSub => 104,
    }
}

impl Opcode {
    /// Returns the opcode encoded by `byte`, or `None` if no opcode has that
    /// encoding.
    pub fn from_byte(byte: u8) -> (r: Option<Opcode>)
        ensures
            r.is_some() <==> byte < OPCODE_COUNT,
            r matches Some(op) ==> opcode_byte(op) == byte,
    {
        match byte {
            0 => Some(Opcode::Allocate),
            1 => Some(Opcode::ArrayAllocate),
            2 => Some(Opcode::ArrayGet),
            3 => Some(Opcode::ArrayLength),
            4 => Some(Opcode::ArrayRemove),
            5 => Some(Opcode::ArraySet),
            6 => Some(Opcode::ByteArrayAllocate),
            7 => Some(Opcode::ByteArrayEquals),
            8 => Some(Opcode::ByteArrayGet),
            9 => Some(Opcode::ByteArrayLength),
            10 => Some(Opcode::ByteArrayRemove),
            11 => Some(Opcode::ByteArraySet),
            12 => Some(Opcode::CopyRegister),
            13 => Some(Opcode::DecrementRef),
            14 => Some(Opcode::Drop),
            15 => Some(Opcode::DynamicCall),
            16 => Some(Opcode::Exit),
            17 => Some(Opcode::ExternalFunctionCall),
            18 => Some(Opcode::ExternalFunctionLoad),
            19 => Some(Opcode::FloatAdd),
            20 => Some(Opcode::FloatDiv),
            21 => Some(Opcode::FloatEquals),
            22 => Some(Opcode::FloatGreater),
            23 => Some(Opcode::FloatGreaterOrEqual),
            24 => Some(Opcode::FloatMod),
            25 => Some(Opcode::FloatMul),
            26 => Some(Opcode::FloatSmaller),
            27 => Some(Opcode::FloatSmallerOrEqual),
            28 => Some(Opcode::FloatSub),
            29 => Some(Opcode::FutureAllocate),
            30 => Some(Opcode::FutureGet),
            31 => Some(Opcode::FutureGetWithTimeout),
            32 => Some(Opcode::FutureWrite),
            33 => Some(Opcode::GeneratorAllocate),
            34 => Some(Opcode::GeneratorResume),
            35 => Some(Opcode::GeneratorValue),
            36 => Some(Opcode::GeneratorYield),
            37 => Some(Opcode::GetClass),
            38 => Some(Opcode::GetCurrentModule),
            39 => Some(Opcode::GetFalse),
            40 => Some(Opcode::GetField),
            41 => Some(Opcode::GetGlobal),
            42 => Some(Opcode::GetLiteral),
            43 => Some(Opcode::GetLiteralWide),
            44 => Some(Opcode::GetLocal),
            45 => Some(Opcode::GetNil),
            46 => Some(Opcode::GetTrue),
            47 => Some(Opcode::GetUndefined),
            48 => Some(Opcode::Goto),
            49 => Some(Opcode::GotoIfFalse),
            50 => Some(Opcode::GotoIfThrown),
            51 => Some(Opcode::GotoIfTrue),
            52 => Some(Opcode::IncrementRef),
            53 => Some(Opcode::IntAdd),
            54 => Some(Opcode::IntBitwiseAnd),
            55 => Some(Opcode::IntBitwiseOr),
            56 => Some(Opcode::IntBitwiseXor),
            57 => Some(Opcode::IntDiv),
            58 => Some(Opcode::IntEquals),
            59 => Some(Opcode::IntGreater),
            60 => Some(Opcode::IntGreaterOrEqual),
            61 => Some(Opcode::IntMod),
            62 => Some(Opcode::IntMul),
            63 => Some(Opcode::IntShiftLeft),
            64 => Some(Opcode::IntShiftRight),
            65 => Some(Opcode::IntSmaller),
            66 => Some(Opcode::IntSmallerOrEqual),
            67 => Some(Opcode::IntSub),
            68 => Some(Opcode::LoadModule),
            69 => Some(Opcode::MethodGet),
            70 => Some(Opcode::MoveResult),
            71 => Some(Opcode::ObjectEquals),
            72 => Some(Opcode::Panic),
            73 => Some(Opcode::ProcessAllocate),
            74 => Some(Opcode::ProcessSendMessage),
            75 => Some(Opcode::ProcessSetBlocking),
            76 => Some(Opcode::ProcessSetPinned),
            77 => Some(Opcode::ProcessSuspend),
            78 => Some(Opcode::ProcessYield),
            79 => Some(Opcode::Return),
            80 => Some(Opcode::SetField),
            81 => Some(Opcode::SetGlobal),
            82 => Some(Opcode::SetLocal),
            83 => Some(Opcode::StaticCall),
            84 => Some(Opcode::StringByte),
            85 => Some(Opcode::StringConcat),
            86 => Some(Opcode::StringEquals),
            87 => Some(Opcode::StringLength),
            88 => Some(Opcode::StringSize),
            89 => Some(Opcode::Throw),
            90 => Some(Opcode::UnsignedIntAdd),
            91 => Some(Opcode::UnsignedIntBitwiseAnd),
            92 => Some(Opcode::UnsignedIntBitwiseOr),
            93 => Some(Opcode::UnsignedIntBitwiseXor),
            94 => Some(Opcode::UnsignedIntDiv),
            95 => Some(Opcode::UnsignedIntEquals),
            96 => Some(Opcode::UnsignedIntGreater),
            97 => Some(Opcode::UnsignedIntGreaterOrEqual),
            98 => Some(Opcode::UnsignedIntMod),
            99 => Some(Opcode::UnsignedIntMul),
            100 => Some(Opcode::UnsignedIntShiftLeft),
            101 => Some(Opcode::UnsignedIntShiftRight),
            102 => Some(Opcode::UnsignedIntSmaller),
            103 => Some(Opcode::UnsignedIntSmallerOrEqual),
            104 => Some(Opcode::UnsignedIntSub),
            _ => None,
        }
    }

    /// Returns the byte that encodes this opcode.
    pub fn to_byte(self) -> (r: u8)
        ensures
            r == opcode_byte(self),
            r < OPCODE_COUNT,
    {
        match self {
            Opcode::Allocate => 0,
            Opcode::ArrayAllocate => 1,
            Opcode::ArrayGet => 2,
            Opcode::ArrayLength => 3,
            Opcode::ArrayRemove => 4,
            Opcode::ArraySet => 5,
            Opcode::ByteArrayAllocate => 6,
            Opcode::ByteArrayEquals => 7,
            Opcode::ByteArrayGet => 8,
            Opcode::ByteArrayLength => 9,
            Opcode::ByteArrayRemove => 10,
            Opcode::ByteArraySet => 11,
            Opcode::CopyRegister => 12,
            Opcode::DecrementRef => 13,
            Opcode::Drop => 14,
            Opcode::DynamicCall => 15,
            Opcode::Exit => 16,
            Opcode::ExternalFunctionCall => 17,
            Opcode::ExternalFunctionLoad => 18,
            Opcode::FloatAdd => 19,
            Opcode::FloatDiv => 20,
            Opcode::FloatEquals => 21,
            Opcode::FloatGreater => 22,
            Opcode::FloatGreaterOrEqual => 23,
            Opcode::FloatMod => 24,
            Opcode::FloatMul => 25,
            Opcode::FloatSmaller => 26,
            Opcode::FloatSmallerOrEqual => 27,
            Opcode::FloatSub => 28,
            Opcode::FutureAllocate => 29,
            Opcode::FutureGet => 30,
            Opcode::FutureGetWithTimeout => 31,
            Opcode::FutureWrite => 32,
            Opcode::GeneratorAllocate => 33,
            Opcode::GeneratorResume => 34,
            Opcode::GeneratorValue => 35,
            Opcode::GeneratorYield => 36,
            Opcode::GetClass => 37,
            Opcode::GetCurrentModule => 38,
            Opcode::GetFalse => 39,
            Opcode::GetField => 40,
            Opcode::GetGlobal => 41,
            Opcode::GetLiteral => 42,
            Opcode::GetLiteralWide => 43,
            Opcode::GetLocal => 44,
            Opcode::GetNil => 45,
            Opcode::GetTrue => 46,
            Opcode::GetUndefined => 47,
            Opcode::Goto => 48,
            Opcode::GotoIfFalse => 49,
            Opcode::GotoIfThrown => 50,
            Opcode::GotoIfTrue => 51,
            Opcode::IncrementRef => 52,
            Opcode::IntAdd => 53,
            Opcode::IntBitwiseAnd => 54,
            Opcode::IntBitwiseOr => 55,
            Opcode::IntBitwiseXor => 56,
            Opcode::IntDiv => 57,
            Opcode::IntEquals => 58,
            Opcode::IntGreater => 59,
            Opcode::IntGreaterOrEqual => 60,
            Opcode::IntMod => 61,
            Opcode::IntMul => 62,
            Opcode::IntShiftLeft => 63,
            Opcode::IntShiftRight => 64,
            Opcode::IntSmaller => 65,
            Opcode::IntSmallerOrEqual => 66,
            Opcode::IntSub => 67,
            Opcode::LoadModule => 68,
            Opcode::MethodGet => 69,
            Opcode::MoveResult => 70,
            Opcode::ObjectEquals => 71,
            Opcode::Panic => 72,
            Opcode::ProcessAllocate => 73,
            Opcode::ProcessSendMessage => 74,
            Opcode::ProcessSetBlocking => 75,
            Opcode::ProcessSetPinned => 76,
            Opcode::ProcessSuspend => 77,
            Opcode::ProcessYield => 78,
            Opcode::Return => 79,
            Opcode::SetField => 80,
            Opcode::SetGlobal => 81,
            Opcode::SetLocal => 82,
            Opcode::StaticCall => 83,
            Opcode::StringByte => 84,
            Opcode::StringConcat => 85,
            Opcode::StringEquals => 86,
            Opcode::StringLength => 87,
            Opcode::StringSize => 88,
            Opcode::Throw => 89,
            Opcode::UnsignedIntAdd => 90,
            Opcode::UnsignedIntBitwiseAnd => 91,
            Opcode::UnsignedIntBitwiseOr => 92,
            Opcode::UnsignedIntBitwiseXor => 93,
            Opcode::UnsignedIntDiv => 94,
            Opcode::UnsignedIntEquals => 95,
            Opcode::UnsignedIntGreater => 96,
            Opcode::UnsignedIntGreaterOrEqual => 97,
            Opcode::UnsignedIntMod => 98,
            Opcode::UnsignedIntMul => 99,
            Opcode::UnsignedIntShiftLeft => 100,
            Opcode::UnsignedIntShiftRight => 101,
            Opcode::UnsignedIntSmaller => 102,
            Opcode::UnsignedIntSmallerOrEqual => 103,
            Opcode::UnsignedIntSub => 104,
        }
    }
}

/// Decoding an opcode's byte gives the opcode back.
pub proof fn lemma_opcode_byte_round_trip(op: Opcode)
    ensures
        opcode_byte(op) < OPCODE_COUNT,
        forall|other: Opcode| opcode_byte(other) == opcode_byte(op) ==> other == op,
{
}

/// A fixed-width VM instruction.
#[derive(Clone, Copy, Debug, PartialEq, Eq)]
pub struct Instruction {
    /// The instruction opcode/type.
    pub opcode: Opcode,

    /// The line number of the instruction.
    pub line: u16,

    /// The arguments/operands of the instruction.
    pub arguments: [u16; 6],
}

impl Instruction {
    /// The arguments of this instruction.
    pub open spec fn args(&self) -> Seq<u16> {
        self.arguments@
    }

    /// Returns a new instruction.
    pub fn new(opcode: Opcode, arguments: [u16; 6], line: u16) -> (r: Self)
        ensures
            r.opcode == opcode,
            r.line == line,
            r.args() == arguments@,
    {
        Instruction { opcode, line, arguments }
    }

    /// Returns the value of the given instruction argument.
    pub fn arg(&self, index: usize) -> (r: u16)
        requires
            index < 6,
        ensures
            r == self.args()[index as int],
    {
        self.arguments[index]
    }
}

} // verus!
