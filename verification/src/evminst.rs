//! EVM instructions: the closed set of opcodes that a trace may name, each
//! with its byte, its mnemonic and its place in the column order of the
//! count files.

use crate::util::str_eq;
use vstd::prelude::*;

verus! {

/// One EVM instruction. The variants stand in the order of their opcode
/// bytes, so `<` compares as the bytes do.
#[allow(non_camel_case_types)]
#[derive(Debug, PartialEq, Eq, Structural, PartialOrd, Clone, Copy)]
pub enum EvmInst {
    STOP,
    ADD,
    MUL,
    SUB,
    DIV,
    SDIV,
    MOD,
    SMOD,
    ADDMOD,
    MULMOD,
    EXP,
    SIGNEXTEND,
    LT,
    GT,
    SLT,
    SGT,
    EQ,
    ISZERO,
    AND,
    OR,
    XOR,
    NOT,
    BYTE,
    SHA3,
    ADDRESS,
    BALANCE,
    ORIGIN,
    CALLER,
    CALLVALUE,
    CALLDATALOAD,
    CALLDATASIZE,
    CALLDATACOPY,
    CODESIZE,
    CODECOPY,
    GASPRICE,
    EXTCODESIZE,
    EXTCODECOPY,
    RETURNDATASIZE,
    RETURNDATACOPY,
    BLOCKHASH,
    COINBASE,
    TIMESTAMP,
    NUMBER,
    DIFFICULTY,
    GASLIMIT,
    POP,
    MLOAD,
    MSTORE,
    MSTORE8,
    SLOAD,
    SSTORE,
    JUMP,
    JUMPI,
    PC,
    MSIZE,
    GAS,
    JUMPDEST,
    PUSH1,
    PUSH2,
    PUSH3,
    PUSH4,
    PUSH5,
    PUSH6,
    PUSH7,
    PUSH8,
    PUSH9,
    PUSH10,
    PUSH11,
    PUSH12,
    PUSH13,
    PUSH14,
    PUSH15,
    PUSH16,
    PUSH17,
    PUSH18,
    PUSH19,
    PUSH20,
    PUSH21,
    PUSH22,
    PUSH23,
    PUSH24,
    PUSH25,
    PUSH26,
    PUSH27,
    PUSH28,
    PUSH29,
    PUSH30,
    PUSH31,
    PUSH32,
    DUP1,
    DUP2,
    DUP3,
    DUP4,
    DUP5,
    DUP6,
    DUP7,
    DUP8,
    DUP9,
    DUP10,
    DUP11,
    DUP12,
    DUP13,
    DUP14,
    DUP15,
    DUP16,
    SWAP1,
    SWAP2,
    SWAP3,
    SWAP4,
    SWAP5,
    SWAP6,
    SWAP7,
    SWAP8,
    SWAP9,
    SWAP10,
    SWAP11,
    SWAP12,
    SWAP13,
    SWAP14,
    SWAP15,
    SWAP16,
    LOG0,
    LOG1,
    LOG2,
    LOG3,
    LOG4,
    CREATE,
    CALL,
    CALLCODE,
    RETURN,
    DELEGATECALL,
    STATICCALL,
    CREATE2,
    REVERT,
    SUICIDE,
}

/// How many instructions there are.
pub const INST_COUNT: usize = 135;

/// Every instruction once, in the column order of the count files. The
/// files depend on this order: a change to it is a change of format.
pub const VALUES: [EvmInst; 135] = [
    EvmInst::STOP,
    EvmInst::ADD,
    EvmInst::MUL,
    EvmInst::SUB,
    EvmInst::DIV,
    EvmInst::SDIV,
    EvmInst::MOD,
    EvmInst::SMOD,
    EvmInst::ADDMOD,
    EvmInst::MULMOD,
    EvmInst::EXP,
    EvmInst::SIGNEXTEND,
    EvmInst::LT,
    EvmInst::GT,
    EvmInst::SLT,
    EvmInst::SGT,
    EvmInst::EQ,
    EvmInst::ISZERO,
    EvmInst::AND,
    EvmInst::OR,
    EvmInst::XOR,
    EvmInst::NOT,
    EvmInst::BYTE,
    EvmInst::SHA3,
    EvmInst::ADDRESS,
    EvmInst::BALANCE,
    EvmInst::ORIGIN,
    EvmInst::CALLER,
    EvmInst::CALLVALUE,
    EvmInst::CALLDATALOAD,
    EvmInst::CALLDATASIZE,
    EvmInst::CALLDATACOPY,
    EvmInst::CODESIZE,
    EvmInst::CODECOPY,
    EvmInst::GASPRICE,
    EvmInst::EXTCODESIZE,
    EvmInst::EXTCODECOPY,
    EvmInst::RETURNDATASIZE,
    EvmInst::RETURNDATACOPY,
    EvmInst::BLOCKHASH,
    EvmInst::COINBASE,
    EvmInst::TIMESTAMP,
    EvmInst::NUMBER,
    EvmInst::DIFFICULTY,
    EvmInst::GASLIMIT,
    EvmInst::POP,
    EvmInst::MLOAD,
    EvmInst::MSTORE,
    EvmInst::MSTORE8,
    EvmInst::SLOAD,
    EvmInst::SSTORE,
    EvmInst::JUMP,
    EvmInst::JUMPI,
    EvmInst::PC,
    EvmInst::MSIZE,
    EvmInst::GAS,
    EvmInst::JUMPDEST,
    EvmInst::PUSH1,
    EvmInst::PUSH2,
    EvmInst::PUSH3,
    EvmInst::PUSH4,
    EvmInst::PUSH5,
    EvmInst::PUSH6,
    EvmInst::PUSH7,
    EvmInst::PUSH8,
    EvmInst::PUSH9,
    EvmInst::PUSH10,
    EvmInst::PUSH11,
    EvmInst::PUSH12,
    EvmInst::PUSH13,
    EvmInst::PUSH14,
    EvmInst::PUSH15,
    EvmInst::PUSH16,
    EvmInst::PUSH17,
    EvmInst::PUSH18,
    EvmInst::PUSH19,
    EvmInst::PUSH20,
    EvmInst::PUSH21,
    EvmInst::PUSH22,
    EvmInst::PUSH23,
    EvmInst::PUSH24,
    EvmInst::PUSH25,
    EvmInst::PUSH26,
    EvmInst::PUSH27,
    EvmInst::PUSH28,
    EvmInst::PUSH29,
    EvmInst::PUSH30,
    EvmInst::PUSH31,
    EvmInst::PUSH32,
    EvmInst::DUP1,
    EvmInst::DUP2,
    EvmInst::DUP3,
    EvmInst::DUP4,
    EvmInst::DUP5,
    EvmInst::DUP6,
    EvmInst::DUP7,
    EvmInst::DUP8,
    EvmInst::DUP9,
    EvmInst::DUP10,
    EvmInst::DUP11,
    EvmInst::DUP12,
    EvmInst::DUP13,
    EvmInst::DUP14,
    EvmInst::DUP15,
    EvmInst::DUP16,
    EvmInst::SWAP1,
    EvmInst::SWAP2,
    EvmInst::SWAP3,
    EvmInst::SWAP4,
    EvmInst::SWAP5,
    EvmInst::SWAP6,
    EvmInst::SWAP7,
    EvmInst::SWAP8,
    EvmInst::SWAP9,
    EvmInst::SWAP10,
    EvmInst::SWAP11,
    EvmInst::SWAP12,
    EvmInst::SWAP13,
    EvmInst::SWAP14,
    EvmInst::SWAP15,
    EvmInst::SWAP16,
    EvmInst::LOG0,
    EvmInst::LOG1,
    EvmInst::LOG2,
    EvmInst::LOG3,
    EvmInst::LOG4,
    EvmInst::CREATE,
    EvmInst::CALL,
    EvmInst::CALLCODE,
    EvmInst::RETURN,
    EvmInst::DELEGATECALL,
    EvmInst::CREATE2,
    EvmInst::REVERT,
    EvmInst::STATICCALL,
    EvmInst::SUICIDE,
];

impl EvmInst {
    /// The canonical upper-case name of the instruction.
    pub open spec fn mnemonic(self) -> Seq<char> {
        match self {
            EvmInst::STOP => "STOP"@,
            EvmInst::ADD => "ADD"@,
            EvmInst::MUL => "MUL"@,
            EvmInst::SUB => "SUB"@,
            EvmInst::DIV => "DIV"@,
            EvmInst::SDIV => "SDIV"@,
            EvmInst::MOD => "MOD"@,
            EvmInst::SMOD => "SMOD"@,
            EvmInst::ADDMOD => "ADDMOD"@,
            EvmInst::MULMOD => "MULMOD"@,
            EvmInst::EXP => "EXP"@,
            EvmInst::SIGNEXTEND => "SIGNEXTEND"@,
            EvmInst::LT => "LT"@,
            EvmInst::GT => "GT"@,
            EvmInst::SLT => "SLT"@,
            EvmInst::SGT => "SGT"@,
            EvmInst::EQ => "EQ"@,
            EvmInst::ISZERO => "ISZERO"@,
            EvmInst::AND => "AND"@,
            EvmInst::OR => "OR"@,
            EvmInst::XOR => "XOR"@,
            EvmInst::NOT => "NOT"@,
            EvmInst::BYTE => "BYTE"@,
            EvmInst::SHA3 => "SHA3"@,
            EvmInst::ADDRESS => "ADDRESS"@,
            EvmInst::BALANCE => "BALANCE"@,
            EvmInst::ORIGIN => "ORIGIN"@,
            EvmInst::CALLER => "CALLER"@,
            EvmInst::CALLVALUE => "CALLVALUE"@,
            EvmInst::CALLDATALOAD => "CALLDATALOAD"@,
            EvmInst::CALLDATASIZE => "CALLDATASIZE"@,
            EvmInst::CALLDATACOPY => "CALLDATACOPY"@,
            EvmInst::CODESIZE => "CODESIZE"@,
            EvmInst::CODECOPY => "CODECOPY"@,
            EvmInst::GASPRICE => "GASPRICE"@,
            EvmInst::EXTCODESIZE => "EXTCODESIZE"@,
            EvmInst::EXTCODECOPY => "EXTCODECOPY"@,
            EvmInst::RETURNDATASIZE => "RETURNDATASIZE"@,
            EvmInst::RETURNDATACOPY => "RETURNDATACOPY"@,
            EvmInst::BLOCKHASH => "BLOCKHASH"@,
            EvmInst::COINBASE => "COINBASE"@,
            EvmInst::TIMESTAMP => "TIMESTAMP"@,
            EvmInst::NUMBER => "NUMBER"@,
            EvmInst::DIFFICULTY => "DIFFICULTY"@,
            EvmInst::GASLIMIT => "GASLIMIT"@,
            EvmInst::POP => "POP"@,
            EvmInst::MLOAD => "MLOAD"@,
            EvmInst::MSTORE => "MSTORE"@,
            EvmInst::MSTORE8 => "MSTORE8"@,
            EvmInst::SLOAD => "SLOAD"@,
            EvmInst::SSTORE => "SSTORE"@,
            EvmInst::JUMP => "JUMP"@,
            EvmInst::JUMPI => "JUMPI"@,
            EvmInst::PC => "PC"@,
            EvmInst::MSIZE => "MSIZE"@,
            EvmInst::GAS => "GAS"@,
            EvmInst::JUMPDEST => "JUMPDEST"@,
            EvmInst::PUSH1 => "PUSH1"@,
            EvmInst::PUSH2 => "PUSH2"@,
            EvmInst::PUSH3 => "PUSH3"@,
            EvmInst::PUSH4 => "PUSH4"@,
            EvmInst::PUSH5 => "PUSH5"@,
            EvmInst::PUSH6 => "PUSH6"@,
            EvmInst::PUSH7 => "PUSH7"@,
            EvmInst::PUSH8 => "PUSH8"@,
            EvmInst::PUSH9 => "PUSH9"@,
            EvmInst::PUSH10 => "PUSH10"@,
            EvmInst::PUSH11 => "PUSH11"@,
            EvmInst::PUSH12 => "PUSH12"@,
            EvmInst::PUSH13 => "PUSH13"@,
            EvmInst::PUSH14 => "PUSH14"@,
            EvmInst::PUSH15 => "PUSH15"@,
            EvmInst::PUSH16 => "PUSH16"@,
            EvmInst::PUSH17 => "PUSH17"@,
            EvmInst::PUSH18 => "PUSH18"@,
            EvmInst::PUSH19 => "PUSH19"@,
            EvmInst::PUSH20 => "PUSH20"@,
            EvmInst::PUSH21 => "PUSH21"@,
            EvmInst::PUSH22 => "PUSH22"@,
            EvmInst::PUSH23 => "PUSH23"@,
            EvmInst::PUSH24 => "PUSH24"@,
            EvmInst::PUSH25 => "PUSH25"@,
            EvmInst::PUSH26 => "PUSH26"@,
            EvmInst::PUSH27 => "PUSH27"@,
            EvmInst::PUSH28 => "PUSH28"@,
            EvmInst::PUSH29 => "PUSH29"@,
            EvmInst::PUSH30 => "PUSH30"@,
            EvmInst::PUSH31 => "PUSH31"@,
            EvmInst::PUSH32 => "PUSH32"@,
            EvmInst::DUP1 => "DUP1"@,
            EvmInst::DUP2 => "DUP2"@,
            EvmInst::DUP3 => "DUP3"@,
            EvmInst::DUP4 => "DUP4"@,
            EvmInst::DUP5 => "DUP5"@,
            EvmInst::DUP6 => "DUP6"@,
            EvmInst::DUP7 => "DUP7"@,
            EvmInst::DUP8 => "DUP8"@,
            EvmInst::DUP9 => "DUP9"@,
            EvmInst::DUP10 => "DUP10"@,
            EvmInst::DUP11 => "DUP11"@,
            EvmInst::DUP12 => "DUP12"@,
            EvmInst::DUP13 => "DUP13"@,
            EvmInst::DUP14 => "DUP14"@,
            EvmInst::DUP15 => "DUP15"@,
            EvmInst::DUP16 => "DUP16"@,
            EvmInst::SWAP1 => "SWAP1"@,
            EvmInst::SWAP2 => "SWAP2"@,
            EvmInst::SWAP3 => "SWAP3"@,
            EvmInst::SWAP4 => "SWAP4"@,
            EvmInst::SWAP5 => "SWAP5"@,
            EvmInst::SWAP6 => "SWAP6"@,
            EvmInst::SWAP7 => "SWAP7"@,
            EvmInst::SWAP8 => "SWAP8"@,
            EvmInst::SWAP9 => "SWAP9"@,
            EvmInst::SWAP10 => "SWAP10"@,
            EvmInst::SWAP11 => "SWAP11"@,
            EvmInst::SWAP12 => "SWAP12"@,
            EvmInst::SWAP13 => "SWAP13"@,
            EvmInst::SWAP14 => "SWAP14"@,
            EvmInst::SWAP15 => "SWAP15"@,
            EvmInst::SWAP16 => "SWAP16"@,
            EvmInst::LOG0 => "LOG0"@,
            EvmInst::LOG1 => "LOG1"@,
            EvmInst::LOG2 => "LOG2"@,
            EvmInst::LOG3 => "LOG3"@,
            EvmInst::LOG4 => "LOG4"@,
            EvmInst::CREATE => "CREATE"@,
            EvmInst::CALL => "CALL"@,
            EvmInst::CALLCODE => "CALLCODE"@,
            EvmInst::RETURN => "RETURN"@,
            EvmInst::DELEGATECALL => "DELEGATECALL"@,
            EvmInst::CREATE2 => "CREATE2"@,
            EvmInst::REVERT => "REVERT"@,
            EvmInst::STATICCALL => "STATICCALL"@,
            EvmInst::SUICIDE => "SUICIDE"@,
        }
    }

    /// The opcode byte of the instruction.
    pub open spec fn spec_code(self) -> u8 {
        match self {
            EvmInst::STOP => 0x00,
            EvmInst::ADD => 0x01,
            EvmInst::MUL => 0x02,
            EvmInst::SUB => 0x03,
            EvmInst::DIV => 0x04,
            EvmInst::SDIV => 0x05,
            EvmInst::MOD => 0x06,
            EvmInst::SMOD => 0x07,
            EvmInst::ADDMOD => 0x08,
            EvmInst::MULMOD => 0x09,
            EvmInst::EXP => 0x0a,
            EvmInst::SIGNEXTEND => 0x0b,
            EvmInst::LT => 0x10,
            EvmInst::GT => 0x11,
            EvmInst::SLT => 0x12,
            EvmInst::SGT => 0x13,
            EvmInst::EQ => 0x14,
            EvmInst::ISZERO => 0x15,
            EvmInst::AND => 0x16,
            EvmInst::OR => 0x17,
            EvmInst::XOR => 0x18,
            EvmInst::NOT => 0x19,
            EvmInst::BYTE => 0x1a,
            EvmInst::SHA3 => 0x20,
            EvmInst::ADDRESS => 0x30,
            EvmInst::BALANCE => 0x31,
            EvmInst::ORIGIN => 0x32,
            EvmInst::CALLER => 0x33,
            EvmInst::CALLVALUE => 0x34,
            EvmInst::CALLDATALOAD => 0x35,
            EvmInst::CALLDATASIZE => 0x36,
            EvmInst::CALLDATACOPY => 0x37,
            EvmInst::CODESIZE => 0x38,
            EvmInst::CODECOPY => 0x39,
            EvmInst::GASPRICE => 0x3a,
            EvmInst::EXTCODESIZE => 0x3b,
            EvmInst::EXTCODECOPY => 0x3c,
            EvmInst::RETURNDATASIZE => 0x3d,
            EvmInst::RETURNDATACOPY => 0x3e,
            EvmInst::BLOCKHASH => 0x40,
            EvmInst::COINBASE => 0x41,
            EvmInst::TIMESTAMP => 0x42,
            EvmInst::NUMBER => 0x43,
            EvmInst::DIFFICULTY => 0x44,
            EvmInst::GASLIMIT => 0x45,
            EvmInst::POP => 0x50,
            EvmInst::MLOAD => 0x51,
            EvmInst::MSTORE => 0x52,
            EvmInst::MSTORE8 => 0x53,
            EvmInst::SLOAD => 0x54,
            EvmInst::SSTORE => 0x55,
            EvmInst::JUMP => 0x56,
            EvmInst::JUMPI => 0x57,
            EvmInst::PC => 0x58,
            EvmInst::MSIZE => 0x59,
            EvmInst::GAS => 0x5a,
            EvmInst::JUMPDEST => 0x5b,
            EvmInst::PUSH1 => 0x60,
            EvmInst::PUSH2 => 0x61,
            EvmInst::PUSH3 => 0x62,
            EvmInst::PUSH4 => 0x63,
            EvmInst::PUSH5 => 0x64,
            EvmInst::PUSH6 => 0x65,
            EvmInst::PUSH7 => 0x66,
            EvmInst::PUSH8 => 0x67,
            EvmInst::PUSH9 => 0x68,
            EvmInst::PUSH10 => 0x69,
            EvmInst::PUSH11 => 0x6a,
            EvmInst::PUSH12 => 0x6b,
            EvmInst::PUSH13 => 0x6c,
            EvmInst::PUSH14 => 0x6d,
            EvmInst::PUSH15 => 0x6e,
            EvmInst::PUSH16 => 0x6f,
            EvmInst::PUSH17 => 0x70,
            EvmInst::PUSH18 => 0x71,
            EvmInst::PUSH19 => 0x72,
            EvmInst::PUSH20 => 0x73,
            EvmInst::PUSH21 => 0x74,
            EvmInst::PUSH22 => 0x75,
            EvmInst::PUSH23 => 0x76,
            EvmInst::PUSH24 => 0x77,
            EvmInst::PUSH25 => 0x78,
            EvmInst::PUSH26 => 0x79,
            EvmInst::PUSH27 => 0x7a,
            EvmInst::PUSH28 => 0x7b,
            EvmInst::PUSH29 => 0x7c,
            EvmInst::PUSH30 => 0x7d,
            EvmInst::PUSH31 => 0x7e,
            EvmInst::PUSH32 => 0x7f,
            EvmInst::DUP1 => 0x80,
            EvmInst::DUP2 => 0x81,
            EvmInst::DUP3 => 0x82,
            EvmInst::DUP4 => 0x83,
            EvmInst::DUP5 => 0x84,
            EvmInst::DUP6 => 0x85,
            EvmInst::DUP7 => 0x86,
            EvmInst::DUP8 => 0x87,
            EvmInst::DUP9 => 0x88,
            EvmInst::DUP10 => 0x89,
            EvmInst::DUP11 => 0x8a,
            EvmInst::DUP12 => 0x8b,
            EvmInst::DUP13 => 0x8c,
            EvmInst::DUP14 => 0x8d,
            EvmInst::DUP15 => 0x8e,
            EvmInst::DUP16 => 0x8f,
            EvmInst::SWAP1 => 0x90,
            EvmInst::SWAP2 => 0x91,
            EvmInst::SWAP3 => 0x92,
            EvmInst::SWAP4 => 0x93,
            EvmInst::SWAP5 => 0x94,
            EvmInst::SWAP6 => 0x95,
            EvmInst::SWAP7 => 0x96,
            EvmInst::SWAP8 => 0x97,
            EvmInst::SWAP9 => 0x98,
            EvmInst::SWAP10 => 0x99,
            EvmInst::SWAP11 => 0x9a,
            EvmInst::SWAP12 => 0x9b,
            EvmInst::SWAP13 => 0x9c,
            EvmInst::SWAP14 => 0x9d,
            EvmInst::SWAP15 => 0x9e,
            EvmInst::SWAP16 => 0x9f,
            EvmInst::LOG0 => 0xa0,
            EvmInst::LOG1 => 0xa1,
            EvmInst::LOG2 => 0xa2,
            EvmInst::LOG3 => 0xa3,
            EvmInst::LOG4 => 0xa4,
            EvmInst::CREATE => 0xf0,
            EvmInst::CALL => 0xf1,
            EvmInst::CALLCODE => 0xf2,
            EvmInst::RETURN => 0xf3,
            EvmInst::DELEGATECALL => 0xf4,
            EvmInst::CREATE2 => 0xfb,
            EvmInst::REVERT => 0xfd,
            EvmInst::STATICCALL => 0xfa,
            EvmInst::SUICIDE => 0xff,
        }
    }

    /// The position of the instruction in `VALUES`.
    pub open spec fn spec_ordinal(self) -> int {
        match self {
            EvmInst::STOP => 0,
            EvmInst::ADD => 1,
            EvmInst::MUL => 2,
            EvmInst::SUB => 3,
            EvmInst::DIV => 4,
            EvmInst::SDIV => 5,
            EvmInst::MOD => 6,
            EvmInst::SMOD => 7,
            EvmInst::ADDMOD => 8,
            EvmInst::MULMOD => 9,
            EvmInst::EXP => 10,
            EvmInst::SIGNEXTEND => 11,
            EvmInst::LT => 12,
            EvmInst::GT => 13,
            EvmInst::SLT => 14,
            EvmInst::SGT => 15,
            EvmInst::EQ => 16,
            EvmInst::ISZERO => 17,
            EvmInst::AND => 18,
            EvmInst::OR => 19,
            EvmInst::XOR => 20,
            EvmInst::NOT => 21,
            EvmInst::BYTE => 22,
            EvmInst::SHA3 => 23,
            EvmInst::ADDRESS => 24,
            EvmInst::BALANCE => 25,
            EvmInst::ORIGIN => 26,
            EvmInst::CALLER => 27,
            EvmInst::CALLVALUE => 28,
            EvmInst::CALLDATALOAD => 29,
            EvmInst::CALLDATASIZE => 30,
            EvmInst::CALLDATACOPY => 31,
            EvmInst::CODESIZE => 32,
            EvmInst::CODECOPY => 33,
            EvmInst::GASPRICE => 34,
            EvmInst::EXTCODESIZE => 35,
            EvmInst::EXTCODECOPY => 36,
            EvmInst::RETURNDATASIZE => 37,
            EvmInst::RETURNDATACOPY => 38,
            EvmInst::BLOCKHASH => 39,
            EvmInst::COINBASE => 40,
            EvmInst::TIMESTAMP => 41,
            EvmInst::NUMBER => 42,
            EvmInst::DIFFICULTY => 43,
            EvmInst::GASLIMIT => 44,
            EvmInst::POP => 45,
            EvmInst::MLOAD => 46,
            EvmInst::MSTORE => 47,
            EvmInst::MSTORE8 => 48,
            EvmInst::SLOAD => 49,
            EvmInst::SSTORE => 50,
            EvmInst::JUMP => 51,
            EvmInst::JUMPI => 52,
            EvmInst::PC => 53,
            EvmInst::MSIZE => 54,
            EvmInst::GAS => 55,
            EvmInst::JUMPDEST => 56,
            EvmInst::PUSH1 => 57,
            EvmInst::PUSH2 => 58,
            EvmInst::PUSH3 => 59,
            EvmInst::PUSH4 => 60,
            EvmInst::PUSH5 => 61,
            EvmInst::PUSH6 => 62,
            EvmInst::PUSH7 => 63,
            EvmInst::PUSH8 => 64,
            EvmInst::PUSH9 => 65,
            EvmInst::PUSH10 => 66,
            EvmInst::PUSH11 => 67,
            EvmInst::PUSH12 => 68,
            EvmInst::PUSH13 => 69,
            EvmInst::PUSH14 => 70,
            EvmInst::PUSH15 => 71,
            EvmInst::PUSH16 => 72,
            EvmInst::PUSH17 => 73,
            EvmInst::PUSH18 => 74,
            EvmInst::PUSH19 => 75,
            EvmInst::PUSH20 => 76,
            EvmInst::PUSH21 => 77,
            EvmInst::PUSH22 => 78,
            EvmInst::PUSH23 => 79,
            EvmInst::PUSH24 => 80,
            EvmInst::PUSH25 => 81,
            EvmInst::PUSH26 => 82,
            EvmInst::PUSH27 => 83,
            EvmInst::PUSH28 => 84,
            EvmInst::PUSH29 => 85,
            EvmInst::PUSH30 => 86,
            EvmInst::PUSH31 => 87,
            EvmInst::PUSH32 => 88,
            EvmInst::DUP1 => 89,
            EvmInst::DUP2 => 90,
            EvmInst::DUP3 => 91,
            EvmInst::DUP4 => 92,
            EvmInst::DUP5 => 93,
            EvmInst::DUP6 => 94,
            EvmInst::DUP7 => 95,
            EvmInst::DUP8 => 96,
            EvmInst::DUP9 => 97,
            EvmInst::DUP10 => 98,
            EvmInst::DUP11 => 99,
            EvmInst::DUP12 => 100,
            EvmInst::DUP13 => 101,
            EvmInst::DUP14 => 102,
            EvmInst::DUP15 => 103,
            EvmInst::DUP16 => 104,
            EvmInst::SWAP1 => 105,
            EvmInst::SWAP2 => 106,
            EvmInst::SWAP3 => 107,
            EvmInst::SWAP4 => 108,
            EvmInst::SWAP5 => 109,
            EvmInst::SWAP6 => 110,
            EvmInst::SWAP7 => 111,
            EvmInst::SWAP8 => 112,
            EvmInst::SWAP9 => 113,
            EvmInst::SWAP10 => 114,
            EvmInst::SWAP11 => 115,
            EvmInst::SWAP12 => 116,
            EvmInst::SWAP13 => 117,
            EvmInst::SWAP14 => 118,
            EvmInst::SWAP15 => 119,
            EvmInst::SWAP16 => 120,
            EvmInst::LOG0 => 121,
            EvmInst::LOG1 => 122,
            EvmInst::LOG2 => 123,
            EvmInst::LOG3 => 124,
            EvmInst::LOG4 => 125,
            EvmInst::CREATE => 126,
            EvmInst::CALL => 127,
            EvmInst::CALLCODE => 128,
            EvmInst::RETURN => 129,
            EvmInst::DELEGATECALL => 130,
            EvmInst::CREATE2 => 131,
            EvmInst::REVERT => 132,
            EvmInst::STATICCALL => 133,
            EvmInst::SUICIDE => 134,
        }
    }

    /// The opcode byte of the instruction.
    #[verifier::when_used_as_spec(spec_code)]
    pub fn code(self) -> (byte: u8)
        ensures
            byte == self.spec_code(),
    {
        match self {
            EvmInst::STOP => 0x00,
            EvmInst::ADD => 0x01,
            EvmInst::MUL => 0x02,
            EvmInst::SUB => 0x03,
            EvmInst::DIV => 0x04,
            EvmInst::SDIV => 0x05,
            EvmInst::MOD => 0x06,
            EvmInst::SMOD => 0x07,
            EvmInst::ADDMOD => 0x08,
            EvmInst::MULMOD => 0x09,
            EvmInst::EXP => 0x0a,
            EvmInst::SIGNEXTEND => 0x0b,
            EvmInst::LT => 0x10,
            EvmInst::GT => 0x11,
            EvmInst::SLT => 0x12,
            EvmInst::SGT => 0x13,
            EvmInst::EQ => 0x14,
            EvmInst::ISZERO => 0x15,
            EvmInst::AND => 0x16,
            EvmInst::OR => 0x17,
            EvmInst::XOR => 0x18,
            EvmInst::NOT => 0x19,
            EvmInst::BYTE => 0x1a,
            EvmInst::SHA3 => 0x20,
            EvmInst::ADDRESS => 0x30,
            EvmInst::BALANCE => 0x31,
            EvmInst::ORIGIN => 0x32,
            EvmInst::CALLER => 0x33,
            EvmInst::CALLVALUE => 0x34,
            EvmInst::CALLDATALOAD => 0x35,
            EvmInst::CALLDATASIZE => 0x36,
            EvmInst::CALLDATACOPY => 0x37,
            EvmInst::CODESIZE => 0x38,
            EvmInst::CODECOPY => 0x39,
            EvmInst::GASPRICE => 0x3a,
            EvmInst::EXTCODESIZE => 0x3b,
            EvmInst::EXTCODECOPY => 0x3c,
            EvmInst::RETURNDATASIZE => 0x3d,
            EvmInst::RETURNDATACOPY => 0x3e,
            EvmInst::BLOCKHASH => 0x40,
            EvmInst::COINBASE => 0x41,
            EvmInst::TIMESTAMP => 0x42,
            EvmInst::NUMBER => 0x43,
            EvmInst::DIFFICULTY => 0x44,
            EvmInst::GASLIMIT => 0x45,
            EvmInst::POP => 0x50,
            EvmInst::MLOAD => 0x51,
            EvmInst::MSTORE => 0x52,
            EvmInst::MSTORE8 => 0x53,
            EvmInst::SLOAD => 0x54,
            EvmInst::SSTORE => 0x55,
            EvmInst::JUMP => 0x56,
            EvmInst::JUMPI => 0x57,
            EvmInst::PC => 0x58,
            EvmInst::MSIZE => 0x59,
            EvmInst::GAS => 0x5a,
            EvmInst::JUMPDEST => 0x5b,
            EvmInst::PUSH1 => 0x60,
            EvmInst::PUSH2 => 0x61,
            EvmInst::PUSH3 => 0x62,
            EvmInst::PUSH4 => 0x63,
            EvmInst::PUSH5 => 0x64,
            EvmInst::PUSH6 => 0x65,
            EvmInst::PUSH7 => 0x66,
            EvmInst::PUSH8 => 0x67,
            EvmInst::PUSH9 => 0x68,
            EvmInst::PUSH10 => 0x69,
            EvmInst::PUSH11 => 0x6a,
            EvmInst::PUSH12 => 0x6b,
            EvmInst::PUSH13 => 0x6c,
            EvmInst::PUSH14 => 0x6d,
            EvmInst::PUSH15 => 0x6e,
            EvmInst::PUSH16 => 0x6f,
            EvmInst::PUSH17 => 0x70,
            EvmInst::PUSH18 => 0x71,
            EvmInst::PUSH19 => 0x72,
            EvmInst::PUSH20 => 0x73,
            EvmInst::PUSH21 => 0x74,
            EvmInst::PUSH22 => 0x75,
            EvmInst::PUSH23 => 0x76,
            EvmInst::PUSH24 => 0x77,
            EvmInst::PUSH25 => 0x78,
            EvmInst::PUSH26 => 0x79,
            EvmInst::PUSH27 => 0x7a,
            EvmInst::PUSH28 => 0x7b,
            EvmInst::PUSH29 => 0x7c,
            EvmInst::PUSH30 => 0x7d,
            EvmInst::PUSH31 => 0x7e,
            EvmInst::PUSH32 => 0x7f,
            EvmInst::DUP1 => 0x80,
            EvmInst::DUP2 => 0x81,
            EvmInst::DUP3 => 0x82,
            EvmInst::DUP4 => 0x83,
            EvmInst::DUP5 => 0x84,
            EvmInst::DUP6 => 0x85,
            EvmInst::DUP7 => 0x86,
            EvmInst::DUP8 => 0x87,
            EvmInst::DUP9 => 0x88,
            EvmInst::DUP10 => 0x89,
            EvmInst::DUP11 => 0x8a,
            EvmInst::DUP12 => 0x8b,
            EvmInst::DUP13 => 0x8c,
            EvmInst::DUP14 => 0x8d,
            EvmInst::DUP15 => 0x8e,
            EvmInst::DUP16 => 0x8f,
            EvmInst::SWAP1 => 0x90,
            EvmInst::SWAP2 => 0x91,
            EvmInst::SWAP3 => 0x92,
            EvmInst::SWAP4 => 0x93,
            EvmInst::SWAP5 => 0x94,
            EvmInst::SWAP6 => 0x95,
            EvmInst::SWAP7 => 0x96,
            EvmInst::SWAP8 => 0x97,
            EvmInst::SWAP9 => 0x98,
            EvmInst::SWAP10 => 0x99,
            EvmInst::SWAP11 => 0x9a,
            EvmInst::SWAP12 => 0x9b,
            EvmInst::SWAP13 => 0x9c,
            EvmInst::SWAP14 => 0x9d,
            EvmInst::SWAP15 => 0x9e,
            EvmInst::SWAP16 => 0x9f,
            EvmInst::LOG0 => 0xa0,
            EvmInst::LOG1 => 0xa1,
            EvmInst::LOG2 => 0xa2,
            EvmInst::LOG3 => 0xa3,
            EvmInst::LOG4 => 0xa4,
            EvmInst::CREATE => 0xf0,
            EvmInst::CALL => 0xf1,
            EvmInst::CALLCODE => 0xf2,
            EvmInst::RETURN => 0xf3,
            EvmInst::DELEGATECALL => 0xf4,
            EvmInst::CREATE2 => 0xfb,
            EvmInst::REVERT => 0xfd,
            EvmInst::STATICCALL => 0xfa,
            EvmInst::SUICIDE => 0xff,
        }
    }

    /// The position of the instruction in `VALUES`.
    #[verifier::when_used_as_spec(spec_ordinal_usize)]
    pub fn ordinal(self) -> (index: usize)
        ensures
            index == self.spec_ordinal(),
            index < INST_COUNT,
            VALUES[index as int] == self,
    {
        match self {
            EvmInst::STOP => 0,
            EvmInst::ADD => 1,
            EvmInst::MUL => 2,
            EvmInst::SUB => 3,
            EvmInst::DIV => 4,
            EvmInst::SDIV => 5,
            EvmInst::MOD => 6,
            EvmInst::SMOD => 7,
            EvmInst::ADDMOD => 8,
            EvmInst::MULMOD => 9,
            EvmInst::EXP => 10,
            EvmInst::SIGNEXTEND => 11,
            EvmInst::LT => 12,
            EvmInst::GT => 13,
            EvmInst::SLT => 14,
            EvmInst::SGT => 15,
            EvmInst::EQ => 16,
            EvmInst::ISZERO => 17,
            EvmInst::AND => 18,
            EvmInst::OR => 19,
            EvmInst::XOR => 20,
            EvmInst::NOT => 21,
            EvmInst::BYTE => 22,
            EvmInst::SHA3 => 23,
            EvmInst::ADDRESS => 24,
            EvmInst::BALANCE => 25,
            EvmInst::ORIGIN => 26,
            EvmInst::CALLER => 27,
            EvmInst::CALLVALUE => 28,
            EvmInst::CALLDATALOAD => 29,
            EvmInst::CALLDATASIZE => 30,
            EvmInst::CALLDATACOPY => 31,
            EvmInst::CODESIZE => 32,
            EvmInst::CODECOPY => 33,
            EvmInst::GASPRICE => 34,
            EvmInst::EXTCODESIZE => 35,
            EvmInst::EXTCODECOPY => 36,
            EvmInst::RETURNDATASIZE => 37,
            EvmInst::RETURNDATACOPY => 38,
            EvmInst::BLOCKHASH => 39,
            EvmInst::COINBASE => 40,
            EvmInst::TIMESTAMP => 41,
            EvmInst::NUMBER => 42,
            EvmInst::DIFFICULTY => 43,
            EvmInst::GASLIMIT => 44,
            EvmInst::POP => 45,
            EvmInst::MLOAD => 46,
            EvmInst::MSTORE => 47,
            EvmInst::MSTORE8 => 48,
            EvmInst::SLOAD => 49,
            EvmInst::SSTORE => 50,
            EvmInst::JUMP => 51,
            EvmInst::JUMPI => 52,
            EvmInst::PC => 53,
            EvmInst::MSIZE => 54,
            EvmInst::GAS => 55,
            EvmInst::JUMPDEST => 56,
            EvmInst::PUSH1 => 57,
            EvmInst::PUSH2 => 58,
            EvmInst::PUSH3 => 59,
            EvmInst::PUSH4 => 60,
            EvmInst::PUSH5 => 61,
            EvmInst::PUSH6 => 62,
            EvmInst::PUSH7 => 63,
            EvmInst::PUSH8 => 64,
            EvmInst::PUSH9 => 65,
            EvmInst::PUSH10 => 66,
            EvmInst::PUSH11 => 67,
            EvmInst::PUSH12 => 68,
            EvmInst::PUSH13 => 69,
            EvmInst::PUSH14 => 70,
            EvmInst::PUSH15 => 71,
            EvmInst::PUSH16 => 72,
            EvmInst::PUSH17 => 73,
            EvmInst::PUSH18 => 74,
            EvmInst::PUSH19 => 75,
            EvmInst::PUSH20 => 76,
            EvmInst::PUSH21 => 77,
            EvmInst::PUSH22 => 78,
            EvmInst::PUSH23 => 79,
            EvmInst::PUSH24 => 80,
            EvmInst::PUSH25 => 81,
            EvmInst::PUSH26 => 82,
            EvmInst::PUSH27 => 83,
            EvmInst::PUSH28 => 84,
            EvmInst::PUSH29 => 85,
            EvmInst::PUSH30 => 86,
            EvmInst::PUSH31 => 87,
            EvmInst::PUSH32 => 88,
            EvmInst::DUP1 => 89,
            EvmInst::DUP2 => 90,
            EvmInst::DUP3 => 91,
            EvmInst::DUP4 => 92,
            EvmInst::DUP5 => 93,
            EvmInst::DUP6 => 94,
            EvmInst::DUP7 => 95,
            EvmInst::DUP8 => 96,
            EvmInst::DUP9 => 97,
            EvmInst::DUP10 => 98,
            EvmInst::DUP11 => 99,
            EvmInst::DUP12 => 100,
            EvmInst::DUP13 => 101,
            EvmInst::DUP14 => 102,
            EvmInst::DUP15 => 103,
            EvmInst::DUP16 => 104,
            EvmInst::SWAP1 => 105,
            EvmInst::SWAP2 => 106,
            EvmInst::SWAP3 => 107,
            EvmInst::SWAP4 => 108,
            EvmInst::SWAP5 => 109,
            EvmInst::SWAP6 => 110,
            EvmInst::SWAP7 => 111,
            EvmInst::SWAP8 => 112,
            EvmInst::SWAP9 => 113,
            EvmInst::SWAP10 => 114,
            EvmInst::SWAP11 => 115,
            EvmInst::SWAP12 => 116,
            EvmInst::SWAP13 => 117,
            EvmInst::SWAP14 => 118,
            EvmInst::SWAP15 => 119,
            EvmInst::SWAP16 => 120,
            EvmInst::LOG0 => 121,
            EvmInst::LOG1 => 122,
            EvmInst::LOG2 => 123,
            EvmInst::LOG3 => 124,
            EvmInst::LOG4 => 125,
            EvmInst::CREATE => 126,
            EvmInst::CALL => 127,
            EvmInst::CALLCODE => 128,
            EvmInst::RETURN => 129,
            EvmInst::DELEGATECALL => 130,
            EvmInst::CREATE2 => 131,
            EvmInst::REVERT => 132,
            EvmInst::STATICCALL => 133,
            EvmInst::SUICIDE => 134,
        }
    }

    /// `spec_ordinal` as a `usize`.
    pub open spec fn spec_ordinal_usize(self) -> usize {
        self.spec_ordinal() as usize
    }

    /// The instruction that `s` names, if it names one.
    pub fn parse(s: &str) -> (found: Option<EvmInst>)
        ensures
            found == named(s@),
            match found {
                Some(op) => op.mnemonic() == s@,
                None => !is_mnemonic(s@),
            },
    {
        let mut i: usize = 0;
        while i < INST_COUNT
            invariant
                i <= INST_COUNT,
                forall|j: int| 0 <= j < i ==> (#[trigger] VALUES[j]).mnemonic() != s@,
            decreases INST_COUNT - i,
        {
            let op = VALUES[i];
            if str_eq(as_str(&op), s) {
                proof {
                    lemma_named(op);
                }
                return Some(op);
            }
            i += 1;
        }
        proof {
            assert forall|op: EvmInst| op.mnemonic() != s@ by {
                lemma_values_complete(op);
            }
        }
        None
    }

    /// The instruction that `s` names. `s` must be a mnemonic: a caller that
    /// cannot know it uses `parse`.
    pub fn from_str(s: &str) -> (op: EvmInst)
        requires
            is_mnemonic(s@),
        ensures
            op.mnemonic() == s@,
    {
        match Self::parse(s) {
            Some(op) => op,
            None => vstd::pervasive::unreached(),
        }
    }

    /// The instruction that a present `s` names.
    pub fn from_opt_str(s: Option<&str>) -> (op: EvmInst)
        requires
            s matches Some(name) && is_mnemonic(name@),
        ensures
            s matches Some(name) && op.mnemonic() == name@,
    {
        match s {
            Some(name) => Self::from_str(name),
            None => vstd::pervasive::unreached(),
        }
    }
}

/// Whether `s` is the mnemonic of an instruction.
pub open spec fn is_mnemonic(s: Seq<char>) -> bool {
    exists|op: EvmInst| op.mnemonic() == s
}

/// The instruction that a name stands for.
pub open spec fn named(s: Seq<char>) -> Option<EvmInst> {
    if is_mnemonic(s) {
        Some(choose|op: EvmInst| op.mnemonic() == s)
    } else {
        None
    }
}

/// The canonical upper-case name of the instruction.
pub fn as_str(op: &EvmInst) -> (name: &str)
    ensures
        name@ == op.mnemonic(),
{
    match *op {
        EvmInst::STOP => "STOP",
        EvmInst::ADD => "ADD",
        EvmInst::MUL => "MUL",
        EvmInst::SUB => "SUB",
        EvmInst::DIV => "DIV",
        EvmInst::SDIV => "SDIV",
        EvmInst::MOD => "MOD",
        EvmInst::SMOD => "SMOD",
        EvmInst::ADDMOD => "ADDMOD",
        EvmInst::MULMOD => "MULMOD",
        EvmInst::EXP => "EXP",
        EvmInst::SIGNEXTEND => "SIGNEXTEND",
        EvmInst::LT => "LT",
        EvmInst::GT => "GT",
        EvmInst::SLT => "SLT",
        EvmInst::SGT => "SGT",
        EvmInst::EQ => "EQ",
        EvmInst::ISZERO => "ISZERO",
        EvmInst::AND => "AND",
        EvmInst::OR => "OR",
        EvmInst::XOR => "XOR",
        EvmInst::NOT => "NOT",
        EvmInst::BYTE => "BYTE",
        EvmInst::SHA3 => "SHA3",
        EvmInst::ADDRESS => "ADDRESS",
        EvmInst::BALANCE => "BALANCE",
        EvmInst::ORIGIN => "ORIGIN",
        EvmInst::CALLER => "CALLER",
        EvmInst::CALLVALUE => "CALLVALUE",
        EvmInst::CALLDATALOAD => "CALLDATALOAD",
        EvmInst::CALLDATASIZE => "CALLDATASIZE",
        EvmInst::CALLDATACOPY => "CALLDATACOPY",
        EvmInst::CODESIZE => "CODESIZE",
        EvmInst::CODECOPY => "CODECOPY",
        EvmInst::GASPRICE => "GASPRICE",
        EvmInst::EXTCODESIZE => "EXTCODESIZE",
        EvmInst::EXTCODECOPY => "EXTCODECOPY",
        EvmInst::RETURNDATASIZE => "RETURNDATASIZE",
        EvmInst::RETURNDATACOPY => "RETURNDATACOPY",
        EvmInst::BLOCKHASH => "BLOCKHASH",
        EvmInst::COINBASE => "COINBASE",
        EvmInst::TIMESTAMP => "TIMESTAMP",
        EvmInst::NUMBER => "NUMBER",
        EvmInst::DIFFICULTY => "DIFFICULTY",
        EvmInst::GASLIMIT => "GASLIMIT",
        EvmInst::POP => "POP",
        EvmInst::MLOAD => "MLOAD",
        EvmInst::MSTORE => "MSTORE",
        EvmInst::MSTORE8 => "MSTORE8",
        EvmInst::SLOAD => "SLOAD",
        EvmInst::SSTORE => "SSTORE",
        EvmInst::JUMP => "JUMP",
        EvmInst::JUMPI => "JUMPI",
        EvmInst::PC => "PC",
        EvmInst::MSIZE => "MSIZE",
        EvmInst::GAS => "GAS",
        EvmInst::JUMPDEST => "JUMPDEST",
        EvmInst::PUSH1 => "PUSH1",
        EvmInst::PUSH2 => "PUSH2",
        EvmInst::PUSH3 => "PUSH3",
        EvmInst::PUSH4 => "PUSH4",
        EvmInst::PUSH5 => "PUSH5",
        EvmInst::PUSH6 => "PUSH6",
        EvmInst::PUSH7 => "PUSH7",
        EvmInst::PUSH8 => "PUSH8",
        EvmInst::PUSH9 => "PUSH9",
        EvmInst::PUSH10 => "PUSH10",
        EvmInst::PUSH11 => "PUSH11",
        EvmInst::PUSH12 => "PUSH12",
        EvmInst::PUSH13 => "PUSH13",
        EvmInst::PUSH14 => "PUSH14",
        EvmInst::PUSH15 => "PUSH15",
        EvmInst::PUSH16 => "PUSH16",
        EvmInst::PUSH17 => "PUSH17",
        EvmInst::PUSH18 => "PUSH18",
        EvmInst::PUSH19 => "PUSH19",
        EvmInst::PUSH20 => "PUSH20",
        EvmInst::PUSH21 => "PUSH21",
        EvmInst::PUSH22 => "PUSH22",
        EvmInst::PUSH23 => "PUSH23",
        EvmInst::PUSH24 => "PUSH24",
        EvmInst::PUSH25 => "PUSH25",
        EvmInst::PUSH26 => "PUSH26",
        EvmInst::PUSH27 => "PUSH27",
        EvmInst::PUSH28 => "PUSH28",
        EvmInst::PUSH29 => "PUSH29",
        EvmInst::PUSH30 => "PUSH30",
        EvmInst::PUSH31 => "PUSH31",
        EvmInst::PUSH32 => "PUSH32",
        EvmInst::DUP1 => "DUP1",
        EvmInst::DUP2 => "DUP2",
        EvmInst::DUP3 => "DUP3",
        EvmInst::DUP4 => "DUP4",
        EvmInst::DUP5 => "DUP5",
        EvmInst::DUP6 => "DUP6",
        EvmInst::DUP7 => "DUP7",
        EvmInst::DUP8 => "DUP8",
        EvmInst::DUP9 => "DUP9",
        EvmInst::DUP10 => "DUP10",
        EvmInst::DUP11 => "DUP11",
        EvmInst::DUP12 => "DUP12",
        EvmInst::DUP13 => "DUP13",
        EvmInst::DUP14 => "DUP14",
        EvmInst::DUP15 => "DUP15",
        EvmInst::DUP16 => "DUP16",
        EvmInst::SWAP1 => "SWAP1",
        EvmInst::SWAP2 => "SWAP2",
        EvmInst::SWAP3 => "SWAP3",
        EvmInst::SWAP4 => "SWAP4",
        EvmInst::SWAP5 => "SWAP5",
        EvmInst::SWAP6 => "SWAP6",
        EvmInst::SWAP7 => "SWAP7",
        EvmInst::SWAP8 => "SWAP8",
        EvmInst::SWAP9 => "SWAP9",
        EvmInst::SWAP10 => "SWAP10",
        EvmInst::SWAP11 => "SWAP11",
        EvmInst::SWAP12 => "SWAP12",
        EvmInst::SWAP13 => "SWAP13",
        EvmInst::SWAP14 => "SWAP14",
        EvmInst::SWAP15 => "SWAP15",
        EvmInst::SWAP16 => "SWAP16",
        EvmInst::LOG0 => "LOG0",
        EvmInst::LOG1 => "LOG1",
        EvmInst::LOG2 => "LOG2",
        EvmInst::LOG3 => "LOG3",
        EvmInst::LOG4 => "LOG4",
        EvmInst::CREATE => "CREATE",
        EvmInst::CALL => "CALL",
        EvmInst::CALLCODE => "CALLCODE",
        EvmInst::RETURN => "RETURN",
        EvmInst::DELEGATECALL => "DELEGATECALL",
        EvmInst::CREATE2 => "CREATE2",
        EvmInst::REVERT => "REVERT",
        EvmInst::STATICCALL => "STATICCALL",
        EvmInst::SUICIDE => "SUICIDE",
    }
}

/// `VALUES` lists every instruction, at the place that its ordinal gives.
pub proof fn lemma_values_complete(op: EvmInst)
    ensures
        0 <= op.spec_ordinal() < INST_COUNT,
        VALUES[op.spec_ordinal()] == op,
{
}

/// `VALUES` lists no instruction twice: the ordinal of its `i`-th entry is `i`.
pub proof fn lemma_values_distinct(i: int)
    requires
        0 <= i < INST_COUNT,
    ensures
        VALUES[i].spec_ordinal() == i,
{
}

/// No two instructions share a mnemonic.
pub proof fn lemma_mnemonic_injective(a: EvmInst, b: EvmInst)
    requires
        a.mnemonic() == b.mnemonic(),
    ensures
        a == b,
{
    reveal_strlit("STOP");
    reveal_strlit("ADD");
    reveal_strlit("MUL");
    reveal_strlit("SUB");
    reveal_strlit("DIV");
    reveal_strlit("SDIV");
    reveal_strlit("MOD");
    reveal_strlit("SMOD");
    reveal_strlit("ADDMOD");
    reveal_strlit("MULMOD");
    reveal_strlit("EXP");
    reveal_strlit("SIGNEXTEND");
    reveal_strlit("LT");
    reveal_strlit("GT");
    reveal_strlit("SLT");
    reveal_strlit("SGT");
    reveal_strlit("EQ");
    reveal_strlit("ISZERO");
    reveal_strlit("AND");
    reveal_strlit("OR");
    reveal_strlit("XOR");
    reveal_strlit("NOT");
    reveal_strlit("BYTE");
    reveal_strlit("SHA3");
    reveal_strlit("ADDRESS");
    reveal_strlit("BALANCE");
    reveal_strlit("ORIGIN");
    reveal_strlit("CALLER");
    reveal_strlit("CALLVALUE");
    reveal_strlit("CALLDATALOAD");
    reveal_strlit("CALLDATASIZE");
    reveal_strlit("CALLDATACOPY");
    reveal_strlit("CODESIZE");
    reveal_strlit("CODECOPY");
    reveal_strlit("GASPRICE");
    reveal_strlit("EXTCODESIZE");
    reveal_strlit("EXTCODECOPY");
    reveal_strlit("RETURNDATASIZE");
    reveal_strlit("RETURNDATACOPY");
    reveal_strlit("BLOCKHASH");
    reveal_strlit("COINBASE");
    reveal_strlit("TIMESTAMP");
    reveal_strlit("NUMBER");
    reveal_strlit("DIFFICULTY");
    reveal_strlit("GASLIMIT");
    reveal_strlit("POP");
    reveal_strlit("MLOAD");
    reveal_strlit("MSTORE");
    reveal_strlit("MSTORE8");
    reveal_strlit("SLOAD");
    reveal_strlit("SSTORE");
    reveal_strlit("JUMP");
    reveal_strlit("JUMPI");
    reveal_strlit("PC");
    reveal_strlit("MSIZE");
    reveal_strlit("GAS");
    reveal_strlit("JUMPDEST");
    reveal_strlit("PUSH1");
    reveal_strlit("PUSH2");
    reveal_strlit("PUSH3");
    reveal_strlit("PUSH4");
    reveal_strlit("PUSH5");
    reveal_strlit("PUSH6");
    reveal_strlit("PUSH7");
    reveal_strlit("PUSH8");
    reveal_strlit("PUSH9");
    reveal_strlit("PUSH10");
    reveal_strlit("PUSH11");
    reveal_strlit("PUSH12");
    reveal_strlit("PUSH13");
    reveal_strlit("PUSH14");
    reveal_strlit("PUSH15");
    reveal_strlit("PUSH16");
    reveal_strlit("PUSH17");
    reveal_strlit("PUSH18");
    reveal_strlit("PUSH19");
    reveal_strlit("PUSH20");
    reveal_strlit("PUSH21");
    reveal_strlit("PUSH22");
    reveal_strlit("PUSH23");
    reveal_strlit("PUSH24");
    reveal_strlit("PUSH25");
    reveal_strlit("PUSH26");
    reveal_strlit("PUSH27");
    reveal_strlit("PUSH28");
    reveal_strlit("PUSH29");
    reveal_strlit("PUSH30");
    reveal_strlit("PUSH31");
    reveal_strlit("PUSH32");
    reveal_strlit("DUP1");
    reveal_strlit("DUP2");
    reveal_strlit("DUP3");
    reveal_strlit("DUP4");
    reveal_strlit("DUP5");
    reveal_strlit("DUP6");
    reveal_strlit("DUP7");
    reveal_strlit("DUP8");
    reveal_strlit("DUP9");
    reveal_strlit("DUP10");
    reveal_strlit("DUP11");
    reveal_strlit("DUP12");
    reveal_strlit("DUP13");
    reveal_strlit("DUP14");
    reveal_strlit("DUP15");
    reveal_strlit("DUP16");
    reveal_strlit("SWAP1");
    reveal_strlit("SWAP2");
    reveal_strlit("SWAP3");
    reveal_strlit("SWAP4");
    reveal_strlit("SWAP5");
    reveal_strlit("SWAP6");
    reveal_strlit("SWAP7");
    reveal_strlit("SWAP8");
    reveal_strlit("SWAP9");
    reveal_strlit("SWAP10");
    reveal_strlit("SWAP11");
    reveal_strlit("SWAP12");
    reveal_strlit("SWAP13");
    reveal_strlit("SWAP14");
    reveal_strlit("SWAP15");
    reveal_strlit("SWAP16");
    reveal_strlit("LOG0");
    reveal_strlit("LOG1");
    reveal_strlit("LOG2");
    reveal_strlit("LOG3");
    reveal_strlit("LOG4");
    reveal_strlit("CREATE");
    reveal_strlit("CALL");
    reveal_strlit("CALLCODE");
    reveal_strlit("RETURN");
    reveal_strlit("DELEGATECALL");
    reveal_strlit("CREATE2");
    reveal_strlit("REVERT");
    reveal_strlit("STATICCALL");
    reveal_strlit("SUICIDE");
    assert("STOP"@.len() == 4 && "STOP"@[0] == 'S' && "STOP"@[1] == 'T' && "STOP"@[2] == 'O' && "STOP"@[3] == 'P');
    assert("ADD"@.len() == 3 && "ADD"@[0] == 'A' && "ADD"@[1] == 'D' && "ADD"@[2] == 'D');
    assert("MUL"@.len() == 3 && "MUL"@[0] == 'M' && "MUL"@[1] == 'U' && "MUL"@[2] == 'L');
    assert("SUB"@.len() == 3 && "SUB"@[0] == 'S' && "SUB"@[1] == 'U' && "SUB"@[2] == 'B');
    assert("DIV"@.len() == 3 && "DIV"@[0] == 'D' && "DIV"@[1] == 'I' && "DIV"@[2] == 'V');
    assert("SDIV"@.len() == 4 && "SDIV"@[0] == 'S' && "SDIV"@[1] == 'D' && "SDIV"@[2] == 'I' && "SDIV"@[3] == 'V');
    assert("MOD"@.len() == 3 && "MOD"@[0] == 'M' && "MOD"@[1] == 'O' && "MOD"@[2] == 'D');
    assert("SMOD"@.len() == 4 && "SMOD"@[0] == 'S' && "SMOD"@[1] == 'M' && "SMOD"@[2] == 'O' && "SMOD"@[3] == 'D');
    assert("ADDMOD"@.len() == 6 && "ADDMOD"@[0] == 'A' && "ADDMOD"@[1] == 'D' && "ADDMOD"@[2] == 'D' && "ADDMOD"@[3] == 'M' && "ADDMOD"@[4] == 'O' && "ADDMOD"@[5] == 'D');
    assert("MULMOD"@.len() == 6 && "MULMOD"@[0] == 'M' && "MULMOD"@[1] == 'U' && "MULMOD"@[2] == 'L' && "MULMOD"@[3] == 'M' && "MULMOD"@[4] == 'O' && "MULMOD"@[5] == 'D');
    assert("EXP"@.len() == 3 && "EXP"@[0] == 'E' && "EXP"@[1] == 'X' && "EXP"@[2] == 'P');
    assert("SIGNEXTEND"@.len() == 10 && "SIGNEXTEND"@[0] == 'S' && "SIGNEXTEND"@[1] == 'I' && "SIGNEXTEND"@[2] == 'G' && "SIGNEXTEND"@[3] == 'N' && "SIGNEXTEND"@[4] == 'E' && "SIGNEXTEND"@[5] == 'X' && "SIGNEXTEND"@[6] == 'T' && "SIGNEXTEND"@[7] == 'E' && "SIGNEXTEND"@[8] == 'N' && "SIGNEXTEND"@[9] == 'D');
    assert("LT"@.len() == 2 && "LT"@[0] == 'L' && "LT"@[1] == 'T');
    assert("GT"@.len() == 2 && "GT"@[0] == 'G' && "GT"@[1] == 'T');
    assert("SLT"@.len() == 3 && "SLT"@[0] == 'S' && "SLT"@[1] == 'L' && "SLT"@[2] == 'T');
    assert("SGT"@.len() == 3 && "SGT"@[0] == 'S' && "SGT"@[1] == 'G' && "SGT"@[2] == 'T');
    assert("EQ"@.len() == 2 && "EQ"@[0] == 'E' && "EQ"@[1] == 'Q');
    assert("ISZERO"@.len() == 6 && "ISZERO"@[0] == 'I' && "ISZERO"@[1] == 'S' && "ISZERO"@[2] == 'Z' && "ISZERO"@[3] == 'E' && "ISZERO"@[4] == 'R' && "ISZERO"@[5] == 'O');
    assert("AND"@.len() == 3 && "AND"@[0] == 'A' && "AND"@[1] == 'N' && "AND"@[2] == 'D');
    assert("OR"@.len() == 2 && "OR"@[0] == 'O' && "OR"@[1] == 'R');
    assert("XOR"@.len() == 3 && "XOR"@[0] == 'X' && "XOR"@[1] == 'O' && "XOR"@[2] == 'R');
    assert("NOT"@.len() == 3 && "NOT"@[0] == 'N' && "NOT"@[1] == 'O' && "NOT"@[2] == 'T');
    assert("BYTE"@.len() == 4 && "BYTE"@[0] == 'B' && "BYTE"@[1] == 'Y' && "BYTE"@[2] == 'T' && "BYTE"@[3] == 'E');
    assert("SHA3"@.len() == 4 && "SHA3"@[0] == 'S' && "SHA3"@[1] == 'H' && "SHA3"@[2] == 'A' && "SHA3"@[3] == '3');
    assert("ADDRESS"@.len() == 7 && "ADDRESS"@[0] == 'A' && "ADDRESS"@[1] == 'D' && "ADDRESS"@[2] == 'D' && "ADDRESS"@[3] == 'R' && "ADDRESS"@[4] == 'E' && "ADDRESS"@[5] == 'S' && "ADDRESS"@[6] == 'S');
    assert("BALANCE"@.len() == 7 && "BALANCE"@[0] == 'B' && "BALANCE"@[1] == 'A' && "BALANCE"@[2] == 'L' && "BALANCE"@[3] == 'A' && "BALANCE"@[4] == 'N' && "BALANCE"@[5] == 'C' && "BALANCE"@[6] == 'E');
    assert("ORIGIN"@.len() == 6 && "ORIGIN"@[0] == 'O' && "ORIGIN"@[1] == 'R' && "ORIGIN"@[2] == 'I' && "ORIGIN"@[3] == 'G' && "ORIGIN"@[4] == 'I' && "ORIGIN"@[5] == 'N');
    assert("CALLER"@.len() == 6 && "CALLER"@[0] == 'C' && "CALLER"@[1] == 'A' && "CALLER"@[2] == 'L' && "CALLER"@[3] == 'L' && "CALLER"@[4] == 'E' && "CALLER"@[5] == 'R');
    assert("CALLVALUE"@.len() == 9 && "CALLVALUE"@[0] == 'C' && "CALLVALUE"@[1] == 'A' && "CALLVALUE"@[2] == 'L' && "CALLVALUE"@[3] == 'L' && "CALLVALUE"@[4] == 'V' && "CALLVALUE"@[5] == 'A' && "CALLVALUE"@[6] == 'L' && "CALLVALUE"@[7] == 'U' && "CALLVALUE"@[8] == 'E');
    assert("CALLDATALOAD"@.len() == 12 && "CALLDATALOAD"@[0] == 'C' && "CALLDATALOAD"@[1] == 'A' && "CALLDATALOAD"@[2] == 'L' && "CALLDATALOAD"@[3] == 'L' && "CALLDATALOAD"@[4] == 'D' && "CALLDATALOAD"@[5] == 'A' && "CALLDATALOAD"@[6] == 'T' && "CALLDATALOAD"@[7] == 'A' && "CALLDATALOAD"@[8] == 'L' && "CALLDATALOAD"@[9] == 'O' && "CALLDATALOAD"@[10] == 'A' && "CALLDATALOAD"@[11] == 'D');
    assert("CALLDATASIZE"@.len() == 12 && "CALLDATASIZE"@[0] == 'C' && "CALLDATASIZE"@[1] == 'A' && "CALLDATASIZE"@[2] == 'L' && "CALLDATASIZE"@[3] == 'L' && "CALLDATASIZE"@[4] == 'D' && "CALLDATASIZE"@[5] == 'A' && "CALLDATASIZE"@[6] == 'T' && "CALLDATASIZE"@[7] == 'A' && "CALLDATASIZE"@[8] == 'S' && "CALLDATASIZE"@[9] == 'I' && "CALLDATASIZE"@[10] == 'Z' && "CALLDATASIZE"@[11] == 'E');
    assert("CALLDATACOPY"@.len() == 12 && "CALLDATACOPY"@[0] == 'C' && "CALLDATACOPY"@[1] == 'A' && "CALLDATACOPY"@[2] == 'L' && "CALLDATACOPY"@[3] == 'L' && "CALLDATACOPY"@[4] == 'D' && "CALLDATACOPY"@[5] == 'A' && "CALLDATACOPY"@[6] == 'T' && "CALLDATACOPY"@[7] == 'A' && "CALLDATACOPY"@[8] == 'C' && "CALLDATACOPY"@[9] == 'O' && "CALLDATACOPY"@[10] == 'P' && "CALLDATACOPY"@[11] == 'Y');
    assert("CODESIZE"@.len() == 8 && "CODESIZE"@[0] == 'C' && "CODESIZE"@[1] == 'O' && "CODESIZE"@[2] == 'D' && "CODESIZE"@[3] == 'E' && "CODESIZE"@[4] == 'S' && "CODESIZE"@[5] == 'I' && "CODESIZE"@[6] == 'Z' && "CODESIZE"@[7] == 'E');
    assert("CODECOPY"@.len() == 8 && "CODECOPY"@[0] == 'C' && "CODECOPY"@[1] == 'O' && "CODECOPY"@[2] == 'D' && "CODECOPY"@[3] == 'E' && "CODECOPY"@[4] == 'C' && "CODECOPY"@[5] == 'O' && "CODECOPY"@[6] == 'P' && "CODECOPY"@[7] == 'Y');
    assert("GASPRICE"@.len() == 8 && "GASPRICE"@[0] == 'G' && "GASPRICE"@[1] == 'A' && "GASPRICE"@[2] == 'S' && "GASPRICE"@[3] == 'P' && "GASPRICE"@[4] == 'R' && "GASPRICE"@[5] == 'I' && "GASPRICE"@[6] == 'C' && "GASPRICE"@[7] == 'E');
    assert("EXTCODESIZE"@.len() == 11 && "EXTCODESIZE"@[0] == 'E' && "EXTCODESIZE"@[1] == 'X' && "EXTCODESIZE"@[2] == 'T' && "EXTCODESIZE"@[3] == 'C' && "EXTCODESIZE"@[4] == 'O' && "EXTCODESIZE"@[5] == 'D' && "EXTCODESIZE"@[6] == 'E' && "EXTCODESIZE"@[7] == 'S' && "EXTCODESIZE"@[8] == 'I' && "EXTCODESIZE"@[9] == 'Z' && "EXTCODESIZE"@[10] == 'E');
    assert("EXTCODECOPY"@.len() == 11 && "EXTCODECOPY"@[0] == 'E' && "EXTCODECOPY"@[1] == 'X' && "EXTCODECOPY"@[2] == 'T' && "EXTCODECOPY"@[3] == 'C' && "EXTCODECOPY"@[4] == 'O' && "EXTCODECOPY"@[5] == 'D' && "EXTCODECOPY"@[6] == 'E' && "EXTCODECOPY"@[7] == 'C' && "EXTCODECOPY"@[8] == 'O' && "EXTCODECOPY"@[9] == 'P' && "EXTCODECOPY"@[10] == 'Y');
    assert("RETURNDATASIZE"@.len() == 14 && "RETURNDATASIZE"@[0] == 'R' && "RETURNDATASIZE"@[1] == 'E' && "RETURNDATASIZE"@[2] == 'T' && "RETURNDATASIZE"@[3] == 'U' && "RETURNDATASIZE"@[4] == 'R' && "RETURNDATASIZE"@[5] == 'N' && "RETURNDATASIZE"@[6] == 'D' && "RETURNDATASIZE"@[7] == 'A' && "RETURNDATASIZE"@[8] == 'T' && "RETURNDATASIZE"@[9] == 'A' && "RETURNDATASIZE"@[10] == 'S' && "RETURNDATASIZE"@[11] == 'I' && "RETURNDATASIZE"@[12] == 'Z' && "RETURNDATASIZE"@[13] == 'E');
    assert("RETURNDATACOPY"@.len() == 14 && "RETURNDATACOPY"@[0] == 'R' && "RETURNDATACOPY"@[1] == 'E' && "RETURNDATACOPY"@[2] == 'T' && "RETURNDATACOPY"@[3] == 'U' && "RETURNDATACOPY"@[4] == 'R' && "RETURNDATACOPY"@[5] == 'N' && "RETURNDATACOPY"@[6] == 'D' && "RETURNDATACOPY"@[7] == 'A' && "RETURNDATACOPY"@[8] == 'T' && "RETURNDATACOPY"@[9] == 'A' && "RETURNDATACOPY"@[10] == 'C' && "RETURNDATACOPY"@[11] == 'O' && "RETURNDATACOPY"@[12] == 'P' && "RETURNDATACOPY"@[13] == 'Y');
    assert("BLOCKHASH"@.len() == 9 && "BLOCKHASH"@[0] == 'B' && "BLOCKHASH"@[1] == 'L' && "BLOCKHASH"@[2] == 'O' && "BLOCKHASH"@[3] == 'C' && "BLOCKHASH"@[4] == 'K' && "BLOCKHASH"@[5] == 'H' && "BLOCKHASH"@[6] == 'A' && "BLOCKHASH"@[7] == 'S' && "BLOCKHASH"@[8] == 'H');
    assert("COINBASE"@.len() == 8 && "COINBASE"@[0] == 'C' && "COINBASE"@[1] == 'O' && "COINBASE"@[2] == 'I' && "COINBASE"@[3] == 'N' && "COINBASE"@[4] == 'B' && "COINBASE"@[5] == 'A' && "COINBASE"@[6] == 'S' && "COINBASE"@[7] == 'E');
    assert("TIMESTAMP"@.len() == 9 && "TIMESTAMP"@[0] == 'T' && "TIMESTAMP"@[1] == 'I' && "TIMESTAMP"@[2] == 'M' && "TIMESTAMP"@[3] == 'E' && "TIMESTAMP"@[4] == 'S' && "TIMESTAMP"@[5] == 'T' && "TIMESTAMP"@[6] == 'A' && "TIMESTAMP"@[7] == 'M' && "TIMESTAMP"@[8] == 'P');
    assert("NUMBER"@.len() == 6 && "NUMBER"@[0] == 'N' && "NUMBER"@[1] == 'U' && "NUMBER"@[2] == 'M' && "NUMBER"@[3] == 'B' && "NUMBER"@[4] == 'E' && "NUMBER"@[5] == 'R');
    assert("DIFFICULTY"@.len() == 10 && "DIFFICULTY"@[0] == 'D' && "DIFFICULTY"@[1] == 'I' && "DIFFICULTY"@[2] == 'F' && "DIFFICULTY"@[3] == 'F' && "DIFFICULTY"@[4] == 'I' && "DIFFICULTY"@[5] == 'C' && "DIFFICULTY"@[6] == 'U' && "DIFFICULTY"@[7] == 'L' && "DIFFICULTY"@[8] == 'T' && "DIFFICULTY"@[9] == 'Y');
    assert("GASLIMIT"@.len() == 8 && "GASLIMIT"@[0] == 'G' && "GASLIMIT"@[1] == 'A' && "GASLIMIT"@[2] == 'S' && "GASLIMIT"@[3] == 'L' && "GASLIMIT"@[4] == 'I' && "GASLIMIT"@[5] == 'M' && "GASLIMIT"@[6] == 'I' && "GASLIMIT"@[7] == 'T');
    assert("POP"@.len() == 3 && "POP"@[0] == 'P' && "POP"@[1] == 'O' && "POP"@[2] == 'P');
    assert("MLOAD"@.len() == 5 && "MLOAD"@[0] == 'M' && "MLOAD"@[1] == 'L' && "MLOAD"@[2] == 'O' && "MLOAD"@[3] == 'A' && "MLOAD"@[4] == 'D');
    assert("MSTORE"@.len() == 6 && "MSTORE"@[0] == 'M' && "MSTORE"@[1] == 'S' && "MSTORE"@[2] == 'T' && "MSTORE"@[3] == 'O' && "MSTORE"@[4] == 'R' && "MSTORE"@[5] == 'E');
    assert("MSTORE8"@.len() == 7 && "MSTORE8"@[0] == 'M' && "MSTORE8"@[1] == 'S' && "MSTORE8"@[2] == 'T' && "MSTORE8"@[3] == 'O' && "MSTORE8"@[4] == 'R' && "MSTORE8"@[5] == 'E' && "MSTORE8"@[6] == '8');
    assert("SLOAD"@.len() == 5 && "SLOAD"@[0] == 'S' && "SLOAD"@[1] == 'L' && "SLOAD"@[2] == 'O' && "SLOAD"@[3] == 'A' && "SLOAD"@[4] == 'D');
    assert("SSTORE"@.len() == 6 && "SSTORE"@[0] == 'S' && "SSTORE"@[1] == 'S' && "SSTORE"@[2] == 'T' && "SSTORE"@[3] == 'O' && "SSTORE"@[4] == 'R' && "SSTORE"@[5] == 'E');
    assert("JUMP"@.len() == 4 && "JUMP"@[0] == 'J' && "JUMP"@[1] == 'U' && "JUMP"@[2] == 'M' && "JUMP"@[3] == 'P');
    assert("JUMPI"@.len() == 5 && "JUMPI"@[0] == 'J' && "JUMPI"@[1] == 'U' && "JUMPI"@[2] == 'M' && "JUMPI"@[3] == 'P' && "JUMPI"@[4] == 'I');
    assert("PC"@.len() == 2 && "PC"@[0] == 'P' && "PC"@[1] == 'C');
    assert("MSIZE"@.len() == 5 && "MSIZE"@[0] == 'M' && "MSIZE"@[1] == 'S' && "MSIZE"@[2] == 'I' && "MSIZE"@[3] == 'Z' && "MSIZE"@[4] == 'E');
    assert("GAS"@.len() == 3 && "GAS"@[0] == 'G' && "GAS"@[1] == 'A' && "GAS"@[2] == 'S');
    assert("JUMPDEST"@.len() == 8 && "JUMPDEST"@[0] == 'J' && "JUMPDEST"@[1] == 'U' && "JUMPDEST"@[2] == 'M' && "JUMPDEST"@[3] == 'P' && "JUMPDEST"@[4] == 'D' && "JUMPDEST"@[5] == 'E' && "JUMPDEST"@[6] == 'S' && "JUMPDEST"@[7] == 'T');
    assert("PUSH1"@.len() == 5 && "PUSH1"@[0] == 'P' && "PUSH1"@[1] == 'U' && "PUSH1"@[2] == 'S' && "PUSH1"@[3] == 'H' && "PUSH1"@[4] == '1');
    assert("PUSH2"@.len() == 5 && "PUSH2"@[0] == 'P' && "PUSH2"@[1] == 'U' && "PUSH2"@[2] == 'S' && "PUSH2"@[3] == 'H' && "PUSH2"@[4] == '2');
    assert("PUSH3"@.len() == 5 && "PUSH3"@[0] == 'P' && "PUSH3"@[1] == 'U' && "PUSH3"@[2] == 'S' && "PUSH3"@[3] == 'H' && "PUSH3"@[4] == '3');
    assert("PUSH4"@.len() == 5 && "PUSH4"@[0] == 'P' && "PUSH4"@[1] == 'U' && "PUSH4"@[2] == 'S' && "PUSH4"@[3] == 'H' && "PUSH4"@[4] == '4');
    assert("PUSH5"@.len() == 5 && "PUSH5"@[0] == 'P' && "PUSH5"@[1] == 'U' && "PUSH5"@[2] == 'S' && "PUSH5"@[3] == 'H' && "PUSH5"@[4] == '5');
    assert("PUSH6"@.len() == 5 && "PUSH6"@[0] == 'P' && "PUSH6"@[1] == 'U' && "PUSH6"@[2] == 'S' && "PUSH6"@[3] == 'H' && "PUSH6"@[4] == '6');
    assert("PUSH7"@.len() == 5 && "PUSH7"@[0] == 'P' && "PUSH7"@[1] == 'U' && "PUSH7"@[2] == 'S' && "PUSH7"@[3] == 'H' && "PUSH7"@[4] == '7');
    assert("PUSH8"@.len() == 5 && "PUSH8"@[0] == 'P' && "PUSH8"@[1] == 'U' && "PUSH8"@[2] == 'S' && "PUSH8"@[3] == 'H' && "PUSH8"@[4] == '8');
    assert("PUSH9"@.len() == 5 && "PUSH9"@[0] == 'P' && "PUSH9"@[1] == 'U' && "PUSH9"@[2] == 'S' && "PUSH9"@[3] == 'H' && "PUSH9"@[4] == '9');
    assert("PUSH10"@.len() == 6 && "PUSH10"@[0] == 'P' && "PUSH10"@[1] == 'U' && "PUSH10"@[2] == 'S' && "PUSH10"@[3] == 'H' && "PUSH10"@[4] == '1' && "PUSH10"@[5] == '0');
    assert("PUSH11"@.len() == 6 && "PUSH11"@[0] == 'P' && "PUSH11"@[1] == 'U' && "PUSH11"@[2] == 'S' && "PUSH11"@[3] == 'H' && "PUSH11"@[4] == '1' && "PUSH11"@[5] == '1');
    assert("PUSH12"@.len() == 6 && "PUSH12"@[0] == 'P' && "PUSH12"@[1] == 'U' && "PUSH12"@[2] == 'S' && "PUSH12"@[3] == 'H' && "PUSH12"@[4] == '1' && "PUSH12"@[5] == '2');
    assert("PUSH13"@.len() == 6 && "PUSH13"@[0] == 'P' && "PUSH13"@[1] == 'U' && "PUSH13"@[2] == 'S' && "PUSH13"@[3] == 'H' && "PUSH13"@[4] == '1' && "PUSH13"@[5] == '3');
    assert("PUSH14"@.len() == 6 && "PUSH14"@[0] == 'P' && "PUSH14"@[1] == 'U' && "PUSH14"@[2] == 'S' && "PUSH14"@[3] == 'H' && "PUSH14"@[4] == '1' && "PUSH14"@[5] == '4');
    assert("PUSH15"@.len() == 6 && "PUSH15"@[0] == 'P' && "PUSH15"@[1] == 'U' && "PUSH15"@[2] == 'S' && "PUSH15"@[3] == 'H' && "PUSH15"@[4] == '1' && "PUSH15"@[5] == '5');
    assert("PUSH16"@.len() == 6 && "PUSH16"@[0] == 'P' && "PUSH16"@[1] == 'U' && "PUSH16"@[2] == 'S' && "PUSH16"@[3] == 'H' && "PUSH16"@[4] == '1' && "PUSH16"@[5] == '6');
    assert("PUSH17"@.len() == 6 && "PUSH17"@[0] == 'P' && "PUSH17"@[1] == 'U' && "PUSH17"@[2] == 'S' && "PUSH17"@[3] == 'H' && "PUSH17"@[4] == '1' && "PUSH17"@[5] == '7');
    assert("PUSH18"@.len() == 6 && "PUSH18"@[0] == 'P' && "PUSH18"@[1] == 'U' && "PUSH18"@[2] == 'S' && "PUSH18"@[3] == 'H' && "PUSH18"@[4] == '1' && "PUSH18"@[5] == '8');
    assert("PUSH19"@.len() == 6 && "PUSH19"@[0] == 'P' && "PUSH19"@[1] == 'U' && "PUSH19"@[2] == 'S' && "PUSH19"@[3] == 'H' && "PUSH19"@[4] == '1' && "PUSH19"@[5] == '9');
    assert("PUSH20"@.len() == 6 && "PUSH20"@[0] == 'P' && "PUSH20"@[1] == 'U' && "PUSH20"@[2] == 'S' && "PUSH20"@[3] == 'H' && "PUSH20"@[4] == '2' && "PUSH20"@[5] == '0');
    assert("PUSH21"@.len() == 6 && "PUSH21"@[0] == 'P' && "PUSH21"@[1] == 'U' && "PUSH21"@[2] == 'S' && "PUSH21"@[3] == 'H' && "PUSH21"@[4] == '2' && "PUSH21"@[5] == '1');
    assert("PUSH22"@.len() == 6 && "PUSH22"@[0] == 'P' && "PUSH22"@[1] == 'U' && "PUSH22"@[2] == 'S' && "PUSH22"@[3] == 'H' && "PUSH22"@[4] == '2' && "PUSH22"@[5] == '2');
    assert("PUSH23"@.len() == 6 && "PUSH23"@[0] == 'P' && "PUSH23"@[1] == 'U' && "PUSH23"@[2] == 'S' && "PUSH23"@[3] == 'H' && "PUSH23"@[4] == '2' && "PUSH23"@[5] == '3');
    assert("PUSH24"@.len() == 6 && "PUSH24"@[0] == 'P' && "PUSH24"@[1] == 'U' && "PUSH24"@[2] == 'S' && "PUSH24"@[3] == 'H' && "PUSH24"@[4] == '2' && "PUSH24"@[5] == '4');
    assert("PUSH25"@.len() == 6 && "PUSH25"@[0] == 'P' && "PUSH25"@[1] == 'U' && "PUSH25"@[2] == 'S' && "PUSH25"@[3] == 'H' && "PUSH25"@[4] == '2' && "PUSH25"@[5] == '5');
    assert("PUSH26"@.len() == 6 && "PUSH26"@[0] == 'P' && "PUSH26"@[1] == 'U' && "PUSH26"@[2] == 'S' && "PUSH26"@[3] == 'H' && "PUSH26"@[4] == '2' && "PUSH26"@[5] == '6');
    assert("PUSH27"@.len() == 6 && "PUSH27"@[0] == 'P' && "PUSH27"@[1] == 'U' && "PUSH27"@[2] == 'S' && "PUSH27"@[3] == 'H' && "PUSH27"@[4] == '2' && "PUSH27"@[5] == '7');
    assert("PUSH28"@.len() == 6 && "PUSH28"@[0] == 'P' && "PUSH28"@[1] == 'U' && "PUSH28"@[2] == 'S' && "PUSH28"@[3] == 'H' && "PUSH28"@[4] == '2' && "PUSH28"@[5] == '8');
    assert("PUSH29"@.len() == 6 && "PUSH29"@[0] == 'P' && "PUSH29"@[1] == 'U' && "PUSH29"@[2] == 'S' && "PUSH29"@[3] == 'H' && "PUSH29"@[4] == '2' && "PUSH29"@[5] == '9');
    assert("PUSH30"@.len() == 6 && "PUSH30"@[0] == 'P' && "PUSH30"@[1] == 'U' && "PUSH30"@[2] == 'S' && "PUSH30"@[3] == 'H' && "PUSH30"@[4] == '3' && "PUSH30"@[5] == '0');
    assert("PUSH31"@.len() == 6 && "PUSH31"@[0] == 'P' && "PUSH31"@[1] == 'U' && "PUSH31"@[2] == 'S' && "PUSH31"@[3] == 'H' && "PUSH31"@[4] == '3' && "PUSH31"@[5] == '1');
    assert("PUSH32"@.len() == 6 && "PUSH32"@[0] == 'P' && "PUSH32"@[1] == 'U' && "PUSH32"@[2] == 'S' && "PUSH32"@[3] == 'H' && "PUSH32"@[4] == '3' && "PUSH32"@[5] == '2');
    assert("DUP1"@.len() == 4 && "DUP1"@[0] == 'D' && "DUP1"@[1] == 'U' && "DUP1"@[2] == 'P' && "DUP1"@[3] == '1');
    assert("DUP2"@.len() == 4 && "DUP2"@[0] == 'D' && "DUP2"@[1] == 'U' && "DUP2"@[2] == 'P' && "DUP2"@[3] == '2');
    assert("DUP3"@.len() == 4 && "DUP3"@[0] == 'D' && "DUP3"@[1] == 'U' && "DUP3"@[2] == 'P' && "DUP3"@[3] == '3');
    assert("DUP4"@.len() == 4 && "DUP4"@[0] == 'D' && "DUP4"@[1] == 'U' && "DUP4"@[2] == 'P' && "DUP4"@[3] == '4');
    assert("DUP5"@.len() == 4 && "DUP5"@[0] == 'D' && "DUP5"@[1] == 'U' && "DUP5"@[2] == 'P' && "DUP5"@[3] == '5');
    assert("DUP6"@.len() == 4 && "DUP6"@[0] == 'D' && "DUP6"@[1] == 'U' && "DUP6"@[2] == 'P' && "DUP6"@[3] == '6');
    assert("DUP7"@.len() == 4 && "DUP7"@[0] == 'D' && "DUP7"@[1] == 'U' && "DUP7"@[2] == 'P' && "DUP7"@[3] == '7');
    assert("DUP8"@.len() == 4 && "DUP8"@[0] == 'D' && "DUP8"@[1] == 'U' && "DUP8"@[2] == 'P' && "DUP8"@[3] == '8');
    assert("DUP9"@.len() == 4 && "DUP9"@[0] == 'D' && "DUP9"@[1] == 'U' && "DUP9"@[2] == 'P' && "DUP9"@[3] == '9');
    assert("DUP10"@.len() == 5 && "DUP10"@[0] == 'D' && "DUP10"@[1] == 'U' && "DUP10"@[2] == 'P' && "DUP10"@[3] == '1' && "DUP10"@[4] == '0');
    assert("DUP11"@.len() == 5 && "DUP11"@[0] == 'D' && "DUP11"@[1] == 'U' && "DUP11"@[2] == 'P' && "DUP11"@[3] == '1' && "DUP11"@[4] == '1');
    assert("DUP12"@.len() == 5 && "DUP12"@[0] == 'D' && "DUP12"@[1] == 'U' && "DUP12"@[2] == 'P' && "DUP12"@[3] == '1' && "DUP12"@[4] == '2');
    assert("DUP13"@.len() == 5 && "DUP13"@[0] == 'D' && "DUP13"@[1] == 'U' && "DUP13"@[2] == 'P' && "DUP13"@[3] == '1' && "DUP13"@[4] == '3');
    assert("DUP14"@.len() == 5 && "DUP14"@[0] == 'D' && "DUP14"@[1] == 'U' && "DUP14"@[2] == 'P' && "DUP14"@[3] == '1' && "DUP14"@[4] == '4');
    assert("DUP15"@.len() == 5 && "DUP15"@[0] == 'D' && "DUP15"@[1] == 'U' && "DUP15"@[2] == 'P' && "DUP15"@[3] == '1' && "DUP15"@[4] == '5');
    assert("DUP16"@.len() == 5 && "DUP16"@[0] == 'D' && "DUP16"@[1] == 'U' && "DUP16"@[2] == 'P' && "DUP16"@[3] == '1' && "DUP16"@[4] == '6');
    assert("SWAP1"@.len() == 5 && "SWAP1"@[0] == 'S' && "SWAP1"@[1] == 'W' && "SWAP1"@[2] == 'A' && "SWAP1"@[3] == 'P' && "SWAP1"@[4] == '1');
    assert("SWAP2"@.len() == 5 && "SWAP2"@[0] == 'S' && "SWAP2"@[1] == 'W' && "SWAP2"@[2] == 'A' && "SWAP2"@[3] == 'P' && "SWAP2"@[4] == '2');
    assert("SWAP3"@.len() == 5 && "SWAP3"@[0] == 'S' && "SWAP3"@[1] == 'W' && "SWAP3"@[2] == 'A' && "SWAP3"@[3] == 'P' && "SWAP3"@[4] == '3');
    assert("SWAP4"@.len() == 5 && "SWAP4"@[0] == 'S' && "SWAP4"@[1] == 'W' && "SWAP4"@[2] == 'A' && "SWAP4"@[3] == 'P' && "SWAP4"@[4] == '4');
    assert("SWAP5"@.len() == 5 && "SWAP5"@[0] == 'S' && "SWAP5"@[1] == 'W' && "SWAP5"@[2] == 'A' && "SWAP5"@[3] == 'P' && "SWAP5"@[4] == '5');
    assert("SWAP6"@.len() == 5 && "SWAP6"@[0] == 'S' && "SWAP6"@[1] == 'W' && "SWAP6"@[2] == 'A' && "SWAP6"@[3] == 'P' && "SWAP6"@[4] == '6');
    assert("SWAP7"@.len() == 5 && "SWAP7"@[0] == 'S' && "SWAP7"@[1] == 'W' && "SWAP7"@[2] == 'A' && "SWAP7"@[3] == 'P' && "SWAP7"@[4] == '7');
    assert("SWAP8"@.len() == 5 && "SWAP8"@[0] == 'S' && "SWAP8"@[1] == 'W' && "SWAP8"@[2] == 'A' && "SWAP8"@[3] == 'P' && "SWAP8"@[4] == '8');
    assert("SWAP9"@.len() == 5 && "SWAP9"@[0] == 'S' && "SWAP9"@[1] == 'W' && "SWAP9"@[2] == 'A' && "SWAP9"@[3] == 'P' && "SWAP9"@[4] == '9');
    assert("SWAP10"@.len() == 6 && "SWAP10"@[0] == 'S' && "SWAP10"@[1] == 'W' && "SWAP10"@[2] == 'A' && "SWAP10"@[3] == 'P' && "SWAP10"@[4] == '1' && "SWAP10"@[5] == '0');
    assert("SWAP11"@.len() == 6 && "SWAP11"@[0] == 'S' && "SWAP11"@[1] == 'W' && "SWAP11"@[2] == 'A' && "SWAP11"@[3] == 'P' && "SWAP11"@[4] == '1' && "SWAP11"@[5] == '1');
    assert("SWAP12"@.len() == 6 && "SWAP12"@[0] == 'S' && "SWAP12"@[1] == 'W' && "SWAP12"@[2] == 'A' && "SWAP12"@[3] == 'P' && "SWAP12"@[4] == '1' && "SWAP12"@[5] == '2');
    assert("SWAP13"@.len() == 6 && "SWAP13"@[0] == 'S' && "SWAP13"@[1] == 'W' && "SWAP13"@[2] == 'A' && "SWAP13"@[3] == 'P' && "SWAP13"@[4] == '1' && "SWAP13"@[5] == '3');
    assert("SWAP14"@.len() == 6 && "SWAP14"@[0] == 'S' && "SWAP14"@[1] == 'W' && "SWAP14"@[2] == 'A' && "SWAP14"@[3] == 'P' && "SWAP14"@[4] == '1' && "SWAP14"@[5] == '4');
    assert("SWAP15"@.len() == 6 && "SWAP15"@[0] == 'S' && "SWAP15"@[1] == 'W' && "SWAP15"@[2] == 'A' && "SWAP15"@[3] == 'P' && "SWAP15"@[4] == '1' && "SWAP15"@[5] == '5');
    assert("SWAP16"@.len() == 6 && "SWAP16"@[0] == 'S' && "SWAP16"@[1] == 'W' && "SWAP16"@[2] == 'A' && "SWAP16"@[3] == 'P' && "SWAP16"@[4] == '1' && "SWAP16"@[5] == '6');
    assert("LOG0"@.len() == 4 && "LOG0"@[0] == 'L' && "LOG0"@[1] == 'O' && "LOG0"@[2] == 'G' && "LOG0"@[3] == '0');
    assert("LOG1"@.len() == 4 && "LOG1"@[0] == 'L' && "LOG1"@[1] == 'O' && "LOG1"@[2] == 'G' && "LOG1"@[3] == '1');
    assert("LOG2"@.len() == 4 && "LOG2"@[0] == 'L' && "LOG2"@[1] == 'O' && "LOG2"@[2] == 'G' && "LOG2"@[3] == '2');
    assert("LOG3"@.len() == 4 && "LOG3"@[0] == 'L' && "LOG3"@[1] == 'O' && "LOG3"@[2] == 'G' && "LOG3"@[3] == '3');
    assert("LOG4"@.len() == 4 && "LOG4"@[0] == 'L' && "LOG4"@[1] == 'O' && "LOG4"@[2] == 'G' && "LOG4"@[3] == '4');
    assert("CREATE"@.len() == 6 && "CREATE"@[0] == 'C' && "CREATE"@[1] == 'R' && "CREATE"@[2] == 'E' && "CREATE"@[3] == 'A' && "CREATE"@[4] == 'T' && "CREATE"@[5] == 'E');
    assert("CALL"@.len() == 4 && "CALL"@[0] == 'C' && "CALL"@[1] == 'A' && "CALL"@[2] == 'L' && "CALL"@[3] == 'L');
    assert("CALLCODE"@.len() == 8 && "CALLCODE"@[0] == 'C' && "CALLCODE"@[1] == 'A' && "CALLCODE"@[2] == 'L' && "CALLCODE"@[3] == 'L' && "CALLCODE"@[4] == 'C' && "CALLCODE"@[5] == 'O' && "CALLCODE"@[6] == 'D' && "CALLCODE"@[7] == 'E');
    assert("RETURN"@.len() == 6 && "RETURN"@[0] == 'R' && "RETURN"@[1] == 'E' && "RETURN"@[2] == 'T' && "RETURN"@[3] == 'U' && "RETURN"@[4] == 'R' && "RETURN"@[5] == 'N');
    assert("DELEGATECALL"@.len() == 12 && "DELEGATECALL"@[0] == 'D' && "DELEGATECALL"@[1] == 'E' && "DELEGATECALL"@[2] == 'L' && "DELEGATECALL"@[3] == 'E' && "DELEGATECALL"@[4] == 'G' && "DELEGATECALL"@[5] == 'A' && "DELEGATECALL"@[6] == 'T' && "DELEGATECALL"@[7] == 'E' && "DELEGATECALL"@[8] == 'C' && "DELEGATECALL"@[9] == 'A' && "DELEGATECALL"@[10] == 'L' && "DELEGATECALL"@[11] == 'L');
    assert("CREATE2"@.len() == 7 && "CREATE2"@[0] == 'C' && "CREATE2"@[1] == 'R' && "CREATE2"@[2] == 'E' && "CREATE2"@[3] == 'A' && "CREATE2"@[4] == 'T' && "CREATE2"@[5] == 'E' && "CREATE2"@[6] == '2');
    assert("REVERT"@.len() == 6 && "REVERT"@[0] == 'R' && "REVERT"@[1] == 'E' && "REVERT"@[2] == 'V' && "REVERT"@[3] == 'E' && "REVERT"@[4] == 'R' && "REVERT"@[5] == 'T');
    assert("STATICCALL"@.len() == 10 && "STATICCALL"@[0] == 'S' && "STATICCALL"@[1] == 'T' && "STATICCALL"@[2] == 'A' && "STATICCALL"@[3] == 'T' && "STATICCALL"@[4] == 'I' && "STATICCALL"@[5] == 'C' && "STATICCALL"@[6] == 'C' && "STATICCALL"@[7] == 'A' && "STATICCALL"@[8] == 'L' && "STATICCALL"@[9] == 'L');
    assert("SUICIDE"@.len() == 7 && "SUICIDE"@[0] == 'S' && "SUICIDE"@[1] == 'U' && "SUICIDE"@[2] == 'I' && "SUICIDE"@[3] == 'C' && "SUICIDE"@[4] == 'I' && "SUICIDE"@[5] == 'D' && "SUICIDE"@[6] == 'E');
}

/// No two instructions share an opcode byte.
pub proof fn lemma_code_injective(a: EvmInst, b: EvmInst)
    requires
        a.spec_code() == b.spec_code(),
    ensures
        a == b,
{
}

/// The name of an instruction stands for that instruction and no other.
pub proof fn lemma_named(op: EvmInst)
    ensures
        is_mnemonic(op.mnemonic()),
        named(op.mnemonic()) == Some(op),
{
    let found = choose|found: EvmInst| found.mnemonic() == op.mnemonic();
    lemma_mnemonic_injective(found, op);
}

} // verus!
