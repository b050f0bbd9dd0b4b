//! The instruction set: opcode fields, decoding, and the meaning of one
//! fetch-decode-execute cycle on an abstract machine state.
use vstd::prelude::*;

use crate::display::{CellRect, Colour, CELL_COUNT, SCREEN_HEIGHT, SCREEN_WIDTH, cell_index};

verus! {

/// Size of the addressable memory, in bytes.
pub const RAM_SIZE: usize = 4096;

/// Address at which programs are loaded and execution starts.
pub const PROGRAM_START: usize = 0x200;

/// Number of general-purpose registers `V0..VF`.
pub const REGISTER_COUNT: usize = 16;

/// The register that instructions overwrite with a carry, borrow or
/// collision flag.
pub const FLAG_REGISTER: usize = 0xF;

/// A fatal condition met while loading or running a program. Where it has a
/// `pc`, that is the address of the instruction that failed.
#[derive(Clone, Copy, Debug, PartialEq, Eq, Structural)]
pub enum EmulatorError {
    /// The opcode matches no instruction.
    InvalidOpcode { opcode: u16, pc: usize },
    /// The opcode names the shift instruction, which is not implemented.
    UnimplementedOpcode { opcode: u16, pc: usize },
    /// A return was executed with an empty stack.
    StackUnderflow { opcode: u16, pc: usize },
    /// The program counter leaves no room for a two-byte fetch.
    ProgramCounterOutOfRange { pc: usize },
    /// A sprite would be read from beyond the end of memory.
    SpriteOutOfRange { opcode: u16, pc: usize },
    /// A program does not fit between the load address and the end of memory.
    RomTooLarge { len: usize },
}

/// A decoded opcode. `x` and `y` are register numbers (below 16), `value`
/// and `mask` the low byte, `addr` the low twelve bits, `rows` the low nibble.
#[derive(Clone, Copy, Debug, PartialEq, Eq, Structural)]
pub enum Instruction {
    /// `00E0`
    ClearScreen,
    /// `00EE`
    Return,
    /// `1NNN`
    Jump { addr: u16 },
    /// `2NNN`
    Call { addr: u16 },
    /// `3XNN`
    SkipIfEqual { x: u8, value: u8 },
    /// `4XNN`
    SkipIfNotEqual { x: u8, value: u8 },
    /// `5XY0`
    SkipIfRegistersEqual { x: u8, y: u8 },
    /// `6XNN`
    Load { x: u8, value: u8 },
    /// `7XNN`
    AddImmediate { x: u8, value: u8 },
    /// `8XY0`
    Assign { x: u8, y: u8 },
    /// `8XY1`
    Or { x: u8, y: u8 },
    /// `8XY2`
    And { x: u8, y: u8 },
    /// `8XY3`
    Xor { x: u8, y: u8 },
    /// `8XY4`
    Add { x: u8, y: u8 },
    /// `8XY5`
    Subtract { x: u8, y: u8 },
    /// `8XY7`
    SubtractReversed { x: u8, y: u8 },
    /// `9XY0`
    SkipIfRegistersDiffer { x: u8, y: u8 },
    /// `ANNN`
    SetIndex { addr: u16 },
    /// `BNNN`
    JumpWithOffset { addr: u16 },
    /// `CXNN`
    Random { x: u8, mask: u8 },
    /// `DXYN`
    Draw { x: u8, y: u8, rows: u8 },
    /// `EX__` and `FX__`: keypad and timer instructions, accepted and
    /// executed as no-ops.
    Ignored,
    /// `8XY6`: the shift instruction.
    Unimplemented,
    /// Anything else.
    Invalid,
}

impl Instruction {
    /// Every register number it names is below 16.
    pub open spec fn wf(self) -> bool {
        match self {
            Instruction::SkipIfEqual { x, .. } | Instruction::SkipIfNotEqual { x, .. }
            | Instruction::Load { x, .. } | Instruction::AddImmediate { x, .. }
            | Instruction::Random { x, .. } => x < REGISTER_COUNT,
            Instruction::SkipIfRegistersEqual { x, y } | Instruction::SkipIfRegistersDiffer { x, y }
            | Instruction::Assign { x, y } | Instruction::Or { x, y } | Instruction::And { x, y }
            | Instruction::Xor { x, y } | Instruction::Add { x, y } | Instruction::Subtract { x, y }
            | Instruction::SubtractReversed { x, y } | Instruction::Draw { x, y, .. } => x
                < REGISTER_COUNT && y < REGISTER_COUNT,
            _ => true,
        }
    }
}

/// Bits 12-15 of an opcode.
pub open spec fn op_class(op: u16) -> u16 {
    op / 0x1000
}

/// Bits 8-11 of an opcode.
pub open spec fn op_x(op: u16) -> u8 {
    ((op / 0x100) % 0x10) as u8
}

/// Bits 4-7 of an opcode.
pub open spec fn op_y(op: u16) -> u8 {
    ((op / 0x10) % 0x10) as u8
}

/// Bits 0-3 of an opcode.
pub open spec fn op_n(op: u16) -> u8 {
    (op % 0x10) as u8
}

/// Bits 0-7 of an opcode.
pub open spec fn op_nn(op: u16) -> u8 {
    (op % 0x100) as u8
}

/// Bits 0-11 of an opcode.
pub open spec fn op_nnn(op: u16) -> u16 {
    op % 0x1000
}

/// The instruction an opcode stands for.
pub open spec fn decode_spec(op: u16) -> Instruction {
    let (x, y, n, nn, nnn) = (op_x(op), op_y(op), op_n(op), op_nn(op), op_nnn(op));
    let class: u16 = op_class(op);
    if op == 0x00E0 {
        Instruction::ClearScreen
    } else if op == 0x00EE {
        Instruction::Return
    } else if class == 0x1 {
        Instruction::Jump { addr: nnn }
    } else if class == 0x2 {
        Instruction::Call { addr: nnn }
    } else if class == 0x3 {
        Instruction::SkipIfEqual { x, value: nn }
    } else if class == 0x4 {
        Instruction::SkipIfNotEqual { x, value: nn }
    } else if class == 0x5 && n == 0 {
        Instruction::SkipIfRegistersEqual { x, y }
    } else if class == 0x6 {
        Instruction::Load { x, value: nn }
    } else if class == 0x7 {
        Instruction::AddImmediate { x, value: nn }
    } else if class == 0x8 && n == 0x0 {
        Instruction::Assign { x, y }
    } else if class == 0x8 && n == 0x1 {
        Instruction::Or { x, y }
    } else if class == 0x8 && n == 0x2 {
        Instruction::And { x, y }
    } else if class == 0x8 && n == 0x3 {
        Instruction::Xor { x, y }
    } else if class == 0x8 && n == 0x4 {
        Instruction::Add { x, y }
    } else if class == 0x8 && n == 0x5 {
        Instruction::Subtract { x, y }
    } else if class == 0x8 && n == 0x6 {
        Instruction::Unimplemented
    } else if class == 0x8 && n == 0x7 {
        Instruction::SubtractReversed { x, y }
    } else if class == 0x9 && n == 0 {
        Instruction::SkipIfRegistersDiffer { x, y }
    } else if class == 0xA {
        Instruction::SetIndex { addr: nnn }
    } else if class == 0xB {
        Instruction::JumpWithOffset { addr: nnn }
    } else if class == 0xC {
        Instruction::Random { x, mask: nn }
    } else if class == 0xD {
        Instruction::Draw { x, y, rows: n }
    } else if class == 0xE || class == 0xF {
        Instruction::Ignored
    } else {
        Instruction::Invalid
    }
}

/// Decodes an opcode.
pub fn decode(op: u16) -> (ins: Instruction)
    ensures
        ins == decode_spec(op),
        ins.wf(),
{
    let class: u16 = op / 0x1000;
    let x: u8 = ((op / 0x100) % 0x10) as u8;
    let y: u8 = ((op / 0x10) % 0x10) as u8;
    let n: u8 = (op % 0x10) as u8;
    let nn: u8 = (op % 0x100) as u8;
    let nnn: u16 = op % 0x1000;
    if op == 0x00E0 {
        Instruction::ClearScreen
    } else if op == 0x00EE {
        Instruction::Return
    } else if class == 0x1 {
        Instruction::Jump { addr: nnn }
    } else if class == 0x2 {
        Instruction::Call { addr: nnn }
    } else if class == 0x3 {
        Instruction::SkipIfEqual { x, value: nn }
    } else if class == 0x4 {
        Instruction::SkipIfNotEqual { x, value: nn }
    } else if class == 0x5 && n == 0 {
        Instruction::SkipIfRegistersEqual { x, y }
    } else if class == 0x6 {
        Instruction::Load { x, value: nn }
    } else if class == 0x7 {
        Instruction::AddImmediate { x, value: nn }
    } else if class == 0x8 {
        match n {
            0x0 => Instruction::Assign { x, y },
            0x1 => Instruction::Or { x, y },
            0x2 => Instruction::And { x, y },
            0x3 => Instruction::Xor { x, y },
            0x4 => Instruction::Add { x, y },
            0x5 => Instruction::Subtract { x, y },
            0x6 => Instruction::Unimplemented,
            0x7 => Instruction::SubtractReversed { x, y },
            _ => Instruction::Invalid,
        }
    } else if class == 0x9 && n == 0 {
        Instruction::SkipIfRegistersDiffer { x, y }
    } else if class == 0xA {
        Instruction::SetIndex { addr: nnn }
    } else if class == 0xB {
        Instruction::JumpWithOffset { addr: nnn }
    } else if class == 0xC {
        Instruction::Random { x, mask: nn }
    } else if class == 0xD {
        Instruction::Draw { x, y, rows: n }
    } else if class == 0xE || class == 0xF {
        Instruction::Ignored
    } else {
        Instruction::Invalid
    }
}

/// The whole observable state of an emulator: memory, registers, stack,
/// timers and framebuffer.
pub struct MachineState {
    pub ram: Seq<u8>,
    pub pc: usize,
    pub index: usize,
    pub stack: Seq<u16>,
    pub delay_timer: u8,
    pub sound_timer: u8,
    pub v: Seq<u8>,
    /// The lit flag of each cell, row-major.
    pub pixels: Seq<bool>,
    /// The screen region of each cell, row-major.
    pub regions: Seq<CellRect>,
    pub colour_on: Colour,
    pub colour_off: Colour,
}

impl MachineState {
    /// Memory, registers and framebuffer have their fixed sizes.
    pub open spec fn wf(&self) -> bool {
        &&& self.ram.len() == RAM_SIZE
        &&& self.v.len() == REGISTER_COUNT
        &&& self.pixels.len() == CELL_COUNT
        &&& self.regions.len() == CELL_COUNT
    }

    /// Register `x` set to `value`.
    pub open spec fn set_reg(self, x: int, value: u8) -> MachineState {
        MachineState { v: self.v.update(x, value), ..self }
    }

    /// The program counter moved past one more instruction.
    pub open spec fn skip(self) -> MachineState {
        MachineState { pc: (self.pc + 2) as usize, ..self }
    }

    /// `skip()` when `cond` holds, else unchanged.
    pub open spec fn skip_if(self, cond: bool) -> MachineState {
        if cond {
            self.skip()
        } else {
            self
        }
    }
}

/// The opcode stored big-endian at `pc` and `pc + 1`.
pub open spec fn opcode_at(ram: Seq<u8>, pc: int) -> u16 {
    (ram[pc] * 256 + ram[pc + 1]) as u16
}

/// Bit `bit` of a sprite row, counted from the most significant bit.
pub open spec fn sprite_bit(row_byte: u8, bit: int) -> bool {
    (row_byte >> ((7 - bit) as u8)) & 1u8 == 1u8
}

/// Whether a sprite of `rows` rows read from `ram` at `index` and drawn with
/// its top-left corner at column `x0`, row `y0` covers the cell at column
/// `col`, row `row`.
pub open spec fn sprite_covers(
    ram: Seq<u8>,
    index: int,
    x0: int,
    y0: int,
    rows: int,
    col: int,
    row: int,
) -> bool {
    &&& x0 <= col < x0 + 8
    &&& y0 <= row < y0 + rows
    &&& sprite_bit(ram[index + row - y0], col - x0)
}

/// The framebuffer after drawing that sprite: every covered cell flipped.
/// Cells beyond the right or bottom edge are not drawn.
pub open spec fn drawn_pixels(s: MachineState, x0: int, y0: int, rows: int) -> Seq<bool> {
    Seq::new(
        CELL_COUNT as nat,
        |k: int|
            s.pixels[k] != sprite_covers(
                s.ram,
                s.index as int,
                x0,
                y0,
                rows,
                k % SCREEN_WIDTH as int,
                k / SCREEN_WIDTH as int,
            ),
    )
}

/// Whether drawing that sprite turns some lit cell off.
pub open spec fn sprite_collides(s: MachineState, x0: int, y0: int, rows: int) -> bool {
    exists|col: int, row: int|
        0 <= col < SCREEN_WIDTH && 0 <= row < SCREEN_HEIGHT && #[trigger] s.pixels[cell_index(
            col,
            row,
        )] && sprite_covers(s.ram, s.index as int, x0, y0, rows, col, row)
}

/// What executing `ins` (decoded from `op`, fetched at `at`) does to `s`,
/// whose program counter has already moved past the instruction. `random`
/// is the byte that a random-number instruction draws.
pub open spec fn execute_spec(
    s: MachineState,
    ins: Instruction,
    op: u16,
    at: usize,
    random: u8,
) -> Result<MachineState, EmulatorError> {
    match ins {
        Instruction::ClearScreen => Ok(
            MachineState { pixels: Seq::new(CELL_COUNT as nat, |k: int| false), ..s },
        ),
        Instruction::Return => if s.stack.len() == 0 {
            Err(EmulatorError::StackUnderflow { opcode: op, pc: at })
        } else {
            Ok(MachineState { pc: s.stack.last() as usize, stack: s.stack.drop_last(), ..s })
        },
        Instruction::Jump { addr } => Ok(MachineState { pc: addr as usize, ..s }),
        Instruction::Call { addr } => Ok(
            MachineState { pc: addr as usize, stack: s.stack.push(s.pc as u16), ..s },
        ),
        Instruction::SkipIfEqual { x, value } => Ok(s.skip_if(s.v[x as int] == value)),
        Instruction::SkipIfNotEqual { x, value } => Ok(s.skip_if(s.v[x as int] != value)),
        Instruction::SkipIfRegistersEqual { x, y } => Ok(
            s.skip_if(s.v[x as int] == s.v[y as int]),
        ),
        Instruction::SkipIfRegistersDiffer { x, y } => Ok(
            s.skip_if(s.v[x as int] != s.v[y as int]),
        ),
        Instruction::Load { x, value } => Ok(s.set_reg(x as int, value)),
        Instruction::AddImmediate { x, value } => Ok(
            s.set_reg(x as int, ((s.v[x as int] + value) % 256) as u8),
        ),
        Instruction::Assign { x, y } => Ok(s.set_reg(x as int, s.v[y as int])),
        Instruction::Or { x, y } => Ok(s.set_reg(x as int, s.v[x as int] | s.v[y as int])),
        Instruction::And { x, y } => Ok(s.set_reg(x as int, s.v[x as int] & s.v[y as int])),
        Instruction::Xor { x, y } => Ok(s.set_reg(x as int, s.v[x as int] ^ s.v[y as int])),
        Instruction::Add { x, y } => {
            let (a, b) = (s.v[x as int], s.v[y as int]);
            Ok(
                s.set_reg(FLAG_REGISTER as int, if a + b > 255 { 1u8 } else { 0u8 }).set_reg(
                    x as int,
                    ((a + b) % 256) as u8,
                ),
            )
        },
        Instruction::Subtract { x, y } => {
            let (a, b) = (s.v[x as int], s.v[y as int]);
            Ok(
                s.set_reg(FLAG_REGISTER as int, if a > b { 1u8 } else { 0u8 }).set_reg(
                    x as int,
                    ((a - b + 256) % 256) as u8,
                ),
            )
        },
        Instruction::SubtractReversed { x, y } => {
            let (a, b) = (s.v[x as int], s.v[y as int]);
            Ok(
                s.set_reg(FLAG_REGISTER as int, if b > a { 1u8 } else { 0u8 }).set_reg(
                    x as int,
                    ((b - a + 256) % 256) as u8,
                ),
            )
        },
        Instruction::SetIndex { addr } => Ok(MachineState { index: addr as usize, ..s }),
        Instruction::JumpWithOffset { addr } => Ok(
            MachineState { pc: (s.v[0] + addr) as usize, ..s },
        ),
        Instruction::Random { x, mask } => Ok(s.set_reg(x as int, random & mask)),
        Instruction::Draw { x, y, rows } => if s.index + rows > RAM_SIZE {
            Err(EmulatorError::SpriteOutOfRange { opcode: op, pc: at })
        } else {
            let x0: int = s.v[x as int] as int % SCREEN_WIDTH as int;
            let y0: int = s.v[y as int] as int % SCREEN_HEIGHT as int;
            let collided = sprite_collides(s, x0, y0, rows as int);
            Ok(
                MachineState {
                    pixels: drawn_pixels(s, x0, y0, rows as int),
                    v: s.v.update(FLAG_REGISTER as int, if collided { 1u8 } else { 0u8 }),
                    ..s
                },
            )
        },
        Instruction::Ignored => Ok(s),
        Instruction::Unimplemented => Err(EmulatorError::UnimplementedOpcode { opcode: op, pc: at }),
        Instruction::Invalid => Err(EmulatorError::InvalidOpcode { opcode: op, pc: at }),
    }
}

/// One fetch-decode-execute cycle: fetch the opcode at the program counter,
/// move the counter past it, and execute it.
pub open spec fn cycle(s: MachineState, random: u8) -> Result<MachineState, EmulatorError> {
    if s.pc + 1 >= RAM_SIZE {
        Err(EmulatorError::ProgramCounterOutOfRange { pc: s.pc })
    } else {
        let op: u16 = opcode_at(s.ram, s.pc as int);
        execute_spec(MachineState { pc: (s.pc + 2) as usize, ..s }, decode_spec(op), op, s.pc, random)
    }
}

/// A cycle from `s` with drawn byte `random` returned `r` and left `t`: on
/// success the state that `cycle` gives, on failure its error and `s`
/// unchanged.
pub open spec fn cycle_outcome(
    s: MachineState,
    random: u8,
    r: Result<(), EmulatorError>,
    t: MachineState,
) -> bool {
    match cycle(s, random) {
        Ok(next) => r == Ok::<(), EmulatorError>(()) && t == next,
        Err(e) => r == Err::<(), EmulatorError>(e) && t == s,
    }
}

} // verus!
