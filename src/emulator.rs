//! The interpreter: memory and register model and the fetch-decode-execute
//! cycle.
use vstd::prelude::*;

use crate::display::{
    CELL_COUNT,
    Colour,
    Display,
    SCREEN_HEIGHT,
    SCREEN_WIDTH,
    cell_index,
    cell_region,
    row_covers,
};
use crate::isa::{
    EmulatorError,
    FLAG_REGISTER,
    Instruction,
    MachineState,
    PROGRAM_START,
    RAM_SIZE,
    REGISTER_COUNT,
    cycle_outcome,
    decode,
    drawn_pixels,
    execute_spec,
    opcode_at,
    sprite_collides,
    sprite_covers,
};

verus! {

/// `ram` with `rom` copied in from the program load address on.
pub open spec fn loaded_ram(ram: Seq<u8>, rom: Seq<u8>) -> Seq<u8> {
    Seq::new(
        RAM_SIZE as nat,
        |a: int|
            if PROGRAM_START <= a < PROGRAM_START + rom.len() {
                rom[a - PROGRAM_START]
            } else {
                ram[a]
            },
    )
}

/// The instructions whose only effect is on registers.
pub open spec fn is_register_op(ins: Instruction) -> bool {
    match ins {
        Instruction::Load { .. } | Instruction::AddImmediate { .. } | Instruction::Assign { .. }
        | Instruction::Or { .. } | Instruction::And { .. } | Instruction::Xor { .. }
        | Instruction::Add { .. } | Instruction::Subtract { .. }
        | Instruction::SubtractReversed { .. } | Instruction::Random { .. } => true,
        _ => false,
    }
}

/// Memory, registers, stack and timers of one emulator.
pub struct Memory {
    pub ram: [u8; RAM_SIZE],
    /// Program counter: address of the next instruction.
    pub pc: usize,
    /// Index register: the address sprites are read from.
    pub i: usize,
    /// Return addresses, innermost last.
    pub stack: Vec<u16>,
    pub delay_timer: u8,
    pub sound_timer: u8,
    /// Registers `V0..VF`.
    pub v: [u8; REGISTER_COUNT],
}

/// The keypad; no instruction reads it yet.
pub struct Keypad {}

impl Memory {
    /// Zeroed memory and registers, an empty stack, execution starting at
    /// the program load address, both timers at 255.
    pub fn init() -> (m: Memory)
        ensures
            forall|a: int| 0 <= a < RAM_SIZE ==> #[trigger] m.ram@[a] == 0,
            m.pc == PROGRAM_START,
            m.i == 0,
            m.stack@.len() == 0,
            m.delay_timer == 255,
            m.sound_timer == 255,
            forall|r: int| 0 <= r < REGISTER_COUNT ==> #[trigger] m.v@[r] == 0,
    {
        Memory {
            ram: [0u8; RAM_SIZE],
            pc: PROGRAM_START,
            i: 0,
            stack: Vec::new(),
            delay_timer: 255,
            sound_timer: 255,
            v: [0u8; REGISTER_COUNT],
        }
    }
}

/// A CHIP-8 machine: its memory and the framebuffer it draws on.
pub struct Emulator {
    pub mem: Memory,
    pub display: Display,
}

impl View for Emulator {
    type V = MachineState;

    open spec fn view(&self) -> MachineState {
        MachineState {
            ram: self.mem.ram@,
            pc: self.mem.pc,
            index: self.mem.i,
            stack: self.mem.stack@,
            delay_timer: self.mem.delay_timer,
            sound_timer: self.mem.sound_timer,
            v: self.mem.v@,
            pixels: self.display.pixels(),
            regions: self.display.regions(),
            colour_on: self.display.cell_colour_on,
            colour_off: self.display.cell_colour_off,
        }
    }
}

/// Relies on `rand::random::<u8>`, which draws a byte from the thread-local
/// generator; nothing is promised of its value.
#[verifier::external_body]
fn random_byte() -> u8 {
    rand::random::<u8>()
}

impl Emulator {
    /// A machine in its initial state, with a cleared framebuffer of 16 x 16
    /// cells, white on black.
    pub fn new() -> (e: Emulator)
        ensures
            e@.wf(),
            forall|a: int| 0 <= a < RAM_SIZE ==> #[trigger] e@.ram[a] == 0,
            e@.pc == PROGRAM_START,
            e@.index == 0,
            e@.stack.len() == 0,
            e@.delay_timer == 255,
            e@.sound_timer == 255,
            forall|r: int| 0 <= r < REGISTER_COUNT ==> #[trigger] e@.v[r] == 0,
            forall|k: int|
                0 <= k < CELL_COUNT ==> !#[trigger] e@.pixels[k] && e@.regions[k]
                    == cell_region(k, 16, 16),
            e@.colour_on == (Colour { r: 255, g: 255, b: 255, a: 255 }),
            e@.colour_off == (Colour { r: 0, g: 0, b: 0, a: 255 }),
    {
        let mem = Memory::init();
        let mut display = Display::new();
        display.init_cells(16, 16, Colour::white(), Colour::black());
        Emulator { mem, display }
    }

    /// Loads a program: copies `rom` verbatim into memory from the load
    /// address on. A program that does not fit before the end of memory is
    /// refused and nothing changes.
    pub fn load_rom(&mut self, rom: &[u8]) -> (r: Result<(), EmulatorError>)
        ensures
            rom@.len() > RAM_SIZE - PROGRAM_START ==> r == Err::<(), EmulatorError>(
                EmulatorError::RomTooLarge { len: rom@.len() as usize },
            ) && final(self)@ == old(self)@,
            rom@.len() <= RAM_SIZE - PROGRAM_START ==> r == Ok::<(), EmulatorError>(())
                && final(self)@ == (MachineState { ram: loaded_ram(old(self)@.ram, rom@), ..old(self)@ }),
    {
        if rom.len() > RAM_SIZE - PROGRAM_START {
            return Err(EmulatorError::RomTooLarge { len: rom.len() });
        }
        let mut k: usize = 0;
        while k < rom.len()
            invariant
                k <= rom@.len() <= RAM_SIZE - PROGRAM_START,
                self.display == old(self).display,
                self.mem.pc == old(self).mem.pc,
                self.mem.i == old(self).mem.i,
                self.mem.stack == old(self).mem.stack,
                self.mem.delay_timer == old(self).mem.delay_timer,
                self.mem.sound_timer == old(self).mem.sound_timer,
                self.mem.v == old(self).mem.v,
                forall|a: int|
                    0 <= a < RAM_SIZE ==> #[trigger] self.mem.ram@[a] == if PROGRAM_START <= a
                        < PROGRAM_START + k {
                        rom@[a - PROGRAM_START]
                    } else {
                        old(self).mem.ram@[a]
                    },
            decreases rom@.len() - k,
        {
            self.mem.ram[PROGRAM_START + k] = rom[k];
            k += 1;
        }
        assert(self.mem.ram@ =~= loaded_ram(old(self)@.ram, rom@));
        Ok(())
    }

    /// Executes one cycle, drawing a random byte for the random-number
    /// instruction. The outcome is that of `step` for some byte.
    pub fn emulate_cycle(&mut self) -> (r: Result<(), EmulatorError>)
        ensures
            exists|random: u8| cycle_outcome(old(self)@, random, r, final(self)@),
    {
        let random: u8 = random_byte();
        self.step(random)
    }

    /// Executes one cycle, with `random` as the byte that the random-number
    /// instruction draws: on success the state becomes `cycle(old, random)`;
    /// on failure the error is returned and nothing changes.
    pub fn step(&mut self, random: u8) -> (r: Result<(), EmulatorError>)
        ensures
            cycle_outcome(old(self)@, random, r, final(self)@),
    {
        let at: usize = self.mem.pc;
        if at >= RAM_SIZE - 1 {
            return Err(EmulatorError::ProgramCounterOutOfRange { pc: at });
        }
        let opcode: u16 = self.mem.ram[at] as u16 * 256 + self.mem.ram[at + 1] as u16;
        assert(opcode == opcode_at(self@.ram, at as int));
        let ins = decode(opcode);
        self.execute(ins, opcode, random)
    }

    /// Executes `ins`, decoded from `op`, which was fetched at the program
    /// counter.
    fn execute(&mut self, ins: Instruction, op: u16, random: u8) -> (r: Result<(), EmulatorError>)
        requires
            old(self).mem.pc + 1 < RAM_SIZE,
            ins.wf(),
        ensures
            match execute_spec(
                MachineState { pc: (old(self).mem.pc + 2) as usize, ..old(self)@ },
                ins,
                op,
                old(self).mem.pc,
                random,
            ) {
                Ok(next) => r == Ok::<(), EmulatorError>(()) && final(self)@ == next,
                Err(e) => r == Err::<(), EmulatorError>(e) && final(self)@ == old(self)@,
            },
    {
        let at: usize = self.mem.pc;
        match ins {
            Instruction::Invalid => {
                return Err(EmulatorError::InvalidOpcode { opcode: op, pc: at });
            },
            Instruction::Unimplemented => {
                return Err(EmulatorError::UnimplementedOpcode { opcode: op, pc: at });
            },
            Instruction::Return => {
                if self.mem.stack.len() == 0 {
                    return Err(EmulatorError::StackUnderflow { opcode: op, pc: at });
                }
            },
            Instruction::Draw { rows, .. } => {
                if self.mem.i > RAM_SIZE - rows as usize {
                    return Err(EmulatorError::SpriteOutOfRange { opcode: op, pc: at });
                }
            },
            _ => {},
        }
        self.mem.pc = at + 2;
        match ins {
            Instruction::ClearScreen => {
                self.display.clear_screen();
                assert(self.display.pixels() =~= Seq::new(
                    CELL_COUNT as nat,
                    |k: int| false,
                ));
                assert(self.display.regions() =~= old(self).display.regions());
            },
            Instruction::Return => {
                if let Some(addr) = self.mem.stack.pop() {
                    self.mem.pc = addr as usize;
                }
            },
            Instruction::Jump { addr } => {
                self.mem.pc = addr as usize;
            },
            Instruction::Call { addr } => {
                self.mem.stack.push(self.mem.pc as u16);
                self.mem.pc = addr as usize;
            },
            Instruction::SkipIfEqual { x, value } => {
                if self.mem.v[x as usize] == value {
                    self.mem.pc = self.mem.pc + 2;
                }
            },
            Instruction::SkipIfNotEqual { x, value } => {
                if self.mem.v[x as usize] != value {
                    self.mem.pc = self.mem.pc + 2;
                }
            },
            Instruction::SkipIfRegistersEqual { x, y } => {
                if self.mem.v[x as usize] == self.mem.v[y as usize] {
                    self.mem.pc = self.mem.pc + 2;
                }
            },
            Instruction::SkipIfRegistersDiffer { x, y } => {
                if self.mem.v[x as usize] != self.mem.v[y as usize] {
                    self.mem.pc = self.mem.pc + 2;
                }
            },
            Instruction::SetIndex { addr } => {
                self.mem.i = addr as usize;
            },
            Instruction::JumpWithOffset { addr } => {
                self.mem.pc = self.mem.v[0] as usize + addr as usize;
            },
            Instruction::Draw { x, y, rows } => {
                self.draw_sprite(x, y, rows);
            },
            Instruction::Ignored | Instruction::Unimplemented | Instruction::Invalid => {},
            _ => {
                self.execute_register_op(ins, op, at, random);
            },
        }
        Ok(())
    }

    /// Executes an instruction that changes registers only: a load, an
    /// arithmetic or bitwise operation, or a random byte.
    fn execute_register_op(&mut self, ins: Instruction, op: u16, at: usize, random: u8)
        requires
            ins.wf(),
            is_register_op(ins),
        ensures
            execute_spec(old(self)@, ins, op, at, random) == Ok::<MachineState, EmulatorError>(
                final(self)@,
            ),
    {
        match ins {
            Instruction::Load { x, value } => {
                self.mem.v[x as usize] = value;
            },
            Instruction::AddImmediate { x, value } => {
                self.mem.v[x as usize] = self.mem.v[x as usize].wrapping_add(value);
            },
            Instruction::Assign { x, y } => {
                self.mem.v[x as usize] = self.mem.v[y as usize];
            },
            Instruction::Or { x, y } => {
                self.mem.v[x as usize] = self.mem.v[x as usize] | self.mem.v[y as usize];
            },
            Instruction::And { x, y } => {
                self.mem.v[x as usize] = self.mem.v[x as usize] & self.mem.v[y as usize];
            },
            Instruction::Xor { x, y } => {
                self.mem.v[x as usize] = self.mem.v[x as usize] ^ self.mem.v[y as usize];
            },
            Instruction::Add { x, y } => {
                let a: u8 = self.mem.v[x as usize];
                let b: u8 = self.mem.v[y as usize];
                self.mem.v[FLAG_REGISTER] = if a as u16 + b as u16 > 255 {
                    1
                } else {
                    0
                };
                self.mem.v[x as usize] = a.wrapping_add(b);
            },
            Instruction::Subtract { x, y } => {
                let a: u8 = self.mem.v[x as usize];
                let b: u8 = self.mem.v[y as usize];
                self.mem.v[FLAG_REGISTER] = if a > b {
                    1
                } else {
                    0
                };
                self.mem.v[x as usize] = a.wrapping_sub(b);
            },
            Instruction::SubtractReversed { x, y } => {
                let a: u8 = self.mem.v[x as usize];
                let b: u8 = self.mem.v[y as usize];
                self.mem.v[FLAG_REGISTER] = if b > a {
                    1
                } else {
                    0
                };
                self.mem.v[x as usize] = b.wrapping_sub(a);
            },
            Instruction::Random { x, mask } => {
                self.mem.v[x as usize] = random & mask;
            },
            _ => {},
        }
    }

    /// Draws the `rows`-row sprite at the index register, at column
    /// `V[x] mod 64` and row `V[y] mod 32`; `VF` becomes 1 if a lit cell was
    /// turned off and 0 otherwise.
    fn draw_sprite(&mut self, x: u8, y: u8, rows: u8)
        requires
            x < REGISTER_COUNT,
            y < REGISTER_COUNT,
            old(self).mem.i + rows <= RAM_SIZE,
        ensures
            ({
                let s = old(self)@;
                let x0 = s.v[x as int] as int % SCREEN_WIDTH as int;
                let y0 = s.v[y as int] as int % SCREEN_HEIGHT as int;
                final(self)@ == MachineState {
                    pixels: drawn_pixels(s, x0, y0, rows as int),
                    v: s.v.update(
                        FLAG_REGISTER as int,
                        if sprite_collides(s, x0, y0, rows as int) {
                            1u8
                        } else {
                            0u8
                        },
                    ),
                    ..s
                }
            }),
    {
        let ghost s = self@;
        let x0: usize = self.mem.v[x as usize] as usize % SCREEN_WIDTH;
        let y0: usize = self.mem.v[y as usize] as usize % SCREEN_HEIGHT;
        let ghost covers = |col: int, row: int|
            sprite_covers(s.ram, s.index as int, x0 as int, y0 as int, rows as int, col, row);
        let mut collided: bool = false;
        let mut r: usize = 0;
        while r < rows as usize
            invariant
                r <= rows,
                x0 < SCREEN_WIDTH,
                y0 < SCREEN_HEIGHT,
                self.mem == old(self).mem,
                self.mem.i + rows <= RAM_SIZE,
                s == old(self)@,
                covers == (|col: int, row: int|
                    sprite_covers(s.ram, s.index as int, x0 as int, y0 as int, rows as int, col, row)),
                self.display.cell_colour_on == old(self).display.cell_colour_on,
                self.display.cell_colour_off == old(self).display.cell_colour_off,
                forall|col: int, row: int|
                    0 <= col < SCREEN_WIDTH && 0 <= row < SCREEN_HEIGHT
                        ==> #[trigger] self.display.cells@[cell_index(col, row)] == (
                        old(self).display.cells@[cell_index(col, row)].0 != (covers(col, row) && row
                            < y0 + r),
                        old(self).display.cells@[cell_index(col, row)].1,
                    ),
                collided == exists|col: int, row: int|
                    0 <= col < SCREEN_WIDTH && 0 <= row < SCREEN_HEIGHT && #[trigger] s.pixels[cell_index(
                        col,
                        row,
                    )] && covers(col, row) && row < y0 + r,
            decreases rows - r,
        {
            let ghost before = self.display.cells@;
            if y0 + r < SCREEN_HEIGHT {
                let row_byte: u8 = self.mem.ram[self.mem.i + r];
                let hit: bool = self.display.xor_sprite_row(row_byte, x0, y0 + r);
                proof {
                    let y: int = (y0 + r) as int;
                    if hit {
                        let col: int = choose|col: int|
                            0 <= col < SCREEN_WIDTH && row_covers(
                                row_byte,
                                x0 as int,
                                col,
                                SCREEN_WIDTH as int,
                            ) && #[trigger] before[cell_index(col, y)].0;
                        assert(s.pixels[cell_index(col, y)] && covers(col, y));
                    }
                    if !collided && !hit {
                        assert forall|col: int, row: int|
                            0 <= col < SCREEN_WIDTH && 0 <= row < SCREEN_HEIGHT && #[trigger] s.pixels[cell_index(
                                col,
                                row,
                            )] && covers(col, row) implies row >= y + 1 by {
                            if row == y {
                                assert(before[cell_index(col, y)].0);
                                assert(row_covers(row_byte, x0 as int, col, SCREEN_WIDTH as int));
                            }
                        }
                    }
                }
                collided = collided || hit;
            }
            r += 1;
        }
        self.mem.v[FLAG_REGISTER] = if collided {
            1
        } else {
            0
        };
        proof {
            assert(self.display.pixels() =~= drawn_pixels(s, x0 as int, y0 as int, rows as int)) by {
                assert forall|k: int| 0 <= k < CELL_COUNT implies self.display.pixels()[k]
                    == drawn_pixels(s, x0 as int, y0 as int, rows as int)[k] by {
                    let col: int = k % SCREEN_WIDTH as int;
                    let row: int = k / SCREEN_WIDTH as int;
                    assert(k == cell_index(col, row));
                    assert(self.display.cells@[cell_index(col, row)].0 == (s.pixels[k] != covers(col, row)));
                }
            }
            assert(self.display.regions() =~= s.regions) by {
                assert forall|k: int| 0 <= k < CELL_COUNT implies self.display.regions()[k]
                    == s.regions[k] by {
                    let col: int = k % SCREEN_WIDTH as int;
                    let row: int = k / SCREEN_WIDTH as int;
                    assert(k == cell_index(col, row));
                }
            }
        }
    }
}

} // verus!
