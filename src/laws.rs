//! Properties of the instruction set, proved over `cycle`, the meaning of one
//! cycle that `Emulator::step` and `Emulator::emulate_cycle` are verified
//! against.
use vstd::arithmetic::div_mod::{
    lemma_fundamental_div_mod,
    lemma_fundamental_div_mod_converse,
    lemma_mod_bound,
};
use vstd::prelude::*;

use crate::display::{CELL_COUNT, cell_index};
use crate::isa::{
    EmulatorError,
    FLAG_REGISTER,
    Instruction,
    MachineState,
    RAM_SIZE,
    REGISTER_COUNT,
    cycle,
    decode_spec,
    op_class,
    op_n,
    op_nn,
    op_nnn,
    op_x,
    op_y,
    opcode_at,
    sprite_bit,
    sprite_collides,
    sprite_covers,
};

verus! {

/// The opcode fetched at the program counter of `s`, when there is room to
/// fetch it.
pub open spec fn fetches(s: MachineState, op: int) -> bool {
    &&& s.pc + 1 < RAM_SIZE
    &&& opcode_at(s.ram, s.pc as int) == op
}

/// The fields of an opcode assembled from four nibbles.
pub proof fn lemma_opcode_fields(op: u16, c: int, x: int, y: int, n: int)
    requires
        0 <= c < 16,
        0 <= x < 16,
        0 <= y < 16,
        0 <= n < 16,
        op == c * 0x1000 + x * 0x100 + y * 0x10 + n,
    ensures
        op_class(op) == c,
        op_x(op) == x,
        op_y(op) == y,
        op_n(op) == n,
        op_nn(op) == y * 0x10 + n,
        op_nnn(op) == x * 0x100 + y * 0x10 + n,
{
    let o: int = op as int;
    lemma_fundamental_div_mod_converse(o, 0x1000, c, x * 0x100 + y * 0x10 + n);
    lemma_fundamental_div_mod_converse(o, 0x100, c * 0x10 + x, y * 0x10 + n);
    lemma_fundamental_div_mod_converse(c * 0x10 + x, 0x10, c, x);
    lemma_fundamental_div_mod_converse(o, 0x10, c * 0x100 + x * 0x10 + y, n);
    lemma_fundamental_div_mod_converse(c * 0x100 + x * 0x10 + y, 0x10, c * 0x10 + x, y);
}

/// Executing `6XNN` leaves exactly `NN` in `V[X]`.
pub proof fn lemma_load_sets_register(s: MachineState, x: u8, nn: u8, random: u8)
    requires
        s.wf(),
        x < REGISTER_COUNT,
        fetches(s, 0x6000 + x * 0x100 + nn),
    ensures
        cycle(s, random) is Ok,
        cycle(s, random)->Ok_0.v[x as int] == nn,
{
    let op: u16 = opcode_at(s.ram, s.pc as int);
    assert(decode_spec(op) == Instruction::Load { x, value: nn });
}

/// Executing `7XNN` leaves `(v0 + NN) mod 256` in `V[X]`, where `v0` was its
/// value, and changes no other register: no carry flag is set.
pub proof fn lemma_add_immediate_wraps(s: MachineState, x: u8, nn: u8, random: u8)
    requires
        s.wf(),
        x < REGISTER_COUNT,
        fetches(s, 0x7000 + x * 0x100 + nn),
    ensures
        cycle(s, random) is Ok,
        cycle(s, random)->Ok_0.v[x as int] == (s.v[x as int] + nn) % 256,
        forall|r: int|
            0 <= r < REGISTER_COUNT && r != x ==> #[trigger] cycle(s, random)->Ok_0.v[r] == s.v[r],
{
    let op: u16 = opcode_at(s.ram, s.pc as int);
    assert(decode_spec(op) == Instruction::AddImmediate { x, value: nn });
}

/// Executing `8XY4` with `V[X] = a`, `V[Y] = b` leaves `(a + b) mod 256` in
/// `V[X]`, and in `VF` 1 if `a + b > 255`, else 0. (When `X` is `F` the sum
/// overwrites the flag.)
pub proof fn lemma_add_registers_carry(s: MachineState, x: u8, y: u8, random: u8)
    requires
        s.wf(),
        x < REGISTER_COUNT,
        y < REGISTER_COUNT,
        x != FLAG_REGISTER,
        fetches(s, 0x8004 + x * 0x100 + y * 0x10),
    ensures
        cycle(s, random) is Ok,
        cycle(s, random)->Ok_0.v[x as int] == (s.v[x as int] + s.v[y as int]) % 256,
        cycle(s, random)->Ok_0.v[FLAG_REGISTER as int] == if s.v[x as int] + s.v[y as int]
            > 255 {
            1int
        } else {
            0int
        },
{
    let op: u16 = opcode_at(s.ram, s.pc as int);
    lemma_opcode_fields(op, 8, x as int, y as int, 4);
    assert(decode_spec(op) == Instruction::Add { x, y });
}

/// Executing `8XY5` with `V[X] = a`, `V[Y] = b` leaves `(a - b) mod 256` in
/// `V[X]`, and in `VF` 1 if `a > b`, else 0. (When `X` is `F` the difference
/// overwrites the flag.)
pub proof fn lemma_subtract_registers_borrow(s: MachineState, x: u8, y: u8, random: u8)
    requires
        s.wf(),
        x < REGISTER_COUNT,
        y < REGISTER_COUNT,
        x != FLAG_REGISTER,
        fetches(s, 0x8005 + x * 0x100 + y * 0x10),
    ensures
        cycle(s, random) is Ok,
        cycle(s, random)->Ok_0.v[x as int] == (s.v[x as int] - s.v[y as int] + 256) % 256,
        cycle(s, random)->Ok_0.v[FLAG_REGISTER as int] == if s.v[x as int] > s.v[y as int] {
            1int
        } else {
            0int
        },
{
    let op: u16 = opcode_at(s.ram, s.pc as int);
    lemma_opcode_fields(op, 8, x as int, y as int, 5);
    assert(decode_spec(op) == Instruction::Subtract { x, y });
}

/// Executing `00E0` leaves every cell unlit, whatever the framebuffer held.
pub proof fn lemma_clear_screen_unlights_all(s: MachineState, random: u8)
    requires
        s.wf(),
        fetches(s, 0x00E0),
    ensures
        cycle(s, random) is Ok,
        forall|k: int| 0 <= k < CELL_COUNT ==> !#[trigger] cycle(s, random)->Ok_0.pixels[k],
{
}

/// A call `2NNN` to a subroutine whose first instruction is `00EE` returns
/// to the instruction right after the call, with the stack as it was.
pub proof fn lemma_call_then_return(s: MachineState, nnn: u16, random1: u8, random2: u8)
    requires
        s.wf(),
        nnn < 0x1000,
        fetches(s, 0x2000 + nnn),
        nnn + 1 < RAM_SIZE,
        opcode_at(s.ram, nnn as int) == 0x00EE,
    ensures
        cycle(s, random1) is Ok,
        cycle(cycle(s, random1)->Ok_0, random2) is Ok,
        cycle(cycle(s, random1)->Ok_0, random2)->Ok_0.pc == s.pc + 2,
        cycle(cycle(s, random1)->Ok_0, random2)->Ok_0.stack == s.stack,
{
    let op: u16 = opcode_at(s.ram, s.pc as int);
    assert(decode_spec(op) == Instruction::Call { addr: nnn });
    let t = cycle(s, random1)->Ok_0;
    assert(t.stack.drop_last() =~= s.stack);
}

/// Executing `00EE` with an empty stack fails with a stack underflow that
/// names the opcode and its address.
pub proof fn lemma_return_on_empty_stack_fails(s: MachineState, random: u8)
    requires
        s.wf(),
        fetches(s, 0x00EE),
        s.stack.len() == 0,
    ensures
        cycle(s, random) == Err::<MachineState, EmulatorError>(
            EmulatorError::StackUnderflow { opcode: 0x00EE, pc: s.pc },
        ),
{
}

/// On a cleared framebuffer, drawing the one-row sprite `0xFF` at column 0,
/// row 0 (`DXY1` with `V[X] = V[Y] = 0`) lights exactly the cells of
/// columns 0 to 7 of row 0 and leaves 0 in `VF`; executing the same
/// instruction again turns those cells off again and leaves 1 in `VF`.
pub proof fn lemma_draw_full_row_twice(s: MachineState, x: u8, y: u8, random1: u8, random2: u8)
    requires
        s.wf(),
        x < REGISTER_COUNT,
        y < REGISTER_COUNT,
        fetches(s, 0xD001 + x * 0x100 + y * 0x10),
        s.v[x as int] == 0,
        s.v[y as int] == 0,
        s.index < RAM_SIZE,
        s.ram[s.index as int] == 0xFF,
        forall|k: int| 0 <= k < CELL_COUNT ==> !#[trigger] s.pixels[k],
    ensures
        cycle(s, random1) is Ok,
        forall|k: int|
            0 <= k < CELL_COUNT ==> #[trigger] cycle(s, random1)->Ok_0.pixels[k] == (k < 8),
        cycle(s, random1)->Ok_0.v[FLAG_REGISTER as int] == 0,
        ({
            let again = MachineState { pc: s.pc, ..cycle(s, random1)->Ok_0 };
            &&& cycle(again, random2) is Ok
            &&& forall|k: int|
                0 <= k < CELL_COUNT ==> !#[trigger] cycle(again, random2)->Ok_0.pixels[k]
            &&& cycle(again, random2)->Ok_0.v[FLAG_REGISTER as int] == 1
        }),
{
    let op: u16 = opcode_at(s.ram, s.pc as int);
    lemma_opcode_fields(op, 0xD, x as int, y as int, 1);
    assert(decode_spec(op) == Instruction::Draw { x, y, rows: 1 });
    assert(forall|j: u8| j < 8 ==> (0xFFu8 >> j) & 1u8 == 1u8) by (bit_vector);
    assert forall|b: int| 0 <= b < 8 implies #[trigger] sprite_bit(0xFF, b) by {
        let j: u8 = (7 - b) as u8;
        assert((0xFFu8 >> j) & 1u8 == 1u8);
    }
    assert forall|k: int| 0 <= k < CELL_COUNT implies (#[trigger] sprite_covers(
        s.ram,
        s.index as int,
        0,
        0,
        1,
        k % 64,
        k / 64,
    ) <==> k < 8) by {
        if k < 64 {
            lemma_fundamental_div_mod_converse(k, 64, 0, k);
        } else {
            lemma_fundamental_div_mod(k, 64);
            lemma_mod_bound(k, 64);
        }
    }
    let t = cycle(s, random1)->Ok_0;
    assert(!sprite_collides(s, 0, 0, 1));
    let again = MachineState { pc: s.pc, ..t };
    assert(again.v[x as int] == 0);
    assert(again.v[y as int] == 0);
    lemma_fundamental_div_mod_converse(0, 64, 0, 0);
    assert(again.pixels[cell_index(0, 0)]);
    assert(sprite_collides(again, 0, 0, 1));
}

} // verus!
