//! The machine state and the meaning of each instruction.

use vstd::prelude::*;
use crate::alu::{alu_flag, alu_value, bcd_digits, AluOp};
use crate::display::{blank, collides, drawn, Display};
use crate::instruction::{decoded, Instruction};
use crate::keypad::{is_lowest_down, lemma_lowest_down, lowest_down};
use crate::memory::{initial_byte, word_at, Memory};
use crate::registers::Registers;
use crate::timers::{audible, ticked, Timers};

verus! {

/// What the interpreter does in a cycle.
#[derive(Clone, Copy, Debug, PartialEq, Eq)]
pub enum Mode {
    /// Fetch, decode and execute one instruction.
    Running,
    /// Execute nothing until a key is down, then store its index in the
    /// register.
    WaitingForKey { register: u8 },
}

/// A condition that ends the run of a program.
#[derive(Clone, Copy, Debug, PartialEq, Eq)]
pub enum Fault {
    /// The fetched word is no instruction.
    UnknownInstruction(u16),
    /// A return with nothing on the call stack.
    EmptyStack,
    /// An instruction, or the fetch, reaches beyond the end of memory.
    AddressOutOfBounds,
    /// A key instruction found a value above `0xF` in its register.
    InvalidKey,
    /// An operand lies outside its field: a register index above `0xF`, an
    /// address above `0xFFF`, or a sprite of more than fifteen rows.
    InvalidOperand,
}

/// What the host does with its window after a cycle.
#[derive(Clone, Copy, Debug, PartialEq, Eq)]
pub enum ScreenAction {
    /// Leave the window alone.
    Nothing,
    /// Present the display anew.
    Redraw,
    /// Process the window's events without presenting anything.
    PollEvents,
}

/// What the host does with its tone after a cycle.
#[derive(Clone, Copy, Debug, PartialEq, Eq)]
pub enum BuzzerAction {
    /// Let the tone sound.
    Play,
    /// Silence the tone.
    Pause,
    /// Leave the tone as it is.
    Leave,
}

/// What a cycle asks of the host.
#[derive(Clone, Copy, Debug, PartialEq, Eq)]
pub struct Outcome {
    /// What to do with the window.
    pub screen: ScreenAction,
    /// What to do with the tone.
    pub buzzer: BuzzerAction,
}

/// The machine as a mathematical value.
pub struct MachineState {
    /// The 4096 bytes of memory.
    pub memory: Seq<u8>,
    /// The sixteen general registers.
    pub v: Seq<u8>,
    /// The index register.
    pub i: u16,
    /// The program counter.
    pub pc: u16,
    /// The call stack, most recent return address last.
    pub stack: Seq<u16>,
    /// The delay timer.
    pub delay: u8,
    /// The sound timer.
    pub sound: u8,
    /// The 2048 pixels, row by row.
    pub pixels: Seq<bool>,
    /// The interpreter mode.
    pub mode: Mode,
}

/// The whole machine.
#[derive(Debug, PartialEq, Eq)]
pub struct Chip8 {
    /// Main memory.
    pub memory: Memory,
    /// The registers.
    pub reg: Registers,
    /// The call stack, most recent return address last.
    pub stack: Vec<u16>,
    /// The delay and sound timers.
    pub timers: Timers,
    /// The display.
    pub display: Display,
    /// The interpreter mode.
    pub mode: Mode,
}

impl Clone for Chip8 {
    fn clone(&self) -> (copy: Self)
        ensures
            copy@ == self@,
    {
        Chip8 {
            memory: self.memory.clone(),
            reg: self.reg,
            stack: self.stack.clone(),
            timers: self.timers,
            display: self.display.clone(),
            mode: self.mode,
        }
    }
}

impl View for Chip8 {
    type V = MachineState;

    open spec fn view(&self) -> MachineState {
        MachineState {
            memory: self.memory@,
            v: self.reg.v@,
            i: self.reg.i,
            pc: self.reg.pc,
            stack: self.stack@,
            delay: self.timers.delay,
            sound: self.timers.sound,
            pixels: self.display@,
            mode: self.mode,
        }
    }
}

/// The machine at power-on: the font in memory, every register and timer
/// at zero, the program counter at the program start address, an empty
/// call stack, a blank display, and the interpreter running.
pub open spec fn initial_state() -> MachineState {
    MachineState {
        memory: Seq::new(4096, |addr: int| initial_byte(addr)),
        v: Seq::new(16, |k: int| 0u8),
        i: 0,
        pc: 0x200,
        stack: Seq::empty(),
        delay: 0,
        sound: 0,
        pixels: blank(),
        mode: Mode::Running,
    }
}

/// The address two bytes after `pc`, in 16 bits.
pub open spec fn next_pc(pc: u16) -> u16 {
    ((pc + 2) % 0x10000) as u16
}

/// The registers after `op` on `VX` and `VY`: the result goes to `VX`, then
/// the flag, where `op` sets one, goes to `VF`.
pub open spec fn alu_registers(v: Seq<u8>, op: AluOp, x: int, y: int) -> Seq<u8> {
    let stored = v.update(x, alu_value(op, v[x], v[y]));
    match alu_flag(op, v[x], v[y]) {
        Some(flag) => stored.update(15, flag),
        None => stored,
    }
}

/// The `rows` bytes of memory from address `i` on.
pub open spec fn sprite_rows(memory: Seq<u8>, i: int, rows: int) -> Seq<u8> {
    Seq::new(rows as nat, |r: int| memory[i + r])
}

/// Memory after `V0..=VX` are stored from address `i` on.
pub open spec fn registers_stored(memory: Seq<u8>, v: Seq<u8>, i: int, x: int) -> Seq<u8> {
    Seq::new(
        memory.len(),
        |addr: int|
            if i <= addr <= i + x {
                v[addr - i]
            } else {
                memory[addr]
            },
    )
}

/// The registers after `V0..=VX` are loaded from address `i` on.
pub open spec fn registers_loaded(v: Seq<u8>, memory: Seq<u8>, i: int, x: int) -> Seq<u8> {
    Seq::new(
        v.len(),
        |k: int|
            if k <= x {
                memory[i + k]
            } else {
                v[k]
            },
    )
}

/// Memory after the decimal digits of `value` are stored at `i`, `i + 1`
/// and `i + 2`.
pub open spec fn bcd_stored(memory: Seq<u8>, i: int, value: u8) -> Seq<u8> {
    let digits = bcd_digits(value);
    memory.update(i, digits.0 as u8).update(i + 1, digits.1 as u8).update(i + 2, digits.2 as u8)
}

impl MachineState {
    /// Whether the state has the shape of a machine: 4096 bytes of memory,
    /// sixteen registers and 2048 pixels.
    pub open spec fn well_formed(self) -> bool {
        &&& self.memory.len() == 4096
        &&& self.v.len() == 16
        &&& self.pixels.len() == 2048
    }

    /// The state with the program counter moved past one more instruction
    /// if `taken`, and unchanged otherwise.
    pub open spec fn skip_if(self, taken: bool) -> MachineState {
        if taken {
            MachineState { pc: next_pc(self.pc), ..self }
        } else {
            self
        }
    }

    /// The fault that stops `instr` in this state, or `None` if it runs.
    pub open spec fn fault_of(self, instr: Instruction) -> Option<Fault> {
        if !instr.well_formed() {
            Some(Fault::InvalidOperand)
        } else {
            match instr {
                Instruction::Return => if self.stack.len() == 0 {
                    Some(Fault::EmptyStack)
                } else {
                    None
                },
                Instruction::Draw { rows, .. } => if rows > 0 && self.i + rows > 4096 {
                    Some(Fault::AddressOutOfBounds)
                } else {
                    None
                },
                Instruction::SkipIfKeyDown { x } | Instruction::SkipIfKeyUp { x } => {
                    if self.v[x as int] >= 16 {
                        Some(Fault::InvalidKey)
                    } else {
                        None
                    }
                },
                Instruction::StoreBcd { .. } => if self.i + 3 > 4096 {
                    Some(Fault::AddressOutOfBounds)
                } else {
                    None
                },
                Instruction::StoreRegisters { x } | Instruction::LoadRegisters { x } => {
                    if self.i + x + 1 > 4096 {
                        Some(Fault::AddressOutOfBounds)
                    } else {
                        None
                    }
                },
                _ => None,
            }
        }
    }

    /// The state that `instr` leaves, where no fault stops it. The program
    /// counter already points past `instr`. `keys` tells which keys are
    /// down, and `random` is the byte that a random instruction draws.
    pub open spec fn after(self, instr: Instruction, keys: Seq<bool>, random: u8) -> MachineState {
        match instr {
            Instruction::ClearScreen => MachineState { pixels: blank(), ..self },
            Instruction::Return => MachineState {
                pc: self.stack.last(),
                stack: self.stack.drop_last(),
                ..self
            },
            Instruction::Jump { addr } => MachineState { pc: addr, ..self },
            Instruction::Call { addr } => MachineState {
                pc: addr,
                stack: self.stack.push(self.pc),
                ..self
            },
            Instruction::SkipIfEqual { x, byte } => self.skip_if(self.v[x as int] == byte),
            Instruction::SkipIfNotEqual { x, byte } => self.skip_if(self.v[x as int] != byte),
            Instruction::SkipIfRegistersEqual { x, y } => self.skip_if(
                self.v[x as int] == self.v[y as int],
            ),
            Instruction::LoadByte { x, byte } => MachineState {
                v: self.v.update(x as int, byte),
                ..self
            },
            Instruction::AddByte { x, byte } => MachineState {
                v: self.v.update(x as int, ((self.v[x as int] + byte) % 256) as u8),
                ..self
            },
            Instruction::Alu { op, x, y } => MachineState {
                v: alu_registers(self.v, op, x as int, y as int),
                ..self
            },
            Instruction::SkipIfRegistersNotEqual { x, y } => self.skip_if(
                self.v[x as int] != self.v[y as int],
            ),
            Instruction::LoadIndex { addr } => MachineState { i: addr, ..self },
            Instruction::JumpOffset { addr } => MachineState {
                pc: (addr + self.v[0]) as u16,
                ..self
            },
            Instruction::Random { x, mask } => MachineState {
                v: self.v.update(x as int, random & mask),
                ..self
            },
            Instruction::Draw { x, y, rows } => {
                let cleared = self.v.update(15, 0u8);
                let x0 = cleared[x as int] as int % 64;
                let y0 = cleared[y as int] as int % 32;
                let sprite = sprite_rows(self.memory, self.i as int, rows as int);
                let flag = if collides(self.pixels, sprite, x0, y0) {
                    1u8
                } else {
                    0u8
                };
                MachineState {
                    pixels: drawn(self.pixels, sprite, x0, y0),
                    v: cleared.update(15, flag),
                    ..self
                }
            },
            Instruction::SkipIfKeyDown { x } => self.skip_if(keys[self.v[x as int] as int]),
            Instruction::SkipIfKeyUp { x } => self.skip_if(!keys[self.v[x as int] as int]),
            Instruction::ReadDelay { x } => MachineState {
                v: self.v.update(x as int, self.delay),
                ..self
            },
            Instruction::WaitKey { x } => MachineState {
                mode: Mode::WaitingForKey { register: x },
                ..self
            },
            Instruction::SetDelay { x } => MachineState { delay: self.v[x as int], ..self },
            Instruction::SetSound { x } => MachineState { sound: self.v[x as int], ..self },
            Instruction::AddIndex { x } => MachineState {
                i: ((self.i + self.v[x as int]) % 0x10000) as u16,
                ..self
            },
            Instruction::FontAddress { x } => MachineState {
                i: (self.v[x as int] * 5) as u16,
                ..self
            },
            Instruction::StoreBcd { x } => MachineState {
                memory: bcd_stored(self.memory, self.i as int, self.v[x as int]),
                ..self
            },
            Instruction::StoreRegisters { x } => MachineState {
                memory: registers_stored(self.memory, self.v, self.i as int, x as int),
                i: (self.i + x + 1) as u16,
                ..self
            },
            Instruction::LoadRegisters { x } => MachineState {
                v: registers_loaded(self.v, self.memory, self.i as int, x as int),
                i: (self.i + x + 1) as u16,
                ..self
            },
        }
    }

    /// The state after one tick of the 60 Hz clock is consumed.
    pub open spec fn ticked(self) -> MachineState {
        MachineState { delay: ticked(self.delay), sound: ticked(self.sound), ..self }
    }

    /// The instruction word at the program counter, or `None` where it
    /// reaches beyond the end of memory.
    pub open spec fn fetched(self) -> Option<u16> {
        word_at(self.memory, self.pc as int)
    }

    /// The instruction at the program counter, or the fault that fetching
    /// and decoding it raises.
    pub open spec fn next_instruction(self) -> Result<Instruction, Fault> {
        match self.fetched() {
            None => Err(Fault::AddressOutOfBounds),
            Some(word) => match decoded(word) {
                None => Err(Fault::UnknownInstruction(word)),
                Some(instr) => Ok(instr),
            },
        }
    }

    /// The state with the program counter moved past one instruction.
    pub open spec fn advanced(self) -> MachineState {
        MachineState { pc: next_pc(self.pc), ..self }
    }

    /// The fault that stops the fetch, the decoding or the execution of
    /// the instruction at the program counter, or `None` if it runs.
    pub open spec fn step_fault(self) -> Option<Fault> {
        match self.next_instruction() {
            Err(fault) => Some(fault),
            Ok(instr) => self.advanced().fault_of(instr),
        }
    }

    /// The state after the instruction at the program counter is fetched
    /// and executed, where no fault stops it.
    pub open spec fn after_step(self, keys: Seq<bool>, random: u8) -> MachineState {
        match self.next_instruction() {
            Ok(instr) => self.advanced().after(instr, keys, random),
            Err(_) => self,
        }
    }

    /// What the host does with its window after the instruction at the
    /// program counter.
    pub open spec fn step_screen_action(self) -> ScreenAction {
        match self.next_instruction() {
            Ok(instr) => screen_action_of(instr),
            Err(_) => ScreenAction::Nothing,
        }
    }

    /// The state after a cycle spent waiting for a key: the lowest key
    /// that is down goes to the register and the interpreter runs again,
    /// and while no key is down nothing changes.
    pub open spec fn after_key_wait(self, register: u8, keys: Seq<bool>) -> MachineState {
        match lowest_down(keys) {
            Some(key) => MachineState {
                v: self.v.update(register as int, key),
                mode: Mode::Running,
                ..self
            },
            None => self,
        }
    }

    /// The fault that stops the next cycle, or `None` if it completes.
    pub open spec fn cycle_fault(self) -> Option<Fault> {
        match self.mode {
            Mode::Running => self.step_fault(),
            Mode::WaitingForKey { register } => if register < 16 {
                None
            } else {
                Some(Fault::InvalidOperand)
            },
        }
    }

    /// The state after one cycle, where no fault stops it. A running
    /// machine executes one instruction and then consumes the tick, if one
    /// is pending. A waiting machine polls the keys and leaves the timers
    /// alone, tick or no tick.
    pub open spec fn after_cycle(self, keys: Seq<bool>, tick: bool, random: u8) -> MachineState {
        match self.mode {
            Mode::Running => if tick {
                self.after_step(keys, random).ticked()
            } else {
                self.after_step(keys, random)
            },
            Mode::WaitingForKey { register } => self.after_key_wait(register, keys),
        }
    }

    /// What one cycle asks of the host, where no fault stops it. After an
    /// instruction the tone follows the sound timer; while the machine
    /// waits for a key the tone is left as it is.
    pub open spec fn cycle_outcome(self, keys: Seq<bool>, tick: bool, random: u8) -> Outcome {
        match self.mode {
            Mode::Running => Outcome {
                screen: self.step_screen_action(),
                buzzer: if audible(self.after_cycle(keys, tick, random).sound) {
                    BuzzerAction::Play
                } else {
                    BuzzerAction::Pause
                },
            },
            Mode::WaitingForKey { .. } => Outcome {
                screen: ScreenAction::PollEvents,
                buzzer: BuzzerAction::Leave,
            },
        }
    }

    /// Whether the next cycle executes a random instruction, the only one
    /// whose effect depends on the random byte.
    pub open spec fn draws_random(self) -> bool {
        self.mode is Running && self.next_instruction() matches Ok(Instruction::Random { .. })
    }
}

/// Whether a cycle that starts in `before`, with the keys `keys`, a tick
/// pending or not, and the random byte `random`, ends in `after` with
/// `result`. A fault leaves the machine as it was.
pub open spec fn cycle_relation(
    before: MachineState,
    after: MachineState,
    result: Result<Outcome, Fault>,
    keys: Seq<bool>,
    tick: bool,
    random: u8,
) -> bool {
    match result {
        Ok(outcome) => {
            &&& before.cycle_fault() is None
            &&& after == before.after_cycle(keys, tick, random)
            &&& outcome == before.cycle_outcome(keys, tick, random)
        },
        Err(fault) => {
            &&& before.cycle_fault() == Some(fault)
            &&& after == before
        },
    }
}

/// The random byte reaches the machine only through a random instruction:
/// a cycle that executes none comes out the same for every byte.
pub proof fn lemma_random_matters_only_when_drawn(
    s: MachineState,
    keys: Seq<bool>,
    tick: bool,
    first: u8,
    second: u8,
)
    requires
        !s.draws_random(),
    ensures
        s.after_cycle(keys, tick, first) == s.after_cycle(keys, tick, second),
        s.cycle_outcome(keys, tick, first) == s.cycle_outcome(keys, tick, second),
{
}

/// Every machine has a well-formed state.
pub proof fn lemma_view_is_well_formed(machine: Chip8)
    ensures
        machine@.well_formed(),
{
}

/// No instruction and no cycle changes the shape of the machine: where
/// no fault stops it, what follows a well-formed state is well formed.
pub proof fn lemma_well_formed_is_kept(
    s: MachineState,
    instr: Instruction,
    keys: Seq<bool>,
    tick: bool,
    random: u8,
)
    requires
        s.well_formed(),
    ensures
        s.fault_of(instr).is_none() ==> s.after(instr, keys, random).well_formed(),
        s.step_fault().is_none() ==> s.after_step(keys, random).well_formed(),
        s.cycle_fault().is_none() ==> s.after_cycle(keys, tick, random).well_formed(),
{
}

/// An operation of the `8XY_` family leaves its flag in `VF`, whichever
/// registers it names, and its result in `VX` unless `VX` is `VF` and the
/// operation sets the flag. Every other register keeps its value.
pub proof fn lemma_alu_registers(s: MachineState, op: AluOp, x: u8, y: u8, keys: Seq<bool>)
    requires
        s.well_formed(),
        x < 16,
        y < 16,
    ensures
        ({
            let t = s.after(Instruction::Alu { op, x, y }, keys, 0);
            let a = s.v[x as int];
            let b = s.v[y as int];
            &&& alu_flag(op, a, b) matches Some(flag) ==> t.v[15] == flag
            &&& (x != 15 || alu_flag(op, a, b).is_none()) ==> t.v[x as int] == alu_value(op, a, b)
            &&& forall|k: int| 0 <= k < 15 && k != x ==> t.v[k] == s.v[k]
            &&& t == MachineState { v: t.v, ..s }
        }),
{
}

/// A call followed at once by a return comes back to the instruction after
/// the call, with the stack as it was before: the two leave the machine
/// exactly where the fetch of the call had left it.
pub proof fn lemma_call_then_return(s: MachineState, addr: u16, keys: Seq<bool>, random: u8)
    requires
        s.next_instruction() == Ok::<Instruction, Fault>(Instruction::Call { addr }),
        s.after_step(keys, random).next_instruction() == Ok::<Instruction, Fault>(
            Instruction::Return,
        ),
    ensures
        s.step_fault().is_none(),
        s.after_step(keys, random).pc == addr,
        s.after_step(keys, random).stack == s.stack.push(next_pc(s.pc)),
        s.after_step(keys, random).step_fault().is_none(),
        s.after_step(keys, random).after_step(keys, random) == s.advanced(),
{
    let called = s.after_step(keys, random);
    let back = called.after_step(keys, random);
    assert(decoded(s.fetched()->Some_0) == Some(Instruction::Call { addr }));
    assert(Instruction::Call { addr }.well_formed());
    assert(back.stack =~= s.stack);
}

/// A return faults exactly when the call stack is empty.
pub proof fn lemma_return_needs_caller(s: MachineState)
    ensures
        s.fault_of(Instruction::Return) == (if s.stack.len() == 0 {
            Some(Fault::EmptyStack)
        } else {
            None
        }),
{
}

/// Registers stored at `I` and loaded again from the same address come
/// back unchanged, and each of the two instructions moves `I` past the
/// `x + 1` bytes that it handled.
pub proof fn lemma_store_then_load(s: MachineState, x: u8, keys: Seq<bool>, random: u8)
    requires
        s.well_formed(),
        x < 16,
        s.i + x < 4096,
    ensures
        ({
            let stored = s.after(Instruction::StoreRegisters { x }, keys, random);
            let rewound = MachineState { i: s.i, ..stored };
            let loaded = rewound.after(Instruction::LoadRegisters { x }, keys, random);
            &&& s.fault_of(Instruction::StoreRegisters { x }).is_none()
            &&& rewound.fault_of(Instruction::LoadRegisters { x }).is_none()
            &&& stored.i == s.i + x + 1
            &&& loaded.i == s.i + x + 1
            &&& forall|k: int| 0 <= k <= x ==> stored.memory[s.i + k] == s.v[k]
            &&& loaded.v == s.v
        }),
{
    let stored = s.after(Instruction::StoreRegisters { x }, keys, random);
    let rewound = MachineState { i: s.i, ..stored };
    let loaded = rewound.after(Instruction::LoadRegisters { x }, keys, random);
    assert(loaded.v =~= s.v);
}

/// A machine that waits for a key leaves its timers alone, tick or no
/// tick. While no key is down the cycle changes nothing; once a key is
/// down the register takes the lowest such key and the interpreter runs
/// again.
pub proof fn lemma_key_wait(s: MachineState, register: u8, keys: Seq<bool>, tick: bool, random: u8)
    requires
        s.mode == (Mode::WaitingForKey { register }),
        register < 16,
        keys.len() == 16,
    ensures
        s.cycle_fault().is_none(),
        s.after_cycle(keys, tick, random).delay == s.delay,
        s.after_cycle(keys, tick, random).sound == s.sound,
        s.after_cycle(keys, tick, random).pc == s.pc,
        (forall|k: int| 0 <= k < 16 ==> !keys[k]) ==> s.after_cycle(keys, tick, random) == s,
        forall|key: int|
            is_lowest_down(keys, key) ==> {
                &&& s.after_cycle(keys, tick, random).mode == Mode::Running
                &&& s.after_cycle(keys, tick, random).v == s.v.update(register as int, key as u8)
            },
{
    lemma_lowest_down(keys);
}

/// One tick takes each timer down by one and leaves a timer at zero where
/// it is; nothing else of the machine changes.
pub proof fn lemma_tick_counts_down(s: MachineState)
    ensures
        s.ticked().delay == (if s.delay == 0 {
            0
        } else {
            s.delay - 1
        }),
        s.ticked().sound == (if s.sound == 0 {
            0
        } else {
            s.sound - 1
        }),
        s.ticked() == (MachineState { delay: s.ticked().delay, sound: s.ticked().sound, ..s }),
{
}

/// What the host does with its window after `instr`.
pub open spec fn screen_action_of(instr: Instruction) -> ScreenAction {
    match instr {
        Instruction::ClearScreen | Instruction::Draw { .. } => ScreenAction::Redraw,
        _ => ScreenAction::Nothing,
    }
}

} // verus!
