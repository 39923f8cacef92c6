//! The fetch-decode-execute cycle.

use vstd::prelude::*;
use crate::alu::{alu, bcd, AluOp};
use crate::display::Display;
use crate::instruction::{decode, Instruction};
use crate::keypad::Keypad;
use crate::machine::{
    alu_registers, cycle_relation, initial_state, lemma_random_matters_only_when_drawn,
    registers_loaded, registers_stored, screen_action_of, sprite_rows, BuzzerAction, Chip8,
    Fault, MachineState, Mode, Outcome, ScreenAction,
};
use crate::memory::{loaded, Memory, FONT_BYTES_PER_CHAR, FONT_START_ADDR, MEMORY_LENGTH};
use crate::random::random_byte;
use crate::registers::{Registers, FLAG_REGISTER};
use crate::timers::Timers;

verus! {

impl Chip8 {
    /// A machine at power-on.
    pub fn new() -> (machine: Self)
        ensures
            machine@ == initial_state(),
    {
        Chip8 {
            memory: Memory::new(),
            reg: Registers::new(),
            stack: Vec::new(),
            timers: Timers::new(),
            display: Display::new(),
            mode: Mode::Running,
        }
    }

    /// Copies `program` into memory at the program start address and
    /// returns the number of bytes taken; what does not fit below the end
    /// of memory is left out. Nothing else of the machine changes.
    pub fn load_program(&mut self, program: &[u8]) -> (count: usize)
        ensures
            final(self)@ == (MachineState {
                memory: loaded(old(self)@.memory, program@),
                ..old(self)@
            }),
            count == (if program@.len() <= 4096 - 0x200 {
                program@.len()
            } else {
                (4096 - 0x200) as nat
            }),
    {
        self.memory.load_program(program)
    }

    /// Reads the instruction word at the program counter.
    pub fn fetch(&self) -> (word: Result<u16, Fault>)
        ensures
            word == (match self@.fetched() {
                Some(w) => Ok::<u16, Fault>(w),
                None => Err(Fault::AddressOutOfBounds),
            }),
    {
        match self.memory.read_word(self.reg.pc as usize) {
            Some(w) => Ok(w),
            None => Err(Fault::AddressOutOfBounds),
        }
    }

    /// Fetches and decodes the instruction at the program counter.
    pub fn next_instruction(&self) -> (instr: Result<Instruction, Fault>)
        ensures
            instr == self@.next_instruction(),
    {
        let word = self.fetch()?;
        match decode(word) {
            Some(instr) => Ok(instr),
            None => Err(Fault::UnknownInstruction(word)),
        }
    }

    /// Fetches, decodes and executes one instruction, whatever the mode.
    /// On a fault the machine is left as it was.
    pub fn step(&mut self, keys: &Keypad, random: u8) -> (result: Result<ScreenAction, Fault>)
        ensures
            match result {
                Ok(screen) => {
                    &&& old(self)@.step_fault() is None
                    &&& final(self)@ == old(self)@.after_step(keys@, random)
                    &&& screen == old(self)@.step_screen_action()
                },
                Err(fault) => {
                    &&& old(self)@.step_fault() == Some(fault)
                    &&& final(self)@ == old(self)@
                },
            },
    {
        let instr = self.next_instruction()?;
        let pc = self.reg.pc;
        self.reg.pc = pc + 2;
        let result = self.execute(instr, keys, random);
        if result.is_err() {
            self.reg.pc = pc;
        }
        result
    }

    /// Spends one cycle waiting for a key: the first key down, in index
    /// order, goes to `register` and the interpreter runs again.
    fn wait_for_key(&mut self, register: u8, keys: &Keypad)
        requires
            register < 16,
        ensures
            final(self)@ == old(self)@.after_key_wait(register, keys@),
    {
        match keys.first_down() {
            Some(key) => {
                self.reg.v[register as usize] = key;
                self.mode = Mode::Running;
            },
            None => {},
        }
    }

    /// Runs one cycle with `random` as the byte that a random instruction
    /// uses. `tick` tells whether a tick of the 60 Hz clock is pending; a
    /// running machine consumes it after its instruction, a waiting one
    /// does not. On a fault the machine is left as it was.
    pub fn cycle_with(&mut self, keys: &Keypad, tick: bool, random: u8) -> (result: Result<
        Outcome,
        Fault,
    >)
        ensures
            cycle_relation(old(self)@, final(self)@, result, keys@, tick, random),
    {
        match self.mode {
            Mode::WaitingForKey { register } => {
                if register >= 16 {
                    return Err(Fault::InvalidOperand);
                }
                self.wait_for_key(register, keys);
                Ok(Outcome { screen: ScreenAction::PollEvents, buzzer: BuzzerAction::Leave })
            },
            Mode::Running => {
                let screen = self.step(keys, random)?;
                if tick {
                    self.timers.tick();
                }
                let buzzer = if self.timers.buzzer_on() {
                    BuzzerAction::Play
                } else {
                    BuzzerAction::Pause
                };
                Ok(Outcome { screen, buzzer })
            },
        }
    }

    /// Runs one cycle. A random instruction draws its byte from the
    /// thread's random generator; every other cycle is determined by the
    /// machine, the keys and the tick.
    pub fn cycle(&mut self, keys: &Keypad, tick: bool) -> (result: Result<Outcome, Fault>)
        ensures
            exists|random: u8|
                cycle_relation(old(self)@, final(self)@, result, keys@, tick, random),
            !old(self)@.draws_random() ==> cycle_relation(
                old(self)@,
                final(self)@,
                result,
                keys@,
                tick,
                0,
            ),
    {
        let random = if self.draws_random() {
            random_byte()
        } else {
            0
        };
        let result = self.cycle_with(keys, tick, random);
        proof {
            if !old(self)@.draws_random() {
                lemma_random_matters_only_when_drawn(old(self)@, keys@, tick, random, 0);
            }
        }
        result
    }

    /// Whether the next cycle consumes a pending tick of the timer clock.
    /// A machine that waits for a key does not, so its host leaves the
    /// tick pending.
    pub fn takes_tick(&self) -> (taken: bool)
        ensures
            taken == (self@.mode is Running),
    {
        match self.mode {
            Mode::Running => true,
            Mode::WaitingForKey { .. } => false,
        }
    }

    /// Whether the next cycle executes a random instruction.
    pub fn draws_random(&self) -> (drawn: bool)
        ensures
            drawn == self@.draws_random(),
    {
        match self.mode {
            Mode::Running => match self.next_instruction() {
                Ok(Instruction::Random { .. }) => true,
                _ => false,
            },
            Mode::WaitingForKey { .. } => false,
        }
    }

    /// Moves the program counter past one more instruction if `taken`.
    fn skip_if(&mut self, taken: bool)
        ensures
            final(self)@ == old(self)@.skip_if(taken),
    {
        if taken {
            self.reg.pc = self.reg.pc.wrapping_add(2);
        }
    }

    /// Executes `instr`, with the program counter already past it. `keys`
    /// tells which keys are down and `random` is the byte that a random
    /// instruction uses. On a fault the machine is left as it was.
    pub fn execute(&mut self, instr: Instruction, keys: &Keypad, random: u8) -> (result: Result<
        ScreenAction,
        Fault,
    >)
        ensures
            match result {
                Ok(screen) => {
                    &&& old(self)@.fault_of(instr) is None
                    &&& final(self)@ == old(self)@.after(instr, keys@, random)
                    &&& screen == screen_action_of(instr)
                },
                Err(fault) => {
                    &&& old(self)@.fault_of(instr) == Some(fault)
                    &&& final(self)@ == old(self)@
                },
            },
    {
        if !instr.is_well_formed() {
            return Err(Fault::InvalidOperand);
        }
        match instr {
            Instruction::ClearScreen => {
                self.display.clear();
                Ok(ScreenAction::Redraw)
            },
            Instruction::Draw { x, y, rows } => self.draw(x, y, rows),
            Instruction::StoreBcd { x } => self.store_bcd(x),
            Instruction::StoreRegisters { x } => self.store_registers(x),
            Instruction::LoadRegisters { x } => self.load_registers(x),
            Instruction::Return
            | Instruction::Jump { .. }
            | Instruction::Call { .. }
            | Instruction::JumpOffset { .. }
            | Instruction::SkipIfEqual { .. }
            | Instruction::SkipIfNotEqual { .. }
            | Instruction::SkipIfRegistersEqual { .. }
            | Instruction::SkipIfRegistersNotEqual { .. }
            | Instruction::SkipIfKeyDown { .. }
            | Instruction::SkipIfKeyUp { .. } => self.execute_branch(instr, keys),
            Instruction::LoadByte { .. }
            | Instruction::AddByte { .. }
            | Instruction::Alu { .. }
            | Instruction::Random { .. }
            | Instruction::ReadDelay { .. } => {
                self.execute_register_write(instr, random);
                Ok(ScreenAction::Nothing)
            },
            _ => {
                self.execute_setting(instr);
                Ok(ScreenAction::Nothing)
            },
        }
    }

    /// Executes an instruction that moves the program counter: a jump, a
    /// call, a return or a conditional skip.
    fn execute_branch(&mut self, instr: Instruction, keys: &Keypad) -> (result: Result<
        ScreenAction,
        Fault,
    >)
        requires
            instr.well_formed(),
            instr.is_branch(),
        ensures
            match result {
                Ok(screen) => {
                    &&& old(self)@.fault_of(instr) is None
                    &&& final(self)@ == old(self)@.after(instr, keys@, 0)
                    &&& screen == ScreenAction::Nothing
                },
                Err(fault) => {
                    &&& old(self)@.fault_of(instr) == Some(fault)
                    &&& final(self)@ == old(self)@
                },
            },
    {
        match instr {
            Instruction::Return => match self.stack.pop() {
                Some(addr) => {
                    self.reg.pc = addr;
                    Ok(ScreenAction::Nothing)
                },
                None => Err(Fault::EmptyStack),
            },
            Instruction::Jump { addr } => {
                self.reg.pc = addr;
                Ok(ScreenAction::Nothing)
            },
            Instruction::Call { addr } => {
                self.stack.push(self.reg.pc);
                self.reg.pc = addr;
                Ok(ScreenAction::Nothing)
            },
            Instruction::JumpOffset { addr } => {
                self.reg.pc = addr + self.reg.v[0] as u16;
                Ok(ScreenAction::Nothing)
            },
            Instruction::SkipIfEqual { x, byte } => {
                self.skip_if(self.reg.v[x as usize] == byte);
                Ok(ScreenAction::Nothing)
            },
            Instruction::SkipIfNotEqual { x, byte } => {
                self.skip_if(self.reg.v[x as usize] != byte);
                Ok(ScreenAction::Nothing)
            },
            Instruction::SkipIfRegistersEqual { x, y } => {
                self.skip_if(self.reg.v[x as usize] == self.reg.v[y as usize]);
                Ok(ScreenAction::Nothing)
            },
            Instruction::SkipIfRegistersNotEqual { x, y } => {
                self.skip_if(self.reg.v[x as usize] != self.reg.v[y as usize]);
                Ok(ScreenAction::Nothing)
            },
            Instruction::SkipIfKeyDown { x } => match keys.is_down(self.reg.v[x as usize]) {
                Some(down) => {
                    self.skip_if(down);
                    Ok(ScreenAction::Nothing)
                },
                None => Err(Fault::InvalidKey),
            },
            Instruction::SkipIfKeyUp { x } => match keys.is_down(self.reg.v[x as usize]) {
                Some(down) => {
                    self.skip_if(!down);
                    Ok(ScreenAction::Nothing)
                },
                None => Err(Fault::InvalidKey),
            },
            _ => Ok(ScreenAction::Nothing),
        }
    }

    /// Executes an instruction that writes one general register and
    /// nothing else but the flag. None of them can fault.
    fn execute_register_write(&mut self, instr: Instruction, random: u8)
        requires
            instr.well_formed(),
            instr.writes_register(),
        ensures
            old(self)@.fault_of(instr) is None,
            final(self)@ == old(self)@.after(instr, Seq::empty(), random),
    {
        match instr {
            Instruction::LoadByte { x, byte } => {
                self.reg.v[x as usize] = byte;
            },
            Instruction::AddByte { x, byte } => {
                self.reg.v[x as usize] = self.reg.v[x as usize].wrapping_add(byte);
            },
            Instruction::Alu { op, x, y } => {
                self.execute_alu(op, x, y);
            },
            Instruction::Random { x, mask } => {
                self.reg.v[x as usize] = random & mask;
            },
            Instruction::ReadDelay { x } => {
                self.reg.v[x as usize] = self.timers.delay;
            },
            _ => {},
        }
    }

    /// Executes an instruction that sets the index register, a timer or
    /// the mode. None of them can fault.
    fn execute_setting(&mut self, instr: Instruction)
        requires
            instr.well_formed(),
            instr.is_setting(),
        ensures
            old(self)@.fault_of(instr) is None,
            final(self)@ == old(self)@.after(instr, Seq::empty(), 0),
    {
        match instr {
            Instruction::LoadIndex { addr } => {
                self.reg.i = addr;
            },
            Instruction::WaitKey { x } => {
                self.mode = Mode::WaitingForKey { register: x };
            },
            Instruction::SetDelay { x } => {
                self.timers.delay = self.reg.v[x as usize];
            },
            Instruction::SetSound { x } => {
                self.timers.sound = self.reg.v[x as usize];
            },
            Instruction::AddIndex { x } => {
                self.reg.i = self.reg.i.wrapping_add(self.reg.v[x as usize] as u16);
            },
            Instruction::FontAddress { x } => {
                self.reg.i = FONT_START_ADDR as u16 + self.reg.v[x as usize] as u16
                    * FONT_BYTES_PER_CHAR;
            },
            _ => {},
        }
    }

    /// Puts the result of `op` on `VX` and `VY` into `VX` and then, where
    /// `op` sets the flag, the flag into `VF`.
    fn execute_alu(&mut self, op: AluOp, x: u8, y: u8)
        requires
            x < 16,
            y < 16,
        ensures
            final(self).reg.v@ == alu_registers(old(self).reg.v@, op, x as int, y as int),
            final(self).reg.i == old(self).reg.i,
            final(self).reg.pc == old(self).reg.pc,
            final(self).memory == old(self).memory,
            final(self).stack == old(self).stack,
            final(self).timers == old(self).timers,
            final(self).display == old(self).display,
            final(self).mode == old(self).mode,
    {
        let out = alu(op, self.reg.v[x as usize], self.reg.v[y as usize]);
        self.reg.v[x as usize] = out.value;
        match out.flag {
            Some(flag) => {
                self.reg.v[FLAG_REGISTER] = flag;
            },
            None => {},
        }
    }

    /// Draws the sprite of `rows` rows at `I`, with its origin at
    /// `(VX mod 64, VY mod 32)`, and leaves the collision flag in `VF`.
    fn draw(&mut self, x: u8, y: u8, rows: u8) -> (result: Result<ScreenAction, Fault>)
        requires
            x < 16,
            y < 16,
            rows < 16,
        ensures
            match result {
                Ok(screen) => {
                    &&& old(self)@.fault_of(Instruction::Draw { x, y, rows }) is None
                    &&& final(self)@ == old(self)@.after(
                        Instruction::Draw { x, y, rows },
                        Seq::empty(),
                        0,
                    )
                    &&& screen == ScreenAction::Redraw
                },
                Err(fault) => {
                    &&& old(self)@.fault_of(Instruction::Draw { x, y, rows }) == Some(fault)
                    &&& final(self)@ == old(self)@
                },
            },
    {
        let start = self.reg.i as usize;
        let count = rows as usize;
        if count > 0 && start + count > MEMORY_LENGTH {
            return Err(Fault::AddressOutOfBounds);
        }
        self.reg.v[FLAG_REGISTER] = 0;
        let x0 = (self.reg.v[x as usize] % 64) as usize;
        let y0 = (self.reg.v[y as usize] % 32) as usize;
        let first = if count > 0 {
            start
        } else {
            0
        };
        let sprite = &self.memory.bytes[first..first + count];
        assert(sprite@ =~= sprite_rows(self.memory@, start as int, rows as int));
        let collision = self.display.draw_sprite(x0, y0, sprite);
        self.reg.v[FLAG_REGISTER] = if collision {
            1
        } else {
            0
        };
        Ok(ScreenAction::Redraw)
    }

    /// Stores the decimal digits of `VX` at `I`, `I + 1` and `I + 2`.
    fn store_bcd(&mut self, x: u8) -> (result: Result<ScreenAction, Fault>)
        requires
            x < 16,
        ensures
            match result {
                Ok(screen) => {
                    &&& old(self)@.fault_of(Instruction::StoreBcd { x }) is None
                    &&& final(self)@ == old(self)@.after(
                        Instruction::StoreBcd { x },
                        Seq::empty(),
                        0,
                    )
                    &&& screen == ScreenAction::Nothing
                },
                Err(fault) => {
                    &&& old(self)@.fault_of(Instruction::StoreBcd { x }) == Some(fault)
                    &&& final(self)@ == old(self)@
                },
            },
    {
        let i = self.reg.i as usize;
        if i + 3 > MEMORY_LENGTH {
            return Err(Fault::AddressOutOfBounds);
        }
        let digits = bcd(self.reg.v[x as usize]);
        self.memory.bytes[i] = digits.0;
        self.memory.bytes[i + 1] = digits.1;
        self.memory.bytes[i + 2] = digits.2;
        Ok(ScreenAction::Nothing)
    }

    /// Stores `V0..=VX` at `I` and moves `I` past them.
    fn store_registers(&mut self, x: u8) -> (result: Result<ScreenAction, Fault>)
        requires
            x < 16,
        ensures
            match result {
                Ok(screen) => {
                    &&& old(self)@.fault_of(Instruction::StoreRegisters { x }) is None
                    &&& final(self)@ == old(self)@.after(
                        Instruction::StoreRegisters { x },
                        Seq::empty(),
                        0,
                    )
                    &&& screen == ScreenAction::Nothing
                },
                Err(fault) => {
                    &&& old(self)@.fault_of(Instruction::StoreRegisters { x }) == Some(fault)
                    &&& final(self)@ == old(self)@
                },
            },
    {
        let base = self.reg.i as usize;
        let last = x as usize;
        if base + last + 1 > MEMORY_LENGTH {
            return Err(Fault::AddressOutOfBounds);
        }
        let mut k: usize = 0;
        while k <= last
            invariant
                k <= last + 1,
                last < 16,
                base + last + 1 <= 4096,
                self.reg == old(self).reg,
                self.stack == old(self).stack,
                self.timers == old(self).timers,
                self.display == old(self).display,
                self.mode == old(self).mode,
                forall|a: int|
                    base <= a < base + k ==> self.memory.bytes@[a] == old(self).reg.v@[a - base],
                forall|a: int|
                    0 <= a < base || base + k <= a < 4096 ==> self.memory.bytes@[a] == old(
                        self,
                    ).memory.bytes@[a],
            decreases last + 1 - k,
        {
            self.memory.bytes[base + k] = self.reg.v[k];
            k += 1;
        }
        self.reg.i = (base + last + 1) as u16;
        assert(self.memory@ =~= registers_stored(
            old(self).memory@,
            old(self).reg.v@,
            base as int,
            last as int,
        ));
        Ok(ScreenAction::Nothing)
    }

    /// Loads `V0..=VX` from `I` and moves `I` past them.
    fn load_registers(&mut self, x: u8) -> (result: Result<ScreenAction, Fault>)
        requires
            x < 16,
        ensures
            match result {
                Ok(screen) => {
                    &&& old(self)@.fault_of(Instruction::LoadRegisters { x }) is None
                    &&& final(self)@ == old(self)@.after(
                        Instruction::LoadRegisters { x },
                        Seq::empty(),
                        0,
                    )
                    &&& screen == ScreenAction::Nothing
                },
                Err(fault) => {
                    &&& old(self)@.fault_of(Instruction::LoadRegisters { x }) == Some(fault)
                    &&& final(self)@ == old(self)@
                },
            },
    {
        let base = self.reg.i as usize;
        let last = x as usize;
        if base + last + 1 > MEMORY_LENGTH {
            return Err(Fault::AddressOutOfBounds);
        }
        let mut k: usize = 0;
        while k <= last
            invariant
                k <= last + 1,
                last < 16,
                base + last + 1 <= 4096,
                self.reg.i == old(self).reg.i,
                self.reg.pc == old(self).reg.pc,
                self.memory == old(self).memory,
                self.stack == old(self).stack,
                self.timers == old(self).timers,
                self.display == old(self).display,
                self.mode == old(self).mode,
                forall|j: int| 0 <= j < k ==> self.reg.v@[j] == old(self).memory.bytes@[base + j],
                forall|j: int| k <= j < 16 ==> self.reg.v@[j] == old(self).reg.v@[j],
            decreases last + 1 - k,
        {
            self.reg.v[k] = self.memory.bytes[base + k];
            k += 1;
        }
        self.reg.i = (base + last + 1) as u16;
        assert(self.reg.v@ =~= registers_loaded(
            old(self).reg.v@,
            old(self).memory@,
            base as int,
            last as int,
        ));
        Ok(ScreenAction::Nothing)
    }
}

} // verus!
