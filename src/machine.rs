//! The execution engine: memory, registers, stack and program counter, and
//! the transition taken by each instruction.

use vstd::prelude::*;

use crate::alu::{add_spec, mult_spec, not_spec, word_add, word_mult, word_not};
use crate::input::{line_codes, InputBuffer};
use crate::value::{decode, parse, Value, REGISTER_COUNT};

verus! {

/// The number of words of memory; addresses run from 0 to 32767.
pub const MEMORY_SIZE: usize = 32768;

/// A fatal condition that stops the machine.
#[derive(Clone, Copy, Debug, PartialEq, Eq, Structural)]
pub enum VmError {
    /// An operand word of 32776 or more was read or written through.
    InvalidOperand(u16),
    /// `pop` found the stack empty.
    StackUnderflow,
    /// The word at the program counter is not an opcode.
    UnknownOpcode(u16),
    /// An address outside memory was fetched, read or written.
    MemoryFault(usize),
    /// `mod` was asked to divide by zero.
    DivisionByZero,
    /// A program image with more words than memory holds.
    ImageTooLarge(usize),
}

/// Why the machine stopped without error.
#[derive(Clone, Copy, Debug, PartialEq, Eq, Structural)]
pub enum Halt {
    /// The `halt` instruction ran.
    Instruction,
    /// `ret` found the stack empty.
    EmptyReturn,
    /// Input was needed and the input source had ended.
    EndOfInput,
}

/// What one step of the machine asks of its surroundings.
#[derive(Clone, Copy, Debug, PartialEq, Eq, Structural)]
pub enum Step {
    /// An instruction ran; nothing to do.
    Continue,
    /// An `out` instruction ran and emits this byte.
    Output(u8),
    /// An `in` instruction found no pending input; nothing changed. Supply a
    /// line and step again.
    NeedInput,
    /// The machine stopped; nothing changed.
    Halted(Halt),
    /// A fatal error; nothing changed.
    Fault(VmError),
}

/// The machine's state as mathematical values.
pub ghost struct MachineState {
    pub memory: Seq<u16>,
    pub registers: Seq<u16>,
    pub stack: Seq<u16>,
    pub pc: int,
    pub input: Seq<u16>,
}

/// The value an operand word stands for, read from the word at `addr`.
pub open spec fn read_spec(s: MachineState, addr: int) -> Result<u16, VmError> {
    if !(0 <= addr < s.memory.len()) {
        Err(VmError::MemoryFault(addr as usize))
    } else {
        match decode(s.memory[addr]) {
            Value::Literal(n) => Ok(n),
            Value::Register(r) => Ok(s.registers[r as int]),
            Value::Invalid(w) => Err(VmError::InvalidOperand(w)),
        }
    }
}

/// The state after storing `v` through the destination word at `addr`: a
/// register reference names a register, a literal names a memory address.
pub open spec fn write_spec(s: MachineState, addr: int, v: u16) -> Result<MachineState, VmError> {
    if !(0 <= addr < s.memory.len()) {
        Err(VmError::MemoryFault(addr as usize))
    } else {
        match decode(s.memory[addr]) {
            Value::Literal(n) => Ok(MachineState { memory: s.memory.update(n as int, v), ..s }),
            Value::Register(r) => Ok(MachineState { registers: s.registers.update(r as int, v), ..s }),
            Value::Invalid(w) => Err(VmError::InvalidOperand(w)),
        }
    }
}

/// Stores `v` through the first operand and moves the program counter by `len`.
pub open spec fn store_step(s: MachineState, v: u16, len: int) -> (MachineState, Step) {
    match write_spec(s, s.pc + 1, v) {
        Ok(t) => (MachineState { pc: s.pc + len, ..t }, Step::Continue),
        Err(e) => (s, Step::Fault(e)),
    }
}

/// The result of a three-operand instruction on its two source values.
pub open spec fn combine_spec(op: u16, b: u16, c: u16) -> u16 {
    if op == 4 {
        if b == c { 1 } else { 0 }
    } else if op == 5 {
        if b > c { 1 } else { 0 }
    } else if op == 9 {
        add_spec(b, c)
    } else if op == 10 {
        mult_spec(b, c)
    } else if op == 11 {
        (b % c) as u16
    } else if op == 12 {
        b & c
    } else {
        b | c
    }
}

/// Whether `op` is one of the three-operand instructions
/// `eq gt add mult mod and or`.
pub open spec fn is_binary(op: u16) -> bool {
    op == 4 || op == 5 || (9 <= op <= 13)
}

/// A three-operand instruction: `a = b <op> c`.
pub open spec fn binary_step(s: MachineState, op: u16) -> (MachineState, Step) {
    match read_spec(s, s.pc + 2) {
        Err(e) => (s, Step::Fault(e)),
        Ok(b) => match read_spec(s, s.pc + 3) {
            Err(e) => (s, Step::Fault(e)),
            Ok(c) => if op == 11 && c == 0 {
                (s, Step::Fault(VmError::DivisionByZero))
            } else {
                store_step(s, combine_spec(op, b, c), 4)
            },
        },
    }
}

/// A two-operand instruction that stores a function of its source:
/// `set` the value, `not` its complement, `rmem` the memory word it addresses.
pub open spec fn unary_step(s: MachineState, op: u16) -> (MachineState, Step) {
    match read_spec(s, s.pc + 2) {
        Err(e) => (s, Step::Fault(e)),
        Ok(b) => if op == 1 {
            store_step(s, b, 3)
        } else if op == 14 {
            store_step(s, not_spec(b), 3)
        } else if b as int >= s.memory.len() {
            (s, Step::Fault(VmError::MemoryFault(b as usize)))
        } else {
            store_step(s, s.memory[b as int], 3)
        },
    }
}

/// A conditional jump: `jt` (op 7) jumps when the test is nonzero, `jf` when it is zero.
pub open spec fn branch_step(s: MachineState, op: u16) -> (MachineState, Step) {
    match read_spec(s, s.pc + 1) {
        Err(e) => (s, Step::Fault(e)),
        Ok(a) => match read_spec(s, s.pc + 2) {
            Err(e) => (s, Step::Fault(e)),
            Ok(b) => if (a != 0) == (op == 7) {
                (MachineState { pc: b as int, ..s }, Step::Continue)
            } else {
                (MachineState { pc: s.pc + 3, ..s }, Step::Continue)
            },
        },
    }
}

/// The transition of one instruction: the next state, and what the
/// surroundings must do.
pub open spec fn step_spec(s: MachineState) -> (MachineState, Step) {
    let pc = s.pc;
    if !(0 <= pc < s.memory.len()) {
        (s, Step::Fault(VmError::MemoryFault(pc as usize)))
    } else {
        let op = s.memory[pc];
        if op == 0 {
            (s, Step::Halted(Halt::Instruction))
        } else if op == 1 || op == 14 || op == 15 {
            unary_step(s, op)
        } else if op == 2 {
            match read_spec(s, pc + 1) {
                Err(e) => (s, Step::Fault(e)),
                Ok(a) => (MachineState { stack: s.stack.push(a), pc: pc + 2, ..s }, Step::Continue),
            }
        } else if op == 3 {
            if s.stack.len() == 0 {
                (s, Step::Fault(VmError::StackUnderflow))
            } else {
                let (t, r) = store_step(s, s.stack.last(), 2);
                if r == Step::Continue {
                    (MachineState { stack: s.stack.drop_last(), ..t }, r)
                } else {
                    (t, r)
                }
            }
        } else if is_binary(op) {
            binary_step(s, op)
        } else if op == 6 {
            match read_spec(s, pc + 1) {
                Err(e) => (s, Step::Fault(e)),
                Ok(a) => (MachineState { pc: a as int, ..s }, Step::Continue),
            }
        } else if op == 7 || op == 8 {
            branch_step(s, op)
        } else if op == 16 {
            match read_spec(s, pc + 1) {
                Err(e) => (s, Step::Fault(e)),
                Ok(a) => match read_spec(s, pc + 2) {
                    Err(e) => (s, Step::Fault(e)),
                    Ok(b) => if a as int >= s.memory.len() {
                        (s, Step::Fault(VmError::MemoryFault(a as usize)))
                    } else {
                        (
                            MachineState { memory: s.memory.update(a as int, b), pc: pc + 3, ..s },
                            Step::Continue,
                        )
                    },
                },
            }
        } else if op == 17 {
            match read_spec(s, pc + 1) {
                Err(e) => (s, Step::Fault(e)),
                Ok(a) => (
                    MachineState { stack: s.stack.push((pc + 2) as u16), pc: a as int, ..s },
                    Step::Continue,
                ),
            }
        } else if op == 18 {
            if s.stack.len() == 0 {
                (s, Step::Halted(Halt::EmptyReturn))
            } else {
                (
                    MachineState { stack: s.stack.drop_last(), pc: s.stack.last() as int, ..s },
                    Step::Continue,
                )
            }
        } else if op == 19 {
            match read_spec(s, pc + 1) {
                Err(e) => (s, Step::Fault(e)),
                Ok(a) => (MachineState { pc: pc + 2, ..s }, Step::Output(a as u8)),
            }
        } else if op == 20 {
            if s.input.len() == 0 {
                (s, Step::NeedInput)
            } else {
                let (t, r) = store_step(s, s.input[0], 2);
                if r == Step::Continue {
                    (MachineState { input: s.input.drop_first(), ..t }, r)
                } else {
                    (t, r)
                }
            }
        } else if op == 21 {
            (MachineState { pc: pc + 1, ..s }, Step::Continue)
        } else {
            (s, Step::Fault(VmError::UnknownOpcode(op)))
        }
    }
}

/// The stack after pushing `vs` one at a time, first element first, as
/// successive `push` instructions do.
pub open spec fn push_each(stack: Seq<u16>, vs: Seq<u16>) -> Seq<u16>
    decreases vs.len(),
{
    if vs.len() == 0 {
        stack
    } else {
        push_each(stack.push(vs[0]), vs.drop_first())
    }
}

/// The values that `n` successive pops take off `stack`, in the order they
/// come off, and the stack that is left.
pub open spec fn pop_each(stack: Seq<u16>, n: nat) -> (Seq<u16>, Seq<u16>)
    decreases n,
{
    if n == 0 || stack.len() == 0 {
        (Seq::empty(), stack)
    } else {
        let (vs, rest) = pop_each(stack.drop_last(), (n - 1) as nat);
        (seq![stack.last()] + vs, rest)
    }
}

proof fn lemma_push_each_appends(stack: Seq<u16>, vs: Seq<u16>)
    ensures
        push_each(stack, vs) == stack + vs,
    decreases vs.len(),
{
    if vs.len() > 0 {
        lemma_push_each_appends(stack.push(vs[0]), vs.drop_first());
        assert(stack.push(vs[0]) + vs.drop_first() =~= stack + vs);
    }
}

proof fn lemma_pop_each_appended(base: Seq<u16>, vs: Seq<u16>)
    ensures
        pop_each(base + vs, vs.len()) == (vs.reverse(), base),
    decreases vs.len(),
{
    if vs.len() > 0 {
        let init = vs.drop_last();
        assert((base + vs).drop_last() =~= base + init);
        lemma_pop_each_appended(base, init);
        assert(seq![vs.last()] + init.reverse() =~= vs.reverse());
    } else {
        assert(base + vs =~= base);
        assert(vs.reverse() =~= Seq::<u16>::empty());
    }
}

/// The stack is last in, first out: pushing `v1, ..., vn` and then popping
/// `n` times yields `vn, ..., v1` and leaves the stack as it was.
pub proof fn lemma_stack_lifo(base: Seq<u16>, vs: Seq<u16>)
    ensures
        pop_each(push_each(base, vs), vs.len()) == (vs.reverse(), base),
{
    lemma_push_each_appends(base, vs);
    lemma_pop_each_appended(base, vs);
}

/// `call` pushes the address just past its operand and jumps. Whatever runs
/// in between, a `ret` that finds the stack as that `call` left it resumes
/// at the instruction after the `call`, with the stack as it was before.
pub proof fn lemma_call_then_ret(s: MachineState, t: MachineState)
    requires
        state_wf(s),
        0 <= s.pc < MEMORY_SIZE,
        s.memory[s.pc] == 17,
        step_spec(s).1 == Step::Continue,
        state_wf(t),
        0 <= t.pc < MEMORY_SIZE,
        t.memory[t.pc] == 18,
        t.stack == step_spec(s).0.stack,
    ensures
        step_spec(t).1 == Step::Continue,
        step_spec(t).0.pc == s.pc + 2,
        step_spec(t).0.stack == s.stack,
{
    assert(t.stack.drop_last() =~= s.stack);
}

/// The state in which a program image starts: the image at the bottom of
/// memory and zeros above it, registers zeroed, stack and input empty,
/// program counter 0.
pub open spec fn initial_state(program: Seq<u16>) -> MachineState {
    MachineState {
        memory: program + Seq::new((MEMORY_SIZE - program.len()) as nat, |i: int| 0u16),
        registers: Seq::new(REGISTER_COUNT as nat, |i: int| 0u16),
        stack: Seq::empty(),
        pc: 0,
        input: Seq::empty(),
    }
}

/// A running machine.
pub struct Machine {
    memory: Vec<u16>,
    registers: Vec<u16>,
    stack: Vec<u16>,
    pc: usize,
    input: InputBuffer,
}

impl View for Machine {
    type V = MachineState;

    closed spec fn view(&self) -> MachineState {
        MachineState {
            memory: self.memory@,
            registers: self.registers@,
            stack: self.stack@,
            pc: self.pc as int,
            input: self.input@,
        }
    }
}

/// The shape every reachable state has: full memory, eight registers, and a
/// program counter that fits in a word.
pub open spec fn state_wf(s: MachineState) -> bool {
    &&& s.memory.len() == MEMORY_SIZE
    &&& s.registers.len() == REGISTER_COUNT
    &&& 0 <= s.pc <= u16::MAX
}

impl Machine {
    /// Well-formedness, which every method keeps.
    pub open spec fn wf(&self) -> bool {
        state_wf(self@)
    }

    /// A machine loaded with a program image; an image longer than memory
    /// is refused.
    pub fn new(program: &Vec<u16>) -> (r: Result<Machine, VmError>)
        ensures
            program@.len() > MEMORY_SIZE ==> r == Err::<Machine, VmError>(
                VmError::ImageTooLarge(program@.len() as usize),
            ),
            program@.len() <= MEMORY_SIZE ==> (r matches Ok(m) && m.wf() && m@ == initial_state(
                program@,
            )),
    {
        let n = program.len();
        if n > MEMORY_SIZE {
            return Err(VmError::ImageTooLarge(n));
        }
        let mut memory: Vec<u16> = Vec::new();
        let mut i: usize = 0;
        while i < MEMORY_SIZE
            invariant
                n == program@.len() <= MEMORY_SIZE,
                i <= MEMORY_SIZE,
                memory@.len() == i,
                forall|j: int| 0 <= j < i && j < n ==> memory@[j] == program@[j],
                forall|j: int| n <= j < i ==> memory@[j] == 0,
            decreases MEMORY_SIZE - i,
        {
            if i < n {
                memory.push(program[i]);
            } else {
                memory.push(0);
            }
            i = i + 1;
        }
        let mut registers: Vec<u16> = Vec::new();
        let mut k: usize = 0;
        while k < REGISTER_COUNT
            invariant
                k <= REGISTER_COUNT,
                registers@.len() == k,
                forall|j: int| 0 <= j < k ==> registers@[j] == 0,
            decreases REGISTER_COUNT - k,
        {
            registers.push(0);
            k = k + 1;
        }
        let m = Machine { memory, registers, stack: Vec::new(), pc: 0, input: InputBuffer::new() };
        assert(m@.memory =~= initial_state(program@).memory);
        assert(m@.registers =~= initial_state(program@).registers);
        Ok(m)
    }

    /// Hands the machine a line of input, read because a step asked for it.
    /// An empty line means the input source has ended, and the machine stops.
    pub fn supply_line(&mut self, line: &str) -> (r: Step)
        requires
            old(self).wf(),
        ensures
            final(self).wf(),
            line@.len() == 0 ==> r == Step::Halted(Halt::EndOfInput) && final(self)@ == old(self)@,
            line@.len() > 0 ==> r == Step::Continue && final(self)@ == (MachineState {
                input: old(self)@.input + line_codes(line@),
                ..old(self)@
            }),
    {
        if line.unicode_len() == 0 {
            return Step::Halted(Halt::EndOfInput);
        }
        self.input.refill(line);
        Step::Continue
    }

    /// The address of the next instruction.
    pub fn pc(&self) -> (r: usize)
        ensures
            r == self@.pc,
    {
        self.pc
    }

    /// The content of register `r`.
    pub fn register(&self, r: usize) -> (v: u16)
        requires
            self.wf(),
            r < REGISTER_COUNT,
        ensures
            v == self@.registers[r as int],
    {
        self.registers[r]
    }

    /// The word at a memory address.
    pub fn memory_word(&self, addr: usize) -> (v: u16)
        requires
            self.wf(),
            addr < MEMORY_SIZE,
        ensures
            v == self@.memory[addr as int],
    {
        self.memory[addr]
    }

    /// The stack, bottom first.
    pub fn stack(&self) -> (r: &Vec<u16>)
        ensures
            r@ == self@.stack,
    {
        &self.stack
    }

    /// The number of input characters not yet delivered.
    pub fn pending_input(&self) -> (r: usize)
        ensures
            r == self@.input.len(),
    {
        self.input.len()
    }

    /// The value the operand word at `addr` stands for.
    fn read(&self, addr: usize) -> (r: Result<u16, VmError>)
        requires
            self.wf(),
        ensures
            r == read_spec(self@, addr as int),
    {
        if addr >= self.memory.len() {
            return Err(VmError::MemoryFault(addr));
        }
        match parse(self.memory[addr]) {
            Value::Literal(n) => Ok(n),
            Value::Register(r) => Ok(self.registers[r as usize]),
            Value::Invalid(w) => Err(VmError::InvalidOperand(w)),
        }
    }

    /// Stores `v` through the destination word at `addr`; nothing changes on error.
    fn write(&mut self, addr: usize, v: u16) -> (r: Result<(), VmError>)
        requires
            old(self).wf(),
        ensures
            final(self).wf(),
            match write_spec(old(self)@, addr as int, v) {
                Ok(t) => r == Ok::<(), VmError>(()) && final(self)@ == t,
                Err(e) => r == Err::<(), VmError>(e) && final(self)@ == old(self)@,
            },
    {
        if addr >= self.memory.len() {
            return Err(VmError::MemoryFault(addr));
        }
        match parse(self.memory[addr]) {
            Value::Literal(n) => {
                self.memory.set(n as usize, v);
                Ok(())
            },
            Value::Register(r) => {
                self.registers.set(r as usize, v);
                Ok(())
            },
            Value::Invalid(w) => Err(VmError::InvalidOperand(w)),
        }
    }
    /// Stores `v` through the first operand and advances by `len` words.
    fn store(&mut self, v: u16, len: usize) -> (r: Step)
        requires
            old(self).wf(),
            old(self).pc < MEMORY_SIZE,
            len <= 4,
        ensures
            final(self).wf(),
            (final(self)@, r) == store_step(old(self)@, v, len as int),
    {
        match self.write(self.pc + 1, v) {
            Ok(()) => {
                self.pc = self.pc + len;
                Step::Continue
            },
            Err(e) => Step::Fault(e),
        }
    }

    /// Runs a three-operand instruction.
    fn binary(&mut self, op: u16) -> (r: Step)
        requires
            old(self).wf(),
            old(self).pc < MEMORY_SIZE,
            is_binary(op),
        ensures
            final(self).wf(),
            (final(self)@, r) == binary_step(old(self)@, op),
    {
        let b = match self.read(self.pc + 2) {
            Ok(b) => b,
            Err(e) => return Step::Fault(e),
        };
        let c = match self.read(self.pc + 3) {
            Ok(c) => c,
            Err(e) => return Step::Fault(e),
        };
        let v = if op == 4 {
            if b == c { 1 } else { 0 }
        } else if op == 5 {
            if b > c { 1 } else { 0 }
        } else if op == 9 {
            word_add(b, c)
        } else if op == 10 {
            word_mult(b, c)
        } else if op == 11 {
            if c == 0 {
                return Step::Fault(VmError::DivisionByZero);
            }
            b % c
        } else if op == 12 {
            b & c
        } else {
            b | c
        };
        self.store(v, 4)
    }

    /// Runs `set`, `not` or `rmem`.
    fn unary(&mut self, op: u16) -> (r: Step)
        requires
            old(self).wf(),
            old(self).pc < MEMORY_SIZE,
            op == 1 || op == 14 || op == 15,
        ensures
            final(self).wf(),
            (final(self)@, r) == unary_step(old(self)@, op),
    {
        let b = match self.read(self.pc + 2) {
            Ok(b) => b,
            Err(e) => return Step::Fault(e),
        };
        if op == 1 {
            self.store(b, 3)
        } else if op == 14 {
            self.store(word_not(b), 3)
        } else if b as usize >= self.memory.len() {
            Step::Fault(VmError::MemoryFault(b as usize))
        } else {
            let w = self.memory[b as usize];
            self.store(w, 3)
        }
    }

    /// Runs `jt` or `jf`.
    fn branch(&mut self, op: u16) -> (r: Step)
        requires
            old(self).wf(),
            old(self).pc < MEMORY_SIZE,
            op == 7 || op == 8,
        ensures
            final(self).wf(),
            (final(self)@, r) == branch_step(old(self)@, op),
    {
        let a = match self.read(self.pc + 1) {
            Ok(a) => a,
            Err(e) => return Step::Fault(e),
        };
        let b = match self.read(self.pc + 2) {
            Ok(b) => b,
            Err(e) => return Step::Fault(e),
        };
        if (a != 0) == (op == 7) {
            self.pc = b as usize;
        } else {
            self.pc = self.pc + 3;
        }
        Step::Continue
    }

    /// Executes the instruction at the program counter.
    pub fn step(&mut self) -> (r: Step)
        requires
            old(self).wf(),
        ensures
            final(self).wf(),
            (final(self)@, r) == step_spec(old(self)@),
    {
        let pc = self.pc;
        if pc >= self.memory.len() {
            return Step::Fault(VmError::MemoryFault(pc));
        }
        let op = self.memory[pc];
        if op == 0 {
            Step::Halted(Halt::Instruction)
        } else if op == 1 || op == 14 || op == 15 {
            self.unary(op)
        } else if op == 2 {
            match self.read(pc + 1) {
                Err(e) => Step::Fault(e),
                Ok(a) => {
                    self.stack.push(a);
                    self.pc = pc + 2;
                    Step::Continue
                },
            }
        } else if op == 3 {
            let n = self.stack.len();
            if n == 0 {
                return Step::Fault(VmError::StackUnderflow);
            }
            let top = self.stack[n - 1];
            let r = self.store(top, 2);
            if r == Step::Continue {
                self.stack.pop();
            }
            r
        } else if op == 4 || op == 5 || (9 <= op && op <= 13) {
            self.binary(op)
        } else if op == 6 {
            match self.read(pc + 1) {
                Err(e) => Step::Fault(e),
                Ok(a) => {
                    self.pc = a as usize;
                    Step::Continue
                },
            }
        } else if op == 7 || op == 8 {
            self.branch(op)
        } else if op == 16 {
            let a = match self.read(pc + 1) {
                Ok(a) => a,
                Err(e) => return Step::Fault(e),
            };
            let b = match self.read(pc + 2) {
                Ok(b) => b,
                Err(e) => return Step::Fault(e),
            };
            if a as usize >= self.memory.len() {
                return Step::Fault(VmError::MemoryFault(a as usize));
            }
            self.memory.set(a as usize, b);
            self.pc = pc + 3;
            Step::Continue
        } else if op == 17 {
            match self.read(pc + 1) {
                Err(e) => Step::Fault(e),
                Ok(a) => {
                    self.stack.push((pc + 2) as u16);
                    self.pc = a as usize;
                    Step::Continue
                },
            }
        } else if op == 18 {
            match self.stack.pop() {
                None => Step::Halted(Halt::EmptyReturn),
                Some(target) => {
                    self.pc = target as usize;
                    Step::Continue
                },
            }
        } else if op == 19 {
            match self.read(pc + 1) {
                Err(e) => Step::Fault(e),
                Ok(a) => {
                    self.pc = pc + 2;
                    Step::Output(a as u8)
                },
            }
        } else if op == 20 {
            match self.input.peek() {
                None => Step::NeedInput,
                Some(c) => {
                    let r = self.store(c, 2);
                    if r == Step::Continue {
                        self.input.next_char();
                    }
                    r
                },
            }
        } else if op == 21 {
            self.pc = pc + 1;
            Step::Continue
        } else {
            Step::Fault(VmError::UnknownOpcode(op))
        }
    }
}

} // verus!
