//! A linear disassembler: decodes a program image word by word, using each
//! opcode's fixed length and never following jumps, into a textual listing.

use vstd::prelude::*;

use crate::value::{decode, parse, Value};

verus! {

/// The opcode of `out`, whose consecutive uses share one string literal.
pub const OUT: u16 = 19;

/// The largest opcode.
pub const LAST_OPCODE: u16 = 21;

/// The bytes of a piece of ASCII text.
pub open spec fn ascii(s: Seq<char>) -> Seq<u8> {
    s.map_values(|c: char| c as u8)
}

/// The decimal digits of `n`.
pub open spec fn decimal(n: nat) -> Seq<u8>
    decreases n,
{
    if n < 10 {
        seq![(48 + n) as u8]
    } else {
        decimal(n / 10).push((48 + n % 10) as u8)
    }
}

/// The mnemonic of an opcode in `0..=21`.
pub open spec fn mnemonic_spec(op: u16) -> Seq<char> {
    if op == 0 { "halt"@ }
    else if op == 1 { "set"@ }
    else if op == 2 { "push"@ }
    else if op == 3 { "pop"@ }
    else if op == 4 { "eq"@ }
    else if op == 5 { "gt"@ }
    else if op == 6 { "jmp"@ }
    else if op == 7 { "jt"@ }
    else if op == 8 { "jf"@ }
    else if op == 9 { "add"@ }
    else if op == 10 { "mult"@ }
    else if op == 11 { "mod"@ }
    else if op == 12 { "and"@ }
    else if op == 13 { "or"@ }
    else if op == 14 { "not"@ }
    else if op == 15 { "rmem"@ }
    else if op == 16 { "wmem"@ }
    else if op == 17 { "call"@ }
    else if op == 18 { "ret"@ }
    else if op == 19 { "out"@ }
    else if op == 20 { "in"@ }
    else { "noop"@ }
}

/// The number of words an instruction occupies, opcode included.
pub open spec fn length_spec(op: u16) -> nat {
    if op == 0 || op == 18 || op == 21 {
        1
    } else if op == 2 || op == 3 || op == 6 || op == 17 || op == 19 || op == 20 {
        2
    } else if op == 1 || op == 7 || op == 8 || op == 14 || op == 15 || op == 16 {
        3
    } else {
        4
    }
}

/// Whether a whole instruction, operands included, starts at `pc`.
pub open spec fn is_instruction_at(mem: Seq<u16>, pc: int) -> bool {
    0 <= pc < mem.len() && mem[pc] <= LAST_OPCODE && pc + length_spec(mem[pc]) <= mem.len()
}

/// Whether a whole `out` instruction starts at `pc`.
pub open spec fn is_out_at(mem: Seq<u16>, pc: int) -> bool {
    is_instruction_at(mem, pc) && mem[pc] == OUT
}

/// How a byte appears inside a string literal of the listing.
pub open spec fn escape_spec(c: u8) -> Seq<u8> {
    if c == 10 {
        ascii("\\n"@)
    } else if c == 34 {
        ascii("\\\""@)
    } else if c == 92 {
        ascii("\\\\"@)
    } else if c < 32 || c > 126 {
        ascii("\\"@) + decimal(c as nat)
    } else {
        seq![c]
    }
}

/// An operand with its leading space: `r<k>` for a register reference, the
/// number itself otherwise.
pub open spec fn operand_text(w: u16) -> Seq<u8> {
    match decode(w) {
        Value::Register(r) => ascii(" r"@) + decimal(r as nat),
        _ => ascii(" "@) + decimal(w as nat),
    }
}

/// The operands `mem[from..to]`, each rendered with its leading space.
pub open spec fn operands_text(mem: Seq<u16>, from: int, to: int) -> Seq<u8>
    decreases to - from,
{
    if from >= to {
        Seq::empty()
    } else {
        operands_text(mem, from, to - 1) + operand_text(mem[to - 1])
    }
}

/// The text for the word at `pc`. A word that is no opcode, or whose
/// operands run past the end of the image, is listed as data. An `out` adds
/// one escaped character to a string literal, which it opens unless one is
/// `open` already and closes unless the next instruction is an `out` too.
/// Any other instruction is listed with its mnemonic and operands.
pub open spec fn entry_spec(mem: Seq<u16>, pc: int, open: bool) -> Seq<u8> {
    let op = mem[pc];
    if !is_instruction_at(mem, pc) {
        decimal(pc as nat) + ascii(": data "@) + decimal(op as nat) + ascii("\n"@)
    } else if op == OUT {
        (if open { Seq::empty() } else { decimal(pc as nat) + ascii(": out \""@) })
            + escape_spec(mem[pc + 1] as u8)
            + (if is_out_at(mem, pc + 2) { Seq::empty() } else { ascii("\"\n"@) })
    } else {
        decimal(pc as nat) + ascii(": "@) + ascii(mnemonic_spec(op)) + operands_text(
            mem,
            pc + 1,
            pc + length_spec(op),
        ) + ascii("\n"@)
    }
}

/// Where the entry after the one at `pc` starts.
pub open spec fn next_pc(mem: Seq<u16>, pc: int) -> int {
    if is_instruction_at(mem, pc) {
        pc + length_spec(mem[pc])
    } else {
        pc + 1
    }
}

/// The listing of the image from `pc` on, `open` telling whether a string
/// literal of `out` instructions is open there.
pub open spec fn listing_from(mem: Seq<u16>, pc: int, open: bool) -> Seq<u8>
    decreases mem.len() - pc,
{
    if pc < 0 || pc >= mem.len() {
        Seq::empty()
    } else {
        entry_spec(mem, pc, open) + listing_from(
            mem,
            next_pc(mem, pc),
            is_out_at(mem, pc) && is_out_at(mem, pc + 2),
        )
    }
}

/// The listing of a whole image.
pub open spec fn listing(mem: Seq<u16>) -> Seq<u8> {
    listing_from(mem, 0, false)
}

/// Appends the bytes of an ASCII text.
fn push_text(out: &mut Vec<u8>, s: &str)
    ensures
        final(out)@ == old(out)@ + ascii(s@),
{
    let n = s.unicode_len();
    let mut i: usize = 0;
    while i < n
        invariant
            n == s@.len(),
            i <= n,
            out@ == old(out)@ + ascii(s@.subrange(0, i as int)),
        decreases n - i,
    {
        let c = s.get_char(i);
        out.push(c as u8);
        proof {
            assert(s@.subrange(0, i + 1) == s@.subrange(0, i as int).push(c));
            assert(ascii(s@.subrange(0, i + 1)) == ascii(s@.subrange(0, i as int)).push(c as u8));
        }
        i = i + 1;
    }
    assert(s@.subrange(0, n as int) == s@);
}

/// Appends the decimal digits of `n`.
fn push_decimal(out: &mut Vec<u8>, n: usize)
    ensures
        final(out)@ == old(out)@ + decimal(n as nat),
    decreases n,
{
    if n >= 10 {
        push_decimal(out, n / 10);
    }
    out.push((48 + n % 10) as u8);
    proof {
        if n >= 10 {
            assert(old(out)@ + decimal(n as nat) == (old(out)@ + decimal((n / 10) as nat)).push(
                (48 + n % 10) as u8,
            ));
        }
    }
}

/// The mnemonic of an opcode in `0..=21`.
pub fn mnemonic(op: u16) -> (r: &'static str)
    requires
        op <= LAST_OPCODE,
    ensures
        r@ == mnemonic_spec(op),
{
    if op == 0 { "halt" }
    else if op == 1 { "set" }
    else if op == 2 { "push" }
    else if op == 3 { "pop" }
    else if op == 4 { "eq" }
    else if op == 5 { "gt" }
    else if op == 6 { "jmp" }
    else if op == 7 { "jt" }
    else if op == 8 { "jf" }
    else if op == 9 { "add" }
    else if op == 10 { "mult" }
    else if op == 11 { "mod" }
    else if op == 12 { "and" }
    else if op == 13 { "or" }
    else if op == 14 { "not" }
    else if op == 15 { "rmem" }
    else if op == 16 { "wmem" }
    else if op == 17 { "call" }
    else if op == 18 { "ret" }
    else if op == 19 { "out" }
    else if op == 20 { "in" }
    else { "noop" }
}

/// The number of words an instruction with opcode `op` occupies.
pub fn instruction_length(op: u16) -> (r: usize)
    requires
        op <= LAST_OPCODE,
    ensures
        r == length_spec(op),
{
    if op == 0 || op == 18 || op == 21 {
        1
    } else if op == 2 || op == 3 || op == 6 || op == 17 || op == 19 || op == 20 {
        2
    } else if op == 1 || op == 7 || op == 8 || op == 14 || op == 15 || op == 16 {
        3
    } else {
        4
    }
}

/// Whether a whole instruction starts at `pc`.
fn instruction_at(mem: &Vec<u16>, pc: usize) -> (r: bool)
    ensures
        r == is_instruction_at(mem@, pc as int),
{
    pc < mem.len() && mem[pc] <= LAST_OPCODE && instruction_length(mem[pc]) <= mem.len() - pc
}

/// Appends a byte as it appears inside a string literal.
fn push_escaped(out: &mut Vec<u8>, c: u8)
    ensures
        final(out)@ == old(out)@ + escape_spec(c),
{
    if c == 10 {
        push_text(out, "\\n");
    } else if c == 34 {
        push_text(out, "\\\"");
    } else if c == 92 {
        push_text(out, "\\\\");
    } else if c < 32 || c > 126 {
        push_text(out, "\\");
        push_decimal(out, c as usize);
        assert(out@ =~= old(out)@ + escape_spec(c));
    } else {
        out.push(c);
        assert(out@ =~= old(out)@ + escape_spec(c));
    }
}

/// Appends one operand with its leading space.
fn push_operand(out: &mut Vec<u8>, w: u16)
    ensures
        final(out)@ == old(out)@ + operand_text(w),
{
    match parse(w) {
        Value::Register(r) => {
            push_text(out, " r");
            push_decimal(out, r as usize);
        },
        _ => {
            push_text(out, " ");
            push_decimal(out, w as usize);
        },
    }
    assert(out@ =~= old(out)@ + operand_text(w));
}

/// Appends the text for the word at `pc`.
fn push_entry(out: &mut Vec<u8>, mem: &Vec<u16>, pc: usize, open: bool)
    requires
        pc < mem@.len(),
    ensures
        final(out)@ == old(out)@ + entry_spec(mem@, pc as int, open),
{
    let n = mem.len();
    let op = mem[pc];
    if !instruction_at(mem, pc) {
        push_decimal(out, pc);
        push_text(out, ": data ");
        push_decimal(out, op as usize);
        push_text(out, "\n");
    } else if op == OUT {
        if !open {
            push_decimal(out, pc);
            push_text(out, ": out \"");
        }
        push_escaped(out, #[verifier::truncate] (mem[pc + 1] as u8));
        if !(pc + 2 < n && instruction_at(mem, pc + 2) && mem[pc + 2] == OUT) {
            push_text(out, "\"\n");
        }
    } else {
        push_decimal(out, pc);
        push_text(out, ": ");
        push_text(out, mnemonic(op));
        let end = pc + instruction_length(op);
        let mut i = pc + 1;
        while i < end
            invariant
                pc < i <= end <= mem@.len(),
                out@ == old(out)@ + decimal(pc as nat) + ascii(": "@) + ascii(
                    mnemonic_spec(op),
                ) + operands_text(mem@, pc + 1, i as int),
            decreases end - i,
        {
            push_operand(out, mem[i]);
            i = i + 1;
        }
        push_text(out, "\n");
    }
    assert(out@ =~= old(out)@ + entry_spec(mem@, pc as int, open));
}

/// Renders a program image as a listing, one line per instruction and
/// consecutive `out` instructions merged into one string literal.
pub fn disassemble(program: &Vec<u16>) -> (r: Vec<u8>)
    ensures
        r@ == listing(program@),
{
    let mut out: Vec<u8> = Vec::new();
    let mut pc: usize = 0;
    let mut open = false;
    while pc < program.len()
        invariant
            pc <= program@.len(),
            out@ + listing_from(program@, pc as int, open) == listing(program@),
        decreases program@.len() - pc,
    {
        let ghost before = out@;
        let ghost was_open = open;
        push_entry(&mut out, program, pc, open);
        let whole = instruction_at(program, pc);
        let next = if whole {
            pc + instruction_length(program[pc])
        } else {
            pc + 1
        };
        open = whole && program[pc] == OUT && instruction_at(
            program,
            next,
        ) && program[next] == OUT;
        assert(out@ + listing_from(program@, next as int, open) =~= before + listing_from(
            program@,
            pc as int,
            was_open,
        ));
        pc = next;
    }
    assert(out@ =~= out@ + listing_from(program@, pc as int, open));
    out
}

} // verus!
