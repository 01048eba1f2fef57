//! The queue of pending input characters read by the `in` instruction.

use vstd::prelude::*;

verus! {

/// The character codes that a line of text contributes to the queue: each
/// character's code truncated to 16 bits, the line terminator included.
pub open spec fn line_codes(line: Seq<char>) -> Seq<u16> {
    line.map_values(|c: char| c as u16)
}

/// Pending character codes, delivered first in, first out.
pub struct InputBuffer {
    pending: Vec<u16>,
}

impl View for InputBuffer {
    type V = Seq<u16>;

    closed spec fn view(&self) -> Seq<u16> {
        self.pending@
    }
}

impl InputBuffer {
    /// An empty buffer.
    pub fn new() -> (r: InputBuffer)
        ensures
            r@ == Seq::<u16>::empty(),
    {
        InputBuffer { pending: Vec::new() }
    }

    /// Whether no character is pending.
    pub fn is_empty(&self) -> (r: bool)
        ensures
            r == (self@.len() == 0),
    {
        self.pending.len() == 0
    }

    /// The number of pending characters.
    pub fn len(&self) -> (r: usize)
        ensures
            r == self@.len(),
    {
        self.pending.len()
    }

    /// The next character to be delivered, if any, without removing it.
    pub fn peek(&self) -> (r: Option<u16>)
        ensures
            self@.len() == 0 ==> r == None::<u16>,
            self@.len() > 0 ==> r == Some(self@[0]),
    {
        if self.pending.len() == 0 {
            None
        } else {
            Some(self.pending[0])
        }
    }

    /// Removes and returns the oldest pending character.
    pub fn next_char(&mut self) -> (r: Option<u16>)
        ensures
            old(self)@.len() == 0 ==> r == None::<u16> && final(self)@ == old(self)@,
            old(self)@.len() > 0 ==> r == Some(old(self)@[0]) && final(self)@ == old(
                self,
            )@.drop_first(),
    {
        if self.pending.len() == 0 {
            None
        } else {
            Some(self.pending.remove(0))
        }
    }

    /// Appends every character of a line, in order, behind those pending.
    pub fn refill(&mut self, line: &str)
        ensures
            final(self)@ == old(self)@ + line_codes(line@),
    {
        let n = line.unicode_len();
        let mut i: usize = 0;
        while i < n
            invariant
                n == line@.len(),
                i <= n,
                self@ == old(self)@ + line_codes(line@.subrange(0, i as int)),
            decreases n - i,
        {
            let c = line.get_char(i);
            self.pending.push(c as u16);
            proof {
                assert(line@.subrange(0, i + 1) == line@.subrange(0, i as int).push(c));
                assert(line_codes(line@.subrange(0, i + 1)) == line_codes(
                    line@.subrange(0, i as int),
                ).push(c as u16));
            }
            i = i + 1;
        }
        assert(line@.subrange(0, n as int) == line@);
    }
}

} // verus!
