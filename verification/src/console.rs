//! The console the trap dispatcher performs character I/O against: a byte
//! input stream consumed one byte per blocking read, and a byte output
//! stream appended one character at a time.

use vstd::prelude::*;

verus! {

/// The mathematical view of a console: the bytes not yet read, and every
/// byte written so far.
#[verifier::ext_equal]
pub ghost struct ConsoleView {
    pub input: Seq<u8>,
    pub output: Seq<u8>,
}

/// A console over in-memory byte streams. `input` holds the whole input
/// stream; `pos` counts the bytes already consumed.
pub struct Console {
    pub input: Vec<u8>,
    pub pos: usize,
    pub output: Vec<u8>,
}

impl View for Console {
    type V = ConsoleView;

    open spec fn view(&self) -> ConsoleView {
        ConsoleView { input: self.input@.skip(self.pos as int), output: self.output@ }
    }
}

impl Console {
    /// Well-formed console: the read position never passes the end of input.
    pub open spec fn wf(self) -> bool {
        self.pos <= self.input.len()
    }

    /// A console with the given input stream and an empty output stream.
    pub fn new(input: Vec<u8>) -> (c: Console)
        ensures
            c.wf(),
            c@.input == input@,
            c@.output == Seq::<u8>::empty(),
    {
        let c = Console { input, pos: 0, output: Vec::new() };
        proof {
            assert(c@.input =~= c.input@);
            assert(c@.output =~= Seq::<u8>::empty());
        }
        c
    }

    /// One blocking read: consumes and returns the next input byte, or
    /// reports that the input stream is exhausted.
    pub fn read_byte(&mut self) -> (r: Option<u8>)
        requires
            old(self).wf(),
        ensures
            final(self).wf(),
            old(self)@.input.len() == 0 ==> r is None && final(self)@ == old(self)@,
            old(self)@.input.len() > 0 ==> r == Some(old(self)@.input[0])
                && final(self)@.input == old(self)@.input.drop_first()
                && final(self)@.output == old(self)@.output,
    {
        if self.pos < self.input.len() {
            let b = self.input[self.pos];
            self.pos = self.pos + 1;
            proof {
                assert(self@.input =~= old(self)@.input.drop_first());
            }
            Some(b)
        } else {
            proof {
                assert(self@ =~= old(self)@);
            }
            None
        }
    }

    /// Writes one byte to the output stream.
    pub fn write_byte(&mut self, b: u8)
        requires
            old(self).wf(),
        ensures
            final(self).wf(),
            final(self)@.input == old(self)@.input,
            final(self)@.output == old(self)@.output.push(b),
    {
        self.output.push(b);
    }

    /// How many bytes have been written so far.
    pub fn output_len(&self) -> (n: usize)
        ensures
            n == self@.output.len(),
    {
        self.output.len()
    }

    /// The `i`-th byte written.
    pub fn output_byte(&self, i: usize) -> (b: u8)
        requires
            i < self@.output.len(),
        ensures
            b == self@.output[i as int],
    {
        self.output[i]
    }
}

} // verus!
