//! Frames on their way out. The host must be able to stop even when its consumer stops
//! reading.

use crate::host::frames::MAX_LINE;
use vstd::prelude::*;
use vstd::string::*;
use vstd::utf8::encode_utf8;

verus! {

/// How long a frame may take, in milliseconds.
pub const FRAME_DEADLINE_MS: u64 = 1000;

/// Why a frame cannot be written.
#[derive(Debug, Clone, Copy, PartialEq, Eq, Structural)]
pub enum OutputError {
    TooLarge,
    WriteZero,
    TimedOut,
    Other,
}

impl OutputError {
    /// What the error says; of another failure the machine says more.
    pub fn message(&self) -> (r: &'static str)
        ensures
            r@ == match self {
                OutputError::TooLarge => "output frame too large"@,
                OutputError::WriteZero => "write zero"@,
                OutputError::TimedOut => "consumer stopped reading host output"@,
                OutputError::Other => "output failed"@,
            },
    {
        match self {
            OutputError::TooLarge => "output frame too large",
            OutputError::WriteZero => "write zero",
            OutputError::TimedOut => "consumer stopped reading host output",
            OutputError::Other => "output failed",
        }
    }
}

/// What came of writing some bytes.
#[derive(Debug, Clone, Copy, PartialEq, Eq, Structural)]
pub enum Written {
    Bytes(usize),
    Interrupted,
    WouldBlock,
    Failed,
}

/// What to do next.
#[derive(Debug, Clone, Copy, PartialEq, Eq, Structural)]
pub enum NextWrite {
    /// Write on.
    Write,
    /// Write on after a pause.
    Pause,
    /// The line is out.
    Done,
}

/// A line on its way out.
pub struct Line {
    bytes: Vec<u8>,
    written: usize,
}

impl Line {
    /// The bytes of the line.
    pub closed spec fn whole(&self) -> Seq<u8> {
        self.bytes@
    }

    /// How many of them are out.
    pub closed spec fn out(&self) -> nat {
        self.written as nat
    }

    #[verifier::type_invariant]
    spec fn kept(self) -> bool {
        self.written <= self.bytes.len()
    }

    /// The line of a frame, given its JSON text.
    pub fn new(text: &str) -> (r: Result<Line, OutputError>)
        ensures
            if encode_utf8(text@).len() > MAX_LINE {
                r == Err::<Line, OutputError>(OutputError::TooLarge)
            } else {
                r matches Ok(line) && line.whole() == encode_utf8(text@).push(10) && line.out() == 0
            },
    {
        let bytes = text.as_bytes();
        if bytes.len() > MAX_LINE {
            return Err(OutputError::TooLarge);
        }
        let mut line = vstd::slice::slice_to_vec(bytes);
        line.push(10);
        Ok(Line { bytes: line, written: 0 })
    }

    /// The bytes that are still to be written.
    pub fn remaining(&self) -> (r: &[u8])
        ensures
            self.out() <= self.whole().len(),
            r@ == self.whole().skip(self.out() as int),
    {
        proof {
            use_type_invariant(self);
        }
        let r = vstd::slice::slice_subrange(self.bytes.as_slice(), self.written, self.bytes.len());
        assert(r@ =~= self.bytes@.skip(self.written as int));
        r
    }

    /// What a step leads to.
    pub open spec fn step(out: nat, length: nat, written: Written, stopped: bool, late: bool) -> (
        nat,
        Result<NextWrite, OutputError>,
    ) {
        if out >= length {
            (out, Ok(NextWrite::Done))
        } else {
            match written {
                Written::Bytes(count) => if count == 0 {
                    (out, Err(OutputError::WriteZero))
                } else if out + count >= length {
                    (length, Ok(NextWrite::Done))
                } else {
                    (out + count as nat, Ok(NextWrite::Write))
                },
                Written::Interrupted => (out, Ok(NextWrite::Write)),
                Written::WouldBlock => if stopped || late {
                    (out, Err(OutputError::TimedOut))
                } else {
                    (out, Ok(NextWrite::Pause))
                },
                Written::Failed => (out, Err(OutputError::Other)),
            }
        }
    }

    /// The remaining bytes were offered, and this is what came of it. `late` tells whether
    /// the frame's time is over, `stopped` whether the host stops.
    pub fn advance(&mut self, written: Written, stopped: bool, late: bool) -> (r: Result<
        NextWrite,
        OutputError,
    >)
        ensures
            final(self).whole() == old(self).whole(),
            (final(self).out(), r) == Line::step(
                old(self).out(),
                old(self).whole().len(),
                written,
                stopped,
                late,
            ),
    {
        proof {
            use_type_invariant(&*self);
        }
        let left: usize = self.bytes.len() - self.written;
        if left == 0 {
            return Ok(NextWrite::Done);
        }
        match written {
            Written::Bytes(count) => {
                if count == 0 {
                    Err(OutputError::WriteZero)
                } else if count >= left {
                    self.written = self.written + left;
                    Ok(NextWrite::Done)
                } else {
                    self.written = self.written + count;
                    Ok(NextWrite::Write)
                }
            },
            Written::Interrupted => Ok(NextWrite::Write),
            Written::WouldBlock => {
                if stopped || late {
                    Err(OutputError::TimedOut)
                } else {
                    Ok(NextWrite::Pause)
                }
            },
            Written::Failed => Err(OutputError::Other),
        }
    }
}

/// A line is done exactly when all of its bytes are out, and no byte that is out is
/// written again.
pub proof fn lines_are_written_once(
    out: nat,
    length: nat,
    written: Written,
    stopped: bool,
    late: bool,
)
    requires
        out <= length,
    ensures
        ({
            let (after, next) = Line::step(out, length, written, stopped, late);
            &&& out <= after <= length
            &&& next == Ok::<NextWrite, OutputError>(NextWrite::Done) <==> after == length
            &&& next is Err ==> after == out
        }),
{
}

} // verus!
