//! The reader that finds a frame in a stream of bytes.

use crate::{MN1, MN2};
use nb::Error as NbError;
use vstd::prelude::*;

verus! {

/// `nb::Error`, the way a non-blocking read reports that it has nothing to give: either the
/// transport would block or it failed. The reader never looks inside.
#[verifier::external_type_specification]
#[verifier::external_body]
#[verifier::reject_recursive_types(E)]
pub struct ExNbError<E>(NbError<E>);

/// How far a read has come.
#[derive(PartialEq, Debug)]
pub enum ReadStatus {
    InProgress,
    Finished,
    Failed,
}

/// The phase a reader is in. `Finished` and `Failed` are final.
pub enum State {
    WaitingForFirstMagicNumber,
    WaitingForSecondMagicNumber,
    Reading,
    Finished,
    Failed,
}

/// Number of interruptions a reader made by `ReadStateMachine::new` puts up with.
pub const DEFAULT_RETRIES: usize = 100;

/// What one poll of the transport means to the reader: the byte that arrived, or `None` when
/// the transport had nothing ready or failed.
pub open spec fn outcome_of<E>(read_result: nb::Result<u8, E>) -> Option<u8> {
    match read_result {
        Ok(byte) => Some(byte),
        Err(_) => None,
    }
}

/// The mathematical content of a reader.
pub struct ReaderModel {
    /// The frame under construction; its length is the length of the frame wanted.
    pub buffer: Seq<u8>,
    /// Where the next byte of the frame goes.
    pub index: nat,
    pub state: State,
    /// Interruptions that the reader will still put up with.
    pub retries: nat,
}

impl ReaderModel {
    /// A reader that has seen nothing yet.
    pub open spec fn fresh(buffer: Seq<u8>, retries: nat) -> ReaderModel {
        ReaderModel { buffer, index: 0, state: State::WaitingForFirstMagicNumber, retries }
    }

    pub open spec fn status(self) -> ReadStatus {
        match self.state {
            State::Finished => ReadStatus::Finished,
            State::Failed => ReadStatus::Failed,
            _ => ReadStatus::InProgress,
        }
    }

    /// Whether the reader has stopped for good.
    pub open spec fn is_final(self) -> bool {
        self.state is Finished || self.state is Failed
    }

    /// An interruption: it costs one retry, and the reader fails when none is left.
    pub open spec fn retry(self) -> ReaderModel {
        if self.retries == 0 {
            ReaderModel { state: State::Failed, ..self }
        } else {
            ReaderModel { retries: (self.retries - 1) as nat, ..self }
        }
    }

    /// The header is complete: it is stored at the start of the frame and collecting begins
    /// right after it.
    pub open spec fn magic_number_read(self) -> ReaderModel {
        ReaderModel {
            buffer: self.buffer.update(0, MN1).update(1, MN2),
            index: 2,
            state: State::Reading,
            ..self
        }
    }

    /// One more byte of the frame; the byte that fills the frame finishes the read.
    pub open spec fn byte_read(self, byte: u8) -> ReaderModel {
        ReaderModel {
            buffer: self.buffer.update(self.index as int, byte),
            index: self.index + 1,
            state: if self.index + 1 == self.buffer.len() {
                State::Finished
            } else {
                self.state
            },
            ..self
        }
    }

    /// The reader after one poll of the transport.
    pub open spec fn step(self, outcome: Option<u8>) -> ReaderModel {
        match self.state {
            State::WaitingForFirstMagicNumber => match outcome {
                Some(byte) => if byte == MN1 {
                    ReaderModel { state: State::WaitingForSecondMagicNumber, ..self }
                } else {
                    self.retry()
                },
                None => self.retry(),
            },
            State::WaitingForSecondMagicNumber => match outcome {
                Some(byte) => if byte == MN2 {
                    self.magic_number_read()
                } else {
                    ReaderModel { state: State::WaitingForFirstMagicNumber, ..self }
                },
                None => self.retry(),
            },
            State::Reading => match outcome {
                Some(byte) => self.byte_read(byte),
                None => self.retry(),
            },
            State::Finished => self,
            State::Failed => self,
        }
    }

    /// Whether the reader has room in its buffer for what `outcome` makes it store.
    pub open spec fn accepts(self, outcome: Option<u8>) -> bool {
        match self.state {
            State::WaitingForSecondMagicNumber => outcome == Some(MN2) ==> self.buffer.len() >= 2,
            State::Reading => outcome is Some ==> self.index < self.buffer.len(),
            _ => true,
        }
    }

    /// What holds of every reader that started out fresh on a frame longer than the header:
    /// while it collects, the header stands at the start of the frame and the cursor lies
    /// behind it and inside the frame; once it has finished, the frame is full.
    pub open spec fn wf(self) -> bool {
        &&& self.buffer.len() >= 3
        &&& self.state is Reading ==> 2 <= self.index < self.buffer.len()
        &&& self.state is Finished ==> self.index == self.buffer.len()
        &&& self.state is Reading || self.state is Finished ==> self.buffer[0] == MN1
            && self.buffer[1] == MN2
    }

    /// The reader after a series of polls, the first of `outcomes` first.
    pub open spec fn run(self, outcomes: Seq<Option<u8>>) -> ReaderModel
        decreases outcomes.len(),
    {
        if outcomes.len() == 0 {
            self
        } else {
            self.step(outcomes[0]).run(outcomes.drop_first())
        }
    }

    /// Whether `outcome` interrupts the reader, that is, costs it a retry: anything but the
    /// first header byte while it waits for that byte, and a poll that brings no byte while
    /// it waits for the second header byte or collects. Nothing interrupts a reader that has
    /// stopped.
    pub open spec fn interrupted_by(self, outcome: Option<u8>) -> bool {
        match self.state {
            State::WaitingForFirstMagicNumber => outcome != Some(MN1),
            State::WaitingForSecondMagicNumber => outcome is None,
            State::Reading => outcome is None,
            State::Finished => false,
            State::Failed => false,
        }
    }

    /// How many of `outcomes` interrupt the reader as it takes them one after the other.
    pub open spec fn interruptions(self, outcomes: Seq<Option<u8>>) -> nat
        decreases outcomes.len(),
    {
        if outcomes.len() == 0 {
            0
        } else {
            let now: nat = if self.interrupted_by(outcomes[0]) {
                1
            } else {
                0
            };
            now + self.step(outcomes[0]).interruptions(outcomes.drop_first())
        }
    }
}

/// State machine representing ongoing read from device
/// * Waits for magic numbers
/// * Allows for breaks in transmission
/// * Fails after arbitrary number of read retries
pub struct ReadStateMachine<'a> {
    pub buffer: &'a mut [u8],
    pub index: usize,
    pub state: State,
    pub retries: usize,
}

impl<'a> View for ReadStateMachine<'a> {
    type V = ReaderModel;

    open spec fn view(&self) -> ReaderModel {
        ReaderModel {
            buffer: self.buffer@,
            index: self.index as nat,
            state: self.state,
            retries: self.retries as nat,
        }
    }
}

impl<'a> ReadStateMachine<'a> {
    /// A reader that will fill `buffer` with one frame as long as `buffer`, and that puts up
    /// with `DEFAULT_RETRIES` interruptions on the way.
    pub fn new(buffer: &'a mut [u8]) -> (fsm: Self)
        ensures
            fsm@ == ReaderModel::fresh(old(buffer)@, DEFAULT_RETRIES as nat),
            final(fsm.buffer)@ == final(buffer)@,
    {
        Self { buffer, index: 0, state: State::WaitingForFirstMagicNumber, retries: DEFAULT_RETRIES }
    }

    fn retry(&mut self)
        ensures
            final(self)@ == old(self)@.retry(),
            final(final(self).buffer)@ == final(old(self).buffer)@,
    {
        if self.retries == 0 {
            self.state = State::Failed;
        } else {
            self.retries -= 1;
        }
    }

    fn magic_number_read(&mut self)
        requires
            old(self).buffer@.len() >= 2,
        ensures
            final(self)@ == old(self)@.magic_number_read(),
            final(final(self).buffer)@ == final(old(self).buffer)@,
    {
        self.index = 2;
        self.buffer[0] = MN1;
        self.buffer[1] = MN2;
        self.state = State::Reading;
    }

    fn byte_read(&mut self, byte: u8)
        requires
            old(self).index < old(self).buffer@.len(),
        ensures
            final(self)@ == old(self)@.byte_read(byte),
            final(final(self).buffer)@ == final(old(self).buffer)@,
    {
        self.buffer[self.index] = byte;
        self.index += 1;
        if self.index == self.buffer.len() {
            self.state = State::Finished;
        }
    }

    /// Feeds the outcome of one poll of the transport to the reader and reports how far the
    /// read has come. The reader must have room for what the outcome makes it store, which a
    /// reader made by `new` on a buffer of three bytes or more always has; it goes on writing
    /// into the slice that it was made with.
    pub fn update<E>(&mut self, read_result: nb::Result<u8, E>) -> (status: ReadStatus)
        requires
            old(self)@.accepts(outcome_of(read_result)),
        ensures
            final(self)@ == old(self)@.step(outcome_of(read_result)),
            status == final(self)@.status(),
            final(final(self).buffer)@ == final(old(self).buffer)@,
    {
        match self.state {
            State::WaitingForFirstMagicNumber => match read_result {
                Ok(byte) if byte == MN1 => self.state = State::WaitingForSecondMagicNumber,
                _ => self.retry(),
            },
            State::WaitingForSecondMagicNumber => match read_result {
                Ok(byte) if byte == MN2 => self.magic_number_read(),
                Ok(_) => self.state = State::WaitingForFirstMagicNumber,
                _ => self.retry(),
            },
            State::Reading => match read_result {
                Ok(byte) => self.byte_read(byte),
                _ => self.retry(),
            },
            _ => {},
        };

        match self.state {
            State::WaitingForFirstMagicNumber
            | State::WaitingForSecondMagicNumber
            | State::Reading => ReadStatus::InProgress,
            State::Finished => ReadStatus::Finished,
            State::Failed => ReadStatus::Failed,
        }
    }
}

} // verus!
