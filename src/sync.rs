use vstd::prelude::*;

use crate::message::HandShake;

verus! {

/// Why a synchronized transaction failed.
#[derive(Debug, Clone, Copy, PartialEq, Eq, Structural)]
pub enum SyncError {
    /// The peer answered out of turn, or the connection broke mid-transaction.
    BrokenPipe,
}

#[derive(Debug, Clone, Copy, PartialEq, Eq, Structural)]
pub enum WriteStage {
    /// `Begin` was sent; waiting for `Send`.
    AwaitSend,
    /// The payload was sent; waiting for `Acknowledge`.
    AwaitAck,
    Complete,
    Aborted,
}

/// What the writing side does next.
#[derive(Debug, Clone, Copy, PartialEq, Eq, Structural)]
pub enum WriteStep {
    /// Write the application payload.
    WritePayload,
    /// The payload was acknowledged: the transaction succeeded.
    Finish,
    /// Send `Abort`; the transaction failed.
    Abort(SyncError),
    /// The transaction is already over; nothing to do.
    Closed,
}

/// The writing side of one synchronized transaction: `Begin`, wait for
/// `Send`, write the payload, wait for `Acknowledge`.
pub struct WriteTransaction {
    stage: WriteStage,
}

impl WriteTransaction {
    pub closed spec fn spec_stage(&self) -> WriteStage {
        self.stage
    }

    /// Opens a transaction; the returned token, `Begin`, goes to the peer first.
    pub fn begin() -> (r: (WriteTransaction, HandShake))
        ensures
            r.0.spec_stage() == WriteStage::AwaitSend,
            r.1 == HandShake::Begin,
    {
        (WriteTransaction { stage: WriteStage::AwaitSend }, HandShake::Begin)
    }

    pub fn stage(&self) -> (r: WriteStage)
        ensures
            r == self.spec_stage(),
    {
        self.stage
    }

    /// Takes in the peer's token (`None` when it could not be read). Only
    /// `Send` after `Begin`, and then `Acknowledge` after the payload, move
    /// the transaction on; anything else aborts it with `BrokenPipe`.
    pub fn on_reply(&mut self, reply: Option<HandShake>) -> (r: WriteStep)
        ensures
            match old(self).spec_stage() {
                WriteStage::AwaitSend => if reply == Some(HandShake::Send) {
                    r == WriteStep::WritePayload && final(self).spec_stage() == WriteStage::AwaitAck
                } else {
                    r == WriteStep::Abort(SyncError::BrokenPipe) && final(self).spec_stage()
                        == WriteStage::Aborted
                },
                WriteStage::AwaitAck => if reply == Some(HandShake::Acknowledge) {
                    r == WriteStep::Finish && final(self).spec_stage() == WriteStage::Complete
                } else {
                    r == WriteStep::Abort(SyncError::BrokenPipe) && final(self).spec_stage()
                        == WriteStage::Aborted
                },
                _ => r == WriteStep::Closed && final(self).spec_stage() == old(self).spec_stage(),
            },
    {
        match self.stage {
            WriteStage::AwaitSend => match reply {
                Some(HandShake::Send) => {
                    self.stage = WriteStage::AwaitAck;
                    WriteStep::WritePayload
                },
                _ => {
                    self.stage = WriteStage::Aborted;
                    WriteStep::Abort(SyncError::BrokenPipe)
                },
            },
            WriteStage::AwaitAck => match reply {
                Some(HandShake::Acknowledge) => {
                    self.stage = WriteStage::Complete;
                    WriteStep::Finish
                },
                _ => {
                    self.stage = WriteStage::Aborted;
                    WriteStep::Abort(SyncError::BrokenPipe)
                },
            },
            _ => WriteStep::Closed,
        }
    }
}

#[derive(Debug, Clone, Copy, PartialEq, Eq, Structural)]
pub enum ReadStage {
    /// Waiting for the peer's `Begin`.
    AwaitBegin,
    /// `Send` was sent; waiting for the payload.
    AwaitPayload,
    Complete,
    Aborted,
}

/// What the reading side does after the opening token.
#[derive(Debug, Clone, Copy, PartialEq, Eq, Structural)]
pub enum BeginStep {
    /// Send `Send`, then read the payload.
    ReplySend,
    /// Send `Abort`; the transaction failed.
    Abort(SyncError),
    /// The transaction is past its opening; nothing to do.
    Closed,
}

/// The reading side of one synchronized transaction: wait for `Begin`,
/// answer `Send`, read the payload, answer `Acknowledge`.
pub struct ReadTransaction {
    stage: ReadStage,
}

impl ReadTransaction {
    pub closed spec fn spec_stage(&self) -> ReadStage {
        self.stage
    }

    pub fn new() -> (r: ReadTransaction)
        ensures
            r.spec_stage() == ReadStage::AwaitBegin,
    {
        ReadTransaction { stage: ReadStage::AwaitBegin }
    }

    pub fn stage(&self) -> (r: ReadStage)
        ensures
            r == self.spec_stage(),
    {
        self.stage
    }

    /// Takes in the first token of the transaction: `Begin` is answered with
    /// `Send`; anything else aborts with `BrokenPipe`.
    pub fn on_token(&mut self, token: Option<HandShake>) -> (r: BeginStep)
        ensures
            old(self).spec_stage() == ReadStage::AwaitBegin ==> if token == Some(HandShake::Begin) {
                r == BeginStep::ReplySend && final(self).spec_stage() == ReadStage::AwaitPayload
            } else {
                r == BeginStep::Abort(SyncError::BrokenPipe) && final(self).spec_stage()
                    == ReadStage::Aborted
            },
            old(self).spec_stage() != ReadStage::AwaitBegin ==> r == BeginStep::Closed && final(self).spec_stage() == old(self).spec_stage(),
    {
        if self.stage != ReadStage::AwaitBegin {
            return BeginStep::Closed;
        }
        match token {
            Some(HandShake::Begin) => {
                self.stage = ReadStage::AwaitPayload;
                BeginStep::ReplySend
            },
            _ => {
                self.stage = ReadStage::Aborted;
                BeginStep::Abort(SyncError::BrokenPipe)
            },
        }
    }

    /// Takes in the payload (`None` when no whole payload could be read).
    /// After `Send`, a whole payload is delivered, to be answered with
    /// `Acknowledge`; a missing one fails the transaction with `BrokenPipe`.
    /// Before `Send` nothing is ever delivered.
    pub fn on_payload(&mut self, payload: Option<Vec<u8>>) -> (r: Result<Vec<u8>, SyncError>)
        ensures
            old(self).spec_stage() == ReadStage::AwaitPayload ==> match payload {
                Some(p) => r == Ok::<Vec<u8>, SyncError>(p) && final(self).spec_stage()
                    == ReadStage::Complete,
                None => r == Err::<Vec<u8>, SyncError>(SyncError::BrokenPipe) && final(self).spec_stage() == ReadStage::Aborted,
            },
            old(self).spec_stage() != ReadStage::AwaitPayload ==> r == Err::<Vec<u8>, SyncError>(
                SyncError::BrokenPipe,
            ) && final(self).spec_stage() == ReadStage::Aborted,
    {
        if self.stage != ReadStage::AwaitPayload {
            self.stage = ReadStage::Aborted;
            return Err(SyncError::BrokenPipe);
        }
        match payload {
            Some(p) => {
                self.stage = ReadStage::Complete;
                Ok(p)
            },
            None => {
                self.stage = ReadStage::Aborted;
                Err(SyncError::BrokenPipe)
            },
        }
    }
}

} // verus!
