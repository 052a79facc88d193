use vstd::prelude::*;
use crate::error::{Error, KERN_SUCCESS};

verus! {

/// Where a write-then-read exchange stands.
#[derive(Debug, Clone, Copy, PartialEq, Eq, Structural)]
pub enum TxStage {
    /// Waiting for the status of the write.
    Writing,
    /// Waiting for the settle delay to pass.
    Sleeping,
    /// Waiting for the status of the read.
    Reading,
    /// The exchange is over.
    Done,
}

/// What the caller has to do next for an exchange.
#[derive(Debug, PartialEq, Eq)]
pub enum TxAction {
    /// Write `payload` to the service's I2C address at `data_address`.
    Write { data_address: u8, payload: Vec<u8> },
    /// Sleep for the response delay.
    Sleep,
    /// Read `len` bytes at `offset` into the output buffer.
    Read { offset: u32, len: usize },
    /// The exchange is over, with this outcome.
    Finished(Result<(), Error>),
}

/// One write-then-optional-read exchange with an I2C service.
pub struct Transaction {
    stage: TxStage,
    read_len: usize,
}

/// The DDC/CI sub-address that writes go to.
pub open spec fn ddc_ci_sub_address() -> u8 {
    0x51
}

/// Relies on ddc::SUB_ADDRESS_DDC_CI: the DDC/CI sub-address, 0x51.
#[verifier::external_body]
fn sub_address() -> (r: u8)
    ensures
        r == ddc_ci_sub_address(),
{
    ddc::SUB_ADDRESS_DDC_CI
}

/// What goes on the wire for a request: every byte but the leading address byte.
pub open spec fn wire_payload(request: Seq<u8>) -> Seq<u8> {
    request.drop_first()
}

/// The stage and action that follow the write's `status`, for an output
/// buffer of `read_len` bytes.
pub open spec fn after_write(read_len: usize, status: i32) -> (TxStage, TxAction) {
    if status != KERN_SUCCESS {
        (TxStage::Done, TxAction::Finished(Err(Error::Kernel(status))))
    } else if read_len == 0 {
        (TxStage::Done, TxAction::Finished(Ok(())))
    } else {
        (TxStage::Sleeping, TxAction::Sleep)
    }
}

/// The stage and action that follow the read's `status`.
pub open spec fn after_read(status: i32) -> (TxStage, TxAction) {
    if status != KERN_SUCCESS {
        (TxStage::Done, TxAction::Finished(Err(Error::Kernel(status))))
    } else {
        (TxStage::Done, TxAction::Finished(Ok(())))
    }
}

/// With an empty output buffer a successful write ends the exchange: no
/// sleep and no read are asked for.
pub proof fn lemma_write_only_exchange()
    ensures
        after_write(0, KERN_SUCCESS) == (TxStage::Done, TxAction::Finished(Ok(()))),
{
}

/// With an output buffer of `n > 0` bytes, a successful write is followed by
/// the sleep, and a successful read of `n` bytes at offset zero (the action
/// after the sleep) ends the exchange with `Ok`.
pub proof fn lemma_exchange_with_response(n: usize)
    requires
        n > 0,
    ensures
        after_write(n, KERN_SUCCESS) == (TxStage::Sleeping, TxAction::Sleep),
        after_read(KERN_SUCCESS) == (TxStage::Done, TxAction::Finished(Ok(()))),
{
}

/// A failed write ends the exchange with `Kernel` of its exact status,
/// before any sleep or read, whatever the output buffer's length.
pub proof fn lemma_failed_write_aborts(n: usize, status: i32)
    requires
        status != KERN_SUCCESS,
    ensures
        after_write(n, status) == (TxStage::Done, TxAction::Finished(Err(Error::Kernel(status)))),
{
}

impl Transaction {
    pub closed spec fn stage(&self) -> TxStage {
        self.stage
    }

    pub closed spec fn read_len(&self) -> usize {
        self.read_len
    }

    /// Starts an exchange for `request` (whose first byte is the I2C address)
    /// and an output buffer of `out_len` bytes: the first action is the write
    /// of the request without its address byte.
    pub fn start(request: &[u8], out_len: usize) -> (r: (Transaction, TxAction))
        requires
            request@.len() >= 1,
        ensures
            r.0.stage() == TxStage::Writing,
            r.0.read_len() == out_len,
            r.1 matches TxAction::Write { data_address, payload }
                && data_address == ddc_ci_sub_address()
                && payload@ == wire_payload(request@),
    {
        let mut payload: Vec<u8> = Vec::new();
        let mut i: usize = 1;
        while i < request.len()
            invariant
                1 <= i <= request@.len(),
                payload@ == request@.subrange(1, i as int),
            decreases request@.len() - i,
        {
            payload.push(request[i]);
            i = i + 1;
        }
        assert(payload@ =~= request@.drop_first());
        let data_address = sub_address();
        (Transaction { stage: TxStage::Writing, read_len: out_len }, TxAction::Write { data_address, payload })
    }

    /// Takes the status of the write. A failure ends the exchange with
    /// `Kernel(status)`; with an empty output buffer success ends it at once;
    /// otherwise the caller is told to sleep before the read.
    pub fn on_write(&mut self, status: i32) -> (r: TxAction)
        requires
            old(self).stage() == TxStage::Writing,
        ensures
            (final(self).stage(), r) == after_write(old(self).read_len(), status),
            final(self).read_len() == old(self).read_len(),
    {
        if status != KERN_SUCCESS {
            self.stage = TxStage::Done;
            TxAction::Finished(Err(Error::Kernel(status)))
        } else if self.read_len == 0 {
            self.stage = TxStage::Done;
            TxAction::Finished(Ok(()))
        } else {
            self.stage = TxStage::Sleeping;
            TxAction::Sleep
        }
    }

    /// Takes the end of the settle delay: the caller is told to read as many
    /// bytes as the output buffer holds, at offset zero.
    pub fn on_sleep(&mut self) -> (r: TxAction)
        requires
            old(self).stage() == TxStage::Sleeping,
        ensures
            final(self).stage() == TxStage::Reading,
            final(self).read_len() == old(self).read_len(),
            r == (TxAction::Read { offset: 0, len: old(self).read_len() }),
    {
        self.stage = TxStage::Reading;
        TxAction::Read { offset: 0, len: self.read_len }
    }

    /// Takes the status of the read: success ends the exchange with `Ok`,
    /// any other status with `Kernel(status)`.
    pub fn on_read(&mut self, status: i32) -> (r: TxAction)
        requires
            old(self).stage() == TxStage::Reading,
        ensures
            (final(self).stage(), r) == after_read(status),
            final(self).read_len() == old(self).read_len(),
    {
        self.stage = TxStage::Done;
        if status != KERN_SUCCESS {
            TxAction::Finished(Err(Error::Kernel(status)))
        } else {
            TxAction::Finished(Ok(()))
        }
    }

    /// The stage the exchange is at.
    pub fn current_stage(&self) -> (r: TxStage)
        ensures
            r == self.stage(),
    {
        self.stage
    }
}

} // verus!
