//! The bus transport that the driver talks through. The transport itself is
//! supplied by the user of this library; here stands what the driver asks of
//! it, and a record of what was asked.
use vstd::prelude::*;

verus! {

/// The address of a register: the identifier of its module, then its offset
/// inside the module.
pub type Reg = (u8, u8);

/// One request to the transport, with what the transport answered.
pub enum Transaction<E> {
    /// One byte was read from register `reg` of the chip at `addr`.
    ReadU8 { addr: u8, reg: Reg, byte: Result<u8, E> },
    /// A 32-bit word, most significant byte first on the wire, was read from
    /// register `reg` of the chip at `addr`.
    ReadU32 { addr: u8, reg: Reg, word: Result<u32, E> },
    /// The byte `value` was written to register `reg` of the chip at `addr`.
    WriteU8 { addr: u8, reg: Reg, value: u8, ack: Result<(), E> },
    /// The caller was blocked for `us` microseconds.
    DelayUs { us: u32 },
}

/// A record of transactions, oldest first.
pub type History<E> = Seq<Transaction<E>>;

/// The lengths of the pauses among `events`, oldest first.
pub open spec fn delays<E>(events: History<E>) -> Seq<u32>
    decreases events.len(),
{
    if events.len() == 0 {
        Seq::empty()
    } else {
        let earlier = delays(events.drop_last());
        match events.last() {
            Transaction::DelayUs { us } => earlier.push(us),
            _ => earlier,
        }
    }
}

/// How many register writes there are among `events`.
pub open spec fn writes<E>(events: History<E>) -> nat
    decreases events.len(),
{
    if events.len() == 0 {
        0
    } else {
        let earlier = writes(events.drop_last());
        match events.last() {
            Transaction::WriteU8 { .. } => earlier + 1,
            _ => earlier,
        }
    }
}

/// How many register reads there are among `events`.
pub open spec fn reads<E>(events: History<E>) -> nat
    decreases events.len(),
{
    if events.len() == 0 {
        0
    } else {
        let earlier = reads(events.drop_last());
        match events.last() {
            Transaction::ReadU8 { .. } | Transaction::ReadU32 { .. } => earlier + 1,
            _ => earlier,
        }
    }
}

/// An empty record holds no pause, no write and no read.
pub proof fn lemma_tally_of_nothing<E>()
    ensures
        delays(History::<E>::empty()) == Seq::<u32>::empty(),
        writes(History::<E>::empty()) == 0,
        reads(History::<E>::empty()) == 0,
{
}

/// What one more transaction adds to the pauses, the writes and the reads of
/// a record.
pub proof fn lemma_tally_of_push<E>(events: History<E>, next: Transaction<E>)
    ensures
        delays(events.push(next)) == match next {
            Transaction::DelayUs { us } => delays(events).push(us),
            _ => delays(events),
        },
        writes(events.push(next)) == match next {
            Transaction::WriteU8 { .. } => writes(events) + 1,
            _ => writes(events),
        },
        reads(events.push(next)) == match next {
            Transaction::ReadU8 { .. } | Transaction::ReadU32 { .. } => reads(events) + 1,
            _ => reads(events),
        },
{
    assert(events.push(next).drop_last() =~= events);
}

/// A bus transport: addressed register reads and writes, and a blocking
/// delay. This library calls a transport and never implements one.
///
/// Every call is one transaction, and `history` is the record of them. The
/// record is a specification function: it is there for contracts to speak
/// of, and is never run. The contracts below say nothing of what a
/// transport answers. They ask one thing of an implementation: that each
/// call adds exactly its own transaction to the record, with the answer that
/// the call returns, and leaves the rest of the record as it was. What is
/// proved of a driver that uses a transport holds for the implementations
/// that keep to this.
pub trait Driver: Sized {
    /// The error of the underlying bus.
    type I2cError;

    /// All transactions so far, oldest first.
    spec fn history(&self) -> History<Self::I2cError>;

    /// Reads one byte from register `reg` of the chip at `addr`.
    fn read_u8(&mut self, addr: u8, reg: Reg) -> (byte: Result<u8, Self::I2cError>)
        ensures
            final(self).history() == old(self).history().push(
                Transaction::ReadU8 { addr, reg, byte },
            ),
    ;

    /// Reads a 32-bit word from register `reg` of the chip at `addr`.
    fn read_u32(&mut self, addr: u8, reg: Reg) -> (word: Result<u32, Self::I2cError>)
        ensures
            final(self).history() == old(self).history().push(
                Transaction::ReadU32 { addr, reg, word },
            ),
    ;

    /// Writes `value` to register `reg` of the chip at `addr`.
    fn write_u8(&mut self, addr: u8, reg: Reg, value: u8) -> (ack: Result<(), Self::I2cError>)
        ensures
            final(self).history() == old(self).history().push(
                Transaction::WriteU8 { addr, reg, value, ack },
            ),
    ;

    /// Blocks the caller for `us` microseconds.
    fn delay_us(&mut self, us: u32)
        ensures
            final(self).history() == old(self).history().push(Transaction::DelayUs { us }),
    ;
}

} // verus!
