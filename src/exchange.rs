//! Bus transactions and the engine that carries out a plan of them.
//!
//! An operation on the drive is planned as a sequence of commands. The
//! transport performs one command at a time and reports back; the
//! [`Exchange`] decides what comes next: the following command, or the end
//! of the operation at the first failure. Nothing is retried and nothing that
//! was already written is rolled back.
use crate::types::DsyrsError;
use vstd::prelude::*;
use vstd::string::*;

verus! {

/// One request to the transport.
#[derive(Debug, Clone, PartialEq, Eq)]
pub enum Command {
    /// Select the bus address that the following transactions go to.
    SelectSlave(u8),
    /// Write one holding register: address, value.
    WriteRegister(u16, u16),
    /// Write a contiguous block of holding registers starting at an address.
    WriteRegisters(u16, Vec<u16>),
    /// Read a number of holding registers starting at an address.
    ReadRegisters(u16, u16),
}

/// What a [`Command`] asks of the bus.
pub enum BusOp {
    /// Select a bus address.
    Select(u8),
    /// Write one register: address, value.
    Write(u16, u16),
    /// Write consecutive registers from an address.
    WriteBlock(u16, Seq<u16>),
    /// Read a number of registers from an address.
    Read(u16, u16),
}

impl View for Command {
    type V = BusOp;

    open spec fn view(&self) -> BusOp {
        match self {
            Command::SelectSlave(s) => BusOp::Select(*s),
            Command::WriteRegister(a, v) => BusOp::Write(*a, *v),
            Command::WriteRegisters(a, vs) => BusOp::WriteBlock(*a, vs@),
            Command::ReadRegisters(a, n) => BusOp::Read(*a, *n),
        }
    }
}

/// The bus operations of a plan, in order.
pub open spec fn ops_of(plan: Seq<Command>) -> Seq<BusOp> {
    plan.map_values(|c: Command| c@)
}

/// The register blocks of a list of read replies.
pub open spec fn blocks_of(reads: Seq<Vec<u16>>) -> Seq<Seq<u16>> {
    reads.map_values(|r: Vec<u16>| r@)
}

/// Whether a bus operation is a read transaction.
pub open spec fn is_read(op: BusOp) -> bool {
    op is Read
}

/// Carries out a plan of commands, one reply at a time.
pub struct Exchange {
    plan: Vec<Command>,
    answered: usize,
    reads: Vec<Vec<u16>>,
    failure: Option<DsyrsError>,
}

impl Exchange {
    /// The bus operations of the plan.
    pub closed spec fn plan(&self) -> Seq<BusOp> {
        ops_of(self.plan@)
    }

    /// How many commands of the plan have had their reply.
    pub closed spec fn answered(&self) -> nat {
        self.answered as nat
    }

    /// The registers returned by the successful reads so far, in order.
    pub closed spec fn reads(&self) -> Seq<Seq<u16>> {
        blocks_of(self.reads@)
    }

    /// The failure that ended the exchange, if any.
    pub closed spec fn failure(&self) -> Option<DsyrsError> {
        self.failure
    }

    /// Whether a command is waiting to be carried out.
    pub open spec fn is_pending(&self) -> bool {
        self.failure() is None && self.answered() < self.plan().len()
    }

    /// Start carrying out `plan`.
    pub fn new(plan: Vec<Command>) -> (r: Self)
        ensures
            r.plan() == ops_of(plan@),
            r.answered() == 0,
            r.reads() == Seq::<Seq<u16>>::empty(),
            r.failure() is None,
    {
        let r = Exchange { plan, answered: 0, reads: Vec::new(), failure: None };
        assert(r.reads() =~= Seq::<Seq<u16>>::empty());
        r
    }

    /// The command to carry out next, if any: none once the plan is done or
    /// a command has failed.
    pub fn pending(&self) -> (r: Option<&Command>)
        ensures
            r is Some <==> self.is_pending(),
            r matches Some(c) ==> c@ == self.plan()[self.answered() as int],
    {
        if self.failure.is_none() && self.answered < self.plan.len() {
            Some(&self.plan[self.answered])
        } else {
            None
        }
    }

    /// Whether the exchange has ended, by completing its plan or failing.
    pub fn is_finished(&self) -> (r: bool)
        ensures
            r == !self.is_pending(),
    {
        self.failure.is_some() || self.answered >= self.plan.len()
    }

    /// Record the transport's reply to the pending command. For a write or a
    /// selection any `Ok` counts as acknowledged; a read must return exactly
    /// the number of registers asked for, or the exchange fails.
    pub fn complete(&mut self, reply: core::result::Result<Vec<u16>, DsyrsError>)
        requires
            old(self).is_pending(),
        ensures
            final(self).plan() == old(self).plan(),
            final(self).answered() == old(self).answered() + 1,
            ({
                let op = old(self).plan()[old(self).answered() as int];
                match reply {
                    Err(e) => {
                        &&& final(self).failure() == Some(e)
                        &&& final(self).reads() == old(self).reads()
                    },
                    Ok(data) => match op {
                        BusOp::Read(_, count) => if data@.len() == count {
                            &&& final(self).failure() is None
                            &&& final(self).reads() == old(self).reads().push(data@)
                        } else {
                            &&& final(self).failure() matches Some(DsyrsError::OperationFailed(_))
                            &&& final(self).reads() == old(self).reads()
                        },
                        _ => {
                            &&& final(self).failure() is None
                            &&& final(self).reads() == old(self).reads()
                        },
                    },
                }
            }),
    {
        assert(self.answered < self.plan.len());
        let expected: Option<usize> = match &self.plan[self.answered] {
            Command::ReadRegisters(_, count) => Some(*count as usize),
            _ => None,
        };
        self.answered = self.answered + 1;
        match reply {
            Err(e) => {
                self.failure = Some(e);
            },
            Ok(data) => match expected {
                Some(count) => {
                    if data.len() == count {
                        let ghost old_reads = self.reads@;
                        let ghost block = data@;
                        self.reads.push(data);
                        assert(blocks_of(self.reads@) =~= blocks_of(old_reads).push(block));
                    } else {
                        self.failure = Some(
                            DsyrsError::OperationFailed(
                                String::from_str("response holds an unexpected number of registers"),
                            ),
                        );
                    }
                },
                None => {},
            },
        }
    }

    /// The outcome of a finished exchange: the registers of every read of the
    /// plan, in order, or the failure that ended it.
    pub fn outcome(self) -> (r: core::result::Result<Vec<Vec<u16>>, DsyrsError>)
        requires
            !self.is_pending(),
        ensures
            self.failure() matches Some(e) ==> r == Err::<Vec<Vec<u16>>, DsyrsError>(e),
            self.failure() is None ==> {
                &&& r is Ok
                &&& blocks_of(r->Ok_0@) == self.reads()
                &&& self.answered() >= self.plan().len()
            },
    {
        match self.failure {
            Some(e) => Err(e),
            None => Ok(self.reads),
        }
    }
}

/// Failure ends an exchange: once a command has failed nothing more is
/// pending, so no later command of the plan reaches the bus, and what was
/// already carried out stays as it is.
pub proof fn lemma_failure_is_final(exchange: Exchange)
    requires
        exchange.failure() is Some,
    ensures
        !exchange.is_pending(),
{
}

} // verus!
