//! The read/write ratio of the workload and the choice of an operation.

use vstd::prelude::*;
use crate::outcome::ErrorKind;

verus! {

/// One operation of a worker against the shared session.
#[derive(Clone, Copy, Debug, PartialEq, Eq, Structural)]
pub enum Operation {
    Read,
    Write,
}

/// The weights of reads and writes, in percent. They add up to 100.
#[derive(Clone, Copy, Debug, PartialEq, Eq)]
pub struct WorkloadRatio {
    read_weight: u8,
    write_weight: u8,
}

impl WorkloadRatio {
    #[verifier::type_invariant]
    spec fn adds_up(self) -> bool {
        self.read_weight + self.write_weight == 100
    }

    /// The weight of reads, in percent.
    pub closed spec fn read(self) -> int {
        self.read_weight as int
    }

    /// The weight of writes, in percent.
    pub closed spec fn write(self) -> int {
        self.write_weight as int
    }

    /// The weights add up to 100.
    pub open spec fn wf(self) -> bool {
        0 <= self.read() && 0 <= self.write() && self.read() + self.write() == 100
    }

    /// The operation that a draw selects: a read for a draw below the read
    /// weight, a write otherwise. Of the draws 0 to 99 as many select a read
    /// as the read weight says.
    pub open spec fn selects(self, draw: u8) -> Operation {
        if draw < self.read() {
            Operation::Read
        } else {
            Operation::Write
        }
    }

    /// A ratio of the two weights; `Configuration` unless they add up to 100.
    pub fn new(read_weight: u8, write_weight: u8) -> (ratio: Result<WorkloadRatio, ErrorKind>)
        ensures
            ratio is Ok <==> read_weight + write_weight == 100,
            ratio is Err ==> ratio == Err::<WorkloadRatio, ErrorKind>(ErrorKind::Configuration),
            ratio matches Ok(r) ==> r.wf() && r.read() == read_weight && r.write()
                == write_weight,
    {
        let sum: u16 = read_weight as u16 + write_weight as u16;
        if sum == 100 {
            Ok(WorkloadRatio { read_weight, write_weight })
        } else {
            Err(ErrorKind::Configuration)
        }
    }

    /// The weight of reads, in percent.
    pub fn read_weight(&self) -> (weight: u8)
        ensures
            weight == self.read(),
            self.wf(),
    {
        proof {
            use_type_invariant(self);
        }
        self.read_weight
    }

    /// The weight of writes, in percent.
    pub fn write_weight(&self) -> (weight: u8)
        ensures
            weight == self.write(),
            self.wf(),
    {
        proof {
            use_type_invariant(self);
        }
        self.write_weight
    }

    /// The operation that a draw selects. The draw is meant to be uniform
    /// over 0 to 99.
    pub fn select(&self, draw: u8) -> (operation: Operation)
        ensures
            operation == self.selects(draw),
    {
        if draw < self.read_weight {
            Operation::Read
        } else {
            Operation::Write
        }
    }
}

/// The draws from 0 to 99 that select a read.
pub open spec fn read_draws(ratio: WorkloadRatio) -> Set<int> {
    Set::new(|d: int| 0 <= d < 100 && ratio.selects(d as u8) == Operation::Read)
}

/// Of the hundred draws 0 to 99, exactly as many select a read as the read
/// weight says, so a uniform draw reads with probability read weight / 100.
pub proof fn law_read_share(ratio: WorkloadRatio)
    requires
        ratio.wf(),
    ensures
        read_draws(ratio).finite(),
        read_draws(ratio).len() == ratio.read(),
{
    vstd::set_lib::lemma_int_range(0, ratio.read());
    assert(read_draws(ratio) =~= vstd::set_lib::set_int_range(0, ratio.read()));
}

} // verus!
