//! The impulse response of a convolver and its partition layout.

use crate::error::{AudioError, VortexError};
use crate::lockfree::{is_power_of_two, power_of_two};
use vstd::prelude::*;
use vstd::string::StringExecFns;

verus! {

/// Partitions of `partition_size` samples that cover `ir_len` samples.
pub open spec fn partitions_for(ir_len: nat, partition_size: nat) -> nat {
    if partition_size == 0 {
        0
    } else {
        ((ir_len + partition_size - 1) / (partition_size as int)) as nat
    }
}

/// An impulse response cut into partitions of a power-of-two size. The
/// arithmetic of the convolution belongs to the sample type and is done
/// where that type is known.
pub struct Convolver<T> {
    ir: Vec<T>,
    partition_size: usize,
    num_partitions: usize,
}

impl<T> View for Convolver<T> {
    type V = Seq<T>;

    /// The impulse response.
    closed spec fn view(&self) -> Seq<T> {
        self.ir@
    }
}

impl<T> Convolver<T> {
    pub closed spec fn spec_partition_size(&self) -> usize {
        self.partition_size
    }

    pub closed spec fn spec_num_partitions(&self) -> usize {
        self.num_partitions
    }

    /// The impulse response is not empty, the partition size is a power of
    /// two, and the partitions just cover the impulse response.
    pub open spec fn wf(&self) -> bool {
        &&& self@.len() > 0
        &&& is_power_of_two(self.spec_partition_size() as int)
        &&& self.spec_num_partitions() == partitions_for(
            self@.len(),
            self.spec_partition_size() as nat,
        )
    }

    /// Partitions of `partition_size` that cover `len` samples.
    fn count_partitions(len: usize, partition_size: usize) -> (n: usize)
        requires
            partition_size > 0,
        ensures
            n == partitions_for(len as nat, partition_size as nat),
    {
        let wide: u128 = (len as u128 + partition_size as u128 - 1) / (partition_size as u128);
        assert(wide <= len) by (nonlinear_arith)
            requires
                wide == (len + partition_size - 1) / (partition_size as int),
                partition_size >= 1,
                len >= 0,
        ;
        wide as usize
    }

    /// A convolver for the impulse response `ir`. An empty impulse response
    /// is refused, and so is a partition size that is no power of two.
    pub fn new(ir: Vec<T>, partition_size: usize) -> (r: Result<Self, VortexError>)
        ensures
            ir@.len() == 0 ==> (r matches Err(
                VortexError::Audio(AudioError::InvalidConfig { reason }),
            ) && reason@ == "Impulse response cannot be empty"@),
            ir@.len() > 0 && !is_power_of_two(partition_size as int) ==> (r matches Err(
                VortexError::Audio(AudioError::InvalidConfig { reason }),
            ) && reason@ == "Partition size must be power of 2"@),
            ir@.len() > 0 && is_power_of_two(partition_size as int) ==> (r matches Ok(c) && c.wf()
                && c@ == ir@ && c.spec_partition_size() == partition_size),
    {
        if ir.len() == 0 {
            return Err(
                VortexError::Audio(
                    AudioError::InvalidConfig {
                        reason: String::from_str("Impulse response cannot be empty"),
                    },
                ),
            );
        }
        if !power_of_two(partition_size) {
            return Err(
                VortexError::Audio(
                    AudioError::InvalidConfig {
                        reason: String::from_str("Partition size must be power of 2"),
                    },
                ),
            );
        }
        proof {
            assert(partition_size > 0) by {
                let e = choose|e: nat| partition_size == vstd::arithmetic::power2::pow2(e);
                vstd::arithmetic::power2::lemma_pow2_pos(e);
            }
        }
        let num_partitions = Self::count_partitions(ir.len(), partition_size);
        Ok(Convolver { ir, partition_size, num_partitions })
    }

    /// Replaces the impulse response, if the new one is not empty; an empty
    /// one is refused and the convolver stays as it is.
    pub fn set_ir(&mut self, ir: Vec<T>) -> (r: Result<(), VortexError>)
        requires
            old(self).wf(),
        ensures
            final(self).wf(),
            final(self).spec_partition_size() == old(self).spec_partition_size(),
            ir@.len() == 0 ==> final(self)@ == old(self)@ && (r matches Err(
                VortexError::Audio(AudioError::InvalidConfig { reason }),
            ) && reason@ == "Impulse response cannot be empty"@),
            ir@.len() > 0 ==> r is Ok && final(self)@ == ir@,
    {
        if ir.len() == 0 {
            return Err(
                VortexError::Audio(
                    AudioError::InvalidConfig {
                        reason: String::from_str("Impulse response cannot be empty"),
                    },
                ),
            );
        }
        proof {
            assert(self.partition_size > 0) by {
                let e = choose|e: nat| self.partition_size == vstd::arithmetic::power2::pow2(e);
                vstd::arithmetic::power2::lemma_pow2_pos(e);
            }
        }
        self.num_partitions = Self::count_partitions(ir.len(), self.partition_size);
        self.ir = ir;
        Ok(())
    }

    /// The impulse response.
    pub fn ir(&self) -> (ir: &[T])
        ensures
            ir@ == self@,
    {
        self.ir.as_slice()
    }

    /// Length of the impulse response in samples.
    pub fn ir_length(&self) -> (n: usize)
        ensures
            n == self@.len(),
    {
        self.ir.len()
    }

    pub fn partition_size(&self) -> (n: usize)
        ensures
            n == self.spec_partition_size(),
    {
        self.partition_size
    }

    pub fn num_partitions(&self) -> (n: usize)
        ensures
            n == self.spec_num_partitions(),
    {
        self.num_partitions
    }
}

} // verus!
