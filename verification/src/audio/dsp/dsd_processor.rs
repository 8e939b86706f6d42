//! Decimation of a one-bit DSD stream.

use crate::error::{AudioError, VortexError};
use vstd::prelude::*;
use vstd::string::StringExecFns;

verus! {

/// DSD bit rates, as multiples of 44.1 kHz.
#[derive(Debug, Clone, Copy, PartialEq, Eq, Structural)]
pub enum DsdRate {
    Dsd64,
    Dsd128,
    Dsd256,
    Dsd512,
    Dsd1024,
}

impl DsdRate {
    /// Bits a second.
    pub open spec fn spec_sample_rate(&self) -> nat {
        match self {
            DsdRate::Dsd64 => 2822400,
            DsdRate::Dsd128 => 5644800,
            DsdRate::Dsd256 => 11289600,
            DsdRate::Dsd512 => 22579200,
            DsdRate::Dsd1024 => 45158400,
        }
    }

    pub fn sample_rate(&self) -> (rate: u32)
        ensures
            rate == self.spec_sample_rate(),
    {
        match self {
            DsdRate::Dsd64 => 2822400,
            DsdRate::Dsd128 => 5644800,
            DsdRate::Dsd256 => 11289600,
            DsdRate::Dsd512 => 22579200,
            DsdRate::Dsd1024 => 45158400,
        }
    }

    /// DSD bits that make one PCM sample at `target_rate`: the quotient of
    /// the two rates, rounded down.
    pub fn decimation_factor(&self, target_rate: u32) -> (factor: u32)
        requires
            target_rate > 0,
        ensures
            factor == self.spec_sample_rate() / (target_rate as nat),
    {
        self.sample_rate() / target_rate
    }
}

/// Bit `k` of the stream `input`, where each byte carries eight bits, the
/// lowest first: 1 or 0.
pub open spec fn dsd_bit(input: Seq<u8>, k: int) -> int {
    ((input[k / 8] >> ((k % 8) as u8)) & 1) as int
}

/// The sum of the `count` bits from bit `start` on, a one counted as +1 and a
/// zero as -1.
pub open spec fn window_sum(input: Seq<u8>, start: int, count: nat) -> int
    decreases count,
{
    if count == 0 {
        0
    } else {
        window_sum(input, start, (count - 1) as nat) + (if dsd_bit(input, start + count - 1)
            == 1 {
            1int
        } else {
            -1int
        })
    }
}

/// PCM samples that `bytes` bytes of DSD give at `factor` bits a sample, when
/// the output has room for `room`: as many whole windows as the stream holds,
/// and no more than there is room for.
pub open spec fn decimated_len(bytes: nat, factor: nat, room: nat) -> nat {
    if factor == 0 {
        0
    } else if (bytes * 8) / factor <= room {
        (bytes * 8) / factor
    } else {
        room
    }
}

/// Decimator from a one-bit DSD stream to PCM by block averaging.
///
/// A PCM sample is the mean of `decimation_factor` bits taken as +1 and -1.
/// The decimator hands out the sum of each window; the mean is that sum over
/// the factor.
pub struct DsdProcessor {
    dsd_rate: DsdRate,
    target_rate: u32,
    decimation_factor: u32,
}

impl DsdProcessor {
    pub closed spec fn spec_dsd_rate(&self) -> DsdRate {
        self.dsd_rate
    }

    pub closed spec fn spec_target_rate(&self) -> u32 {
        self.target_rate
    }

    pub closed spec fn spec_decimation_factor(&self) -> u32 {
        self.decimation_factor
    }

    /// The factor is the quotient of the two rates and is positive.
    pub open spec fn wf(&self) -> bool {
        &&& self.spec_target_rate() > 0
        &&& self.spec_decimation_factor() > 0
        &&& self.spec_decimation_factor() == self.spec_dsd_rate().spec_sample_rate() / (
        self.spec_target_rate() as nat)
    }

    /// A decimator from `dsd_rate` to `target_rate`. A target rate of 0 or
    /// above the DSD rate leaves no window to average and is refused.
    pub fn new(dsd_rate: DsdRate, target_rate: u32) -> (r: Result<Self, VortexError>)
        ensures
            0 < target_rate <= dsd_rate.spec_sample_rate() ==> (r matches Ok(p) && p.wf()
                && p.spec_dsd_rate() == dsd_rate && p.spec_target_rate() == target_rate),
            !(0 < target_rate <= dsd_rate.spec_sample_rate()) ==> (r matches Err(
                VortexError::Audio(AudioError::InvalidConfig { reason }),
            ) && reason@ == "Target rate must be > 0 and no more than the DSD rate"@),
    {
        if target_rate == 0 || target_rate > dsd_rate.sample_rate() {
            return Err(
                VortexError::Audio(
                    AudioError::InvalidConfig {
                        reason: String::from_str(
                            "Target rate must be > 0 and no more than the DSD rate",
                        ),
                    },
                ),
            );
        }
        let decimation_factor = dsd_rate.decimation_factor(target_rate);
        assert(decimation_factor > 0) by (nonlinear_arith)
            requires
                decimation_factor == dsd_rate.spec_sample_rate() / (target_rate as nat),
                0 < target_rate <= dsd_rate.spec_sample_rate(),
        ;
        Ok(DsdProcessor { dsd_rate, target_rate, decimation_factor })
    }

    pub fn decimation_factor(&self) -> (factor: u32)
        ensures
            factor == self.spec_decimation_factor(),
    {
        self.decimation_factor
    }

    /// Decimates `dsd_input` into `pcm_output` and returns the number of
    /// samples written. Sample `i` is the sum of the bits from `i * factor`
    /// up to `(i + 1) * factor`; the rest of `pcm_output` stays as it was.
    pub fn process(&self, dsd_input: &[u8], pcm_output: &mut [i32]) -> (r: Result<
        usize,
        VortexError,
    >)
        requires
            self.wf(),
        ensures
            r matches Ok(n) && n == decimated_len(
                dsd_input@.len(),
                self.spec_decimation_factor() as nat,
                old(pcm_output)@.len(),
            ) && final(pcm_output)@.len() == old(pcm_output)@.len() && (forall|i: int|
                0 <= i < n ==> #[trigger] final(pcm_output)@[i] == window_sum(
                    dsd_input@,
                    i * self.spec_decimation_factor(),
                    self.spec_decimation_factor() as nat,
                )) && (forall|i: int|
                n <= i < old(pcm_output)@.len() ==> final(pcm_output)@[i] == old(pcm_output)@[i]),
    {
        let factor = self.decimation_factor;
        let bits: u128 = (dsd_input.len() as u128) * 8;
        let windows: u128 = bits / (factor as u128);
        let samples_out: usize = if windows <= pcm_output.len() as u128 {
            windows as usize
        } else {
            pcm_output.len()
        };
        proof {
            assert(factor <= 45158400);
            assert(samples_out * factor <= bits) by (nonlinear_arith)
                requires
                    samples_out <= bits / (factor as u128),
                    factor > 0,
            ;
        }
        let mut i: usize = 0;
        while i < samples_out
            invariant
                i <= samples_out <= pcm_output@.len(),
                pcm_output@.len() == old(pcm_output)@.len(),
                0 < factor <= 45158400,
                factor == self.spec_decimation_factor(),
                bits == dsd_input@.len() * 8,
                samples_out * factor <= bits,
                forall|k: int|
                    0 <= k < i ==> #[trigger] pcm_output@[k] == window_sum(
                        dsd_input@,
                        k * factor,
                        factor as nat,
                    ),
                forall|k: int| i <= k < pcm_output@.len() ==> pcm_output@[k] == old(pcm_output)@[k],
            decreases samples_out - i,
        {
            proof {
                assert((i + 1) * factor <= samples_out * factor) by (nonlinear_arith)
                    requires
                        i + 1 <= samples_out,
                        factor > 0,
                ;
                assert((i + 1) * factor == i * factor + factor) by (nonlinear_arith);
            }
            let start: u128 = (i as u128) * (factor as u128);
            pcm_output[i] = Self::sum_window(dsd_input, start, factor);
            i += 1;
        }
        Ok(samples_out)
    }

    /// The sum of the window of `factor` bits that starts at bit `start`.
    fn sum_window(dsd_input: &[u8], start: u128, factor: u32) -> (sum: i32)
        requires
            start + factor <= dsd_input@.len() * 8,
            factor <= 0x7fff_ffff,
        ensures
            sum == window_sum(dsd_input@, start as int, factor as nat),
    {
        let len = dsd_input.len();
        let mut sum: i32 = 0;
        let mut j: u32 = 0;
        while j < factor
            invariant
                j <= factor <= 0x7fff_ffff,
                len == dsd_input@.len(),
                start + factor <= dsd_input@.len() * 8,
                sum == window_sum(dsd_input@, start as int, j as nat),
                -(j as int) <= sum <= j,
            decreases factor - j,
        {
            let k: u128 = start + j as u128;
            let index = (k / 8) as usize;
            let bit = (dsd_input[index] >> ((k % 8) as u8)) & 1;
            if bit == 1 {
                sum = sum + 1;
            } else {
                sum = sum - 1;
            }
            j += 1;
        }
        sum
    }

    /// Clears the state between streams. Block averaging keeps none.
    pub fn reset(&mut self)
        ensures
            *final(self) == *old(self),
    {
    }
}

} // verus!
