//! The capacity guard of the multi-stage resampler `msresamp`.
//!
//! The native resampler writes into a destination buffer whose length it is
//! never told. `MultiStageResampler` decides, before the native call is made,
//! whether the destination is large enough, and hands out an `Execution` only
//! if it is: the call is made on the buffers of that `Execution` and on no
//! others.

use vstd::prelude::*;
use std::marker::PhantomData;
use crate::Error;
use crate::rate::{
    checked_resampled_length,
    is_positive_real,
    lemma_resampled_length_is_ceiling,
    denominator,
    numerator,
    resampled_length,
    MAX_LENGTH,
};

verus! {

/// `ceil(length * rate) + 1`: the number of samples for which a destination
/// must have room when `length` samples are resampled at the rate `bits`.
pub open spec fn capacity_for(bits: u32, length: nat) -> nat {
    resampled_length(bits, length) + 1
}

/// Whether both an input length and the capacity it calls for can be
/// represented by the native layer.
pub open spec fn representable(bits: u32, length: nat) -> bool {
    length <= MAX_LENGTH && capacity_for(bits, length) <= MAX_LENGTH
}

/// The needed capacity is the ceiling of `length * rate`, plus one: with the
/// rate written as `numerator / denominator`, `capacity - 1` is the least
/// integer whose product with the denominator reaches `length * numerator`.
pub proof fn lemma_capacity_is_ceiling_plus_one(bits: u32, length: nat)
    requires
        is_positive_real(bits),
    ensures
        (capacity_for(bits, length) - 2) * denominator(bits) < length * numerator(bits),
        length * numerator(bits) <= (capacity_for(bits, length) - 1) * denominator(bits),
{
    lemma_resampled_length_is_ceiling(bits, length);
}

/// A resampling pass that has been found safe to run: the input and the
/// destination that it was checked on, and the capacity that was computed.
pub struct Execution<'a, S> {
    /// The samples to resample.
    pub input: &'a [S],
    /// The destination, with room for at least `capacity` samples.
    pub output: &'a mut [S],
    /// The length of `input`, in the native length type.
    pub input_length: u32,
    /// The capacity that the pass needs.
    pub capacity: usize,
}

impl<'a, S> Execution<'a, S> {
    /// Accepts the number of samples that the native call reports to have
    /// written. It never exceeds the needed capacity.
    pub fn finish(self, actual_written: u32) -> (count: u32)
        requires
            actual_written <= self.capacity,
        ensures
            count == actual_written,
            count <= self.capacity,
    {
        actual_written
    }
}

/// The guard of one native `msresamp` instance with samples of type `T`.
///
/// It holds the parameters that the instance was created with, both as the
/// bit patterns of single-precision numbers. They never change.
pub struct MultiStageResampler<T> {
    rate: u32,
    suppression: u32,
    sample: PhantomData<T>,
}

impl<T> MultiStageResampler<T> {
    #[verifier::type_invariant]
    spec fn well_formed(&self) -> bool {
        is_positive_real(self.rate)
    }

    /// The rate of the resampler, as a bit pattern.
    pub closed spec fn rate_bits(&self) -> u32 {
        self.rate
    }

    /// The stop-band suppression in dB, as a bit pattern.
    pub closed spec fn suppression_bits(&self) -> u32 {
        self.suppression
    }

    /// The capacity that an input of `length` samples needs.
    pub open spec fn capacity(&self, length: nat) -> nat {
        capacity_for(self.rate_bits(), length)
    }

    /// A guard for a resampler of the given rate and stop-band suppression.
    /// The rate must be a positive real number.
    pub fn new(rate: u32, suppression: u32) -> (resampler: Self)
        requires
            is_positive_real(rate),
        ensures
            resampler.rate_bits() == rate,
            resampler.suppression_bits() == suppression,
    {
        MultiStageResampler { rate, suppression, sample: PhantomData }
    }

    /// The rate that the resampler was created with.
    pub fn rate(&self) -> (bits: u32)
        ensures
            bits == self.rate_bits(),
            is_positive_real(bits),
    {
        proof {
            use_type_invariant(self);
        }
        self.rate
    }

    /// The stop-band suppression that the resampler was created with.
    pub fn suppression(&self) -> (bits: u32)
        ensures
            bits == self.suppression_bits(),
    {
        self.suppression
    }

    /// The needed capacity of a destination for `input_length` samples,
    /// `ceil(input_length * rate) + 1`, or `None` if the input length or that
    /// capacity cannot be represented by the native layer.
    pub fn checked_needed_capacity(&self, input_length: usize) -> (r: Option<usize>)
        ensures
            r is Some <==> representable(self.rate_bits(), input_length as nat),
            r matches Some(c) ==> c == self.capacity(input_length as nat),
    {
        proof {
            use_type_invariant(self);
        }
        if input_length as u64 > MAX_LENGTH {
            return None;
        }
        match checked_resampled_length(self.rate, input_length as u32) {
            Some(length) => {
                if length as u64 >= MAX_LENGTH {
                    None
                } else {
                    Some((length + 1) as usize)
                }
            },
            None => None,
        }
    }

    /// The needed capacity of a destination for `input_length` samples:
    /// `ceil(input_length * rate) + 1`.
    pub fn needed_capacity(&self, input_length: usize) -> (c: usize)
        requires
            representable(self.rate_bits(), input_length as nat),
        ensures
            c == self.capacity(input_length as nat),
    {
        self.checked_needed_capacity(input_length).unwrap()
    }

    /// Decides whether one resampling pass from `data` into `dest` may run.
    ///
    /// If `dest` is shorter than the needed capacity, the pass is refused
    /// with the needed and the found capacity, and no `Execution` exists.
    /// Otherwise the `Execution` holds exactly these buffers.
    pub fn filter<'a>(&self, data: &'a [T], dest: &'a mut [T]) -> (r: Result<
        Execution<'a, T>,
        Error,
    >)
        requires
            representable(self.rate_bits(), data@.len()),
        ensures
            old(dest)@.len() < self.capacity(data@.len()) ==> r == Err::<Execution<'a, T>, Error>(
                Error::CapacityError(
                    self.capacity(data@.len()) as usize,
                    old(dest)@.len() as usize,
                ),
            ),
            old(dest)@.len() >= self.capacity(data@.len()) ==> r is Ok,
            r is Err ==> final(dest)@ == old(dest)@,
            r matches Ok(pass) ==> pass.input@ == data@ && pass.input_length == data@.len(),
            r matches Ok(pass) ==> pass.output@ == old(dest)@,
            r matches Ok(pass) ==> final(pass.output)@ == final(dest)@,
            r matches Ok(pass) ==> pass.capacity == self.capacity(data@.len()),
    {
        let needed_capacity = self.needed_capacity(data.len());
        if dest.len() < needed_capacity {
            return Err(Error::CapacityError(needed_capacity, dest.len()));
        }
        Ok(
            Execution {
                input: data,
                output: dest,
                input_length: data.len() as u32,
                capacity: needed_capacity,
            },
        )
    }
}

} // verus!
