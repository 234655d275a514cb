//! Analog-to-digital converters.

use vstd::prelude::*;
use crate::kernel::errorcode::ErrorCode;

verus! {

/// A converter that takes one sample, or one sample after another, on one
/// of its channels.
pub trait Adc {
    /// What names a channel of this converter.
    type Channel;

    /// What a request for samples on `channel`, answered with `r`, has
    /// made of the converter that was `before`: for a single sample, or,
    /// with a frequency, for that many samples per second until stopped.
    spec fn sample_asked(
        &self,
        before: &Self,
        channel: Self::Channel,
        frequency: Option<u32>,
        r: Result<(), ErrorCode>,
    ) -> bool;

    /// What a request to stop sampling, answered with `r`, has made of
    /// the converter that was `before`.
    spec fn stop_asked(&self, before: &Self, r: Result<(), ErrorCode>) -> bool;

    /// Requests a single sample on `channel`.
    fn sample(&mut self, channel: &Self::Channel) -> (r: Result<(), ErrorCode>)
        ensures
            final(self).sample_asked(old(self), *channel, None, r),
    ;

    /// Requests samples on `channel` at `frequency` per second, until
    /// stopped.
    fn sample_continuous(&mut self, channel: &Self::Channel, frequency: u32) -> (r: Result<
        (),
        ErrorCode,
    >)
        ensures
            final(self).sample_asked(old(self), *channel, Some(frequency), r),
    ;

    /// Cancels whatever sampling is under way.
    fn stop_sampling(&mut self) -> (r: Result<(), ErrorCode>)
        ensures
            final(self).stop_asked(old(self), r),
    ;

    /// The number of bits of a sample.
    spec fn resolution_bits(&self) -> usize;

    /// The reference voltage in millivolts, where it is known.
    spec fn voltage_reference_mv(&self) -> Option<usize>;

    /// The number of bits of a sample.
    fn get_resolution_bits(&self) -> (r: usize)
        ensures
            r == self.resolution_bits(),
    ;

    /// The reference voltage in millivolts, where it is known.
    fn get_voltage_reference_mv(&self) -> (r: Option<usize>)
        ensures
            r == self.voltage_reference_mv(),
    ;
}

/// A converter that fills buffers with samples at a high rate. It works on
/// one buffer while a second one waits its turn.
pub trait AdcHighSpeed: Adc {
    /// What a request to sample `channel` at `frequency` into `buffer1`,
    /// `length1` samples, and then into `buffer2`, `length2` samples,
    /// answered with `r`, has made of the converter that was `before`.
    spec fn highspeed_asked(
        &self,
        before: &Self,
        channel: Self::Channel,
        frequency: u32,
        buffer1: Vec<u16>,
        length1: usize,
        buffer2: Vec<u16>,
        length2: usize,
        r: Result<(), (ErrorCode, Vec<u16>, Vec<u16>)>,
    ) -> bool;

    /// What the offer of `buf` for the next `length` samples, answered
    /// with `r`, has made of the converter that was `before`.
    spec fn provide_asked(
        &self,
        before: &Self,
        buf: Vec<u16>,
        length: usize,
        r: Result<(), (ErrorCode, Vec<u16>)>,
    ) -> bool;

    /// Starts sampling `channel` into `buffer1`, `length1` samples, then
    /// into `buffer2`, `length2` samples. A refusal hands both buffers
    /// back.
    fn sample_highspeed(
        &mut self,
        channel: &Self::Channel,
        frequency: u32,
        buffer1: Vec<u16>,
        length1: usize,
        buffer2: Vec<u16>,
        length2: usize,
    ) -> (r: Result<(), (ErrorCode, Vec<u16>, Vec<u16>)>)
        ensures
            final(self).highspeed_asked(
                old(self),
                *channel,
                frequency,
                buffer1,
                length1,
                buffer2,
                length2,
                r,
            ),
            r matches Err((_, b1, b2)) ==> b1@.len() == buffer1@.len() && b2@.len()
                == buffer2@.len(),
    ;

    /// Provides the buffer to fill after the one being filled. A refusal
    /// hands the buffer back.
    fn provide_buffer(&mut self, buf: Vec<u16>, length: usize) -> (r: Result<
        (),
        (ErrorCode, Vec<u16>),
    >)
        ensures
            final(self).provide_asked(old(self), buf, length, r),
            r matches Err((_, b)) ==> b@.len() == buf@.len(),
    ;

    /// What a request for the buffers that it still holds, answered with
    /// `r`, has made of the converter that was `before`.
    spec fn retrieved(
        &self,
        before: &Self,
        r: Result<(Option<Vec<u16>>, Option<Vec<u16>>), ErrorCode>,
    ) -> bool;

    /// Hands back the buffers that the converter still holds after sampling
    /// was stopped.
    fn retrieve_buffers(&mut self) -> (r: Result<
        (Option<Vec<u16>>, Option<Vec<u16>>),
        ErrorCode,
    >)
        ensures
            final(self).retrieved(old(self), r),
    ;
}

/// One channel of a converter that is shared with others.
pub trait AdcChannel {
    /// What a request for a single sample, answered with `r`, has made of
    /// the channel that was `before`.
    spec fn sampled(&self, before: &Self, r: Result<(), ErrorCode>) -> bool;

    /// Requests a single sample.
    fn sample(&mut self) -> (r: Result<(), ErrorCode>)
        ensures
            final(self).sampled(old(self), r),
    ;

    /// The number of bits of a sample.
    spec fn resolution_bits(&self) -> usize;

    /// The reference voltage in millivolts, where it is known.
    spec fn voltage_reference_mv(&self) -> Option<usize>;

    /// The number of bits of a sample.
    fn get_resolution_bits(&self) -> (r: usize)
        ensures
            r == self.resolution_bits(),
    ;

    /// The reference voltage in millivolts, where it is known.
    fn get_voltage_reference_mv(&self) -> (r: Option<usize>)
        ensures
            r == self.voltage_reference_mv(),
    ;
}

} // verus!
