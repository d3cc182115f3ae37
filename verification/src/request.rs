//! What a client sends to have an attribute monitored.

use vstd::prelude::*;
use vstd::arithmetic::power2::{lemma_pow2_pos, pow2};
use crate::double::{
    exponent, exponent_of, fraction_of, is_infinite, is_nan, is_negative, is_zero,
    lemma_significand_is_positive, magnitude_is_within, magnitude_within, scale, significand,
    EXPONENT_OF_UNITS, SIGN_BIT, SPECIAL_EXPONENT,
};
use crate::filter::ExtensionObject;
use crate::instant::{Instant, NANOS_PER_MILLI};
use crate::node_id::{NodeId, NodeIdView};

verus! {

/// Whether an item samples, and whether what it queues is reported.
#[derive(Clone, Copy, Debug, PartialEq, Eq, Structural)]
pub enum MonitoringMode {
    Disabled,
    Sampling,
    Reporting,
}

/// What is observed: an attribute of a node, the attribute given by its number.
#[derive(Debug, PartialEq, Eq)]
pub struct ReadValueId {
    pub node_id: NodeId,
    pub attribute_id: u32,
}

/// What a [`ReadValueId`] denotes.
pub struct ReadValueIdView {
    pub node_id: NodeIdView,
    pub attribute_id: u32,
}

impl View for ReadValueId {
    type V = ReadValueIdView;

    open spec fn view(&self) -> ReadValueIdView {
        ReadValueIdView { node_id: self.node_id@, attribute_id: self.attribute_id }
    }
}

impl Clone for ReadValueId {
    fn clone(&self) -> (copy: Self)
        ensures
            copy@ == self@,
    {
        ReadValueId { node_id: self.node_id.clone(), attribute_id: self.attribute_id }
    }
}

/// How often an item looks at its attribute: a double-precision number of milliseconds, by
/// the band it falls in.
#[derive(Clone, Copy, Debug, PartialEq, Eq, Structural)]
pub enum SamplingInterval {
    /// Above zero: the item keeps its own time and looks again once the interval has gone
    /// by since it last looked. The number is held by its bits, of which the sign does not
    /// count here. All of its magnitude counts, what follows the point too; with an
    /// infinite interval the item never looks again.
    Periodic(u64),
    /// Zero: the item looks whenever it is asked to.
    Fastest,
    /// Below zero: the item looks when the publishing interval of its subscription is over.
    Subscription,
    /// Neither above, at nor below zero: the item looks until it has seen a first value.
    Unordered,
}

impl SamplingInterval {
    /// The interval whose number of milliseconds is the double-precision number `bits`.
    ///
    /// A number above zero gives a periodic interval of just that length, zero of either
    /// sign the fastest one, a number below zero that of the subscription, and what is not
    /// a number an unordered one.
    pub open spec fn of_bits(bits: u64) -> SamplingInterval {
        if is_nan(bits) {
            SamplingInterval::Unordered
        } else if is_zero(bits) {
            SamplingInterval::Fastest
        } else if is_negative(bits) {
            SamplingInterval::Subscription
        } else {
            SamplingInterval::Periodic(bits)
        }
    }

    /// Whether an item with this interval is to look at its attribute at `now`.
    ///
    /// `last` is when it last looked, `subscription_elapsed` whether the publishing interval
    /// of its subscription is just over, `unobserved` whether it has not seen a value yet.
    /// A periodic interval is due when the time from `last` to `now` is no shorter than
    /// the interval: the two are compared in nanoseconds, the interval's not rounded.
    pub open spec fn due(
        self,
        last: Instant,
        now: Instant,
        subscription_elapsed: bool,
        unobserved: bool,
    ) -> bool {
        match self {
            SamplingInterval::Periodic(bits) => magnitude_within(
                bits,
                NANOS_PER_MILLI as nat,
                now@ - last@,
            ),
            SamplingInterval::Fastest => true,
            SamplingInterval::Subscription => subscription_elapsed,
            SamplingInterval::Unordered => unobserved,
        }
    }

    /// An interval of zero, of either sign, is due whenever it is asked, whatever time has
    /// gone by.
    pub proof fn lemma_zero_is_always_due(
        bits: u64,
        last: Instant,
        now: Instant,
        subscription_elapsed: bool,
        unobserved: bool,
    )
        requires
            is_zero(bits),
        ensures
            SamplingInterval::of_bits(bits).due(last, now, subscription_elapsed, unobserved),
            is_zero(0),
            is_zero(SIGN_BIT),
    {
    }

    /// An interval below zero is due exactly when the subscription's own interval is over.
    pub proof fn lemma_negative_follows_subscription(
        bits: u64,
        last: Instant,
        now: Instant,
        subscription_elapsed: bool,
        unobserved: bool,
    )
        requires
            is_negative(bits),
            !is_zero(bits),
            !is_nan(bits),
        ensures
            SamplingInterval::of_bits(bits).due(last, now, subscription_elapsed, unobserved)
                == subscription_elapsed,
    {
    }

    /// A finite interval above zero is due exactly when no less than the interval has gone
    /// by; an infinite one never is.
    pub proof fn lemma_positive_waits(
        bits: u64,
        last: Instant,
        now: Instant,
        subscription_elapsed: bool,
        unobserved: bool,
    )
        requires
            !is_negative(bits),
            !is_zero(bits),
            !is_nan(bits),
        ensures
            is_infinite(bits) ==> !SamplingInterval::of_bits(bits).due(
                last,
                now,
                subscription_elapsed,
                unobserved,
            ),
            !is_infinite(bits) ==> SamplingInterval::of_bits(bits).due(
                last,
                now,
                subscription_elapsed,
                unobserved,
            ) == (significand(bits) * pow2(scale(bits)) * NANOS_PER_MILLI <= (now@ - last@)
                * pow2(EXPONENT_OF_UNITS as nat)),
    {
    }

    /// An interval above zero is never due before time has gone by, however short it is.
    pub proof fn lemma_positive_needs_time(
        bits: u64,
        last: Instant,
        now: Instant,
        subscription_elapsed: bool,
        unobserved: bool,
    )
        requires
            !is_negative(bits),
            !is_zero(bits),
            !is_nan(bits),
            now@ <= last@,
        ensures
            !SamplingInterval::of_bits(bits).due(last, now, subscription_elapsed, unobserved),
    {
        lemma_significand_is_positive(bits);
        lemma_pow2_pos(scale(bits));
        lemma_pow2_pos(EXPONENT_OF_UNITS as nat);
        let left = significand(bits) * pow2(scale(bits)) * NANOS_PER_MILLI;
        let right = (now@ - last@) * pow2(EXPONENT_OF_UNITS as nat);
        assert(0 < left) by (nonlinear_arith)
            requires
                left == significand(bits) * pow2(scale(bits)) * NANOS_PER_MILLI,
                0 < significand(bits),
                0 < pow2(scale(bits)),
                0 < NANOS_PER_MILLI,
        ;
        assert(right <= 0) by (nonlinear_arith)
            requires
                right == (now@ - last@) * pow2(EXPONENT_OF_UNITS as nat),
                now@ - last@ <= 0,
                0 < pow2(EXPONENT_OF_UNITS as nat),
        ;
    }

    /// An interval of a whole number of milliseconds is due exactly when that many
    /// milliseconds have gone by.
    pub proof fn lemma_whole_milliseconds(
        bits: u64,
        millis: nat,
        last: Instant,
        now: Instant,
        subscription_elapsed: bool,
        unobserved: bool,
    )
        requires
            !is_negative(bits),
            !is_zero(bits),
            exponent(bits) != SPECIAL_EXPONENT,
            significand(bits) * pow2(scale(bits)) == millis * pow2(EXPONENT_OF_UNITS as nat),
        ensures
            SamplingInterval::of_bits(bits).due(last, now, subscription_elapsed, unobserved) == (
            now@ - last@ >= millis * NANOS_PER_MILLI),
    {
        let one = pow2(EXPONENT_OF_UNITS as nat) as int;
        let elapsed = now@ - last@;
        let wanted = millis * NANOS_PER_MILLI;
        lemma_pow2_pos(EXPONENT_OF_UNITS as nat);
        assert(significand(bits) * pow2(scale(bits)) * NANOS_PER_MILLI == wanted * one)
            by (nonlinear_arith)
            requires
                significand(bits) * pow2(scale(bits)) == millis * one,
                wanted == millis * NANOS_PER_MILLI,
        ;
        assert((wanted * one <= elapsed * one) <==> (wanted <= elapsed)) by (nonlinear_arith)
            requires
                0 < one,
        ;
    }

    /// The interval whose number of milliseconds is the double-precision number `bits`.
    pub fn from_bits(bits: u64) -> (interval: SamplingInterval)
        ensures
            interval == SamplingInterval::of_bits(bits),
    {
        let exponent = exponent_of(bits);
        let fraction = fraction_of(bits);
        if exponent == SPECIAL_EXPONENT && fraction != 0 {
            SamplingInterval::Unordered
        } else if exponent == 0 && fraction == 0 {
            SamplingInterval::Fastest
        } else if bits >= SIGN_BIT {
            SamplingInterval::Subscription
        } else {
            SamplingInterval::Periodic(bits)
        }
    }

    /// Whether an item with this interval is to look at its attribute at `now`.
    pub fn is_due(
        &self,
        last: &Instant,
        now: &Instant,
        subscription_elapsed: bool,
        unobserved: bool,
    ) -> (due: bool)
        ensures
            due == self.due(*last, *now, subscription_elapsed, unobserved),
    {
        match self {
            SamplingInterval::Periodic(bits) => magnitude_is_within(
                *bits,
                NANOS_PER_MILLI,
                now.nanos_since(last),
            ),
            SamplingInterval::Fastest => true,
            SamplingInterval::Subscription => subscription_elapsed,
            SamplingInterval::Unordered => unobserved,
        }
    }
}

/// How an item is to sample and to queue.
#[derive(Debug, PartialEq, Eq)]
pub struct MonitoringParameters {
    /// The handle under which the client wants to hear of the item.
    pub client_handle: u32,
    pub sampling_interval: SamplingInterval,
    /// The filter, encoded, under the identifier of its encoding.
    pub filter: ExtensionObject,
    /// The number of notifications to keep; 0 asks for 1.
    pub queue_size: u32,
    pub discard_oldest: bool,
}

/// A request to monitor one attribute.
#[derive(Debug, PartialEq, Eq)]
pub struct MonitoredItemCreateRequest {
    pub item_to_monitor: ReadValueId,
    pub monitoring_mode: MonitoringMode,
    pub requested_parameters: MonitoringParameters,
}

} // verus!
