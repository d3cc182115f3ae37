//! The monitored item: when it samples, what counts as a change, and what it queues.

use vstd::prelude::*;
use crate::address_space::{AddressSpace, Node};
use crate::attribute::AttributeId;
use crate::data_value::{DataValue, MonitoredItemNotification};
use crate::double::{is_nan, is_negative, is_zero};
use crate::error::MonitoredItemError;
use crate::filter::{
    is_data_change_filter_encoding, DataChangeFilter, ExtensionObject, FilterType,
};
use crate::instant::Instant;
use crate::node_id::NodeIdView;
use crate::queue::{enqueued, granted_capacity, NotificationQueue};
use crate::request::{
    MonitoredItemCreateRequest, MonitoringMode, ReadValueId, ReadValueIdView, SamplingInterval,
};
use crate::status::{StatusCode, BAD_DECODING_ERROR, BAD_FILTER_NOT_ALLOWED};
use crate::variant::Variant;

verus! {

/// What a look at `target` in `space` finds: the value of the attribute, or why there is none.
pub open spec fn reading(space: Map<NodeIdView, Node>, target: ReadValueIdView) -> Result<
    DataValue,
    MonitoredItemError,
> {
    if !space.contains_key(target.node_id) {
        Err(MonitoredItemError::NodeNotFound)
    } else {
        match AttributeId::spec_from_u32(target.attribute_id) {
            None => Err(MonitoredItemError::InvalidAttributeId),
            Some(attribute) => match space[target.node_id].attribute(attribute) {
                None => Err(MonitoredItemError::AttributeNotFound),
                Some(value) => Ok(value),
            },
        }
    }
}

/// What the change filter's answer on two present values amounts to: its answer, or a
/// failure to evaluate.
pub open spec fn filter_verdict(answer: Result<bool, StatusCode>) -> Result<
    bool,
    MonitoredItemError,
> {
    match answer {
        Ok(same) => Ok(same),
        Err(_) => Err(MonitoredItemError::FilterEvaluationFailed),
    }
}

/// Whether the change filter has to be asked about two snapshots: only if both hold a value.
pub open spec fn asks_filter(current: DataValue, previous: DataValue) -> bool {
    current.value is Some && previous.value is Some
}

/// Whether two snapshots count as the same, `answer` being what the change filter said
/// if it was asked.
///
/// A value that came or went is a change, two absent values are the same, and a filter
/// that fails leaves them the same.
pub open spec fn equivalent(
    current: DataValue,
    previous: DataValue,
    answer: Result<bool, StatusCode>,
) -> bool {
    if current.value is Some != previous.value is Some {
        false
    } else if current.value is None {
        true
    } else {
        match filter_verdict(answer) {
            Ok(same) => same,
            Err(_) => true,
        }
    }
}

/// Whether `current` is a change against what was last observed.
pub open spec fn changed(
    previous: Option<DataValue>,
    current: DataValue,
    answer: Result<bool, StatusCode>,
) -> bool {
    match previous {
        None => true,
        Some(previous) => !equivalent(current, previous, answer),
    }
}

/// The filter that a request asks for, or the status that turns the request down.
///
/// A filter under any identifier but that of the binary encoding of a data-change filter
/// is not allowed; one under that identifier has to decode.
pub open spec fn requested_filter(filter: ExtensionObject) -> Result<FilterType, StatusCode> {
    if !is_data_change_filter_encoding(filter.node_id@) {
        Err(StatusCode { bits: BAD_FILTER_NOT_ALLOWED })
    } else {
        match filter.spec_decode_inner() {
            Some(decoded) => Ok(FilterType::DataChangeFilter(decoded)),
            None => Err(StatusCode { bits: BAD_DECODING_ERROR }),
        }
    }
}

/// A filter under another identifier than that of the data-change filter is turned down
/// with `BadFilterNotAllowed`, whatever its body holds.
pub proof fn lemma_other_filter_is_not_allowed(filter: ExtensionObject)
    requires
        !is_data_change_filter_encoding(filter.node_id@),
    ensures
        requested_filter(filter) == Err::<FilterType, StatusCode>(
            StatusCode { bits: BAD_FILTER_NOT_ALLOWED },
        ),
{
}

/// What a monitored item keeps between ticks.
pub struct SamplingState {
    /// When the item last looked at its attribute.
    pub last_sample_time: Instant,
    /// What was last observed and reported, if anything was.
    pub last_data_value: Option<DataValue>,
    /// The pending notifications, front to back.
    pub queue: Seq<MonitoredItemNotification>,
    /// Whether an arrival has found the queue full since an entry was last taken out.
    pub overflow: bool,
}

/// The monitoring of one attribute on behalf of a client.
#[derive(Debug, PartialEq, Eq)]
pub struct MonitoredItem {
    pub monitored_item_id: u32,
    pub item_to_monitor: ReadValueId,
    pub monitoring_mode: MonitoringMode,
    pub client_handle: u32,
    pub sampling_interval: SamplingInterval,
    pub filter: FilterType,
    /// The pending notifications; the queue knows its capacity and its overflow policy.
    pub notification_queue: NotificationQueue,
    /// When the item last looked at its attribute.
    pub last_sample_time: Instant,
    /// What was last observed and reported; nothing before the first observation.
    pub last_data_value: Option<DataValue>,
}

impl Clone for MonitoredItem {
    fn clone(&self) -> (copy: Self)
        ensures
            copy.monitored_item_id == self.monitored_item_id,
            copy.item_to_monitor@ == self.item_to_monitor@,
            copy.monitoring_mode == self.monitoring_mode,
            copy.client_handle == self.client_handle,
            copy.sampling_interval == self.sampling_interval,
            copy.filter == self.filter,
            copy.notification_queue.spec_capacity() == self.notification_queue.spec_capacity(),
            copy.notification_queue.spec_discard_oldest()
                == self.notification_queue.spec_discard_oldest(),
            copy.state() == self.state(),
    {
        let last_data_value = match &self.last_data_value {
            Some(value) => Some(value.clone()),
            None => None,
        };
        MonitoredItem {
            monitored_item_id: self.monitored_item_id,
            item_to_monitor: self.item_to_monitor.clone(),
            monitoring_mode: self.monitoring_mode,
            client_handle: self.client_handle,
            sampling_interval: self.sampling_interval,
            filter: self.filter,
            notification_queue: self.notification_queue.clone(),
            last_sample_time: self.last_sample_time,
            last_data_value,
        }
    }
}

impl MonitoredItem {
    /// What the item keeps between ticks.
    pub open spec fn state(&self) -> SamplingState {
        SamplingState {
            last_sample_time: self.last_sample_time,
            last_data_value: self.last_data_value,
            queue: self.notification_queue@,
            overflow: self.notification_queue.spec_overflow(),
        }
    }

    /// The data-change filter of the item.
    pub open spec fn data_change_filter(&self) -> DataChangeFilter {
        match self.filter {
            FilterType::DataChangeFilter(filter) => filter,
        }
    }

    /// What a look at the item's attribute in `address_space` finds.
    pub open spec fn finds(&self, address_space: &AddressSpace) -> Result<
        DataValue,
        MonitoredItemError,
    > {
        reading(address_space@, self.item_to_monitor@)
    }

    /// Whether the item is to look at its attribute at `now`.
    pub open spec fn is_due(&self, now: Instant, subscription_elapsed: bool) -> bool {
        self.sampling_interval.due(
            self.state().last_sample_time,
            now,
            subscription_elapsed,
            self.state().last_data_value is None,
        )
    }

    /// The notification that reports `value`.
    pub open spec fn notification(&self, value: DataValue) -> MonitoredItemNotification {
        MonitoredItemNotification { client_handle: self.client_handle, value }
    }

    /// The state after the item has taken `current` for a change.
    pub open spec fn after_change(&self, current: DataValue, now: Instant) -> SamplingState {
        SamplingState {
            last_sample_time: now,
            last_data_value: Some(current),
            queue: enqueued(
                self.state().queue,
                self.notification_queue.spec_capacity(),
                self.notification_queue.spec_discard_oldest(),
                self.notification(current),
            ),
            overflow: self.state().overflow || self.state().queue.len()
                == self.notification_queue.spec_capacity(),
        }
    }

    /// The state after a tick at `now` and whether the tick queued a notification, `found`
    /// being what a look at the attribute finds and `answer` what the change filter says
    /// if it is asked.
    pub open spec fn ticked(
        &self,
        found: Result<DataValue, MonitoredItemError>,
        now: Instant,
        subscription_elapsed: bool,
        answer: Result<bool, StatusCode>,
    ) -> (SamplingState, bool) {
        if !self.is_due(now, subscription_elapsed) {
            (self.state(), false)
        } else {
            match found {
                Ok(current) if changed(self.state().last_data_value, current, answer) => (
                    self.after_change(current, now),
                    true,
                ),
                _ => (SamplingState { last_sample_time: now, ..self.state() }, false),
            }
        }
    }

    /// Whether a tick at `now` asks the change filter, and about which values.
    pub open spec fn asked(
        &self,
        found: Result<DataValue, MonitoredItemError>,
        now: Instant,
        subscription_elapsed: bool,
    ) -> Option<(Variant, Variant)> {
        if self.is_due(now, subscription_elapsed) && found is Ok && self.state().last_data_value
            is Some && asks_filter(found->Ok_0, self.state().last_data_value->0) {
            Some((found->Ok_0.value->0, self.state().last_data_value->0.value->0))
        } else {
            None
        }
    }

    /// Whether `other` has the settings of `self`: everything but what ticks change.
    pub open spec fn same_settings(&self, other: &MonitoredItem) -> bool {
        &&& self.monitored_item_id == other.monitored_item_id
        &&& self.item_to_monitor == other.item_to_monitor
        &&& self.monitoring_mode == other.monitoring_mode
        &&& self.client_handle == other.client_handle
        &&& self.sampling_interval == other.sampling_interval
        &&& self.filter == other.filter
        &&& self.notification_queue.spec_capacity() == other.notification_queue.spec_capacity()
        &&& self.notification_queue.spec_discard_oldest()
            == other.notification_queue.spec_discard_oldest()
    }

    /// Whether the item is as `request` asks, made at `now` under the number
    /// `monitored_item_id` with the filter `filter`: nothing observed, nothing queued.
    pub open spec fn is_new(
        &self,
        monitored_item_id: u32,
        request: &MonitoredItemCreateRequest,
        filter: FilterType,
        now: Instant,
    ) -> bool {
        &&& self.monitored_item_id == monitored_item_id
        &&& self.item_to_monitor@ == request.item_to_monitor@
        &&& self.monitoring_mode == request.monitoring_mode
        &&& self.client_handle == request.requested_parameters.client_handle
        &&& self.sampling_interval == request.requested_parameters.sampling_interval
        &&& self.filter == filter
        &&& self.notification_queue.spec_capacity() == granted_capacity(
            request.requested_parameters.queue_size,
        )
        &&& self.notification_queue.spec_discard_oldest()
            == request.requested_parameters.discard_oldest
        &&& self.state() == (SamplingState {
            last_sample_time: now,
            last_data_value: None,
            queue: Seq::empty(),
            overflow: false,
        })
    }

    /// Makes the item that `request` asks for, with `now` as the time of its last sample.
    ///
    /// The request is turned down with `BadFilterNotAllowed` if its filter is of another
    /// kind than the data-change filter, and with `BadDecodingError` if the filter does
    /// not decode.
    pub fn new(
        monitored_item_id: u32,
        request: &MonitoredItemCreateRequest,
        now: Instant,
    ) -> (created: Result<MonitoredItem, StatusCode>)
        ensures
            requested_filter(request.requested_parameters.filter) matches Ok(filter) ==> created
                is Ok && created->Ok_0.is_new(monitored_item_id, request, filter, now),
            requested_filter(request.requested_parameters.filter) matches Err(status)
                ==> created is Err && created->Err_0 == status,
    {
        if !request.requested_parameters.filter.is_data_change_filter() {
            return Err(MonitoredItemError::FilterNotAllowed.status_code());
        }
        let filter = match request.requested_parameters.filter.decode_inner() {
            Ok(decoded) => FilterType::DataChangeFilter(decoded),
            Err(status) => {
                return Err(status);
            },
        };
        Ok(
            MonitoredItem {
                monitored_item_id,
                item_to_monitor: request.item_to_monitor.clone(),
                monitoring_mode: request.monitoring_mode,
                client_handle: request.requested_parameters.client_handle,
                sampling_interval: request.requested_parameters.sampling_interval,
                filter,
                notification_queue: NotificationQueue::new(
                    request.requested_parameters.queue_size,
                    request.requested_parameters.discard_oldest,
                ),
                last_sample_time: now,
                last_data_value: None,
            },
        )
    }

    /// Takes the notification at the front of the queue, if there is one, for delivery.
    ///
    /// Taking one lowers the overflow flag; an empty queue leaves the item as it was.
    pub fn get_notification_message(&mut self) -> (taken: Option<MonitoredItemNotification>)
        ensures
            final(self).same_settings(old(self)),
            old(self).state().queue.len() == 0 ==> taken is None,
            old(self).state().queue.len() == 0 ==> final(self).state() == old(self).state(),
            old(self).state().queue.len() > 0 ==> taken == Some(old(self).state().queue[0]),
            old(self).state().queue.len() > 0 ==> final(self).state() == (SamplingState {
                queue: old(self).state().queue.drop_first(),
                overflow: false,
                ..old(self).state()
            }),
    {
        self.notification_queue.dequeue()
    }

    /// Looks the item's attribute up in `address_space`.
    pub fn read_value(&self, address_space: &AddressSpace) -> (found: Result<
        DataValue,
        MonitoredItemError,
    >)
        ensures
            found == self.finds(address_space),
    {
        let node = match address_space.find_node(&self.item_to_monitor.node_id) {
            Some(node) => node,
            None => {
                return Err(MonitoredItemError::NodeNotFound);
            },
        };
        let attribute = match AttributeId::from_u32(self.item_to_monitor.attribute_id) {
            Ok(attribute) => attribute,
            Err(_) => {
                return Err(MonitoredItemError::InvalidAttributeId);
            },
        };
        match node.find_attribute(attribute) {
            Some(value) => Ok(value),
            None => Err(MonitoredItemError::AttributeNotFound),
        }
    }

    /// Lets the item look at its attribute if it is due, and queue a notification if the
    /// value has changed. Says whether a notification was queued.
    ///
    /// An item that is not due is left as it was. One that is due takes `now` as the time of
    /// its last sample, whatever it finds. A node, an attribute or a value that is not there
    /// is no change. A first value is always one; a later one is compared with the value
    /// last reported, by presence and by `deadband_compare`, which is called only when both
    /// hold a value.
    pub fn tick<F>(
        &mut self,
        address_space: &AddressSpace,
        now: &Instant,
        subscription_interval_elapsed: bool,
        deadband_compare: F,
    ) -> (notified: bool) where
        F: Fn(&DataChangeFilter, &Variant, &Variant) -> Result<bool, StatusCode>,

        requires
            old(self).asked(
                old(self).finds(address_space),
                *now,
                subscription_interval_elapsed,
            ) matches Some((current, previous)) ==> call_requires(
                deadband_compare,
                (&old(self).data_change_filter(), &current, &previous),
            ),
        ensures
            final(self).same_settings(old(self)),
            exists|answer: Result<bool, StatusCode>|
                (old(self).asked(
                    old(self).finds(address_space),
                    *now,
                    subscription_interval_elapsed,
                ) matches Some((current, previous)) ==> call_ensures(
                    deadband_compare,
                    (&old(self).data_change_filter(), &current, &previous),
                    answer,
                )) && (final(self).state(), notified) == old(self).ticked(
                    old(self).finds(address_space),
                    *now,
                    subscription_interval_elapsed,
                    answer,
                ),
            !old(self).is_due(*now, subscription_interval_elapsed) ==> !notified
                && final(self).state() == old(self).state(),
            old(self).is_due(*now, subscription_interval_elapsed) ==> final(self).last_sample_time
                == *now,
            old(self).is_due(*now, subscription_interval_elapsed) && old(self).last_data_value
                is None && old(self).finds(address_space) is Ok ==> notified,
            notified ==> (old(self).finds(address_space) matches Ok(current)
                && final(self).state() == old(self).after_change(current, *now)),
            !notified ==> final(self).state() == (SamplingState {
                last_sample_time: final(self).last_sample_time,
                ..old(self).state()
            }),
            old(self).asked(
                old(self).finds(address_space),
                *now,
                subscription_interval_elapsed,
            ) matches Some((current, previous)) && (forall|answer: Result<bool, StatusCode>|
                call_ensures(
                    deadband_compare,
                    (&old(self).data_change_filter(), &current, &previous),
                    answer,
                ) ==> answer is Err) ==> !notified,
            0 < final(self).notification_queue.spec_capacity(),
            final(self).state().queue.len() <= final(self).notification_queue.spec_capacity(),
    {
        let ghost found = self.finds(address_space);
        proof {
            use_type_invariant(&self.notification_queue);
            self.notification_queue.lemma_within_capacity();
        }
        let check_value = self.sampling_interval.is_due(
            &self.last_sample_time,
            now,
            subscription_interval_elapsed,
            self.last_data_value.is_none(),
        );
        if !check_value {
            assert((self.state(), false) == old(self).ticked(
                found,
                *now,
                subscription_interval_elapsed,
                Ok(true),
            ));
            return false;
        }
        self.last_sample_time = *now;
        let data_value = match self.read_value(address_space) {
            Ok(data_value) => data_value,
            Err(_) => {
                assert((self.state(), false) == old(self).ticked(
                    found,
                    *now,
                    subscription_interval_elapsed,
                    Ok(true),
                ));
                return false;
            },
        };
        // What the change filter said, if it was asked.
        let ghost mut answer: Result<bool, StatusCode> = Ok(true);
        let data_change = match &self.last_data_value {
            None => true,
            Some(previous) => {
                let FilterType::DataChangeFilter(filter) = &self.filter;
                let same = MonitoredItem::compare_data_values(
                    filter,
                    &data_value,
                    previous,
                    deadband_compare,
                );
                proof {
                    answer = choose|answer: Result<bool, StatusCode>|
                        (asks_filter(data_value, *previous) ==> call_ensures(
                            deadband_compare,
                            (filter, &data_value.value->0, &previous.value->0),
                            answer,
                        )) && same == equivalent(data_value, *previous, answer);
                }
                !same
            },
        };
        if data_change {
            self.last_data_value = Some(data_value.clone());
            self.notification_queue.enqueue(
                MonitoredItemNotification { client_handle: self.client_handle, value: data_value },
            );
        }
        assert((self.state(), data_change) == old(self).ticked(
            found,
            *now,
            subscription_interval_elapsed,
            answer,
        ));
        data_change
    }

    /// With an interval of zero, of either sign, the item is due on every tick, whatever
    /// time has gone by, and takes the tick's time as the time of its last sample.
    pub proof fn lemma_zero_interval_is_always_due(
        &self,
        bits: u64,
        found: Result<DataValue, MonitoredItemError>,
        now: Instant,
        subscription_elapsed: bool,
        answer: Result<bool, StatusCode>,
    )
        requires
            is_zero(bits),
            self.sampling_interval == SamplingInterval::of_bits(bits),
        ensures
            self.is_due(now, subscription_elapsed),
            self.ticked(found, now, subscription_elapsed, answer).0.last_sample_time == now,
    {
    }

    /// With an interval below zero the item is due exactly on the ticks on which the
    /// publishing interval of its subscription is over.
    pub proof fn lemma_negative_interval_follows_subscription(
        &self,
        bits: u64,
        now: Instant,
        subscription_elapsed: bool,
    )
        requires
            is_negative(bits),
            !is_zero(bits),
            !is_nan(bits),
            self.sampling_interval == SamplingInterval::of_bits(bits),
        ensures
            self.is_due(now, subscription_elapsed) == subscription_elapsed,
    {
    }

    /// With an interval above zero, however short, a tick at the time of the last sample
    /// or before it is not due: it changes nothing and queues nothing.
    pub proof fn lemma_positive_interval_needs_time(
        &self,
        bits: u64,
        found: Result<DataValue, MonitoredItemError>,
        now: Instant,
        subscription_elapsed: bool,
        answer: Result<bool, StatusCode>,
    )
        requires
            !is_negative(bits),
            !is_zero(bits),
            !is_nan(bits),
            self.sampling_interval == SamplingInterval::of_bits(bits),
            now@ <= self.last_sample_time@,
        ensures
            !self.is_due(now, subscription_elapsed),
            self.ticked(found, now, subscription_elapsed, answer) == (self.state(), false),
    {
        SamplingInterval::lemma_positive_needs_time(
            bits,
            self.last_sample_time,
            now,
            subscription_elapsed,
            self.last_data_value is None,
        );
    }

    /// A tick that is not due changes nothing and queues nothing.
    pub proof fn lemma_idle_tick_changes_nothing(
        &self,
        found: Result<DataValue, MonitoredItemError>,
        now: Instant,
        subscription_elapsed: bool,
        answer: Result<bool, StatusCode>,
    )
        requires
            !self.is_due(now, subscription_elapsed),
        ensures
            self.ticked(found, now, subscription_elapsed, answer) == (self.state(), false),
    {
    }

    /// A due tick that finds no value queues nothing, and still takes the tick's time as the
    /// time of the last sample.
    pub proof fn lemma_missing_value_is_no_change(
        &self,
        found: Result<DataValue, MonitoredItemError>,
        now: Instant,
        subscription_elapsed: bool,
        answer: Result<bool, StatusCode>,
    )
        requires
            self.is_due(now, subscription_elapsed),
            found is Err,
        ensures
            self.ticked(found, now, subscription_elapsed, answer) == (
                SamplingState { last_sample_time: now, ..self.state() },
                false,
            ),
    {
    }

    /// The first value that a due tick finds is always a change: it is kept as the last
    /// observation and queued at the front, whatever the change filter would say.
    pub proof fn lemma_first_observation_is_a_change(
        &self,
        value: DataValue,
        now: Instant,
        subscription_elapsed: bool,
        answer: Result<bool, StatusCode>,
    )
        requires
            self.notification_queue.within_capacity(),
            self.last_data_value is None,
            self.is_due(now, subscription_elapsed),
        ensures
            self.ticked(Ok(value), now, subscription_elapsed, answer) == (
                self.after_change(value, now),
                true,
            ),
            self.after_change(value, now).last_data_value == Some(value),
            self.after_change(value, now).queue[0] == self.notification(value),
    {
        self.notification_queue.lemma_within_capacity();
    }

    /// When the change filter fails on two present values, they count as the same: the
    /// tick queues nothing and keeps the last observation.
    pub proof fn lemma_failed_filter_is_no_change(
        &self,
        current: DataValue,
        previous: DataValue,
        now: Instant,
        subscription_elapsed: bool,
        answer: Result<bool, StatusCode>,
    )
        requires
            self.last_data_value == Some(previous),
            current.value is Some,
            previous.value is Some,
            answer is Err,
        ensures
            equivalent(current, previous, answer),
            !changed(Some(previous), current, answer),
            !self.ticked(Ok(current), now, subscription_elapsed, answer).1,
            self.ticked(Ok(current), now, subscription_elapsed, answer).0.queue
                == self.state().queue,
            self.ticked(Ok(current), now, subscription_elapsed, answer).0.last_data_value
                == Some(previous),
    {
    }

    /// A tick never takes the queue beyond its capacity.
    pub proof fn lemma_tick_keeps_queue_within_capacity(
        &self,
        found: Result<DataValue, MonitoredItemError>,
        now: Instant,
        subscription_elapsed: bool,
        answer: Result<bool, StatusCode>,
    )
        requires
            self.notification_queue.within_capacity(),
        ensures
            self.ticked(found, now, subscription_elapsed, answer).0.queue.len()
                <= self.notification_queue.spec_capacity(),
    {
        self.notification_queue.lemma_within_capacity();
    }

    /// A tick never lowers the overflow flag, whether or not it queues a notification; it
    /// raises the flag exactly when it queues one into a full queue.
    pub proof fn lemma_tick_never_lowers_overflow(
        &self,
        found: Result<DataValue, MonitoredItemError>,
        now: Instant,
        subscription_elapsed: bool,
        answer: Result<bool, StatusCode>,
    )
        ensures
            self.ticked(found, now, subscription_elapsed, answer).0.overflow == (
            self.state().overflow || (self.ticked(found, now, subscription_elapsed, answer).1
                && self.state().queue.len() == self.notification_queue.spec_capacity())),
    {
    }

    /// As long as the clock that drives the ticks does not go back, neither does the time
    /// of the last sample.
    pub proof fn lemma_sample_time_follows_clock(
        &self,
        found: Result<DataValue, MonitoredItemError>,
        now: Instant,
        subscription_elapsed: bool,
        answer: Result<bool, StatusCode>,
    )
        requires
            self.last_sample_time@ <= now@,
        ensures
            self.last_sample_time@ <= self.ticked(
                found,
                now,
                subscription_elapsed,
                answer,
            ).0.last_sample_time@ <= now@,
    {
    }

    /// Whether two snapshots count as the same, by presence and by `deadband_compare`.
    ///
    /// `deadband_compare` is the change filter: it is called only when both snapshots hold
    /// a value, with `filter` and the two values, the first snapshot's first.
    pub fn compare_data_values<F>(
        filter: &DataChangeFilter,
        dv1: &DataValue,
        dv2: &DataValue,
        deadband_compare: F,
    ) -> (same: bool) where F: Fn(&DataChangeFilter, &Variant, &Variant) -> Result<bool, StatusCode>
        requires
            asks_filter(*dv1, *dv2) ==> call_requires(
                deadband_compare,
                (filter, &dv1.value->0, &dv2.value->0),
            ),
        ensures
            dv1.value is Some != dv2.value is Some ==> !same,
            dv1.value is None && dv2.value is None ==> same,
            asks_filter(*dv1, *dv2) && (forall|answer: Result<bool, StatusCode>|
                call_ensures(deadband_compare, (filter, &dv1.value->0, &dv2.value->0), answer)
                    ==> answer is Err) ==> same,
            exists|answer: Result<bool, StatusCode>|
                (asks_filter(*dv1, *dv2) ==> call_ensures(
                    deadband_compare,
                    (filter, &dv1.value->0, &dv2.value->0),
                    answer,
                )) && same == equivalent(*dv1, *dv2, answer),
    {
        match (&dv1.value, &dv2.value) {
            (Some(v1), Some(v2)) => {
                let answer = deadband_compare(filter, v1, v2);
                let same = match Self::verdict(answer) {
                    Ok(same) => same,
                    Err(_) => true,
                };
                assert(same == equivalent(*dv1, *dv2, answer));
                same
            },
            (None, None) => {
                assert(true == equivalent(*dv1, *dv2, Ok(true)));
                true
            },
            _ => {
                assert(false == equivalent(*dv1, *dv2, Ok(true)));
                false
            },
        }
    }

    /// What the change filter's answer amounts to: its answer, or a failure to evaluate.
    pub fn verdict(answer: Result<bool, StatusCode>) -> (verdict: Result<
        bool,
        MonitoredItemError,
    >)
        ensures
            verdict == filter_verdict(answer),
    {
        match answer {
            Ok(same) => Ok(same),
            Err(_) => Err(MonitoredItemError::FilterEvaluationFailed),
        }
    }
}

} // verus!
