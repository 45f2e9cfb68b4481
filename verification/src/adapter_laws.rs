//! What the adapter of a token driver does, stated of its calls.
//!
//! Each law takes what a call started from, what it returned and what it left
//! behind. What the driver itself was asked and answered is told by
//! [`TokenDriver::performs`].
use vstd::prelude::*;

use crate::driver;
use crate::driver::{Capabilities, HardwareAddress, PacketMeta, Timestamp};
use crate::driver_util::{
    driver_completion, driver_grant, driver_schedule, driver_update, embassy_net_meta,
    inner_admission, inner_token, into_embassy_net_meta, into_embassy_net_timestamp,
    into_xarxa_meta, into_xarxa_timestamp, DriverAdapter, RxToken, RxTokenAdapter, TokenCall,
    TokenDriver, TxToken, TxTokenAdapter,
};
use crate::egress::{
    EgressAdmission, EgressBurstGrant, EgressDemandUpdate, EgressGrantCompletion, EgressKey,
    EgressRoute, EgressSchedule,
};
use crate::nonzero::NonZeroU32;
use crate::phy;

verus! {

/// No token may be asked for: as many as the limit were issued.
pub open spec fn limit_is_reached(limit: Option<u32>, issued: u32) -> bool {
    limit is Some && issued >= limit->0
}

/// A request for the token is refused, without asking the driver, exactly
/// where the limit is reached; only the mark of the limit is then set. Otherwise
/// the token is what the driver answers. One that it gives is counted; where it
/// gives none, only the mark of the exhausted driver is set.
pub proof fn law_transmit_counts_and_marks<'c, T: TokenDriver>(
    before: DriverAdapter<'c, T>,
    token: Option<TxTokenAdapter<T::TxToken>>,
    after: DriverAdapter<'c, T>,
)
    requires
        exists|adapter: &mut DriverAdapter<'c, T>|
            *adapter == before && *final(adapter) == after && call_ensures(
                DriverAdapter::<'c, T>::transmit,
                (adapter,),
                token,
            ),
    ensures
        after.cx == before.cx,
        after.medium == before.medium,
        after.tx_token_limit == before.tx_token_limit,
        limit_is_reached(before.tx_token_limit, before.tx_tokens_issued) ==> {
            &&& token is None
            &&& after.inner == before.inner
            &&& after.tx_budget_exhausted
            &&& after.tx_exhausted == before.tx_exhausted
            &&& after.tx_tokens_issued == before.tx_tokens_issued
        },
        !limit_is_reached(before.tx_token_limit, before.tx_tokens_issued) ==> {
            &&& after.tx_budget_exhausted == before.tx_budget_exhausted
            &&& after.tx_exhausted == (before.tx_exhausted || token is None)
            &&& token is None ==> after.tx_tokens_issued == before.tx_tokens_issued
            &&& token is Some && before.tx_tokens_issued < u32::MAX ==> after.tx_tokens_issued
                == before.tx_tokens_issued + 1
            &&& token is Some && before.tx_tokens_issued == u32::MAX ==> after.tx_tokens_issued
                == u32::MAX
            &&& exists|said: Option<T::TxToken>|
                #[trigger] T::performs(
                    before.inner,
                    TokenCall::Transmit(*before.cx->0, said),
                    after.inner,
                ) && (said is Some <==> token is Some) && (token is Some ==> said->0 == (token->0).0)
        },
{
    if !limit_is_reached(before.tx_token_limit, before.tx_tokens_issued) {
        assert(T::performs(
            before.inner,
            TokenCall::Transmit(*before.cx->0, inner_token(token)),
            after.inner,
        ));
    }
}

/// A request for the token of a control frame is refused, without asking the driver, exactly
/// where the limit is reached; only the mark of the limit is then set. Otherwise
/// the token is what the driver answers. One that it gives is counted; where it
/// gives none, only the mark of the exhausted driver is set.
pub proof fn law_transmit_control_counts_and_marks<'c, T: TokenDriver>(
    before: DriverAdapter<'c, T>,
    token: Option<TxTokenAdapter<T::TxToken>>,
    after: DriverAdapter<'c, T>,
)
    requires
        exists|adapter: &mut DriverAdapter<'c, T>|
            *adapter == before && *final(adapter) == after && call_ensures(
                DriverAdapter::<'c, T>::transmit_control,
                (adapter,),
                token,
            ),
    ensures
        after.cx == before.cx,
        after.medium == before.medium,
        after.tx_token_limit == before.tx_token_limit,
        limit_is_reached(before.tx_token_limit, before.tx_tokens_issued) ==> {
            &&& token is None
            &&& after.inner == before.inner
            &&& after.tx_budget_exhausted
            &&& after.tx_exhausted == before.tx_exhausted
            &&& after.tx_tokens_issued == before.tx_tokens_issued
        },
        !limit_is_reached(before.tx_token_limit, before.tx_tokens_issued) ==> {
            &&& after.tx_budget_exhausted == before.tx_budget_exhausted
            &&& after.tx_exhausted == (before.tx_exhausted || token is None)
            &&& token is None ==> after.tx_tokens_issued == before.tx_tokens_issued
            &&& token is Some && before.tx_tokens_issued < u32::MAX ==> after.tx_tokens_issued
                == before.tx_tokens_issued + 1
            &&& token is Some && before.tx_tokens_issued == u32::MAX ==> after.tx_tokens_issued
                == u32::MAX
            &&& exists|said: Option<T::TxToken>|
                #[trigger] T::performs(
                    before.inner,
                    TokenCall::TransmitControl(*before.cx->0, said),
                    after.inner,
                ) && (said is Some <==> token is Some) && (token is Some ==> said->0 == (token->0).0)
        },
{
    if !limit_is_reached(before.tx_token_limit, before.tx_tokens_issued) {
        assert(T::performs(
            before.inner,
            TokenCall::TransmitControl(*before.cx->0, inner_token(token)),
            after.inner,
        ));
    }
}

/// A request for the token of a key is refused, without asking the driver, exactly
/// where the limit is reached; only the mark of the limit is then set. Otherwise
/// the answer is the driver's own. A granted token is counted. Only a driver that
/// has no room at all is marked as exhausted, not one that defers the key.
pub proof fn law_transmit_for_counts_and_marks<'c, T: TokenDriver>(
    before: DriverAdapter<'c, T>,
    egress: phy::EgressKey,
    admission: phy::EgressAdmission<TxTokenAdapter<T::TxToken>>,
    after: DriverAdapter<'c, T>,
)
    requires
        exists|adapter: &mut DriverAdapter<'c, T>|
            *adapter == before && *final(adapter) == after && call_ensures(
                DriverAdapter::<'c, T>::transmit_for,
                (adapter, egress),
                admission,
            ),
    ensures
        after.cx == before.cx,
        after.medium == before.medium,
        after.tx_token_limit == before.tx_token_limit,
        limit_is_reached(before.tx_token_limit, before.tx_tokens_issued) ==> {
            &&& admission is GlobalExhausted
            &&& after.inner == before.inner
            &&& after.tx_budget_exhausted
            &&& after.tx_exhausted == before.tx_exhausted
            &&& after.tx_tokens_issued == before.tx_tokens_issued
        },
        !limit_is_reached(before.tx_token_limit, before.tx_tokens_issued) ==> {
            &&& after.tx_budget_exhausted == before.tx_budget_exhausted
            &&& after.tx_exhausted == (before.tx_exhausted || admission is GlobalExhausted)
            &&& !(admission is Granted) ==> after.tx_tokens_issued == before.tx_tokens_issued
            &&& admission is Granted && before.tx_tokens_issued < u32::MAX
                ==> after.tx_tokens_issued == before.tx_tokens_issued + 1
            &&& admission is Granted && before.tx_tokens_issued == u32::MAX
                ==> after.tx_tokens_issued == u32::MAX
            &&& exists|said: EgressAdmission<T::TxToken>|
                #[trigger] T::performs(
                    before.inner,
                    TokenCall::TransmitFor(*before.cx->0, EgressKey { words: egress.words }, said),
                    after.inner,
                ) && (said is GlobalExhausted <==> admission is GlobalExhausted) && (
                said is KeyDeferred <==> admission is KeyDeferred) && (admission is Granted
                    ==> said->Granted_0 == admission->Granted_0.0)
        },
{
    if !limit_is_reached(before.tx_token_limit, before.tx_tokens_issued) {
        assert(T::performs(
            before.inner,
            TokenCall::TransmitFor(*before.cx->0, EgressKey { words: egress.words }, inner_admission(admission)),
            after.inner,
        ));
    }
}

/// A request for the token of a grant is refused, without asking the driver, exactly
/// where the limit is reached; only the mark of the limit is then set. Otherwise
/// the answer is the driver's own. A granted token is counted. Only a driver that
/// has no room at all is marked as exhausted, not one that defers the key.
pub proof fn law_transmit_granted_counts_and_marks<'c, T: TokenDriver>(
    before: DriverAdapter<'c, T>,
    grant_serial: NonZeroU32,
    admission: phy::EgressAdmission<TxTokenAdapter<T::TxToken>>,
    after: DriverAdapter<'c, T>,
)
    requires
        exists|adapter: &mut DriverAdapter<'c, T>|
            *adapter == before && *final(adapter) == after && call_ensures(
                DriverAdapter::<'c, T>::transmit_granted,
                (adapter, grant_serial),
                admission,
            ),
    ensures
        after.cx == before.cx,
        after.medium == before.medium,
        after.tx_token_limit == before.tx_token_limit,
        limit_is_reached(before.tx_token_limit, before.tx_tokens_issued) ==> {
            &&& admission is GlobalExhausted
            &&& after.inner == before.inner
            &&& after.tx_budget_exhausted
            &&& after.tx_exhausted == before.tx_exhausted
            &&& after.tx_tokens_issued == before.tx_tokens_issued
        },
        !limit_is_reached(before.tx_token_limit, before.tx_tokens_issued) ==> {
            &&& after.tx_budget_exhausted == before.tx_budget_exhausted
            &&& after.tx_exhausted == (before.tx_exhausted || admission is GlobalExhausted)
            &&& !(admission is Granted) ==> after.tx_tokens_issued == before.tx_tokens_issued
            &&& admission is Granted && before.tx_tokens_issued < u32::MAX
                ==> after.tx_tokens_issued == before.tx_tokens_issued + 1
            &&& admission is Granted && before.tx_tokens_issued == u32::MAX
                ==> after.tx_tokens_issued == u32::MAX
            &&& exists|said: EgressAdmission<T::TxToken>|
                #[trigger] T::performs(
                    before.inner,
                    TokenCall::TransmitGranted(*before.cx->0, grant_serial, said),
                    after.inner,
                ) && (said is GlobalExhausted <==> admission is GlobalExhausted) && (
                said is KeyDeferred <==> admission is KeyDeferred) && (admission is Granted
                    ==> said->Granted_0 == admission->Granted_0.0)
        },
{
    if !limit_is_reached(before.tx_token_limit, before.tx_tokens_issued) {
        assert(T::performs(
            before.inner,
            TokenCall::TransmitGranted(*before.cx->0, grant_serial, inner_admission(admission)),
            after.inner,
        ));
    }
}

/// Receiving hands on both tokens of the driver, or none, and counts nothing.
pub proof fn law_receive_hands_on_both_tokens<'c, T: TokenDriver>(
    before: DriverAdapter<'c, T>,
    tokens: Option<(RxTokenAdapter<T::RxToken>, TxTokenAdapter<T::TxToken>)>,
    after: DriverAdapter<'c, T>,
)
    requires
        exists|adapter: &mut DriverAdapter<'c, T>|
            *adapter == before && *final(adapter) == after && call_ensures(
                DriverAdapter::<'c, T>::receive,
                (adapter,),
                tokens,
            ),
    ensures
        after.cx == before.cx,
        after.medium == before.medium,
        after.tx_token_limit == before.tx_token_limit,
        after.tx_tokens_issued == before.tx_tokens_issued,
        after.tx_exhausted == before.tx_exhausted,
        after.tx_budget_exhausted == before.tx_budget_exhausted,
        exists|said: Option<(T::RxToken, T::TxToken)>|
            #[trigger] T::performs(
                before.inner,
                TokenCall::Receive(*before.cx->0, said),
                after.inner,
            ) && (said is Some <==> tokens is Some) && (tokens is Some ==> (said->0).0
                == ((tokens->0).0).0 && (said->0).1 == ((tokens->0).1).0),
{
}

/// The stack sees the schedule of the driver: the same numbers, and the grant
/// mode of the same name.
pub proof fn law_schedule_is_the_drivers<'c, T: TokenDriver>(
    before: DriverAdapter<'c, T>,
    schedule: Option<phy::EgressSchedule>,
    after: DriverAdapter<'c, T>,
)
    requires
        exists|adapter: &mut DriverAdapter<'c, T>|
            *adapter == before && *final(adapter) == after && call_ensures(
                DriverAdapter::<'c, T>::egress_schedule,
                (adapter,),
                schedule,
            ),
    ensures
        after.cx == before.cx,
        after.medium == before.medium,
        after.tx_token_limit == before.tx_token_limit,
        after.tx_tokens_issued == before.tx_tokens_issued,
        after.tx_exhausted == before.tx_exhausted,
        after.tx_budget_exhausted == before.tx_budget_exhausted,
        exists|said: Option<EgressSchedule>|
            #[trigger] T::performs(before.inner, TokenCall::EgressSchedule(said), after.inner)
                && match (said, schedule) {
                (None, None) => true,
                (Some(said), Some(seen)) => {
                    &&& seen.max_packets_per_key == said.max_packets_per_key
                    &&& seen.dispatch_quantum == said.dispatch_quantum
                    &&& seen.epoch == said.epoch
                    &&& seen.grant_mode is StackSelected <==> said.grant_mode is StackSelected
                    &&& seen.grant_mode is Shadow <==> said.grant_mode is Shadow
                    &&& seen.grant_mode is Authoritative <==> said.grant_mode is Authoritative
                },
                _ => false,
            },
{
    let said = match schedule {
        Some(schedule) => Some(driver_schedule(schedule)),
        None => None,
    };
    assert(T::performs(before.inner, TokenCall::EgressSchedule(said), after.inner));
}

/// The driver is told the update that the stack made: of the same kind, and of
/// the same demand.
pub proof fn law_update_reaches_the_driver<'c, T: TokenDriver>(
    before: DriverAdapter<'c, T>,
    update: phy::EgressDemandUpdate,
    after: DriverAdapter<'c, T>,
)
    requires
        exists|adapter: &mut DriverAdapter<'c, T>|
            *adapter == before && *final(adapter) == after && call_ensures(
                DriverAdapter::<'c, T>::update_egress_demand,
                (adapter, update),
                (),
            ),
    ensures
        after.cx == before.cx,
        after.medium == before.medium,
        after.tx_token_limit == before.tx_token_limit,
        after.tx_tokens_issued == before.tx_tokens_issued,
        after.tx_exhausted == before.tx_exhausted,
        after.tx_budget_exhausted == before.tx_budget_exhausted,
        exists|told: EgressDemandUpdate|
            #[trigger] T::performs(
                before.inner,
                TokenCall::UpdateEgressDemand(*before.cx->0, told),
                after.inner,
            ) && match (update, told) {
                (
                    phy::EgressDemandUpdate::Reset { schedule_epoch },
                    EgressDemandUpdate::Reset { schedule_epoch: epoch },
                ) => epoch == schedule_epoch,
                (phy::EgressDemandUpdate::Active(made), EgressDemandUpdate::Active(told)) => {
                    &&& told.id.schedule_epoch == made.id.schedule_epoch
                    &&& told.id.activation == made.id.activation
                    &&& told.key.words == made.key.words
                    &&& told.level.ready_units == made.level.ready_units
                    &&& told.level.horizon_ready == made.level.horizon_ready
                },
                (
                    phy::EgressDemandUpdate::Inactive { id, key },
                    EgressDemandUpdate::Inactive { id: told_id, key: told_key },
                ) => {
                    &&& told_id.schedule_epoch == id.schedule_epoch
                    &&& told_id.activation == id.activation
                    &&& told_key.words == key.words
                },
                _ => false,
            },
{
    assert(T::performs(
        before.inner,
        TokenCall::UpdateEgressDemand(*before.cx->0, driver_update(update)),
        after.inner,
    ));
}

/// The stack sees the grant of the driver, in all its parts.
pub proof fn law_grant_is_the_drivers<'c, T: TokenDriver>(
    before: DriverAdapter<'c, T>,
    grant: Option<phy::EgressBurstGrant>,
    after: DriverAdapter<'c, T>,
)
    requires
        exists|adapter: &mut DriverAdapter<'c, T>|
            *adapter == before && *final(adapter) == after && call_ensures(
                DriverAdapter::<'c, T>::poll_egress_grant,
                (adapter,),
                grant,
            ),
    ensures
        after.cx == before.cx,
        after.medium == before.medium,
        after.tx_token_limit == before.tx_token_limit,
        after.tx_tokens_issued == before.tx_tokens_issued,
        after.tx_exhausted == before.tx_exhausted,
        after.tx_budget_exhausted == before.tx_budget_exhausted,
        exists|said: Option<EgressBurstGrant>|
            #[trigger] T::performs(
                before.inner,
                TokenCall::PollEgressGrant(*before.cx->0, said),
                after.inner,
            ) && match (said, grant) {
                (None, None) => true,
                (Some(said), Some(seen)) => {
                    &&& seen.serial == said.serial
                    &&& seen.demand.id.schedule_epoch == said.demand.id.schedule_epoch
                    &&& seen.demand.id.activation == said.demand.id.activation
                    &&& seen.demand.key.words == said.demand.key.words
                    &&& seen.demand.level.ready_units == said.demand.level.ready_units
                    &&& seen.demand.level.horizon_ready == said.demand.level.horizon_ready
                    &&& seen.frame_credits == said.frame_credits
                    &&& seen.airtime_hundred_nanoseconds == said.airtime_hundred_nanoseconds
                },
                _ => false,
            },
{
    let said = match grant {
        Some(grant) => Some(driver_grant(grant)),
        None => None,
    };
    assert(T::performs(
        before.inner,
        TokenCall::PollEgressGrant(*before.cx->0, said),
        after.inner,
    ));
}

/// The driver is told the completion that the stack made, in all its parts.
pub proof fn law_completion_reaches_the_driver<'c, T: TokenDriver>(
    before: DriverAdapter<'c, T>,
    completion: phy::EgressGrantCompletion,
    after: DriverAdapter<'c, T>,
)
    requires
        exists|adapter: &mut DriverAdapter<'c, T>|
            *adapter == before && *final(adapter) == after && call_ensures(
                DriverAdapter::<'c, T>::finish_egress_grant,
                (adapter, completion),
                (),
            ),
    ensures
        after.cx == before.cx,
        after.medium == before.medium,
        after.tx_token_limit == before.tx_token_limit,
        after.tx_tokens_issued == before.tx_tokens_issued,
        after.tx_exhausted == before.tx_exhausted,
        after.tx_budget_exhausted == before.tx_budget_exhausted,
        exists|told: EgressGrantCompletion|
            #[trigger] T::performs(
                before.inner,
                TokenCall::FinishEgressGrant(*before.cx->0, told),
                after.inner,
            ) && told.serial == completion.serial && told.used_frames == completion.used_frames
                && match (completion.remaining, told.remaining) {
                (None, None) => true,
                (Some(made), Some(told)) => told.ready_units == made.ready_units
                    && told.horizon_ready == made.horizon_ready,
                _ => false,
            },
{
    assert(T::performs(
        before.inner,
        TokenCall::FinishEgressGrant(*before.cx->0, driver_completion(completion)),
        after.inner,
    ));
}

/// The driver is asked for the key of the same address and traffic class, and
/// the stack sees the words of its key. Only for an address of an unknown kind
/// there is no key, and the driver is not asked.
pub proof fn law_key_is_the_drivers<'c, T: TokenDriver>(
    before: DriverAdapter<'c, T>,
    route: phy::EgressRoute,
    key: Option<phy::EgressKey>,
    after: DriverAdapter<'c, T>,
)
    requires
        exists|adapter: &mut DriverAdapter<'c, T>|
            *adapter == before && *final(adapter) == after && call_ensures(
                DriverAdapter::<'c, T>::egress_key,
                (adapter, route),
                key,
            ),
    ensures
        after.cx == before.cx,
        after.medium == before.medium,
        after.tx_token_limit == before.tx_token_limit,
        after.tx_tokens_issued == before.tx_tokens_issued,
        after.tx_exhausted == before.tx_exhausted,
        after.tx_budget_exhausted == before.tx_budget_exhausted,
        key is None <==> route.destination is Unknown,
        key is None ==> after.inner == before.inner,
        key is Some ==> exists|asked: EgressRoute, said: EgressKey|
            #[trigger] T::performs(
                before.inner,
                TokenCall::EgressKey(asked, said),
                after.inner,
            ) && said.words == (key->0).words && asked.traffic_class == route.traffic_class
                && match (route.destination, asked.destination) {
                (
                    phy::EgressHardwareAddress::Ethernet(address),
                    HardwareAddress::Ethernet(asked),
                ) => asked == address,
                (
                    phy::EgressHardwareAddress::Ieee802154(address),
                    HardwareAddress::Ieee802154(asked),
                ) => asked == address,
                (phy::EgressHardwareAddress::Ip, HardwareAddress::Ip) => true,
                _ => false,
            },
{
    if key is Some {
        let destination = match route.destination {
            phy::EgressHardwareAddress::Ethernet(address) => HardwareAddress::Ethernet(address),
            phy::EgressHardwareAddress::Ieee802154(address) => HardwareAddress::Ieee802154(
                address,
            ),
            _ => HardwareAddress::Ip,
        };
        assert(T::performs(
            before.inner,
            TokenCall::EgressKey(
                EgressRoute { destination, traffic_class: route.traffic_class },
                EgressKey { words: (key->0).words },
            ),
            after.inner,
        ));
    }
}

/// The two sides name the same directions.
pub open spec fn same_directions(said: driver::Checksum, seen: phy::Checksum) -> bool {
    &&& seen is Both <==> said is Both
    &&& seen is Rx <==> said is Rx
    &&& seen is Tx <==> said is Tx
    &&& seen is Neither <==> said is Neither
}

/// The stack sees the capabilities of the driver, each checksum in the same
/// directions, but the medium of the adapter.
pub proof fn law_capabilities_are_the_drivers<'c, T: TokenDriver>(
    adapter: DriverAdapter<'c, T>,
    seen: phy::DeviceCapabilities,
)
    requires
        call_ensures(DriverAdapter::<'c, T>::capabilities, (&adapter,), seen),
    ensures
        seen.medium is Ethernet <==> adapter.medium is Ethernet,
        seen.medium is Ip <==> adapter.medium is Ip,
        seen.medium is Ieee802154 <==> adapter.medium is Ieee802154,
        exists|said: Capabilities|
            #[trigger] T::performs(adapter.inner, TokenCall::Capabilities(said), adapter.inner)
                && seen.max_transmission_unit == said.max_transmission_unit && seen.max_burst_size
                == said.max_burst_size && same_directions(said.checksum.ipv4, seen.checksum.ipv4)
                && same_directions(said.checksum.udp, seen.checksum.udp) && same_directions(
                said.checksum.tcp,
                seen.checksum.tcp,
            ) && same_directions(said.checksum.icmpv4, seen.checksum.icmpv4) && same_directions(
                said.checksum.icmpv6,
                seen.checksum.icmpv6,
            ),
{
}

/// Both sides name the same medium.
pub proof fn law_medium_keeps_its_name(medium: phy::Medium, named: driver::Medium)
    requires
        call_ensures(phy::Medium::to_driver, (medium,), named),
    ensures
        named is Ethernet <==> medium is Ethernet,
        named is Ip <==> medium is Ip,
        named is Ieee802154 <==> medium is Ieee802154,
{
}

/// Metadata keeps its identifier, its clock reading and its request for one on
/// the way to the stack and on the way to the driver.
pub proof fn law_meta_keeps_its_parts(
    said: PacketMeta,
    seen: phy::PacketMeta,
    made: phy::PacketMeta,
    told: PacketMeta,
)
    requires
        call_ensures(into_xarxa_meta, (said,), seen),
        call_ensures(into_embassy_net_meta, (made,), told),
    ensures
        seen.id == said.id,
        seen.request_timestamp == said.request_timestamp,
        seen.timestamp is Some <==> said.timestamp is Some,
        said.timestamp is Some ==> (seen.timestamp->0).seconds == (said.timestamp->0).seconds && (
        seen.timestamp->0).quarter_nanos == (said.timestamp->0).quarter_nanos,
        told.id == made.id,
        told.request_timestamp == made.request_timestamp,
        told.timestamp is Some <==> made.timestamp is Some,
        made.timestamp is Some ==> (told.timestamp->0).seconds == (made.timestamp->0).seconds && (
        told.timestamp->0).quarter_nanos == (made.timestamp->0).quarter_nanos,
{
}

/// A clock reading keeps its seconds and its fraction in both directions.
pub proof fn law_timestamp_keeps_its_parts(
    said: Timestamp,
    seen: phy::Timestamp,
    made: phy::Timestamp,
    told: Timestamp,
)
    requires
        call_ensures(into_xarxa_timestamp, (said,), seen),
        call_ensures(into_embassy_net_timestamp, (made,), told),
    ensures
        seen.seconds == said.seconds,
        seen.quarter_nanos == said.quarter_nanos,
        told.seconds == made.seconds,
        told.quarter_nanos == made.quarter_nanos,
{
}

/// The stack sees the metadata that the token has.
pub proof fn law_received_meta_is_the_tokens<T: RxToken>(
    token: RxTokenAdapter<T>,
    seen: phy::PacketMeta,
)
    requires
        call_ensures(RxTokenAdapter::<T>::meta, (&token,), seen),
    ensures
        exists|said: PacketMeta|
            #[trigger] token.0.has_meta(said) && seen.id == said.id && seen.request_timestamp
                == said.request_timestamp && (seen.timestamp is Some <==> said.timestamp is Some)
                && (said.timestamp is Some ==> (seen.timestamp->0).seconds
                == (said.timestamp->0).seconds && (seen.timestamp->0).quarter_nanos == (
            said.timestamp->0).quarter_nanos),
{
    assert(token.0.has_meta(embassy_net_meta(seen)));
}

/// The token takes the metadata that the stack made.
pub proof fn law_sent_meta_is_the_stacks<T: TxToken>(
    before: TxTokenAdapter<T>,
    made: phy::PacketMeta,
    after: TxTokenAdapter<T>,
)
    requires
        exists|token: &mut TxTokenAdapter<T>|
            *token == before && *final(token) == after && call_ensures(
                TxTokenAdapter::<T>::set_meta,
                (token, made),
                (),
            ),
    ensures
        exists|told: PacketMeta|
            #[trigger] T::takes_meta(&before.0, told, &after.0) && told.id == made.id
                && told.request_timestamp == made.request_timestamp && (told.timestamp is Some
                <==> made.timestamp is Some) && (made.timestamp is Some ==> (
            told.timestamp->0).seconds == (made.timestamp->0).seconds && (
            told.timestamp->0).quarter_nanos == (made.timestamp->0).quarter_nanos),
{
    assert(T::takes_meta(&before.0, embassy_net_meta(made), &after.0));
}

/// A mark that was taken is gone, and only that one: taking it again tells that
/// nothing was refused since.
pub proof fn law_marks_are_taken_once<'c, T: TokenDriver>(
    before: DriverAdapter<'c, T>,
    first: bool,
    between: DriverAdapter<'c, T>,
    second: bool,
    after: DriverAdapter<'c, T>,
)
    requires
        exists|adapter: &mut DriverAdapter<'c, T>|
            *adapter == before && *final(adapter) == between && call_ensures(
                DriverAdapter::<'c, T>::take_tx_exhausted,
                (adapter,),
                first,
            ),
        exists|adapter: &mut DriverAdapter<'c, T>|
            *adapter == between && *final(adapter) == after && call_ensures(
                DriverAdapter::<'c, T>::take_tx_exhausted,
                (adapter,),
                second,
            ),
    ensures
        first == before.tx_exhausted,
        !second,
        after == between,
        between.tx_budget_exhausted == before.tx_budget_exhausted,
        between.tx_tokens_issued == before.tx_tokens_issued,
{
}

/// A mark that was taken is gone, and only that one: taking it again tells that
/// the limit refused nothing since.
pub proof fn law_budget_marks_are_taken_once<'c, T: TokenDriver>(
    before: DriverAdapter<'c, T>,
    first: bool,
    between: DriverAdapter<'c, T>,
    second: bool,
    after: DriverAdapter<'c, T>,
)
    requires
        exists|adapter: &mut DriverAdapter<'c, T>|
            *adapter == before && *final(adapter) == between && call_ensures(
                DriverAdapter::<'c, T>::take_tx_budget_exhausted,
                (adapter,),
                first,
            ),
        exists|adapter: &mut DriverAdapter<'c, T>|
            *adapter == between && *final(adapter) == after && call_ensures(
                DriverAdapter::<'c, T>::take_tx_budget_exhausted,
                (adapter,),
                second,
            ),
    ensures
        first == before.tx_budget_exhausted,
        !second,
        after == between,
        between.tx_exhausted == before.tx_exhausted,
        between.tx_tokens_issued == before.tx_tokens_issued,
        between.tx_token_limit == before.tx_token_limit,
{
}

/// A new limit forgets that the old one refused tokens, and nothing else. The
/// tokens that were issued still count.
pub proof fn law_new_limit_starts_unmarked<'c, T: TokenDriver>(
    before: DriverAdapter<'c, T>,
    limit: Option<u32>,
    after: DriverAdapter<'c, T>,
)
    requires
        exists|adapter: &mut DriverAdapter<'c, T>|
            *adapter == before && *final(adapter) == after && call_ensures(
                DriverAdapter::<'c, T>::set_tx_token_limit,
                (adapter, limit),
                (),
            ),
    ensures
        after.tx_token_limit == limit,
        !after.tx_budget_exhausted,
        after.tx_exhausted == before.tx_exhausted,
        after.tx_tokens_issued == before.tx_tokens_issued,
        after.inner == before.inner,
        after.cx == before.cx,
        after.medium == before.medium,
{
}

/// What a reader makes of a frame is what it makes of the frame of the token.
pub proof fn law_reader_gets_the_frame<T: RxToken, R, F: FnOnce(&[u8]) -> R>(
    token: RxTokenAdapter<T>,
    read: F,
    result: R,
)
    requires
        call_ensures(RxTokenAdapter::<T>::consume::<R, F>, (token, read), result),
    ensures
        exists|frame: &[u8]| token.0.has_frame(frame@) && call_ensures(read, (frame,), result),
{
}

/// A writer gets the buffer that the token offers for a frame of its length.
pub proof fn law_writer_gets_the_buffer<T: TxToken, R, F: FnOnce(&mut [u8]) -> R>(
    token: TxTokenAdapter<T>,
    len: usize,
    write: F,
    result: R,
)
    requires
        call_ensures(TxTokenAdapter::<T>::consume::<R, F>, (token, len, write), result),
    ensures
        exists|buffer: &mut [u8]|
            token.0.offers_buffer(len, (*buffer)@) && call_ensures(write, (buffer,), result),
{
}

} // verus!
