//! A driver that hands out tokens, seen as a device of the network stack.
//!
//! The adapter counts the transmit tokens that the driver issues, stops at the
//! limit of the current poll, and keeps apart two reasons for a refusal: that
//! the driver has no room, and that the limit is reached.
use vstd::prelude::*;

use core::task::Waker;

use crate::driver::{Capabilities, Checksum, HardwareAddress, PacketMeta, Timestamp};
use crate::egress::{
    EgressAdmission, EgressBurstGrant, EgressDemand, EgressDemandId, EgressDemandLevel,
    EgressDemandUpdate, EgressGrantCompletion, EgressGrantMode, EgressKey, EgressRoute,
    EgressSchedule,
};
use crate::nonzero::NonZeroU32;
use crate::phy;

verus! {

/// Permission to read one received frame.
pub trait RxToken: Sized {
    /// Whether this may be the received frame. An implementation can say more
    /// than that it may be any.
    open spec fn has_frame(&self, frame: Seq<u8>) -> bool {
        true
    }

    /// Whether the frame may have this metadata. An implementation can say more
    /// than that it may have any.
    open spec fn has_meta(&self, meta: PacketMeta) -> bool {
        true
    }

    /// The metadata of the frame.
    fn meta(&self) -> (meta: PacketMeta)
        ensures
            self.has_meta(meta),
    ;

    /// Hand the frame to `f`.
    fn consume<R, F: FnOnce(&mut [u8]) -> R>(self, f: F) -> (result: R)
        requires
            forall|frame: &mut [u8]| self.has_frame((*frame)@) ==> call_requires(f, (frame,)),
        ensures
            exists|frame: &mut [u8]|
                self.has_frame((*frame)@) && call_ensures(f, (frame,), result),
    ;
}

/// Permission to send one frame.
pub trait TxToken: Sized {
    /// Whether this may be what the buffer for a frame of `len` bytes holds. An
    /// implementation can say more than that it may hold anything.
    open spec fn offers_buffer(&self, len: usize, buffer: Seq<u8>) -> bool {
        true
    }

    /// Whether setting the metadata may lead from `before` to `after`. An
    /// implementation can say more than that it may lead anywhere.
    open spec fn takes_meta(before: &Self, meta: PacketMeta, after: &Self) -> bool {
        true
    }

    /// Set the metadata that the frame will be sent with.
    fn set_meta(&mut self, meta: PacketMeta)
        ensures
            Self::takes_meta(&*old(self), meta, &*final(self)),
    ;

    /// Let `f` write the frame, of `len` bytes, into a buffer, and send it.
    fn consume<R, F: FnOnce(&mut [u8]) -> R>(self, len: usize, f: F) -> (result: R)
        requires
            forall|buffer: &mut [u8]|
                self.offers_buffer(len, (*buffer)@) ==> call_requires(f, (buffer,)),
        ensures
            exists|buffer: &mut [u8]|
                self.offers_buffer(len, (*buffer)@) && call_ensures(f, (buffer,), result),
    ;
}

/// One call of a driver, with its arguments and what it returned.
pub ghost enum TokenCall<R, T> {
    Capabilities(Capabilities),
    Receive(Waker, Option<(R, T)>),
    Transmit(Waker, Option<T>),
    TransmitControl(Waker, Option<T>),
    EgressKey(EgressRoute, EgressKey),
    TransmitFor(Waker, EgressKey, EgressAdmission<T>),
    TransmitGranted(Waker, NonZeroU32, EgressAdmission<T>),
    EgressSchedule(Option<EgressSchedule>),
    UpdateEgressDemand(Waker, EgressDemandUpdate),
    PollEgressGrant(Waker, Option<EgressBurstGrant>),
    FinishEgressGrant(Waker, EgressGrantCompletion),
}

/// A driver that hands out a token for each frame.
///
/// Where a method takes a waker and cannot do what it is asked to, the driver
/// wakes it once it can.
pub trait TokenDriver: Sized {
    type RxToken: RxToken;

    type TxToken: TxToken;

    /// Whether the call may lead from `before` to `after`. An implementation can
    /// say more than that it may lead anywhere.
    open spec fn performs(
        before: Self,
        call: TokenCall<Self::RxToken, Self::TxToken>,
        after: Self,
    ) -> bool {
        true
    }

    /// Receive a frame. The second token is for an answer to it.
    fn receive(&mut self, cx: &Waker) -> (tokens: Option<(Self::RxToken, Self::TxToken)>)
        ensures
            Self::performs(*old(self), TokenCall::Receive(*cx, tokens), *final(self)),
    ;

    /// Get a token to send a frame.
    fn transmit(&mut self, cx: &Waker) -> (token: Option<Self::TxToken>)
        ensures
            Self::performs(*old(self), TokenCall::Transmit(*cx, token), *final(self)),
    ;

    /// Get a token to send a control frame, for which the driver may keep a
    /// reserve.
    fn transmit_control(&mut self, cx: &Waker) -> (token: Option<Self::TxToken>)
        ensures
            Self::performs(*old(self), TokenCall::TransmitControl(*cx, token), *final(self)),
    ;

    /// The key that the driver groups the frames of a route by.
    fn egress_key(&mut self, route: EgressRoute) -> (key: EgressKey)
        ensures
            Self::performs(*old(self), TokenCall::EgressKey(route, key), *final(self)),
    ;

    /// Get a token to send a frame of a key.
    fn transmit_for(&mut self, cx: &Waker, egress: EgressKey) -> (admission: EgressAdmission<
        Self::TxToken,
    >)
        ensures
            Self::performs(
                *old(self),
                TokenCall::TransmitFor(*cx, egress, admission),
                *final(self),
            ),
    ;

    /// Get a token to send a frame of a grant.
    fn transmit_granted(&mut self, cx: &Waker, grant_serial: NonZeroU32) -> (admission:
        EgressAdmission<Self::TxToken>)
        ensures
            Self::performs(
                *old(self),
                TokenCall::TransmitGranted(*cx, grant_serial, admission),
                *final(self),
            ),
    ;

    /// Get a description of the device's capabilities.
    fn capabilities(&self) -> (capabilities: Capabilities)
        ensures
            Self::performs(*self, TokenCall::Capabilities(capabilities), *self),
    ;

    /// How the driver wants its frames scheduled, if it cares.
    fn egress_schedule(&mut self) -> (schedule: Option<EgressSchedule>)
        ensures
            Self::performs(*old(self), TokenCall::EgressSchedule(schedule), *final(self)),
    ;

    /// Tell the driver what changed about the demands.
    fn update_egress_demand(&mut self, cx: &Waker, update: EgressDemandUpdate)
        ensures
            Self::performs(
                *old(self),
                TokenCall::UpdateEgressDemand(*cx, update),
                *final(self),
            ),
    ;

    /// Get the next grant of the driver.
    fn poll_egress_grant(&mut self, cx: &Waker) -> (grant: Option<EgressBurstGrant>)
        ensures
            Self::performs(*old(self), TokenCall::PollEgressGrant(*cx, grant), *final(self)),
    ;

    /// Tell the driver what became of a grant.
    fn finish_egress_grant(&mut self, cx: &Waker, completion: EgressGrantCompletion)
        ensures
            Self::performs(
                *old(self),
                TokenCall::FinishEgressGrant(*cx, completion),
                *final(self),
            ),
    ;
}

/// A borrowed driver behaves as the driver that it borrows.
impl<D: TokenDriver> TokenDriver for &mut D {
    type RxToken = D::RxToken;

    type TxToken = D::TxToken;

    open spec fn performs(
        before: Self,
        call: TokenCall<Self::RxToken, Self::TxToken>,
        after: Self,
    ) -> bool {
        D::performs(*before, call, *after)
    }

    fn receive(&mut self, cx: &Waker) -> (tokens: Option<(Self::RxToken, Self::TxToken)>) {
        D::receive(self, cx)
    }

    fn transmit(&mut self, cx: &Waker) -> (token: Option<Self::TxToken>) {
        D::transmit(self, cx)
    }

    fn transmit_control(&mut self, cx: &Waker) -> (token: Option<Self::TxToken>) {
        D::transmit_control(self, cx)
    }

    fn egress_key(&mut self, route: EgressRoute) -> (key: EgressKey) {
        D::egress_key(self, route)
    }

    fn transmit_for(&mut self, cx: &Waker, egress: EgressKey) -> (admission: EgressAdmission<
        Self::TxToken,
    >) {
        D::transmit_for(self, cx, egress)
    }

    fn transmit_granted(&mut self, cx: &Waker, grant_serial: NonZeroU32) -> (admission:
        EgressAdmission<Self::TxToken>) {
        D::transmit_granted(self, cx, grant_serial)
    }

    fn capabilities(&self) -> (capabilities: Capabilities) {
        D::capabilities(self)
    }

    fn egress_schedule(&mut self) -> (schedule: Option<EgressSchedule>) {
        D::egress_schedule(self)
    }

    fn update_egress_demand(&mut self, cx: &Waker, update: EgressDemandUpdate) {
        D::update_egress_demand(self, cx, update)
    }

    fn poll_egress_grant(&mut self, cx: &Waker) -> (grant: Option<EgressBurstGrant>) {
        D::poll_egress_grant(self, cx)
    }

    fn finish_egress_grant(&mut self, cx: &Waker, completion: EgressGrantCompletion) {
        D::finish_egress_grant(self, cx, completion)
    }
}

/// A receive token of a driver, for the stack.
pub struct RxTokenAdapter<T: RxToken>(pub T);

/// A transmit token of a driver, for the stack.
pub struct TxTokenAdapter<T: TxToken>(pub T);

impl<T: RxToken> RxTokenAdapter<T> {
    /// The metadata of the frame.
    pub fn meta(&self) -> (meta: phy::PacketMeta)
        ensures
            self.0.has_meta(embassy_net_meta(meta)),
    {
        into_xarxa_meta(self.0.meta())
    }

    /// Hand the frame to `f`.
    pub fn consume<R, F: FnOnce(&[u8]) -> R>(self, f: F) -> (result: R)
        requires
            forall|frame: &[u8]| self.0.has_frame(frame@) ==> call_requires(f, (frame,)),
        ensures
            exists|frame: &[u8]| self.0.has_frame(frame@) && call_ensures(f, (frame,), result),
    {
        let ghost token = self.0;
        let read = |frame: &mut [u8]| -> (result: R)
            requires
                token.has_frame((*frame)@),
            ensures
                exists|bytes: &[u8]| token.has_frame(bytes@) && call_ensures(f, (bytes,), result),
            { f(&*frame) };
        self.0.consume(read)
    }
}

impl<T: TxToken> TxTokenAdapter<T> {
    /// Set the metadata that the frame will be sent with.
    pub fn set_meta(&mut self, meta: phy::PacketMeta)
        ensures
            T::takes_meta(&old(self).0, embassy_net_meta(meta), &final(self).0),
    {
        self.0.set_meta(into_embassy_net_meta(meta));
    }

    /// Let `f` write the frame, of `len` bytes, into a buffer, and send it.
    pub fn consume<R, F: FnOnce(&mut [u8]) -> R>(self, len: usize, f: F) -> (result: R)
        requires
            forall|buffer: &mut [u8]|
                self.0.offers_buffer(len, (*buffer)@) ==> call_requires(f, (buffer,)),
        ensures
            exists|buffer: &mut [u8]|
                self.0.offers_buffer(len, (*buffer)@) && call_ensures(f, (buffer,), result),
    {
        self.0.consume(len, f)
    }
}

/// The token inside, if there is one.
pub open spec fn inner_token<T: TxToken>(token: Option<TxTokenAdapter<T>>) -> Option<T> {
    match token {
        Some(adapter) => Some(adapter.0),
        None => None,
    }
}

/// The answer of the driver that the stack sees as `admission`.
pub open spec fn inner_admission<T: TxToken>(
    admission: phy::EgressAdmission<TxTokenAdapter<T>>,
) -> EgressAdmission<T> {
    match admission {
        phy::EgressAdmission::Granted(adapter) => EgressAdmission::Granted(adapter.0),
        phy::EgressAdmission::GlobalExhausted => EgressAdmission::GlobalExhausted,
        phy::EgressAdmission::KeyDeferred => EgressAdmission::KeyDeferred,
    }
}

/// A token driver as a device of the network stack.
pub struct DriverAdapter<'c, T: TokenDriver> {
    /// Waker of the task that polls the stack. It must be set when frames are
    /// received or sent.
    pub cx: Option<&'c Waker>,
    pub inner: T,
    pub medium: phy::Medium,
    /// The driver refused a token since this was last taken.
    pub tx_exhausted: bool,
    /// Transmit tokens that the driver issued.
    pub tx_tokens_issued: u32,
    /// Number of issued tokens at which no further one is asked for.
    pub tx_token_limit: Option<u32>,
    /// A token was refused for the limit since it was last set or this was last
    /// taken.
    pub tx_budget_exhausted: bool,
}

impl<'c, T: TokenDriver> DriverAdapter<'c, T> {
    /// No further token may be asked for.
    pub open spec fn budget_spent(self) -> bool {
        self.tx_token_limit matches Some(limit) && self.tx_tokens_issued >= limit
    }

    /// The adapter after a request was refused for the limit. The driver was
    /// not asked.
    pub open spec fn after_refusal(self) -> Self {
        DriverAdapter { tx_budget_exhausted: true, ..self }
    }

    /// The adapter after its driver, now `inner`, issued a token.
    pub open spec fn after_grant(self, inner: T) -> Self {
        DriverAdapter {
            inner,
            tx_tokens_issued: if self.tx_tokens_issued < u32::MAX {
                (self.tx_tokens_issued + 1) as u32
            } else {
                u32::MAX
            },
            ..self
        }
    }

    /// The adapter after its driver, now `inner`, had no room.
    pub open spec fn after_exhaustion(self, inner: T) -> Self {
        DriverAdapter { inner, tx_exhausted: true, ..self }
    }

    /// The adapter after a call of its driver, now `inner`, that issues no
    /// token.
    pub open spec fn after_call(self, inner: T) -> Self {
        DriverAdapter { inner, ..self }
    }

    /// The adapter after its driver, now `inner`, answered a request for a
    /// token.
    pub open spec fn after_answer(self, inner: T, token: Option<TxTokenAdapter<T::TxToken>>) -> Self {
        if token is Some {
            self.after_grant(inner)
        } else {
            self.after_exhaustion(inner)
        }
    }

    /// The adapter after its driver, now `inner`, answered a request for a
    /// token of a key or of a grant.
    pub open spec fn after_admission(
        self,
        inner: T,
        admission: phy::EgressAdmission<TxTokenAdapter<T::TxToken>>,
    ) -> Self {
        match admission {
            phy::EgressAdmission::Granted(_) => self.after_grant(inner),
            phy::EgressAdmission::GlobalExhausted => self.after_exhaustion(inner),
            phy::EgressAdmission::KeyDeferred => self.after_call(inner),
        }
    }

    /// Whether the driver refused a token since this was last asked.
    pub fn take_tx_exhausted(&mut self) -> (exhausted: bool)
        ensures
            exhausted == old(self).tx_exhausted,
            *final(self) == (DriverAdapter { tx_exhausted: false, ..*old(self) }),
    {
        let exhausted = self.tx_exhausted;
        self.tx_exhausted = false;
        exhausted
    }

    /// Set the number of issued tokens at which no further one is asked for.
    pub fn set_tx_token_limit(&mut self, limit: Option<u32>)
        ensures
            *final(self) == (DriverAdapter {
                tx_token_limit: limit,
                tx_budget_exhausted: false,
                ..*old(self)
            }),
    {
        self.tx_token_limit = limit;
        self.tx_budget_exhausted = false;
    }

    /// Whether a token was refused for the limit since this was last asked.
    pub fn take_tx_budget_exhausted(&mut self) -> (exhausted: bool)
        ensures
            exhausted == old(self).tx_budget_exhausted,
            *final(self) == (DriverAdapter { tx_budget_exhausted: false, ..*old(self) }),
    {
        let exhausted = self.tx_budget_exhausted;
        self.tx_budget_exhausted = false;
        exhausted
    }

    /// Whether the limit refuses a token. It is noted that it did.
    fn refuse_for_budget(&mut self) -> (refused: bool)
        ensures
            refused == old(self).budget_spent(),
            *final(self) == if refused {
                old(self).after_refusal()
            } else {
                *old(self)
            },
    {
        match self.tx_token_limit {
            Some(limit) => if self.tx_tokens_issued >= limit {
                self.tx_budget_exhausted = true;
                true
            } else {
                false
            },
            None => false,
        }
    }

    /// Note what the driver answered to a request for a token.
    fn note_answer(&mut self, token: Option<T::TxToken>) -> (adapter: Option<
        TxTokenAdapter<T::TxToken>,
    >)
        ensures
            inner_token(adapter) == token,
            *final(self) == old(self).after_answer(old(self).inner, adapter),
    {
        match token {
            Some(token) => {
                self.tx_tokens_issued = self.tx_tokens_issued.saturating_add(1);
                Some(TxTokenAdapter(token))
            },
            None => {
                self.tx_exhausted = true;
                None
            },
        }
    }

    /// Note what the driver answered to a request for a token of a key or of a
    /// grant.
    fn note_admission(&mut self, admission: EgressAdmission<T::TxToken>) -> (adapter:
        phy::EgressAdmission<TxTokenAdapter<T::TxToken>>)
        ensures
            inner_admission(adapter) == admission,
            *final(self) == old(self).after_admission(old(self).inner, adapter),
    {
        match admission {
            EgressAdmission::Granted(token) => {
                self.tx_tokens_issued = self.tx_tokens_issued.saturating_add(1);
                phy::EgressAdmission::Granted(TxTokenAdapter(token))
            },
            EgressAdmission::GlobalExhausted => {
                self.tx_exhausted = true;
                phy::EgressAdmission::GlobalExhausted
            },
            EgressAdmission::KeyDeferred => phy::EgressAdmission::KeyDeferred,
        }
    }

    /// Receive a frame. The second token is for an answer to it.
    pub fn receive(&mut self) -> (tokens: Option<
        (RxTokenAdapter<T::RxToken>, TxTokenAdapter<T::TxToken>),
    >)
        requires
            old(self).cx is Some,
        ensures
            T::performs(
                old(self).inner,
                TokenCall::Receive(
                    *old(self).cx->0,
                    match tokens {
                        Some((rx, tx)) => Some((rx.0, tx.0)),
                        None => None,
                    },
                ),
                final(self).inner,
            ),
            *final(self) == old(self).after_call(final(self).inner),
    {
        let cx = self.cx.unwrap();
        match self.inner.receive(cx) {
            Some((rx, tx)) => Some((RxTokenAdapter(rx), TxTokenAdapter(tx))),
            None => None,
        }
    }

    /// Construct a transmit token.
    pub fn transmit(&mut self) -> (token: Option<TxTokenAdapter<T::TxToken>>)
        requires
            old(self).budget_spent() || old(self).cx is Some,
        ensures
            old(self).budget_spent() ==> token is None && *final(self) == old(
                self,
            ).after_refusal(),
            !old(self).budget_spent() ==> {
                &&& T::performs(
                    old(self).inner,
                    TokenCall::Transmit(*old(self).cx->0, inner_token(token)),
                    final(self).inner,
                )
                &&& *final(self) == old(self).after_answer(final(self).inner, token)
            },
    {
        if self.refuse_for_budget() {
            return None;
        }
        let cx = self.cx.unwrap();
        let token = self.inner.transmit(cx);
        self.note_answer(token)
    }

    /// Construct a transmit token for a control frame.
    pub fn transmit_control(&mut self) -> (token: Option<TxTokenAdapter<T::TxToken>>)
        requires
            old(self).budget_spent() || old(self).cx is Some,
        ensures
            old(self).budget_spent() ==> token is None && *final(self) == old(
                self,
            ).after_refusal(),
            !old(self).budget_spent() ==> {
                &&& T::performs(
                    old(self).inner,
                    TokenCall::TransmitControl(*old(self).cx->0, inner_token(token)),
                    final(self).inner,
                )
                &&& *final(self) == old(self).after_answer(final(self).inner, token)
            },
    {
        if self.refuse_for_budget() {
            return None;
        }
        let cx = self.cx.unwrap();
        let token = self.inner.transmit_control(cx);
        self.note_answer(token)
    }

    /// The key that the driver groups the frames of a route by. There is none
    /// for an address of a kind that drivers do not know: the stack then makes
    /// the key itself.
    pub fn egress_key(&mut self, route: phy::EgressRoute) -> (key: Option<phy::EgressKey>)
        ensures
            match driver_address(route.destination) {
                None => key is None && *final(self) == *old(self),
                Some(destination) => {
                    &&& key is Some
                    &&& T::performs(
                        old(self).inner,
                        TokenCall::EgressKey(
                            EgressRoute { destination, traffic_class: route.traffic_class },
                            driver_key(key->0),
                        ),
                        final(self).inner,
                    )
                    &&& *final(self) == old(self).after_call(final(self).inner)
                },
            },
    {
        let destination = match route.destination {
            phy::EgressHardwareAddress::Ethernet(address) => HardwareAddress::Ethernet(address),
            phy::EgressHardwareAddress::Ieee802154(address) => HardwareAddress::Ieee802154(address),
            phy::EgressHardwareAddress::Ip => HardwareAddress::Ip,
            phy::EgressHardwareAddress::Unknown => {
                return None;
            },
        };
        let key = self.inner.egress_key(
            EgressRoute { destination, traffic_class: route.traffic_class },
        );
        Some(phy::EgressKey { words: key.words })
    }

    /// Construct a transmit token for a frame of a key.
    pub fn transmit_for(&mut self, egress: phy::EgressKey) -> (admission: phy::EgressAdmission<
        TxTokenAdapter<T::TxToken>,
    >)
        requires
            old(self).budget_spent() || old(self).cx is Some,
        ensures
            old(self).budget_spent() ==> admission is GlobalExhausted && *final(self) == old(
                self,
            ).after_refusal(),
            !old(self).budget_spent() ==> {
                &&& T::performs(
                    old(self).inner,
                    TokenCall::TransmitFor(
                        *old(self).cx->0,
                        driver_key(egress),
                        inner_admission(admission),
                    ),
                    final(self).inner,
                )
                &&& *final(self) == old(self).after_admission(final(self).inner, admission)
            },
    {
        if self.refuse_for_budget() {
            return phy::EgressAdmission::GlobalExhausted;
        }
        let cx = self.cx.unwrap();
        let request = EgressKey { words: egress.words };
        let admission = self.inner.transmit_for(cx, request);
        self.note_admission(admission)
    }

    /// Construct a transmit token for a frame of a grant.
    pub fn transmit_granted(&mut self, grant_serial: NonZeroU32) -> (admission:
        phy::EgressAdmission<TxTokenAdapter<T::TxToken>>)
        requires
            old(self).budget_spent() || old(self).cx is Some,
        ensures
            old(self).budget_spent() ==> admission is GlobalExhausted && *final(self) == old(
                self,
            ).after_refusal(),
            !old(self).budget_spent() ==> {
                &&& T::performs(
                    old(self).inner,
                    TokenCall::TransmitGranted(
                        *old(self).cx->0,
                        grant_serial,
                        inner_admission(admission),
                    ),
                    final(self).inner,
                )
                &&& *final(self) == old(self).after_admission(final(self).inner, admission)
            },
    {
        if self.refuse_for_budget() {
            return phy::EgressAdmission::GlobalExhausted;
        }
        let cx = self.cx.unwrap();
        let admission = self.inner.transmit_granted(cx, grant_serial);
        self.note_admission(admission)
    }

    /// Get a description of device capabilities. The medium is the one of the
    /// adapter.
    pub fn capabilities(&self) -> (capabilities: phy::DeviceCapabilities)
        ensures
            exists|caps: Capabilities|
                #[trigger] T::performs(self.inner, TokenCall::Capabilities(caps), self.inner)
                    && capabilities == device_capabilities(self.medium, caps),
    {
        let caps = self.inner.capabilities();
        assert(T::performs(self.inner, TokenCall::Capabilities(caps), self.inner));
        phy::DeviceCapabilities {
            medium: self.medium.to_driver(),
            max_transmission_unit: caps.max_transmission_unit,
            max_burst_size: caps.max_burst_size,
            checksum: phy::ChecksumCapabilities {
                ipv4: convert_checksum(caps.checksum.ipv4),
                udp: convert_checksum(caps.checksum.udp),
                tcp: convert_checksum(caps.checksum.tcp),
                icmpv4: convert_checksum(caps.checksum.icmpv4),
                icmpv6: convert_checksum(caps.checksum.icmpv6),
            },
        }
    }

    /// How the driver wants its frames scheduled, if it cares.
    pub fn egress_schedule(&mut self) -> (schedule: Option<phy::EgressSchedule>)
        ensures
            T::performs(
                old(self).inner,
                TokenCall::EgressSchedule(
                    match schedule {
                        Some(schedule) => Some(driver_schedule(schedule)),
                        None => None,
                    },
                ),
                final(self).inner,
            ),
            *final(self) == old(self).after_call(final(self).inner),
    {
        match self.inner.egress_schedule() {
            Some(schedule) => Some(
                phy::EgressSchedule {
                    max_packets_per_key: schedule.max_packets_per_key,
                    dispatch_quantum: schedule.dispatch_quantum,
                    epoch: schedule.epoch,
                    grant_mode: match schedule.grant_mode {
                        EgressGrantMode::StackSelected => phy::EgressGrantMode::StackSelected,
                        EgressGrantMode::Shadow => phy::EgressGrantMode::Shadow,
                        EgressGrantMode::Authoritative => phy::EgressGrantMode::Authoritative,
                    },
                },
            ),
            None => None,
        }
    }

    /// Tell the driver what changed about the demands.
    pub fn update_egress_demand(&mut self, update: phy::EgressDemandUpdate)
        requires
            old(self).cx is Some,
        ensures
            T::performs(
                old(self).inner,
                TokenCall::UpdateEgressDemand(*old(self).cx->0, driver_update(update)),
                final(self).inner,
            ),
            *final(self) == old(self).after_call(final(self).inner),
    {
        let update = match update {
            phy::EgressDemandUpdate::Reset { schedule_epoch } => EgressDemandUpdate::Reset {
                schedule_epoch,
            },
            phy::EgressDemandUpdate::Active(demand) => EgressDemandUpdate::Active(
                EgressDemand {
                    id: convert_demand_id(demand.id),
                    key: EgressKey { words: demand.key.words },
                    level: convert_demand_level(demand.level),
                },
            ),
            phy::EgressDemandUpdate::Inactive { id, key } => EgressDemandUpdate::Inactive {
                id: convert_demand_id(id),
                key: EgressKey { words: key.words },
            },
        };
        let cx = self.cx.unwrap();
        self.inner.update_egress_demand(cx, update);
    }

    /// Get the next grant of the driver.
    pub fn poll_egress_grant(&mut self) -> (grant: Option<phy::EgressBurstGrant>)
        requires
            old(self).cx is Some,
        ensures
            T::performs(
                old(self).inner,
                TokenCall::PollEgressGrant(
                    *old(self).cx->0,
                    match grant {
                        Some(grant) => Some(driver_grant(grant)),
                        None => None,
                    },
                ),
                final(self).inner,
            ),
            *final(self) == old(self).after_call(final(self).inner),
    {
        let cx = self.cx.unwrap();
        match self.inner.poll_egress_grant(cx) {
            Some(grant) => Some(
                phy::EgressBurstGrant {
                    serial: grant.serial,
                    demand: phy::EgressDemand {
                        id: phy::EgressDemandId {
                            schedule_epoch: grant.demand.id.schedule_epoch,
                            activation: grant.demand.id.activation,
                        },
                        key: phy::EgressKey { words: grant.demand.key.words },
                        level: phy::EgressDemandLevel {
                            ready_units: grant.demand.level.ready_units,
                            horizon_ready: grant.demand.level.horizon_ready,
                        },
                    },
                    frame_credits: grant.frame_credits,
                    airtime_hundred_nanoseconds: grant.airtime_hundred_nanoseconds,
                },
            ),
            None => None,
        }
    }

    /// Tell the driver what became of a grant.
    pub fn finish_egress_grant(&mut self, completion: phy::EgressGrantCompletion)
        requires
            old(self).cx is Some,
        ensures
            T::performs(
                old(self).inner,
                TokenCall::FinishEgressGrant(*old(self).cx->0, driver_completion(completion)),
                final(self).inner,
            ),
            *final(self) == old(self).after_call(final(self).inner),
    {
        let cx = self.cx.unwrap();
        self.inner.finish_egress_grant(
            cx,
            EgressGrantCompletion {
                serial: completion.serial,
                used_frames: completion.used_frames,
                remaining: match completion.remaining {
                    Some(remaining) => Some(convert_demand_level(remaining)),
                    None => None,
                },
            },
        );
    }
}

/// The same directions, as the stack names them.
pub open spec fn phy_checksum(checksum: Checksum) -> phy::Checksum {
    match checksum {
        Checksum::Both => phy::Checksum::Both,
        Checksum::Tx => phy::Checksum::Tx,
        Checksum::Rx => phy::Checksum::Rx,
        Checksum::Neither => phy::Checksum::Neither,
    }
}

/// The same capabilities, as the stack names them, but for the medium.
pub open spec fn device_capabilities(
    medium: phy::Medium,
    caps: Capabilities,
) -> phy::DeviceCapabilities {
    phy::DeviceCapabilities {
        medium: medium.spec_to_driver(),
        max_transmission_unit: caps.max_transmission_unit,
        max_burst_size: caps.max_burst_size,
        checksum: phy::ChecksumCapabilities {
            ipv4: phy_checksum(caps.checksum.ipv4),
            udp: phy_checksum(caps.checksum.udp),
            tcp: phy_checksum(caps.checksum.tcp),
            icmpv4: phy_checksum(caps.checksum.icmpv4),
            icmpv6: phy_checksum(caps.checksum.icmpv6),
        },
    }
}

fn convert_checksum(checksum: Checksum) -> (converted: phy::Checksum)
    ensures
        converted == phy_checksum(checksum),
{
    match checksum {
        Checksum::Both => phy::Checksum::Both,
        Checksum::Tx => phy::Checksum::Tx,
        Checksum::Rx => phy::Checksum::Rx,
        Checksum::Neither => phy::Checksum::Neither,
    }
}

/// The same address, as a driver names it, if it is of a kind that drivers
/// know.
pub open spec fn driver_address(address: phy::EgressHardwareAddress) -> Option<HardwareAddress> {
    match address {
        phy::EgressHardwareAddress::Ethernet(address) => Some(HardwareAddress::Ethernet(address)),
        phy::EgressHardwareAddress::Ieee802154(address) => Some(
            HardwareAddress::Ieee802154(address),
        ),
        phy::EgressHardwareAddress::Ip => Some(HardwareAddress::Ip),
        phy::EgressHardwareAddress::Unknown => None,
    }
}

/// The same key, as a driver names it.
pub open spec fn driver_key(key: phy::EgressKey) -> EgressKey {
    EgressKey { words: key.words }
}

/// The same grant mode, as a driver names it.
pub open spec fn driver_grant_mode(mode: phy::EgressGrantMode) -> EgressGrantMode {
    match mode {
        phy::EgressGrantMode::StackSelected => EgressGrantMode::StackSelected,
        phy::EgressGrantMode::Shadow => EgressGrantMode::Shadow,
        phy::EgressGrantMode::Authoritative => EgressGrantMode::Authoritative,
    }
}

/// The same schedule, as a driver names it.
pub open spec fn driver_schedule(schedule: phy::EgressSchedule) -> EgressSchedule {
    EgressSchedule {
        max_packets_per_key: schedule.max_packets_per_key,
        dispatch_quantum: schedule.dispatch_quantum,
        epoch: schedule.epoch,
        grant_mode: driver_grant_mode(schedule.grant_mode),
    }
}

/// The same identity, as a driver names it.
pub open spec fn driver_demand_id(id: phy::EgressDemandId) -> EgressDemandId {
    EgressDemandId { schedule_epoch: id.schedule_epoch, activation: id.activation }
}

fn convert_demand_id(id: phy::EgressDemandId) -> (converted: EgressDemandId)
    ensures
        converted == driver_demand_id(id),
{
    EgressDemandId { schedule_epoch: id.schedule_epoch, activation: id.activation }
}

/// The same level, as a driver names it.
pub open spec fn driver_demand_level(level: phy::EgressDemandLevel) -> EgressDemandLevel {
    EgressDemandLevel { ready_units: level.ready_units, horizon_ready: level.horizon_ready }
}

fn convert_demand_level(level: phy::EgressDemandLevel) -> (converted: EgressDemandLevel)
    ensures
        converted == driver_demand_level(level),
{
    EgressDemandLevel { ready_units: level.ready_units, horizon_ready: level.horizon_ready }
}

/// The same demand, as a driver names it.
pub open spec fn driver_demand(demand: phy::EgressDemand) -> EgressDemand {
    EgressDemand {
        id: driver_demand_id(demand.id),
        key: driver_key(demand.key),
        level: driver_demand_level(demand.level),
    }
}

/// The same update, as a driver names it.
pub open spec fn driver_update(update: phy::EgressDemandUpdate) -> EgressDemandUpdate {
    match update {
        phy::EgressDemandUpdate::Reset { schedule_epoch } => EgressDemandUpdate::Reset {
            schedule_epoch,
        },
        phy::EgressDemandUpdate::Active(demand) => EgressDemandUpdate::Active(
            driver_demand(demand),
        ),
        phy::EgressDemandUpdate::Inactive { id, key } => EgressDemandUpdate::Inactive {
            id: driver_demand_id(id),
            key: driver_key(key),
        },
    }
}

/// The same grant, as a driver names it.
pub open spec fn driver_grant(grant: phy::EgressBurstGrant) -> EgressBurstGrant {
    EgressBurstGrant {
        serial: grant.serial,
        demand: driver_demand(grant.demand),
        frame_credits: grant.frame_credits,
        airtime_hundred_nanoseconds: grant.airtime_hundred_nanoseconds,
    }
}

/// The same completion, as a driver names it.
pub open spec fn driver_completion(completion: phy::EgressGrantCompletion) -> EgressGrantCompletion {
    EgressGrantCompletion {
        serial: completion.serial,
        used_frames: completion.used_frames,
        remaining: match completion.remaining {
            Some(remaining) => Some(driver_demand_level(remaining)),
            None => None,
        },
    }
}

/// The same clock reading, as the stack names it.
pub open spec fn xarxa_timestamp(timestamp: Timestamp) -> phy::Timestamp {
    phy::Timestamp { seconds: timestamp.seconds, quarter_nanos: timestamp.quarter_nanos }
}

/// The same clock reading, as a driver names it.
pub open spec fn embassy_net_timestamp(timestamp: phy::Timestamp) -> Timestamp {
    Timestamp { seconds: timestamp.seconds, quarter_nanos: timestamp.quarter_nanos }
}

/// The same metadata, as the stack names it.
pub open spec fn xarxa_meta(meta: PacketMeta) -> phy::PacketMeta {
    phy::PacketMeta {
        id: meta.id,
        timestamp: match meta.timestamp {
            Some(timestamp) => Some(xarxa_timestamp(timestamp)),
            None => None,
        },
        request_timestamp: meta.request_timestamp,
    }
}

/// The same metadata, as a driver names it.
pub open spec fn embassy_net_meta(meta: phy::PacketMeta) -> PacketMeta {
    PacketMeta {
        id: meta.id,
        timestamp: match meta.timestamp {
            Some(timestamp) => Some(embassy_net_timestamp(timestamp)),
            None => None,
        },
        request_timestamp: meta.request_timestamp,
    }
}

/// The same clock reading, as the stack names it.
pub fn into_xarxa_timestamp(timestamp: Timestamp) -> (converted: phy::Timestamp)
    ensures
        converted == xarxa_timestamp(timestamp),
{
    phy::Timestamp { seconds: timestamp.seconds, quarter_nanos: timestamp.quarter_nanos }
}

/// The same metadata, as the stack names it.
pub fn into_xarxa_meta(meta: PacketMeta) -> (converted: phy::PacketMeta)
    ensures
        converted == xarxa_meta(meta),
{
    phy::PacketMeta {
        id: meta.id,
        timestamp: match meta.timestamp {
            Some(timestamp) => Some(into_xarxa_timestamp(timestamp)),
            None => None,
        },
        request_timestamp: meta.request_timestamp,
    }
}

/// The same clock reading, as a driver names it.
pub fn into_embassy_net_timestamp(timestamp: phy::Timestamp) -> (converted: Timestamp)
    ensures
        converted == embassy_net_timestamp(timestamp),
{
    Timestamp { seconds: timestamp.seconds, quarter_nanos: timestamp.quarter_nanos }
}

/// The same metadata, as a driver names it.
pub fn into_embassy_net_meta(meta: phy::PacketMeta) -> (converted: PacketMeta)
    ensures
        converted == embassy_net_meta(meta),
{
    PacketMeta {
        id: meta.id,
        timestamp: match meta.timestamp {
            Some(timestamp) => Some(into_embassy_net_timestamp(timestamp)),
            None => None,
        },
        request_timestamp: meta.request_timestamp,
    }
}

/// Metadata crosses between driver and stack without loss, in both directions.
pub proof fn law_meta_round_trip(driver_side: PacketMeta, stack_side: phy::PacketMeta)
    ensures
        embassy_net_meta(xarxa_meta(driver_side)) == driver_side,
        xarxa_meta(embassy_net_meta(stack_side)) == stack_side,
{
}

/// Updates, grants and completions cross between stack and driver without loss:
/// what is the same to the driver is the same to the stack.
pub proof fn law_egress_crosses_losslessly(
    update: phy::EgressDemandUpdate,
    other_update: phy::EgressDemandUpdate,
    grant: phy::EgressBurstGrant,
    other_grant: phy::EgressBurstGrant,
    completion: phy::EgressGrantCompletion,
    other_completion: phy::EgressGrantCompletion,
    schedule: phy::EgressSchedule,
    other_schedule: phy::EgressSchedule,
)
    ensures
        driver_update(update) == driver_update(other_update) ==> update == other_update,
        driver_grant(grant) == driver_grant(other_grant) ==> grant == other_grant,
        driver_completion(completion) == driver_completion(other_completion) ==> completion
            == other_completion,
        driver_schedule(schedule) == driver_schedule(other_schedule) ==> schedule == other_schedule,
{
}

/// A refusal for the limit is not an exhaustion of the driver, nor the other
/// way round: each leaves the mark of the other, and the count, as it was. A
/// refusal for the limit leaves the driver itself as it was.
pub proof fn law_refusals_stay_distinct<T: TokenDriver>(adapter: DriverAdapter<'_, T>, inner: T)
    ensures
        adapter.after_refusal().tx_exhausted == adapter.tx_exhausted,
        adapter.after_refusal().inner == adapter.inner,
        adapter.after_refusal().tx_tokens_issued == adapter.tx_tokens_issued,
        adapter.after_exhaustion(inner).tx_budget_exhausted == adapter.tx_budget_exhausted,
        adapter.after_exhaustion(inner).tx_tokens_issued == adapter.tx_tokens_issued,
{
}

/// While the limit refuses no token, a granted token keeps the count within the
/// limit, and it is spent exactly when the count reaches it.
pub proof fn law_tokens_stay_within_limit<T: TokenDriver>(
    adapter: DriverAdapter<'_, T>,
    inner: T,
    limit: u32,
)
    requires
        adapter.tx_token_limit == Some(limit),
        !adapter.budget_spent(),
    ensures
        adapter.after_grant(inner).tx_tokens_issued == adapter.tx_tokens_issued + 1,
        adapter.after_grant(inner).tx_tokens_issued <= limit,
        adapter.after_grant(inner).budget_spent() <==> adapter.tx_tokens_issued + 1 == limit,
{
}

} // verus!
