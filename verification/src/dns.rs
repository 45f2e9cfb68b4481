//! The course of a DNS query.
//!
//! A query waits for a free slot of the DNS client, then for its answer. A
//! query that is given up before its answer came is cancelled, so that its
//! slot is free again.
use vstd::prelude::*;

use core::task::Waker;

use crate::stack::Stack;
use crate::wire::{IpAddress, Ipv4Address, Ipv6Address};

verus! {

/// What a DNS query asks for.
#[derive(Clone, Copy, Debug, PartialEq, Eq, Structural)]
pub enum DnsQueryType {
    /// IPv4 addresses.
    A,
    /// IPv6 addresses.
    Aaaa,
    /// Anything else.
    Other,
}

/// Why the DNS client did not start a query.
#[derive(Debug, PartialEq, Eq)]
pub enum StartQueryError<E> {
    /// All of its query slots are taken.
    NoFreeSlot,
    /// Another error.
    Other(E),
}

/// Why the DNS client has no result of a query.
#[derive(Debug, PartialEq, Eq)]
pub enum GetQueryResultError<E> {
    /// The answer has not come yet.
    Pending,
    /// Another error.
    Other(E),
}

/// How far a query has come. `H` is the handle by which the DNS client knows it.
#[derive(Debug, PartialEq, Eq)]
pub enum DnsQuery<H> {
    /// The DNS client has not started it yet.
    Starting,
    /// It has a slot of the DNS client, and waits for its answer.
    Waiting(H),
    /// It is over, and has no slot.
    Finished,
}

/// What to do after the DNS client was asked to start a query.
#[derive(Debug, PartialEq, Eq)]
pub enum DnsStart<E> {
    /// Ask for the result.
    GetResult,
    /// Ask again when the waker is woken.
    Pending,
    /// Give up with this error.
    Failed(E),
}

/// What to do after the DNS client was asked for the result of a query.
#[derive(Debug, PartialEq, Eq)]
pub enum DnsProgress<A, E> {
    /// Register the waker with the query, and ask again when it is woken.
    Pending,
    /// The query is over.
    Done(Result<A, E>),
}

/// The answer to a query for a name that is just an IP address of the kind that
/// the query asks for. `as_ipv4` and `as_ipv6` are what the name says when it
/// is read as an address.
pub open spec fn spec_literal_answer(
    qtype: DnsQueryType,
    as_ipv4: Option<Ipv4Address>,
    as_ipv6: Option<Ipv6Address>,
) -> Option<IpAddress> {
    match (qtype, as_ipv4, as_ipv6) {
        (DnsQueryType::A, Some(ip), _) => Some(IpAddress::Ipv4(ip)),
        (DnsQueryType::Aaaa, _, Some(ip)) => Some(IpAddress::Ipv6(ip)),
        _ => None,
    }
}

/// For A and AAAA queries, the address that the name already is, if it is one.
pub fn literal_answer(
    qtype: DnsQueryType,
    as_ipv4: Option<Ipv4Address>,
    as_ipv6: Option<Ipv6Address>,
) -> (answer: Option<IpAddress>)
    ensures
        answer == spec_literal_answer(qtype, as_ipv4, as_ipv6),
{
    match qtype {
        DnsQueryType::A => match as_ipv4 {
            Some(ip) => Some(IpAddress::Ipv4(ip)),
            None => None,
        },
        DnsQueryType::Aaaa => match as_ipv6 {
            Some(ip) => Some(IpAddress::Ipv6(ip)),
            None => None,
        },
        DnsQueryType::Other => None,
    }
}

/// The query after the DNS client was asked to start it.
pub open spec fn after_start<H, E>(started: Result<H, StartQueryError<E>>) -> DnsQuery<H> {
    match started {
        Ok(handle) => DnsQuery::Waiting(handle),
        Err(StartQueryError::NoFreeSlot) => DnsQuery::Starting,
        Err(StartQueryError::Other(_)) => DnsQuery::Finished,
    }
}

/// What to do after the DNS client was asked to start a query.
pub open spec fn start_step<H, E>(started: Result<H, StartQueryError<E>>) -> DnsStart<E> {
    match started {
        Ok(_) => DnsStart::GetResult,
        Err(StartQueryError::NoFreeSlot) => DnsStart::Pending,
        Err(StartQueryError::Other(error)) => DnsStart::Failed(error),
    }
}

/// What to do after the DNS client was asked for the result of a query.
pub open spec fn result_step<A, E>(result: Result<A, GetQueryResultError<E>>) -> DnsProgress<
    A,
    E,
> {
    match result {
        Ok(answer) => DnsProgress::Done(Ok(answer)),
        Err(GetQueryResultError::Pending) => DnsProgress::Pending,
        Err(GetQueryResultError::Other(error)) => DnsProgress::Done(Err(error)),
    }
}

/// The query after the DNS client was asked for its result.
pub open spec fn after_result<H, A, E>(
    query: DnsQuery<H>,
    result: Result<A, GetQueryResultError<E>>,
) -> DnsQuery<H> {
    if result_step(result) is Pending {
        query
    } else {
        DnsQuery::Finished
    }
}

impl Stack {
    /// Take in the answer of the DNS client to the request to start a query.
    ///
    /// Where it has no free slot, `waker` waits for one. The runner is woken to
    /// process what changed.
    pub fn dns_query_started<H, E>(
        &mut self,
        query: &mut DnsQuery<H>,
        started: Result<H, StartQueryError<E>>,
        waker: &Waker,
    ) -> (step: DnsStart<E>)
        requires
            *old(query) is Starting,
        ensures
            step == start_step(started),
            *final(query) == after_start(started),
            old(self)@.dns_start_leads_to(step is Pending, *waker, final(self)@),
    {
        let step = match started {
            Ok(handle) => {
                *query = DnsQuery::Waiting(handle);
                DnsStart::GetResult
            },
            Err(StartQueryError::NoFreeSlot) => {
                self.inner.wait_dns_slot(waker);
                DnsStart::Pending
            },
            Err(StartQueryError::Other(error)) => {
                *query = DnsQuery::Finished;
                DnsStart::Failed(error)
            },
        };
        self.inner.wake_runner();
        step
    }

    /// Take in the answer of the DNS client to the request for the result of a
    /// query.
    ///
    /// Where the query is over, its slot is free, and whoever waits for one is
    /// woken. The runner is woken to process what changed.
    pub fn dns_query_result<H, A, E>(
        &mut self,
        query: &mut DnsQuery<H>,
        result: Result<A, GetQueryResultError<E>>,
    ) -> (step: DnsProgress<A, E>)
        requires
            *old(query) is Waiting,
        ensures
            step == result_step(result),
            *final(query) == after_result(*old(query), result),
            final(self)@ == if step is Pending {
                old(self)@.after_runner_wake()
            } else {
                old(self)@.after_dns_slot_freed()
            },
    {
        let step = match result {
            Ok(answer) => {
                self.inner.wake_dns_waiter();
                *query = DnsQuery::Finished;
                DnsProgress::Done(Ok(answer))
            },
            Err(GetQueryResultError::Pending) => DnsProgress::Pending,
            Err(GetQueryResultError::Other(error)) => {
                self.inner.wake_dns_waiter();
                *query = DnsQuery::Finished;
                DnsProgress::Done(Err(error))
            },
        };
        self.inner.wake_runner();
        step
    }

    /// Give up a query. The result is the handle to cancel with the DNS client,
    /// if the query has a slot.
    ///
    /// Where it has, whoever waits for a slot is woken, and so is the runner.
    pub fn dns_query_dropped<H: Copy>(&mut self, query: &mut DnsQuery<H>) -> (cancel: Option<H>)
        ensures
            cancel == match *old(query) {
                DnsQuery::Waiting(handle) => Some(handle),
                _ => None,
            },
            *final(query) is Finished,
            final(self)@ == if cancel is Some {
                old(self)@.after_dns_slot_freed()
            } else {
                old(self)@
            },
    {
        let cancel = match *query {
            DnsQuery::Waiting(handle) => Some(handle),
            _ => None,
        };
        *query = DnsQuery::Finished;
        if cancel.is_some() {
            self.inner.wake_dns_waiter();
            self.inner.wake_runner();
        }
        cancel
    }
}

/// What happens to a query.
pub ghost enum DnsQueryEvent<H, A, E> {
    /// The DNS client answered the request to start it.
    Started(Result<H, StartQueryError<E>>),
    /// The DNS client answered the request for its result.
    Answered(Result<A, GetQueryResultError<E>>),
    /// It was given up.
    Dropped,
}

/// The query after an event.
pub open spec fn after_event<H, A, E>(
    query: DnsQuery<H>,
    event: DnsQueryEvent<H, A, E>,
) -> DnsQuery<H> {
    match event {
        DnsQueryEvent::Started(started) => after_start(started),
        DnsQueryEvent::Answered(result) => after_result(query, result),
        DnsQueryEvent::Dropped => DnsQuery::Finished,
    }
}

/// The query after the events, oldest first.
pub open spec fn after_events<H, A, E>(events: Seq<DnsQueryEvent<H, A, E>>) -> DnsQuery<H>
    decreases events.len(),
{
    if events.len() == 0 {
        DnsQuery::Starting
    } else {
        after_event(after_events(events.drop_last()), events.last())
    }
}

/// The events come in an order in which a query can see them.
pub open spec fn in_order<H, A, E>(events: Seq<DnsQueryEvent<H, A, E>>) -> bool
    decreases events.len(),
{
    events.len() == 0 || {
        &&& in_order(events.drop_last())
        &&& match events.last() {
            DnsQueryEvent::Started(_) => after_events(events.drop_last()) is Starting,
            DnsQueryEvent::Answered(_) => after_events(events.drop_last()) is Waiting,
            DnsQueryEvent::Dropped => true,
        }
    }
}

/// How often the events took a slot of the DNS client.
pub open spec fn slots_taken<H, A, E>(events: Seq<DnsQueryEvent<H, A, E>>) -> nat
    decreases events.len(),
{
    if events.len() == 0 {
        0
    } else {
        slots_taken(events.drop_last()) + if events.last() matches DnsQueryEvent::Started(Ok(_)) {
            1nat
        } else {
            0nat
        }
    }
}

/// How often the events freed a slot of the DNS client, by the end of the query
/// or by cancelling it.
pub open spec fn slots_freed<H, A, E>(events: Seq<DnsQueryEvent<H, A, E>>) -> nat
    decreases events.len(),
{
    if events.len() == 0 {
        0
    } else {
        let before = after_events(events.drop_last());
        slots_freed(events.drop_last()) + match events.last() {
            DnsQueryEvent::Started(_) => 0nat,
            DnsQueryEvent::Answered(result) => if result_step(result) is Done {
                1nat
            } else {
                0nat
            },
            DnsQueryEvent::Dropped => if before is Waiting {
                1nat
            } else {
                0nat
            },
        }
    }
}

/// A query takes at most one slot of the DNS client, and frees it exactly once:
/// it holds a slot exactly while it waits for its answer, and none when it is
/// over.
pub proof fn law_query_frees_its_slot_once<H, A, E>(events: Seq<DnsQueryEvent<H, A, E>>)
    requires
        in_order(events),
    ensures
        slots_taken(events) <= 1,
        after_events(events) is Starting ==> slots_taken(events) == 0 && slots_freed(events) == 0,
        after_events(events) is Waiting ==> slots_taken(events) == 1 && slots_freed(events) == 0,
        after_events(events) is Finished ==> slots_freed(events) == slots_taken(events),
    decreases events.len(),
{
    if events.len() > 0 {
        law_query_frees_its_slot_once(events.drop_last());
    }
}

} // verus!
