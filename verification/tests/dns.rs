use std::sync::atomic::{AtomicUsize, Ordering};
use std::sync::Arc;
use std::task::{Wake, Waker};

use embassy_net::dns::{
    literal_answer, DnsProgress, DnsQuery, DnsQueryType, DnsStart, GetQueryResultError,
    StartQueryError,
};
use embassy_net::stack::{Inner, PollEvent, Stack};
use embassy_net::wire::{IpAddress, Ipv4Address, Ipv6Address};

struct Counter(AtomicUsize);

impl Wake for Counter {
    fn wake(self: Arc<Self>) {
        self.0.fetch_add(1, Ordering::SeqCst);
    }
}

fn counting_waker() -> (Arc<Counter>, Waker) {
    let counter = Arc::new(Counter(AtomicUsize::new(0)));
    (counter.clone(), Waker::from(counter))
}

fn wakes(counter: &Arc<Counter>) -> usize {
    counter.0.load(Ordering::SeqCst)
}

#[test]
fn a_literal_address_is_its_own_answer() {
    let ip4 = Ipv4Address { octets: [1, 2, 3, 4] };
    let ip6 = Ipv6Address { octets: [5; 16] };
    assert_eq!(
        literal_answer(DnsQueryType::A, Some(ip4), None),
        Some(IpAddress::Ipv4(ip4))
    );
    assert_eq!(
        literal_answer(DnsQueryType::Aaaa, None, Some(ip6)),
        Some(IpAddress::Ipv6(ip6))
    );
    assert_eq!(literal_answer(DnsQueryType::A, None, Some(ip6)), None);
    assert_eq!(literal_answer(DnsQueryType::Aaaa, Some(ip4), None), None);
    assert_eq!(literal_answer(DnsQueryType::Other, Some(ip4), Some(ip6)), None);
}

#[test]
fn a_query_waits_for_a_slot_and_then_for_its_answer() {
    let mut stack = Stack { inner: Inner::new() };
    let (first, first_waker) = counting_waker();
    let (second, second_waker) = counting_waker();

    let mut running = DnsQuery::Starting;
    let step = stack.dns_query_started::<u32, u8>(&mut running, Ok(1), &first_waker);
    assert_eq!(step, DnsStart::GetResult);
    assert_eq!(running, DnsQuery::Waiting(1));

    let mut waiting = DnsQuery::Starting;
    let step = stack.dns_query_started::<u32, u8>(
        &mut waiting,
        Err(StartQueryError::NoFreeSlot),
        &second_waker,
    );
    assert_eq!(step, DnsStart::Pending);
    assert_eq!(waiting, DnsQuery::Starting);

    let step: DnsProgress<&str, u8> =
        stack.dns_query_result(&mut running, Err(GetQueryResultError::Pending));
    assert_eq!(step, DnsProgress::Pending);
    assert_eq!(running, DnsQuery::Waiting(1));
    assert_eq!(wakes(&second), 0);

    let step: DnsProgress<&str, u8> = stack.dns_query_result(&mut running, Ok("answer"));
    assert_eq!(step, DnsProgress::Done(Ok("answer")));
    assert_eq!(running, DnsQuery::Finished);
    assert_eq!((wakes(&first), wakes(&second)), (0, 1));
    assert_eq!(stack.dns_query_dropped(&mut running), None);
    assert_eq!(wakes(&second), 1);
}

#[test]
fn errors_end_a_query() {
    let mut stack = Stack { inner: Inner::new() };
    let (waiter, waker) = counting_waker();
    let mut query: DnsQuery<u32> = DnsQuery::Starting;
    let step =
        stack.dns_query_started(&mut query, Err(StartQueryError::Other(7)), Waker::noop());
    assert_eq!(step, DnsStart::Failed(7));
    assert_eq!(query, DnsQuery::Finished);
    assert_eq!(stack.dns_query_dropped(&mut query), None);

    let mut other: DnsQuery<u32> = DnsQuery::Starting;
    stack.dns_query_started::<u32, u8>(&mut other, Err(StartQueryError::NoFreeSlot), &waker);
    let mut query = DnsQuery::Waiting(9);
    let step: DnsProgress<&str, u8> =
        stack.dns_query_result(&mut query, Err(GetQueryResultError::Other(8)));
    assert_eq!(step, DnsProgress::Done(Err(8)));
    assert_eq!(query, DnsQuery::Finished);
    assert_eq!(wakes(&waiter), 1);
}

#[test]
fn a_dropped_query_is_cancelled() {
    let mut stack = Stack { inner: Inner::new() };
    let (waiter, waker) = counting_waker();
    let (runner, runner_waker) = counting_waker();
    let mut other: DnsQuery<u32> = DnsQuery::Starting;
    stack.dns_query_started::<u32, u8>(&mut other, Err(StartQueryError::NoFreeSlot), &waker);
    assert_eq!(stack.dns_query_dropped(&mut other), None);
    assert_eq!(wakes(&waiter), 0);

    stack.inner.poll(PollEvent::Start, &runner_waker);
    let mut query = DnsQuery::Waiting(5);
    assert_eq!(stack.dns_query_dropped(&mut query), Some(5));
    assert_eq!(query, DnsQuery::Finished);
    assert_eq!((wakes(&waiter), wakes(&runner)), (1, 1));
    assert_eq!(stack.dns_query_dropped(&mut query), None);
}

#[test]
fn each_step_of_a_query_wakes_the_runner() {
    let mut stack = Stack { inner: Inner::new() };
    let (runner, waker) = counting_waker();
    let mut query: DnsQuery<u32> = DnsQuery::Starting;
    stack.inner.poll(PollEvent::Start, &waker);
    stack.dns_query_started::<u32, u8>(&mut query, Ok(1), Waker::noop());
    assert_eq!(wakes(&runner), 1);
    stack.inner.poll(PollEvent::Start, &waker);
    stack.dns_query_result::<u32, u8, u8>(&mut query, Err(GetQueryResultError::Pending));
    assert_eq!(wakes(&runner), 2);
}
