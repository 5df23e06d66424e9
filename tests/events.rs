use reth_node_core_runtime::events::{EventHub, HubError, HubPoll};

#[test]
fn per_source_order_is_preserved() {
    let mut hub: EventHub<u32> = EventHub::new();
    let a = hub.add_source();
    let b = hub.add_source();
    for i in 0..5 {
        hub.push(a, 100 + i).unwrap();
    }
    for i in 0..3 {
        hub.push(b, 200 + i).unwrap();
    }
    let mut from_a = Vec::new();
    let mut from_b = Vec::new();
    loop {
        match hub.poll() {
            HubPoll::Ready { source, event } => {
                if source == a {
                    from_a.push(event)
                } else {
                    from_b.push(event)
                }
            }
            HubPoll::Pending => break,
            HubPoll::Terminated => panic!("sources are open"),
        }
    }
    assert_eq!(from_a, vec![100, 101, 102, 103, 104]);
    assert_eq!(from_b, vec![200, 201, 202]);
}

#[test]
fn sources_are_served_in_turn() {
    let mut hub: EventHub<u32> = EventHub::new();
    let a = hub.add_source();
    let b = hub.add_source();
    hub.push(a, 1).unwrap();
    hub.push(a, 2).unwrap();
    hub.push(b, 3).unwrap();
    assert_eq!(hub.poll(), HubPoll::Ready { source: a, event: 1 });
    assert_eq!(hub.poll(), HubPoll::Ready { source: b, event: 3 });
    assert_eq!(hub.poll(), HubPoll::Ready { source: a, event: 2 });
}

#[test]
fn one_source_ending_does_not_end_the_hub() {
    let mut hub: EventHub<u32> = EventHub::new();
    let a = hub.add_source();
    let b = hub.add_source();
    hub.push(a, 1).unwrap();
    hub.close(a).unwrap();
    assert_eq!(hub.push(a, 2), Err(HubError::SourceClosed));
    assert_eq!(hub.poll(), HubPoll::Ready { source: a, event: 1 });
    assert_eq!(hub.poll(), HubPoll::Pending);
    hub.push(b, 7).unwrap();
    assert_eq!(hub.poll(), HubPoll::Ready { source: b, event: 7 });
    hub.close(b).unwrap();
    assert_eq!(hub.poll(), HubPoll::Terminated);
    assert_eq!(hub.push(9, 1), Err(HubError::UnknownSource));
    assert_eq!(hub.close(9), Err(HubError::UnknownSource));
}

#[test]
fn hub_without_sources_is_terminated() {
    let mut hub: EventHub<u32> = EventHub::new();
    assert_eq!(hub.poll(), HubPoll::Terminated);
}

