use webrtc_signaling::relay::{
    Channel, Connection, Delivery, Frame, Listener, Relay, Role, SocketEvent, Step,
    BACKLOG_CAPACITY,
};

fn text(frame: &str) -> SocketEvent {
    SocketEvent::Frame(Frame::Text(frame.to_string()))
}

#[test]
fn peer_of_each_role_is_the_other() {
    assert_eq!(Role::Backend.peer(), Role::Frontend);
    assert_eq!(Role::Frontend.peer(), Role::Backend);
}

#[test]
fn backlog_capacity_is_sixteen() {
    assert_eq!(BACKLOG_CAPACITY, 16);
}

#[test]
fn frontend_receives_what_backend_sent_unchanged() {
    let mut relay = Relay::new();
    let frontend = relay.accept(Listener::paired(Role::Frontend));
    let backend = relay.accept(Listener::paired(Role::Backend));
    let offer = "{\"type\":\"webrtc_offer\",\"data\":{\"session_id\":1,\"webrtc_data\":{\"sdp\":\"v=0...\"}}}";
    assert_eq!(relay.on_socket_event(backend, text(offer)), Step::Continue);
    assert_eq!(relay.next_text(frontend), Some(offer.to_string()));
    assert_eq!(relay.next_text(frontend), None);
    assert_eq!(relay.next_text(backend), None);
}

#[test]
fn backend_receives_what_frontend_sent() {
    let mut relay = Relay::new();
    let frontend = relay.accept(Listener::paired(Role::Frontend));
    let backend = relay.accept(Listener::paired(Role::Backend));
    relay.on_socket_event(frontend, text("not even json"));
    assert_eq!(relay.receive(backend), Some(Delivery::Message("not even json".to_string())));
    assert_eq!(relay.receive(backend), Some(Delivery::Empty));
    assert_eq!(relay.receive(frontend), Some(Delivery::Empty));
}

#[test]
fn every_connection_of_the_other_role_gets_every_message_in_order() {
    let mut relay = Relay::new();
    let first = relay.accept(Listener::paired(Role::Frontend));
    let second = relay.accept(Listener::paired(Role::Frontend));
    let backend = relay.accept(Listener::paired(Role::Backend));
    let other_backend = relay.accept(Listener::paired(Role::Backend));
    relay.on_socket_event(backend, text("one"));
    relay.on_socket_event(other_backend, text("two"));
    relay.on_socket_event(backend, text("three"));
    for connection in [first, second] {
        assert_eq!(relay.next_text(connection), Some("one".to_string()));
        assert_eq!(relay.next_text(connection), Some("two".to_string()));
        assert_eq!(relay.next_text(connection), Some("three".to_string()));
        assert_eq!(relay.next_text(connection), None);
    }
    assert_eq!(relay.next_text(backend), None);
    assert_eq!(relay.next_text(other_backend), None);
}

#[test]
fn connection_gets_only_what_is_sent_after_it_was_accepted() {
    let mut relay = Relay::new();
    let backend = relay.accept(Listener::paired(Role::Backend));
    relay.on_socket_event(backend, text("early"));
    let frontend = relay.accept(Listener::paired(Role::Frontend));
    relay.on_socket_event(backend, text("late"));
    assert_eq!(relay.next_text(frontend), Some("late".to_string()));
    assert_eq!(relay.next_text(frontend), None);
}

#[test]
fn frames_that_are_not_text_are_ignored() {
    let mut relay = Relay::new();
    let frontend = relay.accept(Listener::paired(Role::Frontend));
    let backend = relay.accept(Listener::paired(Role::Backend));
    assert_eq!(relay.on_socket_event(backend, SocketEvent::Frame(Frame::Other)), Step::Continue);
    assert_eq!(relay.receive(frontend), Some(Delivery::Empty));
}

#[test]
fn socket_error_closes_only_that_connection() {
    let mut relay = Relay::new();
    let first = relay.accept(Listener::paired(Role::Frontend));
    let second = relay.accept(Listener::paired(Role::Frontend));
    let backend = relay.accept(Listener::paired(Role::Backend));
    assert_eq!(relay.on_socket_event(first, SocketEvent::Error), Step::Stop);
    relay.on_socket_event(backend, text("still here"));
    assert_eq!(relay.receive(first), None);
    assert_eq!(relay.next_text(first), None);
    assert_eq!(relay.next_text(second), Some("still here".to_string()));
    assert_eq!(relay.on_socket_event(second, SocketEvent::Closed), Step::Stop);
    assert_eq!(relay.receive(second), None);
    relay.on_socket_event(second, text("from a closed one"));
    assert_eq!(relay.next_text(backend), Some("from a closed one".to_string()));
}

#[test]
fn connection_ids_count_up_for_each_role() {
    let mut relay = Relay::new();
    let frontend = Listener::paired(Role::Frontend);
    let backend = Listener::paired(Role::Backend);
    assert_eq!(relay.accept(frontend), Connection { listener: frontend, subscriber: 0 });
    assert_eq!(relay.accept(backend), Connection { listener: backend, subscriber: 0 });
    assert_eq!(relay.accept(frontend), Connection { listener: frontend, subscriber: 1 });
    assert_eq!(relay.receive(Connection { listener: frontend, subscriber: 2 }), None);
}

#[test]
fn paired_listeners_forward_to_each_other() {
    let relay = Relay::new();
    assert_eq!(
        relay.listen(Role::Backend),
        Listener { role: Role::Backend, forward: Role::Backend, subscribe: Role::Frontend }
    );
    assert_eq!(
        relay.listen(Role::Frontend),
        Listener { role: Role::Frontend, forward: Role::Frontend, subscribe: Role::Backend }
    );
    assert_eq!(relay.listen(Role::Backend), Listener::paired(Role::Backend));
}

#[test]
fn listener_of_a_single_role_echoes_to_every_connection() {
    let mut relay = Relay::new();
    let listener = Listener::alone(Role::Frontend);
    assert_eq!(
        listener,
        Listener { role: Role::Frontend, forward: Role::Frontend, subscribe: Role::Frontend }
    );
    let first = relay.accept(listener);
    let second = relay.accept(listener);
    relay.on_socket_event(first, text("to all"));
    assert_eq!(relay.next_text(first), Some("to all".to_string()));
    assert_eq!(relay.next_text(second), Some("to all".to_string()));
    assert_eq!(relay.next_text(first), None);
}

#[test]
fn seventeen_messages_to_a_backlog_of_sixteen_drop_the_oldest() {
    let mut relay = Relay::new();
    let frontend = relay.accept(Listener::paired(Role::Frontend));
    let backend = relay.accept(Listener::paired(Role::Backend));
    for i in 0..17 {
        relay.on_socket_event(backend, text(&format!("message {}", i)));
    }
    assert_eq!(relay.receive(frontend), Some(Delivery::Lagged(1)));
    let mut read = Vec::new();
    while let Some(Delivery::Message(message)) = relay.receive(frontend) {
        read.push(message);
    }
    let expected: Vec<String> = (1..17).map(|i| format!("message {}", i)).collect();
    assert_eq!(read.len(), 16);
    assert_eq!(read, expected);
    assert_eq!(relay.receive(frontend), Some(Delivery::Empty));
}

#[test]
fn handler_passes_over_the_report_of_dropped_messages() {
    let mut relay = Relay::with_capacity(2);
    let frontend = relay.accept(Listener::paired(Role::Frontend));
    let backend = relay.accept(Listener::paired(Role::Backend));
    for frame in ["a", "b", "c", "d", "e"] {
        relay.on_socket_event(backend, text(frame));
    }
    assert_eq!(relay.next_text(frontend), Some("d".to_string()));
    assert_eq!(relay.next_text(frontend), Some("e".to_string()));
    assert_eq!(relay.next_text(frontend), None);
}

#[test]
fn subscriber_counts_what_it_lost_since_the_last_read() {
    let mut channel = Channel::new(4);
    let id = channel.subscribe();
    for frame in ["a", "b", "c", "d"] {
        channel.publish(&frame.to_string());
    }
    assert_eq!(channel.receive(id), Some(Delivery::Message("a".to_string())));
    for frame in ["e", "f", "g"] {
        channel.publish(&frame.to_string());
    }
    assert_eq!(channel.receive(id), Some(Delivery::Lagged(2)));
    assert_eq!(channel.receive(id), Some(Delivery::Message("d".to_string())));
    assert_eq!(channel.receive(id), Some(Delivery::Message("e".to_string())));
    assert_eq!(channel.receive(id), Some(Delivery::Message("f".to_string())));
    assert_eq!(channel.receive(id), Some(Delivery::Message("g".to_string())));
    assert_eq!(channel.receive(id), Some(Delivery::Empty));
    assert_eq!(channel.receive(id), Some(Delivery::Empty));
}

fn unread_after(capacity: usize, published: usize) -> (u64, usize) {
    let mut channel = Channel::new(capacity);
    let id = channel.subscribe();
    for i in 0..published {
        channel.publish(&format!("{}", i));
    }
    let mut lost = 0;
    let mut read = 0;
    loop {
        match channel.receive(id) {
            Some(Delivery::Lagged(missed)) => lost += missed,
            Some(Delivery::Message(message)) => {
                assert_eq!(message, format!("{}", lost as usize + read));
                read += 1;
            }
            _ => break,
        }
    }
    (lost, read)
}

#[test]
fn capacity_is_the_next_power_of_two() {
    assert_eq!(unread_after(1, 10), (9, 1));
    assert_eq!(unread_after(2, 10), (8, 2));
    assert_eq!(unread_after(3, 10), (6, 4));
    assert_eq!(unread_after(4, 10), (6, 4));
    assert_eq!(unread_after(5, 10), (2, 8));
    assert_eq!(unread_after(8, 10), (2, 8));
    assert_eq!(unread_after(9, 40), (24, 16));
    assert_eq!(unread_after(16, 40), (24, 16));
    assert_eq!(unread_after(17, 40), (8, 32));
    assert_eq!(unread_after(16, 16), (0, 16));
}

#[test]
fn message_without_a_subscriber_is_gone() {
    let mut channel = Channel::new(4);
    channel.publish(&"nobody listens".to_string());
    let first = channel.subscribe();
    channel.unsubscribe(first);
    channel.publish(&"nobody listens again".to_string());
    let second = channel.subscribe();
    assert_eq!(channel.receive(second), Some(Delivery::Empty));
    channel.publish(&"now".to_string());
    assert_eq!(channel.receive(second), Some(Delivery::Message("now".to_string())));
    assert_eq!(channel.receive(first), None);
}

#[test]
fn channel_of_one_role_echoes_to_all_its_subscribers() {
    let mut channel = Channel::new(4);
    let first = channel.subscribe();
    let second = channel.subscribe();
    channel.publish(&"hello".to_string());
    channel.unsubscribe(first);
    channel.publish(&"again".to_string());
    assert_eq!(channel.receive(first), None);
    assert_eq!(channel.receive(second), Some(Delivery::Message("hello".to_string())));
    assert_eq!(channel.receive(second), Some(Delivery::Message("again".to_string())));
    assert_eq!(channel.receive(second), Some(Delivery::Empty));
    assert_eq!(channel.receive(7), None);
    channel.unsubscribe(7);
    assert_eq!(channel.subscribe(), 2);
}

#[test]
fn reads_between_publications_get_each_message_once_and_in_order() {
    let mut channel = Channel::new(2);
    let id = channel.subscribe();
    let mut read = Vec::new();
    let mut lost = 0;
    let mut next = 0;
    for burst in [1, 3, 0, 2, 5, 1] {
        for _ in 0..burst {
            channel.publish(&format!("{}", next));
            next += 1;
        }
        match channel.receive(id) {
            Some(Delivery::Message(message)) => read.push(message),
            Some(Delivery::Lagged(missed)) => lost += missed,
            _ => {}
        }
    }
    loop {
        match channel.receive(id) {
            Some(Delivery::Message(message)) => read.push(message),
            Some(Delivery::Lagged(missed)) => lost += missed,
            _ => break,
        }
    }
    let numbers: Vec<u64> = read.iter().map(|message| message.parse().unwrap()).collect();
    assert!(numbers.windows(2).all(|pair| pair[0] < pair[1]));
    assert_eq!(numbers, vec![0, 2, 10, 11]);
    assert_eq!(lost, 8);
    assert_eq!(numbers.len() as u64 + lost, 12);
}
