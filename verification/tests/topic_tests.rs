use mq_ipc::codec::decode_arrival;
use mq_ipc::codec::typed_msg;
use mq_ipc::msg::{shutdown_sentinel, Msg, MSG_PAYLOAD_SIZE, MSG_TYPE_SHUTDOWN};
use mq_ipc::samples::PairMsg;
use mq_ipc::topic::{
    dispatch_step, ensure_fits, validate_name, DispatchAction, ReceiveEvent, TopicError,
};

#[test]
fn empty_name_is_a_validation_error() {
    assert_eq!(validate_name(""), Err(TopicError::Validation));
}

#[test]
fn embedded_null_is_a_validation_error() {
    assert_eq!(validate_name("/a\0b"), Err(TopicError::Validation));
}

#[test]
fn ordinary_names_validate() {
    assert_eq!(validate_name("/t1"), Ok(()));
    assert_eq!(validate_name("/motor/state"), Ok(()));
}

#[test]
fn fitting_sizes_pass_the_configuration_check() {
    assert_eq!(ensure_fits(8), Ok(()));
    assert_eq!(ensure_fits(MSG_PAYLOAD_SIZE), Ok(()));
}

#[test]
fn oversized_types_are_a_configuration_error() {
    assert_eq!(ensure_fits(MSG_PAYLOAD_SIZE + 1), Err(TopicError::Configuration));
}

#[test]
fn resource_errors_carry_the_os_code() {
    let e = TopicError::Resource(11);
    assert_eq!(e, TopicError::Resource(11));
    assert_ne!(e, TopicError::Resource(13));
}

#[test]
fn sentinel_after_shutdown_exits_the_loop() {
    let sentinel = shutdown_sentinel();
    assert_eq!(sentinel.hdr.msg_type, MSG_TYPE_SHUTDOWN);
    assert_eq!(sentinel.hdr.len, 0);
    let action = dispatch_step(false, ReceiveEvent::Message(sentinel, 0));
    assert_eq!(action, DispatchAction::Exit);
}

#[test]
fn shutdown_completes_without_pending_messages_or_subscribers() {
    // Even when nothing but the sentinel ever arrives, every receive
    // outcome after shutdown leads out of the loop.
    assert_eq!(dispatch_step(false, ReceiveEvent::Interrupted), DispatchAction::Exit);
    assert_eq!(dispatch_step(false, ReceiveEvent::Closed), DispatchAction::Exit);
    assert_eq!(dispatch_step(false, ReceiveEvent::Failed(5)), DispatchAction::Exit);
    let action = dispatch_step(false, ReceiveEvent::Message(shutdown_sentinel(), 0));
    assert_eq!(action, DispatchAction::Exit);
}

#[test]
fn sentinel_while_running_is_delivered() {
    let sentinel = shutdown_sentinel();
    let action = dispatch_step(true, ReceiveEvent::Message(sentinel.clone(), 0));
    assert_eq!(action, DispatchAction::Deliver(sentinel));
}

#[test]
fn interrupted_receive_retries_while_running() {
    assert_eq!(dispatch_step(true, ReceiveEvent::Interrupted), DispatchAction::Retry);
}

#[test]
fn failed_receive_retries_while_running() {
    assert_eq!(dispatch_step(true, ReceiveEvent::Failed(75)), DispatchAction::Retry);
}

#[test]
fn closed_queue_always_exits() {
    assert_eq!(dispatch_step(true, ReceiveEvent::Closed), DispatchAction::Exit);
}

#[test]
fn messages_are_delivered_unchanged_while_running() {
    let m = Msg::new(1, &[1, 2, 3]);
    let action = dispatch_step(true, ReceiveEvent::Message(m.clone(), 4));
    assert_eq!(action, DispatchAction::Deliver(m));
}

#[test]
fn dispatch_preserves_the_order_the_queue_hands_back() {
    let first = Msg::new(1, &[1]);
    let second = Msg::new(1, &[2]);
    let third = Msg::new(1, &[3]);
    let events = vec![
        ReceiveEvent::Message(first.clone(), 9),
        ReceiveEvent::Interrupted,
        ReceiveEvent::Message(second.clone(), 0),
        ReceiveEvent::Message(third.clone(), 0),
    ];

    let mut delivered: Vec<Msg> = Vec::new();
    for ev in events {
        match dispatch_step(true, ev) {
            DispatchAction::Deliver(m) => delivered.push(m),
            DispatchAction::Retry => continue,
            DispatchAction::Exit => break,
        }
    }

    assert_eq!(delivered, vec![first, second, third]);
}

#[test]
fn publish_then_dispatch_delivers_exactly_one_matching_message() {
    // Topic "/t1", capacity 4: a recorder subscribed before the publish
    // observes exactly one message, decoding to the published value.
    assert_eq!(validate_name("/t1"), Ok(()));
    assert_eq!(ensure_fits(8), Ok(()));

    let published = PairMsg { a: 10, b: 20 };
    let on_queue = typed_msg(&published, 1);

    let mut recorder: Vec<PairMsg> = Vec::new();
    match dispatch_step(true, ReceiveEvent::Message(on_queue, 0)) {
        DispatchAction::Deliver(m) => recorder.push(decode_arrival(&m)),
        other => panic!("expected a delivery, got {:?}", other),
    }

    assert_eq!(recorder.len(), 1, "expected exactly one received message");
    assert_eq!(recorder[0], PairMsg { a: 10, b: 20 });
}
