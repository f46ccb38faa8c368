#![allow(non_snake_case)]

use std::sync::mpsc::{self, TryRecvError};

use mcm_proxy::channel::Poll;
use mcm_proxy::error::MCManageError;
use mcm_proxy::intercom::{ConsoleStep, DispatchOutcome, InterCom, InterComError};
use mcm_proxy::message::{Message, MessageType};

fn bound_intercom() -> (InterCom, mpsc::Sender<Message>, mpsc::Receiver<Message>) {
    let (ic_tx, console_rx) = mpsc::channel::<Message>();
    let (console_tx, ic_rx) = mpsc::channel::<Message>();
    let mut intercom = InterCom::new(ic_tx, ic_rx);
    intercom.set_communicator();
    (intercom, console_tx, console_rx)
}

fn check_valid_chars(myInterCom: &mut InterCom) {
    match myInterCom.add_handler('r') {
        Ok(r) => {
            let id = r.0;
            assert!(myInterCom.contains_handler(&format!("{id}")), "The given id {} is missing in the handler_list.", format!("{id}"));
            assert!(myInterCom.has_channels(&format!("{id}")), "The given key {} is missing in handlers.", format!("{id}"));
        }
        Err(e) => {
            assert!(false, "{:?}", e);
        }
    }
    match myInterCom.add_handler('c') {
        Ok(r) => {
            let id = r.0;
            assert!(myInterCom.contains_handler(&format!("{id}")), "The given id {} is missing in the handler_list.", format!("{id}"));
            assert!(myInterCom.has_channels(&format!("{id}")), "The given key {} is missing in handlers.", format!("{id}"));
        }
        Err(e) => {
            assert!(false, "{:?}", e);
        }
    }
}

fn check_invalid_chars(myInterCom: &mut InterCom) {
    for c in ['d', ' '] {
        match myInterCom.add_handler(c) {
            Ok(r) => {
                let id = r.0;
                assert!(!myInterCom.contains_handler(&format!("{id}")), "The invalid id {} was found in the handler_list.", format!("{id}"));
                assert!(!myInterCom.has_channels(&format!("{id}")), "The invalid key {} was found in handlers.", format!("{id}"));
            }
            Err(e) => match e {
                InterComError::InvalidType(_) => assert!(true),
                _ => assert!(false, "{:?}", e),
            },
        }
    }
}

fn check_remove_existing(myInterCom: &mut InterCom) {
    let (id, _, _) = myInterCom.add_handler('r').unwrap();
    match myInterCom.remove_handler(&id.clone()) {
        Ok(_) => {
            assert!(!myInterCom.contains_handler(&format!("{id}")), "The given id {} is still in the handler_list.", format!("{id}"));
            assert!(!myInterCom.has_channels(&format!("{id}")), "The given key {} is still in handlers.", format!("{id}"));
        }
        Err(e) => {
            assert!(false, "{:?}", e);
        }
    }
}

fn check_remove_nonexisting(myInterCom: &mut InterCom) {
    match myInterCom.remove_handler(&"r6".to_owned()) {
        Ok(_) => {
            assert!(false, "Expected the error: InterComError::IDNotFound.");
        }
        Err(e) => match e {
            InterComError::IDNotFound(_) => assert!(true),
            _ => assert!(false, "Expected the error: InterComError::IDNotFound. Found: {e:?}"),
        },
    }
}

fn check_remove_invalid(myInterCom: &mut InterCom) {
    for id in ["d0", " "] {
        match myInterCom.remove_handler(&id.to_owned()) {
            Ok(_) => {
                assert!(false, "Expected the error: InterComError::InvalidType.");
            }
            Err(e) => match e {
                InterComError::InvalidType(_) => assert!(true),
                _ => assert!(false, "Expected the error: InterComError::InvalidType. Found: {e:?}"),
            },
        }
    }
}

#[test]
fn tests_InterCom__add_handler__valid_chars() {
    let (mut myInterCom, _tx, _rx) = bound_intercom();
    check_valid_chars(&mut myInterCom);
}
#[test]
fn intercom_InterCom__add_handler__valid_chars() {
    let (mut myInterCom, _tx, _rx) = bound_intercom();
    check_valid_chars(&mut myInterCom);
}
#[test]
fn tests_InterCom__add_handler__invalid_chars() {
    let (mut myInterCom, _tx, _rx) = bound_intercom();
    check_invalid_chars(&mut myInterCom);
}
#[test]
fn intercom_InterCom__add_handler__invalid_chars() {
    let (mut myInterCom, _tx, _rx) = bound_intercom();
    check_invalid_chars(&mut myInterCom);
}
#[test]
fn tests_InterCom__remove_handler__existing_id() {
    let (mut myInterCom, _tx, _rx) = bound_intercom();
    check_remove_existing(&mut myInterCom);
}
#[test]
fn intercom_InterCom__remove_handler__existing_id() {
    let (mut myInterCom, _tx, _rx) = bound_intercom();
    check_remove_existing(&mut myInterCom);
}
#[test]
fn tests_InterCom__remove_handler__nonexisting_id() {
    let (mut myInterCom, _tx, _rx) = bound_intercom();
    check_remove_nonexisting(&mut myInterCom);
}
#[test]
fn intercom_InterCom__remove_handler__nonexisting_id() {
    let (mut myInterCom, _tx, _rx) = bound_intercom();
    check_remove_nonexisting(&mut myInterCom);
}
#[test]
fn tests_InterCom__remove_handler__invalid_id() {
    let (mut myInterCom, _tx, _rx) = bound_intercom();
    check_remove_invalid(&mut myInterCom);
}
#[test]
fn intercom_InterCom__remove_handler__invalid_id() {
    let (mut myInterCom, _tx, _rx) = bound_intercom();
    check_remove_invalid(&mut myInterCom);
}

#[test]
fn tests_InterCom__start() {
    let (mut myInterCom, _tx, _rx) = bound_intercom();
    myInterCom.start().unwrap();
    assert_eq!(myInterCom.is_alive(), true, "Expected `alive` field to be set to `true`.");
    myInterCom.stop();
}
#[test]
fn intercom_InterCom__start() {
    let (mut myInterCom, _tx, _rx) = bound_intercom();
    myInterCom.start().unwrap();
    assert_eq!(myInterCom.is_alive(), true, "Expected `alive` field to be set to `true`.");
    myInterCom.stop();
}
#[test]
fn tests_InterCom__stop() {
    let (mut myInterCom, _tx, _rx) = bound_intercom();
    myInterCom.start().unwrap();
    myInterCom.stop();
    assert_eq!(myInterCom.is_alive(), false, "Expected `alive` field to be set to `false`.");
}
#[test]
fn intercom_InterCom__stop() {
    let (mut myInterCom, _tx, _rx) = bound_intercom();
    myInterCom.start().unwrap();
    myInterCom.stop();
    assert_eq!(myInterCom.is_alive(), false, "Expected `alive` field to be set to `false`.");
}

fn check_console_to_handler() {
    let (mut myInterCom, tx, _rx) = bound_intercom();
    myInterCom.start().unwrap();

    let (id1, _placeholder1, rx1) = myInterCom.add_handler('c').unwrap();
    let (id2, _placeholder2, rx2) = myInterCom.add_handler('c').unwrap();
    assert_eq!(id1, "c0");
    assert_eq!(id2, "c1");

    tx.send(Message::new("test message to client 1", MessageType::Request, "", &id1, vec![])).unwrap();
    tx.send(Message::new("test message to client 2", MessageType::Request, "", &id2, vec![])).unwrap();

    assert_eq!(myInterCom.dispatch_once().1, DispatchOutcome::Continue);
    assert_eq!(myInterCom.dispatch_once().1, DispatchOutcome::Continue);

    match rx1.try_recv() {
        Ok(data) => assert_eq!(data.command(), &"test message to client 1".to_owned(), "Client 1 received the wrong message."),
        Err(_) => assert!(false, "The Message 1 did not get received by client 1"),
    }
    match rx2.try_recv() {
        Ok(data) => assert_eq!(data.command(), &"test message to client 2".to_owned(), "Client 2 received the wrong message."),
        Err(_) => assert!(false, "The Message 2 did not get received by client 2"),
    }
    assert_eq!(rx1.try_recv().err(), Some(TryRecvError::Empty));
    assert_eq!(rx2.try_recv().err(), Some(TryRecvError::Empty));

    myInterCom.stop();
}

#[test]
fn tests_InterCom__Console_to_handler() {
    check_console_to_handler();
}
#[test]
fn intercom_InterCom__Console_to_handler() {
    check_console_to_handler();
}

fn check_handler_to_console() {
    let (mut myInterCom, _tx, rx) = bound_intercom();
    myInterCom.start().unwrap();

    let (id1, tx1, _placeholder2) = myInterCom.add_handler('c').unwrap();
    let (id2, tx2, _placeholder3) = myInterCom.add_handler('c').unwrap();

    tx1.send(Message::new("test message from client 1", MessageType::Request, &id1, "some_thread", vec![])).unwrap();
    tx2.send(Message::new("test message from client 2", MessageType::Request, "", &id2, vec![])).unwrap();

    assert_eq!(myInterCom.dispatch_once().1, DispatchOutcome::Continue);

    match rx.try_recv() {
        Ok(data) => assert_eq!(data.command(), &"test message from client 1".to_owned(), "Console received the wrong message."),
        Err(_) => assert!(false, "The Message 1 did not get received by Console"),
    }
    match rx.try_recv() {
        Ok(data) => assert_eq!(data.command(), &"test message from client 2".to_owned(), "Console received the wrong message."),
        Err(_) => assert!(false, "The Message 2 did not get received by Console"),
    }

    myInterCom.stop();
}

#[test]
fn tests_InterCom__handler_to_Console() {
    check_handler_to_console();
}
#[test]
fn intercom_InterCom__handler_to_Console() {
    check_handler_to_console();
}

#[test]
fn registry_ids_are_smallest_free_per_type() {
    let (mut ic, _tx, _rx) = bound_intercom();
    let ids: Vec<String> = ['c', 'r', 'c', 'c', 'r'].iter().map(|t| ic.add_handler(*t).unwrap().0).collect();
    assert_eq!(ids, vec!["c0", "r0", "c1", "c2", "r1"]);
    ic.remove_handler("c1").unwrap();
    assert_eq!(ic.add_handler('c').unwrap().0, "c1");
    assert_eq!(ic.add_handler('c').unwrap().0, "c3");
    assert_eq!(ic.handler_count(), 6);
}

#[test]
fn registry_ids_go_past_nine() {
    let (mut ic, _tx, _rx) = bound_intercom();
    let mut last = String::new();
    for _ in 0..12 {
        last = ic.add_handler('r').unwrap().0;
    }
    assert_eq!(last, "r11");
    assert!(ic.contains_handler("r10"));
    assert!(ic.has_channels("r10"));
}

#[test]
fn registry_removing_twice_reports_not_found() {
    let (mut ic, _tx, _rx) = bound_intercom();
    let (id, _, _) = ic.add_handler('c').unwrap();
    assert!(ic.remove_handler(&id).is_ok());
    match ic.remove_handler(&id) {
        Err(InterComError::IDNotFound(found)) => assert_eq!(found, id),
        other => assert!(false, "expected IDNotFound, found {other:?}"),
    }
    match ic.remove_handler("") {
        Err(InterComError::InvalidType(c)) => assert_eq!(c, ' '),
        other => assert!(false, "expected InvalidType, found {other:?}"),
    }
}

#[test]
fn registry_not_bound_is_not_ready() {
    let (ic_tx, _console_rx) = mpsc::channel::<Message>();
    let (_console_tx, ic_rx) = mpsc::channel::<Message>();
    let mut ic = InterCom::new(ic_tx, ic_rx);
    match ic.add_handler('r') {
        Err(InterComError::MCManageError(MCManageError::NotReady)) => {}
        other => assert!(false, "expected NotReady, found {other:?}"),
    }
    match ic.remove_handler("r0") {
        Err(InterComError::MCManageError(MCManageError::NotReady)) => {}
        other => assert!(false, "expected NotReady, found {other:?}"),
    }
    assert_eq!(ic.start(), Err(MCManageError::NotReady));
    assert!(!ic.is_alive());
}

#[test]
fn registry_drops_messages_for_unknown_receivers() {
    let (mut ic, tx, _rx) = bound_intercom();
    let (_id, _to_registry, from_registry) = ic.add_handler('c').unwrap();
    tx.send(Message::new("lost", MessageType::Request, "", "c7", vec![])).unwrap();
    match ic.route_console() {
        ConsoleStep::Dropped(id) => assert_eq!(id, "c7"),
        other => assert!(false, "expected Dropped, found {other:?}"),
    }
    assert_eq!(from_registry.try_recv().err(), Some(TryRecvError::Empty));
    match ic.route_console() {
        ConsoleStep::Idle => {}
        other => assert!(false, "expected Idle, found {other:?}"),
    }
}

#[test]
fn registry_reaps_disconnected_handlers() {
    let (mut ic, _tx, _rx) = bound_intercom();
    let (id0, to_registry0, _from0) = ic.add_handler('r').unwrap();
    let (id1, _to_registry1, _from1) = ic.add_handler('r').unwrap();
    drop(to_registry0);
    assert_eq!(ic.dispatch_once().1, DispatchOutcome::Continue);
    assert!(!ic.contains_handler(&id0));
    assert!(!ic.has_channels(&id0));
    assert!(ic.contains_handler(&id1));
    assert_eq!(ic.add_handler('r').unwrap().0, "r0");
}

#[test]
fn registry_stops_owner_when_console_is_gone() {
    let (ic_tx, _console_rx) = mpsc::channel::<Message>();
    let (console_tx, ic_rx) = mpsc::channel::<Message>();
    let mut ic = InterCom::new(ic_tx, ic_rx);
    ic.set_communicator();
    drop(console_tx);
    assert_eq!(ic.dispatch_once().1, DispatchOutcome::StopOwner);
}

#[test]
fn registry_keeps_per_handler_order() {
    let (mut ic, _tx, rx) = bound_intercom();
    let (_id0, tx0, _r0) = ic.add_handler('c').unwrap();
    let (_id1, tx1, _r1) = ic.add_handler('c').unwrap();
    tx0.send(Message::new("a1", MessageType::Request, "c0", "", vec![])).unwrap();
    tx0.send(Message::new("a2", MessageType::Request, "c0", "", vec![])).unwrap();
    tx1.send(Message::new("b1", MessageType::Request, "c1", "", vec![])).unwrap();
    let _ = ic.dispatch_once();
    let _ = ic.dispatch_once();
    let got: Vec<String> = rx.try_iter().map(|m| m.command().clone()).collect();
    assert_eq!(got.len(), 3);
    let a: Vec<&String> = got.iter().filter(|c| c.starts_with('a')).collect();
    assert_eq!(a, vec!["a1", "a2"]);
    assert!(got.contains(&"b1".to_owned()));
}

#[test]
fn registry_reset_forgets_handlers() {
    let (mut ic, _tx, _rx) = bound_intercom();
    ic.add_handler('c').unwrap();
    ic.start().unwrap();
    ic.reset();
    assert_eq!(ic.handler_count(), 0);
    assert!(!ic.is_alive());
    assert_eq!(ic.add_handler('c').unwrap().0, "c0");
}

#[test]
fn registry_delivers_to_the_receiver_only() {
    let (mut ic, _tx, _rx) = bound_intercom();
    let (_a, _ta, from_a) = ic.add_handler('c').unwrap();
    let (_b, _tb, from_b) = ic.add_handler('r').unwrap();
    match ic.deliver(Message::new("hello", MessageType::Request, "", "r0", vec!["x"])) {
        ConsoleStep::Delivered(id) => assert_eq!(id, "r0"),
        other => assert!(false, "expected Delivered, found {other:?}"),
    }
    let got = from_b.try_recv().unwrap();
    assert_eq!(got.command(), "hello");
    assert_eq!(got.args(), &vec!["x".to_owned()]);
    assert_eq!(from_a.try_recv().err(), Some(TryRecvError::Empty));
}

#[test]
fn registry_console_poll_steps() {
    let (mut ic, _tx, _rx) = bound_intercom();
    let (_id, _t, from_registry) = ic.add_handler('c').unwrap();
    assert!(matches!(ic.on_console_poll(Poll::Empty), ConsoleStep::Idle));
    assert!(matches!(ic.on_console_poll(Poll::Disconnected), ConsoleStep::Disconnected));
    match ic.on_console_poll(Poll::Received(Message::new("m", MessageType::Request, "", "c0", vec![]))) {
        ConsoleStep::Delivered(id) => assert_eq!(id, "c0"),
        other => assert!(false, "expected Delivered, found {other:?}"),
    }
    assert_eq!(from_registry.try_recv().unwrap().command(), "m");
}

#[test]
fn registry_handler_poll_steps() {
    let (mut ic, _tx, rx) = bound_intercom();
    ic.add_handler('c').unwrap();
    ic.add_handler('r').unwrap();
    assert_eq!(ic.on_handler_poll(0, Poll::Empty), 1);
    assert_eq!(ic.on_handler_poll(1, Poll::Received(Message::new("up", MessageType::Response, "r0", "", vec![]))), 2);
    assert_eq!(rx.try_recv().unwrap().command(), "up");
    assert_eq!(ic.on_handler_poll(0, Poll::Disconnected), 0);
    assert!(!ic.contains_handler("c0"));
    assert!(!ic.has_channels("c0"));
    assert!(ic.contains_handler("r0"));
    assert_eq!(ic.handler_count(), 1);
}
