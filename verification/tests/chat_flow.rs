use std::sync::Arc;

use chatcast::event::ChatEvent;
use chatcast::ids::ConnIdGen;
use chatcast::registry::{Registry, OUTBOUND_CAPACITY};
use chatcast::supervisor::{ActiveStep, NameStep, ReadOutcome, SupState, Supervisor};
use tokio::sync::mpsc::Receiver;

/// What the async driver does with one broadcast: enqueue the event to
/// every registered peer except the origin, pruning entries whose
/// receiving side is gone.
fn deliver(reg: &mut Registry, origin: u64, ev: &ChatEvent) {
    let shared = Arc::new(ev.clone());
    for (id, tx) in reg.producers_except(origin) {
        if tx.try_send(shared.clone()).is_err() {
            reg.remove(id);
        }
    }
}

fn drain(rx: &mut Receiver<Arc<ChatEvent>>) -> Vec<String> {
    let mut lines = Vec::new();
    while let Ok(ev) = rx.try_recv() {
        lines.push(ev.render());
    }
    lines
}

#[test]
fn fresh_ids_are_distinct() {
    let mut gen = ConnIdGen::new();
    let a = gen.fresh();
    let b = gen.fresh();
    let c = gen.fresh();
    assert_ne!(a, b);
    assert_ne!(a, c);
    assert_ne!(b, c);
}

#[test]
fn register_and_count() {
    let mut reg = Registry::new();
    let mut gen = ConnIdGen::new();
    let a = gen.fresh();
    let b = gen.fresh();
    assert_eq!(reg.count(), 0);
    let _ha = reg.register(a, OUTBOUND_CAPACITY);
    let _hb = reg.register(b, OUTBOUND_CAPACITY);
    assert_eq!(reg.count(), 2);
    assert!(reg.contains(a));
    assert!(reg.contains(b));
    reg.remove(a);
    assert_eq!(reg.count(), 1);
    assert!(!reg.contains(a));
}

#[test]
fn registered_channel_is_real() {
    let mut reg = Registry::new();
    let (tx, mut rx) = reg.register(7, OUTBOUND_CAPACITY);
    let ev = ChatEvent::Said { name: "n".to_string(), text: "t".to_string() };
    tx.try_send(Arc::new(ev)).unwrap();
    assert_eq!(drain(&mut rx), vec!["chat[n]:t".to_string()]);
}

#[test]
fn outbound_channel_is_bounded() {
    let mut reg = Registry::new();
    let (tx, mut rx) = reg.register(9, 2);
    let ev = ChatEvent::Left { name: "x".to_string() };
    tx.try_send(Arc::new(ev.clone())).unwrap();
    tx.try_send(Arc::new(ev.clone())).unwrap();
    assert!(tx.try_send(Arc::new(ev)).is_err());
    assert_eq!(drain(&mut rx).len(), 2);
}

#[test]
fn own_broadcast_is_not_delivered_back() {
    let mut reg = Registry::new();
    let (_ta, mut rxa) = reg.register(1, OUTBOUND_CAPACITY);
    let (_tb, mut rxb) = reg.register(2, OUTBOUND_CAPACITY);
    let ev = ChatEvent::Said { name: "A".to_string(), text: "hi".to_string() };
    deliver(&mut reg, 1, &ev);
    assert_eq!(drain(&mut rxa), Vec::<String>::new());
    assert_eq!(drain(&mut rxb), vec!["chat[A]:hi".to_string()]);
}

#[test]
fn per_recipient_order_is_send_order() {
    let mut reg = Registry::new();
    let (_ta, mut rxa) = reg.register(1, OUTBOUND_CAPACITY);
    let (_tb, mut rxb) = reg.register(2, OUTBOUND_CAPACITY);
    for text in ["one", "two", "three"] {
        let ev = ChatEvent::Said { name: "A".to_string(), text: text.to_string() };
        deliver(&mut reg, 1, &ev);
    }
    assert_eq!(
        drain(&mut rxb),
        vec![
            "chat[A]:one".to_string(),
            "chat[A]:two".to_string(),
            "chat[A]:three".to_string()
        ]
    );
    assert_eq!(drain(&mut rxa), Vec::<String>::new());
}

#[test]
fn failed_writer_is_pruned_and_others_still_served() {
    let mut reg = Registry::new();
    let (_ta, mut rxa) = reg.register(1, OUTBOUND_CAPACITY);
    let (_tb, rxb) = reg.register(2, OUTBOUND_CAPACITY);
    let (_tc, mut rxc) = reg.register(3, OUTBOUND_CAPACITY);
    drop(rxb);
    let ev = ChatEvent::Said { name: "A".to_string(), text: "hi".to_string() };
    deliver(&mut reg, 1, &ev);
    assert!(!reg.contains(2));
    assert!(reg.contains(1));
    assert!(reg.contains(3));
    assert_eq!(drain(&mut rxc), vec!["chat[A]:hi".to_string()]);
    assert_eq!(drain(&mut rxa), Vec::<String>::new());
}

#[test]
fn leave_reaches_every_other_peer() {
    let mut reg = Registry::new();
    let (_ta, mut rxa) = reg.register(1, OUTBOUND_CAPACITY);
    let (_tb, mut rxb) = reg.register(2, OUTBOUND_CAPACITY);
    let (_tc, mut rxc) = reg.register(3, OUTBOUND_CAPACITY);
    let mut sup = Supervisor::new(1);
    let _ = sup.on_name_read(ReadOutcome::Line("alice".to_string()));
    match sup.on_active_read(ReadOutcome::Eof) {
        ActiveStep::Leave { event, failed } => {
            assert!(!failed);
            deliver(&mut reg, 1, &event);
        },
        step => panic!("expected a leave step, got {:?}", step),
    }
    assert_eq!(sup.state(), SupState::Closed);
    assert_eq!(drain(&mut rxb), vec!["left[alice]".to_string()]);
    assert_eq!(drain(&mut rxc), vec!["left[alice]".to_string()]);
    assert_eq!(drain(&mut rxa), Vec::<String>::new());
}

#[test]
fn lone_client_session_is_uneventful() {
    let mut reg = Registry::new();
    let mut gen = ConnIdGen::new();
    let id = gen.fresh();
    let mut sup = Supervisor::new(id);
    let step = sup.on_name_read(ReadOutcome::Line("solo".to_string()));
    match step {
        NameStep::Join { event } => {
            let (_tx, _rx) = reg.register(id, OUTBOUND_CAPACITY);
            deliver(&mut reg, id, &event);
        },
        step => panic!("expected a join step, got {:?}", step),
    }
    match sup.on_active_read(ReadOutcome::Eof) {
        ActiveStep::Leave { event, failed } => {
            assert!(!failed);
            deliver(&mut reg, id, &event);
        },
        step => panic!("expected a leave step, got {:?}", step),
    }
    assert_eq!(sup.state(), SupState::Closed);
    assert_eq!(reg.count(), 1);
}

#[test]
fn eof_before_name_closes_without_broadcast() {
    let mut sup = Supervisor::new(5);
    let step = sup.on_name_read(ReadOutcome::Eof);
    assert!(matches!(step, NameStep::Close { failed: false }));
    assert_eq!(sup.state(), SupState::Closed);
}

#[test]
fn read_error_before_name_closes_as_failure() {
    let mut sup = Supervisor::new(5);
    let step = sup.on_name_read(ReadOutcome::Failed);
    assert!(matches!(step, NameStep::Close { failed: true }));
    assert_eq!(sup.state(), SupState::Closed);
}

#[test]
fn earlier_peer_sees_join_then_chat() {
    let mut reg = Registry::new();
    let mut gen = ConnIdGen::new();
    let b = gen.fresh();
    let a = gen.fresh();

    // B is already named and registered when A names itself, so B sees
    // A's join and then A's chat line, in that order.
    let mut sup_b = Supervisor::new(b);
    let mut rxb = match sup_b.on_name_read(ReadOutcome::Line("B".to_string())) {
        NameStep::Join { event } => {
            let (_tx, rx) = reg.register(b, OUTBOUND_CAPACITY);
            deliver(&mut reg, b, &event);
            rx
        },
        step => panic!("expected a join step, got {:?}", step),
    };

    let mut sup_a = Supervisor::new(a);
    match sup_a.on_name_read(ReadOutcome::Line("A".to_string())) {
        NameStep::Join { event } => {
            let (_tx, _rx) = reg.register(a, OUTBOUND_CAPACITY);
            deliver(&mut reg, a, &event);
        },
        step => panic!("expected a join step, got {:?}", step),
    }

    match sup_a.on_active_read(ReadOutcome::Line("hello".to_string())) {
        ActiveStep::Say { event } => deliver(&mut reg, a, &event),
        step => panic!("expected a say step, got {:?}", step),
    }

    assert_eq!(
        drain(&mut rxb),
        vec!["join[A]".to_string(), "chat[A]:hello".to_string()]
    );
}

#[test]
fn two_client_session_transcript() {
    let mut reg = Registry::new();
    let mut gen = ConnIdGen::new();
    let a = gen.fresh();
    let b = gen.fresh();

    let mut sup_a = Supervisor::new(a);
    let mut rxa = match sup_a.on_name_read(ReadOutcome::Line("A".to_string())) {
        NameStep::Join { event } => {
            let (_tx, rx) = reg.register(a, OUTBOUND_CAPACITY);
            deliver(&mut reg, a, &event);
            rx
        },
        step => panic!("expected a join step, got {:?}", step),
    };

    let mut sup_b = Supervisor::new(b);
    let mut rxb = match sup_b.on_name_read(ReadOutcome::Line("B".to_string())) {
        NameStep::Join { event } => {
            let (_tx, rx) = reg.register(b, OUTBOUND_CAPACITY);
            deliver(&mut reg, b, &event);
            rx
        },
        step => panic!("expected a join step, got {:?}", step),
    };

    match sup_a.on_active_read(ReadOutcome::Line("hello".to_string())) {
        ActiveStep::Say { event } => deliver(&mut reg, a, &event),
        step => panic!("expected a say step, got {:?}", step),
    }

    match sup_b.on_active_read(ReadOutcome::Eof) {
        ActiveStep::Leave { event, failed } => {
            assert!(!failed);
            deliver(&mut reg, b, &event);
        },
        step => panic!("expected a leave step, got {:?}", step),
    }

    assert_eq!(
        drain(&mut rxa),
        vec!["join[B]".to_string(), "left[B]".to_string()]
    );
    assert_eq!(drain(&mut rxb), vec!["chat[A]:hello".to_string()]);
}
