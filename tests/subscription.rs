use std::sync::mpsc;

use stomp::handler::ack_for_delivery;
use stomp::{
    AckMode, AckOrNack, FnMessageHandler, Frame, Header, HeaderList, MessageHandler,
    SenderMessageHandler, Subscription, ToMessageHandler,
};

fn frame(command: &str, body: &[u8]) -> Frame {
    Frame {
        command: command.to_string(),
        headers: HeaderList {
            headers: vec![Header { key: "destination".to_string(), value: "/queue/test".to_string() }],
        },
        body: body.to_vec(),
    }
}

fn no_headers() -> HeaderList {
    HeaderList { headers: Vec::new() }
}

struct Counter {
    seen: u32,
}

impl MessageHandler for Counter {
    fn on_message(&mut self, _frame: &Frame) -> AckOrNack {
        self.seen += 1;
        if self.seen % 2 == 1 {
            AckOrNack::Ack
        } else {
            AckOrNack::Nack
        }
    }
}

#[test]
fn ack_mode_tokens() {
    assert_eq!(AckMode::Auto.as_text(), "auto");
    assert_eq!(AckMode::Client.as_text(), "client");
    assert_eq!(AckMode::ClientIndividual.as_text(), "client-individual");
}

#[test]
fn ack_mode_tokens_are_distinct_and_stable() {
    let modes = [AckMode::Auto, AckMode::Client, AckMode::ClientIndividual];
    for (i, a) in modes.iter().enumerate() {
        for (j, b) in modes.iter().enumerate() {
            assert_eq!(i == j, a.as_text() == b.as_text());
        }
        assert_eq!(a.as_text(), a.as_text());
    }
}

#[test]
fn direct_handler_passes_decisions_through() {
    let mut plain = Counter { seen: 0 };
    let mut adapted = Counter { seen: 0 }.to_message_handler();
    let f = frame("MESSAGE", b"x");
    for _ in 0..5 {
        assert_eq!(plain.on_message(&f), adapted.on_message(&f));
    }
    assert_eq!(adapted.seen, 5);
}

#[test]
fn adapting_twice_is_adapting_once() {
    let mut once = Counter { seen: 0 }.to_message_handler();
    let mut twice = Counter { seen: 0 }.to_message_handler().to_message_handler();
    let f = frame("MESSAGE", b"");
    for _ in 0..4 {
        assert_eq!(once.on_message(&f), twice.on_message(&f));
    }
    assert_eq!(once.seen, twice.seen);
}

#[test]
fn boxed_handler_behaves_as_its_content() {
    let mut boxed = Box::new(Counter { seen: 0 }).to_message_handler();
    let f = frame("MESSAGE", b"");
    assert_eq!(boxed.on_message(&f), AckOrNack::Ack);
    assert_eq!(boxed.on_message(&f), AckOrNack::Nack);
    assert_eq!(boxed.seen, 2);
}

#[test]
fn channel_handler_delivers_in_order() {
    let (tx, rx) = mpsc::channel();
    let mut handler: SenderMessageHandler = tx.to_message_handler();
    let frames = vec![frame("MESSAGE", b"one"), frame("MESSAGE", b"two"), frame("MESSAGE", b"three")];
    for f in frames.iter() {
        assert_eq!(handler.on_message(f), AckOrNack::Ack);
    }
    for f in frames.iter() {
        let got = rx.recv().unwrap();
        assert_eq!(got.command, f.command);
        assert_eq!(got.body, f.body);
        assert_eq!(got.headers.headers.len(), 1);
        assert_eq!(got.headers.headers[0].key, "destination");
        assert_eq!(got.headers.headers[0].value, "/queue/test");
    }
    assert!(rx.try_recv().is_err());
}

#[test]
fn channel_handler_nacks_after_receiver_dropped() {
    let (tx, rx) = mpsc::channel();
    let mut handler = tx.to_message_handler();
    drop(rx);
    for _ in 0..3 {
        assert_eq!(handler.on_message(&frame("MESSAGE", b"lost")), AckOrNack::Nack);
    }
}

#[test]
fn fixed_callback_gives_its_value() {
    let mut nack = FnMessageHandler::new(|_f: &Frame| AckOrNack::Nack).to_message_handler();
    let mut ack = FnMessageHandler::new(|_f: &Frame| AckOrNack::Ack);
    for body in [&b""[..], &b"a"[..], &b"abc"[..]] {
        let f = frame("MESSAGE", body);
        assert_eq!(nack.on_message(&f), AckOrNack::Nack);
        assert_eq!(ack.on_message(&f), AckOrNack::Ack);
    }
}

#[test]
fn callback_sees_the_frame() {
    let mut h = FnMessageHandler::new(|f: &Frame| {
        if f.body.is_empty() {
            AckOrNack::Nack
        } else {
            AckOrNack::Ack
        }
    });
    assert_eq!(h.on_message(&frame("MESSAGE", b"")), AckOrNack::Nack);
    assert_eq!(h.on_message(&frame("MESSAGE", b"x")), AckOrNack::Ack);
}

#[test]
fn delivery_decides_ack_or_nack() {
    assert_eq!(ack_for_delivery(true), AckOrNack::Ack);
    assert_eq!(ack_for_delivery(false), AckOrNack::Nack);
}

#[test]
fn subscription_scenario() {
    let handler = FnMessageHandler::new(|_f: &Frame| AckOrNack::Ack);
    let s = Subscription::new(7, "/queue/test", AckMode::Client, no_headers(), handler);
    assert_eq!(s.id, "stomp-rs/7");
    assert_eq!(s.destination, "/queue/test");
    assert_eq!(s.ack_mode.as_text(), "client");
    assert_eq!(s.ack_mode, AckMode::Client);
    assert!(s.headers.headers.is_empty());
}

#[test]
fn same_number_gives_same_id() {
    let a = Subscription::new(42, "/queue/a", AckMode::Auto, no_headers(), Counter { seen: 0 });
    let b = Subscription::new(42, "/topic/b", AckMode::ClientIndividual, no_headers(), Counter { seen: 3 });
    assert_eq!(a.id, b.id);
    assert_eq!(a.id, "stomp-rs/42");
}

#[test]
fn id_digits_edge_values() {
    let zero = Subscription::new(0, "", AckMode::Auto, no_headers(), Counter { seen: 0 });
    assert_eq!(zero.id, "stomp-rs/0");
    assert_eq!(zero.destination, "");
    let big = Subscription::new(u32::MAX, "/q", AckMode::Auto, no_headers(), Counter { seen: 0 });
    assert_eq!(big.id, "stomp-rs/4294967295");
    let mid = Subscription::new(1234, "/q", AckMode::Auto, no_headers(), Counter { seen: 0 });
    assert_eq!(mid.id, "stomp-rs/1234");
}

#[test]
fn subscription_keeps_headers_and_handler() {
    let headers = HeaderList {
        headers: vec![
            Header { key: "a".to_string(), value: "1".to_string() },
            Header { key: "b".to_string(), value: "2".to_string() },
        ],
    };
    let mut s = Subscription::new(3, "/queue/h", AckMode::ClientIndividual, headers, Counter { seen: 9 });
    assert_eq!(s.headers.headers.len(), 2);
    assert_eq!(s.headers.headers[0].key, "a");
    assert_eq!(s.headers.headers[1].value, "2");
    assert_eq!(s.handler.seen, 9);
    assert_eq!(s.handler.on_message(&frame("MESSAGE", b"")), AckOrNack::Nack);
    assert_eq!(s.ack_mode.as_text(), "client-individual");
}

#[test]
fn frame_clone_copies_everything() {
    let f = frame("MESSAGE", b"payload");
    let c = f.clone();
    assert_eq!(c.command, "MESSAGE");
    assert_eq!(c.body, b"payload".to_vec());
    assert_eq!(c.headers.headers.len(), 1);
    assert_eq!(c.headers.headers[0].key, "destination");
    assert_eq!(c.headers.headers[0].value, "/queue/test");
}
