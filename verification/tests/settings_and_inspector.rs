use zed_web::http::{
    http_response, inspector_http_response, is_websocket_upgrade, usize_to_decimal,
    viewer_http_response,
};
use zed_web::inspector::{
    payload_summary, payload_type_name, ws_host_port, Envelope, ListenAction, ListenSession,
    Payload, PayloadSummary, PeerId, Record, SocketEvent,
};
use zed_web::key_equivalents::get_key_equivalents;

#[test]
fn welsh_moves_hash_to_pound() {
    let eq = get_key_equivalents("com.apple.keylayout.Welsh").unwrap();
    assert_eq!(eq.get('#'), Some('£'));
    assert_eq!(eq.get('a'), None);
    assert_eq!(eq.pairs(), &vec![('#', '£')]);
}

#[test]
fn german_table() {
    let eq = get_key_equivalents("com.apple.keylayout.German").unwrap();
    let from: Vec<char> = "=`#'}:)/\"^&]*{;|[<(>~@\\".chars().collect();
    let to: Vec<char> = "*<§´ÄÜ=ß`&/ä(Öü'ö;):>\"#".chars().collect();
    assert_eq!(eq.pairs().len(), from.len());
    for (f, t) in from.iter().zip(to.iter()) {
        assert_eq!(eq.get(*f), Some(*t));
    }
    assert_eq!(eq.get('['), Some('ö'));
    assert_eq!(eq.get(']'), Some('ä'));
}

#[test]
fn unknown_layouts_have_no_table() {
    assert!(get_key_equivalents("com.apple.keylayout.US").is_none());
    assert!(get_key_equivalents("").is_none());
    assert!(get_key_equivalents("com.apple.keylayout.welsh").is_none());
}

#[test]
fn spanish_iso_pairs_up_to_the_shorter_string() {
    let eq = get_key_equivalents("com.apple.keylayout.Spanish-ISO").unwrap();
    assert_eq!(eq.pairs().len(), 23);
    assert_eq!(eq.get('|'), Some('"'));
    assert_eq!(eq.get('@'), Some('n'));
}

#[test]
fn brazilian_pro() {
    let eq = get_key_equivalents("com.apple.keylayout.Brazilian-Pro").unwrap();
    assert_eq!(eq.get('^'), Some('ˆ'));
    assert_eq!(eq.get('~'), Some('˜'));
}

#[test]
fn payload_names() {
    assert_eq!(payload_type_name(&Payload::Hello { peer_id: None }), "Hello");
    assert_eq!(payload_type_name(&Payload::Ack), "Ack");
    assert_eq!(payload_type_name(&Payload::Error { message: "x".to_string() }), "Error");
    assert_eq!(payload_type_name(&Payload::Ping), "Ping");
    assert_eq!(payload_type_name(&Payload::Test), "Test");
    assert_eq!(payload_type_name(&Payload::EndStream), "EndStream");
    assert_eq!(payload_type_name(&Payload::CreateRoom), "CreateRoom");
    assert_eq!(payload_type_name(&Payload::CreateRoomResponse), "CreateRoomResponse");
    assert_eq!(payload_type_name(&Payload::JoinRoom), "JoinRoom");
    assert_eq!(payload_type_name(&Payload::JoinRoomResponse), "JoinRoomResponse");
    assert_eq!(
        payload_type_name(&Payload::UpdateWorktree {
            project_id: 1,
            worktree_id: 2,
            updated_entries_count: 0,
            removed_entries_count: 0
        }),
        "UpdateWorktree"
    );
    assert_eq!(payload_type_name(&Payload::UpdateWorktreeSettings), "UpdateWorktreeSettings");
    assert_eq!(
        payload_type_name(&Payload::CreateBufferForPeer { project_id: 1, peer_id: None }),
        "CreateBufferForPeer"
    );
    assert_eq!(
        payload_type_name(&Payload::UpdateBuffer { project_id: 1, buffer_id: 2 }),
        "UpdateBuffer"
    );
    assert_eq!(
        payload_type_name(&Payload::UpdateDiagnosticSummary { project_id: 1, worktree_id: 2 }),
        "UpdateDiagnosticSummary"
    );
    assert_eq!(payload_type_name(&Payload::OpenBufferByPath), "OpenBufferByPath");
    assert_eq!(payload_type_name(&Payload::OpenBufferResponse), "OpenBufferResponse");
    assert_eq!(payload_type_name(&Payload::Other), "Unknown");
}

#[test]
fn payload_summaries() {
    let peer = PeerId { owner_id: 1, id: 2 };
    assert_eq!(
        payload_summary(&Payload::Hello { peer_id: Some(peer) }),
        PayloadSummary::Hello { peer_id: Some(peer) }
    );
    assert_eq!(payload_summary(&Payload::Ack), PayloadSummary::Empty);
    assert_eq!(
        payload_summary(&Payload::Error { message: "boom".to_string() }),
        PayloadSummary::Error { message: "boom".to_string() }
    );
    assert_eq!(
        payload_summary(&Payload::UpdateWorktree {
            project_id: 3,
            worktree_id: 4,
            updated_entries_count: 5,
            removed_entries_count: 6
        }),
        PayloadSummary::UpdateWorktree {
            project_id: 3,
            worktree_id: 4,
            updated_entries_count: 5,
            removed_entries_count: 6
        }
    );
    assert_eq!(
        payload_summary(&Payload::CreateBufferForPeer { project_id: 7, peer_id: None }),
        PayloadSummary::CreateBufferForPeer { project_id: 7, peer_id: None }
    );
    assert_eq!(
        payload_summary(&Payload::UpdateBuffer { project_id: 8, buffer_id: 9 }),
        PayloadSummary::UpdateBuffer { project_id: 8, buffer_id: 9 }
    );
    assert_eq!(
        payload_summary(&Payload::UpdateDiagnosticSummary { project_id: 10, worktree_id: 11 }),
        PayloadSummary::UpdateDiagnosticSummary { project_id: 10, worktree_id: 11 }
    );
    assert_eq!(payload_summary(&Payload::Ping), PayloadSummary::Empty);
    assert_eq!(payload_summary(&Payload::Other), PayloadSummary::Empty);
}

fn ack(id: u32) -> SocketEvent {
    SocketEvent::Binary {
        byte_len: 12,
        envelope: Some(Envelope { id, responding_to: Some(3), payload: Some(Payload::Ack) }),
    }
}

#[test]
fn listen_counts_and_numbers_messages() {
    let mut s = ListenSession::new();
    assert_eq!(
        s.step(ack(5), &None, false),
        ListenAction::Print(Record::Compact {
            seq: 1,
            id: 5,
            kind_name: "Ack",
            summary: Some(PayloadSummary::Empty)
        })
    );
    assert_eq!(s.step(SocketEvent::Binary { byte_len: 4, envelope: None }, &None, false), ListenAction::DecodeFailed);
    assert_eq!(s, ListenSession { message_count: 1, total_bytes: 16 });
    assert_eq!(
        s.step(ack(6), &None, true),
        ListenAction::Print(Record::Verbose {
            seq: 2,
            id: 6,
            responding_to: Some(3),
            kind_name: "Ack",
            bytes: 12,
            summary: Some(PayloadSummary::Empty),
            total_messages: 2,
            total_bytes: 28,
        })
    );
}

#[test]
fn listen_filter_skips_but_still_counts() {
    let mut s = ListenSession::new();
    let filter = Some("UpdateBuffer".to_string());
    assert_eq!(s.step(ack(1), &filter, false), ListenAction::Skip);
    assert_eq!(s.message_count, 1);
    let ev = SocketEvent::Binary {
        byte_len: 3,
        envelope: Some(Envelope {
            id: 2,
            responding_to: None,
            payload: Some(Payload::UpdateBuffer { project_id: 1, buffer_id: 2 }),
        }),
    };
    assert_eq!(
        s.step(ev, &filter, false),
        ListenAction::Print(Record::Compact {
            seq: 2,
            id: 2,
            kind_name: "UpdateBuffer",
            summary: Some(PayloadSummary::UpdateBuffer { project_id: 1, buffer_id: 2 })
        })
    );
}

#[test]
fn listen_empty_envelope_and_stops() {
    let mut s = ListenSession::new();
    let ev = SocketEvent::Binary {
        byte_len: 0,
        envelope: Some(Envelope { id: 9, responding_to: None, payload: None }),
    };
    assert_eq!(
        s.step(ev, &Some("Empty".to_string()), false),
        ListenAction::Print(Record::Compact { seq: 1, id: 9, kind_name: "Empty", summary: None })
    );
    assert_eq!(s.step(SocketEvent::Other, &None, false), ListenAction::Skip);
    assert_eq!(s.step(SocketEvent::Close, &None, false), ListenAction::Closed);
    assert_eq!(s.step(SocketEvent::Error, &None, false), ListenAction::Failed);
    assert_eq!(s, ListenSession { message_count: 1, total_bytes: 0 });
}

#[test]
fn host_port_of_ws_urls() {
    assert_eq!(ws_host_port("ws://localhost:8080"), Some("localhost:8080"));
    assert_eq!(ws_host_port("ws://"), Some(""));
    assert_eq!(ws_host_port("wss://localhost:8080"), None);
    assert_eq!(ws_host_port("http://x"), None);
}

#[test]
fn decimal_formatting() {
    assert_eq!(usize_to_decimal(0), "0");
    assert_eq!(usize_to_decimal(7), "7");
    assert_eq!(usize_to_decimal(10), "10");
    assert_eq!(usize_to_decimal(4096), "4096");
    assert_eq!(usize_to_decimal(usize::MAX), usize::MAX.to_string());
}

#[test]
fn response_counts_body_bytes() {
    assert_eq!(
        http_response("200 OK", "text/plain", "héllo"),
        "HTTP/1.1 200 OK\r\nContent-Type: text/plain\r\nContent-Length: 6\r\nConnection: close\r\n\r\nhéllo"
    );
}

#[test]
fn inspector_serves_page_or_404() {
    let page = "<html></html>";
    let ok = "HTTP/1.1 200 OK\r\nContent-Type: text/html; charset=utf-8\r\nContent-Length: 13\r\nConnection: close\r\n\r\n<html></html>";
    assert_eq!(inspector_http_response("GET / HTTP/1.1\r\n", page), ok);
    assert_eq!(inspector_http_response("GET /inspector HTTP/1.1\r\n", page), ok);
    assert_eq!(inspector_http_response("GET /inspector.html HTTP/1.1\r\n", page), ok);
    let missing = "HTTP/1.1 404 Not Found\r\nContent-Type: text/plain\r\nContent-Length: 9\r\nConnection: close\r\n\r\nNot found";
    assert_eq!(inspector_http_response("GET /other HTTP/1.1\r\n", page), missing);
    assert_eq!(inspector_http_response("POST / HTTP/1.1\r\n", page), missing);
    assert_eq!(inspector_http_response("", page), missing);
}

#[test]
fn viewer_page_response() {
    assert_eq!(
        viewer_http_response("v"),
        "HTTP/1.1 200 OK\r\nContent-Type: text/html; charset=utf-8\r\nContent-Length: 1\r\nConnection: close\r\n\r\nv"
    );
}

#[test]
fn websocket_upgrade_detection() {
    assert!(is_websocket_upgrade("GET / HTTP/1.1\r\nUpgrade: websocket\r\n\r\n"));
    assert!(is_websocket_upgrade("GET / HTTP/1.1\r\nupgrade: websocket\r\n\r\n"));
    assert!(!is_websocket_upgrade("GET / HTTP/1.1\r\nUPGRADE: websocket\r\n\r\n"));
    assert!(!is_websocket_upgrade("GET / HTTP/1.1\r\n\r\n"));
    assert!(!is_websocket_upgrade(""));
}

#[test]
fn tables_move_printable_ascii_keys() {
    for layout in [
        "com.apple.keylayout.Welsh",
        "com.apple.keylayout.German",
        "com.apple.keylayout.French-PC",
        "com.apple.keylayout.Spanish-ISO",
        "com.apple.keylayout.Czech",
    ] {
        let eq = get_key_equivalents(layout).unwrap();
        assert!(!eq.pairs().is_empty());
        for (from, _) in eq.pairs() {
            assert!(from.is_ascii_graphic(), "{layout}: {from:?}");
        }
    }
}

#[test]
fn session_numbers_every_decoded_envelope() {
    let mut s = ListenSession::new();
    let filter = Some("Ack".to_string());
    let hello = SocketEvent::Binary {
        byte_len: 2,
        envelope: Some(Envelope { id: 1, responding_to: None, payload: Some(Payload::Ping) }),
    };
    assert_eq!(s.step(hello, &filter, false), ListenAction::Skip);
    assert_eq!(s.step(SocketEvent::Binary { byte_len: 1, envelope: None }, &filter, false), ListenAction::DecodeFailed);
    assert_eq!(s.step(SocketEvent::Other, &filter, false), ListenAction::Skip);
    match s.step(ack(2), &filter, false) {
        ListenAction::Print(Record::Compact { seq, kind_name, .. }) => {
            assert_eq!(seq, 2);
            assert_eq!(kind_name, "Ack");
        }
        other => panic!("unexpected {:?}", other),
    }
    assert_eq!(s, ListenSession { message_count: 2, total_bytes: 15 });
}
