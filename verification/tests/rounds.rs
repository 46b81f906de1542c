use livesearch::coordinator::{Acquired, SearchCoordinator};
use livesearch::events::{UiEvent, emit_file_matches, event_channel};
use livesearch::matcher::Matcher;
use livesearch::state::{Commitment, SearchState, commit_request, finish_round, make_request};

fn roots() -> Vec<String> {
    vec![".".to_string()]
}

#[test]
fn empty_pattern_settles_to_done() {
    let st = make_request(String::new(), roots());
    let (next, decision) = commit_request(st);
    assert!(matches!(next, SearchState::Done));
    assert!(matches!(decision, Commitment::Cleared));
}

#[test]
fn empty_pattern_round_produces_no_walk() {
    let coord = SearchCoordinator::new();
    coord.submit(String::new(), roots());
    match coord.acquire_round() {
        Acquired::Cleared => {}
        _ => panic!("an empty pattern must clear without a round"),
    }
    assert!(!coord.is_cancelled());
}

#[test]
fn invalid_pattern_round_aborts_silently() {
    let coord = SearchCoordinator::new();
    coord.submit("[".to_string(), roots());
    match coord.acquire_round() {
        Acquired::Round { pattern, .. } => {
            assert_eq!(pattern, "[");
            // the worker re-validates; an invalid pattern walks nothing
            assert!(Matcher::compile(&pattern).is_none());
            coord.finish_walk();
        }
        _ => panic!("a non-empty pattern must commit a round"),
    }
    assert!(!coord.is_cancelled());
    let done = finish_round(SearchState::InProgress { pattern: "[".to_string() });
    assert!(matches!(done, SearchState::Done));
}

#[test]
fn latest_submit_wins() {
    let coord = SearchCoordinator::new();
    coord.submit("first".to_string(), vec!["a".to_string()]);
    coord.submit("second".to_string(), vec!["b".to_string()]);
    match coord.acquire_round() {
        Acquired::Round { pattern, roots } => {
            assert_eq!(pattern, "second");
            assert_eq!(roots, vec!["b".to_string()]);
        }
        _ => panic!("a committed round was expected"),
    }
    coord.finish_walk();
    assert!(!coord.is_cancelled());
}

#[test]
fn cancel_midflight_keeps_new_request() {
    let coord = SearchCoordinator::new();
    coord.submit("first".to_string(), roots());
    match coord.acquire_round() {
        Acquired::Round { pattern, .. } => assert_eq!(pattern, "first"),
        _ => panic!("a committed round was expected"),
    }
    assert!(!coord.is_cancelled());
    coord.submit("second".to_string(), roots());
    assert!(coord.is_cancelled());
    coord.finish_walk();
    match coord.acquire_round() {
        Acquired::Round { pattern, .. } => assert_eq!(pattern, "second"),
        _ => panic!("the superseding request must survive the finish"),
    }
    coord.finish_walk();
}

#[test]
fn finish_preserves_pending_request() {
    let pending = make_request("abc".to_string(), roots());
    let kept = finish_round(pending);
    match kept {
        SearchState::New { pattern, .. } => assert_eq!(pattern, "abc"),
        _ => panic!("a pending request must not be clobbered"),
    }
}

#[test]
fn worker_handle_shares_the_cell() {
    let coord = SearchCoordinator::new();
    let worker = coord.handle();
    coord.submit("abc".to_string(), roots());
    match worker.acquire_round() {
        Acquired::Round { pattern, .. } => assert_eq!(pattern, "abc"),
        _ => panic!("the handle must see the submission"),
    }
    worker.finish_walk();
}

#[test]
fn events_arrive_in_send_order() {
    let (tx, rx) = event_channel();
    let tx2 = tx.clone_handle();
    assert!(tx.send(UiEvent::Tick).is_ok());
    assert!(tx2.send(UiEvent::Paste("abc".to_string())).is_ok());
    assert!(matches!(rx.next(), Some(UiEvent::Tick)));
    match rx.next() {
        Some(UiEvent::Paste(s)) => assert_eq!(s, "abc"),
        _ => panic!("the pasted text must arrive second"),
    }
}

#[test]
fn emitted_matches_travel_the_queue_in_line_order() {
    let (tx, rx) = event_channel();
    let m = Matcher::compile(&"o".to_string()).expect("pattern should compile");
    let sent = emit_file_matches(&tx, &m, &"a.txt".to_string(), &b"hello\nworld\n".to_vec());
    assert_eq!(sent.ok(), Some(2));
    match rx.next() {
        Some(UiEvent::MatchFound(e)) => {
            assert_eq!((e.path.as_str(), e.line, e.text.as_str()), ("a.txt", 1, "hello"));
        }
        _ => panic!("the first match must arrive first"),
    }
    match rx.next() {
        Some(UiEvent::MatchFound(e)) => {
            assert_eq!((e.path.as_str(), e.line, e.text.as_str()), ("a.txt", 2, "world"));
        }
        _ => panic!("the second match must arrive second"),
    }
}

#[test]
fn emit_counts_zero_for_binary_file() {
    let (tx, _rx) = event_channel();
    let m = Matcher::compile(&"o".to_string()).expect("pattern should compile");
    let sent = emit_file_matches(&tx, &m, &"b.bin".to_string(), &b"hello\0world\n".to_vec());
    assert_eq!(sent.ok(), Some(0));
}

#[test]
fn disconnected_queue_hands_the_event_back() {
    let (tx, rx) = event_channel();
    drop(rx);
    match tx.send(UiEvent::Paste("abc".to_string())) {
        Err(UiEvent::Paste(s)) => assert_eq!(s, "abc"),
        _ => panic!("the event must come back on a disconnected queue"),
    }
}
