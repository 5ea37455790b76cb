use bili_ticket_gt::click::click_answer_key;
use bili_ticket_gt::error::{Field, GtError};
use bili_ticket_gt::flow::{Assignment, Handshake, Next, Stage};
use bili_ticket_gt::protocol::PuzzleKind;
use bili_ticket_gt::request::Request;

fn wrapped(millis: u64, body: &str) -> Result<String, GtError> {
    Ok(format!("geetest_{}({})", millis, body))
}

fn param<'a>(req: &'a Request, key: &str) -> Option<&'a str> {
    req.query.iter().find(|(k, _)| k == key).map(|(_, v)| v.as_str())
}

const PARAMS: &str = "{\"data\":{\"c\":[1,2,3],\"s\":\"s1\"}}";
const CLICK_TYPE: &str = "{\"data\":{\"result\":\"click\"}}";
const CLICK_PUZZLE: &str = "{\"data\":{\"c\":[7],\"s\":\"s2\",\"static_servers\":[\"static.example.com/\"],\"pic\":\"/p.jpg\"}}";

/// Runs a click handshake up to the point where it hands out the puzzle.
fn click_up_to_solve(max_refreshes: Option<u64>) -> Handshake {
    let (mut h, first) = Handshake::start(PuzzleKind::Click, "abc", "123", max_refreshes, 1);
    assert_eq!(first.url, "https://api.geetest.com/get.php");
    assert_eq!(param(&first, "callback"), Some("geetest_1"));
    assert_eq!(param(&first, "w"), None);
    match h.on_answer(wrapped(1, PARAMS), 2) {
        Next::Send(req) => {
            assert_eq!(req.url, "https://api.geevisit.com/ajax.php");
            assert_eq!(param(&req, "callback"), Some("geetest_2"));
        }
        other => panic!("unexpected {:?}", other),
    }
    match h.on_answer(wrapped(2, CLICK_TYPE), 3) {
        Next::Send(req) => {
            assert_eq!(req.url, "https://api.geevisit.com/get.php");
            assert_eq!(param(&req, "type"), Some("click"));
            assert_eq!(param(&req, "is_next"), Some("true"));
        }
        other => panic!("unexpected {:?}", other),
    }
    match h.on_answer(wrapped(3, CLICK_PUZZLE), 4) {
        Next::Solve(Assignment::Click(url), material) => {
            assert_eq!(url, "https://static.example.com/p.jpg");
            assert_eq!(material.c, vec![1, 2, 3]);
            assert_eq!(material.s, "s1");
        }
        other => panic!("unexpected {:?}", other),
    }
    assert_eq!(h.stage(), Stage::Solving);
    h
}

#[test]
fn click_scenario_ends_with_validate() {
    let mut h = click_up_to_solve(None);
    let key = click_answer_key(&vec![(100_000, 50_000)]);
    assert_eq!(key, "3000_1500");
    let w = "sometoken".to_string();
    match h.on_signed(Ok(w), 150, 5) {
        Next::Submit(req, wait) => {
            assert_eq!(wait, 1850);
            assert_eq!(req.url, "https://api.geevisit.com/ajax.php");
            assert_eq!(param(&req, "w"), Some("sometoken"));
            assert_eq!(param(&req, "gt"), Some("abc"));
            assert_eq!(param(&req, "challenge"), Some("123"));
            assert_eq!(param(&req, "callback"), Some("geetest_5"));
        }
        other => panic!("unexpected {:?}", other),
    }
    match h.on_answer(wrapped(5, "{\"data\":{\"result\":\"success\",\"validate\":\"validate123\"}}"), 6) {
        Next::Finish(r) => assert_eq!(r, Ok("validate123".to_string())),
        other => panic!("unexpected {:?}", other),
    }
    assert_eq!(h.stage(), Stage::Finished);
}

#[test]
fn slow_solve_is_not_held_back() {
    let mut h = click_up_to_solve(None);
    match h.on_signed(Ok("w".to_string()), 2500, 5) {
        Next::Submit(_, wait) => assert_eq!(wait, 0),
        other => panic!("unexpected {:?}", other),
    }
}

#[test]
fn early_errors_end_the_handshake() {
    let (mut h, _) = Handshake::start(PuzzleKind::Click, "abc", "123", Some(5), 1);
    match h.on_answer(wrapped(1, "{\"data\":{}}"), 2) {
        Next::Finish(r) => assert_eq!(r, Err(GtError::MissingField(Field::C))),
        other => panic!("unexpected {:?}", other),
    }
    let (mut h, _) = Handshake::start(PuzzleKind::Click, "abc", "123", Some(5), 1);
    match h.on_answer(Err(GtError::Transport), 2) {
        Next::Finish(r) => assert_eq!(r, Err(GtError::Transport)),
        other => panic!("unexpected {:?}", other),
    }
}

#[test]
fn single_attempt_does_not_refresh() {
    let mut h = click_up_to_solve(None);
    match h.on_signed(Err(GtError::SolverInternal), 10, 5) {
        Next::Finish(r) => assert_eq!(r, Err(GtError::SolverInternal)),
        other => panic!("unexpected {:?}", other),
    }
    assert_eq!(h.refreshes(), 0);
}

#[test]
fn retrying_handshake_refreshes_once_per_failure() {
    for failures in 0..4u64 {
        let mut h = click_up_to_solve(Some(10));
        let mut clock = 10;
        for i in 0..failures {
            // alternate a solver failure and a rejected submission
            let next = if i % 2 == 0 {
                h.on_signed(Err(GtError::SolverInternal), 10, clock)
            } else {
                match h.on_signed(Ok("w".to_string()), 10, clock) {
                    Next::Submit(..) => {}
                    other => panic!("unexpected {:?}", other),
                }
                h.on_answer(Err(GtError::Transport), clock + 1)
            };
            let cb = clock + if i % 2 == 0 { 0 } else { 1 };
            match next {
                Next::Send(req) => {
                    assert_eq!(req.url, "https://api.geevisit.com/refresh.php");
                    assert_eq!(param(&req, "callback"), Some(format!("geetest_{}", cb).as_str()));
                }
                other => panic!("unexpected {:?}", other),
            }
            let fresh = "{\"data\":{\"image_servers\":[\"img.example.com/\"],\"pic\":\"/n.jpg\"}}";
            match h.on_answer(wrapped(cb, fresh), cb + 1) {
                Next::Solve(Assignment::Click(url), _) => assert_eq!(url, "https://img.example.com/n.jpg"),
                other => panic!("unexpected {:?}", other),
            }
            clock = cb + 10;
        }
        match h.on_signed(Ok("w".to_string()), 10, clock) {
            Next::Submit(..) => {}
            other => panic!("unexpected {:?}", other),
        }
        match h.on_answer(wrapped(clock, "{\"data\":{\"result\":\"success\",\"validate\":\"ok\"}}"), clock + 1) {
            Next::Finish(r) => assert_eq!(r, Ok("ok".to_string())),
            other => panic!("unexpected {:?}", other),
        }
        assert_eq!(h.refreshes(), failures);
    }
}

#[test]
fn retrying_handshake_gives_up_after_its_refreshes() {
    let mut h = click_up_to_solve(Some(2));
    let fresh = "{\"data\":{\"image_servers\":[\"h/\"],\"pic\":\"/n.jpg\"}}";
    for clock in [10u64, 20] {
        match h.on_signed(Err(GtError::Transport), 10, clock) {
            Next::Send(_) => {}
            other => panic!("unexpected {:?}", other),
        }
        match h.on_answer(wrapped(clock, fresh), clock + 1) {
            Next::Solve(..) => {}
            other => panic!("unexpected {:?}", other),
        }
    }
    match h.on_signed(Err(GtError::Transport), 10, 30) {
        Next::Finish(r) => assert_eq!(r, Err(GtError::Transport)),
        other => panic!("unexpected {:?}", other),
    }
    assert_eq!(h.refreshes(), 2);
}

#[test]
fn retrying_handshake_stops_on_protocol_change() {
    let mut h = click_up_to_solve(Some(10));
    match h.on_signed(Ok("w".to_string()), 10, 10) {
        Next::Submit(..) => {}
        other => panic!("unexpected {:?}", other),
    }
    match h.on_answer(Ok("renamed({})".to_string()), 11) {
        Next::Finish(r) => assert_eq!(r, Err(GtError::Framing(bili_ticket_gt::error::EnvelopeSide::Prefix))),
        other => panic!("unexpected {:?}", other),
    }
    assert_eq!(h.refreshes(), 0);
}

#[test]
fn slide_handshake_submits_the_fresh_challenge() {
    let (mut h, _) = Handshake::start(PuzzleKind::Slide, "g", "old", Some(3), 1);
    match h.on_answer(wrapped(1, PARAMS), 2) {
        Next::Send(_) => {}
        other => panic!("unexpected {:?}", other),
    }
    match h.on_answer(wrapped(2, "{\"data\":{\"result\":\"slide\"}}"), 3) {
        Next::Send(req) => {
            assert_eq!(req.url, "http://api.geevisit.com/get.php");
            assert_eq!(param(&req, "type"), Some("slide"));
        }
        other => panic!("unexpected {:?}", other),
    }
    let puzzle = "{\"c\":[1],\"s\":\"s\",\"challenge\":\"fresh\",\"static_servers\":[\"st/\"],\"fullbg\":\"f\",\"bg\":\"b\",\"slice\":\"sl\"}";
    match h.on_answer(wrapped(3, puzzle), 4) {
        Next::Solve(Assignment::Slide(p), material) => {
            assert_eq!(p.challenge, "fresh");
            assert_eq!(p.bg_url, "https://st/b");
            assert_eq!(material.c, vec![1, 2, 3]);
        }
        other => panic!("unexpected {:?}", other),
    }
    match h.on_signed(Ok("w".to_string()), 0, 5) {
        Next::Submit(req, wait) => {
            assert_eq!(wait, 2000);
            assert_eq!(req.url, "http://api.geevisit.com/ajax.php");
            assert_eq!(param(&req, "challenge"), Some("fresh"));
        }
        other => panic!("unexpected {:?}", other),
    }
    match h.on_answer(wrapped(5, "{\"message\":\"fail\",\"validate\":\"\"}"), 6) {
        Next::Finish(r) => assert_eq!(r, Ok(String::new())),
        other => panic!("unexpected {:?}", other),
    }
}

#[test]
fn slide_handshake_reports_missing_refresh() {
    let (mut h, _) = Handshake::start(PuzzleKind::Slide, "g", "c", Some(3), 1);
    let _ = h.on_answer(wrapped(1, PARAMS), 2);
    let _ = h.on_answer(wrapped(2, "{\"data\":{\"result\":\"slide\"}}"), 3);
    let puzzle = "{\"c\":[1],\"s\":\"s\",\"challenge\":\"x\",\"static_servers\":[\"st/\"],\"fullbg\":\"f\",\"bg\":\"b\",\"slice\":\"sl\"}";
    let _ = h.on_answer(wrapped(3, puzzle), 4);
    match h.on_signed(Err(GtError::SolverInternal), 0, 5) {
        Next::Finish(r) => assert_eq!(r, Err(GtError::NotImplemented)),
        other => panic!("unexpected {:?}", other),
    }
}
