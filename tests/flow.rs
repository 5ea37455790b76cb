use bili_ticket_gt::click::click_answer_key;
use bili_ticket_gt::envelope::callback_token;
use bili_ticket_gt::error::GtError;
use bili_ticket_gt::protocol::{
    decode_click_puzzle, decode_kind, decode_params, decode_registration, decode_submission,
    Integration, PuzzleKind,
};
use bili_ticket_gt::request::submission_request;
use bili_ticket_gt::response::ApiResponse;
use bili_ticket_gt::retry::{RetryDriver, RetryStep};

fn run_driver(max: u64, outcomes: Vec<Result<String, GtError>>) -> (u64, Option<Result<String, GtError>>) {
    let mut d = RetryDriver::new(max);
    for o in outcomes {
        match d.on_outcome(o) {
            RetryStep::Refresh => {}
            RetryStep::Finish(r) => return (d.refreshes(), Some(r)),
        }
    }
    (d.refreshes(), None)
}

#[test]
fn retry_succeeds_after_n_failures_with_n_refreshes() {
    for n in 0..5u64 {
        let mut outcomes: Vec<Result<String, GtError>> = Vec::new();
        for i in 0..n {
            outcomes.push(Err(if i % 2 == 0 { GtError::Transport } else { GtError::SolverInternal }));
        }
        outcomes.push(Ok("validate".to_string()));
        assert_eq!(run_driver(10, outcomes), (n, Some(Ok("validate".to_string()))));
    }
}

#[test]
fn retry_gives_up_when_refreshes_run_out() {
    let outcomes = vec![Err(GtError::Transport); 10];
    assert_eq!(run_driver(3, outcomes), (3, Some(Err(GtError::Transport))));
}

#[test]
fn retry_stops_on_protocol_errors() {
    let outcomes = vec![Err(GtError::Transport), Err(GtError::UnknownPuzzleType), Ok("v".to_string())];
    assert_eq!(run_driver(10, outcomes), (1, Some(Err(GtError::UnknownPuzzleType))));
}

#[test]
fn api_response_shapes() {
    let ok = ApiResponse::success(7u8);
    assert!(ok.success && ok.data == Some(7) && ok.error.is_none());
    let err: ApiResponse<u8> = ApiResponse::error("boom".to_string());
    assert!(!err.success && err.data.is_none() && err.error.as_deref() == Some("boom"));
}

// The whole click flow against canned vendor answers.
#[test]
fn click_flow_with_canned_responses() {
    let reg = decode_registration("{\"gt\":\"abc\",\"challenge\":\"123\"}", Integration::TopLevel).unwrap();
    assert_eq!((reg.gt.as_str(), reg.challenge.as_str()), ("abc", "123"));

    let cb = callback_token(1);
    let params = decode_params(&format!("{}({})", cb, "{\"data\":{\"c\":[1,2,3],\"s\":\"s1\"}}"), &cb).unwrap();
    assert_eq!((params.c.clone(), params.s.as_str()), (vec![1, 2, 3], "s1"));

    let cb = callback_token(2);
    let kind = decode_kind(&format!("{}({})", cb, "{\"data\":{\"result\":\"click\"}}"), &cb).unwrap();
    assert_eq!(kind, PuzzleKind::Click);

    let cb = callback_token(3);
    let body = "{\"data\":{\"c\":[1,2,3],\"s\":\"s1\",\"static_servers\":[\"static.example.com/\"],\"pic\":\"/p.jpg\"}}";
    let puzzle = decode_click_puzzle(&format!("{}({})", cb, body), &cb).unwrap();
    assert_eq!(puzzle.pic_url, "https://static.example.com/p.jpg");

    // detector answer (100.0, 50.0) in thousandths of a pixel
    let key = click_answer_key(&vec![(100_000, 50_000)]);
    assert_eq!(key, "3000_1500");

    let w = "sometoken";
    let cb = callback_token(4);
    let req = submission_request(PuzzleKind::Click, &reg.gt, &reg.challenge, &cb, Some(w));
    assert!(req.query.iter().any(|(k, v)| k == "w" && v == "sometoken"));

    let verdict = decode_submission(
        &format!("{}({})", cb, "{\"data\":{\"result\":\"success\",\"validate\":\"validate123\"}}"),
        &cb,
        PuzzleKind::Click,
    )
    .unwrap();
    assert_eq!(verdict.status, "success");
    assert_eq!(verdict.validate, "validate123");
}
