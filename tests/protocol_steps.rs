use bili_ticket_gt::error::{Field, GtError};
use bili_ticket_gt::protocol::{
    decode_click_puzzle, decode_kind, decode_params, decode_refresh, decode_registration,
    decode_slide_puzzle, decode_submission, Integration, PuzzleKind,
};
use bili_ticket_gt::request::{
    params_request, puzzle_request, refresh_request, submission_request, type_request,
};

fn wrap(token: &str, body: &str) -> String {
    format!("{}({})", token, body)
}

fn pairs(q: &[(String, String)]) -> Vec<(&str, &str)> {
    q.iter().map(|(k, v)| (k.as_str(), v.as_str())).collect()
}

#[test]
fn registration_reads_top_level_ids() {
    let r = decode_registration("{\"gt\":\"abc\",\"challenge\":\"123\"}", Integration::TopLevel).unwrap();
    assert_eq!((r.gt.as_str(), r.challenge.as_str()), ("abc", "123"));
}

#[test]
fn registration_reads_nested_ids() {
    let body = "{\"data\":{\"geetest\":{\"gt\":\"g\",\"challenge\":\"c\"}}}";
    let r = decode_registration(body, Integration::Nested).unwrap();
    assert_eq!((r.gt.as_str(), r.challenge.as_str()), ("g", "c"));
    let e = decode_registration(body, Integration::TopLevel).unwrap_err();
    assert_eq!(e, GtError::MissingField(Field::Gt));
}

#[test]
fn registration_names_missing_and_mistyped_fields() {
    assert_eq!(
        decode_registration("{\"data\":{}}", Integration::Nested).unwrap_err(),
        GtError::MissingField(Field::Geetest)
    );
    assert_eq!(
        decode_registration("{\"gt\":1,\"challenge\":\"c\"}", Integration::TopLevel).unwrap_err(),
        GtError::WrongFieldType(Field::Gt)
    );
    assert_eq!(
        decode_registration("{\"gt\":\"g\"}", Integration::TopLevel).unwrap_err(),
        GtError::MissingField(Field::Challenge)
    );
    assert_eq!(decode_registration("nope", Integration::TopLevel).unwrap_err(), GtError::InvalidJson);
}

#[test]
fn params_reads_c_and_s() {
    let m = decode_params(&wrap("t", "{\"data\":{\"c\":[1,2,3],\"s\":\"s1\"}}"), "t").unwrap();
    assert_eq!(m.c, vec![1, 2, 3]);
    assert_eq!(m.s, "s1");
}

#[test]
fn params_errors_are_distinct() {
    assert_eq!(decode_params(&wrap("t", "{}"), "t").unwrap_err(), GtError::MissingField(Field::Data));
    assert_eq!(
        decode_params(&wrap("t", "{\"data\":{\"s\":\"x\"}}"), "t").unwrap_err(),
        GtError::MissingField(Field::C)
    );
    assert_eq!(
        decode_params(&wrap("t", "{\"data\":{\"c\":[1,300],\"s\":\"x\"}}"), "t").unwrap_err(),
        GtError::WrongFieldType(Field::C)
    );
    assert_eq!(
        decode_params(&wrap("t", "{\"data\":{\"c\":[],\"s\":5}}"), "t").unwrap_err(),
        GtError::WrongFieldType(Field::S)
    );
    assert_eq!(
        decode_params("x({\"data\":{}})", "t").unwrap_err(),
        GtError::Framing(bili_ticket_gt::error::EnvelopeSide::Prefix)
    );
}

#[test]
fn kind_maps_vendor_words() {
    assert_eq!(decode_kind(&wrap("t", "{\"data\":{\"result\":\"slide\"}}"), "t"), Ok(PuzzleKind::Slide));
    assert_eq!(decode_kind(&wrap("t", "{\"data\":{\"result\":\"click\"}}"), "t"), Ok(PuzzleKind::Click));
    assert_eq!(
        decode_kind(&wrap("t", "{\"data\":{\"result\":\"nine\"}}"), "t"),
        Err(GtError::UnknownPuzzleType)
    );
    assert_eq!(
        decode_kind(&wrap("t", "{\"data\":{\"result\":[]}}"), "t"),
        Err(GtError::WrongFieldType(Field::Result))
    );
}

#[test]
fn click_puzzle_resolves_image_address() {
    let body = "{\"data\":{\"c\":[9],\"s\":\"ss\",\"static_servers\":[\"static.example.com/\",\"b\"],\"pic\":\"/pictures/a.jpg\"}}";
    let p = decode_click_puzzle(&wrap("t", body), "t").unwrap();
    assert_eq!(p.material.c, vec![9]);
    assert_eq!(p.material.s, "ss");
    assert_eq!(p.pic_url, "https://static.example.com/pictures/a.jpg");
}

#[test]
fn click_puzzle_server_list_errors() {
    let empty = "{\"data\":{\"c\":[],\"s\":\"s\",\"static_servers\":[],\"pic\":\"/a\"}}";
    assert_eq!(decode_click_puzzle(&wrap("t", empty), "t").unwrap_err(), GtError::EmptyList(Field::StaticServers));
    let not_list = "{\"data\":{\"c\":[],\"s\":\"s\",\"static_servers\":\"h\",\"pic\":\"/a\"}}";
    assert_eq!(
        decode_click_puzzle(&wrap("t", not_list), "t").unwrap_err(),
        GtError::WrongFieldType(Field::StaticServers)
    );
    let unrooted = "{\"data\":{\"c\":[],\"s\":\"s\",\"static_servers\":[\"h/\"],\"pic\":\"a\"}}";
    assert_eq!(
        decode_click_puzzle(&wrap("t", unrooted), "t").unwrap_err(),
        GtError::MissingLeadingSlash(Field::Pic)
    );
}

#[test]
fn slide_puzzle_reads_assets_and_challenge() {
    let body = "{\"c\":[1],\"s\":\"s\",\"challenge\":\"fresh\",\"static_servers\":[\"st.example.com/\"],\"fullbg\":\"f.jpg\",\"bg\":\"b.jpg\",\"slice\":\"s.png\"}";
    let p = decode_slide_puzzle(&wrap("cb", body), "cb").unwrap();
    assert_eq!(p.challenge, "fresh");
    assert_eq!(p.fullbg_url, "https://st.example.com/f.jpg");
    assert_eq!(p.bg_url, "https://st.example.com/b.jpg");
    assert_eq!(p.slice_url, "https://st.example.com/s.png");
    let no_slice = "{\"c\":[1],\"s\":\"s\",\"challenge\":\"fresh\",\"static_servers\":[\"h\"],\"fullbg\":\"f\",\"bg\":\"b\"}";
    assert_eq!(decode_slide_puzzle(&wrap("cb", no_slice), "cb").unwrap_err(), GtError::MissingField(Field::Slice));
}

#[test]
fn slide_puzzle_drops_one_leading_slash() {
    let body = "{\"c\":[],\"s\":\"s\",\"challenge\":\"c\",\"static_servers\":[\"st.example.com/\"],\"fullbg\":\"/pictures/f.jpg\",\"bg\":\"b.jpg\",\"slice\":\"//s.png\"}";
    let p = decode_slide_puzzle(&wrap("cb", body), "cb").unwrap();
    assert_eq!(p.fullbg_url, "https://st.example.com/pictures/f.jpg");
    assert_eq!(p.bg_url, "https://st.example.com/b.jpg");
    assert_eq!(p.slice_url, "https://st.example.com//s.png");
}

#[test]
fn submission_reads_each_family() {
    let click = decode_submission(&wrap("t", "{\"data\":{\"result\":\"success\",\"validate\":\"v1\"}}"), "t", PuzzleKind::Click).unwrap();
    assert_eq!((click.status.as_str(), click.validate.as_str()), ("success", "v1"));
    let slide = decode_submission(&wrap("t", "{\"message\":\"success\",\"validate\":\"v2\"}"), "t", PuzzleKind::Slide).unwrap();
    assert_eq!((slide.status.as_str(), slide.validate.as_str()), ("success", "v2"));
    let e = decode_submission(&wrap("t", "{\"message\":\"fail\"}"), "t", PuzzleKind::Slide).unwrap_err();
    assert_eq!(e, GtError::MissingField(Field::Validate));
}

#[test]
fn refresh_reads_click_image_and_refuses_slide() {
    let body = "{\"data\":{\"image_servers\":[\"img.example.com/\"],\"pic\":\"/n.jpg\"}}";
    assert_eq!(decode_refresh(&wrap("t", body), "t", PuzzleKind::Click).unwrap(), "https://img.example.com/n.jpg");
    assert_eq!(decode_refresh(&wrap("t", body), "t", PuzzleKind::Slide).unwrap_err(), GtError::NotImplemented);
    let empty = "{\"data\":{\"image_servers\":[],\"pic\":\"/n.jpg\"}}";
    assert_eq!(decode_refresh(&wrap("t", empty), "t", PuzzleKind::Click).unwrap_err(), GtError::EmptyList(Field::ImageServers));
}

#[test]
fn requests_carry_the_vendor_parameters() {
    let r = params_request("g", "c", "cb", None);
    assert_eq!(r.url, "https://api.geetest.com/get.php");
    assert_eq!(pairs(&r.query), vec![("gt", "g"), ("challenge", "c"), ("callback", "cb")]);
    let r = type_request("g", "c", "cb", Some("w1"));
    assert_eq!(r.url, "https://api.geevisit.com/ajax.php");
    assert_eq!(pairs(&r.query), vec![("gt", "g"), ("challenge", "c"), ("callback", "cb"), ("w", "w1")]);
    let r = puzzle_request(PuzzleKind::Slide, "g", "c", "cb");
    assert_eq!(r.url, "http://api.geevisit.com/get.php");
    assert_eq!(
        pairs(&r.query),
        vec![("gt", "g"), ("challenge", "c"), ("is_next", "true"), ("offline", "false"), ("isPC", "true"), ("type", "slide"), ("callback", "cb")]
    );
    let r = submission_request(PuzzleKind::Click, "g", "c", "cb", Some("tok"));
    assert_eq!(r.url, "https://api.geevisit.com/ajax.php");
    assert!(pairs(&r.query).contains(&("w", "tok")));
    let r = refresh_request("g", "c", "cb");
    assert_eq!(r.url, "https://api.geevisit.com/refresh.php");
    assert_eq!(pairs(&r.query).len(), 3);
}
