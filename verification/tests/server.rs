use led_server::html::{change_html, fault_html, index_html};
use led_server::output::{HardwareFault, OutputController, OutputState};
use led_server::router::{dispatch, match_route, Method, Route};

#[test]
fn new_controller_keeps_initial_state() {
    let c = OutputController::new(OutputState::Off);
    assert_eq!(c.state(), OutputState::Off);
    assert_eq!(c.commits(), 0);
    let c2 = OutputController::new(OutputState::On);
    assert_eq!(c2.state(), OutputState::On);
    assert_eq!(c2.commits(), 0);
}

#[test]
fn routes_match_exactly() {
    assert_eq!(match_route("/", Method::Get), Some(Route::Index));
    assert_eq!(match_route("/change", Method::Get), Some(Route::Change));
    assert_eq!(match_route("/change/", Method::Get), None);
    assert_eq!(match_route("/chang", Method::Get), None);
    assert_eq!(match_route("/CHANGE", Method::Get), None);
    assert_eq!(match_route("", Method::Get), None);
    assert_eq!(match_route("/index.html", Method::Get), None);
    assert_eq!(match_route("/", Method::Other), None);
    assert_eq!(match_route("/change", Method::Other), None);
}

#[test]
fn change_turns_off_to_on_and_back() {
    let mut c = OutputController::new(OutputState::Off);
    let resp = dispatch(&mut c, "/change", Method::Get, true).unwrap();
    assert_eq!(resp.status, 200);
    assert!(resp.body.contains("LED toggled!"));
    assert_eq!(c.state(), OutputState::On);
    assert_eq!(c.commits(), 1);

    let resp2 = dispatch(&mut c, "/change", Method::Get, true).unwrap();
    assert_eq!(resp2.status, 200);
    assert_eq!(c.state(), OutputState::Off);
    assert_eq!(c.commits(), 2);
}

#[test]
fn index_never_mutates() {
    let mut c = OutputController::new(OutputState::Off);
    for _ in 0..25 {
        let resp = dispatch(&mut c, "/", Method::Get, false).unwrap();
        assert_eq!(resp.status, 200);
        assert_eq!(resp.body, index_html());
        assert_eq!(c.state(), OutputState::Off);
        assert_eq!(c.commits(), 0);
    }
}

#[test]
fn reads_between_changes_keep_parity() {
    let mut c = OutputController::new(OutputState::Off);
    let r1 = dispatch(&mut c, "/change", Method::Get, true).unwrap();
    assert_eq!(r1.status, 200);
    for _ in 0..17 {
        let r = dispatch(&mut c, "/", Method::Get, false).unwrap();
        assert_eq!(r.status, 200);
        assert_eq!(c.state(), OutputState::On);
    }
    let r2 = dispatch(&mut c, "/change", Method::Get, true).unwrap();
    assert_eq!(r2.status, 200);
    assert_eq!(c.state(), OutputState::Off);
    assert_eq!(c.commits(), 2);
}

#[test]
fn unmatched_requests_are_delegated() {
    let mut c = OutputController::new(OutputState::On);
    assert!(dispatch(&mut c, "/other", Method::Get, true).is_none());
    assert!(dispatch(&mut c, "/change", Method::Other, true).is_none());
    assert_eq!(c.state(), OutputState::On);
    assert_eq!(c.commits(), 0);
}

#[test]
fn fault_leaves_state_unchanged() {
    let mut c = OutputController::new(OutputState::Off);
    let r = c.toggle(false);
    assert_eq!(r, Err(HardwareFault));
    assert_eq!(c.state(), OutputState::Off);
    assert_eq!(c.commits(), 0);
}

#[test]
fn fault_is_reported_as_server_error() {
    let mut c = OutputController::new(OutputState::On);
    let resp = dispatch(&mut c, "/change", Method::Get, false).unwrap();
    assert_eq!(resp.status, 500);
    assert_eq!(resp.body, fault_html());
    assert!(resp.body.contains("Hardware fault"));
    assert_eq!(c.state(), OutputState::On);
    assert_eq!(c.commits(), 0);
}

#[test]
fn hundred_changes_commit_exactly_hundred() {
    let mut c = OutputController::new(OutputState::Off);
    for _ in 0..100 {
        let resp = dispatch(&mut c, "/change", Method::Get, true).unwrap();
        assert_eq!(resp.status, 200);
    }
    assert_eq!(c.state(), OutputState::Off);
    assert_eq!(c.commits(), 100);
}

#[test]
fn failed_writes_do_not_count_toward_parity() {
    let mut c = OutputController::new(OutputState::Off);
    let r1 = dispatch(&mut c, "/change", Method::Get, true).unwrap();
    assert_eq!(r1.status, 200);
    let r2 = dispatch(&mut c, "/change", Method::Get, false).unwrap();
    assert_eq!(r2.status, 500);
    let r3 = dispatch(&mut c, "/change", Method::Get, true).unwrap();
    assert_eq!(r3.status, 200);
    assert_eq!(c.state(), OutputState::Off);
    assert_eq!(c.commits(), 2);
}

#[test]
fn successful_toggle_returns_new_state() {
    let mut c = OutputController::new(OutputState::Off);
    assert_eq!(c.toggle(true), Ok(OutputState::On));
    assert_eq!(c.toggle(true), Ok(OutputState::Off));
    assert_eq!(c.commits(), 2);
}

#[test]
fn index_page_links_to_change() {
    let body = index_html();
    assert!(body.contains("<a href=\"/change\">"));
    assert!(body.contains("Welcome to the ESP32 Web Server!"));
}

#[test]
fn change_page_confirms_action() {
    let body = change_html();
    assert!(body.contains("LED toggled!"));
    assert!(body.contains("location.href='/change'"));
}

#[test]
fn fault_page_is_descriptive() {
    let body = fault_html();
    assert!(body.contains("Hardware fault"));
    assert!(body.contains("unchanged"));
}

#[test]
fn index_response_matches_page() {
    let mut c = OutputController::new(OutputState::Off);
    let resp = dispatch(&mut c, "/", Method::Get, false).unwrap();
    assert_eq!(resp.status, 200);
    assert_eq!(resp.body, index_html());
}
