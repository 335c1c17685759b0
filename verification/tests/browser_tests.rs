use rust_feed_ingestor::browser::{
    base_address, dial_address, version_endpoint, ConnectAction, ConnectEvent, ConnectStage,
    Connector, JsonField, MAX_ATTEMPTS, RETRY_PAUSE_SECS,
};

fn reply(url: &str) -> ConnectEvent {
    ConnectEvent::Probed(Ok(format!(
        "{{\"Browser\": \"Chrome/120\", \"webSocketDebuggerUrl\": \"{}\"}}",
        url
    )))
}

#[test]
fn retry_policy_is_thirty_attempts_two_seconds_apart() {
    assert_eq!(MAX_ATTEMPTS, 30);
    assert_eq!(RETRY_PAUSE_SECS, 2);
}

#[test]
fn base_address_defaults_to_the_chrome_host() {
    assert_eq!(base_address(None), "ws://chrome:9222");
    assert_eq!(base_address(Some(String::from("ws://localhost:9222"))), "ws://localhost:9222");
}

#[test]
fn version_endpoint_speaks_http() {
    assert_eq!(version_endpoint("ws://chrome:9222"), "http://chrome:9222/json/version");
    assert_eq!(version_endpoint("wss://chrome.example"), "https://chrome.example/json/version");
    assert_eq!(version_endpoint("http://chrome:9222"), "http://chrome:9222/json/version");
    assert_eq!(version_endpoint(""), "/json/version");
}

#[test]
fn every_occurrence_of_a_scheme_is_replaced() {
    assert_eq!(
        version_endpoint("ws://a/ws://b/wss://c"),
        "http://a/http://b/https://c/json/version"
    );
    assert_eq!(version_endpoint("wws://x"), "whttp://x/json/version");
}

#[test]
fn local_debugger_address_is_dialled_at_the_chrome_host() {
    assert_eq!(
        dial_address("ws://localhost:9222/devtools/browser/abc"),
        "ws://chrome:9222/devtools/browser/abc"
    );
    assert_eq!(
        dial_address("ws://127.0.0.1:9222/devtools/browser/abc"),
        "ws://127.0.0.1:9222/devtools/browser/abc"
    );
    assert_eq!(dial_address("ws://localhost:9223/x"), "ws://localhost:9223/x");
}

#[test]
fn a_new_connector_asks_at_the_version_endpoint() {
    let c = Connector::new("ws://chrome:9222");
    assert_eq!(c.stage, ConnectStage::Probing);
    assert_eq!(c.attempt, 1);
    assert_eq!(c.endpoint, "http://chrome:9222/json/version");
    assert_eq!(c.debugger_url, None);
    assert_eq!(c.last_error, None);
}

#[test]
fn a_reply_with_an_address_is_dialled() {
    let mut c = Connector::new("ws://chrome:9222");
    assert_eq!(c.step(reply("ws://localhost:9222/devtools/browser/abc")), ConnectAction::Connect);
    assert_eq!(c.stage, ConnectStage::Connecting);
    assert_eq!(c.attempt, 1);
    assert_eq!(c.debugger_url, Some(String::from("ws://chrome:9222/devtools/browser/abc")));
    assert_eq!(c.step(ConnectEvent::Connected(Ok(()))), ConnectAction::Ready);
    assert_eq!(c.stage, ConnectStage::Ready);
    assert_eq!(c.step(ConnectEvent::Paused), ConnectAction::Ready);
}

#[test]
fn a_reply_that_is_no_json_is_kept_as_the_cause() {
    let mut c = Connector::new("ws://chrome:9222");
    assert_eq!(c.step(ConnectEvent::Probed(Ok(String::from("<html>starting</html>")))), ConnectAction::Pause);
    assert_eq!(c.stage, ConnectStage::ProbePause);
    assert_eq!(
        c.last_error,
        Some(String::from("Got non-JSON response: '<html>starting</html>'"))
    );
    assert_eq!(c.step(ConnectEvent::Paused), ConnectAction::Probe);
    assert_eq!(c.attempt, 2);
}

#[test]
fn a_reply_without_the_address_keeps_the_cause_before() {
    let mut c = Connector::new("ws://chrome:9222");
    c.step(ConnectEvent::Probed(Err(String::from("connection refused"))));
    c.step(ConnectEvent::Paused);
    assert_eq!(c.step(ConnectEvent::Probed(Ok(String::from("{\"Browser\": \"x\"}")))), ConnectAction::Pause);
    assert_eq!(c.last_error, Some(String::from("connection refused")));
    c.step(ConnectEvent::Paused);
    assert_eq!(
        c.step(ConnectEvent::Probed(Ok(String::from("{\"webSocketDebuggerUrl\": 9222}")))),
        ConnectAction::Pause
    );
    assert_eq!(c.last_error, Some(String::from("connection refused")));
    c.step(ConnectEvent::Paused);
    assert_eq!(
        c.step(ConnectEvent::Probed(Ok(String::from("[\"webSocketDebuggerUrl\"]")))),
        ConnectAction::Pause
    );
    assert_eq!(c.attempt, 4);
}

#[test]
fn asking_is_given_up_after_thirty_requests() {
    let mut c = Connector::new("ws://chrome:9222");
    let mut probes = 1;
    loop {
        assert_eq!(c.step(ConnectEvent::Probed(Err(format!("refused {}", probes)))), ConnectAction::Pause);
        match c.step(ConnectEvent::Paused) {
            ConnectAction::Probe => probes += 1,
            ConnectAction::GiveUp => break,
            other => panic!("unexpected action {:?}", other),
        }
    }
    assert_eq!(probes, 30);
    assert_eq!(c.stage, ConnectStage::Failed);
    assert_eq!(c.last_error, Some(String::from("refused 30")));
    assert_eq!(c.step(ConnectEvent::Paused), ConnectAction::GiveUp);
}

#[test]
fn dialling_is_given_up_after_thirty_attempts() {
    let mut c = Connector::new("ws://chrome:9222");
    // the address comes with the third request
    c.step(ConnectEvent::Probed(Err(String::from("refused"))));
    c.step(ConnectEvent::Paused);
    c.step(ConnectEvent::Probed(Err(String::from("refused"))));
    c.step(ConnectEvent::Paused);
    assert_eq!(c.step(reply("ws://chrome:9222/devtools/browser/abc")), ConnectAction::Connect);
    let mut dials = 1;
    loop {
        assert_eq!(
            c.step(ConnectEvent::Connected(Err(format!("handshake {}", dials)))),
            ConnectAction::Pause
        );
        match c.step(ConnectEvent::Paused) {
            ConnectAction::Connect => dials += 1,
            ConnectAction::GiveUp => break,
            other => panic!("unexpected action {:?}", other),
        }
    }
    assert_eq!(dials, 30);
    assert_eq!(c.stage, ConnectStage::Failed);
    assert_eq!(c.last_error, Some(String::from("handshake 30")));
}

#[test]
fn a_connection_may_stand_at_a_later_attempt() {
    let mut c = Connector::new("ws://chrome:9222");
    c.step(reply("ws://chrome:9222/devtools/browser/abc"));
    assert_eq!(c.step(ConnectEvent::Connected(Err(String::from("not yet")))), ConnectAction::Pause);
    assert_eq!(c.step(ConnectEvent::Paused), ConnectAction::Connect);
    assert_eq!(c.attempt, 2);
    assert_eq!(c.step(ConnectEvent::Connected(Ok(()))), ConnectAction::Ready);
}

#[test]
fn an_event_that_answers_nothing_ends_the_start() {
    let mut c = Connector::new("ws://chrome:9222");
    assert_eq!(c.step(ConnectEvent::Paused), ConnectAction::GiveUp);
    assert_eq!(c.stage, ConnectStage::Failed);

    let mut c = Connector::new("ws://chrome:9222");
    assert_eq!(c.step(ConnectEvent::Connected(Ok(()))), ConnectAction::GiveUp);

    let mut c = Connector::new("ws://chrome:9222");
    c.step(reply("ws://chrome:9222/x"));
    assert_eq!(c.step(reply("ws://chrome:9222/x")), ConnectAction::GiveUp);
}

#[test]
fn take_reply_decides_on_each_kind_of_field() {
    let mut c = Connector::new("ws://chrome:9222");
    assert_eq!(
        c.take_reply("body", JsonField::Text(String::from("ws://localhost:9222/y"))),
        ConnectAction::Connect
    );
    assert_eq!(c.debugger_url, Some(String::from("ws://chrome:9222/y")));

    let mut c = Connector::new("ws://chrome:9222");
    assert_eq!(c.take_reply("body", JsonField::Missing), ConnectAction::Pause);
    assert_eq!(c.last_error, None);

    let mut c = Connector::new("ws://chrome:9222");
    assert_eq!(c.take_reply("body", JsonField::NotJson), ConnectAction::Pause);
    assert_eq!(c.last_error, Some(String::from("Got non-JSON response: 'body'")));
}
