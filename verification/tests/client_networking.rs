use living_landz::client::networking::{connection_target, target_from_parsed, DEFAULT_PORT};

#[test]
fn target_of_url_with_port() {
    assert_eq!(connection_target("ws://127.0.0.1:9001"), Ok(("127.0.0.1".to_string(), 9001)));
    assert_eq!(connection_target("ws://127.0.0.1:4000"), Ok(("127.0.0.1".to_string(), 4000)));
}

#[test]
fn target_without_port_uses_default() {
    assert_eq!(connection_target("ws://localhost"), Ok(("localhost".to_string(), DEFAULT_PORT)));
    // The scheme's own default port is not reported by the URL, so 9001 is used.
    assert_eq!(connection_target("ws://localhost:80"), Ok(("localhost".to_string(), 9001)));
}

#[test]
fn target_of_invalid_url_is_refused() {
    assert_eq!(
        connection_target("not a url"),
        Err("Invalid URL: relative URL without a base".to_string())
    );
}

#[test]
fn target_of_url_without_host_is_refused() {
    assert_eq!(connection_target("unix:/run/game.sock"), Err("No host in URL".to_string()));
}

#[test]
fn target_from_parsed_values() {
    assert_eq!(
        target_from_parsed(Ok((Some("h".to_string()), Some(7)))),
        Ok(("h".to_string(), 7))
    );
    assert_eq!(target_from_parsed(Ok((Some("h".to_string()), None))), Ok(("h".to_string(), 9001)));
    assert_eq!(target_from_parsed(Ok((None, Some(7)))), Err("No host in URL".to_string()));
    assert_eq!(target_from_parsed(Err("empty host".to_string())), Err("Invalid URL: empty host".to_string()));
}
