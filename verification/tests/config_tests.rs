use http_server::config::{extract_proxy_address, read_proxy_target, Args};
use http_server::error::ServerError;

fn groups(all: &[Option<&str>]) -> Option<Vec<Option<String>>> {
    Some(all.iter().map(|g| g.map(|s| s.to_string())).collect())
}

#[test]
fn default_settings() {
    let args = Args::default();
    assert_eq!(args.ip, "127.0.0.1");
    assert_eq!(args.port, "8080");
    assert_eq!(args.threads, 8);
    assert_eq!(args.proxy, "");
}

#[test]
fn bind_address_joins_ip_and_port() {
    assert_eq!(Args::default().bind_address(), "127.0.0.1:8080");
    let args = Args {
        ip: "0.0.0.0".to_string(),
        port: "80".to_string(),
        threads: 1,
        proxy: String::new(),
    };
    assert_eq!(args.bind_address(), "0.0.0.0:80");
}

#[test]
fn proxy_with_a_port() {
    assert_eq!(
        extract_proxy_address("http://example.com:3128"),
        Ok(("example.com".to_string(), 3128))
    );
    assert_eq!(
        extract_proxy_address("http://10.0.0.1:65535/path"),
        Ok(("10.0.0.1".to_string(), 65535))
    );
}

#[test]
fn proxy_without_a_port_listens_on_80() {
    assert_eq!(extract_proxy_address("http://localhost"), Ok(("localhost".to_string(), 80)));
    assert_eq!(extract_proxy_address("http://localhost/"), Ok(("localhost".to_string(), 80)));
    assert_eq!(extract_proxy_address("http://localhost:"), Ok(("localhost".to_string(), 80)));
}

#[test]
fn proxy_address_is_found_anywhere_in_the_text() {
    assert_eq!(extract_proxy_address("see http://h:1 there"), Ok(("h".to_string(), 1)));
}

#[test]
fn proxy_of_another_shape_is_refused() {
    for proxy in ["", "localhost:80", "https://localhost", "http://", "http://:80", "http:///x"] {
        assert_eq!(extract_proxy_address(proxy), Err(ServerError::InvalidProxy));
    }
}

#[test]
fn proxy_port_must_fit_sixteen_bits() {
    assert_eq!(extract_proxy_address("http://h:65536"), Err(ServerError::InvalidPort));
    assert_eq!(
        extract_proxy_address("http://h:99999999999999999999999"),
        Err(ServerError::InvalidPort)
    );
    assert_eq!(extract_proxy_address("http://h:\u{663}"), Err(ServerError::InvalidPort));
    assert_eq!(extract_proxy_address("http://h:0"), Ok(("h".to_string(), 0)));
}

#[test]
fn proxy_target_reads_groups_one_and_two() {
    assert_eq!(
        read_proxy_target(groups(&[Some("http://h:8"), Some("h"), Some("8")])),
        Ok(("h".to_string(), 8))
    );
    assert_eq!(
        read_proxy_target(groups(&[Some("http://h"), Some("h"), None])),
        Ok(("h".to_string(), 80))
    );
    assert_eq!(read_proxy_target(groups(&[None, Some("h")])), Ok(("h".to_string(), 80)));
    assert_eq!(
        read_proxy_target(groups(&[None, Some("h"), Some("x")])),
        Err(ServerError::InvalidPort)
    );
    assert_eq!(
        read_proxy_target(groups(&[None, None, Some("1")])),
        Err(ServerError::InvalidProxy)
    );
    assert_eq!(read_proxy_target(groups(&[Some("x")])), Err(ServerError::InvalidProxy));
    assert_eq!(read_proxy_target(None), Err(ServerError::InvalidProxy));
}
