use lighthouse_nym::nym_client::{pick_port, NymClient, PortCandidate, PortStep, END_PORT, FIRST_PORT};
use lighthouse_nym::text::{contains, push_decimal};

fn decimal(n: u64) -> String {
    let mut text = String::new();
    push_decimal(&mut text, n);
    text
}

#[test]
fn decimal_forms() {
    for n in [0, 7, 9, 10, 99, 100, 15000, 18446744073709551615] {
        assert_eq!(decimal(n), n.to_string());
    }
}

#[test]
fn runs_of_characters() {
    assert!(contains("abcabd", "abd"));
    assert!(contains("aaab", "aab"));
    assert!(contains("abc", "abc"));
    assert!(contains("abc", ""));
    assert!(contains("", ""));
    assert!(contains("\u{e9}t\u{e9}", "t\u{e9}"));
    assert!(!contains("abc", "abcd"));
    assert!(!contains("abc", "ac"));
    assert!(!contains("", "a"));
}

#[test]
fn picked_ports_lie_in_the_range_and_vary() {
    let mut ports = vec![];
    for _ in 0..200 {
        let candidate = pick_port();
        let port = candidate.port();
        assert!(FIRST_PORT <= port && port < END_PORT);
        assert!(matches!(candidate.answer(true), PortStep::Picked(p) if p == port));
        ports.push(port);
    }
    // A draw that always gave one of its bounds would not vary.
    assert!(ports.iter().any(|p| *p != ports[0]));
}

#[test]
fn port_that_cannot_be_bound_is_replaced() {
    let candidate = PortCandidate::new(20000);
    assert_eq!(candidate.address(), "0.0.0.0:20000");
    match candidate.answer(false) {
        PortStep::Try(next) => assert!((15000..25000).contains(&next.port())),
        PortStep::Picked(port) => panic!("picked {}", port),
    }
}

#[test]
fn drawn_port_is_tried_where_the_last_one_cannot_be_bound() {
    assert!(matches!(
        PortCandidate::new(20000).settle(false, 24999),
        PortStep::Try(next) if next.port() == 24999
    ));
    assert!(matches!(
        PortCandidate::new(20000).settle(true, 24999),
        PortStep::Picked(20000)
    ));
}

#[test]
fn address_and_commands_of_a_client() {
    let client = NymClient::new(15001);
    assert_eq!(client.ws(), "ws://0.0.0.0:15001");
    assert_eq!(client.id(), "15001");
    assert_eq!(client.init_args(), ["init", "--id", "15001"]);
    assert_eq!(client.run_args(), ["run", "--id", "15001", "--port", "15001"]);
}

#[test]
fn clients_on_different_ports_have_different_addresses() {
    assert_ne!(NymClient::new(15001).ws(), NymClient::new(15010).ws());
    assert_eq!(NymClient::new(15001).ws(), NymClient::new(15001).ws());
}

#[test]
fn ready_line() {
    assert!(NymClient::is_ready_line("INFO: The address of this client is: abc@def"));
    assert!(!NymClient::is_ready_line("INFO: the address of this client is: abc@def"));
    assert!(!NymClient::is_ready_line(""));
}
