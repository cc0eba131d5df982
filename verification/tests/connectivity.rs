use ibm_appconfiguration_rust_sdk::connectivity::{build_dns_query, build_dns_query_with_id, ConnectivityCheck};
use ibm_appconfiguration_rust_sdk::requests::{bootstrap_contents, trim_text};

#[test]
fn test_build_dns_query() {
    let query = build_dns_query("cloud.ibm.com");
    assert!(query.len() > 12);
    assert_eq!(query[2], 0x01);
    assert_eq!(query[3], 0x00);
    assert_eq!(query[4], 0x00);
    assert_eq!(query[5], 0x01);
}

#[test]
fn test_dns_query_format() {
    let query = build_dns_query("test.example.com");
    let query_str = String::from_utf8_lossy(&query);
    assert!(query_str.contains("test"));
    assert!(query_str.contains("example"));
    assert!(query_str.contains("com"));
}

#[test]
fn dns_query_exact_bytes() {
    let q = build_dns_query_with_id("a.bc", 0x1234);
    assert_eq!(q, vec![0x12, 0x34, 1, 0, 0, 1, 0, 0, 0, 0, 0, 0, 1, b'a', 2, b'b', b'c', 0, 0, 1, 0, 1]);
    let q = build_dns_query_with_id("", 0);
    assert_eq!(&q[12..], &[0, 0, 0, 1, 0, 1]);
}

#[test]
fn connectivity_check_retries() {
    let mut c = ConnectivityCheck::new(2);
    assert_eq!(c.on_probe(false), None);
    assert_eq!(c.on_probe(false), None);
    assert_eq!(c.on_probe(false), Some(false));
    let mut c = ConnectivityCheck::new(2);
    assert_eq!(c.on_probe(false), None);
    assert_eq!(c.on_probe(true), Some(true));
}

#[test]
fn bootstrap_text_is_trimmed() {
    assert_eq!(trim_text("  {\"a\":1}\n"), "{\"a\":1}");
    assert_eq!(bootstrap_contents("b.json", " x ").unwrap(), "x");
    assert_eq!(bootstrap_contents("b.json", " \n ").unwrap_err().message(), "given bootstrap file is empty: b.json");
}

fn run_check(retries: u32, answers: &[bool]) -> (Option<bool>, usize) {
    let mut check = ConnectivityCheck::new(retries);
    for (i, answered) in answers.iter().enumerate() {
        if let Some(verdict) = check.on_probe(*answered) {
            return (Some(verdict), i + 1);
        }
    }
    (None, answers.len())
}

#[test]
fn retries_stop_at_the_first_answer() {
    assert_eq!(run_check(2, &[false, true, false]), (Some(true), 2));
    assert_eq!(run_check(2, &[false, false, false, true]), (Some(false), 3));
    assert_eq!(run_check(0, &[true]), (Some(true), 1));
    assert_eq!(run_check(0, &[false, true]), (Some(false), 1));
}
