use ssh_probe::build_ssh_args;
use ssh_probe::dec_string;
use ssh_probe::ssh_program;
use ssh_probe::trim;
use ssh_probe::TestConnectionRequest;

fn base_request() -> TestConnectionRequest {
    TestConnectionRequest {
        host: "example.com".to_string(),
        username: "alice".to_string(),
        port: None,
        private_key_path: None,
        accept_new_host_key: None,
        timeout_secs: None,
    }
}

fn strings(v: &[&str]) -> Vec<String> {
    v.iter().map(|s| s.to_string()).collect()
}

#[test]
fn program_is_ssh() {
    assert_eq!(ssh_program(), "ssh");
}

#[test]
fn minimal_request_full_argument_list() {
    let args = build_ssh_args(&base_request());
    assert_eq!(
        args,
        strings(&["-o", "ConnectTimeout=10", "-p", "22", "alice@example.com", "hostname"])
    );
}

#[test]
fn omitted_port_uses_22() {
    let args = build_ssh_args(&base_request());
    let p = args.iter().position(|a| a == "-p").unwrap();
    assert_eq!(args[p + 1], "22");
}

#[test]
fn explicit_port_is_used() {
    let mut req = base_request();
    req.port = Some(2222);
    let args = build_ssh_args(&req);
    let p = args.iter().position(|a| a == "-p").unwrap();
    assert_eq!(args[p + 1], "2222");
}

#[test]
fn omitted_timeout_uses_10_seconds() {
    let args = build_ssh_args(&base_request());
    assert_eq!(args[0], "-o");
    assert_eq!(args[1], "ConnectTimeout=10");
}

#[test]
fn explicit_timeout_is_used() {
    let mut req = base_request();
    req.timeout_secs = Some(3);
    let args = build_ssh_args(&req);
    assert_eq!(args[1], "ConnectTimeout=3");
}

#[test]
fn accept_new_host_key_true_adds_option() {
    let mut req = base_request();
    req.accept_new_host_key = Some(true);
    let args = build_ssh_args(&req);
    assert_eq!(args[2], "-o");
    assert_eq!(args[3], "StrictHostKeyChecking=accept-new");
}

#[test]
fn accept_new_host_key_false_adds_nothing() {
    let mut req = base_request();
    req.accept_new_host_key = Some(false);
    let args = build_ssh_args(&req);
    assert!(args.iter().all(|a| a != "StrictHostKeyChecking=accept-new"));
}

#[test]
fn accept_new_host_key_omitted_adds_nothing() {
    let args = build_ssh_args(&base_request());
    assert!(args.iter().all(|a| a != "StrictHostKeyChecking=accept-new"));
}

#[test]
fn private_key_present_adds_identity_file() {
    let mut req = base_request();
    req.private_key_path = Some("/home/alice/.ssh/id_ed25519".to_string());
    let args = build_ssh_args(&req);
    let i = args.iter().position(|a| a == "-i").unwrap();
    assert_eq!(args[i + 1], "/home/alice/.ssh/id_ed25519");
}

#[test]
fn private_key_absent_adds_no_identity_file() {
    let mut req = base_request();
    req.accept_new_host_key = Some(true);
    let args = build_ssh_args(&req);
    assert!(args.iter().all(|a| a != "-i"));
}

#[test]
fn all_options_in_fixed_order() {
    let req = TestConnectionRequest {
        host: "10.0.0.7".to_string(),
        username: "deploy".to_string(),
        port: Some(2200),
        private_key_path: Some("C:\\Users\\you\\.ssh\\id_ed25519".to_string()),
        accept_new_host_key: Some(true),
        timeout_secs: Some(25),
    };
    let args = build_ssh_args(&req);
    assert_eq!(
        args,
        strings(&[
            "-o",
            "ConnectTimeout=25",
            "-o",
            "StrictHostKeyChecking=accept-new",
            "-i",
            "C:\\Users\\you\\.ssh\\id_ed25519",
            "-p",
            "2200",
            "deploy@10.0.0.7",
            "hostname",
        ])
    );
}

#[test]
fn remote_command_is_last() {
    let args = build_ssh_args(&base_request());
    assert_eq!(args[args.len() - 1], "hostname");
}

#[test]
fn decimal_rendering() {
    assert_eq!(dec_string(0), "0");
    assert_eq!(dec_string(7), "7");
    assert_eq!(dec_string(10), "10");
    assert_eq!(dec_string(22), "22");
    assert_eq!(dec_string(65535), "65535");
    assert_eq!(dec_string(u64::MAX), "18446744073709551615");
}

#[test]
fn trimming() {
    assert_eq!(trim("  myhost.local\n"), "myhost.local");
    assert_eq!(trim(""), "");
    assert_eq!(trim(" \t\r\n"), "");
    assert_eq!(trim("a b"), "a b");
    assert_eq!(trim("\u{3000}x\u{00a0}"), "x");
    assert_eq!(trim("inner  kept\t"), "inner  kept");
}
