use reverse_ssh_core::redact::{mask_string, redact_args, redact_ip, redact_path_with_home, redact_sensitive};

#[test]
fn test_redact_sensitive() {
    let input = "connecting with password=mysecretpass";
    let redacted = redact_sensitive(input);
    assert!(redacted.contains("[REDACTED]"));
    assert!(!redacted.contains("mysecretpass"));
}

#[test]
fn test_redact_no_sensitive() {
    let input = "connecting to server example.com";
    let redacted = redact_sensitive(input);
    assert_eq!(redacted, input);
}

#[test]
fn test_redact_ip() {
    assert_eq!(redact_ip("192.168.1.100"), "192.168.1.xxx");
    assert_eq!(redact_ip("example.com"), "example.com");
}

#[test]
fn test_mask_string() {
    assert_eq!(mask_string("verylongsecretkey", 3), "ver********key");
    assert_eq!(mask_string("short", 3), "*****");
}

#[test]
fn redaction_exact_forms() {
    assert_eq!(redact_sensitive("Token:abc, next"), "Token:[REDACTED], next");
    assert_eq!(redact_sensitive("Token: abc"), "Token: abc");
    assert_eq!(redact_sensitive("a KEY=v1 b"), "a KEY=[REDACTED] b");
    assert_eq!(redact_sensitive("password= x"), "password= x");
    assert_eq!(redact_sensitive("the key is here"), "the key is here");
}

#[test]
fn mask_and_ip_edges() {
    assert_eq!(mask_string("abcdefgh", 2), "ab****gh");
    assert_eq!(mask_string("", 0), "");
    assert_eq!(redact_ip("10.0.0.1"), "10.0.0.xxx");
    assert_eq!(redact_ip("nodots"), "nodots");
}

#[test]
fn home_directory_becomes_tilde() {
    assert_eq!(redact_path_with_home("/home/u/.ssh/id", Some("/home/u")), "~/.ssh/id");
    assert_eq!(redact_path_with_home("/etc/x", Some("/home/u")), "/etc/x");
    assert_eq!(redact_path_with_home("/etc/x", None), "/etc/x");
}

#[test]
fn argument_vectors_hide_identity_paths() {
    let args: Vec<String> = ["-i", "/home/u/.ssh/id", "-o", "token=abc", "u@h"].iter().map(|s| s.to_string()).collect();
    assert_eq!(redact_args(&args), vec!["-i", "[REDACTED]", "-o", "token=[REDACTED]", "u@h"]);
}
