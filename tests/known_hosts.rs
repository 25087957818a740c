use reverse_ssh_core::known_hosts::{KnownHostEntry, KnownHostsManager};

#[test]
fn test_parse_known_host_entry() {
    let line = "example.com ssh-ed25519 AAAAC3NzaC1lZDI1NTE5AAAAI... user@host";
    let entry = KnownHostEntry::parse(line).unwrap();

    assert_eq!(entry.host, "example.com");
    assert_eq!(entry.key_type, "ssh-ed25519");
    assert!(entry.key.starts_with("AAAAC3"));
    assert_eq!(entry.comment, Some("user@host".to_string()));
}

#[test]
fn test_parse_empty_line() {
    assert!(KnownHostEntry::parse("").is_none());
    assert!(KnownHostEntry::parse("# comment").is_none());
}

#[test]
fn test_entry_to_line() {
    let entry = KnownHostEntry {
        host: "example.com".to_string(),
        key_type: "ssh-ed25519".to_string(),
        key: "AAAAC3...".to_string(),
        comment: None,
    };

    assert_eq!(entry.to_line(), "example.com ssh-ed25519 AAAAC3...");
}

#[test]
fn parse_trims_and_needs_three_words() {
    let e = KnownHostEntry::parse("  \th  t\tk  \r").unwrap();
    assert_eq!((e.host.as_str(), e.key_type.as_str(), e.key.as_str()), ("h", "t", "k"));
    assert!(e.comment.is_none());
    assert!(KnownHostEntry::parse("h t").is_none());
    assert!(KnownHostEntry::parse("   #h t k").is_none());
}

fn entry(host: &str, key: &str) -> KnownHostEntry {
    KnownHostEntry { host: host.to_string(), key_type: "ssh-ed25519".to_string(), key: key.to_string(), comment: None }
}

#[test]
fn re_adding_a_host_replaces_its_entry() {
    let mut m = KnownHostsManager::new("/tmp/kh");
    m.add(entry("a", "1"));
    m.add(entry("b", "2"));
    m.add(entry("a", "3"));
    assert_eq!(m.entries().len(), 2);
    assert_eq!(m.entries()[0].host, "b");
    assert_eq!(m.get("a").unwrap().key, "3");
    assert!(m.is_known("b"));
    m.remove("b");
    assert!(!m.is_known("b"));
    assert_eq!(m.path(), "/tmp/kh");
}

#[test]
fn text_round_trip() {
    let mut m = KnownHostsManager::new("kh");
    m.load_text("# header\n\nh1 ssh-rsa AAA c1\nbad line\nh2 ssh-ed25519 BBB");
    assert_eq!(m.entries().len(), 2);
    assert_eq!(m.to_text(), "h1 ssh-rsa AAA c1\nh2 ssh-ed25519 BBB");
    let mut n = KnownHostsManager::new("kh2");
    n.load_text(&m.to_text());
    assert_eq!(n.to_text(), m.to_text());
}
