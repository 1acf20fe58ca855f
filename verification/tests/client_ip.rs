use pwnforge::client_ip::{audit_context, resolve, select_client_entry, session_context, ClientEntry, USER_AGENT_MAX_CHARS};
use pwnforge::entities::IpAddress;

fn forwarded(e: ClientEntry) -> Option<String> {
    match e {
        ClientEntry::Forwarded(s) => Some(s),
        _ => None,
    }
}

#[test]
fn no_trusted_proxy_uses_the_peer() {
    assert!(matches!(select_client_entry(Some("203.0.113.42"), 0), ClientEntry::Peer));
    assert!(matches!(select_client_entry(None, 0), ClientEntry::Peer));
}

#[test]
fn one_proxy_single_entry_chain() {
    assert_eq!(forwarded(select_client_entry(Some("203.0.113.42"), 1)).as_deref(), Some("203.0.113.42"));
}

#[test]
fn one_proxy_ignores_client_prepended_entry() {
    assert_eq!(
        forwarded(select_client_entry(Some("1.2.3.4, 203.0.113.42"), 1)).as_deref(),
        Some("203.0.113.42")
    );
}

#[test]
fn two_proxies_pick_second_from_right() {
    assert_eq!(
        forwarded(select_client_entry(Some("1.2.3.4, 203.0.113.42, 10.0.0.1"), 2)).as_deref(),
        Some("203.0.113.42")
    );
}

#[test]
fn chain_shorter_than_trusted_is_unresolved() {
    assert!(matches!(select_client_entry(Some("203.0.113.42"), 2), ClientEntry::Unresolved));
}

#[test]
fn absent_or_blank_header_is_unresolved() {
    assert!(matches!(select_client_entry(None, 1), ClientEntry::Unresolved));
    assert!(matches!(select_client_entry(Some("   "), 1), ClientEntry::Unresolved));
}


#[test]
fn user_agent_is_capped_in_characters() {
    let long: String = "é".repeat(600);
    let ctx = session_context(Some(&long), Some(IpAddress::V4(0x7f000001)));
    let ua = ctx.user_agent.unwrap();
    assert_eq!(ua.chars().count(), USER_AGENT_MAX_CHARS);
    assert_eq!(ctx.ip_address, Some(IpAddress::V4(0x7f000001)));
    let short = session_context(Some("curl/8"), None);
    assert_eq!(short.user_agent.as_deref(), Some("curl/8"));
    assert!(short.ip_address.is_none());
}

#[test]
fn audit_context_of_a_request_has_no_actor() {
    let ctx = audit_context(None, Some(IpAddress::V6(1)));
    assert!(ctx.actor_id.is_none());
    assert!(ctx.user_agent.is_none());
    assert_eq!(ctx.ip_address, Some(IpAddress::V6(1)));
}

/// The IPv4 address `a.b.c.d`.
fn ip(a: u32, b: u32, c: u32, d: u32) -> IpAddress {
    IpAddress::V4((a << 24) | (b << 16) | (c << 8) | d)
}

#[test]
fn trusted_zero_ignores_header_and_returns_remote() {
    let remote = ip(198, 51, 100, 7);
    assert_eq!(resolve(Some("203.0.113.42"), remote, 0), Some(remote));
}

#[test]
fn trusted_one_single_entry_chain() {
    let remote = ip(198, 51, 100, 7);
    assert_eq!(resolve(Some("203.0.113.42"), remote, 1), Some(ip(203, 0, 113, 42)));
}

#[test]
fn trusted_one_ignores_client_prepended_entry() {
    let remote = ip(198, 51, 100, 7);
    assert_eq!(resolve(Some("1.2.3.4, 203.0.113.42"), remote, 1), Some(ip(203, 0, 113, 42)));
}

#[test]
fn trusted_two_picks_second_from_right() {
    let remote = ip(198, 51, 100, 7);
    assert_eq!(resolve(Some("1.2.3.4, 203.0.113.42, 10.0.0.1"), remote, 2), Some(ip(203, 0, 113, 42)));
}

#[test]
fn trusted_two_chain_too_short_returns_none() {
    let remote = ip(198, 51, 100, 7);
    assert_eq!(resolve(Some("203.0.113.42"), remote, 2), None);
}

#[test]
fn trusted_one_header_absent_returns_none() {
    let remote = ip(198, 51, 100, 7);
    assert_eq!(resolve(None, remote, 1), None);
}

#[test]
fn malformed_entry_returns_none() {
    let remote = ip(198, 51, 100, 7);
    assert_eq!(resolve(Some("not-an-ip"), remote, 1), None);
}

#[test]
fn ipv6_entries_are_read() {
    let remote = ip(198, 51, 100, 7);
    assert_eq!(resolve(Some("2001:db8::1"), remote, 1), Some(IpAddress::V6(0x2001_0db8_0000_0000_0000_0000_0000_0001)));
    assert_eq!(resolve(Some("203.0.113.042"), remote, 1), None);
}
