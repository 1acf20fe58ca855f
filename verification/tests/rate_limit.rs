use pwnforge::rate_limit::{
    after_increment, combine, email_resend_windows, login_attempt_windows, login_identifier_key,
    login_ip_key, login_reset_keys, most_restrictive, password_forgot_windows, password_reset_windows,
    setup_attempt_windows, setup_test_email_windows, window_decision, RateLimitDecision,
    LOGIN_IDENTIFIER_LIMIT, LOGIN_IP_LIMIT, LOGIN_WINDOW_SECS,
};
use pwnforge::token::hash_opaque_token;

use RateLimitDecision::{Allowed, Limited};

#[test]
fn most_restrictive_keeps_the_longest_wait() {
    assert_eq!(most_restrictive(Allowed, Allowed), Allowed);
    assert_eq!(most_restrictive(Limited { retry_after_secs: 5 }, Allowed), Limited { retry_after_secs: 5 });
    assert_eq!(most_restrictive(Allowed, Limited { retry_after_secs: 7 }), Limited { retry_after_secs: 7 });
    assert_eq!(
        most_restrictive(Limited { retry_after_secs: 5 }, Limited { retry_after_secs: 9 }),
        Limited { retry_after_secs: 9 }
    );
    assert_eq!(
        most_restrictive(Limited { retry_after_secs: 9 }, Limited { retry_after_secs: 5 }),
        Limited { retry_after_secs: 9 }
    );
}

#[test]
fn combine_folds_every_window() {
    assert_eq!(combine(&[]), Allowed);
    assert_eq!(combine(&[Allowed, Allowed]), Allowed);
    assert_eq!(
        combine(&[Limited { retry_after_secs: 3 }, Allowed, Limited { retry_after_secs: 30 }]),
        Limited { retry_after_secs: 30 }
    );
}

#[test]
fn window_refuses_beyond_its_limit() {
    assert_eq!(window_decision(10, 10, 100), Allowed);
    assert_eq!(window_decision(11, 10, 100), Limited { retry_after_secs: 100 });
    assert_eq!(window_decision(11, 10, -1), Limited { retry_after_secs: 0 });
}

#[test]
fn first_increment_starts_the_window() {
    let first = after_increment(1, 10);
    assert!(first.set_expiry && !first.read_ttl);
    let over = after_increment(11, 10);
    assert!(!over.set_expiry && over.read_ttl);
}

#[test]
fn identifier_key_is_hashed_and_case_insensitive() {
    let k = login_identifier_key("  Alice@Example.COM ");
    assert_eq!(k, format!("ratelimit:login:identifier:{}", hash_opaque_token("alice@example.com")));
    assert_eq!(k, login_identifier_key("alice@example.com"));
    assert_eq!(login_ip_key("203.0.113.42"), "ratelimit:login:ip:203.0.113.42");
}

#[test]
fn login_windows_identifier_then_address() {
    let w = login_attempt_windows("bob", "10.0.0.1");
    assert_eq!(w.len(), 2);
    assert_eq!(w[0].key, login_identifier_key("bob"));
    assert_eq!((w[0].limit, w[0].window_secs), (LOGIN_IDENTIFIER_LIMIT, LOGIN_WINDOW_SECS));
    assert_eq!(w[1].key, "ratelimit:login:ip:10.0.0.1");
    assert_eq!((w[1].limit, w[1].window_secs), (LOGIN_IP_LIMIT, LOGIN_WINDOW_SECS));
    assert_eq!((LOGIN_IDENTIFIER_LIMIT, LOGIN_IP_LIMIT, LOGIN_WINDOW_SECS), (10, 30, 900));
}

#[test]
fn successful_login_clears_only_the_identifier() {
    let keys = login_reset_keys("bob");
    assert_eq!(keys, vec![login_identifier_key("bob")]);
}

#[test]
fn other_endpoint_windows() {
    let f = password_forgot_windows("a@b.c", "1.1.1.1");
    assert_eq!((f[0].limit, f[0].window_secs, f[1].limit, f[1].window_secs), (3, 3600, 10, 3600));
    assert_eq!(f[1].key, "ratelimit:forgot:ip:1.1.1.1");
    let r = password_reset_windows("1.1.1.1");
    assert_eq!((r[0].key.as_str(), r[0].limit, r[0].window_secs), ("ratelimit:reset:ip:1.1.1.1", 20, 3600));
    let e = email_resend_windows(0x0190_0000_0000_7000_8000_0000_0000_0001);
    assert_eq!(e[0].key, "ratelimit:resend:user:01900000-0000-7000-8000-000000000001");
    assert_eq!(e[1].key, "ratelimit:resend:burst:user:01900000-0000-7000-8000-000000000001");
    assert_eq!((e[0].limit, e[0].window_secs, e[1].limit, e[1].window_secs), (5, 3600, 1, 60));
    let s = setup_attempt_windows("::1");
    assert_eq!((s[0].key.as_str(), s[0].limit), ("ratelimit:setup:ip:::1", 5));
    let t = setup_test_email_windows("::1");
    assert_eq!((t[0].key.as_str(), t[0].limit), ("ratelimit:setup:test_email:ip:::1", 5));
}
