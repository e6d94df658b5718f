use vault::orchestration::rate_limit::{
    IpAddress, IpRateLimiter, RateLimitDecision, BASE_BAN_MS, MAX_ATTEMPTS_PER_WINDOW, MAX_BAN_MS, STALE_ENTRY_MS,
    WINDOW_MS,
};

fn test_ip(last_octet: u8) -> IpAddress {
    IpAddress::V4(u32::from_be_bytes([192, 168, 1, last_octet]))
}

#[test]
fn allows_requests_within_the_window() {
    let mut limiter = IpRateLimiter::new();
    let ip = test_ip(1);
    let now = 1_000_000u64;

    for _ in 0..MAX_ATTEMPTS_PER_WINDOW {
        assert_eq!(limiter.check(ip, now), RateLimitDecision::Allow);
    }
}

#[test]
fn denies_after_exceeding_the_window() {
    let mut limiter = IpRateLimiter::new();
    let ip = test_ip(2);
    let now = 1_000_000u64;

    for _ in 0..MAX_ATTEMPTS_PER_WINDOW {
        limiter.check(ip, now);
    }

    let result = limiter.check(ip, now);
    match result {
        RateLimitDecision::Deny { retry_after_ms } => {
            assert_eq!(retry_after_ms, BASE_BAN_MS);
        }
        RateLimitDecision::Allow => panic!("debería haber rechazado tras agotar la ventana"),
    }
}

#[test]
fn stays_denied_during_the_ban_even_if_window_would_have_reset() {
    let mut limiter = IpRateLimiter::new();
    let ip = test_ip(3);
    let now = 1_000_000u64;

    for _ in 0..=MAX_ATTEMPTS_PER_WINDOW {
        limiter.check(ip, now);
    }

    let later = now + WINDOW_MS + 1;
    assert!(matches!(limiter.check(ip, later), RateLimitDecision::Deny { .. }));
}

#[test]
fn allows_again_after_the_ban_expires() {
    let mut limiter = IpRateLimiter::new();
    let ip = test_ip(4);
    let now = 1_000_000u64;

    for _ in 0..=MAX_ATTEMPTS_PER_WINDOW {
        limiter.check(ip, now);
    }

    let after_ban = now + BASE_BAN_MS + 1;
    assert_eq!(limiter.check(ip, after_ban), RateLimitDecision::Allow);
}

#[test]
fn ban_escalates_for_repeat_offenders() {
    let mut limiter = IpRateLimiter::new();
    let ip = test_ip(5);
    let mut now = 1_000_000u64;

    for _ in 0..=MAX_ATTEMPTS_PER_WINDOW {
        limiter.check(ip, now);
    }
    let first_ban = match limiter.check(ip, now) {
        RateLimitDecision::Deny { retry_after_ms } => retry_after_ms,
        RateLimitDecision::Allow => panic!("esperaba Deny"),
    };

    now += first_ban + 1;
    for _ in 0..=MAX_ATTEMPTS_PER_WINDOW {
        limiter.check(ip, now);
    }
    let second_ban = match limiter.check(ip, now) {
        RateLimitDecision::Deny { retry_after_ms } => retry_after_ms,
        RateLimitDecision::Allow => panic!("esperaba Deny"),
    };

    assert!(
        second_ban > first_ban,
        "el segundo ban ({second_ban}ms) debería ser más largo que el primero ({first_ban}ms)"
    );
}

#[test]
fn different_ips_are_tracked_independently() {
    let mut limiter = IpRateLimiter::new();
    let now = 1_000_000u64;
    let ip_a = test_ip(10);
    let ip_b = test_ip(20);

    for _ in 0..=MAX_ATTEMPTS_PER_WINDOW {
        limiter.check(ip_a, now);
    }

    assert_eq!(limiter.check(ip_b, now), RateLimitDecision::Allow);
}

#[test]
fn prune_removes_long_inactive_entries_but_keeps_active_bans() {
    let mut limiter = IpRateLimiter::new();
    let now = 1_000_000u64;
    let stale_ip = test_ip(30);
    let banned_ip = test_ip(31);

    limiter.check(stale_ip, now);
    for _ in 0..=MAX_ATTEMPTS_PER_WINDOW {
        limiter.check(banned_ip, now);
    }

    assert_eq!(limiter.tracked_ip_count(), 2);

    let far_future = now + STALE_ENTRY_MS + 1;
    limiter.prune_stale(far_future);

    assert_eq!(limiter.tracked_ip_count(), 0);
}

#[test]
fn ban_reports_the_time_left_and_caps_at_fifteen_minutes() {
    let mut limiter = IpRateLimiter::new();
    let ip = IpAddress::V6(1);
    let mut now = 10_000_000u64;
    let mut bans = Vec::new();
    for _ in 0..5 {
        for _ in 0..MAX_ATTEMPTS_PER_WINDOW {
            assert_eq!(limiter.check(ip, now), RateLimitDecision::Allow);
        }
        match limiter.check(ip, now) {
            RateLimitDecision::Deny { retry_after_ms } => bans.push(retry_after_ms),
            RateLimitDecision::Allow => panic!("expected a ban"),
        }
        assert_eq!(limiter.check(ip, now + 1_000), RateLimitDecision::Deny { retry_after_ms: bans[bans.len() - 1] - 1_000 });
        now += bans[bans.len() - 1];
    }
    assert_eq!(bans, vec![120_000, 240_000, 480_000, MAX_BAN_MS, MAX_BAN_MS]);
}

#[test]
fn window_renews_after_a_minute() {
    let mut limiter = IpRateLimiter::new();
    let ip = test_ip(40);
    let now = 2_000_000u64;
    for _ in 0..MAX_ATTEMPTS_PER_WINDOW {
        assert_eq!(limiter.check(ip, now), RateLimitDecision::Allow);
    }
    // exactly one window later the count still belongs to the same window
    assert!(matches!(limiter.check(ip, now + WINDOW_MS), RateLimitDecision::Deny { .. }));
    let mut other = IpRateLimiter::new();
    for _ in 0..MAX_ATTEMPTS_PER_WINDOW {
        other.check(ip, now);
    }
    assert_eq!(other.check(ip, now + WINDOW_MS + 1), RateLimitDecision::Allow);
}

#[test]
fn prune_keeps_recent_and_banned_entries() {
    let mut limiter = IpRateLimiter::new();
    let now = 100_000_000u64;
    for _ in 0..=MAX_ATTEMPTS_PER_WINDOW {
        limiter.check(test_ip(50), now);
    }
    limiter.check(test_ip(51), now + 10);
    limiter.prune_stale(now + 1_000);
    assert_eq!(limiter.tracked_ip_count(), 2);
    limiter.prune_stale(now + BASE_BAN_MS + 1);
    assert_eq!(limiter.tracked_ip_count(), 2);
    limiter.prune_stale(now + 10 + STALE_ENTRY_MS);
    assert_eq!(limiter.tracked_ip_count(), 0);
}
