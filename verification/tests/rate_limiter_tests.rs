use kyx_governance::rate_limiter::RateLimiter;

#[test]
fn test_rate_limiter_creation() {
    let mut limiter = RateLimiter::new();
    assert!(limiter.check_openai().is_ok());
    assert!(limiter.check_database().is_ok());
    assert!(limiter.check_user("test_user").is_ok());
}

#[test]
fn test_openai_rate_limit() {
    let limiter = RateLimiter::new();

    // Should allow first 60 requests
    for _ in 0..60 {
        assert!(limiter.check_openai().is_ok());
    }

    // 61st request should fail
    assert!(limiter.check_openai().is_err());
}

#[test]
fn test_user_rate_limit() {
    let mut limiter = RateLimiter::new();

    // Should allow first 100 requests
    for _ in 0..100 {
        assert!(limiter.check_user("user1").is_ok());
    }

    // 101st request should fail
    assert!(limiter.check_user("user1").is_err());

    // Different user should still work
    assert!(limiter.check_user("user2").is_ok());
}

#[test]
fn test_rate_limit_error_message() {
    let limiter = RateLimiter::new();
    for _ in 0..60 {
        let _ = limiter.check_openai();
    }
    match limiter.check_openai() {
        Err(m) => assert_eq!(
            m,
            "OpenAI rate limit exceeded (60 requests/min). Please try again later."
        ),
        Ok(_) => panic!("expected the bucket to be exhausted"),
    }
}
