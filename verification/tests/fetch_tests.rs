use spin_apps::fetch::{image_request_url, FetchStep, RedirectPolicy, MAX_REDIRECTS};

#[test]
fn key_is_appended() {
    assert_eq!(image_request_url("https://x/y?key=", "K1"), "https://x/y?key=K1");
}

#[test]
fn ok_is_kept_at_once() {
    let mut p = RedirectPolicy::new();
    assert_eq!(p.step(200), FetchStep::Keep);
    assert_eq!(p.retries(), 0);
}

#[test]
fn redirects_are_followed_at_most_five_times() {
    let mut p = RedirectPolicy::new();
    let mut follows = 0;
    for _ in 0..20 {
        match p.step(302) {
            FetchStep::FollowRedirect => follows += 1,
            FetchStep::Keep => break,
        }
    }
    assert_eq!(follows, 5);
    assert_eq!(p.retries(), MAX_REDIRECTS);
    assert_eq!(p.step(302), FetchStep::Keep);
    assert_eq!(p.step(200), FetchStep::Keep);
}

#[test]
fn follow_then_ok() {
    let mut p = RedirectPolicy::new();
    assert_eq!(p.step(302), FetchStep::FollowRedirect);
    assert_eq!(p.step(404), FetchStep::FollowRedirect);
    assert_eq!(p.step(200), FetchStep::Keep);
    assert_eq!(p.retries(), 2);
}
