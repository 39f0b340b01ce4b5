//! Scenario tests for the cursor stream: pagination across pages,
//! rate-limit backoff, and empty-page handling.
use twitter_cursor::auth::Twitter;
use twitter_cursor::errors::Error;
use twitter_cursor::stream::{classify_response, Cursor, PageResult, Step};

fn session() -> Twitter {
    Twitter { bearer: "tok".to_owned() }
}

fn expect_fetch(s: Step) -> twitter_cursor::stream::PageRequest {
    match s {
        Step::Fetch(req) => req,
        other => panic!("expected a fetch, got {:?}", other),
    }
}

fn expect_yield(s: Step) -> usize {
    match s {
        Step::Yield(x) => x,
        other => panic!("expected an item, got {:?}", other),
    }
}

#[test]
fn two_pages_yield_each_item_once_then_terminate() {
    let twit = session();
    let base = "https://api.twitter.com/1.1/friends/ids.json?user_id=1".to_owned();
    let mut c = Cursor::new(&twit, base.clone());

    let req = expect_fetch(c.pull());
    assert_eq!(req.url, base);
    assert_eq!(req.authorization, "Bearer tok");

    let body1 = br#"{"ids":[1,2,3],"next_cursor_str":"123","prev_cursor_str":"0"}"#.to_vec();
    assert_eq!(expect_yield(c.on_page(PageResult::Success(body1), 1000)), 3);
    assert_eq!(expect_yield(c.pull()), 2);
    assert_eq!(expect_yield(c.pull()), 1);

    let req2 = expect_fetch(c.pull());
    assert_eq!(
        req2.url,
        "https://api.twitter.com/1.1/friends/ids.json?user_id=1&cursor=123"
    );
    assert_eq!(req2.authorization, "Bearer tok");

    let body2 = br#"{"ids":[4],"next_cursor_str":"0","prev_cursor_str":"123"}"#.to_vec();
    assert_eq!(expect_yield(c.on_page(PageResult::Success(body2), 1001)), 4);

    assert_eq!(c.pull(), Step::Finished);
    assert_eq!(c.pull(), Step::Finished);
}

#[test]
fn rate_limited_page_backs_off_then_retries_same_request() {
    let twit = session();
    let base = "https://api.twitter.com/1.1/friends/ids.json?user_id=9".to_owned();
    let mut c = Cursor::new(&twit, base.clone());

    let req = expect_fetch(c.pull());
    assert_eq!(req.url, base);

    // 429 at simulated time 1000 with reset at 1005: sleep until 1005.
    assert_eq!(c.on_page(PageResult::RateLimited(1005), 1000), Step::Sleep(1005));

    // The timer elapses at the reset mark; the same request is re-issued.
    let retry = expect_fetch(c.on_timer(1005));
    assert_eq!(retry.url, base);
    assert_eq!(retry.authorization, "Bearer tok");

    let body = br#"{"ids":[9],"next_cursor_str":"0","prev_cursor_str":"0"}"#.to_vec();
    assert_eq!(expect_yield(c.on_page(PageResult::Success(body), 1006)), 9);
    assert_eq!(c.pull(), Step::Finished);
}

#[test]
fn reset_already_reached_retries_immediately() {
    let twit = session();
    let mut c = Cursor::new(&twit, "https://example.com/ids.json".to_owned());
    let _ = expect_fetch(c.pull());
    // Reset timestamp in the past: no sleep, the request is re-issued at once.
    let retry = expect_fetch(c.on_page(PageResult::RateLimited(900), 1000));
    assert_eq!(retry.url, "https://example.com/ids.json");
}

#[test]
fn empty_nonterminal_page_requests_follow_up_without_extra_pull() {
    let twit = session();
    let base = "https://example.com/ids.json".to_owned();
    let mut c = Cursor::new(&twit, base.clone());
    let _ = expect_fetch(c.pull());

    let body = br#"{"ids":[],"next_cursor_str":"5","prev_cursor_str":"0"}"#.to_vec();
    // The follow-up request comes back directly from on_page: no spurious
    // end of sequence, no extra consumer pull needed.
    let req = expect_fetch(c.on_page(PageResult::Success(body), 1000));
    assert_eq!(req.url, "https://example.com/ids.json?cursor=5");
}

#[test]
fn empty_terminal_page_finishes() {
    let twit = session();
    let mut c = Cursor::new(&twit, "https://example.com/ids.json".to_owned());
    let _ = expect_fetch(c.pull());
    let body = br#"{"ids":[],"next_cursor_str":"0","prev_cursor_str":"0"}"#.to_vec();
    assert_eq!(c.on_page(PageResult::Success(body), 1000), Step::Finished);
    assert_eq!(c.pull(), Step::Finished);
}

#[test]
fn undecodable_page_aborts_the_stream() {
    let twit = session();
    let mut c = Cursor::new(&twit, "https://example.com/ids.json".to_owned());
    let _ = expect_fetch(c.pull());
    let body = br#"[1,2,3]"#.to_vec();
    assert_eq!(c.on_page(PageResult::Success(body), 1000), Step::Abort(Error::Decode));
    assert_eq!(c.pull(), Step::Finished);
}

#[test]
fn transport_failure_aborts_the_stream() {
    let twit = session();
    let mut c = Cursor::new(&twit, "https://example.com/ids.json".to_owned());
    let _ = expect_fetch(c.pull());
    assert_eq!(
        c.on_page(PageResult::Failure(Error::Transport), 1000),
        Step::Abort(Error::Transport)
    );
    assert_eq!(c.pull(), Step::Finished);
}

#[test]
fn classify_distinguishes_rate_limit_from_success() {
    assert_eq!(classify_response(429, Some(1234), b"ignored".to_vec()), PageResult::RateLimited(1234));
    assert_eq!(classify_response(429, None, b"".to_vec()), PageResult::Failure(Error::Protocol));
    assert_eq!(classify_response(200, None, b"body".to_vec()), PageResult::Success(b"body".to_vec()));
    assert_eq!(classify_response(404, Some(7), b"nf".to_vec()), PageResult::Success(b"nf".to_vec()));
}

#[test]
fn list_friend_ids_builds_the_friends_endpoint() {
    let twit = session();
    let mut c = twit.list_friend_ids(17076641).unwrap();
    let req = expect_fetch(c.pull());
    assert_eq!(
        req.url,
        "https://api.twitter.com/1.1/friends/ids.json?user_id=17076641"
    );
    assert_eq!(req.authorization, "Bearer tok");
}

#[test]
fn list_follower_ids_builds_the_followers_endpoint() {
    let twit = session();
    let mut c = twit.list_follower_ids(17076641).unwrap();
    let req = expect_fetch(c.pull());
    assert_eq!(
        req.url,
        "https://api.twitter.com/1.1/followers/ids.json?user_id=17076641"
    );
}
