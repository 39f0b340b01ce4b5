//! The cursor stream: the state machine that pulls one page at a time,
//! buffers its items, follows the `next` cursor, and backs off on a
//! rate-limit window.
//!
//! The machine is consumer-driven.  The caller (the transport driver)
//! calls [`Cursor::pull`] when the consumer wants the next item, performs
//! whatever [`Step`] comes back — issue the request of a `Fetch`, sleep
//! until a `Sleep` timestamp — and feeds the outcome back through
//! [`Cursor::on_page`] or [`Cursor::on_timer`].  At most one request or
//! timer is outstanding at any instant: a new one is started only by a
//! `Fetch` or `Sleep` step, and the contracts let those be produced only
//! when nothing is outstanding or the outstanding one has just resolved.
use vstd::prelude::*;
use vstd::seq_lib::*;
use vstd::string::StringExecFns;
use crate::auth::Twitter;
use crate::codec::{spec_decode_page, CursorData, PageM};
use crate::errors::Error;
use crate::json::json_of;
use crate::numfmt::{dec_str, usize_to_dec};
use crate::UserId;

verus! {

/// What `url` makes of a base URL and one extra query pair: the result
/// depends on the three strings alone; `None` when the base does not parse
/// as a URL.
pub uninterp spec fn url_with_query(base: Seq<char>, key: Seq<char>, value: Seq<char>) -> Option<
    Seq<char>,
>;

/// An optional string seen at the model level.
pub open spec fn opt_view(o: Option<String>) -> Option<Seq<char>> {
    match o {
        Some(s) => Some(s@),
        None => None,
    }
}

/// Relies on `url::Url::parse`, `Url::query_pairs_mut` with
/// `Serializer::append_pair`, and `Url::as_str`: parses the base, appends
/// the pair to the query, and renders the URL back to a string — a
/// deterministic function of the three strings, named `url_with_query`.
#[verifier::external_body]
fn url_append_query(base: &str, key: &str, value: &str) -> (r: Option<String>)
    ensures
        opt_view(r) == url_with_query(base@, key@, value@),
{
    match url::Url::parse(base) {
        Ok(mut u) => {
            u.query_pairs_mut().append_pair(key, value);
            Some(String::from(u.as_str()))
        },
        Err(_) => None,
    }
}

/// Where a stream stands between two calls.
#[derive(Clone, Copy, PartialEq, Eq, Debug)]
pub enum StreamState {
    /// No request outstanding; items may be buffered.
    Idle,
    /// One page request is outstanding.
    AwaitingPage,
    /// A rate-limit window is being waited out; the request is re-issued
    /// once `resume_at` is reached.
    Backoff { resume_at: usize },
    /// Terminal: exhausted or failed.
    Done,
}

/// A stream seen at the model level.
pub struct CursorM {
    pub url: Seq<char>,
    pub bearer: Seq<char>,
    pub prev: Option<Seq<char>>,
    pub next: Option<Seq<char>>,
    pub buffer: Seq<usize>,
    pub state: StreamState,
}

/// One page request, as plain values for the transport to send (a GET).
#[derive(Clone, PartialEq, Eq, Debug)]
pub struct PageRequest {
    pub url: String,
    pub authorization: String,
}

/// What the transport observed for one page request.
#[derive(PartialEq, Eq, Debug)]
pub enum PageResult {
    /// The full response body, on any status but 429.
    Success(Vec<u8>),
    /// HTTP 429; the value of the rate-limit-reset header, in seconds
    /// since the Unix epoch.
    RateLimited(usize),
    /// The request itself failed.
    Failure(Error),
}

/// What the caller must do next.
#[derive(PartialEq, Eq, Debug)]
pub enum Step {
    /// Hand this item to the consumer.
    Yield(UserId),
    /// End of the sequence; the stream is done.
    Finished,
    /// Issue this page request, then call [`Cursor::on_page`].
    Fetch(PageRequest),
    /// Sleep until this timestamp (seconds since the Unix epoch), then
    /// call [`Cursor::on_timer`].
    Sleep(usize),
    /// The stream failed; deliver the error to the consumer once.
    Abort(Error),
}

/// The cursor token `"0"` is the sentinel for "no further page": a stream
/// whose next cursor is `"0"` is exhausted once its buffer drains.
pub open spec fn terminal(next: Option<Seq<char>>) -> bool {
    next == Some("0"@)
}

/// The URL of the next page request: the base URL, with the cursor token
/// appended as the `cursor` query parameter when one has been observed.
pub open spec fn request_url_of(base: Seq<char>, next: Option<Seq<char>>) -> Option<Seq<char>> {
    match next {
        None => Some(base),
        Some(c) => url_with_query(base, "cursor"@, c),
    }
}

/// The `Authorization` header sent on every page request.
pub open spec fn bearer_header_of(token: Seq<char>) -> Seq<char> {
    "Bearer "@ + token
}

/// What issuing the next page request means: on a well-formed URL, a
/// `Fetch` of that URL with the session's bearer header, the stream now
/// awaiting the page; on a URL that does not build, a transport error and
/// the stream done.
pub open spec fn issue_step(m: CursorM, r: Step) -> bool {
    match request_url_of(m.url, m.next) {
        Some(u) => r matches Step::Fetch(req) && req.url@ == u && req.authorization@
            == bearer_header_of(m.bearer) && m.state is AwaitingPage,
        None => r == Step::Abort(Error::Transport) && m.state is Done,
    }
}

/// The stream's fields that no step ever changes.
pub open spec fn same_target(m0: CursorM, m1: CursorM) -> bool {
    m1.url == m0.url && m1.bearer == m0.bearer
}

/// The cursors and the buffer are kept (rate-limit handling and request
/// issue never advance the cursor).
pub open spec fn same_position(m0: CursorM, m1: CursorM) -> bool {
    m1.prev == m0.prev && m1.next == m0.next && m1.buffer == m0.buffer
}

/// A non-empty buffer yields its last item and keeps the rest; the
/// cursors stay put and the stream stays idle.
pub open spec fn yield_post(m0: CursorM, m1: CursorM, r: Step) -> bool {
    r == Step::Yield(m0.buffer.last()) && m1.buffer == m0.buffer.drop_last() && m1.state is Idle
        && m1.prev == m0.prev && m1.next == m0.next
}

/// How a successfully fetched body resolves, given its parse `doc`.
///
/// A decode failure aborts the stream without touching the cursors or the
/// buffer.  A decoded page replaces both cursors and the buffer, and the
/// stream re-evaluates at once: the last buffered item is yielded; or, on
/// an empty page, the stream either finishes (terminal cursor) or issues
/// the follow-up request immediately — an empty non-terminal page never
/// yields a spurious end of sequence and never waits for an extra pull.
pub open spec fn success_post(m0: CursorM, m1: CursorM, doc: Option<crate::json::JVal>, r: Step) -> bool {
    match spec_decode_page(doc) {
        Err(e) => r == Step::Abort(e) && m1.state is Done && same_position(m0, m1),
        Ok(p) => m1.prev == Some(p.prev) && m1.next == Some(p.next) && if p.values.len() > 0 {
            r == Step::Yield(p.values.last()) && m1.buffer == p.values.drop_last()
                && m1.state is Idle
        } else {
            m1.buffer.len() == 0 && if terminal(Some(p.next)) {
                r == Step::Finished && m1.state is Done
            } else {
                issue_step(m1, r)
            }
        },
    }
}

/// Well-formedness: the sentinel cursor is never the one awaited.  While
/// a page request or a backoff timer is outstanding, the observed next
/// cursor is not the terminal sentinel — `"0"` is never used to request a
/// page.  Every step preserves this.
pub open spec fn wf(m: CursorM) -> bool {
    m.state is AwaitingPage || m.state is Backoff ==> !terminal(m.next)
}

/// One consumer-driven stream over one paginated list endpoint.
///
/// Borrows its session; owns its buffer.  Created per logical pagination
/// request and never reused across base queries.
///
/// Emission order: items are popped from the tail of each buffered page,
/// so within a page they come out in the reverse of the server's listed
/// order, while pages are consumed oldest first.  This order is part of
/// the contract (see [`page_emission`]).
pub struct Cursor<'a> {
    client: &'a Twitter,
    url: String,
    previous_cursor_str: Option<String>,
    next_cursor_str: Option<String>,
    current_items: Vec<UserId>,
    state: StreamState,
}

impl<'a> View for Cursor<'a> {
    type V = CursorM;

    closed spec fn view(&self) -> CursorM {
        CursorM {
            url: self.url@,
            bearer: self.client.bearer@,
            prev: opt_view(self.previous_cursor_str),
            next: opt_view(self.next_cursor_str),
            buffer: self.current_items@,
            state: self.state,
        }
    }
}

impl<'a> Cursor<'a> {
    /// A fresh stream over `base`: empty buffer, no cursor observed yet,
    /// nothing outstanding.
    pub fn new(twit: &'a Twitter, base: String) -> (r: Cursor<'a>)
        ensures
            r@.url == base@,
            r@.bearer == twit.bearer@,
            r@.prev is None,
            r@.next is None,
            r@.buffer.len() == 0,
            r@.state is Idle,
            wf(r@),
    {
        Cursor {
            client: twit,
            url: base,
            previous_cursor_str: None,
            next_cursor_str: None,
            current_items: Vec::new(),
            state: StreamState::Idle,
        }
    }

    /// The consumer asks for the next item.  May only be called with
    /// nothing outstanding (after a `Fetch` or `Sleep` step, call
    /// [`Cursor::on_page`] or [`Cursor::on_timer`] instead).
    ///
    /// A non-empty buffer yields its last item.  An empty buffer with the
    /// terminal cursor finishes the stream.  Otherwise the next page
    /// request is issued, with the cursor observed so far.
    pub fn pull(&mut self) -> (r: Step)
        requires
            !(old(self)@.state is AwaitingPage),
            !(old(self)@.state is Backoff),
        ensures
            same_target(old(self)@, final(self)@),
            wf(final(self)@),
            old(self)@.state is Done ==> r == Step::Finished && final(self)@ == old(self)@,
            old(self)@.state is Idle && old(self)@.buffer.len() > 0 ==> yield_post(
                old(self)@,
                final(self)@,
                r,
            ),
            old(self)@.state is Idle && old(self)@.buffer.len() == 0 && terminal(old(self)@.next)
                ==> r == Step::Finished && final(self)@.state is Done && same_position(
                old(self)@,
                final(self)@,
            ),
            old(self)@.state is Idle && old(self)@.buffer.len() == 0 && !terminal(old(self)@.next)
                ==> same_position(old(self)@, final(self)@) && issue_step(final(self)@, r),
    {
        match self.state {
            StreamState::Done => Step::Finished,
            _ => self.advance(),
        }
    }

    /// Rules for an idle stream: yield from the buffer, finish on the
    /// sentinel, or issue the next request.
    fn advance(&mut self) -> (r: Step)
        requires
            old(self)@.state is Idle,
        ensures
            same_target(old(self)@, final(self)@),
            wf(final(self)@),
            old(self)@.buffer.len() > 0 ==> yield_post(old(self)@, final(self)@, r),
            old(self)@.buffer.len() == 0 && terminal(old(self)@.next) ==> r == Step::Finished
                && final(self)@.state is Done && same_position(old(self)@, final(self)@),
            old(self)@.buffer.len() == 0 && !terminal(old(self)@.next) ==> same_position(
                old(self)@,
                final(self)@,
            ) && issue_step(final(self)@, r),
    {
        if self.current_items.len() > 0 {
            match self.current_items.pop() {
                Some(x) => Step::Yield(x),
                None => {
                    proof {
                        assert(false);
                    }
                    Step::Finished
                },
            }
        } else {
            let is_terminal = match &self.next_cursor_str {
                Some(c) => *c == "0".to_owned(),
                None => false,
            };
            if is_terminal {
                self.state = StreamState::Done;
                Step::Finished
            } else {
                self.issue()
            }
        }
    }

    /// Issues the next page request (or aborts when the URL does not
    /// build).  The cursor does not advance here.
    fn issue(&mut self) -> (r: Step)
        requires
            !terminal(old(self)@.next),
        ensures
            same_target(old(self)@, final(self)@),
            same_position(old(self)@, final(self)@),
            wf(final(self)@),
            issue_step(final(self)@, r),
    {
        let url_opt: Option<String> = match &self.next_cursor_str {
            None => Some(self.url.clone()),
            Some(c) => url_append_query(self.url.as_str(), "cursor", c.as_str()),
        };
        match url_opt {
            Some(u) => {
                self.state = StreamState::AwaitingPage;
                let mut authorization: String = "Bearer ".to_owned();
                authorization.append(self.client.bearer.as_str());
                Step::Fetch(PageRequest { url: u, authorization })
            },
            None => {
                self.state = StreamState::Done;
                Step::Abort(Error::Transport)
            },
        }
    }

    /// The outstanding page request resolved.
    ///
    /// A body is decoded and the stream re-evaluates at once
    /// ([`success_post`]).  A rate-limit signal with a reset still in the
    /// future arms the backoff timer — the cursor is untouched, so the
    /// retried request is the same one; a reset already reached retries
    /// immediately.  A transport failure aborts the stream.
    pub fn on_page(&mut self, outcome: PageResult, now: usize) -> (r: Step)
        requires
            old(self)@.state is AwaitingPage,
            wf(old(self)@),
        ensures
            same_target(old(self)@, final(self)@),
            wf(final(self)@),
            match outcome {
                PageResult::Success(body) => success_post(
                    old(self)@,
                    final(self)@,
                    json_of(body@),
                    r,
                ),
                PageResult::RateLimited(reset) => same_position(old(self)@, final(self)@) && if reset
                    > now {
                    r == Step::Sleep(reset) && final(self)@.state == (StreamState::Backoff {
                        resume_at: reset,
                    })
                } else {
                    issue_step(final(self)@, r)
                },
                PageResult::Failure(e) => r == Step::Abort(e) && final(self)@.state is Done
                    && same_position(old(self)@, final(self)@),
            },
    {
        match outcome {
            PageResult::Success(body) => {
                match CursorData::from_slice(body.as_slice()) {
                    Ok(cd) => {
                        let CursorData { values, next_cursor_str, prev_cursor_str } = cd;
                        self.previous_cursor_str = Some(prev_cursor_str);
                        self.next_cursor_str = Some(next_cursor_str);
                        self.current_items = values;
                        self.state = StreamState::Idle;
                        self.advance()
                    },
                    Err(e) => {
                        self.state = StreamState::Done;
                        Step::Abort(e)
                    },
                }
            },
            PageResult::RateLimited(reset) => {
                if reset > now {
                    self.state = StreamState::Backoff { resume_at: reset };
                    Step::Sleep(reset)
                } else {
                    self.issue()
                }
            },
            PageResult::Failure(e) => {
                self.state = StreamState::Done;
                Step::Abort(e)
            },
        }
    }

    /// The backoff timer elapsed: re-issue the same request.  The
    /// `requires` is the backoff guarantee — the retry cannot be made
    /// before the reset timestamp.
    pub fn on_timer(&mut self, now: usize) -> (r: Step)
        requires
            old(self)@.state is Backoff,
            wf(old(self)@),
            now >= backoff_until(old(self)@.state),
        ensures
            same_target(old(self)@, final(self)@),
            same_position(old(self)@, final(self)@),
            wf(final(self)@),
            issue_step(final(self)@, r),
    {
        self.issue()
    }
}

/// The timestamp a backoff waits for.
pub open spec fn backoff_until(s: StreamState) -> usize
    recommends
        s is Backoff,
{
    match s {
        StreamState::Backoff { resume_at } => resume_at,
        _ => 0,
    }
}

/// Classifies one HTTP response for the page fetcher: status 429 with the
/// rate-limit-reset header is a rate-limit signal; 429 without the header
/// violates the protocol; any other status carries its body forward to the
/// codec.
pub open spec fn spec_classify(status: u16, reset: Option<usize>, body: Vec<u8>) -> PageResult {
    if status == 429 {
        match reset {
            Some(t) => PageResult::RateLimited(t),
            None => PageResult::Failure(Error::Protocol),
        }
    } else {
        PageResult::Success(body)
    }
}

/// Turns a raw response — status, optional `x-rate-limit-reset` header
/// value, body — into the page fetcher's classification.
pub fn classify_response(status: u16, rate_limit_reset: Option<usize>, body: Vec<u8>) -> (r:
    PageResult)
    ensures
        r == spec_classify(status, rate_limit_reset, body),
{
    if status == 429 {
        match rate_limit_reset {
            Some(t) => PageResult::RateLimited(t),
            None => PageResult::Failure(Error::Protocol),
        }
    } else {
        PageResult::Success(body)
    }
}

/// A fresh stream over `u` for the session with bearer token `bearer`.
pub open spec fn fresh_stream(m: CursorM, u: Seq<char>, bearer: Seq<char>) -> bool {
    m.url == u && m.bearer == bearer && m.prev is None && m.next is None && m.buffer.len() == 0
        && m.state is Idle
}

impl Twitter {
    /// A stream over the ids the user follows.  `None` when the endpoint
    /// URL does not build.
    pub fn list_friend_ids(&self, user: UserId) -> (r: Option<Cursor<'_>>)
        ensures
            match url_with_query(
                "https://api.twitter.com/1.1/friends/ids.json"@,
                "user_id"@,
                dec_str(user as nat),
            ) {
                Some(u) => r matches Some(c) && fresh_stream(c@, u, self.bearer@),
                None => r is None,
            },
    {
        let id = usize_to_dec(user);
        match url_append_query(
            "https://api.twitter.com/1.1/friends/ids.json",
            "user_id",
            id.as_str(),
        ) {
            Some(u) => Some(Cursor::new(self, u)),
            None => None,
        }
    }

    /// A stream over the ids of the user's followers.  `None` when the
    /// endpoint URL does not build.
    pub fn list_follower_ids(&self, user: UserId) -> (r: Option<Cursor<'_>>)
        ensures
            match url_with_query(
                "https://api.twitter.com/1.1/followers/ids.json"@,
                "user_id"@,
                dec_str(user as nat),
            ) {
                Some(u) => r matches Some(c) && fresh_stream(c@, u, self.bearer@),
                None => r is None,
            },
    {
        let id = usize_to_dec(user);
        match url_append_query(
            "https://api.twitter.com/1.1/followers/ids.json",
            "user_id",
            id.as_str(),
        ) {
            Some(u) => Some(Cursor::new(self, u)),
            None => None,
        }
    }
}

/// The emission of one decoded page: items are yielded from the tail of
/// the buffer, so within a page the order is the reverse of the server's
/// listed order.  Across pages, pages are consumed oldest first.
pub open spec fn page_emission(p: PageM) -> Seq<usize> {
    p.values.reverse()
}

/// Everything a sequence of pages emits, page by page.
pub open spec fn total_emission(pages: Seq<PageM>) -> Seq<usize>
    decreases pages.len(),
{
    if pages.len() == 0 {
        Seq::empty()
    } else {
        page_emission(pages.first()) + total_emission(pages.drop_first())
    }
}

/// What a stream emits, as the contracts drive it: yield the buffer from
/// the tail; finish on the terminal cursor; otherwise consume the next
/// page, whose items refill the buffer and whose cursor replaces `next`.
/// This is the composition of [`yield_post`] and [`success_post`] along a
/// run in which every issued request is answered with the next page.
pub open spec fn spec_drain(
    buffer: Seq<usize>,
    next: Option<Seq<char>>,
    pages: Seq<PageM>,
) -> Seq<usize>
    decreases pages.len(), buffer.len(),
{
    if buffer.len() > 0 {
        seq![buffer.last()] + spec_drain(buffer.drop_last(), next, pages)
    } else if terminal(next) {
        Seq::empty()
    } else if pages.len() == 0 {
        Seq::empty()
    } else {
        spec_drain(pages.first().values, Some(pages.first().next), pages.drop_first())
    }
}

/// Draining a buffer emits exactly its reverse before anything from the
/// remaining pages.
proof fn lemma_drain_buffer(buffer: Seq<usize>, next: Option<Seq<char>>, pages: Seq<PageM>)
    ensures
        spec_drain(buffer, next, pages) == buffer.reverse() + spec_drain(
            Seq::empty(),
            next,
            pages,
        ),
    decreases buffer.len(),
{
    if buffer.len() == 0 {
        assert(buffer =~= Seq::<usize>::empty());
        assert(buffer.reverse() =~= Seq::<usize>::empty());
        assert(buffer.reverse() + spec_drain(Seq::empty(), next, pages) =~= spec_drain(
            Seq::empty(),
            next,
            pages,
        ));
    } else {
        lemma_drain_buffer(buffer.drop_last(), next, pages);
        assert(buffer.reverse() =~= seq![buffer.last()] + buffer.drop_last().reverse());
        assert(seq![buffer.last()] + (buffer.drop_last().reverse() + spec_drain(
            Seq::empty(),
            next,
            pages,
        )) =~= (seq![buffer.last()] + buffer.drop_last().reverse()) + spec_drain(
            Seq::empty(),
            next,
            pages,
        ));
    }
}

/// Termination with exact emission: for any finite sequence of pages in
/// which only the final page carries the terminal cursor `"0"`, a fresh
/// stream that is answered with those pages in order terminates — the
/// drain is finite by construction — after emitting exactly the pages'
/// items, each page reversed, pages oldest first.
pub proof fn lemma_stream_termination(pages: Seq<PageM>)
    requires
        pages.len() > 0,
        forall|i: int| 0 <= i < pages.len() - 1 ==> !terminal(Some(#[trigger] pages[i].next)),
        terminal(Some(pages.last().next)),
    ensures
        spec_drain(Seq::empty(), None, pages) == total_emission(pages),
    decreases pages.len(),
{
    let p0 = pages.first();
    let rest = pages.drop_first();
    lemma_drain_buffer(p0.values, Some(p0.next), rest);
    if pages.len() == 1 {
        assert(pages.last() == p0);
        assert(total_emission(rest) =~= Seq::<usize>::empty());
        assert(page_emission(p0) + Seq::<usize>::empty() =~= page_emission(p0));
    } else {
        assert(!terminal(Some(p0.next))) by {
            assert(pages[0] == p0);
        }
        assert(rest.last() == pages.last());
        assert(forall|i: int|
            0 <= i < rest.len() - 1 ==> !terminal(Some(#[trigger] rest[i].next))) by {
            assert(forall|i: int| 0 <= i < rest.len() - 1 ==> rest[i] == pages[i + 1]);
        }
        lemma_stream_termination(rest);
        let r0 = rest.first();
        assert(spec_drain(Seq::empty(), Some(p0.next), rest) == spec_drain(
            r0.values,
            Some(r0.next),
            rest.drop_first(),
        ));
        assert(spec_drain(Seq::empty(), None, rest) == spec_drain(
            r0.values,
            Some(r0.next),
            rest.drop_first(),
        ));
    }
}

/// How many page requests or backoff timers a stream in state `s` has
/// outstanding.
pub open spec fn outstanding(s: StreamState) -> nat {
    match s {
        StreamState::AwaitingPage => 1,
        StreamState::Backoff { .. } => 1,
        _ => 0,
    }
}

/// At any instant a stream has at most one outstanding page request or
/// backoff timer: the state holds either the awaited request or the armed
/// timer, never both, and [`Cursor::pull`] refuses to run — and so to
/// issue a new `Fetch` — while either is outstanding.
pub proof fn lemma_at_most_one_in_flight(m: CursorM)
    ensures
        outstanding(m.state) <= 1,
{
}

/// Backoff re-issues the same request: when a rate-limited attempt arms
/// the timer (which keeps the stream's position) and the elapsed timer
/// issues a request (which keeps it again), that request's URL is built
/// from the very cursor the rate-limited attempt had used.  That the
/// retry is not issued before the reset timestamp is the `requires` of
/// [`Cursor::on_timer`].
pub proof fn lemma_backoff_retries_same_cursor(m0: CursorM, m1: CursorM, m2: CursorM, r: Step)
    requires
        same_target(m0, m1),
        same_position(m0, m1),
        same_target(m1, m2),
        same_position(m1, m2),
        issue_step(m2, r),
        request_url_of(m0.url, m0.next) is Some,
    ensures
        r matches Step::Fetch(req) && req.url@ == request_url_of(m0.url, m0.next)->Some_0,
{
}

} // verus!
