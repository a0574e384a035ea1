//! The request handlers' shared logic: configuration, errors and replies,
//! request tokens and dates, and the bodies that the service posts to the
//! article server together with the reading of that server's replies.

use vstd::prelude::*;

use crate::clock::{
    local_date_at, local_timestamp_format, max_duration_millis, strftime_check,
    strftime_ok, system_since_epoch,
};
use crate::codec::{md5_digest, md5_spec};
use crate::json::{json_as_i64, Json};
use crate::pattern::{html_select_attr, html_select_attr_spec};
use crate::text::{
    concat2, count_char, decimal_i64, decimal_spec, decimal_u128, hex_lower, hex_lower_spec, pad2, pad2_spec,
    i32_failure, int_error_text, parse_i32, parse_i32_spec, parse_u32, parse_unsigned_spec, unsigned_failure,
    IntErrorKind, signed_decimal_spec, split_char,
    split_spec, str_equal, trim_matches, trim_spec, TrimSet,
};

pub mod get_articles;
pub mod get_mah_token;
pub mod get_paper_article_detail;
pub mod get_paper_articles;
pub mod get_tv_article;
pub mod get_tv_newslist_detail;
pub mod get_tv_newslists;
pub mod get_tv_reporters;
pub mod post_paper_articles;
pub mod post_tv_articles;
pub mod search_material;

use get_paper_article_detail::ArticleDetail as PaperArticleDetail;
use get_tv_article::ArticleDetail as TvArticleDetail;

verus! {

broadcast use vstd::string::group_string_axioms;

// ---------------------------------------------------------------------------
// Configuration, errors and replies
// ---------------------------------------------------------------------------

/// The service's settings, as its TOML configuration file gives them.
pub struct Config {
    pub port: u32,
    pub db_path: String,
    pub post_server_url: String,
    pub paper_server_url: String,
    pub tv_server_url: String,
    pub docstatus: u32,
    pub site_id: u32,
    pub get_paper_articles_interval: u64,
    pub tv_columnid: String,
    pub daemon: bool,
    pub timestamp_extra: u32,
    pub mah_token_server_url: String,
    pub mah_search_server_url: String,
    pub mah_content_server_url: String,
    pub mah_client_id: String,
    pub mah_client_secret: String,
    pub grant_type: String,
    pub loop_token_interval: u64,
    pub mah_username: String,
    pub search_char_at_least: usize,
    pub loop_tv_url_interval: u64,
    pub loop_tv_url_year: Option<u32>,
    pub loop_tv_url_month: Option<u32>,
    /// Patterns of titles that are not forwarded.
    pub filter_words: Vec<String>,
}

/// Why a step of a handler failed.
pub enum HandlerError {
    /// A failure described by a message.
    Message(String),
    /// A number in a date did not parse; why, as `str::parse` reports it.
    ParseInt(IntErrorKind),
    /// A filter word is no valid regular expression; the compiler's message.
    Regex(String),
}

impl HandlerError {
    /// The text that the service logs or answers for this error.
    pub fn message(&self) -> (r: String)
        ensures
            self matches HandlerError::Message(m) ==> r@ == m@,
            self matches HandlerError::ParseInt(k) ==> r@ == int_error_text(*k),
            self matches HandlerError::Regex(m) ==> r@ == m@,
    {
        match self {
            HandlerError::Message(m) => m.clone(),
            HandlerError::ParseInt(k) => k.message(),
            HandlerError::Regex(m) => m.clone(),
        }
    }
}

/// The error with message `msg`.
pub fn failure(msg: &str) -> (r: HandlerError)
    ensures
        r matches HandlerError::Message(m) && m@ == msg@,
{
    HandlerError::Message(String::from_str(msg))
}

/// The JSON object every endpoint answers: `success`, `errMsg`, `data`.
pub struct ApiReply<T> {
    pub success: bool,
    pub err_msg: String,
    pub data: T,
}

/// A successful reply with message `msg` and payload `data`.
pub fn ok_reply<T>(msg: &str, data: T) -> (r: ApiReply<T>)
    ensures
        r.success,
        r.err_msg@ == msg@,
        r.data == data,
{
    ApiReply { success: true, err_msg: String::from_str(msg), data }
}

/// The error that a handler answers with; its text is the reply's message.
pub struct WebErr {
    pub message: String,
}

impl WebErr {
    /// The reply sent for this error: `success` false, the message, and an
    /// empty string as data.
    pub fn reply(&self) -> (r: ApiReply<String>)
        ensures
            !r.success,
            r.err_msg@ == self.message@,
            r.data@ == Seq::<char>::empty(),
    {
        ApiReply { success: false, err_msg: self.message.clone(), data: String::new() }
    }
}

impl HandlerError {
    /// This error as a handler's error.
    pub fn into_web_err(&self) -> (r: WebErr)
        ensures
            self matches HandlerError::Message(m) ==> r.message@ == m@,
            self matches HandlerError::ParseInt(k) ==> r.message@ == int_error_text(*k),
            self matches HandlerError::Regex(m) ==> r.message@ == m@,
    {
        WebErr { message: self.message() }
    }
}

// ---------------------------------------------------------------------------
// Time stamps and tokens
// ---------------------------------------------------------------------------

/// `now_ms` milliseconds shifted by `extra` seconds.
pub fn millis_with_extra(now_ms: u128, extra: u32) -> (r: u128)
    requires
        now_ms <= max_duration_millis(),
    ensures
        r == now_ms + extra * 1000,
{
    now_ms + extra as u128 * 1000
}

/// The milliseconds of a clock reading of `secs` whole seconds and `nanos`
/// nanoseconds since the Unix epoch (its whole milliseconds, as
/// `Duration::as_millis` counts them), `extra` seconds ahead.
pub fn reading_millis(secs: u64, nanos: u32, extra: u32) -> (r: u128)
    requires
        nanos < 1_000_000_000,
    ensures
        r == secs * 1000 + nanos / 1_000_000 + extra * 1000,
        extra * 1000 <= r <= max_duration_millis() + extra * 1000,
{
    let now = secs as u128 * 1000 + (nanos / 1_000_000) as u128;
    millis_with_extra(now, extra)
}

/// Milliseconds since the Unix epoch, `extra` seconds ahead of the clock
/// (`reading_millis` of the clock's reading); `None` when the system clock
/// reads a time before the epoch.
pub fn get_now_millis(extra: u32) -> (r: Option<u128>)
    ensures
        r matches Some(v) ==> extra * 1000 <= v <= max_duration_millis() + extra * 1000,
{
    match system_since_epoch() {
        Some((secs, nanos)) => Some(reading_millis(secs, nanos, extra)),
        None => None,
    }
}

/// The salt that request tokens are computed with.
pub open spec fn token_salt() -> Seq<char> {
    "ak9@j&pq1w(e423q"@
}

/// The text whose digest is the token for time stamp `duration`:
/// the salt, a comma, and the time stamp in decimal.
pub open spec fn token_seed(duration: nat) -> Seq<char> {
    token_salt() + seq![','] + decimal_spec(duration)
}

/// The token for time stamp `duration`: the lower-case hexadecimal MD5 digest
/// of the UTF-8 bytes of its seed.
pub open spec fn token_spec(duration: nat) -> Seq<char> {
    hex_lower_spec(md5_spec(vstd::utf8::encode_utf8(token_seed(duration))))
}

/// The lower-case hexadecimal MD5 digest of the UTF-8 bytes of `seed`.
pub fn md5_hex(seed: &str) -> (r: String)
    ensures
        r@ == hex_lower_spec(md5_spec(vstd::utf8::encode_utf8(seed@))),
        is_hex_token(r@),
{
    let bytes = seed.as_bytes();
    let digest = md5_digest(bytes);
    let r = hex_lower(digest.as_slice());
    proof {
        crate::text::lemma_hex_lower_shape(digest@);
    }
    r
}

/// Whether `t` is 32 lower-case hexadecimal digits.
pub open spec fn is_hex_token(t: Seq<char>) -> bool {
    &&& t.len() == 32
    &&& forall|i: int|
        0 <= i < 32 ==> exists|d: nat| d < 16 && #[trigger] t[i] == crate::text::hex_digit_lower(d)
}

/// The request token for time stamp `duration`; it never fails.
pub fn get_token(duration: u128) -> (r: Result<String, HandlerError>)
    ensures
        r matches Ok(t) && t@ == token_spec(duration as nat) && is_hex_token(t@),
{
    let seed = crate::text::concat3("ak9@j&pq1w(e423q", ",", decimal_u128(duration).as_str());
    proof {
        assert(seq![','] =~= ","@) by {
            reveal_strlit(",");
        }
    }
    Ok(md5_hex(seed.as_str()))
}

/// A date as `year-MM-DD` (`format!("{}-{:02}-{:02}", y, m, d)`).
pub open spec fn date_spec(y: int, m: nat, d: nat) -> Seq<char> {
    signed_decimal_spec(y) + seq!['-'] + pad2_spec(m) + seq!['-'] + pad2_spec(d)
}

/// Whether `s` is the text of some calendar date.
pub open spec fn is_date_text(s: Seq<char>) -> bool {
    exists|y: i32, m: u32, d: u32|
        1 <= m <= 12 && 1 <= d <= 31 && s == #[trigger] date_spec(y as int, m as nat, d as nat)
}

/// The date `y`-`m`-`d` as `year-MM-DD`.
pub fn format_date(y: i32, m: u32, d: u32) -> (r: String)
    ensures
        r@ == date_spec(y as int, m as nat, d as nat),
{
    let mut s = decimal_i64(y as i64);
    s.append("-");
    s.append(pad2(m).as_str());
    s.append("-");
    s.append(pad2(d).as_str());
    proof {
        assert(seq!['-'] =~= "-"@) by {
            reveal_strlit("-");
        }
    }
    s
}

/// The local date `days` days after the clock's reading, as `year-MM-DD`;
/// `None` when the system clock reads a time before the Unix epoch or beyond
/// the dates `chrono` represents.
pub fn local_date_after(days: i64) -> (r: Option<String>)
    requires
        -1 <= days <= 1,
    ensures
        r matches Some(s) ==> is_date_text(s@),
{
    let (secs, nanos) = match system_since_epoch() {
        Some(t) => t,
        None => {
            return None;
        },
    };
    if secs > 0x7fff_ffff_ffff_ffff {
        return None;
    }
    let (y, m, d) = match local_date_at(secs as i64, nanos, days) {
        Some(t) => t,
        None => {
            return None;
        },
    };
    let r = format_date(y, m, d);
    assert(r@ == date_spec(y as int, m as nat, d as nat));
    Some(r)
}

/// Today's local date as `year-MM-DD`; `None` when the system clock reads a
/// time before the Unix epoch or beyond the dates `chrono` represents.
pub fn get_current_date() -> (r: Option<String>)
    ensures
        r matches Some(s) ==> is_date_text(s@),
{
    local_date_after(0)
}

/// Yesterday's local date as `year-MM-DD`; `None` when the system clock
/// reads a time before the Unix epoch or beyond the dates `chrono`
/// represents.
pub fn get_yesterday() -> (r: Option<String>)
    ensures
        r matches Some(s) ==> is_date_text(s@),
{
    local_date_after(-1)
}

/// Tomorrow's local date as `year-MM-DD`; `None` when the system clock reads
/// a time before the Unix epoch or beyond the dates `chrono` represents.
pub fn get_tomorrow_date() -> (r: Option<String>)
    ensures
        r matches Some(s) ==> is_date_text(s@),
{
    local_date_after(1)
}

/// A date text has at least three `-`-separated pieces.
pub proof fn lemma_date_pieces(s: Seq<char>)
    requires
        is_date_text(s),
    ensures
        split_spec(s, '-').len() >= 3,
{
    let (y, m, d) = choose|y: i32, m: u32, d: u32|
        1 <= m <= 12 && 1 <= d <= 31 && s == #[trigger] date_spec(y as int, m as nat, d as nat);
    let a = signed_decimal_spec(y as int);
    let p = pad2_spec(m as nat);
    let q = pad2_spec(d as nat);
    let dash = seq!['-'];
    assert(count_char(dash, '-') == 1) by {
        assert(dash.drop_last() =~= Seq::<char>::empty());
        assert(dash.last() == '-');
        assert(count_char(Seq::<char>::empty(), '-') == 0);
    }
    crate::text::lemma_count_concat(a, dash, '-');
    crate::text::lemma_count_concat(a + dash, p, '-');
    crate::text::lemma_count_concat(a + dash + p, dash, '-');
    crate::text::lemma_count_concat(a + dash + p + dash, q, '-');
    crate::text::lemma_split_shape(s, '-');
}

/// Seconds and the nanosecond field that `timestamp_ms` milliseconds give
/// when both are taken with truncating division and the nanoseconds are cast
/// to `u32` (a negative remainder wraps around).
pub open spec fn timestamp_split_spec(ms: int) -> (int, nat) {
    let sec = if ms >= 0 {
        ms / 1000
    } else {
        -((-ms) / 1000)
    };
    let rem = ms - sec * 1000;
    let nsec = if rem >= 0 {
        rem * 1_000_000
    } else {
        rem * 1_000_000 + 0x1_0000_0000
    };
    (sec, nsec as nat)
}

/// Seconds and nanosecond field of a millisecond time stamp.
pub fn split_timestamp_ms(timestamp_ms: i64) -> (r: (i64, u32))
    ensures
        r.0 as int == timestamp_split_spec(timestamp_ms as int).0,
        r.1 as nat == timestamp_split_spec(timestamp_ms as int).1,
{
    let (sec, rem): (i64, i64) = if timestamp_ms >= 0 {
        (timestamp_ms / 1000, timestamp_ms % 1000)
    } else if timestamp_ms == i64::MIN {
        (-9_223_372_036_854_775, -808)
    } else {
        let m = -timestamp_ms;
        (-(m / 1000), -(m % 1000))
    };
    let nsec: u32 = if rem >= 0 {
        (rem * 1_000_000) as u32
    } else {
        (rem * 1_000_000 + 0x1_0000_0000) as u32
    };
    (sec, nsec)
}

/// Whether a millisecond time stamp lies within the range that
/// `chrono_secs_in_range` gives in seconds.
pub open spec fn timestamp_ms_in_range(timestamp_ms: int) -> bool {
    -8_000_000_000_000_000 <= timestamp_ms <= 8_000_000_000_000_000
}

/// A millisecond time stamp as local date and time in the `chrono` format
/// `format`. It fails with "parse error" where no local time corresponds,
/// which is always the case for a negative time stamp that is not a whole
/// number of seconds, and succeeds for every other time stamp within about
/// 253,000 years of 1970.
pub fn timestamp_ms_to_local_date(timestamp_ms: i64, format: &str) -> (r: Result<String, HandlerError>)
    requires
        strftime_ok(format@),
    ensures
        r matches Err(e) ==> e matches HandlerError::Message(m) && m@ == "parse error"@,
        timestamp_split_spec(timestamp_ms as int).1 >= 2_000_000_000 ==> r is Err,
        timestamp_split_spec(timestamp_ms as int).1 < 1_000_000_000 && timestamp_ms_in_range(
            timestamp_ms as int,
        ) ==> r is Ok,
{
    let (sec, nsec) = split_timestamp_ms(timestamp_ms);
    match local_timestamp_format(sec, nsec, format) {
        Some(s) => Ok(s),
        None => Err(failure("parse error")),
    }
}

/// `timestamp_ms_to_local_date`, or `None` where `format` holds a specifier
/// that `chrono` does not know, on which that conversion would panic.
pub fn checked_timestamp_ms_to_local_date(timestamp_ms: i64, format: &str) -> (r: Option<
    Result<String, HandlerError>,
>)
    ensures
        r is None <==> !strftime_ok(format@),
        r matches Some(Err(e)) ==> e matches HandlerError::Message(m) && m@ == "parse error"@,
        timestamp_split_spec(timestamp_ms as int).1 >= 2_000_000_000 && strftime_ok(format@)
            ==> r matches Some(Err(_)),
        timestamp_split_spec(timestamp_ms as int).1 < 1_000_000_000 && timestamp_ms_in_range(
            timestamp_ms as int,
        ) && strftime_ok(format@) ==> r matches Some(Ok(_)),
{
    if strftime_check(format) {
        Some(timestamp_ms_to_local_date(timestamp_ms, format))
    } else {
        None
    }
}


// ---------------------------------------------------------------------------
// Posting articles and scores to the article server
// ---------------------------------------------------------------------------

/// The reply of the article server to a posted article or score.
pub struct PostResponse {
    pub success: bool,
    pub err_msg: String,
    pub data: Json,
}

/// The article record that the article server stores (`/article_from_dump`).
pub struct ArticlePost {
    pub title: String,
    pub tv_or_paper: u32,
    pub publish_year: i64,
    pub publish_month: i64,
    pub publish_day: i64,
    pub tv_url: String,
    pub page_meta_id: u32,
    pub page_name: String,
    pub state: u32,
    pub content: String,
    pub html_content: String,
    pub ref_id: u64,
    pub duration: u64,
    pub character_count: u32,
}

/// How a reporter is named in a score record.
pub enum ReporterKind {
    /// A writer, by reporter code.
    Author,
    /// A camera operator, by reporter code, with explicit empty id and name.
    Photographer,
    /// A reporter by name.
    Named,
}

/// One reporter's share of an article's score.
pub struct ReporterScore {
    pub kind: ReporterKind,
    pub ref_code: Option<String>,
    pub reporter_name: Option<String>,
    pub reporter_category_id: u32,
    pub score: u32,
}

/// The score record posted for an article.
pub struct ScorePost {
    pub article_id: u32,
    pub score_basic: u32,
    pub score_action: u32,
    pub reporter_scores: Vec<ReporterScore>,
}

/// `{server}/article_from_dump`, where articles are posted.
pub fn article_post_url(server_url: &str) -> (r: String)
    ensures
        r@ == server_url@ + "/article_from_dump"@,
{
    concat2(server_url, "/article_from_dump")
}

/// `{server}/score_for_dump`, where television scores are posted.
pub fn tv_score_url(server_url: &str) -> (r: String)
    ensures
        r@ == server_url@ + "/score_for_dump"@,
{
    concat2(server_url, "/score_for_dump")
}

/// `{server}/score`, where newspaper scores are posted.
pub fn paper_score_url(server_url: &str) -> (r: String)
    ensures
        r@ == server_url@ + "/score"@,
{
    concat2(server_url, "/score")
}

/// What a post to the article server gives, from its reply (`None` when the
/// status was not OK): the number in `data` when the server reports success,
/// "invalid response" when that is no integer, and otherwise `failure`,
/// followed by ", " and the server's message when the server answered.
pub open spec fn post_outcome_ok(reply: Option<PostResponse>, failure: Seq<char>, r: Result<i64, HandlerError>) -> bool {
    match reply {
        None => r matches Err(HandlerError::Message(m)) && m@ == failure,
        Some(p) => if p.success {
            match json_as_i64(p.data) {
                Some(id) => r == Ok::<i64, HandlerError>(id),
                None => r matches Err(HandlerError::Message(m)) && m@ == "invalid response"@,
            }
        } else {
            r matches Err(HandlerError::Message(m)) && m@ == failure + ", "@ + p.err_msg@
        },
    }
}

/// The reply that an optional reference stands for.
pub open spec fn reply_of(reply: Option<&PostResponse>) -> Option<PostResponse> {
    match reply {
        Some(p) => Some(*p),
        None => None,
    }
}

/// The outcome of a post to the article server, read from its reply (`None`
/// when the status was not OK).
pub fn post_reply_outcome(reply: Option<&PostResponse>, failure: &str) -> (r: Result<i64, HandlerError>)
    ensures
        post_outcome_ok(reply_of(reply), failure@, r),
{
    match reply {
        None => Err(crate::handler::failure(failure)),
        Some(p) => {
            if p.success {
                match p.data.as_i64() {
                    Some(id) => Ok(id),
                    None => Err(crate::handler::failure("invalid response")),
                }
            } else {
                Err(HandlerError::Message(crate::text::concat3(failure, ", ", p.err_msg.as_str())))
            }
        },
    }
}

/// What posting an article gives: the server's number cast to `u32` (its low
/// 32 bits) where the post outcome is a number, the outcome's error otherwise.
pub open spec fn article_result_ok(reply: Option<PostResponse>, failure: Seq<char>, r: Result<u32, HandlerError>) -> bool {
    match reply {
        Some(p) if p.success && json_as_i64(p.data) is Some => r == Ok::<u32, HandlerError>(
            json_as_i64(p.data)->0 as u32,
        ),
        _ => exists|e: HandlerError|
            #![trigger post_outcome_ok(reply, failure, Err::<i64, HandlerError>(e))]
            r == Err::<u32, HandlerError>(e) && post_outcome_ok(reply, failure, Err(e)),
    }
}

/// What posting a score gives: success where the post outcome is a number,
/// the outcome's error otherwise.
pub open spec fn score_result_ok(reply: Option<PostResponse>, failure: Seq<char>, r: Result<(), HandlerError>) -> bool {
    match reply {
        Some(p) if p.success && json_as_i64(p.data) is Some => r is Ok,
        _ => exists|e: HandlerError|
            #![trigger post_outcome_ok(reply, failure, Err::<i64, HandlerError>(e))]
            r == Err::<(), HandlerError>(e) && post_outcome_ok(reply, failure, Err(e)),
    }
}

/// The id that posting an article gives, read from the server's reply.
pub fn article_result(reply: Option<&PostResponse>, failure: &str) -> (r: Result<u32, HandlerError>)
    ensures
        article_result_ok(reply_of(reply), failure@, r),
{
    match post_reply_outcome(reply, failure) {
        Ok(id) => Ok(#[verifier::truncate] (id as u32)),
        Err(e) => Err(e),
    }
}

/// The result of posting a television article: its id.
pub fn tv_article_result(reply: Option<&PostResponse>) -> (r: Result<u32, HandlerError>)
    ensures
        article_result_ok(reply_of(reply), "post tv article failed"@, r),
{
    article_result(reply, "post tv article failed")
}

/// The result of posting a newspaper article: its id.
pub fn paper_article_result(reply: Option<&PostResponse>) -> (r: Result<u32, HandlerError>)
    ensures
        article_result_ok(reply_of(reply), "post paper article failed"@, r),
{
    article_result(reply, "post paper article failed")
}

/// The result of posting a score (television or newspaper; both report
/// "score tv article failed").
pub fn score_result(reply: Option<&PostResponse>) -> (r: Result<(), HandlerError>)
    ensures
        score_result_ok(reply_of(reply), "score tv article failed"@, r),
{
    match post_reply_outcome(reply, "score tv article failed") {
        Ok(_) => Ok(()),
        Err(e) => Err(e),
    }
}

// ---------------------------------------------------------------------------
// Television articles
// ---------------------------------------------------------------------------

/// A date piece as `str::parse::<u32>` reads it.
pub open spec fn parsed_u32(s: Seq<char>) -> Option<nat> {
    parse_unsigned_spec(s, u32::MAX as nat)
}

/// Whether reading the `-`-separated pieces of `show` as year, month and day
/// would index past the pieces: a piece is read only after the ones before it
/// parsed.
pub open spec fn tv_date_panics(show: Seq<char>) -> bool {
    let p = split_spec(show, '-');
    ||| parsed_u32(p[0]) is Some && p.len() < 2
    ||| parsed_u32(p[0]) is Some && parsed_u32(p[1]) is Some && p.len() < 3
}

/// Year, month and day read from the `-`-separated pieces of `show`, or
/// `None` at the first piece that does not parse.
pub open spec fn tv_date_numbers(show: Seq<char>) -> Option<(nat, nat, nat)> {
    let p = split_spec(show, '-');
    match parsed_u32(p[0]) {
        None => None,
        Some(y) => match parsed_u32(p[1]) {
            None => None,
            Some(m) => match parsed_u32(p[2]) {
                None => None,
                Some(d) => Some((y, m, d)),
            },
        },
    }
}

/// The error of the first `-`-separated piece of `show` that does not parse
/// as year, month or day.
pub open spec fn tv_date_failure(show: Seq<char>) -> IntErrorKind {
    let p = split_spec(show, '-');
    if parsed_u32(p[0]) is None {
        unsigned_failure(p[0], u32::MAX as nat)
    } else if parsed_u32(p[1]) is None {
        unsigned_failure(p[1], u32::MAX as nat)
    } else {
        unsigned_failure(p[2], u32::MAX as nat)
    }
}

/// Whether `post` is the record posted for television article `a` from site
/// `site_id`, published on `y`-`m`-`d`.
pub open spec fn is_tv_article_post(post: ArticlePost, a: TvArticleDetail, site_id: u32, y: nat, m: nat, d: nat) -> bool {
    &&& post.title == a.title
    &&& post.tv_or_paper == site_id
    &&& post.publish_year == y
    &&& post.publish_month == m
    &&& post.publish_day == d
    &&& post.tv_url@ == Seq::<char>::empty()
    &&& post.page_meta_id == 0
    &&& post.page_name@ == Seq::<char>::empty()
    &&& post.state == 1
    &&& post.content == a.content
    &&& post.html_content == a.html_content
    &&& post.ref_id == a.id
    &&& post.duration == a.video_time
    &&& post.character_count == a.num_with_space
}

/// The record posted for television article `article` from site `site_id`;
/// its publication date comes from `show_date_str`, year, month and day
/// separated by `-`.
pub fn tv_article_post(article: &TvArticleDetail, site_id: u32) -> (r: Result<ArticlePost, HandlerError>)
    requires
        !tv_date_panics(article.show_date_str@),
    ensures
        match tv_date_numbers(article.show_date_str@) {
            None => r == Err::<ArticlePost, HandlerError>(
                HandlerError::ParseInt(tv_date_failure(article.show_date_str@)),
            ),
            Some((y, m, d)) => r matches Ok(post) && is_tv_article_post(post, *article, site_id, y, m, d),
        },
{
    let parts = split_char(article.show_date_str.as_str(), '-');
    proof {
        crate::text::lemma_split_shape(article.show_date_str@, '-');
    }
    let y = match parse_u32(parts[0].as_str()) {
        Ok(v) => v,
        Err(k) => {
            return Err(HandlerError::ParseInt(k));
        },
    };
    let m = match parse_u32(parts[1].as_str()) {
        Ok(v) => v,
        Err(k) => {
            return Err(HandlerError::ParseInt(k));
        },
    };
    let d = match parse_u32(parts[2].as_str()) {
        Ok(v) => v,
        Err(k) => {
            return Err(HandlerError::ParseInt(k));
        },
    };
    Ok(ArticlePost {
        title: article.title.clone(),
        tv_or_paper: site_id,
        publish_year: y as i64,
        publish_month: m as i64,
        publish_day: d as i64,
        tv_url: String::new(),
        page_meta_id: 0,
        page_name: String::new(),
        state: 1,
        content: article.content.clone(),
        html_content: article.html_content.clone(),
        ref_id: article.id,
        duration: article.video_time,
        character_count: article.num_with_space,
    })
}

/// `tv_article_post`, or `None` where reading the date would index past its
/// pieces.
pub fn tv_article_post_checked(article: &TvArticleDetail, site_id: u32) -> (r: Option<
    Result<ArticlePost, HandlerError>,
>)
    ensures
        r is None <==> tv_date_panics(article.show_date_str@),
        match tv_date_numbers(article.show_date_str@) {
            None => r is Some ==> r == Some(
                Err::<ArticlePost, HandlerError>(
                    HandlerError::ParseInt(tv_date_failure(article.show_date_str@)),
                ),
            ),
            Some((y, m, d)) => r is Some ==> (r matches Some(Ok(post)) && is_tv_article_post(
                post,
                *article,
                site_id,
                y,
                m,
                d,
            )),
        },
{
    let parts = split_char(article.show_date_str.as_str(), '-');
    proof {
        crate::text::lemma_split_shape(article.show_date_str@, '-');
    }
    if parse_u32(parts[0].as_str()).is_ok() {
        if parts.len() < 2 {
            return None;
        }
        if parse_u32(parts[1].as_str()).is_ok() && parts.len() < 3 {
            return None;
        }
    }
    Some(tv_article_post(article, site_id))
}

/// The reporter codes listed in `codes`: the text without surrounding commas,
/// split at commas.
pub open spec fn code_list(codes: Seq<char>) -> Seq<Seq<char>> {
    split_spec(trim_spec(codes, TrimSet::Char(',')), ',')
}

/// The photographer codes of a television article (none given reads as the
/// empty text).
pub open spec fn photo_codes(a: TvArticleDetail) -> Seq<char> {
    match a.photo_person_codes {
        Some(s) => s@,
        None => Seq::<char>::empty(),
    }
}

/// Whether `s` names the reporter with code `code` in the manner `kind`, in
/// category `category`, with no score.
pub open spec fn is_coded_score(s: ReporterScore, kind: ReporterKind, code: Seq<char>, category: u32) -> bool {
    &&& s.kind == kind
    &&& s.ref_code matches Some(c) && c@ == code
    &&& s.reporter_name is None
    &&& s.reporter_category_id == category
    &&& s.score == 0
}

fn push_coded_scores(
    scores: &mut Vec<ReporterScore>,
    codes: &Vec<String>,
    kind: ReporterKind,
    category: u32,
)
    ensures
        final(scores)@.len() == old(scores)@.len() + codes@.len(),
        forall|i: int| 0 <= i < old(scores)@.len() ==> final(scores)@[i] == old(scores)@[i],
        forall|j: int|
            0 <= j < codes@.len() ==> is_coded_score(
                #[trigger] final(scores)@[old(scores)@.len() + j],
                kind,
                codes@[j]@,
                category,
            ),
{
    let ghost start = scores@.len();
    let mut j: usize = 0;
    while j < codes.len()
        invariant
            j <= codes@.len(),
            start == old(scores)@.len(),
            scores@.len() == start + j,
            forall|i: int| 0 <= i < start ==> scores@[i] == old(scores)@[i],
            forall|k: int|
                0 <= k < j ==> is_coded_score(#[trigger] scores@[start + k], kind, codes@[k]@, category),
        decreases codes.len() - j,
    {
        let k = match kind {
            ReporterKind::Author => ReporterKind::Author,
            ReporterKind::Photographer => ReporterKind::Photographer,
            ReporterKind::Named => ReporterKind::Named,
        };
        scores.push(
            ReporterScore {
                kind: k,
                ref_code: Some(codes[j].clone()),
                reporter_name: None,
                reporter_category_id: category,
                score: 0,
            },
        );
        j += 1;
    }
}

/// The score record posted for television article `article` once it was
/// stored under `article_id`: every writer code in category 3, then every
/// camera operator code in category 4, all without score.
pub fn tv_score_post(article_id: u32, article: &TvArticleDetail) -> (r: ScorePost)
    ensures
        r.article_id == article_id,
        r.score_basic == 0,
        r.score_action == 0,
        r.reporter_scores@.len() == code_list(article.author_codes@).len() + code_list(
            photo_codes(*article),
        ).len(),
        forall|i: int|
            0 <= i < code_list(article.author_codes@).len() ==> is_coded_score(
                #[trigger] r.reporter_scores@[i],
                ReporterKind::Author,
                code_list(article.author_codes@)[i],
                3,
            ),
        forall|j: int|
            0 <= j < code_list(photo_codes(*article)).len() ==> is_coded_score(
                #[trigger] r.reporter_scores@[code_list(article.author_codes@).len() + j],
                ReporterKind::Photographer,
                code_list(photo_codes(*article))[j],
                4,
            ),
{
    let authors = split_char(trim_matches(article.author_codes.as_str(), ',').as_str(), ',');
    let photo_text: &str = match &article.photo_person_codes {
        Some(s) => s.as_str(),
        None => "",
    };
    proof {
        reveal_strlit("");
    }
    let photographers = split_char(trim_matches(photo_text, ',').as_str(), ',');
    let mut scores: Vec<ReporterScore> = Vec::new();
    push_coded_scores(&mut scores, &authors, ReporterKind::Author, 3);
    let ghost first = scores@;
    assert forall|i: int| 0 <= i < authors@.len() implies is_coded_score(
        #[trigger] first[i],
        ReporterKind::Author,
        authors@[i]@,
        3,
    ) by {
        assert(first[0 + i] == first[i]);
    }
    push_coded_scores(&mut scores, &photographers, ReporterKind::Photographer, 4);
    assert forall|i: int| 0 <= i < authors@.len() implies is_coded_score(
        #[trigger] scores@[i],
        ReporterKind::Author,
        code_list(article.author_codes@)[i],
        3,
    ) by {
        assert(scores@[i] == first[i]);
        assert(authors.deep_view()[i] == authors@[i]@);
    }
    ScorePost { article_id, score_basic: 0, score_action: 0, reporter_scores: scores }
}


// ---------------------------------------------------------------------------
// Newspaper articles
// ---------------------------------------------------------------------------

/// The page number of the newspaper page named `c` ("一版" is 1 up to
/// "十六版", 16); 0 for any other name.
pub open spec fn paper_page_meta_id_spec(c: Seq<char>) -> nat {
    if c == "一版"@ {
        1
    } else if c == "二版"@ {
        2
    } else if c == "三版"@ {
        3
    } else if c == "四版"@ {
        4
    } else if c == "五版"@ {
        5
    } else if c == "六版"@ {
        6
    } else if c == "七版"@ {
        7
    } else if c == "八版"@ {
        8
    } else if c == "九版"@ {
        9
    } else if c == "十版"@ {
        10
    } else if c == "十一版"@ {
        11
    } else if c == "十二版"@ {
        12
    } else if c == "十三版"@ {
        13
    } else if c == "十四版"@ {
        14
    } else if c == "十五版"@ {
        15
    } else if c == "十六版"@ {
        16
    } else {
        0
    }
}

/// The Chinese numeral character for a digit 1 to 9.
pub open spec fn chinese_digit(d: nat) -> char {
    if d == 1 {
        '一'
    } else if d == 2 {
        '二'
    } else if d == 3 {
        '三'
    } else if d == 4 {
        '四'
    } else if d == 5 {
        '五'
    } else if d == 6 {
        '六'
    } else if d == 7 {
        '七'
    } else if d == 8 {
        '八'
    } else if d == 9 {
        '九'
    } else {
        '〇'
    }
}

/// The name of newspaper page `n` (1 to 16) in Chinese numerals: the digit,
/// `十` for ten, `十` and the digit for eleven to sixteen, then `版`.
pub open spec fn page_name(n: nat) -> Seq<char> {
    if n < 10 {
        seq![chinese_digit(n), '版']
    } else if n == 10 {
        seq!['十', '版']
    } else {
        seq!['十', chinese_digit((n - 10) as nat), '版']
    }
}

/// Every page named "N版" in Chinese numerals, N from one to sixteen, is
/// filed as page N; so distinct pages get distinct numbers.
pub proof fn lemma_page_numbers(n: nat)
    requires
        1 <= n <= 16,
    ensures
        paper_page_meta_id_spec(page_name(n)) == n,
{
    reveal_strlit("一版");
    reveal_strlit("二版");
    reveal_strlit("三版");
    reveal_strlit("四版");
    reveal_strlit("五版");
    reveal_strlit("六版");
    reveal_strlit("七版");
    reveal_strlit("八版");
    reveal_strlit("九版");
    reveal_strlit("十版");
    reveal_strlit("十一版");
    reveal_strlit("十二版");
    reveal_strlit("十三版");
    reveal_strlit("十四版");
    reveal_strlit("十五版");
    reveal_strlit("十六版");
    if n == 1 {
        assert(page_name(n) =~= "一版"@);
    } else if n == 2 {
        assert(page_name(n) != "一版"@) by {
            assert(page_name(n)[0] != "一版"@[0]);
        }
        assert(page_name(n) =~= "二版"@);
    } else if n == 3 {
        assert(page_name(n) != "一版"@) by {
            assert(page_name(n)[0] != "一版"@[0]);
        }
        assert(page_name(n) != "二版"@) by {
            assert(page_name(n)[0] != "二版"@[0]);
        }
        assert(page_name(n) =~= "三版"@);
    } else if n == 4 {
        assert(page_name(n) != "一版"@) by {
            assert(page_name(n)[0] != "一版"@[0]);
        }
        assert(page_name(n) != "二版"@) by {
            assert(page_name(n)[0] != "二版"@[0]);
        }
        assert(page_name(n) != "三版"@) by {
            assert(page_name(n)[0] != "三版"@[0]);
        }
        assert(page_name(n) =~= "四版"@);
    } else if n == 5 {
        assert(page_name(n) != "一版"@) by {
            assert(page_name(n)[0] != "一版"@[0]);
        }
        assert(page_name(n) != "二版"@) by {
            assert(page_name(n)[0] != "二版"@[0]);
        }
        assert(page_name(n) != "三版"@) by {
            assert(page_name(n)[0] != "三版"@[0]);
        }
        assert(page_name(n) != "四版"@) by {
            assert(page_name(n)[0] != "四版"@[0]);
        }
        assert(page_name(n) =~= "五版"@);
    } else if n == 6 {
        assert(page_name(n) != "一版"@) by {
            assert(page_name(n)[0] != "一版"@[0]);
        }
        assert(page_name(n) != "二版"@) by {
            assert(page_name(n)[0] != "二版"@[0]);
        }
        assert(page_name(n) != "三版"@) by {
            assert(page_name(n)[0] != "三版"@[0]);
        }
        assert(page_name(n) != "四版"@) by {
            assert(page_name(n)[0] != "四版"@[0]);
        }
        assert(page_name(n) != "五版"@) by {
            assert(page_name(n)[0] != "五版"@[0]);
        }
        assert(page_name(n) =~= "六版"@);
    } else if n == 7 {
        assert(page_name(n) != "一版"@) by {
            assert(page_name(n)[0] != "一版"@[0]);
        }
        assert(page_name(n) != "二版"@) by {
            assert(page_name(n)[0] != "二版"@[0]);
        }
        assert(page_name(n) != "三版"@) by {
            assert(page_name(n)[0] != "三版"@[0]);
        }
        assert(page_name(n) != "四版"@) by {
            assert(page_name(n)[0] != "四版"@[0]);
        }
        assert(page_name(n) != "五版"@) by {
            assert(page_name(n)[0] != "五版"@[0]);
        }
        assert(page_name(n) != "六版"@) by {
            assert(page_name(n)[0] != "六版"@[0]);
        }
        assert(page_name(n) =~= "七版"@);
    } else if n == 8 {
        assert(page_name(n) != "一版"@) by {
            assert(page_name(n)[0] != "一版"@[0]);
        }
        assert(page_name(n) != "二版"@) by {
            assert(page_name(n)[0] != "二版"@[0]);
        }
        assert(page_name(n) != "三版"@) by {
            assert(page_name(n)[0] != "三版"@[0]);
        }
        assert(page_name(n) != "四版"@) by {
            assert(page_name(n)[0] != "四版"@[0]);
        }
        assert(page_name(n) != "五版"@) by {
            assert(page_name(n)[0] != "五版"@[0]);
        }
        assert(page_name(n) != "六版"@) by {
            assert(page_name(n)[0] != "六版"@[0]);
        }
        assert(page_name(n) != "七版"@) by {
            assert(page_name(n)[0] != "七版"@[0]);
        }
        assert(page_name(n) =~= "八版"@);
    } else if n == 9 {
        assert(page_name(n) != "一版"@) by {
            assert(page_name(n)[0] != "一版"@[0]);
        }
        assert(page_name(n) != "二版"@) by {
            assert(page_name(n)[0] != "二版"@[0]);
        }
        assert(page_name(n) != "三版"@) by {
            assert(page_name(n)[0] != "三版"@[0]);
        }
        assert(page_name(n) != "四版"@) by {
            assert(page_name(n)[0] != "四版"@[0]);
        }
        assert(page_name(n) != "五版"@) by {
            assert(page_name(n)[0] != "五版"@[0]);
        }
        assert(page_name(n) != "六版"@) by {
            assert(page_name(n)[0] != "六版"@[0]);
        }
        assert(page_name(n) != "七版"@) by {
            assert(page_name(n)[0] != "七版"@[0]);
        }
        assert(page_name(n) != "八版"@) by {
            assert(page_name(n)[0] != "八版"@[0]);
        }
        assert(page_name(n) =~= "九版"@);
    } else if n == 10 {
        assert(page_name(n) != "一版"@) by {
            assert(page_name(n)[0] != "一版"@[0]);
        }
        assert(page_name(n) != "二版"@) by {
            assert(page_name(n)[0] != "二版"@[0]);
        }
        assert(page_name(n) != "三版"@) by {
            assert(page_name(n)[0] != "三版"@[0]);
        }
        assert(page_name(n) != "四版"@) by {
            assert(page_name(n)[0] != "四版"@[0]);
        }
        assert(page_name(n) != "五版"@) by {
            assert(page_name(n)[0] != "五版"@[0]);
        }
        assert(page_name(n) != "六版"@) by {
            assert(page_name(n)[0] != "六版"@[0]);
        }
        assert(page_name(n) != "七版"@) by {
            assert(page_name(n)[0] != "七版"@[0]);
        }
        assert(page_name(n) != "八版"@) by {
            assert(page_name(n)[0] != "八版"@[0]);
        }
        assert(page_name(n) != "九版"@) by {
            assert(page_name(n)[0] != "九版"@[0]);
        }
        assert(page_name(n) =~= "十版"@);
    } else if n == 11 {
        assert(page_name(n) != "一版"@) by {
            assert(page_name(n).len() != "一版"@.len());
        }
        assert(page_name(n) != "二版"@) by {
            assert(page_name(n).len() != "二版"@.len());
        }
        assert(page_name(n) != "三版"@) by {
            assert(page_name(n).len() != "三版"@.len());
        }
        assert(page_name(n) != "四版"@) by {
            assert(page_name(n).len() != "四版"@.len());
        }
        assert(page_name(n) != "五版"@) by {
            assert(page_name(n).len() != "五版"@.len());
        }
        assert(page_name(n) != "六版"@) by {
            assert(page_name(n).len() != "六版"@.len());
        }
        assert(page_name(n) != "七版"@) by {
            assert(page_name(n).len() != "七版"@.len());
        }
        assert(page_name(n) != "八版"@) by {
            assert(page_name(n).len() != "八版"@.len());
        }
        assert(page_name(n) != "九版"@) by {
            assert(page_name(n).len() != "九版"@.len());
        }
        assert(page_name(n) != "十版"@) by {
            assert(page_name(n).len() != "十版"@.len());
        }
        assert(page_name(n) =~= "十一版"@);
    } else if n == 12 {
        assert(page_name(n) != "一版"@) by {
            assert(page_name(n).len() != "一版"@.len());
        }
        assert(page_name(n) != "二版"@) by {
            assert(page_name(n).len() != "二版"@.len());
        }
        assert(page_name(n) != "三版"@) by {
            assert(page_name(n).len() != "三版"@.len());
        }
        assert(page_name(n) != "四版"@) by {
            assert(page_name(n).len() != "四版"@.len());
        }
        assert(page_name(n) != "五版"@) by {
            assert(page_name(n).len() != "五版"@.len());
        }
        assert(page_name(n) != "六版"@) by {
            assert(page_name(n).len() != "六版"@.len());
        }
        assert(page_name(n) != "七版"@) by {
            assert(page_name(n).len() != "七版"@.len());
        }
        assert(page_name(n) != "八版"@) by {
            assert(page_name(n).len() != "八版"@.len());
        }
        assert(page_name(n) != "九版"@) by {
            assert(page_name(n).len() != "九版"@.len());
        }
        assert(page_name(n) != "十版"@) by {
            assert(page_name(n).len() != "十版"@.len());
        }
        assert(page_name(n) != "十一版"@) by {
            assert(page_name(n)[1] != "十一版"@[1]);
        }
        assert(page_name(n) =~= "十二版"@);
    } else if n == 13 {
        assert(page_name(n) != "一版"@) by {
            assert(page_name(n).len() != "一版"@.len());
        }
        assert(page_name(n) != "二版"@) by {
            assert(page_name(n).len() != "二版"@.len());
        }
        assert(page_name(n) != "三版"@) by {
            assert(page_name(n).len() != "三版"@.len());
        }
        assert(page_name(n) != "四版"@) by {
            assert(page_name(n).len() != "四版"@.len());
        }
        assert(page_name(n) != "五版"@) by {
            assert(page_name(n).len() != "五版"@.len());
        }
        assert(page_name(n) != "六版"@) by {
            assert(page_name(n).len() != "六版"@.len());
        }
        assert(page_name(n) != "七版"@) by {
            assert(page_name(n).len() != "七版"@.len());
        }
        assert(page_name(n) != "八版"@) by {
            assert(page_name(n).len() != "八版"@.len());
        }
        assert(page_name(n) != "九版"@) by {
            assert(page_name(n).len() != "九版"@.len());
        }
        assert(page_name(n) != "十版"@) by {
            assert(page_name(n).len() != "十版"@.len());
        }
        assert(page_name(n) != "十一版"@) by {
            assert(page_name(n)[1] != "十一版"@[1]);
        }
        assert(page_name(n) != "十二版"@) by {
            assert(page_name(n)[1] != "十二版"@[1]);
        }
        assert(page_name(n) =~= "十三版"@);
    } else if n == 14 {
        assert(page_name(n) != "一版"@) by {
            assert(page_name(n).len() != "一版"@.len());
        }
        assert(page_name(n) != "二版"@) by {
            assert(page_name(n).len() != "二版"@.len());
        }
        assert(page_name(n) != "三版"@) by {
            assert(page_name(n).len() != "三版"@.len());
        }
        assert(page_name(n) != "四版"@) by {
            assert(page_name(n).len() != "四版"@.len());
        }
        assert(page_name(n) != "五版"@) by {
            assert(page_name(n).len() != "五版"@.len());
        }
        assert(page_name(n) != "六版"@) by {
            assert(page_name(n).len() != "六版"@.len());
        }
        assert(page_name(n) != "七版"@) by {
            assert(page_name(n).len() != "七版"@.len());
        }
        assert(page_name(n) != "八版"@) by {
            assert(page_name(n).len() != "八版"@.len());
        }
        assert(page_name(n) != "九版"@) by {
            assert(page_name(n).len() != "九版"@.len());
        }
        assert(page_name(n) != "十版"@) by {
            assert(page_name(n).len() != "十版"@.len());
        }
        assert(page_name(n) != "十一版"@) by {
            assert(page_name(n)[1] != "十一版"@[1]);
        }
        assert(page_name(n) != "十二版"@) by {
            assert(page_name(n)[1] != "十二版"@[1]);
        }
        assert(page_name(n) != "十三版"@) by {
            assert(page_name(n)[1] != "十三版"@[1]);
        }
        assert(page_name(n) =~= "十四版"@);
    } else if n == 15 {
        assert(page_name(n) != "一版"@) by {
            assert(page_name(n).len() != "一版"@.len());
        }
        assert(page_name(n) != "二版"@) by {
            assert(page_name(n).len() != "二版"@.len());
        }
        assert(page_name(n) != "三版"@) by {
            assert(page_name(n).len() != "三版"@.len());
        }
        assert(page_name(n) != "四版"@) by {
            assert(page_name(n).len() != "四版"@.len());
        }
        assert(page_name(n) != "五版"@) by {
            assert(page_name(n).len() != "五版"@.len());
        }
        assert(page_name(n) != "六版"@) by {
            assert(page_name(n).len() != "六版"@.len());
        }
        assert(page_name(n) != "七版"@) by {
            assert(page_name(n).len() != "七版"@.len());
        }
        assert(page_name(n) != "八版"@) by {
            assert(page_name(n).len() != "八版"@.len());
        }
        assert(page_name(n) != "九版"@) by {
            assert(page_name(n).len() != "九版"@.len());
        }
        assert(page_name(n) != "十版"@) by {
            assert(page_name(n).len() != "十版"@.len());
        }
        assert(page_name(n) != "十一版"@) by {
            assert(page_name(n)[1] != "十一版"@[1]);
        }
        assert(page_name(n) != "十二版"@) by {
            assert(page_name(n)[1] != "十二版"@[1]);
        }
        assert(page_name(n) != "十三版"@) by {
            assert(page_name(n)[1] != "十三版"@[1]);
        }
        assert(page_name(n) != "十四版"@) by {
            assert(page_name(n)[1] != "十四版"@[1]);
        }
        assert(page_name(n) =~= "十五版"@);
    } else if n == 16 {
        assert(page_name(n) != "一版"@) by {
            assert(page_name(n).len() != "一版"@.len());
        }
        assert(page_name(n) != "二版"@) by {
            assert(page_name(n).len() != "二版"@.len());
        }
        assert(page_name(n) != "三版"@) by {
            assert(page_name(n).len() != "三版"@.len());
        }
        assert(page_name(n) != "四版"@) by {
            assert(page_name(n).len() != "四版"@.len());
        }
        assert(page_name(n) != "五版"@) by {
            assert(page_name(n).len() != "五版"@.len());
        }
        assert(page_name(n) != "六版"@) by {
            assert(page_name(n).len() != "六版"@.len());
        }
        assert(page_name(n) != "七版"@) by {
            assert(page_name(n).len() != "七版"@.len());
        }
        assert(page_name(n) != "八版"@) by {
            assert(page_name(n).len() != "八版"@.len());
        }
        assert(page_name(n) != "九版"@) by {
            assert(page_name(n).len() != "九版"@.len());
        }
        assert(page_name(n) != "十版"@) by {
            assert(page_name(n).len() != "十版"@.len());
        }
        assert(page_name(n) != "十一版"@) by {
            assert(page_name(n)[1] != "十一版"@[1]);
        }
        assert(page_name(n) != "十二版"@) by {
            assert(page_name(n)[1] != "十二版"@[1]);
        }
        assert(page_name(n) != "十三版"@) by {
            assert(page_name(n)[1] != "十三版"@[1]);
        }
        assert(page_name(n) != "十四版"@) by {
            assert(page_name(n)[1] != "十四版"@[1]);
        }
        assert(page_name(n) != "十五版"@) by {
            assert(page_name(n)[1] != "十五版"@[1]);
        }
        assert(page_name(n) =~= "十六版"@);
    }
}

/// Distinct pages, one to sixteen, are filed under distinct page numbers,
/// and none of them under 0, the number of an unknown page.
pub proof fn lemma_page_numbers_distinct(n1: nat, n2: nat)
    requires
        1 <= n1 <= 16,
        1 <= n2 <= 16,
        n1 != n2,
    ensures
        paper_page_meta_id_spec(page_name(n1)) != paper_page_meta_id_spec(page_name(n2)),
        paper_page_meta_id_spec(page_name(n1)) != 0,
{
    lemma_page_numbers(n1);
    lemma_page_numbers(n2);
}

/// The page number of the newspaper page named `chnldesc`, 0 when unknown.
pub fn paper_page_meta_id(chnldesc: &str) -> (r: u32)
    ensures
        r == paper_page_meta_id_spec(chnldesc@),
{
    if str_equal(chnldesc, "一版") {
        1
    } else if str_equal(chnldesc, "二版") {
        2
    } else if str_equal(chnldesc, "三版") {
        3
    } else if str_equal(chnldesc, "四版") {
        4
    } else if str_equal(chnldesc, "五版") {
        5
    } else if str_equal(chnldesc, "六版") {
        6
    } else if str_equal(chnldesc, "七版") {
        7
    } else if str_equal(chnldesc, "八版") {
        8
    } else if str_equal(chnldesc, "九版") {
        9
    } else if str_equal(chnldesc, "十版") {
        10
    } else if str_equal(chnldesc, "十一版") {
        11
    } else if str_equal(chnldesc, "十二版") {
        12
    } else if str_equal(chnldesc, "十三版") {
        13
    } else if str_equal(chnldesc, "十四版") {
        14
    } else if str_equal(chnldesc, "十五版") {
        15
    } else if str_equal(chnldesc, "十六版") {
        16
    } else {
        0
    }
}

/// The first three `-`-separated pieces of a publication date (year, month,
/// day), or `None` when there are fewer than three.
pub fn paper_date_parts(pubdate: &str) -> (r: Option<(String, String, String)>)
    ensures
        split_spec(pubdate@, '-').len() < 3 ==> r is None,
        split_spec(pubdate@, '-').len() >= 3 ==> (r matches Some((y, m, d)) && y@ == split_spec(
            pubdate@,
            '-',
        )[0] && m@ == split_spec(pubdate@, '-')[1] && d@ == split_spec(pubdate@, '-')[2]),
{
    let parts = split_char(pubdate, '-');
    if parts.len() < 3 {
        return None;
    }
    assert(parts.deep_view()[0] == parts@[0]@);
    assert(parts.deep_view()[1] == parts@[1]@);
    assert(parts.deep_view()[2] == parts@[2]@);
    Some((parts[0].clone(), parts[1].clone(), parts[2].clone()))
}

/// `https://epaper.wifizs.cn/zsrb/{year}-{month}/{day}/node_{page}.html`.
pub open spec fn article_pdf_url_spec(year: Seq<char>, month: Seq<char>, day: Seq<char>, page: nat) -> Seq<char> {
    "https://epaper.wifizs.cn/zsrb/"@ + year + "-"@ + month + "/"@ + day + "/node_"@
        + decimal_spec(page) + ".html"@
}

/// The address of the electronic newspaper page that lists the PDF files of
/// the issue of `year`-`month`-`day`.
pub fn article_pdf_url(year: &str, month: &str, day: &str, page_meta_id: usize) -> (r: String)
    ensures
        r@ == article_pdf_url_spec(year@, month@, day@, page_meta_id as nat),
{
    let mut u = String::from_str("https://epaper.wifizs.cn/zsrb/");
    u.append(year);
    u.append("-");
    u.append(month);
    u.append("/");
    u.append(day);
    u.append("/node_");
    u.append(decimal_u128(page_meta_id as u128).as_str());
    u.append(".html");
    u
}

/// The PDF address for page `page_meta_id` among the `href` values of the
/// page's PDF links: the `page_meta_id`-th link's address, "invalid response"
/// when there is no such link or it has no address.
pub open spec fn pick_pdf_href_ok(links: Seq<Option<Seq<char>>>, page_meta_id: nat, r: Result<String, HandlerError>) -> bool {
    if 1 <= page_meta_id <= links.len() && links[page_meta_id - 1] is Some {
        r matches Ok(h) && h@ == links[page_meta_id - 1]->0
    } else {
        r matches Err(HandlerError::Message(m)) && m@ == "invalid response"@
    }
}

/// The address of the `page_meta_id`-th PDF link among `links`. The page
/// number counts from 1; a page number 0 with links present is left out.
pub fn pick_pdf_href(links: &Vec<Option<String>>, page_meta_id: usize) -> (r: Result<String, HandlerError>)
    requires
        page_meta_id >= 1 || links@.len() == 0,
    ensures
        pick_pdf_href_ok(links.deep_view(), page_meta_id as nat, r),
{
    if page_meta_id >= 1 && page_meta_id <= links.len() {
        assert(links.deep_view()[page_meta_id - 1] == links@[page_meta_id - 1].deep_view());
        match &links[page_meta_id - 1] {
            Some(h) => Ok(h.clone()),
            None => Err(failure("invalid response")),
        }
    } else {
        Err(failure("invalid response"))
    }
}

/// The address of the PDF file of page `page_meta_id` on the electronic
/// newspaper page `html` (its `a.pdf` links, counted from 1), or `None` where
/// the count would start below 1 while there are links.
pub fn pdf_href_from_page(html: &str, page_meta_id: usize) -> (r: Option<Result<String, HandlerError>>)
    ensures
        match html_select_attr_spec(html@, "a.pdf"@, "href"@) {
            None => r is None,
            Some(links) => if page_meta_id == 0 && links.len() > 0 {
                r is None
            } else {
                r matches Some(x) && pick_pdf_href_ok(links, page_meta_id as nat, x)
            },
        },
{
    match html_select_attr(html, "a.pdf", "href") {
        None => None,
        Some(links) => {
            if page_meta_id == 0 && links.len() > 0 {
                None
            } else {
                Some(pick_pdf_href(&links, page_meta_id))
            }
        },
    }
}

/// A date piece as `str::parse::<i32>` reads it.
pub open spec fn parsed_i32(s: Seq<char>) -> Option<int> {
    parse_i32_spec(s)
}

/// Year, month and day read from the first three `-`-separated pieces of
/// `pubdate`, or `None` at the first piece that does not parse.
pub open spec fn paper_date_numbers(pubdate: Seq<char>) -> Option<(int, int, int)> {
    let p = split_spec(pubdate, '-');
    match parsed_i32(p[0]) {
        None => None,
        Some(y) => match parsed_i32(p[1]) {
            None => None,
            Some(m) => match parsed_i32(p[2]) {
                None => None,
                Some(d) => Some((y, m, d)),
            },
        },
    }
}

/// The error of the first of the first three `-`-separated pieces of
/// `pubdate` that does not parse as year, month or day.
pub open spec fn paper_date_failure(pubdate: Seq<char>) -> IntErrorKind {
    let p = split_spec(pubdate, '-');
    if parsed_i32(p[0]) is None {
        i32_failure(p[0])
    } else if parsed_i32(p[1]) is None {
        i32_failure(p[1])
    } else {
        i32_failure(p[2])
    }
}

/// Whether `post` is the record posted for newspaper article `a` from site
/// `site_id`, published on `y`-`m`-`d`, on page `page_meta_id` whose PDF is
/// at `paper_url`.
pub open spec fn is_paper_article_post(
    post: ArticlePost,
    a: PaperArticleDetail,
    site_id: u32,
    page_meta_id: u32,
    paper_url: String,
    y: int,
    m: int,
    d: int,
) -> bool {
    &&& post.title == a.title
    &&& post.tv_or_paper == site_id
    &&& post.publish_year == y
    &&& post.publish_month == m
    &&& post.publish_day == d
    &&& post.tv_url == paper_url
    &&& post.page_meta_id == page_meta_id
    &&& post.page_name == a.chnldesc
    &&& post.state == 1
    &&& post.content == a.content
    &&& post.html_content == a.htmlcontent
    &&& post.ref_id == a.metadataid
    &&& post.duration == 0
    &&& post.character_count == a.docwordscount
}

/// The record posted for newspaper article `article` from site `site_id`, on
/// page `page_meta_id` whose PDF is at `paper_url`; its publication date
/// comes from `pubdate`, year, month and day separated by `-`.
pub fn paper_article_post(
    article: &PaperArticleDetail,
    site_id: u32,
    page_meta_id: u32,
    paper_url: String,
) -> (r: Result<ArticlePost, HandlerError>)
    requires
        split_spec(article.pubdate@, '-').len() >= 3,
    ensures
        match paper_date_numbers(article.pubdate@) {
            None => r == Err::<ArticlePost, HandlerError>(
                HandlerError::ParseInt(paper_date_failure(article.pubdate@)),
            ),
            Some((y, m, d)) => r matches Ok(post) && is_paper_article_post(
                post,
                *article,
                site_id,
                page_meta_id,
                paper_url,
                y,
                m,
                d,
            ),
        },
{
    let parts = split_char(article.pubdate.as_str(), '-');
    let y = match parse_i32(parts[0].as_str()) {
        Ok(v) => v,
        Err(k) => {
            return Err(HandlerError::ParseInt(k));
        },
    };
    let m = match parse_i32(parts[1].as_str()) {
        Ok(v) => v,
        Err(k) => {
            return Err(HandlerError::ParseInt(k));
        },
    };
    let d = match parse_i32(parts[2].as_str()) {
        Ok(v) => v,
        Err(k) => {
            return Err(HandlerError::ParseInt(k));
        },
    };
    Ok(ArticlePost {
        title: article.title.clone(),
        tv_or_paper: site_id,
        publish_year: y as i64,
        publish_month: m as i64,
        publish_day: d as i64,
        tv_url: paper_url,
        page_meta_id,
        page_name: article.chnldesc.clone(),
        state: 1,
        content: article.content.clone(),
        html_content: article.htmlcontent.clone(),
        ref_id: article.metadataid as u64,
        duration: 0,
        character_count: article.docwordscount,
    })
}

/// The score record posted for newspaper article `article` once it was
/// stored under `article_id`: its author, by name, in category 4, without
/// score.
pub fn paper_score_post(article_id: u32, article: &PaperArticleDetail) -> (r: ScorePost)
    ensures
        r.article_id == article_id,
        r.score_basic == 0,
        r.score_action == 0,
        r.reporter_scores@.len() == 1,
        r.reporter_scores@[0].kind == ReporterKind::Named,
        r.reporter_scores@[0].reporter_name == Some(article.author),
        r.reporter_scores@[0].ref_code is None,
        r.reporter_scores@[0].reporter_category_id == 4,
        r.reporter_scores@[0].score == 0,
{
    let mut scores: Vec<ReporterScore> = Vec::new();
    scores.push(
        ReporterScore {
            kind: ReporterKind::Named,
            ref_code: None,
            reporter_name: Some(article.author.clone()),
            reporter_category_id: 4,
            score: 0,
        },
    );
    ScorePost { article_id, score_basic: 0, score_action: 0, reporter_scores: scores }
}

} // verus!
