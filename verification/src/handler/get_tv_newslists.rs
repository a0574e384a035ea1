//! The television news lists of a column in a time window.

use vstd::prelude::*;

use crate::handler::{get_current_date, get_tomorrow_date, is_date_text, ok_reply, ApiReply};
use crate::text::concat2;

verus! {

/// The handler that answers the news lists of a column.
pub struct GetTvNewsLists;

/// Its query: column and time window, each optional.
pub struct GetTvNewsListsReq {
    pub column_id: Option<String>,
    pub start_time: Option<String>,
    pub end_time: Option<String>,
}

/// A news list as the television server describes it.
pub struct TvNewsList {
    pub id: String,
    pub title: String,
    pub showdate: String,
    pub columnid: String,
    pub column_code: String,
    pub column_name: String,
    pub channel_id: String,
    pub time_period_id: Option<String>,
    pub time_period_name: Option<String>,
    pub editorby: String,
    pub editorbycode: String,
}

/// A bound of the time window: the one given, else midnight of `date`
/// (`{date}%2000:00:00`, the space URL-encoded).
pub open spec fn window_bound(given: Option<String>, date: Seq<char>) -> Seq<char> {
    match given {
        Some(t) => t@,
        None => date + "%2000:00:00"@,
    }
}

/// `{server}/s/llist/getLlistByconditionsQuery?columnid={c}&startTime={s}&endTime={e}`.
pub open spec fn tv_newslists_url_spec(
    server_url: Seq<char>,
    column: Seq<char>,
    start: Seq<char>,
    end: Seq<char>,
) -> Seq<char> {
    server_url + "/s/llist/getLlistByconditionsQuery?columnid="@ + column + "&startTime="@ + start
        + "&endTime="@ + end
}

fn bound_text(given: Option<String>, date: &str) -> (r: String)
    ensures
        r@ == window_bound(given, date@),
{
    match given {
        Some(t) => t,
        None => concat2(date, "%2000:00:00"),
    }
}

/// The address of the news lists of column `column` between `start_time`
/// (default: midnight of `today`) and `end_time` (default: midnight of
/// `tomorrow`).
pub fn tv_newslists_url(
    server_url: &str,
    column: &str,
    start_time: Option<String>,
    end_time: Option<String>,
    today: &str,
    tomorrow: &str,
) -> (r: String)
    ensures
        r@ == tv_newslists_url_spec(
            server_url@,
            column@,
            window_bound(start_time, today@),
            window_bound(end_time, tomorrow@),
        ),
{
    let start = bound_text(start_time, today);
    let end = bound_text(end_time, tomorrow);
    let mut u = String::from_str(server_url);
    u.append("/s/llist/getLlistByconditionsQuery?columnid=");
    u.append(column);
    u.append("&startTime=");
    u.append(start.as_str());
    u.append("&endTime=");
    u.append(end.as_str());
    u
}

/// The address that `get_tv_newslists` requests: the window defaults to
/// today's and tomorrow's local dates. `None` when the system clock reads a
/// time before the Unix epoch or beyond the dates `chrono` represents.
pub fn tv_newslists_request(
    server_url: &str,
    column: &str,
    start_time: Option<String>,
    end_time: Option<String>,
) -> (r: Option<String>)
    ensures
        r matches Some(u) ==> exists|today: Seq<char>, tomorrow: Seq<char>|
            is_date_text(today) && is_date_text(tomorrow) && u@ == #[trigger] tv_newslists_url_spec(
                server_url@,
                column@,
                window_bound(start_time, today),
                window_bound(end_time, tomorrow),
            ),
{
    let cur_date = match get_current_date() {
        Some(d) => d,
        None => {
            return None;
        },
    };
    let tomorrow = match get_tomorrow_date() {
        Some(d) => d,
        None => {
            return None;
        },
    };
    Some(tv_newslists_url(server_url, column, start_time, end_time, cur_date.as_str(), tomorrow.as_str()))
}

impl GetTvNewsLists {
    /// The column asked for, the empty text when none is given.
    pub fn column_id(prms: &GetTvNewsListsReq) -> (r: String)
        ensures
            r@ == (match prms.column_id {
                Some(c) => c@,
                None => Seq::<char>::empty(),
            }),
    {
        match &prms.column_id {
            Some(c) => c.clone(),
            None => String::new(),
        }
    }

    /// The reply carrying the news lists.
    pub fn reply(lists: Vec<TvNewsList>) -> (r: ApiReply<Vec<TvNewsList>>)
        ensures
            r.success,
            r.err_msg@ == ""@,
            r.data == lists,
    {
        ok_reply("", lists)
    }
}

} // verus!
