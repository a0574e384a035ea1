//! The newspaper articles of a site in a date range.

use vstd::prelude::*;

use crate::clock::max_duration_millis;
use crate::handler::{
    get_current_date, get_now_millis, get_token, is_date_text, ok_reply, token_spec, ApiReply,
    HandlerError,
};
use crate::text::{decimal_spec, decimal_u128};

verus! {

/// The handler that answers the articles of a site.
pub struct GetArticles;

/// Its query: site, status and date range; status and dates are optional.
pub struct GetArticlesReq {
    pub site_id: u32,
    pub docstatus: Option<u32>,
    pub begin_date: Option<String>,
    pub end_date: Option<String>,
}

/// A newspaper article as the newspaper server lists it.
pub struct Article {
    pub metadataid: u32,
    pub doctype: u32,
    pub title: String,
    pub pubdate: String,
    pub author: String,
    pub chnldesc: String,
    pub docstatus: u32,
}

/// A date bound of the listing: the one given, else `today`.
pub open spec fn date_or(given: Option<String>, today: Seq<char>) -> Seq<char> {
    match given {
        Some(d) => d@,
        None => today,
    }
}

/// `{server}/paper/docs?token={t}&timestamp={now}&siteId={s}&beginDate={b}&endDate={e}&docstatus={d}`,
/// the status defaulting to 38.
pub open spec fn paper_articles_url_spec(
    server_url: Seq<char>,
    token: Seq<char>,
    now: nat,
    site_id: nat,
    begin_date: Seq<char>,
    end_date: Seq<char>,
    docstatus: Option<u32>,
) -> Seq<char> {
    server_url + "/paper/docs?token="@ + token + "&timestamp="@ + decimal_spec(now) + "&siteId="@
        + decimal_spec(site_id) + "&beginDate="@ + begin_date + "&endDate="@ + end_date
        + "&docstatus="@ + decimal_spec(
        match docstatus {
            Some(d) => d as nat,
            None => 38,
        },
    )
}

/// The address of the articles of site `site_id` with status `docstatus`
/// (default 38) between `begin_date` and `end_date` (default `today`), signed
/// with time stamp `now` and `token`.
pub fn paper_articles_url(
    server_url: &str,
    token: &str,
    now: u128,
    site_id: u32,
    docstatus: Option<u32>,
    begin_date: Option<String>,
    end_date: Option<String>,
    today: &str,
) -> (r: String)
    ensures
        r@ == paper_articles_url_spec(
            server_url@,
            token@,
            now as nat,
            site_id as nat,
            date_or(begin_date, today@),
            date_or(end_date, today@),
            docstatus,
        ),
{
    let begin = match begin_date {
        Some(d) => d,
        None => String::from_str(today),
    };
    let end = match end_date {
        Some(d) => d,
        None => String::from_str(today),
    };
    let status: u32 = match docstatus {
        Some(d) => d,
        None => 38,
    };
    let mut u = String::from_str(server_url);
    u.append("/paper/docs?token=");
    u.append(token);
    u.append("&timestamp=");
    u.append(decimal_u128(now).as_str());
    u.append("&siteId=");
    u.append(decimal_u128(site_id as u128).as_str());
    u.append("&beginDate=");
    u.append(begin.as_str());
    u.append("&endDate=");
    u.append(end.as_str());
    u.append("&docstatus=");
    u.append(decimal_u128(status as u128).as_str());
    u
}

/// The address that `get_paper_articles` requests: signed with the current
/// time, `extra` seconds ahead, and its token; the dates default to today.
/// `None` when the system clock reads a time before the Unix epoch or beyond
/// the dates `chrono` represents.
pub fn paper_articles_request(
    server_url: &str,
    site_id: u32,
    docstatus: Option<u32>,
    begin_date: Option<String>,
    end_date: Option<String>,
    extra: u32,
) -> (r: Option<Result<String, HandlerError>>)
    ensures
        r is Some ==> (r matches Some(Ok(u)) && exists|now: u128, today: Seq<char>|
            extra * 1000 <= now <= max_duration_millis() + extra * 1000 && is_date_text(today) && u@
                == #[trigger] paper_articles_url_spec(
                server_url@,
                token_spec(now as nat),
                now as nat,
                site_id as nat,
                date_or(begin_date, today),
                date_or(end_date, today),
                docstatus,
            )),
{
    let now_millis = match get_now_millis(extra) {
        Some(v) => v,
        None => {
            return None;
        },
    };
    let token = match get_token(now_millis) {
        Ok(t) => t,
        Err(e) => {
            return Some(Err(e));
        },
    };
    let c_date = match get_current_date() {
        Some(d) => d,
        None => {
            return None;
        },
    };
    Some(Ok(
        paper_articles_url(
            server_url,
            token.as_str(),
            now_millis,
            site_id,
            docstatus,
            begin_date,
            end_date,
            c_date.as_str(),
        ),
    ))
}

impl GetArticles {
    /// The reply carrying the articles, with message "获取文章".
    pub fn reply(articles: Vec<Article>) -> (r: ApiReply<Vec<Article>>)
        ensures
            r.success,
            r.err_msg@ == "获取文章"@,
            r.data == articles,
    {
        ok_reply("获取文章", articles)
    }
}

} // verus!
