//! Reading one newspaper article from the newspaper server.

use vstd::prelude::*;

use crate::handler::{get_token, ok_reply, reading_millis, token_spec, ApiReply, HandlerError};
use crate::clock::{max_duration_millis, system_since_epoch};
use crate::text::{decimal_spec, decimal_u128};

verus! {

/// The handler that answers one newspaper article.
pub struct GetArticleDetail;

/// Its query: the article's metadata id.
pub struct GetArticleDetailReq {
    pub metadata_id: u32,
}

/// A newspaper article with its text, as the newspaper server sends it.
pub struct ArticleDetail {
    pub metadataid: u32,
    pub doctype: u32,
    pub title: String,
    pub pubdate: String,
    pub author: String,
    pub chnldesc: String,
    pub docstatus: u32,
    pub docwordscount: u32,
    pub htmlcontent: String,
    pub content: String,
    pub remarks: String,
}

/// `{server}/paper/docDetail?metadataId={id}&timestamp={now}&token={token}`.
pub open spec fn paper_detail_url_spec(
    server_url: Seq<char>,
    metadata_id: nat,
    now: nat,
    token: Seq<char>,
) -> Seq<char> {
    server_url + "/paper/docDetail?metadataId="@ + decimal_spec(metadata_id) + "&timestamp="@
        + decimal_spec(now) + "&token="@ + token
}

/// The address of article `metadata_id`, signed with time stamp `now` and
/// its token.
pub fn paper_detail_url(server_url: &str, metadata_id: u32, now: u128, token: &str) -> (r: String)
    ensures
        r@ == paper_detail_url_spec(server_url@, metadata_id as nat, now as nat, token@),
{
    let mut u = String::from_str(server_url);
    u.append("/paper/docDetail?metadataId=");
    u.append(decimal_u128(metadata_id as u128).as_str());
    u.append("&timestamp=");
    u.append(decimal_u128(now).as_str());
    u.append("&token=");
    u.append(token);
    u
}

/// The address that `get_paper_article_detail` requests at the clock reading
/// of `secs` seconds and `nanos` nanoseconds since the Unix epoch: signed with
/// the reading's whole milliseconds, `extra` seconds ahead, and the token for
/// that time stamp.
pub fn paper_detail_request_at(
    server_url: &str,
    metadata_id: u32,
    extra: u32,
    secs: u64,
    nanos: u32,
) -> (r: Result<String, HandlerError>)
    requires
        nanos < 1_000_000_000,
    ensures
        r matches Ok(u) && u@ == paper_detail_url_spec(
            server_url@,
            metadata_id as nat,
            (secs * 1000 + nanos / 1_000_000 + extra * 1000) as nat,
            token_spec((secs * 1000 + nanos / 1_000_000 + extra * 1000) as nat),
        ),
{
    let mis = reading_millis(secs, nanos, extra);
    let token = get_token(mis)?;
    Ok(paper_detail_url(server_url, metadata_id, mis, token.as_str()))
}

/// The address that `get_paper_article_detail` requests: signed with the
/// current time, `extra` seconds ahead, and the token for that time (the
/// request at the clock's reading, `paper_detail_request_at`); `None` when
/// the system clock reads a time before the Unix epoch.
pub fn paper_detail_request(server_url: &str, metadata_id: u32, extra: u32) -> (r: Option<
    Result<String, HandlerError>,
>)
    ensures
        r is Some ==> (r matches Some(Ok(u)) && exists|now: u128|
            extra * 1000 <= now <= max_duration_millis() + extra * 1000 && u@
                == #[trigger] paper_detail_url_spec(
                server_url@,
                metadata_id as nat,
                now as nat,
                token_spec(now as nat),
            )),
{
    match system_since_epoch() {
        Some((secs, nanos)) => {
            let r = paper_detail_request_at(server_url, metadata_id, extra, secs, nanos);
            let ghost now: u128 = (secs * 1000 + nanos / 1_000_000 + extra * 1000) as u128;
            assert(now == secs * 1000 + nanos / 1_000_000 + extra * 1000);
            Some(r)
        },
        None => None,
    }
}

impl GetArticleDetail {
    /// The reply carrying the article, with message "获取文章详情".
    pub fn reply(article: ArticleDetail) -> (r: ApiReply<ArticleDetail>)
        ensures
            r.success,
            r.err_msg@ == "获取文章详情"@,
            r.data == article,
    {
        ok_reply("获取文章详情", article)
    }
}

} // verus!
