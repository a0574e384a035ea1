//! Reading one television manuscript from the television server.

use vstd::prelude::*;

use crate::handler::ok_reply;
use crate::handler::ApiReply;
use crate::text::decimal_spec;

verus! {

/// The handler that answers one television manuscript.
pub struct GetTvArticle;

/// Its query: the manuscript's id.
pub struct GetTvArticleReq {
    pub docid: u64,
}

/// A television manuscript as the television server sends it; `video_time`
/// and `show_date_str` are filled in by the service.
pub struct ArticleDetail {
    pub id: u64,
    pub title: String,
    pub content: String,
    pub html_content: String,
    pub author: String,
    pub author_codes: String,
    pub photo_person: Option<String>,
    pub photo_person_codes: Option<String>,
    pub updated_by: String,
    pub colunm_name: String,
    pub show_date: i64,
    pub num_without_space: u32,
    pub num_with_space: u32,
    pub video_time: u64,
    pub show_date_str: String,
}

/// The address of manuscript `docid`: `{server}/s/doc/{docid}`.
pub open spec fn tv_article_url_spec(server_url: Seq<char>, docid: nat) -> Seq<char> {
    server_url + "/s/doc/"@ + decimal_spec(docid)
}

/// The address of manuscript `docid` on the television server.
pub fn tv_article_url(server_url: &str, docid: u64) -> (r: String)
    ensures
        r@ == tv_article_url_spec(server_url@, docid as nat),
{
    let mut u = String::from_str(server_url);
    u.append("/s/doc/");
    u.append(crate::text::decimal_u128(docid as u128).as_str());
    u
}

impl GetTvArticle {
    /// The reply carrying the manuscript: success, empty message.
    pub fn reply(article: ArticleDetail) -> (r: ApiReply<ArticleDetail>)
        ensures
            r.success,
            r.err_msg@ == ""@,
            r.data == article,
    {
        ok_reply("", article)
    }
}

} // verus!
