//! The reporters known to the television server.

use vstd::prelude::*;

use crate::handler::ApiReply;

verus! {

/// The handler that answers the television reporters.
pub struct GetTvReporters;

/// Its query, which carries nothing.
pub struct GetTvReportersReq;

/// The television server's answer to a query: a message and rows of id,
/// nickname and user code.
pub struct TvReporterResp {
    pub message: String,
    pub data: Vec<(u32, String, String)>,
}

/// An SQL query for the television server.
pub struct SqlQuery {
    pub sql: String,
}

impl GetTvReporters {
    /// `{server}/s/doc/queryBySQL`, where queries are posted.
    pub fn url(tv_server_url: &str) -> (r: String)
        ensures
            r@ == tv_server_url@ + "/s/doc/queryBySQL"@,
    {
        crate::text::concat2(tv_server_url, "/s/doc/queryBySQL")
    }

    /// The query for every user's id, nickname and user code.
    pub fn query() -> (r: SqlQuery)
        ensures
            r.sql@ == "\n            select id, nickname, usercode from sh_user\n            "@,
    {
        SqlQuery { sql: String::from_str("\n            select id, nickname, usercode from sh_user\n            ") }
    }

    /// The reply: the rows when the server answered (status OK), otherwise a
    /// failure with null data.
    pub fn reply(answer: Option<TvReporterResp>) -> (r: ApiReply<Option<Vec<(u32, String, String)>>>)
        ensures
            r.err_msg@ == ""@,
            r.success == answer is Some,
            match answer {
                Some(a) => r.data == Some(a.data),
                None => r.data is None,
            },
    {
        match answer {
            Some(a) => ApiReply { success: true, err_msg: String::from_str(""), data: Some(a.data) },
            None => ApiReply { success: false, err_msg: String::from_str(""), data: None },
        }
    }
}

} // verus!
