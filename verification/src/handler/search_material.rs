//! Searching the media-asset server for the video material of an article,
//! and the daemon that fills in the video addresses of stored articles.

use vstd::prelude::*;

use crate::handler::{
    failure, get_current_date, is_date_text, lemma_date_pieces, ok_reply, ApiReply, HandlerError,
    WebErr,
};
use crate::json::{
    get_opt, json_as_array, json_as_bool, json_as_str, json_as_u64, json_index, Json,
};
use crate::pattern::{regex_error_message, regex_replace, regex_replace_all, regex_valid};
use crate::text::{
    decimal_spec, decimal_u128, parse_u32, parse_unsigned_spec, split_char, split_spec, trim,
    trim_spec, TrimSet,
};

verus! {

/// The handler that searches for material by title.
pub struct SearchMaterail;

/// Its request: the title, and optionally page and page size.
pub struct SearchMaterialReq {
    pub title: String,
    pub page: Option<u32>,
    pub page_size: Option<u32>,
}

/// A piece of video material found for a title.
#[derive(Debug)]
pub struct MaterialInfo {
    pub name: String,
    pub content_id: String,
    pub key_frame_path: String,
    pub file_paths: Vec<String>,
}

/// A search to run: title, page (from 1) and page size.
pub struct SearchPlan {
    pub title: String,
    pub page: u32,
    pub page_size: u32,
}

impl SearchMaterail {
    /// The search for request `prms`: refused when the title has fewer UTF-8
    /// bytes than `at_least`; page 1 and size 10 unless given.
    pub fn plan(prms: SearchMaterialReq, at_least: usize) -> (r: Result<SearchPlan, WebErr>)
        ensures
            (vstd::utf8::encode_utf8(prms.title@).len() as usize) < at_least ==> (r matches Err(e) && e.message@
                == "search cahracters length should more than "@ + decimal_spec(at_least as nat)),
            (vstd::utf8::encode_utf8(prms.title@).len() as usize) >= at_least ==> (r matches Ok(p) && p.title == prms.title
                && p.page == (match prms.page {
                Some(n) => n,
                None => 1,
            }) && p.page_size == (match prms.page_size {
                Some(n) => n,
                None => 10,
            })),
    {
        if prms.title.as_str().len() < at_least {
            let msg = crate::text::concat2(
                "search cahracters length should more than ",
                decimal_u128(at_least as u128).as_str(),
            );
            return Err(WebErr { message: msg });
        }
        let page = match prms.page {
            Some(n) => n,
            None => 1,
        };
        let page_size = match prms.page_size {
            Some(n) => n,
            None => 10,
        };
        Ok(SearchPlan { title: prms.title, page, page_size })
    }

    /// The reply carrying the material found, with message "获取查询成功".
    pub fn reply(found: Vec<MaterialInfo>) -> (r: ApiReply<Vec<MaterialInfo>>)
        ensures
            r.success,
            r.err_msg@ == "获取查询成功"@,
            r.data == found,
    {
        ok_reply("获取查询成功", found)
    }
}

/// The pattern of a parenthesised remark in full-width parentheses, shortest
/// match.
pub open spec fn remark_pattern() -> Seq<char> {
    "（.*?）"@
}

/// A title made fit for a search: every remark in full-width parentheses
/// replaced by a space, then white space trimmed from both ends. It fails only
/// if the remark pattern does not compile.
pub fn title_refactor(title: &str) -> (r: Result<String, HandlerError>)
    ensures
        r is Ok <==> regex_valid(remark_pattern()),
        r matches Ok(t) ==> t@ == trim_spec(
            regex_replace(remark_pattern(), title@, " "@),
            TrimSet::Whitespace,
        ),
{
    match regex_replace_all("（.*?）", title, " ") {
        Ok(replaced) => Ok(trim(replaced.as_str())),
        Err(e) => Err(HandlerError::Regex(regex_error_message(&e))),
    }
}

/// The body of a full-text search: the page, the page size, one keyword,
/// sorted by score, descending.
pub struct SearchQuery {
    pub page_index: u32,
    pub page_size: u32,
    pub person_id: String,
    pub keywords: Vec<String>,
    pub sort_field: String,
    pub sort_desc: bool,
    pub is_query_direct_sub: bool,
    pub keyword_search_type: String,
}

/// A search request: where it goes, its token, its `Host` header, its body.
pub struct SearchRequest {
    pub url: String,
    pub token: String,
    pub host: String,
    pub query: SearchQuery,
}

/// The search request for `title`: posted to `{server}/v1/search` with the
/// token and host `mah.wifizs.cn`; the keyword is the refactored title.
pub fn search_request(
    title: &str,
    page: u32,
    page_size: u32,
    mah_search_server_url: &str,
    token: &str,
) -> (r: Result<SearchRequest, HandlerError>)
    ensures
        r is Ok <==> regex_valid(remark_pattern()),
        r matches Ok(req) ==> {
            &&& req.url@ == mah_search_server_url@ + "/v1/search"@
            &&& req.token@ == token@
            &&& req.host@ == "mah.wifizs.cn"@
            &&& req.query.page_index == page
            &&& req.query.page_size == page_size
            &&& req.query.person_id@ == ""@
            &&& req.query.keywords@.len() == 1
            &&& req.query.keywords@[0]@ == trim_spec(
                regex_replace(remark_pattern(), title@, " "@),
                TrimSet::Whitespace,
            )
            &&& req.query.sort_field@ == "_score"@
            &&& req.query.sort_desc
            &&& req.query.is_query_direct_sub
            &&& req.query.keyword_search_type@ == "fullText"@
        },
{
    let keyword = title_refactor(title)?;
    let mut keywords: Vec<String> = Vec::new();
    keywords.push(keyword);
    Ok(
        SearchRequest {
            url: crate::text::concat2(mah_search_server_url, "/v1/search"),
            token: String::from_str(token),
            host: String::from_str("mah.wifizs.cn"),
            query: SearchQuery {
                page_index: page,
                page_size,
                person_id: String::from_str(""),
                keywords,
                sort_field: String::from_str("_score"),
                sort_desc: true,
                is_query_direct_sub: true,
                keyword_search_type: String::from_str("fullText"),
            },
        },
    )
}

/// The error when the search server's status is not OK.
pub fn search_failed() -> (r: HandlerError)
    ensures
        r matches HandlerError::Message(m) && m@ == "can not get search result"@,
{
    failure("can not get search result")
}

/// Name, key-frame path and content id of a search hit that has all three
/// as strings.
pub open spec fn candidate(d: Json) -> Option<(Seq<char>, Seq<char>, Seq<char>)> {
    match json_as_str(json_index(d, "name_"@)) {
        Some(name) => match json_as_str(json_index(d, "keyframepath_"@)) {
            Some(kf) => match json_as_str(json_index(d, "contentId_"@)) {
                Some(ci) => Some((name, kf, ci)),
                None => None,
            },
            None => None,
        },
        None => None,
    }
}

/// The usable hits among `items`, in order.
pub open spec fn candidates(items: Seq<Json>) -> Seq<(Seq<char>, Seq<char>, Seq<char>)>
    decreases items.len(),
{
    if items.len() == 0 {
        Seq::empty()
    } else {
        let init = candidates(items.drop_last());
        match candidate(items.last()) {
            Some(c) => init.push(c),
            None => init,
        }
    }
}

/// The usable hits of a search answer: those of `data.data` when `success`
/// is true.
pub open spec fn material_candidates_spec(v: Json) -> Seq<(Seq<char>, Seq<char>, Seq<char>)> {
    if json_as_bool(json_index(v, "success"@)) == Some(true) {
        match json_as_array(json_index(json_index(v, "data"@), "data"@)) {
            Some(items) => candidates(items),
            None => Seq::empty(),
        }
    } else {
        Seq::empty()
    }
}

/// Whether the search hit `d` has name `c.0`, key-frame path `c.1` and
/// content id `c.2` as the strings of its members `name_`, `keyframepath_`
/// and `contentId_`.
pub open spec fn hit_has(d: Json, c: (Seq<char>, Seq<char>, Seq<char>)) -> bool {
    &&& json_as_str(json_index(d, "name_"@)) == Some(c.0)
    &&& json_as_str(json_index(d, "keyframepath_"@)) == Some(c.1)
    &&& json_as_str(json_index(d, "contentId_"@)) == Some(c.2)
}

/// Every usable hit is the name, key-frame path and content id of some hit,
/// each read from its own member, and every hit that has all three as
/// strings is among them.
pub proof fn lemma_candidates_are_hits(items: Seq<Json>)
    ensures
        forall|k: int|
            0 <= k < candidates(items).len() ==> exists|j: int|
                0 <= j < items.len() && hit_has(#[trigger] items[j], #[trigger] candidates(items)[k]),
        forall|j: int, c: (Seq<char>, Seq<char>, Seq<char>)|
            0 <= j < items.len() && #[trigger] hit_has(items[j], c) ==> exists|k: int|
                0 <= k < candidates(items).len() && #[trigger] candidates(items)[k] == c,
    decreases items.len(),
{
    if items.len() > 0 {
        let init = items.drop_last();
        lemma_candidates_are_hits(init);
        let ci = candidates(init);
        let ca = candidates(items);
        assert forall|k: int| 0 <= k < ca.len() implies exists|j: int|
            0 <= j < items.len() && hit_has(#[trigger] items[j], #[trigger] ca[k]) by {
            if k < ci.len() {
                let j = choose|j: int| 0 <= j < init.len() && hit_has(#[trigger] init[j], ci[k]);
                assert(items[j] == init[j]);
                assert(ca[k] == ci[k]);
            } else {
                assert(hit_has(items[items.len() - 1], ca[k]));
            }
        }
        assert forall|j: int, c: (Seq<char>, Seq<char>, Seq<char>)|
            0 <= j < items.len() && #[trigger] hit_has(items[j], c) implies exists|k: int|
            0 <= k < ca.len() && #[trigger] ca[k] == c by {
            if j < init.len() {
                assert(init[j] == items[j]);
                let k = choose|k: int| 0 <= k < ci.len() && #[trigger] ci[k] == c;
                assert(ca[k] == ci[k]);
            } else {
                assert(items.last() == items[j]);
                assert(candidate(items.last()) == Some(c));
                assert(ca[ci.len() as int] == c);
            }
        }
    }
}

/// The material that a search answer lists is read member by member from
/// its hits: each has the name, key-frame path and content id of one hit of
/// `data.data`, and every hit with all three as strings is listed, when
/// `success` is true; nothing is listed otherwise.
pub proof fn lemma_material_candidates_are_hits(v: Json)
    ensures
        material_candidates_spec(v).len() > 0 ==> json_as_bool(json_index(v, "success"@)) == Some(true),
        json_as_array(json_index(json_index(v, "data"@), "data"@)) is None
            ==> material_candidates_spec(v).len() == 0,
        json_as_array(json_index(json_index(v, "data"@), "data"@)) matches Some(items) ==> forall|k: int|
            0 <= k < material_candidates_spec(v).len() ==> exists|j: int|
                0 <= j < items.len() && hit_has(
                    #[trigger] items[j],
                    #[trigger] material_candidates_spec(v)[k],
                ),
        json_as_bool(json_index(v, "success"@)) == Some(true) ==> (json_as_array(
            json_index(json_index(v, "data"@), "data"@),
        ) matches Some(items) ==> forall|j: int, c: (Seq<char>, Seq<char>, Seq<char>)|
            0 <= j < items.len() && #[trigger] hit_has(items[j], c) ==> exists|k: int|
                0 <= k < material_candidates_spec(v).len() && #[trigger] material_candidates_spec(
                    v,
                )[k] == c),
{
    if json_as_bool(json_index(v, "success"@)) == Some(true) {
        if let Some(items) = json_as_array(json_index(json_index(v, "data"@), "data"@)) {
            lemma_candidates_are_hits(items);
            let m = material_candidates_spec(v);
            assert(m == candidates(items));
            assert forall|j: int, c: (Seq<char>, Seq<char>, Seq<char>)|
                0 <= j < items.len() && #[trigger] hit_has(items[j], c) implies exists|k: int|
                0 <= k < m.len() && #[trigger] m[k] == c by {
                let k = choose|k: int| 0 <= k < candidates(items).len() && #[trigger] candidates(items)[k] == c;
                assert(m[k] == c);
            }
        }
    }
}

fn str_field(d: &Json, key: &str) -> (r: Option<String>)
    ensures
        match r {
            Some(s) => json_as_str(json_index(*d, key@)) == Some(s@),
            None => json_as_str(json_index(*d, key@)) is None,
        },
{
    match d.get(key) {
        Some(v) => match v.as_str() {
            Some(s) => Some(String::from_str(s)),
            None => None,
        },
        None => None,
    }
}

/// The material that a search answer lists, each without file paths yet:
/// the hits with name, key-frame path and content id, in order.
pub fn material_candidates(v: &Json) -> (r: Vec<MaterialInfo>)
    ensures
        r@.len() == material_candidates_spec(*v).len(),
        forall|k: int|
            0 <= k < r@.len() ==> (#[trigger] r@[k]).name@ == material_candidates_spec(*v)[k].0
                && r@[k].key_frame_path@ == material_candidates_spec(*v)[k].1
                && r@[k].content_id@ == material_candidates_spec(*v)[k].2
                && r@[k].file_paths@.len() == 0,
{
    let mut res: Vec<MaterialInfo> = Vec::new();
    let ok = match v.get("success") {
        Some(b) => match b.as_bool() {
            Some(x) => x,
            None => false,
        },
        None => false,
    };
    if !ok {
        return res;
    }
    let items = match get_opt(v.get("data"), "data") {
        Some(d) => d.as_array(),
        None => None,
    };
    let items = match items {
        Some(items) => items,
        None => {
            return res;
        },
    };
    let mut i: usize = 0;
    while i < items.len()
        invariant
            i <= items@.len(),
            json_as_array(json_index(json_index(*v, "data"@), "data"@)) == Some(items@),
            json_as_bool(json_index(*v, "success"@)) == Some(true),
            res@.len() == candidates(items@.take(i as int)).len(),
            forall|k: int|
                0 <= k < res@.len() ==> (#[trigger] res@[k]).name@ == candidates(
                    items@.take(i as int),
                )[k].0 && res@[k].key_frame_path@ == candidates(items@.take(i as int))[k].1
                    && res@[k].content_id@ == candidates(items@.take(i as int))[k].2
                    && res@[k].file_paths@.len() == 0,
        decreases items.len() - i,
    {
        assert(items@.take(i + 1).drop_last() =~= items@.take(i as int));
        assert(items@.take(i + 1).last() == items@[i as int]);
        let d = &items[i];
        match str_field(d, "name_") {
            Some(name) => match str_field(d, "keyframepath_") {
                Some(kf) => match str_field(d, "contentId_") {
                    Some(ci) => {
                        res.push(
                            MaterialInfo {
                                name,
                                content_id: ci,
                                key_frame_path: kf,
                                file_paths: Vec::new(),
                            },
                        );
                    },
                    None => {},
                },
                None => {},
            },
            None => {},
        }
        i += 1;
    }
    assert(items@.take(items@.len() as int) =~= items@);
    res
}

/// `{server}/v2/entity/base/{content_id}`, where a material's files are
/// described.
pub fn material_path_url(url: &str, content_id: &str) -> (r: String)
    ensures
        r@ == url@ + "/v2/entity/base/"@ + content_id@,
{
    crate::text::concat3(url, "/v2/entity/base/", content_id)
}

/// The file path of a preview entry, the empty text when it has none.
pub open spec fn preview_path(p: Json) -> Seq<char> {
    match json_as_str(json_index(p, "filePath"@)) {
        Some(s) => s,
        None => Seq::empty(),
    }
}

/// The file paths that a material description gives (`None` when the status
/// was not OK): the paths of `data.previewFile` when `success` is true.
pub open spec fn material_paths_ok(reply: Option<Json>, r: Result<Vec<String>, HandlerError>) -> bool {
    match reply {
        None => r matches Err(HandlerError::Message(m)) && m@ == "can not get filepathes"@,
        Some(v) => if json_as_bool(json_index(v, "success"@)) == Some(true) {
            match json_as_array(json_index(json_index(v, "data"@), "previewFile"@)) {
                Some(items) => r matches Ok(paths) && paths@.len() == items.len() && forall|k: int|
                    0 <= k < items.len() ==> (#[trigger] paths@[k])@ == preview_path(items[k]),
                None => r matches Err(HandlerError::Message(m)) && m@
                    == "can not get data previewFile"@,
            }
        } else {
            r matches Err(HandlerError::Message(m)) && m@ == "not success"@
        },
    }
}

/// The file paths of a material, read from the server's description of it.
pub fn material_paths(reply: Option<&Json>) -> (r: Result<Vec<String>, HandlerError>)
    ensures
        material_paths_ok(
            match reply {
                Some(v) => Some(*v),
                None => None,
            },
            r,
        ),
{
    let v = match reply {
        Some(v) => v,
        None => {
            return Err(failure("can not get filepathes"));
        },
    };
    let ok = match v.get("success") {
        Some(b) => match b.as_bool() {
            Some(x) => x,
            None => false,
        },
        None => false,
    };
    if !ok {
        return Err(failure("not success"));
    }
    let items = match get_opt(v.get("data"), "previewFile") {
        Some(p) => p.as_array(),
        None => None,
    };
    let items = match items {
        Some(items) => items,
        None => {
            return Err(failure("can not get data previewFile"));
        },
    };
    let mut paths: Vec<String> = Vec::new();
    let mut i: usize = 0;
    while i < items.len()
        invariant
            i <= items@.len(),
            paths@.len() == i,
            forall|k: int| 0 <= k < i ==> (#[trigger] paths@[k])@ == preview_path(items@[k]),
        decreases items.len() - i,
    {
        let p = match items[i].get("filePath") {
            Some(x) => match x.as_str() {
                Some(s) => String::from_str(s),
                None => String::new(),
            },
            None => String::new(),
        };
        paths.push(p);
        i += 1;
    }
    Ok(paths)
}

// ---------------------------------------------------------------------------
// The video-address daemon
// ---------------------------------------------------------------------------

/// A number read from a date piece, 0 when it does not parse.
pub open spec fn piece_or_zero(s: Seq<char>) -> nat {
    match parse_unsigned_spec(s, u32::MAX as nat) {
        Some(v) => v,
        None => 0,
    }
}

/// The year and month whose articles the daemon looks at: the configured
/// ones, else those of `today` (`year-month-day`), 0 where a piece does not
/// parse.
pub open spec fn tv_url_period_spec(year: Option<u32>, month: Option<u32>, today: Seq<char>) -> (nat, nat) {
    let ts = split_spec(today, '-');
    (
        match year {
            Some(y) => y as nat,
            None => piece_or_zero(ts[0]),
        },
        match month {
            Some(m) => m as nat,
            None => piece_or_zero(ts[1]),
        },
    )
}

fn piece_u32(s: &str) -> (r: u32)
    ensures
        r == piece_or_zero(s@),
{
    match parse_u32(s) {
        Ok(v) => v,
        Err(_) => 0,
    }
}

/// The year and month whose articles the daemon looks at.
pub fn tv_url_period(year: Option<u32>, month: Option<u32>, today: &str) -> (r: (u32, u32))
    requires
        split_spec(today@, '-').len() >= 2,
    ensures
        (r.0 as nat, r.1 as nat) == tv_url_period_spec(year, month, today@),
{
    let ts = split_char(today, '-');
    assert(ts.deep_view()[0] == ts@[0]@);
    assert(ts.deep_view()[1] == ts@[1]@);
    let from_year = piece_u32(ts[0].as_str());
    let from_month = piece_u32(ts[1].as_str());
    let y = match year {
        Some(y) => y,
        None => from_year,
    };
    let m = match month {
        Some(m) => m,
        None => from_month,
    };
    (y, m)
}

/// The year and month whose articles the daemon looks at, today's where none
/// is configured. `None` when the system clock reads a time before the Unix
/// epoch or beyond the dates `chrono` represents.
pub fn tv_url_period_today(year: Option<u32>, month: Option<u32>) -> (r: Option<(u32, u32)>)
    ensures
        r matches Some(p) ==> exists|today: Seq<char>|
            is_date_text(today) && (p.0 as nat, p.1 as nat) == #[trigger] tv_url_period_spec(
                year,
                month,
                today,
            ),
{
    let today = match get_current_date() {
        Some(d) => d,
        None => {
            return None;
        },
    };
    proof {
        lemma_date_pieces(today@);
    }
    Some(tv_url_period(year, month, today.as_str()))
}

/// `{server}/get_articles?page=1&limit=20&tv_url=&tv_or_paper=0,1&year={y}&month={m}`:
/// the first twenty stored articles of the month that have no video address.
pub fn tv_url_articles_url(post_server_url: &str, year: u32, month: u32) -> (r: String)
    ensures
        r@ == post_server_url@ + "/get_articles?page=1&limit=20&tv_url=&tv_or_paper=0,1&year="@
            + decimal_spec(year as nat) + "&month="@ + decimal_spec(month as nat),
{
    let mut u = String::from_str(post_server_url);
    u.append("/get_articles?page=1&limit=20&tv_url=&tv_or_paper=0,1&year=");
    u.append(decimal_u128(year as u128).as_str());
    u.append("&month=");
    u.append(decimal_u128(month as u128).as_str());
    u
}

/// Id (0 when it is no number) and title of a stored article that has a
/// title.
pub open spec fn titled_article(item: Json) -> Option<(u64, Seq<char>)> {
    match json_as_str(json_index(item, "title"@)) {
        Some(t) => Some(
            (
                match json_as_u64(json_index(item, "id"@)) {
                    Some(id) => id,
                    None => 0,
                },
                t,
            ),
        ),
        None => None,
    }
}

/// The titled articles among `items`, in order.
pub open spec fn titled_articles(items: Seq<Json>) -> Seq<(u64, Seq<char>)>
    decreases items.len(),
{
    if items.len() == 0 {
        Seq::empty()
    } else {
        let init = titled_articles(items.drop_last());
        match titled_article(items.last()) {
            Some(a) => init.push(a),
            None => init,
        }
    }
}

/// The articles of the article server's answer that the daemon searches
/// material for: the titled ones of `data.articles` when `success` is true.
pub open spec fn tv_url_articles_spec(resp: Json) -> Seq<(u64, Seq<char>)> {
    if json_as_bool(json_index(resp, "success"@)) == Some(true) {
        match json_as_array(json_index(json_index(resp, "data"@), "articles"@)) {
            Some(items) => titled_articles(items),
            None => Seq::empty(),
        }
    } else {
        Seq::empty()
    }
}

/// Id and title of each article that the daemon searches material for.
pub fn tv_url_articles(resp: &Json) -> (r: Vec<(u64, String)>)
    ensures
        r@.len() == tv_url_articles_spec(*resp).len(),
        forall|k: int|
            0 <= k < r@.len() ==> (#[trigger] r@[k]).0 == tv_url_articles_spec(*resp)[k].0
                && r@[k].1@ == tv_url_articles_spec(*resp)[k].1,
{
    let mut res: Vec<(u64, String)> = Vec::new();
    let ok = match resp.get("success") {
        Some(b) => match b.as_bool() {
            Some(x) => x,
            None => false,
        },
        None => false,
    };
    if !ok {
        return res;
    }
    let items = match get_opt(resp.get("data"), "articles") {
        Some(d) => d.as_array(),
        None => None,
    };
    let items = match items {
        Some(items) => items,
        None => {
            return res;
        },
    };
    let mut i: usize = 0;
    while i < items.len()
        invariant
            i <= items@.len(),
            json_as_array(json_index(json_index(*resp, "data"@), "articles"@)) == Some(items@),
            json_as_bool(json_index(*resp, "success"@)) == Some(true),
            res@.len() == titled_articles(items@.take(i as int)).len(),
            forall|k: int|
                0 <= k < res@.len() ==> (#[trigger] res@[k]).0 == titled_articles(
                    items@.take(i as int),
                )[k].0 && res@[k].1@ == titled_articles(items@.take(i as int))[k].1,
        decreases items.len() - i,
    {
        assert(items@.take(i + 1).drop_last() =~= items@.take(i as int));
        assert(items@.take(i + 1).last() == items@[i as int]);
        let item = &items[i];
        match str_field(item, "title") {
            Some(t) => {
                let id = match item.get("id") {
                    Some(x) => match x.as_u64() {
                        Some(n) => n,
                        None => 0,
                    },
                    None => 0,
                };
                res.push((id, t));
            },
            None => {},
        }
        i += 1;
    }
    assert(items@.take(items@.len() as int) =~= items@);
    res
}

/// The video address to record for article `id`: the first file path of the
/// first material found, if there is one.
pub fn tv_url_pair(id: u64, found: &Vec<MaterialInfo>) -> (r: Option<(u64, String)>)
    ensures
        (found@.len() > 0 && found@[0].file_paths@.len() > 0) ==> (r matches Some((i, p)) && i == id
            && p == found@[0].file_paths@[0]),
        !(found@.len() > 0 && found@[0].file_paths@.len() > 0) ==> r is None,
{
    if found.len() > 0 {
        if found[0].file_paths.len() > 0 {
            return Some((id, found[0].file_paths[0].clone()));
        }
    }
    None
}

/// `{server}/batch_update_tv_urls`, where the daemon posts the addresses it
/// found.
pub fn batch_tv_urls_url(post_server_url: &str) -> (r: String)
    ensures
        r@ == post_server_url@ + "/batch_update_tv_urls"@,
{
    crate::text::concat2(post_server_url, "/batch_update_tv_urls")
}

/// What the video-address daemon does next within one batch.
pub enum TvUrlAction {
    /// Search material for this title.
    Search(String),
    /// Post the article ids with the video addresses found for them,
    /// `TvUrlBatch::found`.
    Post,
    /// Stop the daemon: a search failed with this message.
    Stop(String),
}

/// One batch of the video-address daemon: the articles without an address,
/// how many of them were searched, and the addresses found so far.
pub struct TvUrlBatch {
    pub articles: Vec<(u64, String)>,
    pub idx: usize,
    pub found: Vec<(u64, String)>,
}

/// The batch `b` goes on: it searches the title of the next article, or
/// posts what it found once every article was searched.
pub open spec fn tv_url_next(b: TvUrlBatch, action: TvUrlAction) -> bool {
    if b.idx < b.articles@.len() {
        action == TvUrlAction::Search(b.articles@[b.idx as int].1)
    } else {
        action == TvUrlAction::Post
    }
}

impl TvUrlBatch {
    /// A batch over `articles`, with nothing searched yet, and its first
    /// action.
    pub fn new(articles: Vec<(u64, String)>) -> (r: (TvUrlBatch, TvUrlAction))
        ensures
            r.0.articles == articles,
            r.0.idx == 0,
            r.0.found@.len() == 0,
            tv_url_next(r.0, r.1),
    {
        let b = TvUrlBatch { articles, idx: 0, found: Vec::new() };
        let action = b.next_action();
        (b, action)
    }

    fn next_action(&self) -> (r: TvUrlAction)
        ensures
            tv_url_next(*self, r),
    {
        if self.idx < self.articles.len() {
            TvUrlAction::Search(self.articles[self.idx].1.clone())
        } else {
            TvUrlAction::Post
        }
    }

    /// The batch takes the outcome of the search for its current article: a
    /// failure stops the daemon; otherwise the first file path of the first
    /// material found, if any, is recorded for the article, and the batch
    /// goes on with the next one.
    pub fn step(&mut self, outcome: Result<Vec<MaterialInfo>, String>) -> (r: TvUrlAction)
        requires
            old(self).idx < old(self).articles@.len(),
        ensures
            final(self).articles == old(self).articles,
            match outcome {
                Err(e) => r == TvUrlAction::Stop(e) && final(self).idx == old(self).idx
                    && final(self).found == old(self).found,
                Ok(found) => {
                    &&& final(self).idx == old(self).idx + 1
                    &&& if found@.len() > 0 && found@[0].file_paths@.len() > 0 {
                        final(self).found@ == old(self).found@.push(
                            (old(self).articles@[old(self).idx as int].0, found@[0].file_paths@[0]),
                        )
                    } else {
                        final(self).found == old(self).found
                    }
                    &&& tv_url_next(*final(self), r)
                },
            },
    {
        match outcome {
            Err(e) => TvUrlAction::Stop(e),
            Ok(found) => {
                let id = self.articles[self.idx].0;
                match tv_url_pair(id, &found) {
                    Some(pair) => {
                        self.found.push(pair);
                    },
                    None => {},
                }
                let n = self.articles.len();
                assert(self.idx < n);
                self.idx = self.idx + 1;
                self.next_action()
            },
        }
    }
}

} // verus!
