//! A television news list in detail, and the manuscripts it schedules.

use vstd::prelude::*;

use crate::handler::{ok_reply, ApiReply};
use crate::json::{
    get_opt, json_as_array, json_as_i64, json_as_str, json_as_u64, json_index, lookup_entries,
    object_lookup, Json,
};
use crate::text::{parse_u64, parse_unsigned_spec, split_char, split_spec};

verus! {

/// The handler that answers a news list in detail.
pub struct GetTvNewsListDetail;

/// Its query: the news list's id.
pub struct GetTvNewsListDetailReq {
    pub llistid: String,
}

/// The detail of a news list together with the manuscripts it schedules.
pub struct NewsListDetailData {
    pub detail: Json,
    pub docids: Vec<(u64, u64)>,
}

/// `{server}/s/llist/getLlistno/{llistid}`.
pub fn tv_newslist_detail_url(server_url: &str, llistid: &str) -> (r: String)
    ensures
        r@ == server_url@ + "/s/llist/getLlistno/"@ + llistid@,
{
    crate::text::concat3(server_url, "/s/llist/getLlistno/", llistid)
}

/// A piece of a video duration as a number, 0 when it does not parse.
pub open spec fn duration_piece(s: Seq<char>) -> nat {
    match parse_unsigned_spec(s, u64::MAX as nat) {
        Some(v) => v,
        None => 0,
    }
}

/// The seconds of a video duration written `h'm's`: hours, minutes and
/// seconds separated by apostrophes, each piece that does not parse counting
/// 0; 0 when there are fewer than three pieces.
pub open spec fn video_seconds_spec(video_time: Seq<char>) -> nat {
    let p = split_spec(video_time, '\'');
    if p.len() < 3 {
        0
    } else {
        duration_piece(p[0]) * 3600 + duration_piece(p[1]) * 60 + duration_piece(p[2])
    }
}

fn piece_value(s: &str) -> (r: u64)
    ensures
        r == duration_piece(s@),
{
    match parse_u64(s) {
        Ok(v) => v,
        Err(_) => 0,
    }
}

/// The seconds of the video duration `video_time`, or `None` when they exceed
/// `u64`.
pub fn video_seconds_checked(video_time: &str) -> (r: Option<u64>)
    ensures
        r is Some <==> video_seconds_spec(video_time@) <= u64::MAX,
        r matches Some(v) ==> v == video_seconds_spec(video_time@),
{
    let vs = split_char(video_time, '\'');
    if vs.len() < 3 {
        return Some(0);
    }
    assert(vs.deep_view()[0] == vs@[0]@);
    assert(vs.deep_view()[1] == vs@[1]@);
    assert(vs.deep_view()[2] == vs@[2]@);
    let h = piece_value(vs[0].as_str());
    let m = piece_value(vs[1].as_str());
    let s = piece_value(vs[2].as_str());
    if h > (u64::MAX - s) / 3600 {
        return None;
    }
    let hs = h * 3600 + s;
    if m > (u64::MAX - hs) / 60 {
        return None;
    }
    Some(hs + m * 60)
}

/// The seconds of the video duration `video_time`, written `h'm's`.
pub fn video_time_to_u64(video_time: &str) -> (r: u64)
    requires
        video_seconds_spec(video_time@) <= u64::MAX,
    ensures
        r == video_seconds_spec(video_time@),
{
    match video_seconds_checked(video_time) {
        Some(v) => v,
        None => 0,
    }
}

/// The manuscript that a news-list entry schedules, with its duration text:
/// present when `pgmmaster.reldocid` is a non-zero number, `doc.deleteflag`
/// is 0 (not deleted), `pgmmaster.materialguid` is a non-empty string and
/// `videoTime` is a string.
pub open spec fn docid_entry(item: Json) -> Option<(u64, Seq<char>)> {
    let pm = json_index(item, "pgmmaster"@);
    match json_as_u64(json_index(pm, "reldocid"@)) {
        Some(id) => if id != 0 && json_as_i64(json_index(json_index(item, "doc"@), "deleteflag"@))
            == Some(0i64) && (match json_as_str(json_index(pm, "materialguid"@)) {
            Some(g) => g.len() > 0,
            None => false,
        }) {
            match json_as_str(json_index(item, "videoTime"@)) {
                Some(vt) => Some((id, vt)),
                None => None,
            }
        } else {
            None
        },
        None => None,
    }
}

/// The manuscripts that the entries `items` schedule, in order, each with
/// the seconds of its duration.
pub open spec fn docid_pairs(items: Seq<Json>) -> Seq<(u64, nat)>
    decreases items.len(),
{
    if items.len() == 0 {
        Seq::<(u64, nat)>::empty()
    } else {
        let init = docid_pairs(items.drop_last());
        match docid_entry(items.last()) {
            Some(e) => init.push((e.0, video_seconds_spec(e.1))),
            None => init,
        }
    }
}

/// The entries of a news-list detail: the array `list.parentList`, when
/// `list` is an object.
pub open spec fn parent_list(resp: Json) -> Option<Seq<Json>> {
    match json_index(resp, "list"@) {
        Json::Object(entries) => match object_lookup(entries@, "parentList"@) {
            Some(v) => json_as_array(v),
            None => None,
        },
        _ => None,
    }
}

/// Whether reading the manuscripts of `resp` fails: `list` is an object
/// without `parentList` (indexing the map panics), or a duration exceeds
/// `u64`.
pub open spec fn docids_panic(resp: Json) -> bool {
    ||| (json_index(resp, "list"@) matches Json::Object(entries) && object_lookup(
        entries@,
        "parentList"@,
    ) is None)
    ||| (parent_list(resp) matches Some(items) && durations_overflow(items))
}

/// Whether the duration of some manuscript that `items` schedule exceeds
/// `u64`.
pub open spec fn durations_overflow(items: Seq<Json>) -> bool {
    exists|k: int| 0 <= k < docid_pairs(items).len() && #[trigger] docid_pairs(items)[k].1 > u64::MAX
}

/// The manuscripts that the news-list detail `resp` schedules.
pub open spec fn docids_spec(resp: Json) -> Seq<(u64, nat)> {
    match parent_list(resp) {
        Some(items) => docid_pairs(items),
        None => Seq::<(u64, nat)>::empty(),
    }
}

fn docid_entry_of(item: &Json) -> (r: Option<(u64, &str)>)
    ensures
        match r {
            Some((id, vt)) => docid_entry(*item) == Some((id, vt@)),
            None => docid_entry(*item) is None,
        },
{
    let pm = item.get("pgmmaster");
    let id = match get_opt(pm, "reldocid") {
        Some(v) => v.as_u64(),
        None => None,
    };
    let id = match id {
        Some(id) => id,
        None => {
            return None;
        },
    };
    if id == 0 {
        return None;
    }
    let flag = match get_opt(item.get("doc"), "deleteflag") {
        Some(v) => v.as_i64(),
        None => None,
    };
    match flag {
        Some(f) => {
            if f != 0 {
                return None;
            }
        },
        None => {
            return None;
        },
    }
    let guid = match get_opt(pm, "materialguid") {
        Some(v) => v.as_str(),
        None => None,
    };
    match guid {
        Some(g) => {
            if g.is_empty() {
                return None;
            }
        },
        None => {
            return None;
        },
    }
    match item.get("videoTime") {
        Some(v) => match v.as_str() {
            Some(vt) => Some((id, vt)),
            None => None,
        },
        None => None,
    }
}

fn collect_docids(items: &Vec<Json>) -> (r: Option<Vec<(u64, u64)>>)
    ensures
        r is None <==> durations_overflow(items@),
        r matches Some(v) ==> v@.len() == docid_pairs(items@).len() && forall|k: int|
            0 <= k < v@.len() ==> (#[trigger] v@[k]).0 == docid_pairs(items@)[k].0 && v@[k].1
                == docid_pairs(items@)[k].1,
{
    let mut docids: Vec<(u64, u64)> = Vec::new();
    let mut i: usize = 0;
    while i < items.len()
        invariant
            i <= items@.len(),
            docids@.len() == docid_pairs(items@.take(i as int)).len(),
            forall|k: int|
                0 <= k < docids@.len() ==> (#[trigger] docids@[k]).0 == docid_pairs(
                    items@.take(i as int),
                )[k].0 && docids@[k].1 == docid_pairs(items@.take(i as int))[k].1,
            forall|k: int|
                0 <= k < docid_pairs(items@.take(i as int)).len() ==> #[trigger] docid_pairs(
                    items@.take(i as int),
                )[k].1 <= u64::MAX,
        decreases items.len() - i,
    {
        let ghost pre = items@.take(i as int);
        assert(items@.take(i + 1).drop_last() =~= pre);
        assert(items@.take(i + 1).last() == items@[i as int]);
        match docid_entry_of(&items[i]) {
            Some((id, vt)) => {
                match video_seconds_checked(vt) {
                    Some(secs) => {
                        docids.push((id, secs));
                    },
                    None => {
                        proof {
                            let k = docid_pairs(items@.take(i + 1)).len() - 1;
                            assert(docid_pairs(items@.take(i + 1))[k].1 > u64::MAX);
                            lemma_docid_pairs_prefix(items@, i + 1);
                        }
                        return None;
                    },
                }
            },
            None => {},
        }
        i += 1;
    }
    assert(items@.take(items@.len() as int) =~= items@);
    Some(docids)
}

/// The manuscripts of a prefix of the entries come first among those of all
/// entries.
proof fn lemma_docid_pairs_prefix(items: Seq<Json>, n: int)
    requires
        0 <= n <= items.len(),
    ensures
        docid_pairs(items.take(n)).len() <= docid_pairs(items).len(),
        forall|k: int|
            0 <= k < docid_pairs(items.take(n)).len() ==> #[trigger] docid_pairs(items.take(n))[k]
                == docid_pairs(items)[k],
    decreases items.len() - n,
{
    if n < items.len() {
        lemma_docid_pairs_prefix(items, n + 1);
        assert(items.take(n + 1).drop_last() =~= items.take(n));
        let a = docid_pairs(items.take(n));
        let b = docid_pairs(items.take(n + 1));
        assert forall|k: int| 0 <= k < a.len() implies #[trigger] a[k] == b[k] by {
            assert(b[k] == docid_pairs(items)[k]);
        }
    } else {
        assert(items.take(n) =~= items);
    }
}

proof fn lemma_docid_pairs_live(items: Seq<Json>)
    ensures
        docid_pairs(items).len() <= items.len(),
        forall|k: int| 0 <= k < docid_pairs(items).len() ==> (#[trigger] docid_pairs(items)[k]).0 != 0,
    decreases items.len(),
{
    if items.len() > 0 {
        lemma_docid_pairs_live(items.drop_last());
    }
}

/// Only live entries are forwarded: every manuscript that a news-list detail
/// schedules has a non-zero id, and there are never more of them than
/// entries.
pub proof fn lemma_docids_live(resp: Json)
    ensures
        forall|k: int| 0 <= k < docids_spec(resp).len() ==> (#[trigger] docids_spec(resp)[k]).0 != 0,
        parent_list(resp) matches Some(items) ==> docids_spec(resp).len() <= items.len(),
{
    if let Some(items) = parent_list(resp) {
        lemma_docid_pairs_live(items);
    }
}

/// Each entry is judged on its own and kept in order: the manuscripts of the
/// entries `a` followed by `b` are those of `a` followed by those of `b`.
pub proof fn lemma_docid_pairs_concat(a: Seq<Json>, b: Seq<Json>)
    ensures
        docid_pairs(a + b) == docid_pairs(a) + docid_pairs(b),
    decreases b.len(),
{
    if b.len() == 0 {
        assert(a + b =~= a);
        assert(docid_pairs(a) + docid_pairs(b) =~= docid_pairs(a));
    } else {
        lemma_docid_pairs_concat(a, b.drop_last());
        assert((a + b).drop_last() =~= a + b.drop_last());
        assert((a + b).last() == b.last());
        match docid_entry(b.last()) {
            Some(e) => {
                assert(docid_pairs(a + b) =~= docid_pairs(a) + docid_pairs(b));
            },
            None => {},
        }
    }
}

/// The manuscripts of a news-list detail whose entries are those of two
/// details one after the other are those of the first followed by those of
/// the second.
pub proof fn lemma_docids_concat(ra: Json, rb: Json, rab: Json)
    requires
        parent_list(ra) is Some,
        parent_list(rb) is Some,
        parent_list(rab) == Some(parent_list(ra).unwrap() + parent_list(rb).unwrap()),
    ensures
        docids_spec(rab) == docids_spec(ra) + docids_spec(rb),
{
    lemma_docid_pairs_concat(parent_list(ra).unwrap(), parent_list(rb).unwrap());
}

/// The manuscripts that the news-list detail `resp` schedules, each with the
/// seconds of its duration, in the order of the entries.
pub fn get_tv_newslist_docids(resp: &Json) -> (r: Vec<(u64, u64)>)
    requires
        !docids_panic(*resp),
    ensures
        r@.len() == docids_spec(*resp).len(),
        forall|k: int|
            0 <= k < r@.len() ==> (#[trigger] r@[k]).0 == docids_spec(*resp)[k].0 && r@[k].1
                == docids_spec(*resp)[k].1,
{
    match get_tv_newslist_docids_checked(resp) {
        Some(v) => v,
        None => Vec::new(),
    }
}

/// `get_tv_newslist_docids`, or `None` where reading the manuscripts fails.
pub fn get_tv_newslist_docids_checked(resp: &Json) -> (r: Option<Vec<(u64, u64)>>)
    ensures
        r is None <==> docids_panic(*resp),
        r matches Some(v) ==> v@.len() == docids_spec(*resp).len() && forall|k: int|
            0 <= k < v@.len() ==> (#[trigger] v@[k]).0 == docids_spec(*resp)[k].0 && v@[k].1
                == docids_spec(*resp)[k].1,
{
    let list = resp.get("list");
    match list {
        Some(l) => match l {
            Json::Object(entries) => {
                assert(json_index(*resp, "list"@) == Json::Object(*entries));
                match lookup_entries(entries, "parentList") {
                    None => None,
                    Some(pl) => {
                        assert(object_lookup(entries@, "parentList"@) == Some(*pl));
                        match pl.as_array() {
                            Some(items) => {
                                assert(parent_list(*resp) == Some(items@));
                                collect_docids(items)
                            },
                            None => Some(Vec::new()),
                        }
                    },
                }
            },
            _ => Some(Vec::new()),
        },
        None => Some(Vec::new()),
    }
}

impl GetTvNewsListDetail {
    /// The reply carrying the detail and its manuscripts.
    pub fn reply(detail: Json, docids: Vec<(u64, u64)>) -> (r: ApiReply<NewsListDetailData>)
        ensures
            r.success,
            r.err_msg@ == ""@,
            r.data.detail == detail,
            r.data.docids == docids,
    {
        ok_reply("", NewsListDetailData { detail, docids })
    }
}

} // verus!
