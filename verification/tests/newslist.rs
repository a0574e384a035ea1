use ascm_article::handler::get_tv_newslist_detail::{
    get_tv_newslist_docids, get_tv_newslist_docids_checked, tv_newslist_detail_url,
    video_seconds_checked, video_time_to_u64, GetTvNewsListDetail,
};
use ascm_article::handler::get_tv_newslists::{
    tv_newslists_request, tv_newslists_url, GetTvNewsLists, GetTvNewsListsReq,
};
use ascm_article::json::{Json, JsonNumber};

fn s(x: &str) -> Json {
    Json::String(x.to_string())
}

fn u(n: u64) -> Json {
    Json::Number(JsonNumber::PosInt(n))
}

fn obj(entries: Vec<(&str, Json)>) -> Json {
    Json::Object(entries.into_iter().map(|(k, v)| (k.to_string(), v)).collect())
}

fn entry(reldocid: Json, deleteflag: Json, guid: Json, video_time: Json) -> Json {
    obj(vec![
        ("pgmmaster", obj(vec![("reldocid", reldocid), ("materialguid", guid)])),
        ("doc", obj(vec![("deleteflag", deleteflag)])),
        ("videoTime", video_time),
    ])
}

#[test]
fn video_durations() {
    assert_eq!(video_time_to_u64("1'02'03"), 3723);
    assert_eq!(video_time_to_u64("0'1'30"), 90);
    assert_eq!(video_time_to_u64("1'02"), 0);
    assert_eq!(video_time_to_u64("x'2'3"), 123);
    assert_eq!(video_time_to_u64("1'2'3'4"), 3723);
    assert_eq!(video_seconds_checked("99999999999999999'0'0"), None);
    assert_eq!(video_seconds_checked("5124095576030431'0'15"), Some(18446744073709551615));
}

#[test]
fn docids_keep_live_entries_with_material() {
    let resp = obj(vec![(
        "list",
        obj(vec![(
            "parentList",
            Json::Array(vec![
                entry(u(11), u(0), s("g1"), s("0'1'30")),
                entry(u(0), u(0), s("g2"), s("0'0'1")),
                entry(u(12), u(1), s("g3"), s("0'0'2")),
                entry(u(13), u(0), s(""), s("0'0'3")),
                entry(u(14), u(0), s("g5"), u(4)),
                entry(u(15), Json::Number(JsonNumber::NegInt(-1)), s("g6"), s("0'0'5")),
                entry(u(16), u(0), s("g7"), s("2'0'0")),
            ]),
        )]),
    )]);
    assert_eq!(get_tv_newslist_docids(&resp), vec![(11, 90), (16, 7200)]);
}

#[test]
fn docids_of_odd_details() {
    assert_eq!(get_tv_newslist_docids(&Json::Null), vec![]);
    let not_array = obj(vec![("list", obj(vec![("parentList", u(3))]))]);
    assert_eq!(get_tv_newslist_docids(&not_array), vec![]);
    let missing = obj(vec![("list", obj(vec![("other", u(3))]))]);
    assert_eq!(get_tv_newslist_docids_checked(&missing), None);
    let too_long = obj(vec![(
        "list",
        obj(vec![("parentList", Json::Array(vec![entry(u(1), u(0), s("g"), s("99999999999999999'0'0"))]))]),
    )]);
    assert_eq!(get_tv_newslist_docids_checked(&too_long), None);
}

#[test]
fn newslist_addresses() {
    assert_eq!(tv_newslist_detail_url("http://tv", "L1"), "http://tv/s/llist/getLlistno/L1");
    assert_eq!(
        tv_newslists_url("http://tv", "c9", None, Some("E".to_string()), "2026-01-23", "2026-01-24"),
        "http://tv/s/llist/getLlistByconditionsQuery?columnid=c9&startTime=2026-01-23%2000:00:00&endTime=E"
    );
    let u = tv_newslists_request("http://tv", "c9", Some("S".to_string()), None).unwrap();
    assert!(u.starts_with("http://tv/s/llist/getLlistByconditionsQuery?columnid=c9&startTime=S&endTime="));
    assert!(u.ends_with("%2000:00:00"));
    let prms = GetTvNewsListsReq { column_id: None, start_time: None, end_time: None };
    assert_eq!(GetTvNewsLists::column_id(&prms), "");
    let r = GetTvNewsListDetail::reply(Json::Null, vec![(1, 2)]);
    assert!(r.success);
    assert_eq!(r.data.docids, vec![(1, 2)]);
}

#[test]
fn docids_of_joined_lists_are_joined() {
    let a = || vec![entry(u(11), u(0), s("g"), s("0'1'30")), entry(u(0), u(0), s("g"), s("0'0'1"))];
    let b = || vec![entry(u(12), u(1), s("g"), s("0'0'5")), entry(u(13), u(0), s("g"), s("1'0'0"))];
    let wrap = |items: Vec<Json>| obj(vec![("list", obj(vec![("parentList", Json::Array(items))]))]);
    let mut ab = a();
    ab.extend(b());
    let mut joined = get_tv_newslist_docids(&wrap(a()));
    joined.extend(get_tv_newslist_docids(&wrap(b())));
    assert_eq!(get_tv_newslist_docids(&wrap(ab)), joined);
    assert_eq!(joined, vec![(11, 90), (13, 3600)]);
}
