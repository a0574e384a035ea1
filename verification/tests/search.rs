use ascm_article::handler::get_tv_reporters::{GetTvReporters, TvReporterResp};
use ascm_article::handler::search_material::{
    batch_tv_urls_url, material_candidates, material_path_url, material_paths, search_failed,
    search_request, title_refactor, tv_url_articles, tv_url_articles_url, tv_url_pair,
    tv_url_period, tv_url_period_today, MaterialInfo, SearchMaterail, SearchMaterialReq, TvUrlAction,
    TvUrlBatch,
};
use ascm_article::json::{Json, JsonNumber};

fn s(x: &str) -> Json {
    Json::String(x.to_string())
}

fn obj(entries: Vec<(&str, Json)>) -> Json {
    Json::Object(entries.into_iter().map(|(k, v)| (k.to_string(), v)).collect())
}

#[test]
fn search_plans() {
    let req = SearchMaterialReq { title: "ab".to_string(), page: None, page_size: None };
    let e = SearchMaterail::plan(req, 4).err().unwrap();
    assert_eq!(e.message, "search cahracters length should more than 4");
    let req = SearchMaterialReq { title: "舟山".to_string(), page: Some(3), page_size: None };
    let p = SearchMaterail::plan(req, 4).ok().unwrap();
    assert_eq!((p.page, p.page_size), (3, 10));
    assert_eq!(SearchMaterail::reply(vec![]).err_msg, "获取查询成功");
}

#[test]
fn search_request_body() {
    let r = search_request("（快讯）新闻 （记者）", 1, 20, "http://mah", "tk").ok().unwrap();
    assert_eq!(r.url, "http://mah/v1/search");
    assert_eq!(r.host, "mah.wifizs.cn");
    assert_eq!(r.token, "tk");
    assert_eq!(r.query.keywords, vec!["新闻".to_string()]);
    assert_eq!(r.query.page_size, 20);
    assert_eq!(r.query.keyword_search_type, "fullText");
    assert_eq!(title_refactor("无括号").ok(), Some("无括号".to_string()));
    assert_eq!(search_failed().message(), "can not get search result");
}

#[test]
fn candidates_need_name_frame_and_content() {
    let hit = |n: Option<&str>, k: Option<&str>, c: Option<&str>| {
        let mut e = vec![];
        if let Some(n) = n { e.push(("name_", s(n))); }
        if let Some(k) = k { e.push(("keyframepath_", s(k))); }
        if let Some(c) = c { e.push(("contentId_", s(c))); }
        obj(e)
    };
    let v = obj(vec![
        ("success", Json::Bool(true)),
        ("data", obj(vec![("data", Json::Array(vec![
            hit(Some("n1"), Some("k1"), Some("c1")),
            hit(Some("n2"), None, Some("c2")),
            hit(Some("n3"), Some("k3"), Some("c3")),
        ]))])),
    ]);
    let found = material_candidates(&v);
    assert_eq!(found.len(), 2);
    assert_eq!(found[0].name, "n1");
    assert_eq!(found[1].content_id, "c3");
    assert!(found[1].file_paths.is_empty());
    let failed = obj(vec![("success", Json::Bool(false))]);
    assert!(material_candidates(&failed).is_empty());
}

#[test]
fn material_file_paths() {
    assert_eq!(material_path_url("http://c", "id9"), "http://c/v2/entity/base/id9");
    let v = obj(vec![
        ("success", Json::Bool(true)),
        ("data", obj(vec![("previewFile", Json::Array(vec![obj(vec![("filePath", s("/a.mp4"))]), obj(vec![])]))])),
    ]);
    assert_eq!(material_paths(Some(&v)).ok(), Some(vec!["/a.mp4".to_string(), String::new()]));
    let no_files = obj(vec![("success", Json::Bool(true)), ("data", obj(vec![]))]);
    assert_eq!(material_paths(Some(&no_files)).err().unwrap().message(), "can not get data previewFile");
    let refused = obj(vec![("success", Json::Bool(false))]);
    assert_eq!(material_paths(Some(&refused)).err().unwrap().message(), "not success");
    assert_eq!(material_paths(None).err().unwrap().message(), "can not get filepathes");
}

#[test]
fn video_address_daemon_steps() {
    assert_eq!(tv_url_period(None, None, "2026-01-23"), (2026, 1));
    assert_eq!(tv_url_period(Some(2024), None, "2026-07-23"), (2024, 7));
    assert_eq!(tv_url_period(None, Some(3), "x-y"), (0, 3));
    let (y, m) = tv_url_period_today(None, None).unwrap();
    assert!(y >= 2024 && (1..=12).contains(&m));
    assert_eq!(
        tv_url_articles_url("http://post", 2026, 1),
        "http://post/get_articles?page=1&limit=20&tv_url=&tv_or_paper=0,1&year=2026&month=1"
    );
    let resp = obj(vec![
        ("success", Json::Bool(true)),
        ("data", obj(vec![("articles", Json::Array(vec![
            obj(vec![("id", Json::Number(JsonNumber::PosInt(5))), ("title", s("t5"))]),
            obj(vec![("id", Json::Number(JsonNumber::PosInt(6)))]),
            obj(vec![("title", s("t7"))]),
        ]))])),
    ]);
    assert_eq!(tv_url_articles(&resp), vec![(5, "t5".to_string()), (0, "t7".to_string())]);
    assert!(tv_url_articles(&Json::Null).is_empty());
    let m = MaterialInfo {
        name: "n".to_string(),
        content_id: "c".to_string(),
        key_frame_path: "k".to_string(),
        file_paths: vec!["/v.mp4".to_string(), "/w.mp4".to_string()],
    };
    assert_eq!(tv_url_pair(5, &vec![m]), Some((5, "/v.mp4".to_string())));
    assert_eq!(tv_url_pair(5, &vec![]), None);
    assert_eq!(batch_tv_urls_url("http://post"), "http://post/batch_update_tv_urls");
}

#[test]
fn reporters_reply() {
    assert_eq!(GetTvReporters::url("http://tv"), "http://tv/s/doc/queryBySQL");
    assert!(GetTvReporters::query().sql.contains("select id, nickname, usercode from sh_user"));
    let r = GetTvReporters::reply(Some(TvReporterResp { message: "ok".to_string(), data: vec![(1, "a".to_string(), "b".to_string())] }));
    assert!(r.success);
    assert_eq!(r.data.unwrap().len(), 1);
    let r = GetTvReporters::reply(None);
    assert!(!r.success);
    assert!(r.data.is_none());
}

fn material(paths: &[&str]) -> MaterialInfo {
    MaterialInfo {
        name: "n".to_string(),
        content_id: "c".to_string(),
        key_frame_path: "k".to_string(),
        file_paths: paths.iter().map(|p| p.to_string()).collect(),
    }
}

#[test]
fn video_address_batch() {
    let articles = vec![(1, "甲".to_string()), (2, "乙".to_string()), (3, "丙".to_string())];
    let (mut b, a) = TvUrlBatch::new(articles);
    assert!(matches!(&a, TvUrlAction::Search(t) if t == "甲"));
    let a = b.step(Ok(vec![material(&["/v/1.mp4", "/v/x.mp4"]), material(&["/v/y.mp4"])]));
    assert!(matches!(&a, TvUrlAction::Search(t) if t == "乙"));
    let a = b.step(Ok(vec![material(&[])]));
    assert!(matches!(&a, TvUrlAction::Search(t) if t == "丙"));
    let a = b.step(Ok(vec![]));
    assert!(matches!(a, TvUrlAction::Post));
    assert_eq!(b.found, vec![(1, "/v/1.mp4".to_string())]);

    let (mut e, _) = TvUrlBatch::new(vec![(9, "t".to_string())]);
    let a = e.step(Err("search down".to_string()));
    assert!(matches!(&a, TvUrlAction::Stop(m) if m == "search down"));
    assert_eq!(e.idx, 0);

    let (_, a) = TvUrlBatch::new(vec![]);
    assert!(matches!(a, TvUrlAction::Post));
}
