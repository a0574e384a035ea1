use ascm_article::handler::get_paper_article_detail::ArticleDetail as PaperArticle;
use ascm_article::handler::get_paper_articles::Article;
use ascm_article::handler::get_tv_article::ArticleDetail as TvArticle;
use ascm_article::handler::get_tv_newslists::TvNewsList;
use ascm_article::handler::post_paper_articles::{
    PaperPhase, PaperSync, PaperSyncAction, PaperSyncEvent, PaperSyncPlan,
};
use ascm_article::handler::post_tv_articles::{
    TvPhase, TvSync, TvSyncAction, TvSyncEvent, TvSyncPlan,
};
use ascm_article::handler::HandlerError;

fn news_list(id: &str, showdate: &str) -> TvNewsList {
    TvNewsList {
        id: id.to_string(),
        title: "t".to_string(),
        showdate: showdate.to_string(),
        columnid: "c".to_string(),
        column_code: "cc".to_string(),
        column_name: "cn".to_string(),
        channel_id: "ch".to_string(),
        time_period_id: None,
        time_period_name: None,
        editorby: "e".to_string(),
        editorbycode: "ec".to_string(),
    }
}

fn manuscript(id: u64, title: &str) -> TvArticle {
    TvArticle {
        id,
        title: title.to_string(),
        content: "c".to_string(),
        html_content: "<p>c</p>".to_string(),
        author: "a".to_string(),
        author_codes: "a1".to_string(),
        photo_person: None,
        photo_person_codes: None,
        updated_by: "u".to_string(),
        colunm_name: "col".to_string(),
        show_date: 0,
        num_without_space: 1,
        num_with_space: 1,
        video_time: 0,
        show_date_str: String::new(),
    }
}

fn tv_run(words: Vec<String>) -> TvSync {
    let plan = TvSyncPlan { column_id: "col".to_string(), site_id: 2, start_time: None, end_time: None };
    TvSync::new(plan, words)
}

#[test]
fn tv_run_forwards_each_manuscript_and_skips_failures() {
    let mut run = tv_run(vec!["广告".to_string()]);
    let st = run.step(TvSyncEvent::Started).ok().unwrap();
    assert!(matches!(st.action, TvSyncAction::FetchNewsLists));
    assert!(st.log.is_empty());
    let lists = vec![news_list("L1", "2026-01-23 19:00:00"), news_list("L2", "2026-01-24 19:00:00")];
    let st = run.step(TvSyncEvent::NewsLists(Ok(lists))).ok().unwrap();
    assert!(matches!(&st.action, TvSyncAction::FetchDetail(id) if id == "L1"));
    assert_eq!(run.day, "2026-01-23");
    let st = run.step(TvSyncEvent::Detail(Ok(vec![(11, 60), (12, 30)]))).ok().unwrap();
    assert!(matches!(st.action, TvSyncAction::FetchArticle(11)));
    let st = run.step(TvSyncEvent::Article(Ok(manuscript(11, "新闻")))).ok().unwrap();
    assert!(matches!(st.action, TvSyncAction::PostArticle));
    let ready = run.article.as_ref().unwrap();
    assert_eq!(ready.video_time, 60);
    assert_eq!(ready.show_date_str, "2026-01-23");
    let st = run.step(TvSyncEvent::Posted(Ok(900))).ok().unwrap();
    assert!(matches!(st.action, TvSyncAction::PostScore(900)));
    let st = run.step(TvSyncEvent::Scored(Ok(()))).ok().unwrap();
    assert_eq!(st.log, vec!["post_tv_score Success".to_string()]);
    assert!(matches!(st.action, TvSyncAction::FetchArticle(12)));
    let st = run.step(TvSyncEvent::Article(Err("timeout".to_string()))).ok().unwrap();
    assert_eq!(
        st.log,
        vec!["get_tv_article Error: timeout".to_string(), "article is (12, 30)".to_string()]
    );
    assert!(matches!(&st.action, TvSyncAction::FetchDetail(id) if id == "L2"));
    assert_eq!(run.day, "2026-01-24");
    let st = run.step(TvSyncEvent::Detail(Err("gone".to_string()))).ok().unwrap();
    assert_eq!(st.log, vec!["get_tv_newslist_detail Error: gone".to_string()]);
    assert!(matches!(st.action, TvSyncAction::Reply));
    assert!(matches!(run.phase, TvPhase::Finished));
}

#[test]
fn tv_run_filters_titles_and_reports_bad_words() {
    let mut run = tv_run(vec!["广告".to_string()]);
    run.step(TvSyncEvent::Started).ok().unwrap();
    run.step(TvSyncEvent::NewsLists(Ok(vec![news_list("L1", "2026-01-23")]))).ok().unwrap();
    run.step(TvSyncEvent::Detail(Ok(vec![(1, 5), (2, 6)]))).ok().unwrap();
    let st = run.step(TvSyncEvent::Article(Ok(manuscript(1, "一则广告")))).ok().unwrap();
    assert!(st.log.is_empty());
    assert!(matches!(st.action, TvSyncAction::FetchArticle(2)));
    let st = run.step(TvSyncEvent::Article(Ok(manuscript(2, "新闻")))).ok().unwrap();
    assert!(matches!(st.action, TvSyncAction::PostArticle));
    let st = run.step(TvSyncEvent::Posted(Err("refused".to_string()))).ok().unwrap();
    assert_eq!(st.log, vec!["post_tv_article Error: refused".to_string()]);
    assert!(matches!(st.action, TvSyncAction::Reply));

    let mut bad = tv_run(vec!["(".to_string()]);
    bad.step(TvSyncEvent::Started).ok().unwrap();
    bad.step(TvSyncEvent::NewsLists(Ok(vec![news_list("L1", "d")]))).ok().unwrap();
    bad.step(TvSyncEvent::Detail(Ok(vec![(1, 5)]))).ok().unwrap();
    let r = bad.step(TvSyncEvent::Article(Ok(manuscript(1, "x"))));
    assert!(matches!(r, Err(HandlerError::Regex(_))));
}

#[test]
fn tv_run_without_lists_answers_at_once() {
    let mut run = tv_run(vec![]);
    run.step(TvSyncEvent::Started).ok().unwrap();
    let st = run.step(TvSyncEvent::NewsLists(Err("down".to_string()))).ok().unwrap();
    assert_eq!(st.log, vec!["get_tv_newslists Error: down".to_string()]);
    assert!(matches!(st.action, TvSyncAction::Reply));
    let mut empty = tv_run(vec![]);
    empty.step(TvSyncEvent::Started).ok().unwrap();
    let st = empty.step(TvSyncEvent::NewsLists(Ok(vec![]))).ok().unwrap();
    assert!(matches!(st.action, TvSyncAction::Reply));
    let mut no_docs = tv_run(vec![]);
    no_docs.step(TvSyncEvent::Started).ok().unwrap();
    no_docs.step(TvSyncEvent::NewsLists(Ok(vec![news_list("L1", "d")]))).ok().unwrap();
    let st = no_docs.step(TvSyncEvent::Detail(Ok(vec![]))).ok().unwrap();
    assert!(matches!(st.action, TvSyncAction::Reply));
}

fn listed(id: u32) -> Article {
    Article {
        metadataid: id,
        doctype: 1,
        title: "标题".to_string(),
        pubdate: "2026-01-22".to_string(),
        author: "记者".to_string(),
        chnldesc: "第01版：要闻".to_string(),
        docstatus: 38,
    }
}

fn detail(id: u32) -> PaperArticle {
    PaperArticle {
        metadataid: id,
        doctype: 1,
        title: "标题".to_string(),
        pubdate: "2026-01-22".to_string(),
        author: "记者".to_string(),
        chnldesc: "第01版：要闻".to_string(),
        docstatus: 38,
        docwordscount: 3,
        htmlcontent: "<p>x</p>".to_string(),
        content: "x".to_string(),
        remarks: String::new(),
    }
}

fn paper_run() -> PaperSync {
    PaperSync::new(PaperSyncPlan {
        post_site_id: 1,
        server_url: "http://paper".to_string(),
        site_id: 3,
        docstatus: Some(38),
        begin_date: Some("2026-01-22".to_string()),
        end_date: Some("2026-01-22".to_string()),
        extra: 0,
    })
}

#[test]
fn paper_run_forwards_each_article_and_logs_failures() {
    let mut run = paper_run();
    let st = run.step(PaperSyncEvent::Started);
    assert_eq!(st.log, vec!["rth-0".to_string()]);
    assert!(matches!(st.action, PaperSyncAction::FetchArticles));
    let st = run.step(PaperSyncEvent::Listed(Ok(vec![listed(5), listed(6), listed(7)])));
    assert!(matches!(st.action, PaperSyncAction::FetchDetail(5)));
    let st = run.step(PaperSyncEvent::Detail(Ok(detail(5))));
    assert!(matches!(st.action, PaperSyncAction::PostArticle));
    assert_eq!(run.detail.as_ref().unwrap().metadataid, 5);
    let st = run.step(PaperSyncEvent::Posted(Ok(41)));
    assert!(matches!(st.action, PaperSyncAction::PostScore(41)));
    let st = run.step(PaperSyncEvent::Scored(Err("no".to_string())));
    assert_eq!(st.log, vec!["post_paper_score failed: no".to_string()]);
    assert!(matches!(st.action, PaperSyncAction::FetchDetail(6)));
    let st = run.step(PaperSyncEvent::Detail(Err("gone".to_string())));
    assert_eq!(st.log, vec!["get_paper_article_detail failed: gone".to_string()]);
    assert!(matches!(st.action, PaperSyncAction::FetchDetail(7)));
    run.step(PaperSyncEvent::Detail(Ok(detail(7))));
    let st = run.step(PaperSyncEvent::Posted(Err("refused".to_string())));
    assert_eq!(st.log, vec!["post_paper_article failed: refused".to_string()]);
    assert!(matches!(st.action, PaperSyncAction::Reply));
    assert!(matches!(run.phase, PaperPhase::Finished));
}

#[test]
fn paper_run_without_articles_answers_at_once() {
    let mut run = paper_run();
    run.step(PaperSyncEvent::Started);
    let st = run.step(PaperSyncEvent::Listed(Err("down".to_string())));
    assert_eq!(st.log, vec!["get_paper_articles failed: down".to_string()]);
    assert!(matches!(st.action, PaperSyncAction::Reply));
    let mut empty = paper_run();
    empty.step(PaperSyncEvent::Started);
    let st = empty.step(PaperSyncEvent::Listed(Ok(vec![])));
    assert!(st.log.is_empty());
    assert!(matches!(st.action, PaperSyncAction::Reply));
    let mut scored = paper_run();
    scored.step(PaperSyncEvent::Started);
    scored.step(PaperSyncEvent::Listed(Ok(vec![listed(5)])));
    scored.step(PaperSyncEvent::Detail(Ok(detail(5))));
    scored.step(PaperSyncEvent::Posted(Ok(1)));
    let st = scored.step(PaperSyncEvent::Scored(Ok(())));
    assert_eq!(st.log, vec!["post_paper_score success".to_string()]);
    assert!(matches!(st.action, PaperSyncAction::Reply));
}
