use ascm_article::handler::get_paper_article_detail::{paper_detail_request, paper_detail_url, ArticleDetail as PaperArticle};
use ascm_article::handler::get_paper_articles::{paper_articles_request, paper_articles_url, GetArticles};
use ascm_article::handler::get_tv_article::{tv_article_url, ArticleDetail as TvArticle};
use ascm_article::handler::post_paper_articles::{PostPaperArticles, PostPaperArticlesReq};
use ascm_article::handler::post_tv_articles::{
    filter_title, prepare_tv_article, show_day, PostTvArticles, PostTvArticlesReq,
};
use ascm_article::handler::{
    article_pdf_url, article_post_url, paper_article_post, paper_article_result, paper_date_parts,
    paper_page_meta_id, paper_score_post, paper_score_url, pdf_href_from_page, pick_pdf_href,
    score_result, tv_article_post, tv_article_post_checked, tv_article_result, tv_score_post,
    tv_score_url, Config, HandlerError, PostResponse, ReporterKind, WebErr,
};
use ascm_article::json::{Json, JsonNumber};
use ascm_article::text::IntErrorKind;

fn tv_article(show: &str, authors: &str, photos: Option<&str>) -> TvArticle {
    TvArticle {
        id: 77,
        title: "新闻".to_string(),
        content: "c".to_string(),
        html_content: "<p>c</p>".to_string(),
        author: "a".to_string(),
        author_codes: authors.to_string(),
        photo_person: None,
        photo_person_codes: photos.map(|p| p.to_string()),
        updated_by: "u".to_string(),
        colunm_name: "col".to_string(),
        show_date: 0,
        num_without_space: 10,
        num_with_space: 12,
        video_time: 90,
        show_date_str: show.to_string(),
    }
}

fn paper_article(pubdate: &str, chnldesc: &str) -> PaperArticle {
    PaperArticle {
        metadataid: 5,
        doctype: 1,
        title: "标题".to_string(),
        pubdate: pubdate.to_string(),
        author: "记者".to_string(),
        chnldesc: chnldesc.to_string(),
        docstatus: 38,
        docwordscount: 300,
        htmlcontent: "<p>x</p>".to_string(),
        content: "x".to_string(),
        remarks: "".to_string(),
    }
}

fn reply(success: bool, msg: &str, data: Json) -> PostResponse {
    PostResponse { success, err_msg: msg.to_string(), data }
}

fn config() -> Config {
    Config {
        port: 80,
        db_path: "db".to_string(),
        post_server_url: "http://post".to_string(),
        paper_server_url: "http://paper".to_string(),
        tv_server_url: "http://tv".to_string(),
        docstatus: 38,
        site_id: 3,
        get_paper_articles_interval: 60,
        tv_columnid: "col0".to_string(),
        daemon: false,
        timestamp_extra: 0,
        mah_token_server_url: "http://auth".to_string(),
        mah_search_server_url: "http://search".to_string(),
        mah_content_server_url: "http://content".to_string(),
        mah_client_id: "id".to_string(),
        mah_client_secret: "secret".to_string(),
        grant_type: "password".to_string(),
        loop_token_interval: 60,
        mah_username: "u".to_string(),
        search_char_at_least: 4,
        loop_tv_url_interval: 600,
        loop_tv_url_year: None,
        loop_tv_url_month: None,
        filter_words: vec![],
    }
}

#[test]
fn tv_article_record() {
    let a = tv_article("2026-01-23", "", None);
    let p = tv_article_post(&a, 2).ok().unwrap();
    assert_eq!((p.publish_year, p.publish_month, p.publish_day), (2026, 1, 23));
    assert_eq!(p.tv_or_paper, 2);
    assert_eq!(p.ref_id, 77);
    assert_eq!(p.duration, 90);
    assert_eq!(p.character_count, 12);
    assert_eq!(p.state, 1);
    assert_eq!(p.tv_url, "");
    assert!(matches!(
        tv_article_post(&tv_article("2026-x-23", "", None), 2),
        Err(HandlerError::ParseInt(IntErrorKind::InvalidDigit))
    ));
    assert!(matches!(
        tv_article_post(&tv_article("", "", None), 2),
        Err(HandlerError::ParseInt(IntErrorKind::Empty))
    ));
    assert!(matches!(
        tv_article_post(&tv_article("2026-01-99999999999", "", None), 2),
        Err(HandlerError::ParseInt(IntErrorKind::PosOverflow))
    ));
    assert!(tv_article_post_checked(&tv_article("2026", "", None), 2).is_none());
    assert!(tv_article_post_checked(&tv_article("2026-01", "", None), 2).is_none());
    assert!(matches!(tv_article_post_checked(&tv_article("2026-xx", "", None), 2), Some(Err(_))));
}

#[test]
fn tv_score_record_lists_writers_then_camera_operators() {
    let a = tv_article("2026-01-23", ",w1,w2,", Some("p1"));
    let s = tv_score_post(9, &a);
    assert_eq!(s.article_id, 9);
    assert_eq!(s.reporter_scores.len(), 3);
    assert!(matches!(s.reporter_scores[0].kind, ReporterKind::Author));
    assert_eq!(s.reporter_scores[0].ref_code.as_deref(), Some("w1"));
    assert_eq!(s.reporter_scores[0].reporter_category_id, 3);
    assert_eq!(s.reporter_scores[1].ref_code.as_deref(), Some("w2"));
    assert!(matches!(s.reporter_scores[2].kind, ReporterKind::Photographer));
    assert_eq!(s.reporter_scores[2].ref_code.as_deref(), Some("p1"));
    assert_eq!(s.reporter_scores[2].reporter_category_id, 4);
    let none = tv_score_post(1, &tv_article("d", "", None));
    assert_eq!(none.reporter_scores.len(), 2);
    assert_eq!(none.reporter_scores[0].ref_code.as_deref(), Some(""));
}

#[test]
fn replies_of_the_article_server() {
    let ok = reply(true, "", Json::Number(JsonNumber::PosInt(42)));
    assert_eq!(tv_article_result(Some(&ok)).ok(), Some(42));
    let big = reply(true, "", Json::Number(JsonNumber::PosInt(4_294_967_297)));
    assert_eq!(paper_article_result(Some(&big)).ok(), Some(1));
    let neg = reply(true, "", Json::Number(JsonNumber::NegInt(-1)));
    assert_eq!(tv_article_result(Some(&neg)).ok(), Some(u32::MAX));
    let not_num = reply(true, "", Json::String("x".to_string()));
    assert_eq!(tv_article_result(Some(&not_num)).err().unwrap().message(), "invalid response");
    let refused = reply(false, "dup", Json::Null);
    assert_eq!(tv_article_result(Some(&refused)).err().unwrap().message(), "post tv article failed, dup");
    assert_eq!(paper_article_result(None).err().unwrap().message(), "post paper article failed");
    assert!(score_result(Some(&ok)).is_ok());
    assert_eq!(score_result(None).err().unwrap().message(), "score tv article failed");
    assert_eq!(score_result(Some(&refused)).err().unwrap().message(), "score tv article failed, dup");
}

#[test]
fn endpoints() {
    assert_eq!(article_post_url("http://s"), "http://s/article_from_dump");
    assert_eq!(tv_score_url("http://s"), "http://s/score_for_dump");
    assert_eq!(paper_score_url("http://s"), "http://s/score");
    assert_eq!(tv_article_url("http://tv", 12), "http://tv/s/doc/12");
    assert_eq!(
        paper_detail_url("http://p", 5, 1700, "t"),
        "http://p/paper/docDetail?metadataId=5&timestamp=1700&token=t"
    );
    assert!(paper_detail_request("http://p", 5, 0).unwrap().ok().unwrap().starts_with("http://p/paper/docDetail?metadataId=5&timestamp="));
    assert_eq!(
        paper_articles_url("http://p", "t", 1, 2, None, None, Some("E".to_string()), "D"),
        "http://p/paper/docs?token=t&timestamp=1&siteId=2&beginDate=D&endDate=E&docstatus=38"
    );
    assert!(paper_articles_request("http://p", 2, Some(9), None, None, 0).unwrap().ok().unwrap().ends_with("&docstatus=9"));
    assert_eq!(GetArticles::reply(vec![]).err_msg, "获取文章");
}

#[test]
fn newspaper_pages_and_pdf_links() {
    assert_eq!(paper_page_meta_id("一版"), 1);
    assert_eq!(paper_page_meta_id("十版"), 10);
    assert_eq!(paper_page_meta_id("十六版"), 16);
    assert_eq!(paper_page_meta_id("十七版"), 0);
    assert_eq!(paper_page_meta_id(""), 0);
    assert_eq!(
        article_pdf_url("2026", "01", "23", 1),
        "https://epaper.wifizs.cn/zsrb/2026-01/23/node_1.html"
    );
    let html = r#"<html><body><a class="pdf" href="p1.pdf">1</a><a class="x" href="no">x</a><a class="pdf">2</a><a class="pdf" href="p3.pdf">3</a></body></html>"#;
    assert_eq!(pdf_href_from_page(html, 1).unwrap().ok(), Some("p1.pdf".to_string()));
    assert_eq!(pdf_href_from_page(html, 2).unwrap().err().unwrap().message(), "invalid response");
    assert_eq!(pdf_href_from_page(html, 3).unwrap().ok(), Some("p3.pdf".to_string()));
    assert!(pdf_href_from_page(html, 4).unwrap().is_err());
    assert!(pdf_href_from_page(html, 0).is_none());
    assert!(pdf_href_from_page("<p>none</p>", 0).unwrap().is_err());
    let links = vec![Some("a".to_string()), None];
    assert_eq!(pick_pdf_href(&links, 1).ok(), Some("a".to_string()));
    assert!(pick_pdf_href(&links, 2).is_err());
}

#[test]
fn newspaper_article_record() {
    let a = paper_article("2026-01-23", "三版");
    let (y, m, d) = paper_date_parts(&a.pubdate).unwrap();
    assert_eq!((y.as_str(), m.as_str(), d.as_str()), ("2026", "01", "23"));
    assert!(paper_date_parts("2026-01").is_none());
    let p = paper_article_post(&a, 1, paper_page_meta_id(&a.chnldesc), "u.pdf".to_string()).ok().unwrap();
    assert_eq!((p.publish_year, p.publish_month, p.publish_day), (2026, 1, 23));
    assert_eq!(p.page_meta_id, 3);
    assert_eq!(p.page_name, "三版");
    assert_eq!(p.tv_url, "u.pdf");
    assert_eq!(p.duration, 0);
    assert_eq!(p.character_count, 300);
    let bad = paper_article("2026-+1--2", "三版");
    assert!(matches!(
        paper_article_post(&bad, 1, 3, String::new()),
        Err(HandlerError::ParseInt(IntErrorKind::Empty))
    ));
    let neg = paper_article("-5-+1-2", "x");
    let p = paper_article_post(&neg, 1, 0, String::new());
    assert!(p.is_err());
    let s = paper_score_post(4, &a);
    assert_eq!(s.reporter_scores.len(), 1);
    assert_eq!(s.reporter_scores[0].reporter_name.as_deref(), Some("记者"));
    assert_eq!(s.reporter_scores[0].reporter_category_id, 4);
}

#[test]
fn forwarding_plans() {
    let cfg = config();
    let p = PostPaperArticles::plan(&cfg, None, "2026-01-22");
    assert_eq!(p.post_site_id, 1);
    assert_eq!(p.site_id, 3);
    assert_eq!(p.docstatus, Some(38));
    assert_eq!(p.begin_date.as_deref(), Some("2026-01-22"));
    let p = PostPaperArticles::plan(&cfg, Some(PostPaperArticlesReq { site_id: Some(7) }), "d");
    assert_eq!(p.post_site_id, 7);
    let t = PostTvArticles::plan(&cfg, PostTvArticlesReq { column_id: None, site_id: None, start_time: None, end_time: None });
    assert_eq!(t.column_id, "col0");
    assert_eq!(t.site_id, 0);
    assert!(PostTvArticles::reply().success);
    assert!(PostPaperArticles::reply().data.is_none());
}

#[test]
fn title_filter_and_preparation() {
    let words = vec!["广告".to_string(), "^测试".to_string()];
    assert_eq!(filter_title("今日新闻", &words).ok(), Some(true));
    assert_eq!(filter_title("一则广告", &words).ok(), Some(false));
    assert_eq!(filter_title("测试稿", &words).ok(), Some(false));
    assert_eq!(filter_title("稿测试", &words).ok(), Some(true));
    let bad = vec!["(".to_string()];
    assert!(matches!(filter_title("x", &bad), Err(HandlerError::Regex(_))));
    assert_eq!(filter_title("x", &[]).ok(), Some(true));
    assert_eq!(show_day("2026-01-23 18:00:00"), "2026-01-23");
    assert_eq!(show_day(""), "");
    let a = tv_article("old", "", None);
    let ready = prepare_tv_article(a, 300, "2026-01-23".to_string(), &words).ok().unwrap().unwrap();
    assert_eq!(ready.video_time, 300);
    assert_eq!(ready.show_date_str, "2026-01-23");
    let mut blocked = tv_article("old", "", None);
    blocked.title = "广告".to_string();
    assert!(prepare_tv_article(blocked, 1, String::new(), &words).ok().unwrap().is_none());
}

#[test]
fn errors_as_replies() {
    let e = WebErr { message: "boom".to_string() };
    let r = e.reply();
    assert!(!r.success);
    assert_eq!(r.err_msg, "boom");
    assert_eq!(r.data, "");
    assert_eq!(
        HandlerError::ParseInt(IntErrorKind::InvalidDigit).message(),
        "invalid digit found in string"
    );
    assert_eq!(HandlerError::Message("m".to_string()).into_web_err().message, "m");
}
