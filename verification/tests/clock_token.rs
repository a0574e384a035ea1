use base64::Engine;
use ascm_article::handler::get_articles::{articles_url, GetArticles, GetArticlesReq};
use ascm_article::handler::get_mah_token::{
    get_auth, mah_token_request, token_refreshed, token_result, token_tick, GetMahToken,
    GetMahTokenReq, MahTokenResp, TokenAction,
};
use ascm_article::handler::{
    checked_timestamp_ms_to_local_date, format_date, get_current_date, get_now_millis, get_token,
    get_tomorrow_date, get_yesterday, local_date_after, md5_hex, millis_with_extra, reading_millis,
    split_timestamp_ms,
    timestamp_ms_to_local_date,
};

fn is_date_like(s: &str) -> bool {
    let parts: Vec<&str> = s.split('-').collect();
    parts.len() == 3
        && parts[0].parse::<i32>().is_ok()
        && parts[1].len() == 2
        && parts[2].len() == 2
        && (1..=12).contains(&parts[1].parse::<u32>().unwrap())
        && (1..=31).contains(&parts[2].parse::<u32>().unwrap())
}

#[test]
fn token_is_md5_of_salted_time_stamp() {
    let t = get_token(1_700_000_000_000).ok().unwrap();
    assert_eq!(t, "cea2e11c894b46889404df01c817deeb");
    assert_eq!(t.len(), 32);
    assert_eq!(md5_hex("abcdefghijklmnopqrstuvwxyz"), "c3fcd3d76192e4007dfb496cca67e13b");
}

#[test]
fn token_of_the_same_time_stamp_is_the_same() {
    let a = get_token(123).ok().unwrap();
    let b = get_token(123).ok().unwrap();
    assert_eq!(a, b);
    assert_ne!(a, get_token(124).ok().unwrap());
}

#[test]
fn millis_are_shifted_by_whole_seconds() {
    assert_eq!(millis_with_extra(1000, 0), 1000);
    assert_eq!(millis_with_extra(1000, 3), 4000);
    let before = get_now_millis(0).unwrap();
    let shifted = get_now_millis(10).unwrap();
    assert!(shifted >= before + 10_000);
    assert!(before > 1_600_000_000_000);
}

#[test]
fn dates_are_year_dash_month_dash_day() {
    assert_eq!(format_date(2026, 1, 23), "2026-01-23");
    assert_eq!(format_date(2025, 12, 5), "2025-12-05");
    assert_eq!(format_date(-44, 3, 15), "-44-03-15");
    for d in [get_current_date(), get_yesterday(), get_tomorrow_date()] {
        let d = d.unwrap();
        assert!(is_date_like(&d), "{}", d);
    }
}

#[test]
fn millisecond_stamps_split_like_truncating_division() {
    assert_eq!(split_timestamp_ms(1500), (1, 500_000_000));
    assert_eq!(split_timestamp_ms(0), (0, 0));
    assert_eq!(split_timestamp_ms(-1000), (-1, 0));
    assert_eq!(split_timestamp_ms(-1500), (-1, (-500_000_000i64) as u32));
    let m = i64::MIN;
    assert_eq!(split_timestamp_ms(m), (m / 1000, ((m % 1000) * 1_000_000) as u32));
}

#[test]
fn local_date_of_time_stamps() {
    assert!(timestamp_ms_to_local_date(0, "%Y").is_ok());
    assert!(timestamp_ms_to_local_date(1_700_000_000_123, "%Y-%m-%d %H:%M:%S").is_ok());
    assert!(timestamp_ms_to_local_date(8_000_000_000_000_000, "%Y").is_ok());
    assert!(timestamp_ms_to_local_date(-8_000_000_000_000_000, "%Y").is_ok());
    assert!(timestamp_ms_to_local_date(-1000, "%Y").is_ok());
    assert!(timestamp_ms_to_local_date(-1, "%Y").is_err());
    match timestamp_ms_to_local_date(-1500, "%Y-%m-%d") {
        Err(e) => assert_eq!(e.message(), "parse error"),
        Ok(_) => panic!("negative fraction must fail"),
    }
    assert!(checked_timestamp_ms_to_local_date(0, "%Q").is_none());
    assert!(matches!(checked_timestamp_ms_to_local_date(86_400_000, "%Y-%m-%d"), Some(Ok(_))));
}

#[test]
fn older_listing_address() {
    let u = articles_url("http://p", "tok", 5, 1, None, "2026-01-23");
    assert_eq!(
        u,
        "http://p/paper/docs?token=tok&timestamp=5&siteId=1&docstatus=30&BeginDate=2026-01-23&EndDate=2026-01-23"
    );
    let prms = GetArticlesReq { site_id: 2, docstatus: Some(7) };
    let req = GetArticles::request("http://p", &prms).unwrap().ok().unwrap();
    assert!(req.starts_with("http://p/paper/docs?token="));
    assert!(req.contains("&siteId=2&docstatus=7&BeginDate="));
}

#[test]
fn basic_auth_is_base64() {
    assert_eq!(get_auth("id", "secret").ok().unwrap(), "aWQ6c2VjcmV0");
    assert_eq!(get_auth("a", "").ok().unwrap(), "YTo=");
    assert_eq!(get_auth("ab", "").ok().unwrap(), "YWI6");
}

#[test]
fn token_request_encodes_user_and_credentials() {
    let req = mah_token_request("https://auth", "张 a-b_1", "id", "secret", "password").ok().unwrap();
    assert_eq!(req.url, "https://auth/oauth/token");
    assert_eq!(req.authorization, "Basic aWQ6c2VjcmV0");
    assert_eq!(req.host, "auth.wifizs.cn");
    assert_eq!(req.form.grant_type, "password");
    assert_eq!(req.form.username, "%E5%BC%A0%20a%2Db%5F1");
}

fn token(expires_in: u64) -> MahTokenResp {
    MahTokenResp {
        access_token: "abc".to_string(),
        token_type: "bearer".to_string(),
        refresh_token: "r".to_string(),
        expires_in,
        scope: "all".to_string(),
        jti: "j".to_string(),
    }
}

#[test]
fn token_daemon_counts_down_then_refreshes() {
    let mut t = token(100);
    assert!(matches!(token_tick(&mut t, 30), TokenAction::Wait));
    assert_eq!(t.expires_in, 65);
    assert_eq!(t.access_token, "abc");
    assert!(matches!(token_tick(&mut t, 30), TokenAction::Wait));
    assert_eq!(t.expires_in, 30);
    assert!(matches!(token_tick(&mut t, 30), TokenAction::Refresh));
    assert_eq!(t.expires_in, 30);
}

#[test]
fn failed_refresh_is_retried_next_tick() {
    let mut t = token(0);
    token_refreshed(&mut t, None);
    assert_eq!(t.access_token, "");
    assert_eq!(t.expires_in, 0);
    assert!(matches!(token_tick(&mut t, 60), TokenAction::Refresh));
    token_refreshed(&mut t, Some(token(3600)));
    assert_eq!(t.expires_in, 3600);
    assert!(matches!(token_tick(&mut t, 60), TokenAction::Wait));
}

#[test]
fn token_answers() {
    assert_eq!(token_result(Some(token(5))).ok().unwrap().expires_in, 5);
    match token_result(None) {
        Err(e) => assert_eq!(e.message(), "获取token失败"),
        Ok(_) => panic!("status not OK must fail"),
    }
    let prms = GetMahTokenReq { username: None };
    assert_eq!(GetMahToken::username(&prms), "");
    let r = GetMahToken::reply(token(1));
    assert!(r.success);
    assert_eq!(r.err_msg, "获取token成功");
}

#[test]
fn credentials_decode_back() {
    for (id, secret) in [("id", "secret"), ("a", ""), ("ab", ""), ("zcsmwages", "b79dcbd53aea46e3acc7887aae72f5f0"), ("用户", "密")] {
        let text = get_auth(id, secret).ok().unwrap();
        let seed = format!("{}:{}", id, secret);
        let decoded = base64::engine::general_purpose::STANDARD.decode(&text).unwrap();
        assert_eq!(decoded, seed.clone().into_bytes());
        assert_eq!(text.len(), 4 * ((seed.len() + 2) / 3));
    }
}

#[test]
fn clock_readings_in_milliseconds() {
    assert_eq!(reading_millis(0, 0, 0), 0);
    assert_eq!(reading_millis(1_700_000_000, 123_456_789, 0), 1_700_000_000_123);
    assert_eq!(reading_millis(2, 999_999_999, 3), 5_999);
    assert_eq!(reading_millis(u64::MAX, 999_999_999, 0), u64::MAX as u128 * 1000 + 999);
    let d = std::time::Duration::new(1_700_000_000, 987_654_321);
    assert_eq!(reading_millis(d.as_secs(), d.subsec_nanos(), 0), d.as_millis());
    assert_eq!(local_date_after(0), get_current_date());
    assert!(is_date_like(&local_date_after(-1).unwrap()));
}
