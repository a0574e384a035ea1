use ascm_article::handler::get_mah_token::get_auth;
use ascm_article::handler::search_material::title_refactor;

#[test]
fn test_base64() {
    let b = match get_auth("zcsmwages", "b79dcbd53aea46e3acc7887aae72f5f0") {
        Ok(b) => b,
        Err(_) => panic!("get_auth failed"),
    };
    println!("base64: {}", b);
    assert_eq!(b, "emNzbXdhZ2VzOmI3OWRjYmQ1M2FlYTQ2ZTNhY2M3ODg3YWFlNzJmNWYw");
    assert!(true);
}

#[test]
fn test_reg() {
    // let title = "舟山城市足球联赛（县区组）启幕 百余名球员绿茵争锋 （洪碧 刘中华）";
    let title = "（每日快讯）舟山海警局查获一起走私成品油案（通讯员：虞康铭、司马志潮）";
    let trim_new_title = match title_refactor(title) {
        Ok(t) => t,
        Err(_) => panic!("title_refactor failed"),
    };
    println!("new_title: <{}>", trim_new_title);
    assert_eq!(trim_new_title, "舟山海警局查获一起走私成品油案");
    assert!(true);
}
