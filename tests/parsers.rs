use pixiv_util::parsers::{
    parse_illust_id, parse_series_id, parse_user_id, sanitize_cookie, ArgError,
};
use pixiv_util::user_mgmt::{get_user_id, sanitize};

const COOKIE: &str = "first=1; second=2; third=3; fourth=4; fifth=5; sixth=6";

#[test]
fn cookie_with_header_is_stripped() {
    let with_header = format!("Cookie: {}", COOKIE);
    assert_eq!(sanitize_cookie(&with_header), Ok(COOKIE.to_string()));
}

#[test]
fn cookie_without_header_is_kept() {
    assert_eq!(sanitize_cookie(COOKIE), Ok(COOKIE.to_string()));
}

#[test]
fn cookie_with_five_fields_is_refused() {
    let short = "first=1; second=2; third=3; fourth=4; fifth=5";
    assert_eq!(sanitize_cookie(short), Err(ArgError::NotACookie));
    assert_eq!(sanitize_cookie(""), Err(ArgError::NotACookie));
}

#[test]
fn illust_id_bare_and_in_url() {
    assert_eq!(parse_illust_id("12345"), Ok(12345));
    assert_eq!(parse_illust_id("+7"), Ok(7));
    assert_eq!(
        parse_illust_id("https://www.pixiv.net/en/artworks/98765#manga"),
        Ok(98765)
    );
    assert_eq!(parse_illust_id("https://www.pixiv.net/en/artworks/98765"), Ok(98765));
}

#[test]
fn illust_id_unrecognized() {
    assert_eq!(parse_illust_id("abc"), Err(ArgError::UnrecognizedIllustId));
    assert_eq!(parse_illust_id(""), Err(ArgError::UnrecognizedIllustId));
    assert_eq!(parse_illust_id("-3"), Err(ArgError::UnrecognizedIllustId));
    assert_eq!(
        parse_illust_id("https://www.pixiv.net/en/artworks/x1#a"),
        Err(ArgError::UnrecognizedIllustId)
    );
}

#[test]
fn number_too_large_for_u64_is_refused() {
    assert_eq!(parse_illust_id("18446744073709551615"), Ok(u64::MAX));
    assert_eq!(
        parse_illust_id("18446744073709551616"),
        Err(ArgError::UnrecognizedIllustId)
    );
}

#[test]
fn series_id_bare_and_in_url() {
    assert_eq!(parse_series_id("42"), Ok(42));
    assert_eq!(parse_series_id("https://www.pixiv.net/user/5/series/77"), Ok(77));
    assert_eq!(
        parse_series_id("https://www.pixiv.net/user/5/series/77/"),
        Err(ArgError::UnrecognizedSeriesId)
    );
}

#[test]
fn user_id_bare_and_in_url() {
    assert_eq!(parse_user_id("11"), Ok(11));
    assert_eq!(parse_user_id("https://www.pixiv.net/en/users/314/artworks"), Ok(314));
    assert_eq!(parse_user_id("https://www.pixiv.net/en/users/314"), Ok(314));
    assert_eq!(parse_user_id("users/"), Err(ArgError::UnrecognizedUserId));
}

#[test]
fn arg_error_messages() {
    assert_eq!(
        ArgError::NotACookie.message(),
        "provided string does not look like a valid cookie"
    );
    assert_eq!(ArgError::UnrecognizedSeriesId.message(), "cannot recognize series id");
}

#[test]
fn user_id_from_tracking_field() {
    let cookie = "a=1; __utmv=235335808.|2=login ever=yes=1^3=plan=normal=1^6=user_id=4242=1^9=p_ab_id=0=1; b=2";
    assert_eq!(get_user_id(cookie), Some(4242));
}

#[test]
fn user_id_absent_or_unreadable() {
    assert_eq!(get_user_id("a=1; b=2"), None);
    assert_eq!(get_user_id("__utmv=1.|6=user_id=abc=1"), None);
    assert_eq!(get_user_id("__utmv=no_bar_here"), None);
    assert_eq!(get_user_id("x__utmv=1.|6=user_id=5=1"), None);
}

#[test]
fn user_id_first_readable_part_wins() {
    let cookie = "__utmv=1.|6=user_id=x=1^7=user_id=8=1^8=user_id=9=1";
    assert_eq!(get_user_id(cookie), Some(8));
}

#[test]
fn sanitize_strips_header_only() {
    assert_eq!(sanitize("Cookie: a=b"), "a=b");
    assert_eq!(sanitize("a=b"), "a=b");
    assert_eq!(sanitize("Cookie:a=b"), "Cookie:a=b");
}
