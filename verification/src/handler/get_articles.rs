//! An older form of the newspaper listing, with its own token and address
//! scheme: the token digests the salt and time stamp without a separator,
//! the status defaults to 30, and both date bounds are today.

use vstd::prelude::*;

use crate::clock::{max_duration_millis, system_since_epoch};
use crate::codec::md5_spec;
use crate::handler::{is_date_text, md5_hex, token_salt, HandlerError};
use crate::text::{decimal_spec, decimal_u128, hex_lower_spec};

verus! {

/// The handler of the older newspaper listing.
pub struct GetArticles;

/// Its query: site and optional status.
pub struct GetArticlesReq {
    pub site_id: u32,
    pub docstatus: Option<u32>,
}

/// The token of the older listing for time stamp `duration`: the digest of
/// the salt directly followed by the time stamp.
pub open spec fn plain_token_spec(duration: nat) -> Seq<char> {
    hex_lower_spec(md5_spec(vstd::utf8::encode_utf8(token_salt() + decimal_spec(duration))))
}

/// Milliseconds since the Unix epoch, read from the system clock, or `None`
/// when the clock reads a time before the epoch. The reading depends on the
/// moment alone, so only what holds of every reading is stated: the bound of
/// a `Duration`.
fn get_now_millis() -> (r: Option<u128>)
    ensures
        r matches Some(v) ==> v <= max_duration_millis(),
{
    match system_since_epoch() {
        Some((secs, nanos)) => Some(crate::handler::reading_millis(secs, nanos, 0)),
        None => None,
    }
}

fn get_token(duration: u128) -> (r: Result<String, HandlerError>)
    ensures
        r matches Ok(t) && t@ == plain_token_spec(duration as nat),
{
    let seed = crate::text::concat2("ak9@j&pq1w(e423q", decimal_u128(duration).as_str());
    Ok(md5_hex(seed.as_str()))
}

fn get_current_date() -> (r: Option<String>)
    ensures
        r matches Some(s) ==> is_date_text(s@),
{
    crate::handler::get_current_date()
}

/// `{server}/paper/docs?token={t}&timestamp={now}&siteId={s}&docstatus={d}&BeginDate={today}&EndDate={today}`,
/// the status defaulting to 30.
pub open spec fn articles_url_spec(
    server_url: Seq<char>,
    token: Seq<char>,
    now: nat,
    site_id: nat,
    docstatus: Option<u32>,
    today: Seq<char>,
) -> Seq<char> {
    server_url + "/paper/docs?token="@ + token + "&timestamp="@ + decimal_spec(now) + "&siteId="@
        + decimal_spec(site_id) + "&docstatus="@ + decimal_spec(
        match docstatus {
            Some(d) => d as nat,
            None => 30,
        },
    ) + "&BeginDate="@ + today + "&EndDate="@ + today
}

/// The address of today's articles of site `site_id` in the older scheme.
pub fn articles_url(
    server_url: &str,
    token: &str,
    now: u128,
    site_id: u32,
    docstatus: Option<u32>,
    today: &str,
) -> (r: String)
    ensures
        r@ == articles_url_spec(server_url@, token@, now as nat, site_id as nat, docstatus, today@),
{
    let status: u32 = match docstatus {
        Some(d) => d,
        None => 30,
    };
    let mut u = String::from_str(server_url);
    u.append("/paper/docs?token=");
    u.append(token);
    u.append("&timestamp=");
    u.append(decimal_u128(now).as_str());
    u.append("&siteId=");
    u.append(decimal_u128(site_id as u128).as_str());
    u.append("&docstatus=");
    u.append(decimal_u128(status as u128).as_str());
    u.append("&BeginDate=");
    u.append(today);
    u.append("&EndDate=");
    u.append(today);
    u
}

impl GetArticles {
    /// The address that the older listing requests, signed with the current
    /// time and its token; `None` when the system clock reads a time before
    /// the Unix epoch or beyond the dates `chrono` represents.
    pub fn request(server_url: &str, prms: &GetArticlesReq) -> (r: Option<Result<String, HandlerError>>)
        ensures
            r is Some ==> (r matches Some(Ok(u)) && exists|now: u128, today: Seq<char>|
                now <= max_duration_millis() && is_date_text(today) && u@
                    == #[trigger] articles_url_spec(
                    server_url@,
                    plain_token_spec(now as nat),
                    now as nat,
                    prms.site_id as nat,
                    prms.docstatus,
                    today,
                )),
    {
        let now_millis = match get_now_millis() {
            Some(v) => v,
            None => {
                return None;
            },
        };
        let token = match get_token(now_millis) {
            Ok(t) => t,
            Err(e) => {
                return Some(Err(e));
            },
        };
        let c_date = match get_current_date() {
            Some(d) => d,
            None => {
                return None;
            },
        };
        Some(Ok(
            articles_url(
                server_url,
                token.as_str(),
                now_millis,
                prms.site_id,
                prms.docstatus,
                c_date.as_str(),
            ),
        ))
    }
}

} // verus!
