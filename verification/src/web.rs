use crate::text::str_eq;
use vstd::prelude::*;

verus! {

/// The fixed on-disk path the published wallpaper is served from and written
/// to.
pub fn wallpaper_file_path() -> (r: String)
    ensures
        r@ == "data/wallpaper"@,
{
    String::from_str("data/wallpaper")
}

/// The fixed on-disk path the alarm time is served from and written to.
pub fn alarm_file_path() -> (r: String)
    ensures
        r@ == "data/alarm"@,
{
    String::from_str("data/alarm")
}

/// The file bound to a URL path segment, if the segment is routed at all:
/// only the wallpaper and the alarm file are exposed.
pub fn route_file_binding(segment: &str) -> (r: Option<String>)
    ensures
        segment@ == "wallpaper"@ ==> (r matches Some(p) && p@ == "data/wallpaper"@),
        segment@ == "alarm"@ ==> (r matches Some(p) && p@ == "data/alarm"@),
        segment@ != "wallpaper"@ && segment@ != "alarm"@ ==> r is None,
{
    proof {
        reveal_strlit("wallpaper");
        reveal_strlit("alarm");
        assert("wallpaper"@.len() == 9);
        assert("alarm"@.len() == 5);
    }
    if str_eq(segment, "wallpaper") {
        Some(wallpaper_file_path())
    } else if str_eq(segment, "alarm") {
        Some(alarm_file_path())
    } else {
        None
    }
}

/// A served reply: a status code and the body bytes.
pub struct HttpReply {
    pub status: u16,
    pub body: Vec<u8>,
}

/// Serves the current bytes of a bound file: exactly the contents when the
/// file exists, else a not-found status with an empty body.
pub fn file_response(contents: Option<Vec<u8>>) -> (r: HttpReply)
    ensures
        match contents {
            Some(b) => r.status == 200 && r.body@ == b@,
            None => r.status == 404 && r.body@.len() == 0,
        },
{
    match contents {
        Some(b) => HttpReply { status: 200, body: b },
        None => HttpReply { status: 404, body: Vec::new() },
    }
}

} // verus!
