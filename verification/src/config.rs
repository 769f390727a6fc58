use vstd::prelude::*;

verus! {

/// The immutable record loaded once at startup: the gateway token, the local
/// time offset, and the notification-delivery credentials.
#[derive(Clone)]
pub struct Config {
    /// Seconds east of UTC of the local clock; strictly within one day.
    pub timezone_offset_secs: i32,
    pub discord_token: String,
    pub recipient_email: String,
    pub sender_domain: String,
    pub smtp_password: String,
    pub smtp_server: String,
    pub smtp_username: String,
}

impl Config {
    /// The offset denotes a fraction of a day in either direction.
    pub open spec fn wf(self) -> bool {
        -86400 < self.timezone_offset_secs < 86400
    }
}

pub open spec fn spec_is_digit(c: char) -> bool {
    48 <= c as int <= 57
}

pub open spec fn spec_digit_val(c: char) -> int {
    c as int - 48
}

/// The seconds east of UTC written by an offset text of the shape `+HH:MM` or
/// `-HH:MM`, with `HH` below 24 and `MM` below 60; any other text denotes none.
pub open spec fn spec_offset_seconds(s: Seq<char>) -> Option<int> {
    if s.len() == 6 && (s[0] == '+' || s[0] == '-') && spec_is_digit(s[1]) && spec_is_digit(s[2])
        && s[3] == ':' && spec_is_digit(s[4]) && spec_is_digit(s[5]) {
        let h = 10 * spec_digit_val(s[1]) + spec_digit_val(s[2]);
        let m = 10 * spec_digit_val(s[4]) + spec_digit_val(s[5]);
        if h <= 23 && m <= 59 {
            if s[0] == '-' {
                Some(-(h * 3600 + m * 60))
            } else {
                Some(h * 3600 + m * 60)
            }
        } else {
            None
        }
    } else {
        None
    }
}

/// Reads a `+HH:MM` / `-HH:MM` offset text into seconds east of UTC.
pub fn parse_offset(s: &str) -> (r: Option<i32>)
    ensures
        match r {
            Some(v) => spec_offset_seconds(s@) == Some(v as int) && -86400 < v < 86400,
            None => spec_offset_seconds(s@) is None,
        },
{
    if s.unicode_len() != 6 {
        return None;
    }
    let sign = s.get_char(0);
    if sign != '+' && sign != '-' {
        return None;
    }
    if s.get_char(3) != ':' {
        return None;
    }
    let c1 = s.get_char(1) as u32;
    let c2 = s.get_char(2) as u32;
    let c4 = s.get_char(4) as u32;
    let c5 = s.get_char(5) as u32;
    if c1 < 48 || c1 > 57 || c2 < 48 || c2 > 57 || c4 < 48 || c4 > 57 || c5 < 48 || c5 > 57 {
        return None;
    }
    let h: u32 = 10 * (c1 - 48) + (c2 - 48);
    let m: u32 = 10 * (c4 - 48) + (c5 - 48);
    if h > 23 || m > 59 {
        return None;
    }
    let magnitude: i32 = (h * 3600 + m * 60) as i32;
    if sign == '-' {
        Some(-magnitude)
    } else {
        Some(magnitude)
    }
}

} // verus!
