use crate::config::Config;
use vstd::prelude::*;

verus! {

/// What the notification collaborator is asked to deliver.
pub struct NotificationRequest {
    pub from_address: String,
    pub to_address: String,
    pub subject: String,
    pub body: String,
}

/// Builds the outbound notification for a sender tag: the from-address is the
/// tag at the configured sender domain, the recipient comes from the
/// configuration, and subject and body pass through unchanged.
pub fn compose(cfg: &Config, subject: &str, body: &str, tag: &str) -> (r: NotificationRequest)
    ensures
        r.from_address@ == tag@ + "@"@ + cfg.sender_domain@,
        r.to_address@ == cfg.recipient_email@,
        r.subject@ == subject@,
        r.body@ == body@,
{
    let mut from = String::from_str(tag);
    from.append("@");
    from.append(cfg.sender_domain.as_str());
    NotificationRequest {
        from_address: from,
        to_address: cfg.recipient_email.clone(),
        subject: String::from_str(subject),
        body: String::from_str(body),
    }
}

} // verus!
