use crate::config::Config;
use crate::email::{compose, NotificationRequest};
use crate::registry::{
    ArgValue, CommandDescriptor, CommandId, HandlerKind, ParamKind, ParamSpec,
};
use crate::text::str_starts_with;
use vstd::prelude::*;

verus! {

/// Next obligation of the deferred wallpaper handler.
pub enum WallpaperStep {
    /// Fetch the attachment and publish it: save it under `save_path`, then
    /// overwrite the served file at `publish_path` with it.
    Download { url: String, file_name: String, save_path: String, publish_path: String },
    /// Deliver the outbound notification.
    Notify { request: NotificationRequest },
    /// The handler result: reply text or user-facing error text.
    Finished { reply: String },
}

/// Whether a text parses as a URL.
pub uninterp spec fn url_parses(s: Seq<char>) -> bool;

/// The last segment of the path of a URL text, when the text parses and its
/// path has segments.
pub uninterp spec fn url_path_file_name(s: Seq<char>) -> Option<Seq<char>>;

/// Relies on url::Url::parse and url::Url::path_segments: whether a text
/// parses as a URL, and the last segment of the parsed path, are functions of
/// the text alone. The error text carries the parse error's description.
#[verifier::external_body]
fn parse_url_file_name(u: &str) -> (r: Result<Option<String>, String>)
    ensures
        r is Ok <==> url_parses(u@),
        r matches Ok(inner) ==> (match (inner, url_path_file_name(u@)) {
            (Some(f), Some(g)) => f@ == g,
            (None, None) => true,
            _ => false,
        }),
{
    match url::Url::parse(u) {
        Ok(parsed) => Ok(
            match parsed.path_segments() {
                Some(segments) => segments.last().map(|s| s.to_string()),
                None => None,
            },
        ),
        Err(e) => Err(format!("{}", e)),
    }
}

/// The event's first argument is an attachment whose declared content type is
/// an image's.
pub open spec fn spec_is_image_attachment(args: Seq<ArgValue>) -> bool {
    args.len() > 0 && (args[0] matches (ArgValue::Attachment { url: _, content_type })
        && content_type matches Some(ct) && "image/"@.is_prefix_of(ct@))
}

/// Entry of the deferred wallpaper handler: a missing attachment or one that
/// is no image becomes a fixed user-facing text and nothing is downloaded; for
/// an image attachment the plan names the file to fetch, where to save it, and
/// the served path to overwrite.
pub fn start(args: &Vec<ArgValue>) -> (r: WallpaperStep)
    ensures
        args@.len() == 0 || !(args@[0] is Attachment) ==> (r matches (WallpaperStep::Finished {
            reply,
        }) && reply@ == "Please provide a valid attachment"@),
        args@.len() > 0 && args@[0] is Attachment && !spec_is_image_attachment(args@) ==> (
        r matches (WallpaperStep::Finished { reply }) && reply@
            == "Please upload an image file (not a video or gif)"@),
        spec_is_image_attachment(args@) && !url_parses(args@[0]->Attachment_url@)
            ==> (r matches (WallpaperStep::Finished { reply })
            && "Failed to save image: Invalid URL: "@.is_prefix_of(reply@)),
        spec_is_image_attachment(args@) && url_parses(args@[0]->Attachment_url@)
            && url_path_file_name(args@[0]->Attachment_url@) is None ==> (r matches (
        WallpaperStep::Finished { reply }) && reply@
            == "Failed to save image: Failed to extract filename from URL"@),
        spec_is_image_attachment(args@) && url_parses(args@[0]->Attachment_url@)
            && url_path_file_name(args@[0]->Attachment_url@) is Some ==> (r matches (
        WallpaperStep::Download { url, file_name, save_path, publish_path }) && url@
            == args@[0]->Attachment_url@ && file_name@ == url_path_file_name(
            args@[0]->Attachment_url@,
        )->0 && save_path@ == "data/downloads/"@ + url_path_file_name(args@[0]->Attachment_url@)->0
            && publish_path@ == "data/wallpaper"@),
{
    if args.len() == 0 {
        return WallpaperStep::Finished {
            reply: String::from_str("Please provide a valid attachment"),
        };
    }
    let (att_url, ct): (&String, &Option<String>) = match &args[0] {
        ArgValue::Attachment { url, content_type } => (url, content_type),
        _ => {
            return WallpaperStep::Finished {
                reply: String::from_str("Please provide a valid attachment"),
            };
        },
    };
    let is_image = match ct {
        Some(c) => str_starts_with(c.as_str(), "image/"),
        None => false,
    };
    if !is_image {
        return WallpaperStep::Finished {
            reply: String::from_str("Please upload an image file (not a video or gif)"),
        };
    }
    match parse_url_file_name(att_url.as_str()) {
        Result::Err(e) => {
            let mut reply = String::from_str("Failed to save image: Invalid URL: ");
            reply.append(e.as_str());
            proof {
                assert(("Failed to save image: Invalid URL: "@ + e@).subrange(
                    0,
                    "Failed to save image: Invalid URL: "@.len() as int,
                ) =~= "Failed to save image: Invalid URL: "@);
            }
            WallpaperStep::Finished { reply }
        },
        Result::Ok(None) => WallpaperStep::Finished {
            reply: String::from_str("Failed to save image: Failed to extract filename from URL"),
        },
        Result::Ok(Some(f)) => {
            let mut save_path = String::from_str("data/downloads/");
            save_path.append(f.as_str());
            WallpaperStep::Download {
                url: att_url.clone(),
                file_name: f,
                save_path,
                publish_path: String::from_str("data/wallpaper"),
            }
        },
    }
}

/// The stages of fetching and publishing the image, used to phrase failures.
pub enum DownloadStage {
    Fetch,
    ReadBody,
    CreateDir,
    WriteFile,
    Publish { path: String },
}

/// The text a failure at one stage is reported with.
pub open spec fn spec_stage_prefix(s: DownloadStage) -> Seq<char> {
    match s {
        DownloadStage::Fetch => "Failed to download image: "@,
        DownloadStage::ReadBody => "Failed to read image content: "@,
        DownloadStage::CreateDir => "Failed to create directory: "@,
        DownloadStage::WriteFile => "Failed to write image to file: "@,
        DownloadStage::Publish { path } => "Failed to copy image to "@ + path@ + ": "@,
    }
}

/// Phrases a failure of one download stage around its collaborator's detail.
pub fn download_failure_text(stage: &DownloadStage, detail: &str) -> (r: String)
    ensures
        r@ == spec_stage_prefix(*stage) + detail@,
{
    let mut r = match stage {
        DownloadStage::Fetch => String::from_str("Failed to download image: "),
        DownloadStage::ReadBody => String::from_str("Failed to read image content: "),
        DownloadStage::CreateDir => String::from_str("Failed to create directory: "),
        DownloadStage::WriteFile => String::from_str("Failed to write image to file: "),
        DownloadStage::Publish { path } => {
            let mut p = String::from_str("Failed to copy image to ");
            p.append(path.as_str());
            p.append(": ");
            p
        },
    };
    r.append(detail);
    r
}

/// How the download-and-publish work ended.
pub enum DownloadOutcome {
    Saved { canonical_path: String },
    SaveFailed { detail: String },
    CanonicalizeFailed { detail: String },
}

/// Continues after the download: a failure becomes the handler result and no
/// notification is delivered; on success the wallpaper notification naming the
/// requesting user is to be delivered.
pub fn after_download(cfg: &Config, outcome: &DownloadOutcome, username: &str) -> (r:
    WallpaperStep)
    ensures
        match outcome {
            DownloadOutcome::SaveFailed { detail } => (r matches (WallpaperStep::Finished { reply })
                && reply@ == "Failed to save image: "@ + detail@),
            DownloadOutcome::CanonicalizeFailed { detail } => (r matches (WallpaperStep::Finished {
                reply,
            }) && reply@ == "Failed to get absolute path: "@ + detail@),
            DownloadOutcome::Saved { canonical_path: _ } => (r matches (WallpaperStep::Notify {
                request,
            }) && request.from_address@ == "wallpaper"@ + "@"@ + cfg.sender_domain@
                && request.to_address@ == cfg.recipient_email@ && request.subject@
                == "Wallpaper Updated"@ && request.body@ == "New wallpaper from "@ + username@
                + "!"@),
        },
{
    match outcome {
        DownloadOutcome::SaveFailed { detail } => {
            let mut reply = String::from_str("Failed to save image: ");
            reply.append(detail.as_str());
            WallpaperStep::Finished { reply }
        },
        DownloadOutcome::CanonicalizeFailed { detail } => {
            let mut reply = String::from_str("Failed to get absolute path: ");
            reply.append(detail.as_str());
            WallpaperStep::Finished { reply }
        },
        DownloadOutcome::Saved { canonical_path: _ } => {
            let mut body = String::from_str("New wallpaper from ");
            body.append(username);
            body.append("!");
            WallpaperStep::Notify {
                request: compose(cfg, "Wallpaper Updated", body.as_str(), "wallpaper"),
            }
        },
    }
}

/// Continues after the notification: a failed delivery becomes the handler
/// result; a successful one yields the fixed success reply.
pub fn after_notify(send_result: &Result<(), String>) -> (r: WallpaperStep)
    ensures
        match send_result {
            Result::Err(e) => (r matches (WallpaperStep::Finished { reply }) && reply@
                == "Error sending email: "@ + e@),
            Result::Ok(_) => (r matches (WallpaperStep::Finished { reply }) && reply@
                == "🖼️ Wallpaper will soon be changed!"@),
        },
{
    match send_result {
        Result::Err(e) => {
            let mut reply = String::from_str("Error sending email: ");
            reply.append(e.as_str());
            WallpaperStep::Finished { reply }
        },
        Result::Ok(_) => WallpaperStep::Finished {
            reply: String::from_str("🖼️ Wallpaper will soon be changed!"),
        },
    }
}

/// The descriptor the wallpaper command is registered under.
pub fn register() -> (r: CommandDescriptor)
    ensures
        r.id == CommandId::Wallpaper,
        r.kind == HandlerKind::Deferred,
        r.name@ == "wallpaper"@,
        r.description@ == "Set wallpaper for moji"@,
        r.params@.len() == 1,
        r.params@[0].name@ == "attachment"@,
        r.params@[0].description@ == "An image"@,
        r.params@[0].kind == ParamKind::Attachment,
        r.params@[0].required,
        r.params@[0].choices@.len() == 0,
{
    let mut params: Vec<ParamSpec> = Vec::new();
    params.push(
        ParamSpec {
            name: String::from_str("attachment"),
            description: String::from_str("An image"),
            kind: ParamKind::Attachment,
            required: true,
            choices: Vec::new(),
        },
    );
    CommandDescriptor {
        id: CommandId::Wallpaper,
        kind: HandlerKind::Deferred,
        name: String::from_str("wallpaper"),
        description: String::from_str("Set wallpaper for moji"),
        params,
    }
}

} // verus!
