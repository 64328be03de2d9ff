//! The device snapshot: what the browser of the session says of itself.

use vstd::prelude::*;
use crate::error::TikTokRsErr;

verus! {

/// The script that reads the device attributes in the session.
pub const NAVIGATOR_SCRIPT: &'static str = r#"
        return {
            device_scale_factor: window.devicePixelRatio,
            user_agent: window.navigator.userAgent,
            browser_language: window.navigator.language,
            browser_platform: window.navigator.platform,
            browser_name: window.navigator.appCodeName,
            browser_version: window.navigator.appVersion,
        }
    "#;

/// The attributes of the browser at the time of one request.
#[derive(Debug)]
pub struct Navigator {
    /// The device pixel ratio.
    pub device_scale_factor: i32,
    /// The user agent.
    pub user_agent: String,
    /// The language of the browser.
    pub browser_language: String,
    /// The platform of the browser.
    pub browser_platform: String,
    /// The code name of the browser.
    pub browser_name: String,
    /// The version of the browser.
    pub browser_version: String,
}

/// How the session answered the snapshot script.
#[derive(Debug)]
pub enum DeviceReply {
    /// The script returned a record of the six attributes.
    Captured(Navigator),
    /// The script returned a value of another shape: an attribute is
    /// missing or has another type.
    Mismatched,
    /// The session rejected the script.
    Rejected,
}

impl Navigator {
    /// The snapshot that an answer of the session stands for.
    pub open spec fn of_reply(reply: DeviceReply) -> Result<Navigator, TikTokRsErr> {
        match reply {
            DeviceReply::Captured(navigator) => Ok(navigator),
            DeviceReply::Mismatched => Err(TikTokRsErr::NavigationParseError),
            DeviceReply::Rejected => Err(TikTokRsErr::ScriptEvalFailed),
        }
    }

    /// The snapshot that the session returned, or the reason why there is
    /// none.
    pub fn new(reply: DeviceReply) -> (r: Result<Self, TikTokRsErr>)
        ensures
            r == Self::of_reply(reply),
    {
        match reply {
            DeviceReply::Captured(navigator) => Ok(navigator),
            DeviceReply::Mismatched => Err(TikTokRsErr::NavigationParseError),
            DeviceReply::Rejected => Err(TikTokRsErr::ScriptEvalFailed),
        }
    }
}

} // verus!
