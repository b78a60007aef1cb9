//! What a webview is built with. The settings are fixed but for the title
//! of the window and the page that is shown first.

use crate::platform::AttachStrategy;
use crate::platform::Platform;
use vstd::prelude::*;
use vstd::string::StringExecFns;

verus! {

/// Name of the URL scheme that the protocol handler is registered for.
pub open spec fn scheme_name() -> Seq<char> {
    "wry"@
}

/// The script that runs in every page before the page's own scripts.
pub open spec fn initialization_script() -> Seq<char> {
    "console.log('hello world from init script');"@
}

/// Title of the window where the caller asks for none.
pub open spec fn default_title() -> Seq<char> {
    "A fantastic window!"@
}

/// Page that is shown first where the caller asks for none.
pub open spec fn default_url() -> Seq<char> {
    "https://tauri.app"@
}

/// Everything a webview and its window are built from.
#[derive(Clone, Debug, PartialEq, Eq)]
pub struct WebviewConfig {
    pub title: String,
    pub url: String,
    pub devtools: bool,
    pub initialization_script: String,
    pub scheme: String,
    pub attach: AttachStrategy,
}

impl WebviewConfig {
    /// The settings are the fixed ones, and the webview is attached as
    /// `platform` calls for.
    pub open spec fn fixed_for(&self, platform: Platform) -> bool {
        &&& self.devtools
        &&& self.initialization_script@ == initialization_script()
        &&& self.scheme@ == scheme_name()
        &&& self.attach == platform.attachment()
    }

    /// The configuration of a window titled `title` that first shows `url`.
    pub fn new(platform: Platform, title: String, url: String) -> (config: WebviewConfig)
        ensures
            config.title == title,
            config.url == url,
            config.fixed_for(platform),
    {
        WebviewConfig {
            title,
            url,
            devtools: true,
            initialization_script: String::from_str(
                "console.log('hello world from init script');",
            ),
            scheme: String::from_str("wry"),
            attach: platform.attach_strategy(),
        }
    }

    /// The configuration with the default title and start page.
    pub fn standard(platform: Platform) -> (config: WebviewConfig)
        ensures
            config.title@ == default_title(),
            config.url@ == default_url(),
            config.fixed_for(platform),
    {
        WebviewConfig::new(
            platform,
            String::from_str("A fantastic window!"),
            String::from_str("https://tauri.app"),
        )
    }
}

} // verus!
