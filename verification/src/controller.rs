//! The entry point: a controller for one platform, which begins the two
//! operations.

use crate::action::Action;
use crate::config::{Platform, ProxyConfig, ProxyRequest, ProxyRequestView};
use crate::session::{begin_model, ProxySession};
use vstd::prelude::*;

verus! {

/// The name by which Rust knows Windows as a target.
pub const WINDOWS_TAG: &'static str = "windows";

/// The name by which Rust knows macOS as a target.
pub const MACOS_TAG: &'static str = "macos";

/// The platform that a target's name stands for.
pub open spec fn platform_of(tag: Seq<char>) -> Platform {
    if tag == WINDOWS_TAG@ {
        Platform::Windows
    } else if tag == MACOS_TAG@ {
        Platform::MacOs
    } else {
        Platform::Unsupported
    }
}

impl Platform {
    /// The platform that the name of the operating system stands for, as
    /// `std::env::consts::OS` gives it.
    pub fn from_tag(tag: &str) -> (platform: Platform)
        ensures
            platform == platform_of(tag@),
    {
        let tag = tag.to_owned();
        if tag == WINDOWS_TAG.to_owned() {
            Platform::Windows
        } else if tag == MACOS_TAG.to_owned() {
            Platform::MacOs
        } else {
            Platform::Unsupported
        }
    }
}

/// Begins operations on one platform. It only dispatches: nothing of the
/// endpoint is checked here.
#[derive(Clone, Copy, Debug, PartialEq, Eq)]
pub struct ProxyController {
    pub platform: Platform,
}

impl ProxyController {
    pub fn new(platform: Platform) -> (controller: ProxyController)
        ensures
            controller.platform == platform,
    {
        ProxyController { platform }
    }

    /// Begins `Enable` for `config` and says what to do first.
    pub fn enable(&self, config: ProxyConfig) -> (started: (ProxySession, Action))
        ensures
            (started.0@, started.1@) == begin_model(
                self.platform,
                ProxyRequestView::Enable(config@),
            ),
    {
        ProxySession::begin(self.platform, ProxyRequest::Enable(config))
    }

    /// Begins `Disable` and says what to do first.
    pub fn disable(&self) -> (started: (ProxySession, Action))
        ensures
            (started.0@, started.1@) == begin_model(self.platform, ProxyRequestView::Disable),
    {
        ProxySession::begin(self.platform, ProxyRequest::Disable)
    }
}

} // verus!
