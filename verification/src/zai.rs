//! Dispatch of requests for the zai backend.

use crate::monitor::Protocol;
use vstd::prelude::*;

verus! {

/// How a request for the zai backend reaches it.
#[derive(Clone, Copy, Debug, PartialEq, Eq, Structural)]
pub enum ZaiDispatchMode {
    /// The request is passed on as it came.
    DirectForward,
    /// The request is translated into the backend's shape first.
    TransformThenForward,
}

/// The zai part of the configuration.
#[derive(Clone, Copy, Debug, PartialEq, Eq, Structural)]
pub struct ZaiConfig {
    pub enabled: bool,
    pub dispatch_mode: ZaiDispatchMode,
}

/// Who handles a request.
#[derive(Clone, Copy, Debug, PartialEq, Eq, Structural)]
pub enum Handler {
    /// The translator of the request's protocol.
    Translator,
    /// The zai dispatcher, passing the request on as it came.
    ZaiDirect,
    /// The zai dispatcher, translating the request first.
    ZaiTransform,
}

/// The zai dispatcher takes the requests for zai while it is switched on;
/// everything else goes to the translator of its protocol.
pub open spec fn handler_of(protocol: Protocol, zai: ZaiConfig) -> Handler {
    if protocol == Protocol::Zai && zai.enabled {
        match zai.dispatch_mode {
            ZaiDispatchMode::DirectForward => Handler::ZaiDirect,
            ZaiDispatchMode::TransformThenForward => Handler::ZaiTransform,
        }
    } else {
        Handler::Translator
    }
}

impl ZaiConfig {
    /// Who handles a request that arrived in `protocol`.
    pub fn handler_for(&self, protocol: Protocol) -> (handler: Handler)
        ensures
            handler == handler_of(protocol, *self),
    {
        match protocol {
            Protocol::Zai => {
                if self.enabled {
                    match self.dispatch_mode {
                        ZaiDispatchMode::DirectForward => Handler::ZaiDirect,
                        ZaiDispatchMode::TransformThenForward => Handler::ZaiTransform,
                    }
                } else {
                    Handler::Translator
                }
            },
            _ => Handler::Translator,
        }
    }

    /// A short label for the dispatch mode.
    pub fn dispatch_mode_display(&self) -> (label: &'static str)
        ensures
            label@ == match self.dispatch_mode {
                ZaiDispatchMode::DirectForward => "direct"@,
                ZaiDispatchMode::TransformThenForward => "transform"@,
            },
    {
        match self.dispatch_mode {
            ZaiDispatchMode::DirectForward => "direct",
            ZaiDispatchMode::TransformThenForward => "transform",
        }
    }
}

} // verus!
