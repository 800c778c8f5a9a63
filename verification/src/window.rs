//! Configuration handed to the windowing collaborator. The window itself
//! (surface creation, size queries, titles) lives outside the core; the core
//! only consumes a screen-size query, expressed as plain values.

use vstd::prelude::*;

verus! {

/// The initial settings requested for a window.
#[derive(Debug, Clone, Copy, PartialEq)]
pub struct WindowConfig {
    pub title: &'static str,
    pub size: (u32, u32),
    pub resizable: bool,
    pub maximised: bool,
    pub fullscreen: bool,
}

impl Default for WindowConfig {
    fn default() -> (r: Self)
        ensures
            r.title@ == "Mocha App"@,
            r.size == (640u32, 480u32),
            r.resizable == true,
            r.maximised == false,
            r.fullscreen == false,
    {
        Self {
            title: "Mocha App",
            size: (640, 480),
            resizable: true,
            maximised: false,
            fullscreen: false,
        }
    }
}

} // verus!
