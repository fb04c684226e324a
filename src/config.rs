//! The application configuration handed to the engine's run loop.

use vstd::prelude::*;

verus! {

/// Selector of the document element that the engine draws into.
pub const RENDER_TARGET: &'static str = "#game-canvas";

/// The selector as a character sequence.
pub open spec fn render_target() -> Seq<char> {
    "#game-canvas"@
}

/// Settings of the primary window; every setting not listed here keeps the
/// engine's default.
#[derive(Debug)]
pub struct WindowConfig {
    /// Selector of the canvas element to bind the render surface to.
    pub canvas: Option<String>,
}

/// Settings of the application: the engine's default plugin set with the
/// window plugin's primary window overridden.
#[derive(Debug)]
pub struct AppConfig {
    /// The primary window, if the application opens one.
    pub primary_window: Option<WindowConfig>,
}

impl AppConfig {
    /// The selector that the configuration binds the render surface to, if any.
    pub open spec fn canvas_spec(&self) -> Option<Seq<char>> {
        match self.primary_window {
            Some(w) => match w.canvas {
                Some(c) => Some(c@),
                None => None,
            },
            None => None,
        }
    }

    /// The selector that the configuration binds the render surface to, if any.
    pub fn canvas(&self) -> (r: Option<&str>)
        ensures
            r matches Some(c) ==> self.canvas_spec() == Some(c@),
            r is None ==> self.canvas_spec() is None,
    {
        match &self.primary_window {
            Some(w) => match &w.canvas {
                Some(c) => Some(c.as_str()),
                None => None,
            },
            None => None,
        }
    }
}

/// The configuration of the game: a primary window whose render surface is
/// bound to the canvas element named by `RENDER_TARGET`.
pub fn game_config() -> (r: AppConfig)
    ensures
        r.primary_window is Some,
        r.canvas_spec() == Some(render_target()),
{
    let selector = String::from_str(RENDER_TARGET);
    AppConfig { primary_window: Some(WindowConfig { canvas: Some(selector) }) }
}

} // verus!
