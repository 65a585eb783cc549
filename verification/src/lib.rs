//! State model of a minimal browser window shell.
//!
//! The heart of the library is the header title widget: a compact
//! title/subtitle/favicon triple shown in a window's header bar and kept in
//! step with the embedded browsing view.  The widget's observable state, the
//! contract of each of its setters, and the favicon sizing rule are stated
//! and verified here.  Around it stand the small pure decisions that the
//! window otherwise makes: persisted window geometry with its defaults,
//! navigation policy for opening links, and the find bar's reactions.
//!
//! Rendering itself, the GUI toolkit, and the web engine are collaborators
//! outside this crate: callers feed their notifications into these types and
//! carry the resulting state back to the screen.

pub mod faviconheaderbar;
pub mod favicontitle;
pub mod findbar;
pub mod navigation;
pub mod settings;
