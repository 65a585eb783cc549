//! A window header bar whose titled area is the favicon title widget.
//!
//! [`FaviconHeaderBar`] owns a [`FaviconTitle`](crate::favicontitle::FaviconTitle)
//! and forwards each update to it, so that a window can treat the header as
//! one unit.  Its observable state is exactly the title widget's state.

use crate::favicontitle::FaviconTitle;
use crate::favicontitle::HeaderState;
use crate::favicontitle::IconSource;
use crate::favicontitle::MAX_SCALE_FACTOR;
use crate::favicontitle::initial_state;
use crate::favicontitle::with_favicon;
use crate::favicontitle::with_scale;
use crate::favicontitle::with_subtitle;
use crate::favicontitle::with_subtitle_selected;
use crate::favicontitle::with_title;
use vstd::prelude::*;

verus! {

/// A header bar showing the title/subtitle/favicon triple as its titled
/// area.
#[derive(Clone, PartialEq, Eq, Debug)]
pub struct FaviconHeaderBar {
    favicontitle: FaviconTitle,
}

impl View for FaviconHeaderBar {
    type V = HeaderState;

    closed spec fn view(&self) -> HeaderState {
        self.favicontitle@
    }
}

impl FaviconHeaderBar {
    /// A well-formed header bar: its state is well-formed.
    pub open spec fn wf(&self) -> bool {
        crate::favicontitle::state_wf(self@)
    }

    /// Constructs the header bar around a freshly constructed title widget.
    pub fn new() -> (bar: FaviconHeaderBar)
        ensures
            bar.wf(),
            bar@ == initial_state(),
    {
        FaviconHeaderBar { favicontitle: FaviconTitle::new() }
    }

    /// The title widget the header bar shows, for placing it on the screen.
    pub fn favicontitle(&self) -> (widget: &FaviconTitle)
        ensures
            widget@ == self@,
    {
        &self.favicontitle
    }

    /// Records the display's scale factor on the title widget.
    pub fn set_scale_factor(&mut self, scale_factor: u32)
        requires
            old(self).wf(),
            1 <= scale_factor <= MAX_SCALE_FACTOR,
        ensures
            final(self).wf(),
            final(self)@ == with_scale(old(self)@, scale_factor),
    {
        self.favicontitle.set_scale_factor(scale_factor);
    }

    /// Sets the page title, as
    /// [`FaviconTitle::set_title`](crate::favicontitle::FaviconTitle::set_title)
    /// does.
    pub fn set_title(&mut self, title: Option<&str>)
        requires
            old(self).wf(),
        ensures
            final(self).wf(),
            final(self)@ == with_title(old(self)@, title.deep_view()),
    {
        self.favicontitle.set_title(title);
    }

    /// Sets the page address shown as the subtitle, as
    /// [`FaviconTitle::set_subtitle`](crate::favicontitle::FaviconTitle::set_subtitle)
    /// does.
    pub fn set_subtitle(&mut self, subtitle: Option<&str>)
        requires
            old(self).wf(),
        ensures
            final(self).wf(),
            final(self)@ == with_subtitle(old(self)@, subtitle.deep_view()),
    {
        self.favicontitle.set_subtitle(subtitle);
    }

    /// Pushes a favicon, as
    /// [`FaviconTitle::set_favicon`](crate::favicontitle::FaviconTitle::set_favicon)
    /// does.
    pub fn set_favicon(&mut self, icon: Option<IconSource>)
        requires
            old(self).wf(),
        ensures
            final(self).wf(),
            final(self)@ == with_favicon(old(self)@, icon),
    {
        self.favicontitle.set_favicon(icon);
    }

    /// Focuses the subtitle label and selects its whole text, as
    /// [`FaviconTitle::select_subtitle`](crate::favicontitle::FaviconTitle::select_subtitle)
    /// does.
    pub fn select_subtitle(&mut self)
        requires
            old(self).wf(),
        ensures
            final(self).wf(),
            final(self)@ == with_subtitle_selected(old(self)@),
    {
        self.favicontitle.select_subtitle();
    }
}

} // verus!
