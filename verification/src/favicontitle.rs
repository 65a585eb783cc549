//! The header title widget: a title label with hover tooltip, a selectable
//! subtitle label holding the page address, and a favicon slot.
//!
//! [`FaviconTitle`] holds the widget's observable state.  Each setter
//! replaces exactly one part of the triple; the favicon setter also applies
//! the sizing rule: a raster image is shown at the fixed logical size
//! ([`FAVICON_LOGICAL_SIZE`] units) times the display's scale factor, and is
//! smooth-resampled to that target unless its pixel size already matches.  A
//! scalable image sizes itself and is assigned unchanged.  An image with a
//! zero dimension cannot be resampled and clears the slot instead.

use vstd::prelude::*;

verus! {

/// Fixed logical edge length of the favicon slot, in display-independent
/// units.  Multiplied by the display's scale factor it gives the device-pixel
/// target size.
pub const FAVICON_LOGICAL_SIZE: u32 = 16;

/// Largest accepted display scale factor: the device-pixel target
/// `FAVICON_LOGICAL_SIZE * scale` must fit in `u32`.
pub const MAX_SCALE_FACTOR: u32 = u32::MAX / FAVICON_LOGICAL_SIZE;

/// An icon image as the widget's logic sees it: either a raster image with
/// fixed pixel dimensions, or a scalable (vector, self-sizing) image that the
/// display primitive resizes by itself.
#[derive(Clone, Copy, PartialEq, Eq, Structural, Debug)]
pub enum IconSource {
    Raster { width: u32, height: u32 },
    Scalable,
}

/// What the widget does with a newly pushed favicon.
#[derive(Clone, Copy, PartialEq, Eq, Structural, Debug)]
pub enum FaviconAction {
    /// Clear the icon slot.
    Clear,
    /// Show the source image unchanged.
    AssignDirect,
    /// Smooth-resample the source to the device-pixel target size, then show
    /// the result.
    Resample,
}

/// A raster image can be shown or resampled only if both of its dimensions
/// are nonzero.
pub open spec fn icon_valid(icon: IconSource) -> bool {
    match icon {
        IconSource::Raster { width, height } => width > 0 && height > 0,
        IconSource::Scalable => true,
    }
}

/// Device-pixel target edge length of the favicon at the given scale factor.
pub open spec fn favicon_target(scale: u32) -> int {
    FAVICON_LOGICAL_SIZE * scale
}

/// The action taken for a pushed favicon at the given scale factor: nothing
/// shown for an absent image, a scalable image assigned unchanged, a raster
/// image assigned unchanged exactly when it already has the target size,
/// resampled otherwise - except that a zero-dimension image, which cannot be
/// resampled, clears the slot.
pub open spec fn spec_favicon_action(icon: Option<IconSource>, scale: u32) -> FaviconAction {
    match icon {
        None => FaviconAction::Clear,
        Some(IconSource::Scalable) => FaviconAction::AssignDirect,
        Some(IconSource::Raster { width, height }) => {
            if width == favicon_target(scale) && height == favicon_target(scale) {
                FaviconAction::AssignDirect
            } else if width == 0 || height == 0 {
                FaviconAction::Clear
            } else {
                FaviconAction::Resample
            }
        },
    }
}

/// What the favicon slot shows after a favicon is pushed: the outcome of
/// [`spec_favicon_action`] applied to the source image.
pub open spec fn spec_displayed_favicon(icon: Option<IconSource>, scale: u32) -> Option<
    IconSource,
> {
    match spec_favicon_action(icon, scale) {
        FaviconAction::Clear => None,
        FaviconAction::AssignDirect => icon,
        FaviconAction::Resample => Some(
            IconSource::Raster {
                width: favicon_target(scale) as u32,
                height: favicon_target(scale) as u32,
            },
        ),
    }
}

/// The widget's observable state: what each sub-element displays.
#[verifier::ext_equal]
pub struct HeaderState {
    /// Text of the title label.
    pub title: Seq<char>,
    /// The title label's hover tooltip, absent when no title is set.
    pub tooltip: Option<Seq<char>>,
    /// Text of the subtitle label.
    pub subtitle: Seq<char>,
    /// Whether the subtitle label's whole text is selected.
    pub subtitle_selected: bool,
    /// Whether the subtitle label holds the input focus.
    pub subtitle_focused: bool,
    /// Whether the subtitle label can take focus and a selection at all.
    pub subtitle_selectable: bool,
    /// The image shown in the favicon slot, if any.
    pub favicon: Option<IconSource>,
    /// The display's scale factor.
    pub scale: u32,
}

/// A well-formed state: the scale factor is in range and the favicon slot
/// never shows a degenerate raster image.
pub open spec fn state_wf(v: HeaderState) -> bool {
    &&& 1 <= v.scale <= MAX_SCALE_FACTOR
    &&& match v.favicon {
        Some(icon) => icon_valid(icon),
        None => true,
    }
}

/// The state of a freshly constructed widget: everything empty, a selectable
/// subtitle, and a scale factor of one.
pub open spec fn initial_state() -> HeaderState {
    HeaderState {
        title: Seq::empty(),
        tooltip: None,
        subtitle: Seq::empty(),
        subtitle_selected: false,
        subtitle_focused: false,
        subtitle_selectable: true,
        favicon: None,
        scale: 1,
    }
}

/// State after the title is set: the label shows the given text, or empty
/// when absent; the tooltip equals the given text exactly when one is
/// present.  Nothing else changes.
pub open spec fn with_title(v: HeaderState, title: Option<Seq<char>>) -> HeaderState {
    HeaderState {
        title: match title {
            Some(text) => text,
            None => Seq::empty(),
        },
        tooltip: title,
        ..v
    }
}

/// State after the subtitle is set: the label shows the given text, or empty
/// when absent, and any previous selection of the old text is gone.  No
/// tooltip is involved; nothing else changes.
pub open spec fn with_subtitle(v: HeaderState, subtitle: Option<Seq<char>>) -> HeaderState {
    HeaderState {
        subtitle: match subtitle {
            Some(text) => text,
            None => Seq::empty(),
        },
        subtitle_selected: false,
        ..v
    }
}

/// State after a favicon is pushed: the slot shows
/// [`spec_displayed_favicon`] of the image at the state's scale factor;
/// nothing else changes.
pub open spec fn with_favicon(v: HeaderState, icon: Option<IconSource>) -> HeaderState {
    HeaderState { favicon: spec_displayed_favicon(icon, v.scale), ..v }
}

/// State after the subtitle is selected: where the label can take focus, it
/// is focused with its whole text selected; otherwise nothing happens.
pub open spec fn with_subtitle_selected(v: HeaderState) -> HeaderState {
    if v.subtitle_selectable {
        HeaderState { subtitle_selected: true, subtitle_focused: true, ..v }
    } else {
        v
    }
}

/// State after the display's scale factor changes.  The favicon slot keeps
/// what it shows until the next favicon push.
pub open spec fn with_scale(v: HeaderState, scale: u32) -> HeaderState {
    HeaderState { scale: scale, ..v }
}

/// The header title widget: a two-line title/subtitle pair with a favicon
/// glyph, placed as a window header's central titled area.
#[derive(Clone, PartialEq, Eq, Debug)]
pub struct FaviconTitle {
    title: String,
    tooltip: Option<String>,
    subtitle: String,
    subtitle_selected: bool,
    subtitle_focused: bool,
    subtitle_selectable: bool,
    favicon: Option<IconSource>,
    scale_factor: u32,
}

impl View for FaviconTitle {
    type V = HeaderState;

    closed spec fn view(&self) -> HeaderState {
        HeaderState {
            title: self.title@,
            tooltip: self.tooltip.deep_view(),
            subtitle: self.subtitle@,
            subtitle_selected: self.subtitle_selected,
            subtitle_focused: self.subtitle_focused,
            subtitle_selectable: self.subtitle_selectable,
            favicon: self.favicon,
            scale: self.scale_factor,
        }
    }
}

/// Decides what the widget does with a pushed favicon at the given scale
/// factor, so that a caller driving a real image primitive can perform the
/// same resample, assignment or clearing that the model records.
pub fn favicon_action(icon: Option<IconSource>, scale_factor: u32) -> (action: FaviconAction)
    requires
        1 <= scale_factor <= MAX_SCALE_FACTOR,
    ensures
        action == spec_favicon_action(icon, scale_factor),
{
    match icon {
        None => FaviconAction::Clear,
        Some(IconSource::Scalable) => FaviconAction::AssignDirect,
        Some(IconSource::Raster { width, height }) => {
            let target = FAVICON_LOGICAL_SIZE * scale_factor;
            if width == target && height == target {
                FaviconAction::AssignDirect
            } else if width == 0 || height == 0 {
                FaviconAction::Clear
            } else {
                FaviconAction::Resample
            }
        },
    }
}

impl FaviconTitle {
    /// A well-formed widget, as every operation here gives back.
    pub open spec fn wf(&self) -> bool {
        state_wf(self@)
    }

    /// Constructs the widget with empty labels, no favicon, a selectable
    /// subtitle, and a scale factor of one.
    pub fn new() -> (widget: FaviconTitle)
        ensures
            widget.wf(),
            widget@ == initial_state(),
    {
        let widget = FaviconTitle {
            title: String::new(),
            tooltip: None,
            subtitle: String::new(),
            subtitle_selected: false,
            subtitle_focused: false,
            subtitle_selectable: true,
            favicon: None,
            scale_factor: 1,
        };
        proof {
            assert(widget@ =~= initial_state());
        }
        widget
    }

    /// Records the display's scale factor, as queried from the screen the
    /// widget stands on.
    pub fn set_scale_factor(&mut self, scale_factor: u32)
        requires
            old(self).wf(),
            1 <= scale_factor <= MAX_SCALE_FACTOR,
        ensures
            final(self).wf(),
            final(self)@ == with_scale(old(self)@, scale_factor),
    {
        self.scale_factor = scale_factor;
        proof {
            assert(self@ =~= with_scale(old(self)@, scale_factor));
        }
    }

    /// Sets the page title.  A present title becomes both the label text and
    /// the hover tooltip, so that an ellipsized title stays readable; an
    /// absent one clears both.  Always succeeds.
    pub fn set_title(&mut self, title: Option<&str>)
        requires
            old(self).wf(),
        ensures
            final(self).wf(),
            final(self)@ == with_title(old(self)@, title.deep_view()),
            final(self)@.title == (match title {
                Some(text) => text@,
                None => Seq::<char>::empty(),
            }),
            final(self)@.tooltip == title.deep_view(),
    {
        match title {
            Some(text) => {
                self.title = text.to_owned();
                self.tooltip = Some(text.to_owned());
            },
            None => {
                self.title = String::new();
                self.tooltip = None;
            },
        }
        proof {
            assert(self@ =~= with_title(old(self)@, title.deep_view()));
        }
    }

    /// Sets the page address shown as the subtitle: the given text, or empty
    /// when absent.  No tooltip is set - the label itself is selectable - and
    /// any selection of the previous text is gone.  Always succeeds.
    pub fn set_subtitle(&mut self, subtitle: Option<&str>)
        requires
            old(self).wf(),
        ensures
            final(self).wf(),
            final(self)@ == with_subtitle(old(self)@, subtitle.deep_view()),
            final(self)@.subtitle == (match subtitle {
                Some(text) => text@,
                None => Seq::<char>::empty(),
            }),
    {
        match subtitle {
            Some(text) => {
                self.subtitle = text.to_owned();
            },
            None => {
                self.subtitle = String::new();
            },
        }
        self.subtitle_selected = false;
        proof {
            assert(self@ =~= with_subtitle(old(self)@, subtitle.deep_view()));
        }
    }

    /// Pushes a favicon.  An absent image clears the slot; a scalable image
    /// is shown unchanged; a raster image is shown at the device-pixel target
    /// size, resampled unless its size already matches exactly.  A raster
    /// image with a zero dimension cannot be resampled and clears the slot.
    /// Always succeeds.
    pub fn set_favicon(&mut self, icon: Option<IconSource>)
        requires
            old(self).wf(),
        ensures
            final(self).wf(),
            final(self)@ == with_favicon(old(self)@, icon),
            final(self)@.favicon is Some <==> (icon matches Some(i) && icon_valid(i)),
    {
        let action = favicon_action(icon, self.scale_factor);
        match action {
            FaviconAction::Clear => {
                self.favicon = None;
            },
            FaviconAction::AssignDirect => {
                self.favicon = icon;
            },
            FaviconAction::Resample => {
                let target = FAVICON_LOGICAL_SIZE * self.scale_factor;
                self.favicon = Some(IconSource::Raster { width: target, height: target });
            },
        }
        proof {
            assert(self@ =~= with_favicon(old(self)@, icon));
        }
    }

    /// Moves the input focus to the subtitle label and selects its whole
    /// text, so that the address can be copied at once.  Does nothing where
    /// the label cannot take focus.
    pub fn select_subtitle(&mut self)
        requires
            old(self).wf(),
        ensures
            final(self).wf(),
            final(self)@ == with_subtitle_selected(old(self)@),
            old(self)@.subtitle_selectable ==> final(self)@.subtitle_focused
                && final(self)@.subtitle_selected,
    {
        if self.subtitle_selectable {
            self.subtitle_focused = true;
            self.subtitle_selected = true;
        }
        proof {
            assert(self@ =~= with_subtitle_selected(old(self)@));
        }
    }

    /// The text shown by the title label.
    pub fn title(&self) -> (text: &String)
        ensures
            text@ == self@.title,
    {
        &self.title
    }

    /// The title label's hover tooltip, if one is set.
    pub fn tooltip(&self) -> (tooltip: &Option<String>)
        ensures
            tooltip.deep_view() == self@.tooltip,
    {
        &self.tooltip
    }

    /// The text shown by the subtitle label.
    pub fn subtitle(&self) -> (text: &String)
        ensures
            text@ == self@.subtitle,
    {
        &self.subtitle
    }

    /// Whether the subtitle label's whole text is selected.
    pub fn subtitle_selected(&self) -> (selected: bool)
        ensures
            selected == self@.subtitle_selected,
    {
        self.subtitle_selected
    }

    /// Whether the subtitle label holds the input focus.
    pub fn subtitle_focused(&self) -> (focused: bool)
        ensures
            focused == self@.subtitle_focused,
    {
        self.subtitle_focused
    }

    /// The image shown in the favicon slot, if any.
    pub fn favicon(&self) -> (icon: Option<IconSource>)
        ensures
            icon == self@.favicon,
    {
        self.favicon
    }

    /// The display scale factor the widget last recorded.
    pub fn scale_factor(&self) -> (scale: u32)
        ensures
            scale == self@.scale,
    {
        self.scale_factor
    }
}

/// Law: after a favicon push with a well-formed image, the slot is filled
/// exactly when an image was given; a raster image is shown with both edges
/// equal to the device-pixel target, the fixed logical size times the scale
/// factor; a scalable image is shown unchanged.
pub proof fn lemma_favicon_slot(v: HeaderState, icon: Option<IconSource>)
    requires
        state_wf(v),
        match icon {
            Some(i) => icon_valid(i),
            None => true,
        },
    ensures
        with_favicon(v, icon).favicon is Some <==> icon is Some,
        match icon {
            Some(IconSource::Raster { .. }) => with_favicon(v, icon).favicon == Some(
                IconSource::Raster {
                    width: favicon_target(v.scale) as u32,
                    height: favicon_target(v.scale) as u32,
                },
            ),
            Some(IconSource::Scalable) => with_favicon(v, icon).favicon == Some(
                IconSource::Scalable,
            ),
            None => with_favicon(v, icon).favicon is None,
        },
{
}

/// Law: setting the title twice in a row with the same value leaves the same
/// state as setting it once.
pub proof fn lemma_set_title_idempotent(v: HeaderState, title: Option<Seq<char>>)
    ensures
        with_title(with_title(v, title), title) == with_title(v, title),
{
    assert(with_title(with_title(v, title), title) =~= with_title(v, title));
}

/// Law: setting the subtitle twice in a row with the same value leaves the
/// same state as setting it once.
pub proof fn lemma_set_subtitle_idempotent(v: HeaderState, subtitle: Option<Seq<char>>)
    ensures
        with_subtitle(with_subtitle(v, subtitle), subtitle) == with_subtitle(v, subtitle),
{
    assert(with_subtitle(with_subtitle(v, subtitle), subtitle) =~= with_subtitle(v, subtitle));
}

/// Law: pushing the same favicon twice in a row leaves the same state as
/// pushing it once.
pub proof fn lemma_set_favicon_idempotent(v: HeaderState, icon: Option<IconSource>)
    ensures
        with_favicon(with_favicon(v, icon), icon) == with_favicon(v, icon),
{
    assert(with_favicon(with_favicon(v, icon), icon) =~= with_favicon(v, icon));
}

/// Law: selecting the subtitle twice in a row leaves the same state as
/// selecting it once.
pub proof fn lemma_select_subtitle_idempotent(v: HeaderState)
    ensures
        with_subtitle_selected(with_subtitle_selected(v)) == with_subtitle_selected(v),
{
    assert(with_subtitle_selected(with_subtitle_selected(v)) =~= with_subtitle_selected(v));
}

/// Law: the three setters touch disjoint parts of the state, so setting
/// title, then favicon, then subtitle displays the same triple as the same
/// calls in the reverse order.
pub proof fn lemma_setter_order_independent(
    v: HeaderState,
    title: Option<Seq<char>>,
    icon: Option<IconSource>,
    subtitle: Option<Seq<char>>,
)
    ensures
        with_subtitle(with_favicon(with_title(v, title), icon), subtitle) == with_title(
            with_favicon(with_subtitle(v, subtitle), icon),
            title,
        ),
{
    assert(with_subtitle(with_favicon(with_title(v, title), icon), subtitle) =~= with_title(
        with_favicon(with_subtitle(v, subtitle), icon),
        title,
    ));
}

} // verus!
