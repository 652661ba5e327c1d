use vstd::prelude::*;
use vstd::string::*;

use crate::clipboard::NullClipboard;
use crate::shell::Message;

verus! {

/// The hint that the URL bar of the browser window shows while it is empty.
pub const URL_BAR_PLACEHOLDER: &'static str = "Enter URL…";

/// The hint that the URL field of the overlay shows while it is empty.
pub const OVERLAY_PLACEHOLDER: &'static str = "Enter URL...";

/// Padding in pixels around the text of the overlay's URL field.
pub const OVERLAY_INPUT_PADDING: u16 = 10;

/// Padding in pixels of the container that holds the overlay's URL field.
pub const OVERLAY_INPUT_MARGIN: u16 = 5;

/// What a text input sends when an edit leaves `text` in it.
#[derive(Clone, Copy, Debug, PartialEq, Eq, Structural)]
pub enum EditReport {
    /// `Message::UrlBarChanged(text)`.
    UrlBarChanged,
    /// `text` itself.
    Text,
}

/// The message of the browser's URL bar for an edit that leaves `text` in a
/// field whose edits are reported as `report`; `None` where they are not
/// reported as URL-bar messages.
pub fn edit_message(report: EditReport, text: String) -> (message: Option<Message>)
    ensures
        match report {
            EditReport::UrlBarChanged => message matches Some(Message::UrlBarChanged(sent))
                && sent == text,
            EditReport::Text => message is None,
        },
{
    match report {
        EditReport::UrlBarChanged => Some(Message::UrlBarChanged(text)),
        EditReport::Text => None,
    }
}

/// The text that a field whose edits are reported as `report` sends for an
/// edit that leaves `text` in it; `None` where they are not reported as text.
pub fn edit_text(report: EditReport, text: String) -> (sent: Option<String>)
    ensures
        match report {
            EditReport::Text => sent == Some(text),
            EditReport::UrlBarChanged => sent is None,
        },
{
    match report {
        EditReport::Text => Some(text),
        EditReport::UrlBarChanged => None,
    }
}

/// How to build a text input: its hint, its text, what an edit sends, the
/// message that pressing Enter sends, its padding if any, and whether it
/// takes the whole width.
pub struct TextInputSpec<M> {
    pub placeholder: String,
    pub value: String,
    pub on_input: EditReport,
    pub on_submit: M,
    pub padding: Option<u16>,
    pub fill_width: bool,
}

/// The URL bar of the browser window: it shows `url_value`, spans the window,
/// reports an edit as `Message::UrlBarChanged` with the new text, and Enter
/// as `Message::UrlBarSubmitted`.
pub fn url_bar(url_value: &str) -> (bar: TextInputSpec<Message>)
    ensures
        bar.placeholder@ == URL_BAR_PLACEHOLDER@,
        bar.value@ == url_value@,
        bar.on_input == EditReport::UrlBarChanged,
        bar.on_submit matches Message::UrlBarSubmitted,
        bar.padding is None,
        bar.fill_width,
{
    TextInputSpec {
        placeholder: String::from_str(URL_BAR_PLACEHOLDER),
        value: String::from_str(url_value),
        on_input: EditReport::UrlBarChanged,
        on_submit: Message::UrlBarSubmitted,
        padding: None,
        fill_width: true,
    }
}

/// What fills the window below the URL field.
pub enum Backdrop<'a, P> {
    /// The last frame of web content.
    Frame(&'a P),
    /// Nothing yet: an empty area.
    Blank,
}

/// One row of the overlay.
pub enum OverlayRow<'a, P> {
    /// The URL field, in a container padded by `margin` pixels.
    UrlField { input: TextInputSpec<String>, margin: u16 },
    /// A column holding only the backdrop; where `fill_width` (`fill_height`)
    /// is set, the column and the backdrop in it take the whole width
    /// (height) that is left.
    Content { backdrop: Backdrop<'a, P>, fill_width: bool, fill_height: bool },
}

/// The overlay: a column of rows, listed top to bottom.
pub struct OverlayLayout<'a, P> {
    pub rows: Vec<OverlayRow<'a, P>>,
}

/// The state of the overlay: the text of its URL field, the widget cache,
/// its clipboard and the last frame of web content, if there is one.
pub struct UiState<C, P> {
    pub url_value: String,
    pub cache: C,
    pub clipboard: NullClipboard,
    pub servo_pixels: Option<P>,
}

impl<C, P> UiState<C, P> {
    /// The overlay before anything is typed or rendered: an empty URL field
    /// and no frame.
    pub fn new(cache: C) -> (state: Self)
        ensures
            state.url_value@ == Seq::<char>::empty(),
            state.cache == cache,
            state.servo_pixels is None,
    {
        UiState { url_value: String::new(), cache, clipboard: NullClipboard, servo_pixels: None }
    }

    /// Lays out the overlay as two rows. On top, the URL field: it shows the
    /// current text, sends the new text itself on each edit, and sends the
    /// text it was built with when Enter is pressed. Below it, a column that
    /// fills the rest of the window both ways and holds the last frame when
    /// there is one, an empty area otherwise.
    pub fn build_ui(&self) -> (layout: OverlayLayout<'_, P>)
        ensures
            layout.rows@.len() == 2,
            layout.rows@[0] matches OverlayRow::UrlField { input, margin } && {
                &&& input.placeholder@ == OVERLAY_PLACEHOLDER@
                &&& input.value@ == self.url_value@
                &&& input.on_input == EditReport::Text
                &&& input.on_submit@ == self.url_value@
                &&& input.padding == Some(OVERLAY_INPUT_PADDING)
                &&& !input.fill_width
                &&& margin == OVERLAY_INPUT_MARGIN
            },
            layout.rows@[1] matches OverlayRow::Content { backdrop, fill_width, fill_height } && {
                &&& fill_width
                &&& fill_height
                &&& match self.servo_pixels {
                    Some(frame) => backdrop matches Backdrop::Frame(shown) && *shown == frame,
                    None => backdrop is Blank,
                }
            },
    {
        let input = TextInputSpec {
            placeholder: String::from_str(OVERLAY_PLACEHOLDER),
            value: self.url_value.clone(),
            on_input: EditReport::Text,
            on_submit: self.url_value.clone(),
            padding: Some(OVERLAY_INPUT_PADDING),
            fill_width: false,
        };
        let backdrop = match &self.servo_pixels {
            Some(frame) => Backdrop::Frame(frame),
            None => Backdrop::Blank,
        };
        let mut rows: Vec<OverlayRow<'_, P>> = Vec::new();
        rows.push(OverlayRow::UrlField { input, margin: OVERLAY_INPUT_MARGIN });
        rows.push(OverlayRow::Content { backdrop, fill_width: true, fill_height: true });
        OverlayLayout { rows }
    }
}

} // verus!
