use vstd::prelude::*;
use vstd::string::*;

use crate::weburl::{parse_absolute_url, parsed_url, url_serialization};

verus! {

/// The page that a new session opens and that the URL bar starts with.
pub const HOME_URL: &'static str = "https://servo.org";

/// What the window title shows before the URL it is about.
pub const TITLE_PREFIX: &'static str = "kestrel-rs — ";

/// What the log line of a navigation shows before the URL.
pub const NAVIGATING_PREFIX: &'static str = "kestrel-rs: navigating to ";

/// What the log line of a rejected URL shows before the text of the URL bar.
pub const INVALID_URL_PREFIX: &'static str = "kestrel-rs: invalid URL: ";

/// The window title for a page address.
pub open spec fn window_title_text(url: Seq<char>) -> Seq<char> {
    TITLE_PREFIX@ + url
}

/// The log line of a navigation to the URL with serialization `href`.
pub open spec fn navigating_text(href: Seq<char>) -> Seq<char> {
    NAVIGATING_PREFIX@ + href
}

/// The log line of a URL bar whose text is no absolute URL.
pub open spec fn invalid_url_text(input: Seq<char>) -> Seq<char> {
    INVALID_URL_PREFIX@ + input
}

/// A parsed absolute URL, with its serialization. Its view is the
/// serialization, which is the one the URL stores.
pub struct Navigation {
    url: url::Url,
    href: String,
}

impl View for Navigation {
    type V = Seq<char>;

    closed spec fn view(&self) -> Seq<char> {
        self.href@
    }
}

impl Navigation {
    #[verifier::type_invariant]
    spec fn href_is_serialization(self) -> bool {
        url_serialization(self.url) == self.href@
    }

    /// The serialization of the URL.
    pub fn href(&self) -> (href: &str)
        ensures
            href@ == self@,
    {
        self.href.as_str()
    }

    /// The URL, whose serialization is the view.
    pub fn url(&self) -> (url: &url::Url)
        ensures
            url_serialization(*url) == self@,
    {
        proof {
            use_type_invariant(self);
        }
        &self.url
    }

    /// The URL, to load it.
    pub fn into_url(self) -> (url: url::Url)
        ensures
            url_serialization(url) == self@,
    {
        proof {
            use_type_invariant(&self);
        }
        self.url
    }
}

/// Why the shell could not act on a request.
#[derive(Debug)]
pub enum ShellError {
    /// The text is not an absolute URL.
    InvalidUrl(String),
}

/// Parses `input` as an absolute URL.
pub fn resolve_url(input: &str) -> (resolved: Result<Navigation, ShellError>)
    ensures
        match resolved {
            Ok(navigation) => parsed_url(input@) == Some(navigation@),
            Err(ShellError::InvalidUrl(rejected)) => parsed_url(input@) is None && rejected@
                == input@,
        },
        !input@.contains(':') ==> resolved is Err,
{
    match parse_absolute_url(input) {
        Ok((url, href)) => Ok(Navigation { url, href }),
        Err(_) => Err(ShellError::InvalidUrl(String::from_str(input))),
    }
}

/// The page a new session loads: `HOME_URL`, parsed.
pub fn home_page() -> (resolved: Result<Navigation, ShellError>)
    ensures
        match resolved {
            Ok(navigation) => parsed_url(HOME_URL@) == Some(navigation@),
            Err(ShellError::InvalidUrl(rejected)) => parsed_url(HOME_URL@) is None && rejected@
                == HOME_URL@,
        },
{
    resolve_url(HOME_URL)
}

/// The window title that shows `url`.
pub fn window_title(url: &str) -> (title: String)
    ensures
        title@ == window_title_text(url@),
        title@.len() == TITLE_PREFIX@.len() + url@.len(),
        title@.subrange(0, TITLE_PREFIX@.len() as int) == TITLE_PREFIX@,
        title@.subrange(TITLE_PREFIX@.len() as int, title@.len() as int) == url@,
{
    let mut title = String::from_str(TITLE_PREFIX);
    title.append(url);
    title
}

/// What the URL bar reports to the shell.
#[derive(Clone, Debug)]
pub enum Message {
    /// The text of the URL bar changed to the one given.
    UrlBarChanged(String),
    /// Enter was pressed in the URL bar.
    UrlBarSubmitted,
}

/// The kinds of window event that the shell tells apart.
#[derive(Clone, Copy, Debug, PartialEq, Eq, Structural)]
pub enum WindowEventKind {
    RedrawRequested,
    CursorMoved,
    ModifiersChanged,
    Resized,
    CloseRequested,
    MouseWheel,
    Other,
}

/// What the embedder does for one window event.
#[derive(Clone, Copy, Debug, PartialEq, Eq, Structural)]
pub struct WindowEffects {
    /// Fit the viewport, the drawing surface and the web view to the window again.
    pub reconfigure: bool,
    /// Paint the web view and present it.
    pub paint: bool,
    /// Then draw the overlay (the URL bar) on top of the presented page and
    /// present it.
    pub draw_overlay: bool,
    /// Pass the scroll of a mouse wheel on to the web view.
    pub forward_wheel: bool,
    /// Leave the event loop.
    pub exit: bool,
}

/// Whether the URL bar has to run after a window event: it does when Iced
/// has events for it, and then its messages are handled and a redraw is
/// requested; with no pending event nothing happens.
pub fn should_update_ui(pending_events: usize) -> (update: bool)
    ensures
        update == (pending_events > 0),
{
    pending_events > 0
}

/// What the embedder does for one message of the URL bar.
pub enum MessageEffect {
    /// Show this title on the window.
    Retitle(String),
    /// Log `notice` and load the page.
    Navigate { navigation: Navigation, notice: String },
    /// Log `notice`; nothing is loaded.
    Reject { notice: String },
}

/// One window event as a step of the shell: from whether a resize is
/// pending, to whether one is pending afterwards and what the embedder does.
pub open spec fn window_step(resized: bool, event: WindowEventKind) -> (bool, WindowEffects) {
    let redraw = event == WindowEventKind::RedrawRequested;
    let pending = if redraw {
        false
    } else if event == WindowEventKind::Resized {
        true
    } else {
        resized
    };
    (
        pending,
        WindowEffects {
            reconfigure: redraw && resized,
            paint: redraw,
            draw_overlay: redraw,
            forward_wheel: event == WindowEventKind::MouseWheel,
            exit: event == WindowEventKind::CloseRequested,
        },
    )
}

/// After a resize, the next redraw fits the window, and the one after that
/// does not fit it again.
pub proof fn lemma_resize_fitted_once(resized: bool)
    ensures
        ({
            let (after_resize, _) = window_step(resized, WindowEventKind::Resized);
            let (after_redraw, first) = window_step(after_resize, WindowEventKind::RedrawRequested);
            let (_, second) = window_step(after_redraw, WindowEventKind::RedrawRequested);
            first.reconfigure && first.paint && first.draw_overlay && !second.reconfigure
                && second.paint && second.draw_overlay
        }),
{
}

/// A pending resize is kept through every event but a redraw, and a redraw
/// is the only event that paints or draws the overlay.
pub proof fn lemma_pending_resize_kept_until_redraw(event: WindowEventKind)
    requires
        event != WindowEventKind::RedrawRequested,
    ensures
        window_step(true, event).0,
        !window_step(true, event).1.reconfigure,
        !window_step(true, event).1.paint,
        !window_step(true, event).1.draw_overlay,
{
}

/// A wheel scroll goes to the page and does nothing else: no paint, no
/// refit, and a pending resize stays pending.
pub proof fn lemma_wheel_reaches_page(resized: bool)
    ensures
        window_step(resized, WindowEventKind::MouseWheel) == (
            resized,
            WindowEffects {
                reconfigure: false,
                paint: false,
                draw_overlay: false,
                forward_wheel: true,
                exit: false,
            },
        ),
{
}

/// Only a close request ends the event loop, whatever else is pending.
pub proof fn lemma_only_close_exits(resized: bool, event: WindowEventKind)
    ensures
        window_step(resized, event).1.exit == (event == WindowEventKind::CloseRequested),
{
}

/// Only a redraw paints and draws the overlay; only a redraw with a resize
/// pending refits; only a wheel scroll is passed on to the page.
pub proof fn lemma_effects_belong_to_their_events(resized: bool, event: WindowEventKind)
    ensures
        window_step(resized, event).1.paint == (event == WindowEventKind::RedrawRequested),
        window_step(resized, event).1.draw_overlay == (event
            == WindowEventKind::RedrawRequested),
        window_step(resized, event).1.reconfigure == (event == WindowEventKind::RedrawRequested
            && resized),
        window_step(resized, event).1.forward_wheel == (event == WindowEventKind::MouseWheel),
{
}

/// A cursor move, a change of modifiers or any other event does nothing,
/// whether a resize is pending or not.
pub proof fn lemma_inert_events_do_nothing(resized: bool, event: WindowEventKind)
    requires
        event == WindowEventKind::CursorMoved || event == WindowEventKind::ModifiersChanged
            || event == WindowEventKind::Other,
    ensures
        window_step(resized, event) == (
            resized,
            WindowEffects {
                reconfigure: false,
                paint: false,
                draw_overlay: false,
                forward_wheel: false,
                exit: false,
            },
        ),
{
}

/// A resize only marks a refit as pending, also when one already is.
pub proof fn lemma_resize_only_marks_pending(resized: bool)
    ensures
        window_step(resized, WindowEventKind::Resized) == (
            true,
            WindowEffects {
                reconfigure: false,
                paint: false,
                draw_overlay: false,
                forward_wheel: false,
                exit: false,
            },
        ),
{
}

/// The window title is the prefix followed by the whole URL text, and the
/// log lines are their prefixes followed by the whole URL or text.
pub proof fn lemma_texts_end_with_the_whole_url(url: Seq<char>)
    ensures
        window_title_text(url).len() == TITLE_PREFIX@.len() + url.len(),
        window_title_text(url).subrange(0, TITLE_PREFIX@.len() as int) == TITLE_PREFIX@,
        window_title_text(url).subrange(
            TITLE_PREFIX@.len() as int,
            window_title_text(url).len() as int,
        ) == url,
        navigating_text(url).len() == NAVIGATING_PREFIX@.len() + url.len(),
        navigating_text(url).subrange(
            NAVIGATING_PREFIX@.len() as int,
            navigating_text(url).len() as int,
        ) == url,
        invalid_url_text(url).len() == INVALID_URL_PREFIX@.len() + url.len(),
        invalid_url_text(url).subrange(
            INVALID_URL_PREFIX@.len() as int,
            invalid_url_text(url).len() as int,
        ) == url,
{
    assert(window_title_text(url).subrange(0, TITLE_PREFIX@.len() as int) =~= TITLE_PREFIX@);
    assert(window_title_text(url).subrange(
        TITLE_PREFIX@.len() as int,
        window_title_text(url).len() as int,
    ) =~= url);
    assert(navigating_text(url).subrange(
        NAVIGATING_PREFIX@.len() as int,
        navigating_text(url).len() as int,
    ) =~= url);
    assert(invalid_url_text(url).subrange(
        INVALID_URL_PREFIX@.len() as int,
        invalid_url_text(url).len() as int,
    ) =~= url);
}

/// The state of a running browser window: the text of the URL bar and
/// whether the window changed size since it was last fitted.
pub struct BrowserState {
    pub url_value: String,
    pub resized: bool,
}

impl BrowserState {
    /// The state of a window that was just opened on the home page.
    pub fn new() -> (state: Self)
        ensures
            state.url_value@ == HOME_URL@,
            !state.resized,
    {
        BrowserState { url_value: String::from_str(HOME_URL), resized: false }
    }

    /// Handles one window event.
    ///
    /// A redraw paints the page and then draws the overlay over it, and first
    /// fits everything to the window if it was resized since the last redraw;
    /// a resize is remembered until then; a wheel scroll goes to the page; a
    /// close request ends the loop. Other events change nothing here.
    pub fn on_window_event(&mut self, event: WindowEventKind) -> (effects: WindowEffects)
        ensures
            (final(self).resized, effects) == window_step(old(self).resized, event),
            final(self).url_value == old(self).url_value,
            effects.exit == (event == WindowEventKind::CloseRequested),
            effects.paint == (event == WindowEventKind::RedrawRequested),
            effects.draw_overlay == (event == WindowEventKind::RedrawRequested),
            effects.forward_wheel == (event == WindowEventKind::MouseWheel),
            effects.reconfigure == (event == WindowEventKind::RedrawRequested && old(
                self,
            ).resized),
            event == WindowEventKind::Resized ==> final(self).resized,
            event == WindowEventKind::RedrawRequested ==> !final(self).resized,
            event != WindowEventKind::Resized && event != WindowEventKind::RedrawRequested
                ==> final(self).resized == old(self).resized,
    {
        let mut effects = WindowEffects {
            reconfigure: false,
            paint: false,
            draw_overlay: false,
            forward_wheel: false,
            exit: false,
        };
        match event {
            WindowEventKind::RedrawRequested => {
                if self.resized {
                    effects.reconfigure = true;
                    self.resized = false;
                }
                effects.paint = true;
                effects.draw_overlay = true;
            },
            WindowEventKind::MouseWheel => {
                effects.forward_wheel = true;
            },
            WindowEventKind::Resized => {
                self.resized = true;
            },
            WindowEventKind::CloseRequested => {
                effects.exit = true;
            },
            _ => {},
        }
        effects
    }

    /// Handles one message of the URL bar.
    ///
    /// A change of text is kept and shown in the window title. A submission
    /// parses the text: an absolute URL is loaded, anything else is reported.
    pub fn on_message(&mut self, message: Message) -> (effect: MessageEffect)
        ensures
            match message {
                Message::UrlBarChanged(text) => {
                    &&& final(self).url_value@ == text@
                    &&& final(self).resized == old(self).resized
                    &&& effect matches MessageEffect::Retitle(title) && title@
                        == window_title_text(text@)
                },
                Message::UrlBarSubmitted => {
                    &&& *final(self) == *old(self)
                    &&& match parsed_url(old(self).url_value@) {
                        Some(href) => effect matches MessageEffect::Navigate {
                            navigation,
                            notice,
                        } && navigation@ == href && notice@ == navigating_text(href),
                        None => effect matches MessageEffect::Reject { notice } && notice@
                            == invalid_url_text(old(self).url_value@),
                    }
                    &&& !old(self).url_value@.contains(':') ==> effect is Reject
                },
            },
    {
        match message {
            Message::UrlBarChanged(text) => {
                let title = window_title(text.as_str());
                self.url_value = text;
                MessageEffect::Retitle(title)
            },
            Message::UrlBarSubmitted => {
                let resolved = resolve_url(self.url_value.as_str());
                self.submission_effect(resolved)
            },
        }
    }

    /// What a submission of the URL bar does, given what its text parsed to.
    pub fn submission_effect(&self, resolved: Result<Navigation, ShellError>) -> (effect:
        MessageEffect)
        ensures
            match resolved {
                Ok(given) => effect matches MessageEffect::Navigate { navigation, notice }
                    && navigation == given && notice@ == navigating_text(given@),
                Err(_) => effect matches MessageEffect::Reject { notice } && notice@
                    == invalid_url_text(self.url_value@),
            },
    {
        match resolved {
            Ok(navigation) => {
                let mut notice = String::from_str(NAVIGATING_PREFIX);
                notice.append(navigation.href.as_str());
                MessageEffect::Navigate { navigation, notice }
            },
            Err(_) => {
                let mut notice = String::from_str(INVALID_URL_PREFIX);
                notice.append(self.url_value.as_str());
                MessageEffect::Reject { notice }
            },
        }
    }
}

} // verus!
