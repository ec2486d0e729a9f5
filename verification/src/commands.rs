//! The command surface: what each user or engine action is checked for, and
//! which notification it sends out when it passes.
//!
//! A command checks its arguments in a fixed order and reports the first
//! one it refuses. One that passes hands back the notification for the
//! presentation layer; delivering it is the caller's business, and a
//! failure to deliver is no failure of the command.

use crate::error::{AppError, ArgumentFault};
use crate::geometry::{is_placeable, non_positive};
use vstd::prelude::*;

verus! {

/// The channel a notification goes out on.
#[derive(Clone, Copy, Debug, PartialEq, Eq, Structural)]
pub enum Topic {
    BrowserCreated,
    NavigationStarted,
    BrowserClosed,
    NavigationBack,
    NavigationForward,
    PageReload,
    PageStop,
    UrlChanged,
    TitleChanged,
    LoadingStateChanged,
    TabSwitched,
    BoundsUpdated,
}

impl Topic {
    /// The channel's name on the wire.
    pub open spec fn wire_name(self) -> Seq<char> {
        match self {
            Topic::BrowserCreated => "cef:browser-created"@,
            Topic::NavigationStarted => "cef:navigation-started"@,
            Topic::BrowserClosed => "cef:browser-closed"@,
            Topic::NavigationBack => "cef:navigation-back"@,
            Topic::NavigationForward => "cef:navigation-forward"@,
            Topic::PageReload => "cef:page-reload"@,
            Topic::PageStop => "cef:page-stop"@,
            Topic::UrlChanged => "cef:url-changed"@,
            Topic::TitleChanged => "cef:title-changed"@,
            Topic::LoadingStateChanged => "cef:loading-state-changed"@,
            Topic::TabSwitched => "cef:tab-switched"@,
            Topic::BoundsUpdated => "cef:bounds-updated"@,
        }
    }

    /// The channel's name on the wire.
    pub fn name(&self) -> (name: &'static str)
        ensures
            name@ == self.wire_name(),
    {
        match self {
            Topic::BrowserCreated => "cef:browser-created",
            Topic::NavigationStarted => "cef:navigation-started",
            Topic::BrowserClosed => "cef:browser-closed",
            Topic::NavigationBack => "cef:navigation-back",
            Topic::NavigationForward => "cef:navigation-forward",
            Topic::PageReload => "cef:page-reload",
            Topic::PageStop => "cef:page-stop",
            Topic::UrlChanged => "cef:url-changed",
            Topic::TitleChanged => "cef:title-changed",
            Topic::LoadingStateChanged => "cef:loading-state-changed",
            Topic::TabSwitched => "cef:tab-switched",
            Topic::BoundsUpdated => "cef:bounds-updated",
        }
    }
}

/// A payload together with the channel it goes out on.
#[derive(Debug)]
pub struct Notification<P> {
    pub topic: Topic,
    pub payload: P,
}

#[derive(Debug)]
pub struct CreateCefBrowserPayload {
    pub tab_id: String,
    pub url: String,
}

#[derive(Debug)]
pub struct NavigateCefPayload {
    pub tab_id: String,
    pub url: String,
}

#[derive(Debug)]
pub struct CloseCefBrowserPayload {
    pub tab_id: String,
}

/// Payload of a step back or forward through history.
#[derive(Debug)]
pub struct NavigationEventPayload {
    pub tab_id: String,
    pub timestamp: u64,
}

#[derive(Debug)]
pub struct PageReloadEventPayload {
    pub tab_id: String,
    pub timestamp: u64,
}

#[derive(Debug)]
pub struct PageStopEventPayload {
    pub tab_id: String,
    pub timestamp: u64,
}

#[derive(Debug)]
pub struct UrlChangeEventPayload {
    pub tab_id: String,
    pub url: String,
    pub timestamp: u64,
}

#[derive(Debug)]
pub struct TitleChangeEventPayload {
    pub tab_id: String,
    pub title: String,
    pub timestamp: u64,
}

#[derive(Debug)]
pub struct LoadingStateChangeEventPayload {
    pub tab_id: String,
    pub is_loading: bool,
    pub timestamp: u64,
}

#[derive(Debug)]
pub struct TabSwitchEventPayload {
    pub tab_id: String,
    pub timestamp: u64,
}

/// Payload of a move or resize. Position and size are bit patterns of
/// doubles.
#[derive(Debug)]
pub struct BoundsUpdateEventPayload {
    pub tab_id: String,
    pub x: u64,
    pub y: u64,
    pub width: u64,
    pub height: u64,
    pub timestamp: u64,
}

/// What a page holds, as far as the host can tell.
#[derive(Debug)]
pub struct PageContent {
    pub url: String,
    pub title: String,
    pub content: String,
    pub description: String,
    pub favicon: Option<String>,
}

/// The refusal for an argument fault.
pub open spec fn refused(fault: ArgumentFault) -> AppError {
    AppError::InvalidArgument(fault)
}

/// Opens a browser for `tab_id` on `url` at the given place. Refuses an
/// empty URL, then an empty identifier, then a width or height that is
/// zero or below.
pub fn create_cef_browser(tab_id: String, url: String, x: u64, y: u64, width: u64, height: u64) -> (done:
    Result<Notification<CreateCefBrowserPayload>, AppError>)
    ensures
        done == if url@.len() == 0 {
            Err::<Notification<CreateCefBrowserPayload>, AppError>(refused(ArgumentFault::EmptyUrl))
        } else if tab_id@.len() == 0 {
            Err(refused(ArgumentFault::EmptyTabId))
        } else if non_positive(width) || non_positive(height) {
            Err(refused(ArgumentFault::NonPositiveSize))
        } else {
            Ok(
                (Notification {
                    topic: Topic::BrowserCreated,
                    payload: (CreateCefBrowserPayload { tab_id, url }),
                }),
            )
        },
{
    if url.as_str().is_empty() {
        return Err(AppError::InvalidArgument(ArgumentFault::EmptyUrl));
    }
    if tab_id.as_str().is_empty() {
        return Err(AppError::InvalidArgument(ArgumentFault::EmptyTabId));
    }
    if !is_placeable(width, height) {
        return Err(AppError::InvalidArgument(ArgumentFault::NonPositiveSize));
    }
    Ok(Notification { topic: Topic::BrowserCreated, payload: CreateCefBrowserPayload { tab_id, url } })
}

/// Starts loading `url` in `tab_id`. Refuses an empty identifier, then an
/// empty URL.
pub fn navigate_cef(tab_id: String, url: String) -> (done: Result<
    Notification<NavigateCefPayload>,
    AppError,
>)
    ensures
        done == if tab_id@.len() == 0 {
            Err::<Notification<NavigateCefPayload>, AppError>(refused(ArgumentFault::EmptyTabId))
        } else if url@.len() == 0 {
            Err(refused(ArgumentFault::EmptyUrl))
        } else {
            Ok(
                (Notification {
                    topic: Topic::NavigationStarted,
                    payload: (NavigateCefPayload { tab_id, url }),
                }),
            )
        },
{
    if tab_id.as_str().is_empty() {
        return Err(AppError::InvalidArgument(ArgumentFault::EmptyTabId));
    }
    if url.as_str().is_empty() {
        return Err(AppError::InvalidArgument(ArgumentFault::EmptyUrl));
    }
    Ok(Notification { topic: Topic::NavigationStarted, payload: NavigateCefPayload { tab_id, url } })
}

/// Closes the browser of `tab_id`. Refuses an empty identifier.
pub fn close_cef_browser(tab_id: String) -> (done: Result<
    Notification<CloseCefBrowserPayload>,
    AppError,
>)
    ensures
        done == if tab_id@.len() == 0 {
            Err::<Notification<CloseCefBrowserPayload>, AppError>(
                refused(ArgumentFault::EmptyTabId),
            )
        } else {
            Ok(
                (Notification {
                    topic: Topic::BrowserClosed,
                    payload: (CloseCefBrowserPayload { tab_id }),
                }),
            )
        },
{
    if tab_id.as_str().is_empty() {
        return Err(AppError::InvalidArgument(ArgumentFault::EmptyTabId));
    }
    Ok(Notification { topic: Topic::BrowserClosed, payload: CloseCefBrowserPayload { tab_id } })
}

/// Asks `tab_id` to go one entry back, at time `timestamp`. Refuses an
/// empty identifier.
pub fn cef_go_back(tab_id: String, timestamp: u64) -> (done: Result<
    Notification<NavigationEventPayload>,
    AppError,
>)
    ensures
        done == if tab_id@.len() == 0 {
            Err::<Notification<NavigationEventPayload>, AppError>(refused(ArgumentFault::EmptyTabId))
        } else {
            Ok(
                (Notification {
                    topic: Topic::NavigationBack,
                    payload: (NavigationEventPayload { tab_id, timestamp }),
                }),
            )
        },
{
    if tab_id.as_str().is_empty() {
        return Err(AppError::InvalidArgument(ArgumentFault::EmptyTabId));
    }
    Ok(Notification { topic: Topic::NavigationBack, payload: NavigationEventPayload { tab_id, timestamp } })
}

/// Asks `tab_id` to go one entry forward, at time `timestamp`. Refuses an
/// empty identifier.
pub fn cef_go_forward(tab_id: String, timestamp: u64) -> (done: Result<
    Notification<NavigationEventPayload>,
    AppError,
>)
    ensures
        done == if tab_id@.len() == 0 {
            Err::<Notification<NavigationEventPayload>, AppError>(refused(ArgumentFault::EmptyTabId))
        } else {
            Ok(
                (Notification {
                    topic: Topic::NavigationForward,
                    payload: (NavigationEventPayload { tab_id, timestamp }),
                }),
            )
        },
{
    if tab_id.as_str().is_empty() {
        return Err(AppError::InvalidArgument(ArgumentFault::EmptyTabId));
    }
    Ok(Notification { topic: Topic::NavigationForward, payload: NavigationEventPayload { tab_id, timestamp } })
}

/// Asks `tab_id` to load its current page again, at time `timestamp`.
/// Refuses an empty identifier.
pub fn cef_reload(tab_id: String, timestamp: u64) -> (done: Result<
    Notification<PageReloadEventPayload>,
    AppError,
>)
    ensures
        done == if tab_id@.len() == 0 {
            Err::<Notification<PageReloadEventPayload>, AppError>(refused(ArgumentFault::EmptyTabId))
        } else {
            Ok(
                (Notification {
                    topic: Topic::PageReload,
                    payload: (PageReloadEventPayload { tab_id, timestamp }),
                }),
            )
        },
{
    if tab_id.as_str().is_empty() {
        return Err(AppError::InvalidArgument(ArgumentFault::EmptyTabId));
    }
    Ok(Notification { topic: Topic::PageReload, payload: PageReloadEventPayload { tab_id, timestamp } })
}

/// Asks `tab_id` to stop loading, at time `timestamp`. Refuses an empty
/// identifier.
pub fn cef_stop(tab_id: String, timestamp: u64) -> (done: Result<
    Notification<PageStopEventPayload>,
    AppError,
>)
    ensures
        done == if tab_id@.len() == 0 {
            Err::<Notification<PageStopEventPayload>, AppError>(refused(ArgumentFault::EmptyTabId))
        } else {
            Ok(
                (Notification {
                    topic: Topic::PageStop,
                    payload: (PageStopEventPayload { tab_id, timestamp }),
                }),
            )
        },
{
    if tab_id.as_str().is_empty() {
        return Err(AppError::InvalidArgument(ArgumentFault::EmptyTabId));
    }
    Ok(Notification { topic: Topic::PageStop, payload: PageStopEventPayload { tab_id, timestamp } })
}

/// Runs `script` in the page of `tab_id`. Refuses an empty identifier, then
/// an empty script. No engine is attached, so the script's value is always
/// the text `null`.
pub fn cef_execute_js(tab_id: String, script: String) -> (done: Result<String, AppError>)
    ensures
        match done {
            Ok(value) => tab_id@.len() > 0 && script@.len() > 0 && value@ == "null"@,
            Err(e) => e == if tab_id@.len() == 0 {
                refused(ArgumentFault::EmptyTabId)
            } else {
                refused(ArgumentFault::EmptyScript)
            } && (tab_id@.len() == 0 || script@.len() == 0),
        },
{
    if tab_id.as_str().is_empty() {
        return Err(AppError::InvalidArgument(ArgumentFault::EmptyTabId));
    }
    if script.as_str().is_empty() {
        return Err(AppError::InvalidArgument(ArgumentFault::EmptyScript));
    }
    Ok("null".to_owned())
}

/// Reads the page of `tab_id`. Refuses an empty identifier. No engine is
/// attached, so every field of the content is empty and there is no
/// favicon.
pub fn cef_get_page_content(tab_id: String) -> (done: Result<PageContent, AppError>)
    ensures
        match done {
            Ok(page) => tab_id@.len() > 0 && page.url@.len() == 0 && page.title@.len() == 0
                && page.content@.len() == 0 && page.description@.len() == 0 && page.favicon
                is None,
            Err(e) => e == refused(ArgumentFault::EmptyTabId) && tab_id@.len() == 0,
        },
{
    if tab_id.as_str().is_empty() {
        return Err(AppError::InvalidArgument(ArgumentFault::EmptyTabId));
    }
    Ok(
        PageContent {
            url: String::new(),
            title: String::new(),
            content: String::new(),
            description: String::new(),
            favicon: None,
        },
    )
}

/// Reads the text selected in the page of `tab_id`. Refuses an empty
/// identifier. No engine is attached, so the selection is always empty.
pub fn cef_get_selection(tab_id: String) -> (done: Result<String, AppError>)
    ensures
        match done {
            Ok(text) => tab_id@.len() > 0 && text@.len() == 0,
            Err(e) => e == refused(ArgumentFault::EmptyTabId) && tab_id@.len() == 0,
        },
{
    if tab_id.as_str().is_empty() {
        return Err(AppError::InvalidArgument(ArgumentFault::EmptyTabId));
    }
    Ok(String::new())
}

/// The engine reports at time `timestamp` that `tab_id` is now on `url`.
/// Refuses an empty identifier, then an empty URL.
pub fn cef_on_url_change(tab_id: String, url: String, timestamp: u64) -> (done: Result<
    Notification<UrlChangeEventPayload>,
    AppError,
>)
    ensures
        done == if tab_id@.len() == 0 {
            Err::<Notification<UrlChangeEventPayload>, AppError>(refused(ArgumentFault::EmptyTabId))
        } else if url@.len() == 0 {
            Err(refused(ArgumentFault::EmptyUrl))
        } else {
            Ok(
                (Notification {
                    topic: Topic::UrlChanged,
                    payload: (UrlChangeEventPayload { tab_id, url, timestamp }),
                }),
            )
        },
{
    if tab_id.as_str().is_empty() {
        return Err(AppError::InvalidArgument(ArgumentFault::EmptyTabId));
    }
    if url.as_str().is_empty() {
        return Err(AppError::InvalidArgument(ArgumentFault::EmptyUrl));
    }
    Ok(
        Notification {
            topic: Topic::UrlChanged,
            payload: UrlChangeEventPayload { tab_id, url, timestamp },
        },
    )
}

/// The engine reports at time `timestamp` that the page of `tab_id` is
/// titled `title`. Refuses an empty identifier; an empty title is a title.
pub fn cef_on_title_change(tab_id: String, title: String, timestamp: u64) -> (done: Result<
    Notification<TitleChangeEventPayload>,
    AppError,
>)
    ensures
        done == if tab_id@.len() == 0 {
            Err::<Notification<TitleChangeEventPayload>, AppError>(
                refused(ArgumentFault::EmptyTabId),
            )
        } else {
            Ok(
                (Notification {
                    topic: Topic::TitleChanged,
                    payload: (TitleChangeEventPayload { tab_id, title, timestamp }),
                }),
            )
        },
{
    if tab_id.as_str().is_empty() {
        return Err(AppError::InvalidArgument(ArgumentFault::EmptyTabId));
    }
    Ok(
        Notification {
            topic: Topic::TitleChanged,
            payload: TitleChangeEventPayload { tab_id, title, timestamp },
        },
    )
}

/// The engine reports at time `timestamp` that `tab_id` started or stopped
/// loading. Refuses an empty identifier.
pub fn cef_on_loading_state_change(tab_id: String, is_loading: bool, timestamp: u64) -> (done:
    Result<Notification<LoadingStateChangeEventPayload>, AppError>)
    ensures
        done == if tab_id@.len() == 0 {
            Err::<Notification<LoadingStateChangeEventPayload>, AppError>(
                refused(ArgumentFault::EmptyTabId),
            )
        } else {
            Ok(
                (Notification {
                    topic: Topic::LoadingStateChanged,
                    payload: (LoadingStateChangeEventPayload { tab_id, is_loading, timestamp }),
                }),
            )
        },
{
    if tab_id.as_str().is_empty() {
        return Err(AppError::InvalidArgument(ArgumentFault::EmptyTabId));
    }
    Ok(
        Notification {
            topic: Topic::LoadingStateChanged,
            payload: LoadingStateChangeEventPayload { tab_id, is_loading, timestamp },
        },
    )
}

/// Brings `tab_id` to the front, at time `timestamp`. Refuses an empty
/// identifier.
pub fn cef_switch_tab(tab_id: String, timestamp: u64) -> (done: Result<
    Notification<TabSwitchEventPayload>,
    AppError,
>)
    ensures
        done == if tab_id@.len() == 0 {
            Err::<Notification<TabSwitchEventPayload>, AppError>(refused(ArgumentFault::EmptyTabId))
        } else {
            Ok(
                (Notification {
                    topic: Topic::TabSwitched,
                    payload: (TabSwitchEventPayload { tab_id, timestamp }),
                }),
            )
        },
{
    if tab_id.as_str().is_empty() {
        return Err(AppError::InvalidArgument(ArgumentFault::EmptyTabId));
    }
    Ok(Notification { topic: Topic::TabSwitched, payload: TabSwitchEventPayload { tab_id, timestamp } })
}

/// Moves and resizes the surface of `tab_id`, at time `timestamp`. Refuses
/// an empty identifier, then a width or height that is zero or below.
pub fn cef_update_bounds(
    tab_id: String,
    x: u64,
    y: u64,
    width: u64,
    height: u64,
    timestamp: u64,
) -> (done: Result<Notification<BoundsUpdateEventPayload>, AppError>)
    ensures
        done == if tab_id@.len() == 0 {
            Err::<Notification<BoundsUpdateEventPayload>, AppError>(
                refused(ArgumentFault::EmptyTabId),
            )
        } else if non_positive(width) || non_positive(height) {
            Err(refused(ArgumentFault::NonPositiveSize))
        } else {
            Ok(
                (Notification {
                    topic: Topic::BoundsUpdated,
                    payload: (BoundsUpdateEventPayload { tab_id, x, y, width, height, timestamp }),
                }),
            )
        },
{
    if tab_id.as_str().is_empty() {
        return Err(AppError::InvalidArgument(ArgumentFault::EmptyTabId));
    }
    if !is_placeable(width, height) {
        return Err(AppError::InvalidArgument(ArgumentFault::NonPositiveSize));
    }
    Ok(
        Notification {
            topic: Topic::BoundsUpdated,
            payload: BoundsUpdateEventPayload { tab_id, x, y, width, height, timestamp },
        },
    )
}

} // verus!
