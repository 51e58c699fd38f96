//! The vocabulary of the window's controls: which actions exist, how each is
//! labelled, and which glyph stands for it where space is short.
use vstd::prelude::*;

use crate::theme::{BaseMode, LayoutClass};

verus! {

#[derive(Debug, Clone, Copy, PartialEq, Eq, Structural)]
pub enum BadgeKind {
    Neutral,
    Active,
    Warning,
}

#[derive(Debug, Clone, Copy, PartialEq, Eq, Structural)]
pub enum NoticeKind {
    Info,
    Error,
}

#[derive(Debug, Clone, Copy, PartialEq, Eq, Structural)]
pub enum NetworkRowState {
    Default,
    InUse,
    Unsupported,
}

#[derive(Debug, Clone, Copy, PartialEq, Eq, Structural)]
pub enum AppIcon {
    ThemeLight,
    ThemeDark,
    Refresh,
    Hidden,
    Disconnect,
    Connect,
    Password,
    Connected,
    Unsupported,
    Retry,
    Close,
    Confirm,
    Forget,
}

#[derive(Debug, Clone, Copy, PartialEq, Eq, Structural)]
pub enum AppActionKind {
    Refresh,
    JoinHidden,
    Disconnect,
    Connect,
    Reconnect,
    EnterPassword,
    Connected,
    Unsupported,
    Retry,
    Dismiss,
    Cancel,
    ConfirmConnect,
    Forget,
}

/// What a button shows: a text label, or an icon glyph.
#[derive(Debug, Clone, Copy, PartialEq, Eq)]
pub enum ActionVisual {
    Text(&'static str),
    Icon(AppIcon),
}

/// The text of an inline notice.
#[derive(Debug, Clone, Copy)]
pub struct NoticeContent<'a> {
    pub title: &'a str,
    pub emphasis: Option<&'a str>,
    pub detail: Option<&'a str>,
}

/// The label of an action.
pub open spec fn action_text(action: AppActionKind) -> Seq<char> {
    match action {
        AppActionKind::Refresh => "REFRESH"@,
        AppActionKind::JoinHidden => "HIDDEN"@,
        AppActionKind::Disconnect => "DISCONNECT"@,
        AppActionKind::Connect => "CONNECT"@,
        AppActionKind::Reconnect => "RECONNECT"@,
        AppActionKind::EnterPassword => "ENTER PASSWORD"@,
        AppActionKind::Connected => "CONNECTED"@,
        AppActionKind::Unsupported => "UNSUPPORTED"@,
        AppActionKind::Retry => "RETRY"@,
        AppActionKind::Dismiss => "DISMISS"@,
        AppActionKind::Cancel => "CANCEL"@,
        AppActionKind::ConfirmConnect => "CONNECT"@,
        AppActionKind::Forget => "FORGET"@,
    }
}

/// The button text of an action.
pub fn action_label(action: AppActionKind) -> (r: &'static str)
    ensures
        r@ == action_text(action),
{
    match action {
        AppActionKind::Refresh => "REFRESH",
        AppActionKind::JoinHidden => "HIDDEN",
        AppActionKind::Disconnect => "DISCONNECT",
        AppActionKind::Connect => "CONNECT",
        AppActionKind::Reconnect => "RECONNECT",
        AppActionKind::EnterPassword => "ENTER PASSWORD",
        AppActionKind::Connected => "CONNECTED",
        AppActionKind::Unsupported => "UNSUPPORTED",
        AppActionKind::Retry => "RETRY",
        AppActionKind::Dismiss => "DISMISS",
        AppActionKind::Cancel => "CANCEL",
        AppActionKind::ConfirmConnect => "CONNECT",
        AppActionKind::Forget => "FORGET",
    }
}

/// The icon of an action: connecting and reconnecting share one, as do
/// dismissing and cancelling.
pub open spec fn action_glyph(action: AppActionKind) -> AppIcon {
    match action {
        AppActionKind::Refresh => AppIcon::Refresh,
        AppActionKind::JoinHidden => AppIcon::Hidden,
        AppActionKind::Disconnect => AppIcon::Disconnect,
        AppActionKind::Connect | AppActionKind::Reconnect => AppIcon::Connect,
        AppActionKind::EnterPassword => AppIcon::Password,
        AppActionKind::Connected => AppIcon::Connected,
        AppActionKind::Unsupported => AppIcon::Unsupported,
        AppActionKind::Retry => AppIcon::Retry,
        AppActionKind::Dismiss | AppActionKind::Cancel => AppIcon::Close,
        AppActionKind::ConfirmConnect => AppIcon::Confirm,
        AppActionKind::Forget => AppIcon::Forget,
    }
}

/// The icon drawn on an action's button.
pub fn action_icon(action: AppActionKind) -> (r: AppIcon)
    ensures
        r == action_glyph(action),
{
    match action {
        AppActionKind::Refresh => AppIcon::Refresh,
        AppActionKind::JoinHidden => AppIcon::Hidden,
        AppActionKind::Disconnect => AppIcon::Disconnect,
        AppActionKind::Connect | AppActionKind::Reconnect => AppIcon::Connect,
        AppActionKind::EnterPassword => AppIcon::Password,
        AppActionKind::Connected => AppIcon::Connected,
        AppActionKind::Unsupported => AppIcon::Unsupported,
        AppActionKind::Retry => AppIcon::Retry,
        AppActionKind::Dismiss | AppActionKind::Cancel => AppIcon::Close,
        AppActionKind::ConfirmConnect => AppIcon::Confirm,
        AppActionKind::Forget => AppIcon::Forget,
    }
}

/// The Material Symbols code point of an icon.
pub open spec fn ligature_text(icon: AppIcon) -> Seq<char> {
    match icon {
        AppIcon::ThemeLight => "\u{e51c}"@,
        AppIcon::ThemeDark => "\u{e518}"@,
        AppIcon::Refresh => "\u{e5d5}"@,
        AppIcon::Hidden => "\u{e145}"@,
        AppIcon::Disconnect => "\u{e16f}"@,
        AppIcon::Connect => "\u{ea77}"@,
        AppIcon::Password => "\u{e73c}"@,
        AppIcon::Connected => "\u{e5ca}"@,
        AppIcon::Unsupported => "\u{f08c}"@,
        AppIcon::Retry => "\u{e5d5}"@,
        AppIcon::Close => "\u{e5cd}"@,
        AppIcon::Confirm => "\u{e5ca}"@,
        AppIcon::Forget => "\u{e92b}"@,
    }
}

/// The icon-font ligature that draws an icon.
pub fn icon_ligature(icon: AppIcon) -> (r: &'static str)
    ensures
        r@ == ligature_text(icon),
{
    match icon {
        AppIcon::ThemeLight => "\u{e51c}",
        AppIcon::ThemeDark => "\u{e518}",
        AppIcon::Refresh => "\u{e5d5}",
        AppIcon::Hidden => "\u{e145}",
        AppIcon::Disconnect => "\u{e16f}",
        AppIcon::Connect => "\u{ea77}",
        AppIcon::Password => "\u{e73c}",
        AppIcon::Connected => "\u{e5ca}",
        AppIcon::Unsupported => "\u{f08c}",
        AppIcon::Retry => "\u{e5d5}",
        AppIcon::Close => "\u{e5cd}",
        AppIcon::Confirm => "\u{e5ca}",
        AppIcon::Forget => "\u{e92b}",
    }
}

/// Wide layouts label buttons with text; narrow and compact ones with icons.
pub fn action_visual_for(layout: LayoutClass, action: AppActionKind) -> (r: ActionVisual)
    ensures
        layout == LayoutClass::Standard ==> (r matches ActionVisual::Text(t) && t@ == action_text(action)),
        layout != LayoutClass::Standard ==> r == ActionVisual::Icon(action_glyph(action)),
{
    match layout {
        LayoutClass::Standard => ActionVisual::Text(action_label(action)),
        LayoutClass::Narrow | LayoutClass::Compact => ActionVisual::Icon(action_icon(action)),
    }
}

/// The theme button shows the current mode: as a word in wide layouts, as an
/// icon otherwise.
pub fn theme_toggle_visual(layout: LayoutClass, mode: BaseMode) -> (r: ActionVisual)
    ensures
        layout == LayoutClass::Standard ==> (r matches ActionVisual::Text(t) && t@ == (if mode == BaseMode::Light { "LIGHT"@ } else { "DARK"@ })),
        layout != LayoutClass::Standard ==> r == ActionVisual::Icon(if mode == BaseMode::Light { AppIcon::ThemeLight } else { AppIcon::ThemeDark }),
{
    match layout {
        LayoutClass::Standard => ActionVisual::Text(match mode {
            BaseMode::Light => "LIGHT",
            BaseMode::Dark => "DARK",
        }),
        LayoutClass::Narrow | LayoutClass::Compact => ActionVisual::Icon(match mode {
            BaseMode::Light => AppIcon::ThemeLight,
            BaseMode::Dark => AppIcon::ThemeDark,
        }),
    }
}

/// The tooltip of the theme button names the mode it switches to.
pub fn theme_toggle_tooltip(target_mode: BaseMode) -> (r: &'static str)
    ensures
        r@ == (if target_mode == BaseMode::Light { "Switch to light theme"@ } else { "Switch to dark theme"@ }),
{
    match target_mode {
        BaseMode::Light => "Switch to light theme",
        BaseMode::Dark => "Switch to dark theme",
    }
}

} // verus!
