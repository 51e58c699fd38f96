use innu::components::{
    action_icon, action_label, action_visual_for, icon_ligature, theme_toggle_tooltip, theme_toggle_visual,
    ActionVisual, AppActionKind, AppIcon,
};
use innu::theme::{BaseMode, LayoutClass};

#[test]
fn labels_and_icons_of_actions() {
    assert_eq!(action_label(AppActionKind::EnterPassword), "ENTER PASSWORD");
    assert_eq!(action_label(AppActionKind::JoinHidden), "HIDDEN");
    assert_eq!(action_label(AppActionKind::ConfirmConnect), "CONNECT");
    assert_eq!(action_icon(AppActionKind::Reconnect), AppIcon::Connect);
    assert_eq!(action_icon(AppActionKind::Dismiss), AppIcon::Close);
    assert_eq!(action_icon(AppActionKind::Cancel), AppIcon::Close);
    assert_eq!(icon_ligature(AppIcon::Refresh), "\u{e5d5}");
    assert_eq!(icon_ligature(AppIcon::Forget), "\u{e92b}");
}

#[test]
fn visuals_depend_on_layout() {
    assert_eq!(action_visual_for(LayoutClass::Standard, AppActionKind::Retry), ActionVisual::Text("RETRY"));
    assert_eq!(action_visual_for(LayoutClass::Narrow, AppActionKind::Retry), ActionVisual::Icon(AppIcon::Retry));
    assert_eq!(action_visual_for(LayoutClass::Compact, AppActionKind::Forget), ActionVisual::Icon(AppIcon::Forget));
    assert_eq!(theme_toggle_visual(LayoutClass::Standard, BaseMode::Light), ActionVisual::Text("LIGHT"));
    assert_eq!(theme_toggle_visual(LayoutClass::Compact, BaseMode::Dark), ActionVisual::Icon(AppIcon::ThemeDark));
    assert_eq!(theme_toggle_tooltip(BaseMode::Light), "Switch to light theme");
    assert_eq!(theme_toggle_tooltip(BaseMode::Dark), "Switch to dark theme");
}
