use notiser::animation::AnimationPreset;
use notiser::config::{
    ActionsConfig, Anchor, AppRule, ClickAction, Color, DisplayConfig, DndConfig, GeneralConfig,
    GroupingConfig, HistoryConfig, Layer, Margins, SortOrder, UrgencyOverride,
};
use notiser::layout::{Ellipsize, FlexAlign, FlexDirection, FontWeight, ImageKind, TextKind};
use notiser::notification::Urgency;
use notiser::settings::{
    actions_layout_named, align_named, anchor_named, direction_named, ellipsize_named,
    font_weight_named, image_kind_named, layer_named, parse_click_action, preset_named,
    sort_order_named, text_kind_named, urgency_named,
};

#[test]
fn color_hex_forms() {
    assert_eq!(Color::hex("#1e1e2e"), Color { r: 0x1e, g: 0x1e, b: 0x2e, a: 255 });
    assert_eq!(Color::hex("cdd6f4"), Color { r: 0xcd, g: 0xd6, b: 0xf4, a: 255 });
    assert_eq!(Color::hex("#FF660080"), Color { r: 255, g: 0x66, b: 0, a: 0x80 });
    // A malformed channel reads as 0, a malformed alpha as 255.
    assert_eq!(Color::hex("#zz0010xx"), Color { r: 0, g: 0, b: 0x10, a: 255 });
    // `u8::from_str_radix` accepts a leading plus sign.
    assert_eq!(Color::hex("+f0000"), Color { r: 15, g: 0, b: 0, a: 255 });
    // Seven digits: the alpha is not read.
    assert_eq!(Color::hex("#1234567"), Color { r: 0x12, g: 0x34, b: 0x56, a: 255 });
}

#[test]
fn config_defaults() {
    let g = GeneralConfig::default();
    assert_eq!((g.max_visible, g.default_timeout, g.idle_threshold), (5, 5000, 0));
    assert_eq!(g.sort_order, SortOrder::TimeAscending);
    let d = DisplayConfig::default();
    assert_eq!(d.anchor, Anchor::TopRight);
    assert_eq!(d.margin, Margins { top: 10, right: 10, bottom: 10, left: 10 });
    assert_eq!(d.gap, 8);
    assert_eq!(d.layer, Layer::Overlay);
    let gr = GroupingConfig::default();
    assert!(!gr.enabled && gr.by_app && gr.collapse_threshold == 3);
    let dnd = DndConfig::default();
    assert!(!dnd.enabled && dnd.allow_critical);
    let h = HistoryConfig::default();
    assert!(h.enabled && h.max_entries == 100 && h.ttl_seconds == 86400 && !h.store_transient);
    let a = ActionsConfig::default();
    assert!(matches!(a.on_left_click, ClickAction::InvokeDefault));
    assert!(matches!(a.on_right_click, ClickAction::Dismiss));
    assert!(matches!(a.on_middle_click, ClickAction::DismissAll));
}

#[test]
fn click_action_names() {
    assert!(matches!(parse_click_action("dismiss"), ClickAction::Dismiss));
    assert!(matches!(parse_click_action("dismiss_all"), ClickAction::DismissAll));
    assert!(matches!(parse_click_action("invoke_default"), ClickAction::InvokeDefault));
    assert!(matches!(parse_click_action("do_nothing"), ClickAction::DoNothing));
    assert!(matches!(parse_click_action("none"), ClickAction::DoNothing));
    match parse_click_action("reply") {
        ClickAction::InvokeAction(k) => assert_eq!(k, "reply"),
        other => panic!("unexpected {other:?}"),
    }
}

#[test]
fn section_names() {
    assert_eq!(sort_order_named("time_desc", SortOrder::TimeAscending), SortOrder::TimeDescending);
    assert_eq!(sort_order_named("urgency_descending", SortOrder::TimeAscending), SortOrder::UrgencyDescending);
    assert_eq!(sort_order_named("bogus", SortOrder::TimeDescending), SortOrder::TimeDescending);
    assert_eq!(anchor_named("top-center", Anchor::TopRight), Anchor::TopCenter);
    assert_eq!(anchor_named("bottom_left", Anchor::TopRight), Anchor::BottomLeft);
    assert_eq!(anchor_named("middle", Anchor::CenterLeft), Anchor::CenterLeft);
    assert_eq!(layer_named("top", Layer::Overlay), Layer::Top);
    assert_eq!(layer_named("sky", Layer::Bottom), Layer::Bottom);
    assert_eq!(preset_named("none"), AnimationPreset::Disabled);
    assert_eq!(preset_named("dynamic"), AnimationPreset::Dynamic);
    assert_eq!(preset_named("wobbly"), AnimationPreset::Standard);
    assert_eq!(urgency_named("low"), Urgency::Low);
    assert_eq!(urgency_named("critical"), Urgency::Critical);
    assert_eq!(urgency_named("urgent"), Urgency::Normal);
}

#[test]
fn layout_names() {
    assert_eq!(direction_named("row"), FlexDirection::Row);
    assert_eq!(direction_named("column"), FlexDirection::Column);
    assert_eq!(direction_named("diagonal"), FlexDirection::Column);
    assert_eq!(actions_layout_named("column"), FlexDirection::Column);
    assert_eq!(actions_layout_named("grid"), FlexDirection::Row);
    assert_eq!(align_named("stretch"), FlexAlign::Stretch);
    assert_eq!(align_named("middle"), FlexAlign::Start);
    assert_eq!(text_kind_named("summary"), TextKind::Summary);
    assert_eq!(text_kind_named("app_name"), TextKind::AppName);
    assert_eq!(text_kind_named("title"), TextKind::Body);
    assert_eq!(ellipsize_named("middle"), Ellipsize::Middle);
    assert_eq!(ellipsize_named("no"), Ellipsize::NoEllipsis);
    assert_eq!(font_weight_named("semibold"), FontWeight::Semibold);
    assert_eq!(font_weight_named("heavy"), FontWeight::Regular);
    assert_eq!(image_kind_named("image_data"), ImageKind::ImageData);
    assert_eq!(image_kind_named("logo"), ImageKind::AppIcon);
}

#[test]
fn sections_apply_given_values() {
    let mut g = GeneralConfig::default();
    g.apply(Some(3), Some(10000), Some("urgency_desc"), None);
    assert_eq!((g.max_visible, g.default_timeout, g.idle_threshold), (3, 10000, 0));
    assert_eq!(g.sort_order, SortOrder::UrgencyDescending);
    let mut d = DisplayConfig::default();
    d.apply(Some("top-center"), Some(6), Some("weird"));
    d.margin.apply(Some(4), None, None, Some(2));
    assert_eq!(d.anchor, Anchor::TopCenter);
    assert_eq!(d.gap, 6);
    assert_eq!(d.layer, Layer::Overlay);
    assert_eq!(d.margin, Margins { top: 4, right: 10, bottom: 10, left: 2 });
    let mut dnd = DndConfig::default();
    dnd.apply(Some(true), None);
    assert!(dnd.enabled && dnd.allow_critical);
    let mut h = HistoryConfig::default();
    h.apply(None, Some(5), Some(60), Some(true));
    assert!(h.enabled && h.max_entries == 5 && h.ttl_seconds == 60 && h.store_transient);
    let mut a = ActionsConfig::default();
    a.apply(Some("dismiss_all"), None, Some("none"));
    assert!(matches!(a.on_left_click, ClickAction::DismissAll));
    assert!(matches!(a.on_right_click, ClickAction::Dismiss));
    assert!(matches!(a.on_middle_click, ClickAction::DoNothing));
}

#[test]
fn urgency_override_and_app_rule() {
    let ov = UrgencyOverride::from_values(Some(0), Some("#cc241d"), Some("#fb4934"), None);
    assert_eq!(ov.timeout, Some(0));
    assert_eq!(ov.background, Some(Color { r: 0xcc, g: 0x24, b: 0x1d, a: 255 }));
    assert_eq!(ov.border_color, Some(Color { r: 0xfb, g: 0x49, b: 0x34, a: 255 }));
    let rule = AppRule::from_values(Some("Spotify".into()), None, Some(3000), Some("low"), None, None, None);
    assert_eq!(rule.match_app_name.as_deref(), Some("Spotify"));
    assert_eq!(rule.timeout, Some(3000));
    assert_eq!(rule.urgency, Some(Urgency::Low));
    let rule = AppRule::from_values(None, Some("org.mozilla.firefox".into()), None, None, Some("#ff6611"), Some(true), None);
    assert_eq!(rule.match_app_id.as_deref(), Some("org.mozilla.firefox"));
    assert_eq!(rule.background, Some(Color { r: 0xff, g: 0x66, b: 0x11, a: 255 }));
    assert_eq!(rule.group, Some(true));
    assert_eq!(rule.urgency, None);
}
