use freya_platform::titlebar::{
    icon_svg, initial_hovering, on_pointer, GLYPH_SIDE_BITS, resolve_theme, Color, CornerRadius, DiffKey, PointerEvent,
    PointerOutcome, TitlebarAction, TitlebarButton, TitlebarButtonTheme,
    TitlebarButtonThemePartial,
};
use torin::size::Size;

const ACTIONS: [TitlebarAction; 4] = [
    TitlebarAction::Minimize,
    TitlebarAction::Maximize,
    TitlebarAction::Close,
    TitlebarAction::Restore,
];

fn registered() -> TitlebarButtonTheme {
    TitlebarButtonTheme {
        background: Color(0xff00_0001),
        hover_background: Color(0xff00_0002),
        color: Color(0xff00_0003),
        close_hover_background: Color(0xffe8_1123),
        close_hover_color: Color(0xffff_ffff),
        corner_radius: CornerRadius::default(),
        width: Size::px(46.),
        height: Size::px(32.),
    }
}

#[test]
fn new_button_has_no_handler_and_no_key() {
    let button: TitlebarButton<u32> = TitlebarButton::new(TitlebarAction::Minimize);
    let view = button.render(&registered(), false);
    assert!(view.on_press.is_none());
    assert_eq!(button.render_key(DiffKey::U64(7)), DiffKey::U64(7));
}

#[test]
fn on_press_attaches_the_handler() {
    let button = TitlebarButton::new(TitlebarAction::Close).on_press(41u32);
    let view = button.render(&registered(), false);
    assert_eq!(view.on_press, Some(&41));
}

#[test]
fn rest_colors_are_shared_by_every_action() {
    let theme = registered();
    for action in ACTIONS {
        let button: TitlebarButton<()> = TitlebarButton::new(action);
        let view = button.render(&theme, false);
        assert_eq!(view.background, Color(0xff00_0001));
        assert_eq!(view.color, Color(0xff00_0003));
    }
}

#[test]
fn hovered_close_uses_its_own_pair() {
    let button: TitlebarButton<()> = TitlebarButton::new(TitlebarAction::Close);
    let view = button.render(&registered(), true);
    assert_eq!(view.background, Color(0xffe8_1123));
    assert_eq!(view.color, Color(0xffff_ffff));
}

#[test]
fn hovered_other_buttons_share_the_hover_pair() {
    for action in [TitlebarAction::Minimize, TitlebarAction::Maximize, TitlebarAction::Restore] {
        let button: TitlebarButton<()> = TitlebarButton::new(action);
        let view = button.render(&registered(), true);
        assert_eq!(view.background, Color(0xff00_0002));
        assert_eq!(view.color, Color(0xff00_0003));
    }
}

#[test]
fn theme_override_replaces_only_its_fields() {
    let partial = TitlebarButtonThemePartial {
        close_hover_background: Some(Color(0xff12_3456)),
        width: Some(Size::px(60.)),
        ..Default::default()
    };
    let button: TitlebarButton<()> = TitlebarButton::new(TitlebarAction::Close).theme(partial);
    let view = button.render(&registered(), true);
    assert_eq!(view.background, Color(0xff12_3456));
    assert_eq!(view.color, Color(0xffff_ffff));
    assert_eq!(view.width, Size::px(60.));
    assert_eq!(view.height, Size::px(32.));
}

#[test]
fn resolve_without_override_is_the_registered_theme() {
    assert_eq!(resolve_theme(&registered(), &None), registered());
    assert_eq!(resolve_theme(&registered(), &Some(TitlebarButtonThemePartial::default())), registered());
}

#[test]
fn apply_is_idempotent_and_full_override_wins() {
    let partial = TitlebarButtonThemePartial {
        color: Some(Color(5)),
        height: Some(Size::fill()),
        ..Default::default()
    };
    let mut once = registered();
    once.apply_optional(&partial);
    let mut twice = registered();
    twice.apply_optional(&partial);
    twice.apply_optional(&partial);
    assert_eq!(once, twice);
    assert_eq!(once.color, Color(5));
    assert_eq!(once.height, Size::fill());

    let other = TitlebarButtonTheme {
        background: Color(9),
        hover_background: Color(8),
        color: Color(7),
        close_hover_background: Color(6),
        close_hover_color: Color(5),
        corner_radius: CornerRadius { top_left: 1, top_right: 2, bottom_right: 3, bottom_left: 4, smoothing: 0 },
        width: Size::auto(),
        height: Size::fill(),
    };
    let full = TitlebarButtonThemePartial {
        background: Some(other.background),
        hover_background: Some(other.hover_background),
        color: Some(other.color),
        close_hover_background: Some(other.close_hover_background),
        close_hover_color: Some(other.close_hover_color),
        corner_radius: Some(other.corner_radius),
        width: Some(other.width.clone()),
        height: Some(other.height.clone()),
    };
    let mut theme = registered();
    theme.apply_optional(&full);
    assert_eq!(theme, other);
}

#[test]
fn icons_are_distinct_and_tinted_by_current_color() {
    for (i, a) in ACTIONS.iter().enumerate() {
        assert!(icon_svg(*a).contains("currentColor"));
        assert!(icon_svg(*a).starts_with("<svg viewBox=\"0 0 12 12\""));
        for (j, b) in ACTIONS.iter().enumerate() {
            if i != j {
                assert_ne!(icon_svg(*a), icon_svg(*b));
            }
        }
    }
    assert_eq!(
        icon_svg(TitlebarAction::Minimize),
        r#"<svg viewBox="0 0 12 12"><rect x="1" y="5" width="10" height="2" fill="currentColor"/></svg>"#
    );
}

#[test]
fn render_shows_the_action_icon() {
    for action in ACTIONS {
        let button: TitlebarButton<()> = TitlebarButton::new(action);
        assert_eq!(button.render(&registered(), false).icon_svg, icon_svg(action));
    }
}

#[test]
fn pointer_enter_leave_and_press() {
    assert_eq!(on_pointer(false, PointerEvent::Enter), PointerOutcome { hovering: true, stop_propagation: false });
    assert_eq!(on_pointer(true, PointerEvent::Leave), PointerOutcome { hovering: false, stop_propagation: false });
    assert_eq!(on_pointer(true, PointerEvent::Down), PointerOutcome { hovering: true, stop_propagation: true });
    assert_eq!(on_pointer(false, PointerEvent::Down), PointerOutcome { hovering: false, stop_propagation: true });
    for start in [false, true] {
        let entered = on_pointer(start, PointerEvent::Enter).hovering;
        assert!(!on_pointer(entered, PointerEvent::Leave).hovering);
    }
}

#[test]
fn keys_write_and_fall_back() {
    let mut button: TitlebarButton<()> = TitlebarButton::new(TitlebarAction::Maximize);
    assert_eq!(button.render_key(DiffKey::DefaultU64(3)), DiffKey::DefaultU64(3));
    *button.write_key() = DiffKey::U64(11);
    assert_eq!(button.render_key(DiffKey::DefaultU64(3)), DiffKey::U64(11));
    assert_eq!(DiffKey::Root.or(DiffKey::U64(1)), DiffKey::Root);
    assert_eq!(DiffKey::Unkeyed.or(DiffKey::U64(1)), DiffKey::U64(1));
}

#[test]
fn later_override_wins_where_it_sets() {
    let first = TitlebarButtonThemePartial {
        background: Some(Color(1)),
        color: Some(Color(2)),
        ..Default::default()
    };
    let second = TitlebarButtonThemePartial {
        color: Some(Color(3)),
        width: Some(Size::fill()),
        ..Default::default()
    };
    let mut theme = registered();
    theme.apply_optional(&first);
    theme.apply_optional(&second);
    assert_eq!(theme.background, Color(1));
    assert_eq!(theme.color, Color(3));
    assert_eq!(theme.width, Size::fill());
    assert_eq!(theme.hover_background, Color(0xff00_0002));
}

#[test]
fn first_render_of_close_is_unhovered() {
    let partial = TitlebarButtonThemePartial {
        background: Some(Color(0xff00_00ff)),
        hover_background: Some(Color(0xff80_8080)),
        color: Some(Color(0xffff_ffff)),
        close_hover_background: Some(Color(0xffff_0000)),
        close_hover_color: Some(Color(0xff00_0000)),
        width: Some(Size::px(46.)),
        height: Some(Size::px(32.)),
        ..Default::default()
    };
    let button: TitlebarButton<()> = TitlebarButton::new(TitlebarAction::Close).theme(partial);
    let hovering = initial_hovering();
    assert!(!hovering);
    let view = button.render(&registered(), hovering);
    assert_eq!(view.background, Color(0xff00_00ff));
    assert_eq!(view.color, Color(0xffff_ffff));
}

#[test]
fn hovered_iff_last_event_entered() {
    let runs: [&[PointerEvent]; 5] = [
        &[],
        &[PointerEvent::Enter],
        &[PointerEvent::Enter, PointerEvent::Leave],
        &[PointerEvent::Leave, PointerEvent::Enter, PointerEvent::Down],
        &[PointerEvent::Enter, PointerEvent::Leave, PointerEvent::Enter],
    ];
    let expected = [false, true, false, true, true];
    for (run, want) in runs.iter().zip(expected) {
        let mut hovering = initial_hovering();
        for event in run.iter() {
            hovering = on_pointer(hovering, *event).hovering;
        }
        assert_eq!(hovering, want);
    }
}

#[test]
fn glyph_box_is_twelve_pixels_and_centered() {
    assert_eq!(f32::from_bits(GLYPH_SIDE_BITS), 12.0);
    for action in ACTIONS {
        let button: TitlebarButton<()> = TitlebarButton::new(action);
        let view = button.render(&registered(), false);
        assert_eq!(f32::from_bits(view.icon_width), 12.0);
        assert_eq!(f32::from_bits(view.icon_height), 12.0);
        assert!(view.center_content);
    }
}
