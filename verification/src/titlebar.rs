use torin::size::Size;
use vstd::prelude::*;

verus! {

/// Layout size of torin: how wide or tall an element is. The library only carries it.
#[verifier::external_type_specification]
#[verifier::external_body]
pub struct ExSize(torin::size::Size);

/// `<torin::size::Size as Clone>::clone`, which `derive` writes: the copy is the same size
/// (a computed size keeps the very same shared function and its hash).
#[verifier::external_body]
fn clone_size(size: &Size) -> (r: Size)
    ensures
        r == *size,
{
    size.clone()
}

/// One color, as the ARGB word that Freya keeps for it.
#[derive(Clone, Copy, Debug, PartialEq, Eq, Hash, Structural)]
pub struct Color(pub u32);

/// Radius of each corner plus the squircle smoothing. Each value is the bit pattern of
/// its `f32` (`f32::to_bits`): the titlebar only carries them through its theme.
#[derive(Clone, Copy, Debug, PartialEq, Eq, Hash, Default, Structural)]
pub struct CornerRadius {
    pub top_left: u32,
    pub top_right: u32,
    pub bottom_right: u32,
    pub bottom_left: u32,
    pub smoothing: u32,
}

/// Key that tells sibling components apart when the tree is diffed.
#[derive(Clone, Copy, Debug, PartialEq, Eq, Hash, Structural)]
pub enum DiffKey {
    Root,
    U64(u64),
    DefaultU64(u64),
    Unkeyed,
}

impl DiffKey {
    pub open spec fn spec_or(self, other: DiffKey) -> DiffKey {
        match self {
            DiffKey::Unkeyed => other,
            _ => self,
        }
    }

    /// This key, or `other` where there is none.
    pub fn or(self, other: DiffKey) -> (r: DiffKey)
        ensures
            r == self.spec_or(other),
    {
        match self {
            DiffKey::Unkeyed => other,
            _ => self,
        }
    }
}

/// The full dress of a titlebar button.
#[derive(Debug, PartialEq)]
pub struct TitlebarButtonTheme {
    pub background: Color,
    pub hover_background: Color,
    /// The glyph's tint at rest.
    pub color: Color,
    /// **Close**, hovered: the one destructive action gets its own pair.
    pub close_hover_background: Color,
    pub close_hover_color: Color,
    pub corner_radius: CornerRadius,
    pub width: Size,
    pub height: Size,
}

/// A theme override: each field that is `Some` replaces the registered one.
#[derive(Debug, PartialEq, Default)]
pub struct TitlebarButtonThemePartial {
    pub background: Option<Color>,
    pub hover_background: Option<Color>,
    pub color: Option<Color>,
    pub close_hover_background: Option<Color>,
    pub close_hover_color: Option<Color>,
    pub corner_radius: Option<CornerRadius>,
    pub width: Option<Size>,
    pub height: Option<Size>,
}

/// The value of `current` once `over` has been laid over it.
pub open spec fn overridden<T>(current: T, over: Option<T>) -> T {
    match over {
        Some(v) => v,
        None => current,
    }
}

impl TitlebarButtonThemePartial {
    /// The override that sets nothing.
    pub open spec fn spec_empty() -> TitlebarButtonThemePartial {
        TitlebarButtonThemePartial {
            background: None,
            hover_background: None,
            color: None,
            close_hover_background: None,
            close_hover_color: None,
            corner_radius: None,
            width: None,
            height: None,
        }
    }

    /// `self` followed by `later`: each field is `later`'s where it sets one, else `self`'s.
    pub open spec fn spec_then(self, later: TitlebarButtonThemePartial) -> TitlebarButtonThemePartial {
        TitlebarButtonThemePartial {
            background: if later.background is Some { later.background } else { self.background },
            hover_background: if later.hover_background is Some {
                later.hover_background
            } else {
                self.hover_background
            },
            color: if later.color is Some { later.color } else { self.color },
            close_hover_background: if later.close_hover_background is Some {
                later.close_hover_background
            } else {
                self.close_hover_background
            },
            close_hover_color: if later.close_hover_color is Some {
                later.close_hover_color
            } else {
                self.close_hover_color
            },
            corner_radius: if later.corner_radius is Some {
                later.corner_radius
            } else {
                self.corner_radius
            },
            width: if later.width is Some { later.width } else { self.width },
            height: if later.height is Some { later.height } else { self.height },
        }
    }

    /// The override that sets every field from `theme`.
    pub open spec fn spec_full(theme: TitlebarButtonTheme) -> TitlebarButtonThemePartial {
        TitlebarButtonThemePartial {
            background: Some(theme.background),
            hover_background: Some(theme.hover_background),
            color: Some(theme.color),
            close_hover_background: Some(theme.close_hover_background),
            close_hover_color: Some(theme.close_hover_color),
            corner_radius: Some(theme.corner_radius),
            width: Some(theme.width),
            height: Some(theme.height),
        }
    }
}

impl TitlebarButtonTheme {
    /// This theme with `partial` laid over it, field by field.
    pub open spec fn spec_apply(self, partial: TitlebarButtonThemePartial) -> TitlebarButtonTheme {
        TitlebarButtonTheme {
            background: overridden(self.background, partial.background),
            hover_background: overridden(self.hover_background, partial.hover_background),
            color: overridden(self.color, partial.color),
            close_hover_background: overridden(
                self.close_hover_background,
                partial.close_hover_background,
            ),
            close_hover_color: overridden(self.close_hover_color, partial.close_hover_color),
            corner_radius: overridden(self.corner_radius, partial.corner_radius),
            width: overridden(self.width, partial.width),
            height: overridden(self.height, partial.height),
        }
    }

    /// The theme a button wears: the registered one, with the button's own override on top.
    pub open spec fn spec_resolve(
        self,
        partial: Option<TitlebarButtonThemePartial>,
    ) -> TitlebarButtonTheme {
        match partial {
            Some(p) => self.spec_apply(p),
            None => self,
        }
    }

    /// Lay `partial` over this theme: every field it sets replaces the current one.
    pub fn apply_optional(&mut self, partial: &TitlebarButtonThemePartial)
        ensures
            *final(self) == old(self).spec_apply(*partial),
    {
        if let Some(c) = partial.background {
            self.background = c;
        }
        if let Some(c) = partial.hover_background {
            self.hover_background = c;
        }
        if let Some(c) = partial.color {
            self.color = c;
        }
        if let Some(c) = partial.close_hover_background {
            self.close_hover_background = c;
        }
        if let Some(c) = partial.close_hover_color {
            self.close_hover_color = c;
        }
        if let Some(r) = partial.corner_radius {
            self.corner_radius = r;
        }
        if let Some(w) = &partial.width {
            self.width = clone_size(w);
        }
        if let Some(h) = &partial.height {
            self.height = clone_size(h);
        }
    }
}


/// A window action that a titlebar button stands for.
#[derive(Clone, Copy, PartialEq, Eq, Debug, Structural)]
pub enum TitlebarAction {
    Minimize,
    Maximize,
    Close,
    Restore,
}

/// The glyph of each action, as SVG drawn with `currentColor`.
pub open spec fn icon_svg_of(action: TitlebarAction) -> Seq<char> {
    match action {
        TitlebarAction::Minimize => r#"<svg viewBox="0 0 12 12"><rect x="1" y="5" width="10" height="2" fill="currentColor"/></svg>"#@,
        TitlebarAction::Maximize => r#"<svg viewBox="0 0 12 12"><rect x="2" y="2" width="8" height="8" fill="none" stroke="currentColor" stroke-width="1.5"/></svg>"#@,
        TitlebarAction::Restore => r#"<svg viewBox="0 0 12 12" xmlns="http://www.w3.org/2000/svg">
                  <rect x="1.5" y="3.5" width="6.5" height="6.5" fill="none" stroke="currentColor" stroke-width="1.5"/>
                  <path d="M4 3.5 V2 H10 V8 H8.5" fill="none" stroke="currentColor" stroke-width="1.5"/>
                </svg>"#@,
        TitlebarAction::Close => r#"<svg viewBox="0 0 12 12"><path d="M3 3l6 6" stroke="currentColor" stroke-width="1.5" stroke-linecap="round"/><path d="M9 3l-6 6" stroke="currentColor" stroke-width="1.5" stroke-linecap="round"/></svg>"#@,
    }
}

/// The SVG glyph of `action`.
pub fn icon_svg(action: TitlebarAction) -> (r: &'static str)
    ensures
        r@ == icon_svg_of(action),
{
    match action {
        TitlebarAction::Minimize => r#"<svg viewBox="0 0 12 12"><rect x="1" y="5" width="10" height="2" fill="currentColor"/></svg>"#,
        TitlebarAction::Maximize => r#"<svg viewBox="0 0 12 12"><rect x="2" y="2" width="8" height="8" fill="none" stroke="currentColor" stroke-width="1.5"/></svg>"#,
        TitlebarAction::Restore => r#"<svg viewBox="0 0 12 12" xmlns="http://www.w3.org/2000/svg">
                  <rect x="1.5" y="3.5" width="6.5" height="6.5" fill="none" stroke="currentColor" stroke-width="1.5"/>
                  <path d="M4 3.5 V2 H10 V8 H8.5" fill="none" stroke="currentColor" stroke-width="1.5"/>
                </svg>"#,
        TitlebarAction::Close => r#"<svg viewBox="0 0 12 12"><path d="M3 3l6 6" stroke="currentColor" stroke-width="1.5" stroke-linecap="round"/><path d="M9 3l-6 6" stroke="currentColor" stroke-width="1.5" stroke-linecap="round"/></svg>"#,
    }
}

/// Whether `text` occurs in `s`.
pub open spec fn contains_text(s: Seq<char>, text: Seq<char>) -> bool {
    exists|i: int| 0 <= i && i + text.len() <= s.len() && #[trigger] s.subrange(i, i + text.len()) == text
}

/// Every glyph is drawn with `currentColor`, so the button's color tints it whatever the action.
pub proof fn lemma_icon_drawn_with_current_color(action: TitlebarAction)
    ensures
        contains_text(icon_svg_of(action), "currentColor"@),
{
    reveal_strlit("currentColor");
    match action {
        TitlebarAction::Minimize => {
            reveal_strlit(r#"<svg viewBox="0 0 12 12"><rect x="1" y="5" width="10" height="2" fill="currentColor"/></svg>"#);
            let s = icon_svg_of(action);
            assert(s.subrange(71int, 71int + "currentColor"@.len()) =~= "currentColor"@);
        },
        TitlebarAction::Maximize => {
            reveal_strlit(r#"<svg viewBox="0 0 12 12"><rect x="2" y="2" width="8" height="8" fill="none" stroke="currentColor" stroke-width="1.5"/></svg>"#);
            let s = icon_svg_of(action);
            assert(s.subrange(84int, 84int + "currentColor"@.len()) =~= "currentColor"@);
        },
        TitlebarAction::Restore => {
            reveal_strlit(r#"<svg viewBox="0 0 12 12" xmlns="http://www.w3.org/2000/svg">
                  <rect x="1.5" y="3.5" width="6.5" height="6.5" fill="none" stroke="currentColor" stroke-width="1.5"/>
                  <path d="M4 3.5 V2 H10 V8 H8.5" fill="none" stroke="currentColor" stroke-width="1.5"/>
                </svg>"#);
            let s = icon_svg_of(action);
            assert(s.subrange(146int, 146int + "currentColor"@.len()) =~= "currentColor"@);
        },
        TitlebarAction::Close => {
            reveal_strlit(r#"<svg viewBox="0 0 12 12"><path d="M3 3l6 6" stroke="currentColor" stroke-width="1.5" stroke-linecap="round"/><path d="M9 3l-6 6" stroke="currentColor" stroke-width="1.5" stroke-linecap="round"/></svg>"#);
            let s = icon_svg_of(action);
            assert(s.subrange(52int, 52int + "currentColor"@.len()) =~= "currentColor"@);
        },
    }
}

/// Each action has a glyph of its own.
pub proof fn lemma_icons_distinct(a: TitlebarAction, b: TitlebarAction)
    requires
        a != b,
    ensures
        icon_svg_of(a) != icon_svg_of(b),
{
    reveal_strlit(r#"<svg viewBox="0 0 12 12"><rect x="1" y="5" width="10" height="2" fill="currentColor"/></svg>"#);
    reveal_strlit(r#"<svg viewBox="0 0 12 12"><rect x="2" y="2" width="8" height="8" fill="none" stroke="currentColor" stroke-width="1.5"/></svg>"#);
    reveal_strlit(r#"<svg viewBox="0 0 12 12" xmlns="http://www.w3.org/2000/svg">
                  <rect x="1.5" y="3.5" width="6.5" height="6.5" fill="none" stroke="currentColor" stroke-width="1.5"/>
                  <path d="M4 3.5 V2 H10 V8 H8.5" fill="none" stroke="currentColor" stroke-width="1.5"/>
                </svg>"#);
    reveal_strlit(r#"<svg viewBox="0 0 12 12"><path d="M3 3l6 6" stroke="currentColor" stroke-width="1.5" stroke-linecap="round"/><path d="M9 3l-6 6" stroke="currentColor" stroke-width="1.5" stroke-linecap="round"/></svg>"#);
    assert(icon_svg_of(TitlebarAction::Minimize).len() == 92);
    assert(icon_svg_of(TitlebarAction::Maximize).len() == 124);
    assert(icon_svg_of(TitlebarAction::Restore).len() == 308);
    assert(icon_svg_of(TitlebarAction::Close).len() == 200);
}


/// The background and glyph color that a button paints: Close, hovered, carries its own
/// pair; the other three share the ordinary hovered pair; at rest every button looks alike.
pub open spec fn button_colors(
    theme: TitlebarButtonTheme,
    action: TitlebarAction,
    hovering: bool,
) -> (Color, Color) {
    if hovering && action == TitlebarAction::Close {
        (theme.close_hover_background, theme.close_hover_color)
    } else if hovering {
        (theme.hover_background, theme.color)
    } else {
        (theme.background, theme.color)
    }
}

/// Background and glyph color of a button for `action` in `theme`.
pub fn colors_for(theme: &TitlebarButtonTheme, action: TitlebarAction, hovering: bool) -> (r: (
    Color,
    Color,
))
    ensures
        r == button_colors(*theme, action, hovering),
{
    let destructive = match action {
        TitlebarAction::Close => true,
        _ => false,
    };
    if hovering && destructive {
        (theme.close_hover_background, theme.close_hover_color)
    } else if hovering {
        (theme.hover_background, theme.color)
    } else {
        (theme.background, theme.color)
    }
}

/// What the pointer did to a titlebar button.
#[derive(Clone, Copy, PartialEq, Eq, Debug, Structural)]
pub enum PointerEvent {
    Enter,
    Leave,
    Down,
}

/// A button's answer to a pointer event: whether it is hovered afterwards, and whether the
/// event stops there rather than reaching the drag region around the button.
#[derive(Clone, Copy, PartialEq, Eq, Debug, Structural)]
pub struct PointerOutcome {
    pub hovering: bool,
    pub stop_propagation: bool,
}

pub open spec fn pointer_outcome(hovering: bool, event: PointerEvent) -> PointerOutcome {
    match event {
        PointerEvent::Enter => PointerOutcome { hovering: true, stop_propagation: false },
        PointerEvent::Leave => PointerOutcome { hovering: false, stop_propagation: false },
        PointerEvent::Down => PointerOutcome { hovering, stop_propagation: true },
    }
}

/// The pointer entering hovers the button, leaving unhovers it; a press is stopped at the
/// button, so it neither drags nor (pressed twice) maximizes the window around it.
pub fn on_pointer(hovering: bool, event: PointerEvent) -> (r: PointerOutcome)
    ensures
        r == pointer_outcome(hovering, event),
{
    match event {
        PointerEvent::Enter => PointerOutcome { hovering: true, stop_propagation: false },
        PointerEvent::Leave => PointerOutcome { hovering: false, stop_propagation: false },
        PointerEvent::Down => PointerOutcome { hovering, stop_propagation: true },
    }
}

/// Whether a button is hovered when it is mounted.
pub open spec fn initial_hovering_spec() -> bool {
    false
}

/// Whether a button is hovered when it is mounted: it is not, until the pointer enters.
pub fn initial_hovering() -> (r: bool)
    ensures
        r == initial_hovering_spec(),
        !r,
{
    false
}

/// Whether a button that started as `start` is hovered once `events` have reached it,
/// one after the other.
pub open spec fn hovering_after(start: bool, events: Seq<PointerEvent>) -> bool
    decreases events.len(),
{
    if events.len() == 0 {
        start
    } else {
        pointer_outcome(hovering_after(start, events.drop_last()), events.last()).hovering
    }
}

/// Whether `events` hold no press, only the pointer entering and leaving.
pub open spec fn only_enter_leave(events: Seq<PointerEvent>) -> bool {
    forall|i: int| 0 <= i < events.len() ==> #[trigger] events[i] != PointerEvent::Down
}

/// A mounted button, after any run of the pointer entering and leaving, is hovered exactly
/// when that run is not empty and its last event was the pointer entering.
pub proof fn lemma_hovered_iff_last_entered(events: Seq<PointerEvent>)
    requires
        only_enter_leave(events),
    ensures
        hovering_after(initial_hovering_spec(), events) == (events.len() > 0 && events.last()
            == PointerEvent::Enter),
    decreases events.len(),
{
    if events.len() > 0 {
        let rest = events.drop_last();
        assert forall|i: int| 0 <= i < rest.len() implies #[trigger] rest[i] != PointerEvent::Down by {
            assert(rest[i] == events[i]);
        }
        lemma_hovered_iff_last_entered(rest);
        assert(events[events.len() - 1] != PointerEvent::Down);
    }
}

/// A press anywhere in a run changes nothing: the button is hovered as it would be without it.
pub proof fn lemma_press_keeps_hovering(start: bool, events: Seq<PointerEvent>)
    ensures
        hovering_after(start, events.push(PointerEvent::Down)) == hovering_after(start, events),
{
    assert(events.push(PointerEvent::Down).drop_last() =~= events);
}

/// Titlebar button component: an action, an optional theme override and an optional
/// press handler of type `H`.
#[derive(PartialEq, Debug)]
pub struct TitlebarButton<H> {
    pub(crate) theme: Option<TitlebarButtonThemePartial>,
    pub(crate) action: TitlebarAction,
    pub(crate) on_press: Option<H>,
    key: DiffKey,
}

/// What a button draws: its box, its colors, its glyph and the handler a press reaches.
pub struct TitlebarButtonView<'a, H> {
    pub width: Size,
    pub height: Size,
    pub background: Color,
    pub color: Color,
    pub icon_svg: &'static str,
    /// Width and height of the glyph's box, each the bit pattern of its length in pixels
    /// as an `f32` (`f32::to_bits`).
    pub icon_width: u32,
    pub icon_height: u32,
    /// Whether the glyph is centred in the button.
    pub center_content: bool,
    pub on_press: Option<&'a H>,
}

/// The side of a glyph's square box, twelve pixels, as the bit pattern of the `f32`.
pub const GLYPH_SIDE_BITS: u32 = 0x4140_0000u32;

impl<H> TitlebarButton<H> {
    pub closed spec fn spec_theme(&self) -> Option<TitlebarButtonThemePartial> {
        self.theme
    }

    pub closed spec fn spec_action(&self) -> TitlebarAction {
        self.action
    }

    pub closed spec fn spec_on_press(&self) -> Option<H> {
        self.on_press
    }

    pub closed spec fn spec_key(&self) -> DiffKey {
        self.key
    }

    /// A button for `action`, with no override, no handler and no key.
    pub fn new(action: TitlebarAction) -> (r: Self)
        ensures
            r.spec_theme() == None::<TitlebarButtonThemePartial>,
            r.spec_action() == action,
            r.spec_on_press() == None::<H>,
            r.spec_key() == DiffKey::Unkeyed,
    {
        TitlebarButton { theme: None, action, on_press: None, key: DiffKey::Unkeyed }
    }

    /// The same button, calling `on_press` when pressed.
    pub fn on_press(self, on_press: H) -> (r: Self)
        ensures
            r.spec_on_press() == Some(on_press),
            r.spec_theme() == self.spec_theme(),
            r.spec_action() == self.spec_action(),
            r.spec_key() == self.spec_key(),
    {
        let mut this = self;
        this.on_press = Some(on_press);
        this
    }

    /// The same button, with `theme` laid over the registered one.
    pub fn theme(self, theme: TitlebarButtonThemePartial) -> (r: Self)
        ensures
            r.spec_theme() == Some(theme),
            r.spec_on_press() == self.spec_on_press(),
            r.spec_action() == self.spec_action(),
            r.spec_key() == self.spec_key(),
    {
        let mut this = self;
        this.theme = Some(theme);
        this
    }

    /// The button's key, to be written in place.
    pub fn write_key(&mut self) -> (k: &mut DiffKey)
        ensures
            *k == old(self).spec_key(),
            final(self).spec_key() == *final(k),
            final(self).spec_theme() == old(self).spec_theme(),
            final(self).spec_action() == old(self).spec_action(),
            final(self).spec_on_press() == old(self).spec_on_press(),
    {
        &mut self.key
    }

    /// The key the button is diffed by: its own, or `default_key` where it has none.
    pub fn render_key(&self, default_key: DiffKey) -> (r: DiffKey)
        ensures
            r == self.spec_key().spec_or(default_key),
    {
        self.key.or(default_key)
    }

    /// What the button draws, given the theme registered for titlebar buttons and whether
    /// the pointer is over it.
    pub fn render(&self, registered: &TitlebarButtonTheme, hovering: bool) -> (v:
        TitlebarButtonView<'_, H>)
        ensures
            v.width == registered.spec_resolve(self.spec_theme()).width,
            v.height == registered.spec_resolve(self.spec_theme()).height,
            (v.background, v.color) == button_colors(
                registered.spec_resolve(self.spec_theme()),
                self.spec_action(),
                hovering,
            ),
            v.icon_svg@ == icon_svg_of(self.spec_action()),
            v.icon_width == GLYPH_SIDE_BITS,
            v.icon_height == GLYPH_SIDE_BITS,
            v.center_content,
            v.on_press.is_some() == self.spec_on_press().is_some(),
            v.on_press matches Some(h) ==> self.spec_on_press() == Some(*h),
    {
        let theme = resolve_theme(registered, &self.theme);
        let (background, color) = colors_for(&theme, self.action, hovering);
        let on_press = match &self.on_press {
            Some(h) => Some(h),
            None => None,
        };
        TitlebarButtonView {
            width: theme.width,
            height: theme.height,
            background,
            color,
            icon_svg: icon_svg(self.action),
            icon_width: GLYPH_SIDE_BITS,
            icon_height: GLYPH_SIDE_BITS,
            center_content: true,
            on_press,
        }
    }
}

/// A copy of `theme`.
fn copy_theme(theme: &TitlebarButtonTheme) -> (r: TitlebarButtonTheme)
    ensures
        r == *theme,
{
    TitlebarButtonTheme {
        background: theme.background,
        hover_background: theme.hover_background,
        color: theme.color,
        close_hover_background: theme.close_hover_background,
        close_hover_color: theme.close_hover_color,
        corner_radius: theme.corner_radius,
        width: clone_size(&theme.width),
        height: clone_size(&theme.height),
    }
}

/// The theme a button wears: the registered one with the button's override laid over it.
pub fn resolve_theme(
    registered: &TitlebarButtonTheme,
    partial: &Option<TitlebarButtonThemePartial>,
) -> (r: TitlebarButtonTheme)
    ensures
        r == registered.spec_resolve(*partial),
{
    let mut theme = copy_theme(registered);
    if let Some(p) = partial {
        theme.apply_optional(p);
    }
    theme
}

/// Laying an override that sets nothing leaves a theme as it was.
pub proof fn lemma_apply_empty(theme: TitlebarButtonTheme)
    ensures
        theme.spec_apply(TitlebarButtonThemePartial::spec_empty()) == theme,
{
}

/// Laying the same override twice is laying it once.
pub proof fn lemma_apply_idempotent(theme: TitlebarButtonTheme, partial: TitlebarButtonThemePartial)
    ensures
        theme.spec_apply(partial).spec_apply(partial) == theme.spec_apply(partial),
{
}

/// An override that sets every field decides the theme alone.
pub proof fn lemma_apply_full(theme: TitlebarButtonTheme, other: TitlebarButtonTheme)
    ensures
        theme.spec_apply(TitlebarButtonThemePartial::spec_full(other)) == other,
{
}

/// Laying `first` then `second` is laying their combination, in which every field that
/// `second` sets wins and the others keep what `first` gave them.
pub proof fn lemma_apply_later_wins(
    theme: TitlebarButtonTheme,
    first: TitlebarButtonThemePartial,
    second: TitlebarButtonThemePartial,
)
    ensures
        theme.spec_apply(first).spec_apply(second) == theme.spec_apply(first.spec_then(second)),
{
}

/// At rest every titlebar button looks the same, whatever its action, tinted with `color`.
pub proof fn lemma_rest_colors_independent_of_action(
    theme: TitlebarButtonTheme,
    a: TitlebarAction,
    b: TitlebarAction,
)
    ensures
        button_colors(theme, a, false) == button_colors(theme, b, false),
        button_colors(theme, a, false) == (theme.background, theme.color),
{
}

/// Hovered, Close alone wears the close pair; minimize, maximize and restore share the
/// ordinary hovered one.
pub proof fn lemma_hover_colors(theme: TitlebarButtonTheme, a: TitlebarAction)
    ensures
        button_colors(theme, TitlebarAction::Close, true) == (
            theme.close_hover_background,
            theme.close_hover_color,
        ),
        a != TitlebarAction::Close ==> button_colors(theme, a, true) == (
            theme.hover_background,
            theme.color,
        ),
{
}

/// Entering then leaving leaves a button unhovered, leaving then entering leaves it
/// hovered, whatever it was before; a press never changes hovering and is always stopped,
/// and neither entering nor leaving is.
pub proof fn lemma_pointer_sequences(hovering: bool)
    ensures
        pointer_outcome(pointer_outcome(hovering, PointerEvent::Enter).hovering, PointerEvent::Leave).hovering
            == false,
        pointer_outcome(pointer_outcome(hovering, PointerEvent::Leave).hovering, PointerEvent::Enter).hovering
            == true,
        pointer_outcome(hovering, PointerEvent::Down).hovering == hovering,
        pointer_outcome(hovering, PointerEvent::Down).stop_propagation,
        !pointer_outcome(hovering, PointerEvent::Enter).stop_propagation,
        !pointer_outcome(hovering, PointerEvent::Leave).stop_propagation,
{
}


/// What each glyph draws, in the SVG itself: Minimize a filled bar ten pixels wide and two
/// high; Maximize one stroked eight-pixel square; Restore a stroked 6.5-pixel square with
/// the corner of a second one behind it; Close the two stroked diagonals of a cross.
/// Each of these shapes stands in its own glyph and in no other.
pub proof fn lemma_icon_shapes()
    ensures
        contains_text(icon_svg_of(TitlebarAction::Minimize), r#"<rect x="1" y="5" width="10" height="2" fill="currentColor"/>"#@),
        contains_text(icon_svg_of(TitlebarAction::Maximize), r#"<rect x="2" y="2" width="8" height="8" fill="none" stroke="currentColor""#@),
        contains_text(icon_svg_of(TitlebarAction::Restore), r#"<rect x="1.5" y="3.5" width="6.5" height="6.5" fill="none" stroke="currentColor""#@),
        contains_text(icon_svg_of(TitlebarAction::Restore), r#"<path d="M4 3.5 V2 H10 V8 H8.5" fill="none" stroke="currentColor""#@),
        contains_text(icon_svg_of(TitlebarAction::Close), r#"<path d="M3 3l6 6" stroke="currentColor""#@),
        contains_text(icon_svg_of(TitlebarAction::Close), r#"<path d="M9 3l-6 6" stroke="currentColor""#@),
{
    reveal_strlit(r#"<svg viewBox="0 0 12 12"><rect x="1" y="5" width="10" height="2" fill="currentColor"/></svg>"#);
    reveal_strlit(r#"<rect x="1" y="5" width="10" height="2" fill="currentColor"/>"#);
    assert(icon_svg_of(TitlebarAction::Minimize).subrange(25int, 25int + r#"<rect x="1" y="5" width="10" height="2" fill="currentColor"/>"#@.len()) =~= r#"<rect x="1" y="5" width="10" height="2" fill="currentColor"/>"#@);
    reveal_strlit(r#"<svg viewBox="0 0 12 12"><rect x="2" y="2" width="8" height="8" fill="none" stroke="currentColor" stroke-width="1.5"/></svg>"#);
    reveal_strlit(r#"<rect x="2" y="2" width="8" height="8" fill="none" stroke="currentColor""#);
    assert(icon_svg_of(TitlebarAction::Maximize).subrange(25int, 25int + r#"<rect x="2" y="2" width="8" height="8" fill="none" stroke="currentColor""#@.len()) =~= r#"<rect x="2" y="2" width="8" height="8" fill="none" stroke="currentColor""#@);
    reveal_strlit(r#"<svg viewBox="0 0 12 12" xmlns="http://www.w3.org/2000/svg">
                  <rect x="1.5" y="3.5" width="6.5" height="6.5" fill="none" stroke="currentColor" stroke-width="1.5"/>
                  <path d="M4 3.5 V2 H10 V8 H8.5" fill="none" stroke="currentColor" stroke-width="1.5"/>
                </svg>"#);
    reveal_strlit(r#"<rect x="1.5" y="3.5" width="6.5" height="6.5" fill="none" stroke="currentColor""#);
    assert(icon_svg_of(TitlebarAction::Restore).subrange(79int, 79int + r#"<rect x="1.5" y="3.5" width="6.5" height="6.5" fill="none" stroke="currentColor""#@.len()) =~= r#"<rect x="1.5" y="3.5" width="6.5" height="6.5" fill="none" stroke="currentColor""#@);
    reveal_strlit(r#"<path d="M4 3.5 V2 H10 V8 H8.5" fill="none" stroke="currentColor""#);
    assert(icon_svg_of(TitlebarAction::Restore).subrange(199int, 199int + r#"<path d="M4 3.5 V2 H10 V8 H8.5" fill="none" stroke="currentColor""#@.len()) =~= r#"<path d="M4 3.5 V2 H10 V8 H8.5" fill="none" stroke="currentColor""#@);
    reveal_strlit(r#"<svg viewBox="0 0 12 12"><path d="M3 3l6 6" stroke="currentColor" stroke-width="1.5" stroke-linecap="round"/><path d="M9 3l-6 6" stroke="currentColor" stroke-width="1.5" stroke-linecap="round"/></svg>"#);
    reveal_strlit(r#"<path d="M3 3l6 6" stroke="currentColor""#);
    assert(icon_svg_of(TitlebarAction::Close).subrange(25int, 25int + r#"<path d="M3 3l6 6" stroke="currentColor""#@.len()) =~= r#"<path d="M3 3l6 6" stroke="currentColor""#@);
    reveal_strlit(r#"<path d="M9 3l-6 6" stroke="currentColor""#);
    assert(icon_svg_of(TitlebarAction::Close).subrange(109int, 109int + r#"<path d="M9 3l-6 6" stroke="currentColor""#@.len()) =~= r#"<path d="M9 3l-6 6" stroke="currentColor""#@);
}


/// Resolving with an override gives the registered theme with every field that the override
/// sets replaced by the override's value and every other field kept; resolving without one
/// gives the registered theme; and resolving with an override is laying it with
/// `apply_optional`.
pub proof fn lemma_resolve_field_by_field(
    registered: TitlebarButtonTheme,
    partial: TitlebarButtonThemePartial,
)
    ensures
        registered.spec_resolve(None) == registered,
        registered.spec_resolve(Some(partial)) == registered.spec_apply(partial),
        registered.spec_resolve(Some(partial)).background == (match partial.background {
            Some(c) => c,
            None => registered.background,
        }),
        registered.spec_resolve(Some(partial)).hover_background == (
        match partial.hover_background {
            Some(c) => c,
            None => registered.hover_background,
        }),
        registered.spec_resolve(Some(partial)).color == (match partial.color {
            Some(c) => c,
            None => registered.color,
        }),
        registered.spec_resolve(Some(partial)).close_hover_background == (
        match partial.close_hover_background {
            Some(c) => c,
            None => registered.close_hover_background,
        }),
        registered.spec_resolve(Some(partial)).close_hover_color == (
        match partial.close_hover_color {
            Some(c) => c,
            None => registered.close_hover_color,
        }),
        registered.spec_resolve(Some(partial)).corner_radius == (match partial.corner_radius {
            Some(r) => r,
            None => registered.corner_radius,
        }),
        registered.spec_resolve(Some(partial)).width == (match partial.width {
            Some(w) => w,
            None => registered.width,
        }),
        registered.spec_resolve(Some(partial)).height == (match partial.height {
            Some(h) => h,
            None => registered.height,
        }),
{
}

/// A hovered button that is not Close wears the hover background of its override where the
/// override sets one, and the registered hover background otherwise.
pub proof fn lemma_override_hover_background_shows(
    registered: TitlebarButtonTheme,
    partial: TitlebarButtonThemePartial,
    action: TitlebarAction,
)
    requires
        action != TitlebarAction::Close,
    ensures
        partial.hover_background matches Some(c) ==> button_colors(
            registered.spec_resolve(Some(partial)),
            action,
            true,
        ).0 == c,
        partial.hover_background is None ==> button_colors(
            registered.spec_resolve(Some(partial)),
            action,
            true,
        ).0 == registered.hover_background,
{
}

} // verus!
