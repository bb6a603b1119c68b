use widget_theme::application::{Application, ApplicationAppearance};
use widget_theme::button::{Button, ButtonAppearance, ButtonState};
use widget_theme::checkbox::{CheckBox, CheckBoxState};
use widget_theme::container::Container;
use widget_theme::pick_list::{PickList, PickListState};
use widget_theme::scrollable::{Scrollable, ScrollableState};
use widget_theme::text::{Text, TextAppearance};
use widget_theme::text_input::{TextInput, TextInputState};
use widget_theme::{Color, ColorGroup, Palette, Theme};

fn rgba(r: u8, g: u8, b: u8, a: u8) -> Color {
    Color::new(r, g, b, a)
}

fn sample_palette() -> Palette {
    Palette {
        base: ColorGroup {
            background: rgba(10, 10, 12, 100),
            foreground: rgba(16, 18, 20, 100),
            primary: rgba(22, 24, 26, 100),
            secondary: rgba(28, 30, 32, 100),
            error: rgba(34, 36, 38, 100),
            surface: rgba(40, 42, 44, 100),
        },
        normal: ColorGroup {
            background: rgba(12, 14, 16, 100),
            primary: rgba(50, 50, 90, 100),
            foreground: rgba(46, 48, 50, 100),
            secondary: rgba(52, 54, 56, 100),
            error: rgba(58, 60, 62, 100),
            surface: rgba(64, 66, 68, 100),
        },
        bright: ColorGroup {
            background: rgba(14, 16, 18, 100),
            foreground: rgba(70, 72, 74, 100),
            primary: rgba(20, 60, 100, 100),
            secondary: rgba(76, 78, 80, 100),
            error: rgba(82, 84, 86, 100),
            surface: rgba(88, 90, 92, 100),
        },
    }
}

fn all_buttons() -> Vec<Button> {
    vec![
        Button::Primary,
        Button::Unavailable,
        Button::SelfUpdate,
        Button::Refresh,
        Button::UninstallPackage,
        Button::RestorePackage,
        Button::NormalPackage,
        Button::SelectedPackage,
    ]
}

fn all_button_states() -> Vec<ButtonState> {
    vec![
        ButtonState::Active,
        ButtonState::Hovered,
        ButtonState::Pressed,
        ButtonState::Disabled,
    ]
}

#[test]
fn button_resolution_covers_every_pair() {
    let theme = Theme::new(sample_palette());
    for style in all_buttons() {
        for state in all_button_states() {
            let appearance = theme.button_resolve(style, state);
            assert!(appearance.text_color.a <= 100);
        }
    }
}

#[test]
fn resolution_is_deterministic_and_idempotent() {
    let theme = Theme::new(sample_palette());
    for style in all_buttons() {
        for state in all_button_states() {
            assert_eq!(
                theme.button_resolve(style, state),
                theme.button_resolve(style, state)
            );
        }
    }
    assert_eq!(
        theme.container_appearance(Container::Description),
        theme.container_appearance(Container::Description)
    );
    assert_eq!(
        theme.checkbox_resolve(CheckBox::PackageEnabled, CheckBoxState::Hovered, true),
        theme.checkbox_resolve(CheckBox::PackageEnabled, CheckBoxState::Hovered, true)
    );
    assert_eq!(
        theme.text_input_resolve(TextInput::Base, TextInputState::Focused),
        theme.text_input_resolve(TextInput::Base, TextInputState::Focused)
    );
}

#[test]
fn resolution_leaves_the_theme_unchanged() {
    let theme = Theme::new(sample_palette());
    let before = theme;
    for style in all_buttons() {
        for state in all_button_states() {
            let _ = theme.button_resolve(style, state);
        }
    }
    let _ = theme.application_appearance(Application::Default);
    let _ = theme.menu_appearance();
    let _ = theme.pick_list_resolve(PickList::Base, PickListState::Hovered);
    assert_eq!(theme, before);
}

#[test]
fn button_pressed_matches_active_for_every_variant() {
    let theme = Theme::new(sample_palette());
    for style in all_buttons() {
        assert_eq!(theme.button_pressed(style), theme.button_active(style));
    }
}

#[test]
fn button_disabled_matches_active_except_package_actions() {
    let theme = Theme::new(sample_palette());
    for style in all_buttons() {
        let disabled = theme.button_disabled(style);
        if style == Button::RestorePackage || style == Button::UninstallPackage {
            assert_ne!(disabled, theme.button_active(style));
        } else {
            assert_eq!(disabled, theme.button_active(style));
        }
    }
}

#[test]
fn button_disabled_muted_alphas_are_exact() {
    let palette = sample_palette();
    let theme = Theme::new(palette);

    let restore = theme.button_disabled(Button::RestorePackage);
    assert_eq!(restore.background, Some(palette.normal.primary.with_alpha(5)));
    assert_eq!(restore.text_color, palette.bright.primary.with_alpha(50));

    let uninstall = theme.button_disabled(Button::UninstallPackage);
    assert_eq!(
        uninstall.background,
        Some(palette.bright.error.with_alpha(1))
    );
    assert_eq!(uninstall.text_color, palette.bright.error.with_alpha(50));
}

#[test]
fn button_hovered_keeps_the_border_fields() {
    let theme = Theme::new(sample_palette());
    for style in all_buttons() {
        let active = theme.button_active(style);
        let hovered = theme.button_hovered(style);
        assert_eq!(hovered.border_color, active.border_color);
        assert_eq!(hovered.border_width, active.border_width);
        assert_eq!(hovered.border_radius, active.border_radius);
    }
}

#[test]
fn selected_package_is_unchanged_on_hover() {
    let theme = Theme::new(sample_palette());
    assert_eq!(
        theme.button_hovered(Button::SelectedPackage),
        theme.button_active(Button::SelectedPackage)
    );
}

#[test]
fn primary_active_scenario() {
    let mut palette = sample_palette();
    palette.bright.primary = rgba(20, 60, 100, 100);
    let theme = Theme::new(palette);

    let appearance = theme.button_resolve(Button::Primary, ButtonState::Active);
    assert_eq!(
        appearance,
        ButtonAppearance {
            background: Some(rgba(20, 60, 100, 100)),
            text_color: rgba(20, 60, 100, 100),
            border_color: rgba(20, 60, 100, 50),
            border_width: 100,
            border_radius: 200,
        }
    );
}

#[test]
fn selected_package_active_scenario() {
    let mut palette = sample_palette();
    palette.normal.primary = rgba(50, 50, 90, 100);
    let theme = Theme::new(palette);

    let appearance = theme.button_resolve(Button::SelectedPackage, ButtonState::Active);
    assert_eq!(appearance.background, Some(rgba(50, 50, 90, 25)));
    assert_eq!(appearance.border_color, rgba(50, 50, 90, 100));
    assert_eq!(appearance.border_radius, 500);
    assert_eq!(appearance.border_width, 0);
    assert_eq!(appearance.text_color, palette.bright.primary);
}

#[test]
fn retheming_resolves_against_the_new_palette() {
    let first = sample_palette();
    let mut second = sample_palette();
    second.bright.primary = rgba(90, 10, 10, 100);

    let before = Theme::new(first).button_resolve(Button::Primary, ButtonState::Active);
    let after = Theme::new(second).button_resolve(Button::Primary, ButtonState::Active);

    assert_ne!(before, after);
    assert_eq!(after.background, Some(rgba(90, 10, 10, 100)));
    assert_eq!(after.border_color, rgba(90, 10, 10, 50));
}

#[test]
fn scrollable_states_all_match_active() {
    let theme = Theme::new(sample_palette());
    for style in [Scrollable::Description, Scrollable::Packages] {
        let active = theme.scrollable_active(style);
        assert_eq!(theme.scrollable_hovered(style), active);
        assert_eq!(theme.scrollable_dragging(style), active);
        for state in [
            ScrollableState::Active,
            ScrollableState::Hovered,
            ScrollableState::Dragging,
        ] {
            assert_eq!(theme.scrollable_resolve(style, state), active);
        }
    }
}

#[test]
fn scrollable_variants_differ_in_fill_and_scroller_radius() {
    let palette = sample_palette();
    let theme = Theme::new(palette);

    let description = theme.scrollable_active(Scrollable::Description);
    assert_eq!(description.background, Some(palette.base.foreground));
    assert_eq!(description.border_radius, 500);
    assert_eq!(description.scroller.border_radius, 0);

    let packages = theme.scrollable_active(Scrollable::Packages);
    assert_eq!(packages.background, Some(palette.base.background));
    assert_eq!(packages.border_radius, 0);
    assert_eq!(packages.scroller.border_radius, 200);
    assert_eq!(packages.scroller.color, palette.base.foreground);
}

#[test]
fn checkbox_disabled_variants_show_no_hover_feedback() {
    let theme = Theme::new(sample_palette());
    for style in [CheckBox::PackageDisabled, CheckBox::SettingsDisabled] {
        assert_eq!(
            theme.checkbox_hovered(style, false),
            theme.checkbox_active(style, false)
        );
    }
    for style in [CheckBox::PackageEnabled, CheckBox::SettingsEnabled] {
        assert_ne!(
            theme.checkbox_hovered(style, false),
            theme.checkbox_active(style, false)
        );
    }
}

#[test]
fn checkbox_appearance_ignores_the_checked_flag() {
    let theme = Theme::new(sample_palette());
    for style in [
        CheckBox::PackageEnabled,
        CheckBox::PackageDisabled,
        CheckBox::SettingsEnabled,
        CheckBox::SettingsDisabled,
    ] {
        assert_eq!(
            theme.checkbox_active(style, true),
            theme.checkbox_active(style, false)
        );
        assert_eq!(
            theme.checkbox_hovered(style, true),
            theme.checkbox_hovered(style, false)
        );
    }
}

#[test]
fn checkbox_package_disabled_background_alpha() {
    let palette = sample_palette();
    let theme = Theme::new(palette);
    let appearance = theme.checkbox_active(CheckBox::PackageDisabled, false);
    assert_eq!(appearance.background, palette.base.background.with_alpha(55));
    assert_eq!(appearance.border_width, 0);
    assert_eq!(appearance.text_color, Some(palette.normal.primary));
}

#[test]
fn text_input_hovered_matches_focused() {
    let theme = Theme::new(sample_palette());
    assert_eq!(
        theme.text_input_hovered(TextInput::Base),
        theme.text_input_focused(TextInput::Base)
    );
    assert_eq!(
        theme.text_input_resolve(TextInput::Base, TextInputState::Hovered),
        theme.text_input_resolve(TextInput::Base, TextInputState::Focused)
    );
}

#[test]
fn text_input_active_and_focused_differ_in_border_only_plus_radius() {
    let palette = sample_palette();
    let theme = Theme::new(palette);

    let active = theme.text_input_active(TextInput::Base);
    assert_eq!(active.background, palette.base.foreground);
    assert_eq!(active.border_width, 0);
    assert_eq!(active.border_color, palette.base.foreground);
    assert_eq!(active.border_radius, 500);

    let focused = theme.text_input_focused(TextInput::Base);
    assert_eq!(focused.background, palette.base.foreground);
    assert_eq!(focused.border_width, 100);
    assert_eq!(focused.border_color, palette.normal.primary.with_alpha(50));
    assert_eq!(focused.border_radius, 200);
}

#[test]
fn text_input_fixed_colors() {
    let palette = sample_palette();
    let theme = Theme::new(palette);
    assert_eq!(theme.placeholder_color(TextInput::Base), palette.normal.surface);
    assert_eq!(theme.value_color(TextInput::Base), palette.bright.primary);
    assert_eq!(theme.selection_color(TextInput::Base), palette.bright.secondary);
}

#[test]
fn pick_list_hover_changes_only_the_text_color() {
    let palette = sample_palette();
    let theme = Theme::new(palette);

    let active = theme.pick_list_active(PickList::Base);
    let hovered = theme.pick_list_hovered(PickList::Base);

    assert_eq!(hovered.text_color, palette.bright.primary);
    assert_ne!(hovered.text_color, active.text_color);
    assert_eq!(hovered.background, active.background);
    assert_eq!(hovered.border_width, active.border_width);
    assert_eq!(hovered.border_color, active.border_color);
    assert_eq!(hovered.border_radius, active.border_radius);
    assert_eq!(hovered.icon_size, active.icon_size);
    assert_eq!(hovered.placeholder_color, active.placeholder_color);
}

#[test]
fn pick_list_active_fields() {
    let palette = sample_palette();
    let theme = Theme::new(palette);
    let active = theme.pick_list_resolve(PickList::Base, PickListState::Active);
    assert_eq!(active.text_color, palette.bright.surface);
    assert_eq!(active.background, palette.base.background);
    assert_eq!(active.border_width, 100);
    assert_eq!(active.border_color, palette.normal.primary.with_alpha(50));
    assert_eq!(active.border_radius, 200);
    assert_eq!(active.icon_size, 50);
    assert_eq!(active.placeholder_color, palette.bright.surface);
}

#[test]
fn menu_appearance_fields() {
    let palette = sample_palette();
    let theme = Theme::new(palette);
    let menu = theme.menu_appearance();
    assert_eq!(menu.text_color, palette.base.foreground);
    assert_eq!(menu.background, palette.base.background);
    assert_eq!(menu.border_width, 100);
    assert_eq!(menu.border_color, palette.base.background);
    assert_eq!(menu.selected_text_color, palette.base.foreground);
    assert_eq!(menu.selected_background, palette.base.foreground);
}

#[test]
fn container_variant_mappings() {
    let palette = sample_palette();
    let theme = Theme::new(palette);

    let content = theme.container_appearance(Container::Content);
    assert_eq!(content.background, Some(palette.base.background));
    assert_eq!(content.text_color, Some(palette.bright.surface));
    assert_eq!(content.border_radius, 0);
    assert_eq!(content.border_width, 0);

    let navigation = theme.container_appearance(Container::Navigation);
    assert_eq!(navigation.background, Some(palette.base.foreground));
    assert_eq!(navigation.text_color, Some(palette.bright.surface));

    let description = theme.container_appearance(Container::Description);
    assert_eq!(description.background, Some(palette.base.foreground));
    assert_eq!(description.border_radius, 500);
    assert_eq!(description.border_width, 0);
    assert_eq!(description.border_color, palette.base.background);
}

#[test]
fn application_appearance_uses_the_base_roles() {
    let palette = sample_palette();
    let theme = Theme::new(palette);
    assert_eq!(
        theme.application_appearance(Application::Default),
        ApplicationAppearance {
            background_color: palette.base.background,
            text_color: palette.base.foreground,
        }
    );
}

#[test]
fn text_appearance_mappings() {
    let theme = Theme::new(sample_palette());
    assert_eq!(
        theme.text_appearance(Text::Default),
        TextAppearance { color: None }
    );
    let c = rgba(1, 2, 3, 100);
    assert_eq!(
        theme.text_appearance(Text::Color(c)),
        TextAppearance { color: Some(c) }
    );
}

#[test]
fn text_from_color() {
    let c = rgba(7, 8, 9, 100);
    assert_eq!(Text::from(c), Text::Color(c));
}

#[test]
fn default_variants() {
    assert_eq!(Application::default(), Application::Default);
    assert_eq!(Container::default(), Container::Content);
    assert_eq!(Button::default(), Button::Primary);
    assert_eq!(Scrollable::default(), Scrollable::Description);
    assert_eq!(CheckBox::default(), CheckBox::PackageEnabled);
    assert_eq!(TextInput::default(), TextInput::Base);
    assert_eq!(PickList::default(), PickList::Base);
    assert_eq!(Text::default(), Text::Default);
}

#[test]
fn with_alpha_replaces_only_the_alpha_channel() {
    let c = rgba(20, 60, 100, 100);
    assert_eq!(c.with_alpha(0), rgba(20, 60, 100, 0));
    assert_eq!(c.with_alpha(100), c);
    assert_eq!(Color::transparent(), rgba(0, 0, 0, 0));
}

#[test]
fn extreme_channel_values_resolve() {
    let zero = rgba(0, 0, 0, 0);
    let full = rgba(100, 100, 100, 100);
    let group = ColorGroup {
        background: zero,
        foreground: full,
        primary: zero,
        secondary: full,
        error: zero,
        surface: full,
    };
    let theme = Theme::new(Palette { base: group, normal: group, bright: group });
    for style in all_buttons() {
        for state in all_button_states() {
            let appearance = theme.button_resolve(style, state);
            assert!(appearance.border_width == 0 || appearance.border_width == 100);
        }
    }
}
