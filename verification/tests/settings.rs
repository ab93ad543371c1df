//! The dialog of settings.
use ronsole::settings::{
    settings_help_entry, settings_hex_insert_text, settings_hit, settings_tab_title,
    settings_tabs, SettingsHelpEntry, SettingsHit, SettingsRegions, SettingsTab,
    SETTINGS_FONT_LABEL, SETTINGS_HELP_ENTRY_COUNT, SETTINGS_SCROLL_LABEL, SETTINGS_TITLE,
};
use ronsole::single_line_input::SingleLineInput;

#[test]
fn settings_static_labels_and_help_shortcuts_are_russian_and_app_owned() {
    assert_eq!(SETTINGS_TITLE, "Настройки");
    let tabs: Vec<(SettingsTab, &str)> =
        settings_tabs().into_iter().map(|tab| (tab, settings_tab_title(tab))).collect();
    assert_eq!(
        tabs,
        [(SettingsTab::General, "Основные"), (SettingsTab::Help, "Помощь")],
    );
    assert_eq!(SETTINGS_FONT_LABEL, "Размер шрифта");
    assert_eq!(SETTINGS_SCROLL_LABEL, "Чувствительность прокрутки");
    let entries: Vec<SettingsHelpEntry> =
        (0..SETTINGS_HELP_ENTRY_COUNT).map(|index| settings_help_entry(index).unwrap()).collect();
    assert_eq!(
        entries,
        [
            SettingsHelpEntry { shortcut: "F1", description: "Открыть/закрыть настройки" },
            SettingsHelpEntry { shortcut: "Ctrl + Shift + T", description: "Новая вкладка" },
            SettingsHelpEntry { shortcut: "Ctrl + 4", description: "Закрыть текущую вкладку" },
            SettingsHelpEntry { shortcut: "Ctrl + F", description: "Поиск в терминале" },
            SettingsHelpEntry {
                shortcut: "Esc",
                description: "Закрыть настройки или активный поиск",
            },
        ],
    );
    assert_eq!(settings_help_entry(SETTINGS_HELP_ENTRY_COUNT), None);
}

fn regions() -> SettingsRegions {
    SettingsRegions {
        general_tab: false,
        help_tab: false,
        font_minus: false,
        font_plus: false,
        scroll_minus: false,
        scroll_plus: false,
    }
}

#[test]
fn first_region_under_the_pointer_is_hit() {
    assert_eq!(settings_hit(&regions()), SettingsHit::Blank);
    assert_eq!(
        settings_hit(&SettingsRegions { general_tab: true, font_plus: true, ..regions() }),
        SettingsHit::Tab(SettingsTab::General)
    );
    assert_eq!(
        settings_hit(&SettingsRegions { help_tab: true, ..regions() }),
        SettingsHit::Tab(SettingsTab::Help)
    );
    assert_eq!(
        settings_hit(&SettingsRegions { font_minus: true, ..regions() }),
        SettingsHit::FontDecrease
    );
    assert_eq!(
        settings_hit(&SettingsRegions { font_plus: true, scroll_plus: true, ..regions() }),
        SettingsHit::FontIncrease
    );
    assert_eq!(
        settings_hit(&SettingsRegions { scroll_minus: true, ..regions() }),
        SettingsHit::ScrollDecrease
    );
    assert_eq!(
        settings_hit(&SettingsRegions { scroll_plus: true, ..regions() }),
        SettingsHit::ScrollIncrease
    );
}

#[test]
fn field_takes_hexadecimal_digits_up_to_its_length() {
    let mut input = SingleLineInput::from_text("#12");
    assert!(settings_hex_insert_text(&mut input, "ab"));
    assert_eq!(input.text, "#12AB");
    assert!(!settings_hex_insert_text(&mut input, "xyz"));
    assert!(!settings_hex_insert_text(&mut input, "123"));
    assert_eq!(input.text, "#12AB");
    assert!(!settings_hex_insert_text(&mut input, ""));
}
