//! The state of the settings: their values, the window that shows them and the field of the background
//! colour.
use vstd::prelude::*;

use crate::config;
use crate::config::{AppConfig, RgbColor};
use crate::input_types::{Modifiers, PhysicalKey};
use crate::number;
use crate::settings;
use crate::settings::{SettingsHit, SettingsTab};
use crate::single_line_input;
use crate::single_line_input::SingleLineInput;
use crate::text;

verus! {

/// The settings, and the window that shows them.
pub struct SettingsState {
    /// The values.
    pub config: AppConfig,
    /// Whether they changed since they were saved.
    pub config_dirty: bool,
    /// Whether saving them was tried since.
    pub config_save_attempted: bool,
    /// The size of the text, as it is shown.
    pub font_value: String,
    /// The sensitivity of scrolling, as it is shown.
    pub scroll_value: String,
    /// The field of the background colour.
    pub background_input: SingleLineInput,
    /// Whether the field is edited.
    pub background_editing: bool,
    /// Whether the pointer selects in the field.
    pub background_dragging: bool,
    /// Whether the window is open.
    pub open: bool,
    /// The page that it shows.
    pub active_tab: SettingsTab,
}

/// The contents of the settings.
pub struct SettingsModel {
    pub config: AppConfig,
    pub config_dirty: bool,
    pub config_save_attempted: bool,
    pub font_value: Seq<char>,
    pub scroll_value: Seq<char>,
    pub field: single_line_input::LineModel,
    pub editing: bool,
    pub dragging: bool,
    pub open: bool,
    pub active_tab: SettingsTab,
}

impl View for SettingsState {
    type V = SettingsModel;

    open spec fn view(&self) -> SettingsModel {
        SettingsModel {
            config: self.config,
            config_dirty: self.config_dirty,
            config_save_attempted: self.config_save_attempted,
            font_value: self.font_value@,
            scroll_value: self.scroll_value@,
            field: self.background_input@,
            editing: self.background_editing,
            dragging: self.background_dragging,
            open: self.open,
            active_tab: self.active_tab,
        }
    }
}

/// What is to be done after the settings changed.
#[derive(Clone, Copy, Debug, PartialEq, Eq, Structural)]
pub struct SettingsChange {
    /// The background to draw terminals on, where it changed.
    pub background: Option<RgbColor>,
    /// The size of the text to draw terminals with, where it changed.
    pub font_size: Option<u32>,
    /// Whether to look for the shape of the pointer anew.
    pub cursor: bool,
    /// Whether to ask for a frame.
    pub frame: bool,
}

/// Nothing to be done.
pub open spec fn nothing() -> SettingsChange {
    SettingsChange { background: None, font_size: None, cursor: false, frame: false }
}

/// Nothing to be done but a frame.
pub open spec fn frame_only() -> SettingsChange {
    SettingsChange { frame: true, ..nothing() }
}

fn no_change() -> (change: SettingsChange)
    ensures
        change == nothing(),
{
    SettingsChange { background: None, font_size: None, cursor: false, frame: false }
}

/// How the size of the text is shown: without places, rounded; halves go to the even number.
pub open spec fn size_text(size: u32) -> Seq<char> {
    text::decimal(number::single_whole(size))
}

/// How the sensitivity of scrolling is shown: with two places.
pub open spec fn sensitivity_text(sensitivity: u32) -> Seq<char> {
    number::hundredths(number::single_hundredths(sensitivity))
}

fn size_value(size: u32) -> (value: String)
    requires
        number::is_medium(size),
    ensures
        value@ == size_text(size),
{
    text::decimal_text(number::single_rounded(size, 1))
}

fn sensitivity_value(sensitivity: u32) -> (value: String)
    requires
        number::is_medium(sensitivity),
    ensures
        value@ == sensitivity_text(sensitivity),
{
    let mut value = String::new();
    number::push_single(&mut value, sensitivity);
    assert(value@ =~= sensitivity_text(sensitivity));
    value
}

/// A value after a change to another: one that is no step away does not count.
pub open spec fn changed_to(value: u32, next: u32) -> u32 {
    if number::is_close(next, value) {
        value
    } else {
        next
    }
}

/// A size of the text after a click on one of its controls.
pub open spec fn size_after(size: u32, hit: SettingsHit) -> u32 {
    match hit {
        SettingsHit::FontDecrease => changed_to(
            size,
            config::size_with(size, -config::TERMINAL_FONT_SIZE_STEP),
        ),
        SettingsHit::FontIncrease => changed_to(
            size,
            config::size_with(size, config::TERMINAL_FONT_SIZE_STEP as int),
        ),
        SettingsHit::FontReset => changed_to(size, config::DEFAULT_TERMINAL_FONT_SIZE),
        _ => size,
    }
}

/// A sensitivity of scrolling after a click on one of its controls.
pub open spec fn sensitivity_after(sensitivity: u32, hit: SettingsHit) -> u32 {
    match hit {
        SettingsHit::ScrollDecrease => changed_to(
            sensitivity,
            config::sensitivity_with(sensitivity, -config::SCROLL_SENSITIVITY_STEP),
        ),
        SettingsHit::ScrollIncrease => changed_to(
            sensitivity,
            config::sensitivity_with(sensitivity, config::SCROLL_SENSITIVITY_STEP as int),
        ),
        SettingsHit::ScrollReset => changed_to(sensitivity, config::DEFAULT_SCROLL_SENSITIVITY),
        _ => sensitivity,
    }
}

impl SettingsModel {
    /// Whether the values are within their bounds and the field is a line.
    pub open spec fn wf(self) -> bool {
        self.config.wf() && self.field.wf()
    }

    /// The settings with a change that is not saved.
    pub open spec fn marked(self) -> SettingsModel {
        SettingsModel { config_dirty: true, config_save_attempted: false, ..self }
    }

    /// The settings with the size of the window, where it is another and is known.
    pub open spec fn resized(self, size: Option<(u64, u64)>) -> SettingsModel {
        match size {
            Some((width, height)) if number::is_positive(width) && number::is_positive(height) && (width
                != self.config.window_width || height != self.config.window_height) => SettingsModel {
                config: AppConfig { window_width: width, window_height: height, ..self.config },
                ..self
            }.marked(),
            _ => self,
        }
    }

    /// The settings with a background.
    pub open spec fn with_background(self, color: RgbColor) -> SettingsModel {
        SettingsModel {
            config: AppConfig { terminal_background: color, ..self.config },
            ..self
        }
    }

    /// The settings with the field as it shows the background.
    pub open spec fn with_field_reset(self) -> SettingsModel {
        SettingsModel {
            field: single_line_input::line_of(config::hex_text(self.config.terminal_background)),
            ..self
        }
    }

    /// The colour that the field writes, where it is another than the background.
    pub open spec fn draft(self) -> Option<RgbColor> {
        match config::hex_color(self.field.text) {
            Some(color) if color != self.config.terminal_background => Some(color),
            _ => None,
        }
    }

    /// The settings with the colour that the field writes.
    pub open spec fn draft_applied(self) -> SettingsModel {
        match self.draft() {
            Some(color) => self.with_background(color).marked(),
            None => self,
        }
    }

    /// The settings when editing the field is over: a colour in it is taken over, anything else goes.
    pub open spec fn edit_finished(self) -> SettingsModel {
        if self.editing {
            SettingsModel { editing: false, dragging: false, ..self.draft_applied().with_field_reset() }
        } else {
            self
        }
    }

    /// What is to be done when editing the field is over.
    pub open spec fn finishing(self) -> SettingsChange {
        if self.editing {
            SettingsChange { background: self.draft(), ..frame_only() }
        } else {
            nothing()
        }
    }

    /// The settings when their window was opened or closed.
    pub open spec fn toggled(self) -> SettingsModel {
        if self.open {
            SettingsModel { open: false, ..self.edit_finished() }
        } else {
            SettingsModel { open: true, editing: false, dragging: false, ..self.with_field_reset() }
        }
    }

    /// The settings when their window was closed.
    pub open spec fn shut(self) -> SettingsModel {
        if self.open {
            SettingsModel { open: false, dragging: false, ..self.edit_finished() }
        } else {
            self
        }
    }

    /// The settings when a text was put into the field.
    pub open spec fn typed(self, value: Seq<char>) -> SettingsModel {
        if self.editing && settings::takes(self.field, value) {
            SettingsModel { field: settings::with_hex(self.field, value), ..self }.draft_applied()
        } else {
            self
        }
    }

    /// The settings with the field after a key that does not end editing it.
    pub open spec fn keyed(
        self,
        key: PhysicalKey,
        modifiers: Modifiers,
        paste: Option<Seq<char>>,
    ) -> SettingsModel {
        SettingsModel {
            field: settings::after_editor_key(
                self.field,
                key,
                modifiers.has_control(),
                modifiers.has_shift(),
                paste,
            ),
            ..self
        }
    }

    /// The settings when the field was clicked.
    pub open spec fn field_clicked(self, cursor: int) -> SettingsModel {
        let edited = if self.editing {
            self
        } else {
            self.with_field_reset()
        };
        SettingsModel {
            field: settings::clicked(edited.field, cursor),
            editing: true,
            dragging: true,
            ..edited
        }
    }

    /// The settings after a click on a control that changes a value.
    pub open spec fn adjusted(self, hit: SettingsHit) -> SettingsModel {
        let size = size_after(self.config.terminal_font_size, hit);
        let sensitivity = sensitivity_after(self.config.scroll_sensitivity, hit);
        if size != self.config.terminal_font_size {
            SettingsModel {
                config: AppConfig { terminal_font_size: size, ..self.config },
                font_value: size_text(size),
                ..self
            }.marked()
        } else if sensitivity != self.config.scroll_sensitivity {
            SettingsModel {
                config: AppConfig { scroll_sensitivity: sensitivity, ..self.config },
                scroll_value: sensitivity_text(sensitivity),
                ..self
            }.marked()
        } else if hit is BackgroundReset {
            let color = config::default_background_color();
            if color != self.config.terminal_background {
                self.with_background(color).marked().with_field_reset()
            } else {
                self.with_field_reset()
            }
        } else {
            self
        }
    }

    /// What is to be done after a click on a control that changes a value.
    pub open spec fn adjusting(self, hit: SettingsHit) -> SettingsChange {
        let size = size_after(self.config.terminal_font_size, hit);
        if size != self.config.terminal_font_size {
            SettingsChange { font_size: Some(size), ..frame_only() }
        } else if sensitivity_after(self.config.scroll_sensitivity, hit)
            != self.config.scroll_sensitivity {
            frame_only()
        } else if hit is BackgroundReset && config::default_background_color()
            != self.config.terminal_background {
            SettingsChange {
                background: Some(config::default_background_color()),
                ..frame_only()
            }
        } else {
            nothing()
        }
    }

    /// The settings after a click.
    pub open spec fn hit(self, hit: SettingsHit) -> SettingsModel {
        let finished = self.edit_finished();
        match hit {
            SettingsHit::Outside => self.shut(),
            SettingsHit::BackgroundField => if self.editing {
                self
            } else {
                SettingsModel { editing: true, ..self.with_field_reset() }
            },
            SettingsHit::Tab(tab) => SettingsModel { active_tab: tab, ..finished },
            _ => finished.adjusted(hit),
        }
    }

    /// What is to be done after a click.
    pub open spec fn hitting(self, hit: SettingsHit) -> SettingsChange {
        let finishing = self.finishing();
        match hit {
            SettingsHit::Outside => if self.open {
                SettingsChange { cursor: true, frame: true, ..finishing }
            } else {
                nothing()
            },
            SettingsHit::BackgroundField => if self.editing {
                nothing()
            } else {
                frame_only()
            },
            SettingsHit::Tab(tab) => SettingsChange {
                frame: finishing.frame || tab != self.active_tab,
                ..finishing
            },
            _ => {
                let adjusting = self.edit_finished().adjusting(hit);
                SettingsChange {
                    background: match adjusting.background {
                        Some(color) => Some(color),
                        None => finishing.background,
                    },
                    frame: finishing.frame || adjusting.frame,
                    ..adjusting
                }
            },
        }
    }
}

/// The settings as they were loaded, with the settings window closed.
pub open spec fn unchanged(config: AppConfig) -> SettingsModel {
    SettingsModel {
        config,
        config_dirty: false,
        config_save_attempted: false,
        font_value: size_text(config.terminal_font_size),
        scroll_value: sensitivity_text(config.scroll_sensitivity),
        field: single_line_input::line_of(config::hex_text(config.terminal_background)),
        editing: false,
        dragging: false,
        open: false,
        active_tab: SettingsTab::General,
    }
}

impl SettingsState {
    /// The settings with these values, their window closed.
    pub fn from_config(config: AppConfig) -> (settings: Self)
        requires
            config.wf(),
        ensures
            settings@ == unchanged(config),
    {
        SettingsState {
            config,
            config_dirty: false,
            config_save_attempted: false,
            font_value: size_value(config.terminal_font_size),
            scroll_value: sensitivity_value(config.scroll_sensitivity),
            background_input: SingleLineInput::from_text(
                config.terminal_background.to_hex().as_str(),
            ),
            background_editing: false,
            background_dragging: false,
            open: false,
            active_tab: SettingsTab::General,
        }
    }

    /// The values changed.
    pub fn mark_config_dirty(&mut self)
        ensures
            final(self)@ == old(self)@.marked(),
    {
        self.config_dirty = true;
        self.config_save_attempted = false;
    }

    /// Takes over the size of the window, where it is known.
    pub fn take_window_size(&mut self, size: Option<(u64, u64)>)
        requires
            old(self)@.wf(),
        ensures
            final(self)@ == old(self)@.resized(size),
            final(self)@.wf(),
    {
        if let Some((width, height)) = size {
            if self.config.set_window_size(width, height) {
                self.mark_config_dirty();
            }
        }
    }

    /// Whether the values are to be saved now. They are tried once after each change.
    pub fn begin_save(&mut self) -> (save: bool)
        ensures
            save == (old(self)@.config_dirty && !old(self)@.config_save_attempted),
            final(self)@ == if save {
                SettingsModel { config_save_attempted: true, ..old(self)@ }
            } else {
                old(self)@
            },
    {
        if !self.config_dirty || self.config_save_attempted {
            return false;
        }
        self.config_save_attempted = true;
        true
    }

    /// The values were saved.
    pub fn saved(&mut self)
        ensures
            final(self)@ == (SettingsModel { config_dirty: false, ..old(self)@ }),
    {
        self.config_dirty = false;
    }

    /// Sets the background. Whether it changed.
    fn set_terminal_background(&mut self, color: RgbColor) -> (changed: bool)
        ensures
            changed == (color != old(self)@.config.terminal_background),
            final(self)@ == old(self)@.with_background(color),
    {
        if self.config.terminal_background == color {
            return false;
        }
        self.config.terminal_background = color;
        true
    }

    fn reset_field(&mut self)
        ensures
            final(self)@ == old(self)@.with_field_reset(),
    {
        self.background_input.set_text(self.config.terminal_background.to_hex().as_str());
    }

    /// Takes over the colour that the field writes. The colour, where it is another than the
    /// background was.
    pub fn apply_valid_background_draft(&mut self) -> (background: Option<RgbColor>)
        ensures
            background == old(self)@.draft(),
            final(self)@ == old(self)@.draft_applied(),
    {
        let color = match RgbColor::parse_hex(self.background_input.text.as_str()) {
            Some(color) => color,
            None => {
                return None;
            },
        };
        if self.set_terminal_background(color) {
            self.mark_config_dirty();
            Some(color)
        } else {
            None
        }
    }

    /// Ends editing the field.
    pub fn finish_background_edit(&mut self) -> (change: SettingsChange)
        requires
            old(self)@.wf(),
        ensures
            final(self)@ == old(self)@.edit_finished(),
            change == old(self)@.finishing(),
            final(self)@.wf(),
    {
        if !self.background_editing {
            return no_change();
        }
        let background = self.apply_valid_background_draft();
        self.reset_field();
        self.background_editing = false;
        self.background_dragging = false;
        SettingsChange { background, font_size: None, cursor: false, frame: true }
    }

    /// Opens or closes the window.
    pub fn toggle(&mut self) -> (change: SettingsChange)
        requires
            old(self)@.wf(),
        ensures
            final(self)@ == old(self)@.toggled(),
            change == (SettingsChange {
                background: if old(self)@.open {
                    old(self)@.finishing().background
                } else {
                    None
                },
                cursor: true,
                ..frame_only()
            }),
            final(self)@.wf(),
    {
        let mut background: Option<RgbColor> = None;
        if self.open {
            let change = self.finish_background_edit();
            background = change.background;
            self.open = false;
        } else {
            self.reset_field();
            self.background_editing = false;
            self.background_dragging = false;
            self.open = true;
        }
        SettingsChange { background, font_size: None, cursor: true, frame: true }
    }

    /// Closes the window.
    pub fn close(&mut self) -> (change: SettingsChange)
        requires
            old(self)@.wf(),
        ensures
            final(self)@ == old(self)@.shut(),
            change == old(self)@.hitting(SettingsHit::Outside),
            final(self)@.wf(),
    {
        if !self.open {
            return no_change();
        }
        let change = self.finish_background_edit();
        self.open = false;
        self.background_dragging = false;
        SettingsChange { background: change.background, font_size: None, cursor: true, frame: true }
    }

    /// Puts a text into the field.
    pub fn edit_background_text(&mut self, value: &str) -> (change: SettingsChange)
        requires
            old(self)@.wf(),
        ensures
            final(self)@ == old(self)@.typed(value@),
            change == if old(self)@.editing && settings::takes(old(self)@.field, value@) {
                SettingsChange {
                    background: (SettingsModel {
                        field: settings::with_hex(old(self)@.field, value@),
                        ..old(self)@
                    }).draft(),
                    ..frame_only()
                }
            } else {
                nothing()
            },
            final(self)@.wf(),
    {
        if !self.background_editing {
            return no_change();
        }
        if !settings::settings_hex_insert_text(&mut self.background_input, value) {
            return no_change();
        }
        let background = self.apply_valid_background_draft();
        SettingsChange { background, font_size: None, cursor: false, frame: true }
    }

    /// Gives a key to the field. The text to put into the clipboard, and what is to be done.
    pub fn handle_background_key(
        &mut self,
        key: PhysicalKey,
        modifiers: Modifiers,
        paste: Option<&str>,
    ) -> (done: (bool, Option<String>, SettingsChange))
        requires
            old(self)@.wf(),
        ensures
            final(self)@.wf(),
            ({
                let before = old(self)@;
                let keyed = before.keyed(
                    key,
                    modifiers,
                    match paste {
                        Some(paste) => Some(paste@),
                        None => None,
                    },
                );
                let finish = key == PhysicalKey::Code(crate::input_types::KeyCode::Enter) || key
                    == PhysicalKey::Code(crate::input_types::KeyCode::NumpadEnter);
                if !before.editing {
                    &&& final(self)@ == before
                    &&& !done.0
                    &&& done.1 is None
                    &&& done.2 == nothing()
                } else {
                    &&& done.0 == settings::is_editor_key(key, modifiers.has_control())
                    &&& match settings::copied(before.field, key, modifiers.has_control()) {
                        Some(copy) => done.1 is Some && done.1->0@ == copy,
                        None => done.1 is None,
                    }
                    &&& if finish {
                        final(self)@ == before.edit_finished() && done.2 == before.finishing()
                    } else if keyed.field.text != before.field.text {
                        final(self)@ == keyed.draft_applied() && done.2 == (SettingsChange {
                            background: keyed.draft(),
                            ..frame_only()
                        })
                    } else {
                        final(self)@ == keyed && done.2 == if keyed.field != before.field {
                            frame_only()
                        } else {
                            nothing()
                        }
                    }
                }
            }),
    {
        if !self.background_editing {
            return (false, None, no_change());
        }
        let outcome = settings::settings_background_editor_key(
            &mut self.background_input,
            key,
            modifiers.control_key(),
            modifiers.shift_key(),
            paste,
        );
        if outcome.finish {
            let change = self.finish_background_edit();
            return (outcome.consumed, outcome.copy_text, change);
        }
        let mut change = no_change();
        if outcome.text_changed {
            change.background = self.apply_valid_background_draft();
        }
        change.frame = outcome.visual_changed;
        (outcome.consumed, outcome.copy_text, change)
    }

    /// The field was clicked at a character.
    pub fn begin_background_pointer_edit(&mut self, cursor: usize) -> (change: SettingsChange)
        requires
            old(self)@.wf(),
        ensures
            final(self)@ == old(self)@.field_clicked(cursor as int),
            change == if final(self)@.field != (if old(self)@.editing {
                old(self)@.field
            } else {
                old(self)@.with_field_reset().field
            }) {
                frame_only()
            } else {
                nothing()
            },
            final(self)@.wf(),
    {
        if !self.background_editing {
            self.reset_field();
            self.background_editing = true;
        }
        let changed = settings::begin_settings_background_pointer_selection(
            &mut self.background_input,
            cursor,
        );
        self.background_dragging = true;
        SettingsChange { background: None, font_size: None, cursor: false, frame: changed }
    }

    /// Changes the value of a control that was clicked.
    fn adjust(&mut self, hit: SettingsHit) -> (change: SettingsChange)
        requires
            old(self)@.wf(),
        ensures
            final(self)@ == old(self)@.adjusted(hit),
            change == old(self)@.adjusting(hit),
            final(self)@.wf(),
    {
        let mut change = no_change();
        match hit {
            SettingsHit::FontDecrease | SettingsHit::FontIncrease | SettingsHit::FontReset => {
                let before: u32 = self.config.terminal_font_size;
                if hit == SettingsHit::FontDecrease {
                    self.config.adjust_terminal_font_size(-config::TERMINAL_FONT_SIZE_STEP);
                } else if hit == SettingsHit::FontIncrease {
                    self.config.adjust_terminal_font_size(config::TERMINAL_FONT_SIZE_STEP);
                } else if !number::close(before, config::DEFAULT_TERMINAL_FONT_SIZE) {
                    self.config.terminal_font_size = config::DEFAULT_TERMINAL_FONT_SIZE;
                }
                let size: u32 = self.config.terminal_font_size;
                if size != before {
                    self.font_value = size_value(size);
                    self.mark_config_dirty();
                    change.font_size = Some(size);
                    change.frame = true;
                }
            },
            SettingsHit::ScrollDecrease | SettingsHit::ScrollIncrease | SettingsHit::ScrollReset => {
                let before: u32 = self.config.scroll_sensitivity;
                if hit == SettingsHit::ScrollDecrease {
                    self.config.adjust_scroll_sensitivity(-config::SCROLL_SENSITIVITY_STEP);
                } else if hit == SettingsHit::ScrollIncrease {
                    self.config.adjust_scroll_sensitivity(config::SCROLL_SENSITIVITY_STEP);
                } else if !number::close(before, config::DEFAULT_SCROLL_SENSITIVITY) {
                    self.config.scroll_sensitivity = config::DEFAULT_SCROLL_SENSITIVITY;
                }
                let sensitivity: u32 = self.config.scroll_sensitivity;
                if sensitivity != before {
                    self.scroll_value = sensitivity_value(sensitivity);
                    self.mark_config_dirty();
                    change.frame = true;
                }
            },
            SettingsHit::BackgroundReset => {
                let color = RgbColor::default_background();
                if self.set_terminal_background(color) {
                    self.mark_config_dirty();
                    change.background = Some(color);
                    change.frame = true;
                }
                self.reset_field();
            },
            _ => {},
        }
        change
    }

    /// Does what a click in the settings is for.
    pub fn apply_hit(&mut self, hit: SettingsHit) -> (change: SettingsChange)
        requires
            old(self)@.wf(),
        ensures
            final(self)@ == old(self)@.hit(hit),
            change == old(self)@.hitting(hit),
            final(self)@.wf(),
    {
        match hit {
            SettingsHit::Outside => {
                return self.close();
            },
            SettingsHit::BackgroundField => {
                if self.background_editing {
                    return no_change();
                }
                self.reset_field();
                self.background_editing = true;
                return SettingsChange {
                    background: None,
                    font_size: None,
                    cursor: false,
                    frame: true,
                };
            },
            _ => {},
        }
        let finished = self.finish_background_edit();
        if let SettingsHit::Tab(tab) = hit {
            let mut change = finished;
            if self.active_tab != tab {
                self.active_tab = tab;
                change.frame = true;
            }
            return change;
        }
        let mut change = self.adjust(hit);
        if change.background.is_none() {
            change.background = finished.background;
        }
        change.frame = change.frame || finished.frame;
        change
    }
}

/// A click changes no value but that of its control, and one that is for no control changes none,
/// unless it ends editing the field.
pub proof fn controls_change_their_own_value(before: SettingsModel, hit: SettingsHit)
    requires
        !before.editing,
    ensures
        ({
            let config = before.hit(hit).config;
            match hit {
                SettingsHit::FontDecrease | SettingsHit::FontIncrease | SettingsHit::FontReset => config
                    == (AppConfig { terminal_font_size: config.terminal_font_size, ..before.config }),
                SettingsHit::ScrollDecrease
                | SettingsHit::ScrollIncrease
                | SettingsHit::ScrollReset => config == (AppConfig {
                    scroll_sensitivity: config.scroll_sensitivity,
                    ..before.config
                }),
                SettingsHit::BackgroundReset => config == before.with_background(
                    config::default_background_color(),
                ).config,
                _ => config == before.config,
            }
        }),
        before.hit(hit).config_dirty == (before.config_dirty || before.hit(hit).config
            != before.config),
{
}

/// Only a whole colour in the field becomes the background, and once editing is over the field shows
/// the background.
pub proof fn drafts_are_taken_over_whole(before: SettingsModel)
    ensures
        config::hex_color(before.field.text) is None ==> before.draft_applied() == before,
        config::hex_color(before.field.text) matches Some(color)
            ==> before.draft_applied().config.terminal_background == color,
        before.editing ==> {
            let after = before.edit_finished();
            &&& !after.editing
            &&& after.field == single_line_input::line_of(
                config::hex_text(after.config.terminal_background),
            )
            &&& after.draft() is None
        },
{
    let after = before.edit_finished();
    config::color_round_trips(after.config.terminal_background);
}

/// To open the settings and close them again changes no value.
pub proof fn looking_changes_nothing(before: SettingsModel)
    requires
        !before.open,
    ensures
        before.toggled().open,
        !before.toggled().toggled().open,
        before.toggled().toggled().config == before.config,
        before.toggled().shut().config == before.config,
        before.toggled().toggled().config_dirty == before.config_dirty,
{
}

} // verus!
