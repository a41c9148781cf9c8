//! What the keys do in the parameter form and in the other modes of the
//! terminal interface.

use crate::form::{parameter_at, preset_applied, FormView, ParamFormState};
use crate::models::{GlobalScript, ScriptParamType};
use crate::pairs::{position_of, set_value};
use crate::text::{chars_of, text_of};
use vstd::prelude::*;

verus! {

/// A key that the user pressed.
#[derive(Clone, Copy, Debug, PartialEq, Eq, Structural)]
pub enum Key {
    Char(char),
    Up,
    Down,
    Left,
    Right,
    Home,
    End,
    Enter,
    Esc,
    Tab,
    BackTab,
    Backspace,
    Delete,
    Other,
}

/// What a key in the parameter form asks of the application.
#[derive(Clone, Copy, Debug, PartialEq, Eq, Structural)]
pub enum FormOutcome {
    /// The form stays open.
    Stay,
    /// The form is closed without running the script.
    Cancel,
    /// The form is closed and the script is run.
    Confirm,
}

/// The form after a key while the list of presets is open, given the number
/// of presets. The key Enter is not handled here.
pub open spec fn picker_moved(form: FormView, key: Key, preset_count: int) -> FormView {
    match key {
        Key::Esc | Key::Char('q') | Key::Char('p') => FormView { picking_preset: false, ..form },
        Key::Char('j') | Key::Down => if form.preset_index + 1 < preset_count {
            FormView { preset_index: form.preset_index + 1, ..form }
        } else {
            form
        },
        Key::Char('k') | Key::Up => if form.preset_index > 0 {
            FormView { preset_index: form.preset_index - 1, ..form }
        } else {
            form
        },
        _ => form,
    }
}

/// The text of the field that has the focus: the extra arguments, or the
/// value of the focused parameter, empty where it has none.
pub open spec fn field_text(form: FormView) -> Seq<char> {
    if form.focused == form.names.len() {
        form.extra_args
    } else if 0 <= form.focused < form.names.len() && form.values.contains_key(
        form.names[form.focused],
    ) {
        form.values[form.names[form.focused]]
    } else {
        seq![]
    }
}

/// The form with `text` in the field that has the focus. Where no field
/// has, the form stays as it is.
pub open spec fn with_field_text(form: FormView, text: Seq<char>) -> FormView {
    if form.focused == form.names.len() {
        FormView { extra_args: text, ..form }
    } else if 0 <= form.focused < form.names.len() {
        FormView { values: form.values.insert(form.names[form.focused], text), ..form }
    } else {
        form
    }
}

/// The form after a key while a field is being edited. The cursor counts
/// characters. Escape and Enter end the editing; the arrows, Home and End
/// move the cursor within the text; Backspace removes the character before
/// the cursor and Delete the one under it; any other character is put in at
/// the cursor, or at the end of the text where the cursor is beyond it.
pub open spec fn edited(form: FormView, key: Key) -> FormView {
    let text = field_text(form);
    let cursor = form.cursor_pos;
    match key {
        Key::Esc | Key::Enter => FormView { editing: false, ..form },
        Key::Left => if cursor > 0 {
            FormView { cursor_pos: cursor - 1, ..form }
        } else {
            form
        },
        Key::Right => if cursor < text.len() {
            FormView { cursor_pos: cursor + 1, ..form }
        } else {
            form
        },
        Key::Home => FormView { cursor_pos: 0, ..form },
        Key::End => FormView { cursor_pos: text.len() as int, ..form },
        Key::Backspace => if cursor > 0 {
            let moved = FormView { cursor_pos: cursor - 1, ..form };
            if cursor - 1 < text.len() {
                with_field_text(moved, text.remove(cursor - 1))
            } else {
                moved
            }
        } else {
            form
        },
        Key::Delete => if cursor < text.len() {
            with_field_text(form, text.remove(cursor))
        } else {
            form
        },
        Key::Char(c) => {
            let at = if cursor < text.len() {
                cursor
            } else {
                text.len() as int
            };
            with_field_text(
                FormView {
                    cursor_pos: if cursor < usize::MAX {
                        cursor + 1
                    } else {
                        cursor
                    },
                    ..form
                },
                text.insert(at, c),
            )
        },
        _ => form,
    }
}

impl ParamFormState {
    fn field_chars(&self) -> (text: Vec<char>)
        ensures
            text@ == field_text(self@),
    {
        if self.focused == self.param_names.len() {
            chars_of(self.extra_args.as_str())
        } else if self.focused < self.param_names.len() {
            assert(self@.names[self.focused as int] == self.param_names@[self.focused as int]@);
            match position_of(&self.values, self.param_names[self.focused].as_str()) {
                Some(at) => chars_of(self.values[at].1.as_str()),
                None => Vec::new(),
            }
        } else {
            Vec::new()
        }
    }

    fn set_field(&mut self, text: &Vec<char>)
        ensures
            final(self).script == old(self).script,
            final(self)@ == with_field_text(old(self)@, text@),
    {
        if self.focused == self.param_names.len() {
            self.extra_args = text_of(text);
        } else if self.focused < self.param_names.len() {
            assert(self@.names[self.focused as int] == self.param_names@[self.focused as int]@);
            let name = self.param_names[self.focused].clone();
            let ghost before = self.values@;
            let value = text_of(text);
            set_value(&mut self.values, name.as_str(), value);
            assert(crate::pairs::text_map(self.values@) =~= crate::pairs::text_map(before).insert(
                name@,
                text@,
            ));
        }
    }

    /// Handles a key while the list of presets is open.
    pub fn picker_key(&mut self, key: Key)
        ensures
            final(self).script == old(self).script,
            key != Key::Enter ==> final(self)@ == picker_moved(
                old(self)@,
                key,
                old(self).script.parameter_presets@.len() as int,
            ),
            key == Key::Enter ==> final(self)@ == preset_applied(
                old(self).script,
                old(self)@,
                old(self).preset_index as int,
            ),
    {
        let count = self.script.parameter_presets.len();
        match key {
            Key::Esc | Key::Char('q') | Key::Char('p') => {
                self.picking_preset = false;
            },
            Key::Char('j') | Key::Down => {
                if self.preset_index < count && self.preset_index + 1 < count {
                    self.preset_index += 1;
                }
            },
            Key::Char('k') | Key::Up => {
                if self.preset_index > 0 {
                    self.preset_index -= 1;
                }
            },
            Key::Enter => {
                let index = self.preset_index;
                self.apply_preset(index);
            },
            _ => {},
        }
    }

    /// Handles a key while a field is being edited.
    pub fn edit_key(&mut self, key: Key)
        ensures
            final(self).script == old(self).script,
            final(self)@ == edited(old(self)@, key),
    {
        match key {
            Key::Esc | Key::Enter => {
                self.editing = false;
            },
            Key::Left => {
                if self.cursor_pos > 0 {
                    self.cursor_pos -= 1;
                }
            },
            Key::Right => {
                let text = self.field_chars();
                if self.cursor_pos < text.len() {
                    self.cursor_pos += 1;
                }
            },
            Key::Home => {
                self.cursor_pos = 0;
            },
            Key::End => {
                let text = self.field_chars();
                self.cursor_pos = text.len();
            },
            Key::Backspace => {
                if self.cursor_pos > 0 {
                    let mut text = self.field_chars();
                    self.cursor_pos -= 1;
                    if self.cursor_pos < text.len() {
                        text.remove(self.cursor_pos);
                        self.set_field(&text);
                    }
                }
            },
            Key::Delete => {
                let mut text = self.field_chars();
                if self.cursor_pos < text.len() {
                    text.remove(self.cursor_pos);
                    self.set_field(&text);
                }
            },
            Key::Char(c) => {
                let mut text = self.field_chars();
                let at = if self.cursor_pos < text.len() {
                    self.cursor_pos
                } else {
                    text.len()
                };
                text.insert(at, c);
                if self.cursor_pos < usize::MAX {
                    self.cursor_pos += 1;
                }
                self.set_field(&text);
            },
            _ => {},
        }
    }

    /// Handles a key while the form is neither editing nor picking.
    pub fn navigate_key(&mut self, key: Key) -> (outcome: FormOutcome)
        ensures
            final(self).script == old(self).script,
            final(self)@ == navigated(old(self).script, old(self)@, key).0,
            outcome == navigated(old(self).script, old(self)@, key).1,
    {
        let extra = self.focused == self.param_names.len();
        match key {
            Key::Esc | Key::Char('q') => {
                return FormOutcome::Cancel;
            },
            Key::Char('x') => {
                return FormOutcome::Confirm;
            },
            Key::Char('p') => {
                if self.script.parameter_presets.len() > 0 {
                    self.picking_preset = true;
                    self.preset_index = 0;
                }
            },
            Key::Char('j') | Key::Down | Key::Tab => {
                self.move_down();
            },
            Key::Char('k') | Key::Up | Key::BackTab => {
                self.move_up();
            },
            Key::Char(' ') => {
                if extra {
                    let text = self.field_chars();
                    self.cursor_pos = text.len();
                    self.editing = true;
                } else {
                    self.toggle_focused();
                }
            },
            Key::Enter => {
                if extra {
                    let text = self.field_chars();
                    self.cursor_pos = text.len();
                    self.editing = true;
                } else if self.focused < self.param_names.len() {
                    assert(self@.names[self.focused as int] == self.param_names@[self.focused as int]@);
                    let name = self.param_names[self.focused].clone();
                    match first_parameter(&self.script, name.as_str()) {
                        Some(at) => {
                            let is_bool = match self.script.parameters[at].param_type {
                                ScriptParamType::Bool => true,
                                _ => false,
                            };
                            if is_bool {
                                self.toggle_bool();
                                set_value(&mut self.enabled, name.as_str(), true);
                            } else {
                                let text = self.field_chars();
                                self.cursor_pos = text.len();
                                set_value(&mut self.enabled, name.as_str(), true);
                                self.editing = true;
                            }
                        },
                        None => {},
                    }
                }
            },
            _ => {},
        }
        FormOutcome::Stay
    }
}

fn first_parameter(script: &GlobalScript, name: &str) -> (found: Option<usize>)
    ensures
        match found {
            Some(at) => parameter_at(script.parameters@, name@) == Some(at as int) && at
                < script.parameters@.len(),
            None => parameter_at(script.parameters@, name@) is None,
        },
{
    let mut i: usize = 0;
    while i < script.parameters.len()
        invariant
            i <= script.parameters@.len(),
            forall|k: int| 0 <= k < i ==> script.parameters@[k].name@ != name@,
        decreases script.parameters@.len() - i,
    {
        if crate::text::same_text(script.parameters[i].name.as_str(), name) {
            return Some(i);
        }
        i += 1;
    }
    None
}

/// The form with the focused parameter turned on or off; unchanged where
/// the parameter is required or no parameter of the script has the focus.
pub open spec fn toggled(script: GlobalScript, form: FormView) -> FormView {
    if 0 <= form.focused < form.names.len() {
        let name = form.names[form.focused];
        match parameter_at(script.parameters@, name) {
            Some(at) => if script.parameters@[at].required {
                form
            } else {
                FormView {
                    enabled: form.enabled.insert(
                        name,
                        !(form.enabled.contains_key(name) && form.enabled[name]),
                    ),
                    ..form
                }
            },
            None => form,
        }
    } else {
        form
    }
}

/// The form with the value of the focused parameter flipped between `true`
/// and `false`.
pub open spec fn flipped(form: FormView) -> FormView {
    if 0 <= form.focused < form.names.len() {
        let name = form.names[form.focused];
        let was_true = form.values.contains_key(name) && form.values[name] == "true"@;
        FormView {
            values: form.values.insert(
                name,
                if was_true {
                    "false"@
                } else {
                    "true"@
                },
            ),
            ..form
        }
    } else {
        form
    }
}

/// The form with the focused field opened for editing, the cursor at the
/// end of its text.
pub open spec fn opened(form: FormView) -> FormView {
    FormView { cursor_pos: field_text(form).len() as int, editing: true, ..form }
}

/// The form and the outcome after a key while the form is neither editing
/// nor picking. Escape and `q` cancel and `x` confirms. `p` opens the list
/// of presets if there is one. `j`, Down and Tab move the focus down; `k`,
/// Up and BackTab move it up. Space opens the extra arguments for editing,
/// or turns the focused parameter on or off. Enter opens the extra
/// arguments or the focused parameter for editing, after enabling the
/// parameter; a boolean parameter is flipped and enabled instead.
pub open spec fn navigated(script: GlobalScript, form: FormView, key: Key) -> (
    FormView,
    FormOutcome,
) {
    let on_extra = form.focused == form.names.len();
    match key {
        Key::Esc | Key::Char('q') => (form, FormOutcome::Cancel),
        Key::Char('x') => (form, FormOutcome::Confirm),
        Key::Char('p') => (
            if script.parameter_presets@.len() > 0 {
                FormView { picking_preset: true, preset_index: 0, ..form }
            } else {
                form
            },
            FormOutcome::Stay,
        ),
        Key::Char('j') | Key::Down | Key::Tab => (
            FormView {
                focused: if form.focused < form.names.len() {
                    form.focused + 1
                } else {
                    form.focused
                },
                ..form
            },
            FormOutcome::Stay,
        ),
        Key::Char('k') | Key::Up | Key::BackTab => (
            FormView {
                focused: if form.focused > 0 {
                    form.focused - 1
                } else {
                    0
                },
                ..form
            },
            FormOutcome::Stay,
        ),
        Key::Char(' ') => (
            if on_extra {
                opened(form)
            } else {
                toggled(script, form)
            },
            FormOutcome::Stay,
        ),
        Key::Enter => (
            if on_extra {
                opened(form)
            } else if 0 <= form.focused < form.names.len() {
                let name = form.names[form.focused];
                match parameter_at(script.parameters@, name) {
                    Some(at) => if script.parameters@[at].param_type == ScriptParamType::Bool {
                        FormView {
                            enabled: flipped(form).enabled.insert(name, true),
                            ..flipped(form)
                        }
                    } else {
                        FormView {
                            enabled: form.enabled.insert(name, true),
                            ..opened(form)
                        }
                    },
                    None => form,
                }
            } else {
                form
            },
            FormOutcome::Stay,
        ),
        _ => (form, FormOutcome::Stay),
    }
}

/// Handles a key in the parameter form: in the list of presets while it is
/// open, else in the field that is being edited, else in the form itself.
pub fn handle_param_form(form: &mut ParamFormState, key: Key) -> (outcome: FormOutcome)
    ensures
        final(form).script == old(form).script,
        old(form).picking_preset ==> outcome == FormOutcome::Stay && final(form)@ == (if key
            == Key::Enter {
            preset_applied(old(form).script, old(form)@, old(form).preset_index as int)
        } else {
            picker_moved(old(form)@, key, old(form).script.parameter_presets@.len() as int)
        }),
        !old(form).picking_preset && old(form).editing ==> outcome == FormOutcome::Stay
            && final(form)@ == edited(old(form)@, key),
        !old(form).picking_preset && !old(form).editing ==> final(form)@ == navigated(
            old(form).script,
            old(form)@,
            key,
        ).0 && outcome == navigated(old(form).script, old(form)@, key).1,
{
    if form.picking_preset {
        form.picker_key(key);
        FormOutcome::Stay
    } else if form.editing {
        form.edit_key(key);
        FormOutcome::Stay
    } else {
        form.navigate_key(key)
    }
}

} // verus!
