//! The form in which the user fills in the parameters of a script before
//! running it.

use crate::models::{GlobalScript, ParameterPreset, ScriptParamType, ScriptParameter};
use crate::pairs::{map_of, overlaid, position_of, put_text, set_value, text_map, value_of};
use crate::registry::opt_text;
use crate::text::{replace, same_text, trim, trim_text};
use vstd::prelude::*;

verus! {

/// What the user entered the last time a script was run.
#[derive(Debug, Clone)]
pub struct SavedRunState {
    pub param_values: Vec<(String, String)>,
    pub param_enabled: Vec<(String, bool)>,
    pub extra_args: Option<String>,
}

/// The state of the parameter form.
#[derive(Debug, Clone)]
pub struct ParamFormState {
    pub script: GlobalScript,
    /// The names of the parameters, in the order of their definitions.
    pub param_names: Vec<String>,
    /// The value of each parameter.
    pub values: Vec<(String, String)>,
    /// Whether each parameter is passed to the script.
    pub enabled: Vec<(String, bool)>,
    /// Arguments that are added after those of the parameters.
    pub extra_args: String,
    /// The field that has the focus; the one after the last parameter is
    /// that of the extra arguments.
    pub focused: usize,
    /// Whether the focused field is being edited.
    pub editing: bool,
    /// Whether the list of presets is open.
    pub picking_preset: bool,
    /// The preset that is highlighted in the list.
    pub preset_index: usize,
    /// Where the cursor stands in the field that is being edited.
    pub cursor_pos: usize,
}

/// The values and the enabled flags of a form.
pub struct FormFill {
    pub values: Map<Seq<char>, Seq<char>>,
    pub enabled: Map<Seq<char>, bool>,
}

/// The value that a parameter starts with: its default, or `false` for a
/// boolean without one, or nothing.
pub open spec fn initial_value(parameter: ScriptParameter) -> Seq<char> {
    let default: Seq<char> = match parameter.default_value {
        Some(v) => v@,
        None => seq![],
    };
    if parameter.param_type == ScriptParamType::Bool && default.len() == 0 {
        "false"@
    } else {
        default
    }
}

/// The fill of a form from the defaults of the first `upto` parameters. A
/// parameter is enabled when it is required or starts with a value.
pub open spec fn default_fill(parameters: Seq<ScriptParameter>, upto: int) -> FormFill
    decreases upto,
{
    if upto <= 0 {
        FormFill { values: Map::empty(), enabled: Map::empty() }
    } else {
        let before = default_fill(parameters, upto - 1);
        let p = parameters[upto - 1];
        FormFill {
            values: before.values.insert(p.name@, initial_value(p)),
            enabled: before.enabled.insert(p.name@, p.required || initial_value(p).len() > 0),
        }
    }
}

/// `base` with the keys of the first `upto` of `pairs` enabled.
pub open spec fn all_enabled(
    base: Map<Seq<char>, bool>,
    pairs: Seq<(String, String)>,
    upto: int,
) -> Map<Seq<char>, bool>
    decreases upto,
{
    if upto <= 0 {
        base
    } else {
        all_enabled(base, pairs, upto - 1).insert(pairs[upto - 1].0@, true)
    }
}

/// What a preset says of whether a parameter is enabled: a required
/// parameter is; else the preset's flag for it decides, if it has one; else
/// a parameter with a value in the preset is; else the preset says nothing.
pub open spec fn preset_flag(preset: ParameterPreset, parameter: ScriptParameter) -> Option<bool> {
    match value_of(preset.enabled@, parameter.name@) {
        Some(flag) => Some(parameter.required || flag),
        None => if value_of(preset.values@, parameter.name@) is Some {
            Some(true)
        } else {
            None
        },
    }
}

/// `base` with what `preset` says of the first `upto` parameters.
pub open spec fn preset_enabled(
    base: Map<Seq<char>, bool>,
    preset: ParameterPreset,
    parameters: Seq<ScriptParameter>,
    upto: int,
) -> Map<Seq<char>, bool>
    decreases upto,
{
    if upto <= 0 {
        base
    } else {
        let before = preset_enabled(base, preset, parameters, upto - 1);
        match preset_flag(preset, parameters[upto - 1]) {
            Some(flag) => before.insert(parameters[upto - 1].name@, flag),
            None => before,
        }
    }
}

/// A fill with the script's default preset applied: all its values laid
/// over the fill; and its flags, or, where it has no flags, every key of its
/// values enabled.
pub open spec fn with_default_preset(
    fill: FormFill,
    preset: ParameterPreset,
    parameters: Seq<ScriptParameter>,
) -> FormFill {
    FormFill {
        values: overlaid(fill.values, preset.values@, preset.values@.len() as int),
        enabled: if preset.enabled@.len() > 0 {
            preset_enabled(fill.enabled, preset, parameters, parameters.len() as int)
        } else {
            all_enabled(fill.enabled, preset.values@, preset.values@.len() as int)
        },
    }
}

/// A fill with what was saved of the first `upto` parameters laid over it.
/// A required parameter stays enabled.
pub open spec fn with_saved(
    fill: FormFill,
    saved: SavedRunState,
    parameters: Seq<ScriptParameter>,
    upto: int,
) -> FormFill
    decreases upto,
{
    if upto <= 0 {
        fill
    } else {
        let before = with_saved(fill, saved, parameters, upto - 1);
        let p = parameters[upto - 1];
        FormFill {
            values: match value_of(saved.param_values@, p.name@) {
                Some(v) => before.values.insert(p.name@, v@),
                None => before.values,
            },
            enabled: match value_of(saved.param_enabled@, p.name@) {
                Some(flag) => before.enabled.insert(p.name@, p.required || flag),
                None => before.enabled,
            },
        }
    }
}

/// The position of the preset with the id `id`.
pub open spec fn preset_at(presets: Seq<ParameterPreset>, id: Seq<char>) -> Option<int> {
    if exists|i: int| 0 <= i < presets.len() && presets[i].id@ == id {
        Some(
            choose|i: int|
                0 <= i < presets.len() && presets[i].id@ == id && forall|k: int|
                    0 <= k < i ==> presets[k].id@ != id,
        )
    } else {
        None
    }
}

/// The fill that a fresh form of `script` has: the defaults, then the
/// script's default preset if it names one that exists, then what was saved
/// at the last run.
pub open spec fn fresh_fill(script: GlobalScript, saved: Option<SavedRunState>) -> FormFill {
    let defaults = default_fill(script.parameters@, script.parameters@.len() as int);
    let preset: Option<int> = match script.default_preset_id {
        Some(id) => preset_at(script.parameter_presets@, id@),
        None => None,
    };
    let with_preset = match preset {
        Some(at) => with_default_preset(defaults, script.parameter_presets@[at], script.parameters@),
        None => defaults,
    };
    match saved {
        Some(state) => with_saved(
            with_preset,
            state,
            script.parameters@,
            script.parameters@.len() as int,
        ),
        None => with_preset,
    }
}

fn find_preset(presets: &Vec<ParameterPreset>, id: &str) -> (found: Option<usize>)
    ensures
        match found {
            Some(at) => preset_at(presets@, id@) == Some(at as int) && at < presets@.len(),
            None => preset_at(presets@, id@) is None,
        },
{
    let mut i: usize = 0;
    while i < presets.len()
        invariant
            i <= presets@.len(),
            forall|k: int| 0 <= k < i ==> presets@[k].id@ != id@,
        decreases presets@.len() - i,
    {
        if same_text(presets[i].id.as_str(), id) {
            return Some(i);
        }
        i += 1;
    }
    None
}

fn find_flag(flags: &Vec<(String, bool)>, name: &str) -> (flag: Option<bool>)
    ensures
        flag == value_of(flags@, name@),
{
    match position_of(flags, name) {
        Some(at) => Some(flags[at].1),
        None => None,
    }
}

fn find_text<'a>(pairs: &'a Vec<(String, String)>, name: &str) -> (value: Option<&'a String>)
    ensures
        match value {
            Some(v) => value_of(pairs@, name@) == Some(*v),
            None => value_of(pairs@, name@) is None,
        },
{
    match position_of(pairs, name) {
        Some(at) => Some(&pairs[at].1),
        None => None,
    }
}

fn first_value(parameter: &ScriptParameter) -> (value: String)
    ensures
        value@ == initial_value(*parameter),
{
    let default = match &parameter.default_value {
        Some(v) => v.clone(),
        None => String::new(),
    };
    let is_bool = match parameter.param_type {
        ScriptParamType::Bool => true,
        _ => false,
    };
    if is_bool && default.as_str().is_empty() {
        "false".to_owned()
    } else {
        default
    }
}

fn apply_flags(
    enabled: &mut Vec<(String, bool)>,
    preset: &ParameterPreset,
    parameters: &Vec<ScriptParameter>,
)
    ensures
        map_of(final(enabled)@) == preset_enabled(
            map_of(old(enabled)@),
            *preset,
            parameters@,
            parameters@.len() as int,
        ),
{
    let ghost base = map_of(enabled@);
    let mut i: usize = 0;
    while i < parameters.len()
        invariant
            i <= parameters@.len(),
            map_of(enabled@) == preset_enabled(base, *preset, parameters@, i as int),
        decreases parameters@.len() - i,
    {
        let p = &parameters[i];
        match find_flag(&preset.enabled, p.name.as_str()) {
            Some(flag) => set_value(enabled, p.name.as_str(), p.required || flag),
            None => {
                if find_text(&preset.values, p.name.as_str()).is_some() {
                    set_value(enabled, p.name.as_str(), true);
                }
            },
        }
        i += 1;
    }
}

/// The form as a mathematical value. The script it belongs to is not part
/// of it.
pub struct FormView {
    pub names: Seq<Seq<char>>,
    pub values: Map<Seq<char>, Seq<char>>,
    pub enabled: Map<Seq<char>, bool>,
    pub extra_args: Seq<char>,
    pub focused: int,
    pub editing: bool,
    pub picking_preset: bool,
    pub preset_index: int,
    pub cursor_pos: int,
}

impl View for ParamFormState {
    type V = FormView;

    open spec fn view(&self) -> FormView {
        FormView {
            names: crate::text::lines_text(self.param_names@),
            values: text_map(self.values@),
            enabled: map_of(self.enabled@),
            extra_args: self.extra_args@,
            focused: self.focused as int,
            editing: self.editing,
            picking_preset: self.picking_preset,
            preset_index: self.preset_index as int,
            cursor_pos: self.cursor_pos as int,
        }
    }
}

/// The position of the first parameter with the name `name`.
pub open spec fn parameter_at(parameters: Seq<ScriptParameter>, name: Seq<char>) -> Option<int> {
    if exists|i: int| 0 <= i < parameters.len() && parameters[i].name@ == name {
        Some(
            choose|i: int|
                0 <= i < parameters.len() && parameters[i].name@ == name && forall|k: int|
                    0 <= k < i ==> parameters[k].name@ != name,
        )
    } else {
        None
    }
}

/// `base` with the values that `preset` has for the first `upto`
/// parameters.
pub open spec fn preset_values(
    base: Map<Seq<char>, Seq<char>>,
    preset: ParameterPreset,
    parameters: Seq<ScriptParameter>,
    upto: int,
) -> Map<Seq<char>, Seq<char>>
    decreases upto,
{
    if upto <= 0 {
        base
    } else {
        let before = preset_values(base, preset, parameters, upto - 1);
        match value_of(preset.values@, parameters[upto - 1].name@) {
            Some(v) => before.insert(parameters[upto - 1].name@, v@),
            None => before,
        }
    }
}

/// The flag of a parameter on a command line: the long one, else the short
/// one, else none.
pub open spec fn flag_text(parameter: ScriptParameter) -> Option<Seq<char>> {
    match parameter.long_flag {
        Some(flag) => Some(flag@),
        None => opt_text(parameter.short_flag),
    }
}

/// What a parameter adds to a command line, each part after one space: a
/// boolean adds its flag when its value is `true`; any other adds its flag
/// and its value when the value is not empty. A parameter that is not
/// enabled adds nothing.
pub open spec fn parameter_text(
    parameter: ScriptParameter,
    values: Map<Seq<char>, Seq<char>>,
    enabled: Map<Seq<char>, bool>,
) -> Seq<char> {
    let name = parameter.name@;
    let on = enabled.contains_key(name) && enabled[name];
    let value: Seq<char> = if values.contains_key(name) {
        values[name]
    } else {
        seq![]
    };
    let flag: Seq<char> = match flag_text(parameter) {
        Some(f) => " "@ + f,
        None => seq![],
    };
    if !on {
        seq![]
    } else if parameter.param_type == ScriptParamType::Bool {
        if value == "true"@ {
            flag
        } else {
            seq![]
        }
    } else if value.len() > 0 {
        flag + " "@ + value
    } else {
        seq![]
    }
}

/// `command` with what the first `upto` parameters add.
pub open spec fn command_with(
    command: Seq<char>,
    parameters: Seq<ScriptParameter>,
    values: Map<Seq<char>, Seq<char>>,
    enabled: Map<Seq<char>, bool>,
    upto: int,
) -> Seq<char>
    decreases upto,
{
    if upto <= 0 {
        command
    } else {
        command_with(command, parameters, values, enabled, upto - 1) + parameter_text(
            parameters[upto - 1],
            values,
            enabled,
        )
    }
}

/// The command line that a form stands for: the script's command with the
/// path of its file in the place of the placeholder, what the parameters
/// add, and the extra arguments, trimmed, unless they are empty.
pub open spec fn form_command(script: GlobalScript, form: FormView) -> Seq<char> {
    let with_parameters = command_with(
        crate::command_builder::resolved_command(script),
        script.parameters@,
        form.values,
        form.enabled,
        script.parameters@.len() as int,
    );
    if trim_text(form.extra_args).len() > 0 {
        with_parameters + " "@ + trim_text(form.extra_args)
    } else {
        with_parameters
    }
}

/// The form with the preset at `index` applied and the list of presets
/// closed: each parameter takes the preset's value for it, if it has one,
/// and is enabled as the preset says. An index without a preset only closes
/// the list.
pub open spec fn preset_applied(script: GlobalScript, form: FormView, index: int) -> FormView {
    if 0 <= index < script.parameter_presets@.len() {
        let preset = script.parameter_presets@[index];
        let parameters = script.parameters@;
        FormView {
            values: preset_values(form.values, preset, parameters, parameters.len() as int),
            enabled: preset_enabled(form.enabled, preset, parameters, parameters.len() as int),
            picking_preset: false,
            ..form
        }
    } else {
        FormView { picking_preset: false, ..form }
    }
}

fn find_parameter(parameters: &Vec<ScriptParameter>, name: &str) -> (found: Option<usize>)
    ensures
        match found {
            Some(at) => parameter_at(parameters@, name@) == Some(at as int) && at
                < parameters@.len(),
            None => parameter_at(parameters@, name@) is None,
        },
{
    let mut i: usize = 0;
    while i < parameters.len()
        invariant
            i <= parameters@.len(),
            forall|k: int| 0 <= k < i ==> parameters@[k].name@ != name@,
        decreases parameters@.len() - i,
    {
        if same_text(parameters[i].name.as_str(), name) {
            return Some(i);
        }
        i += 1;
    }
    None
}

impl ParamFormState {
    /// The values of the form, by parameter name.
    pub open spec fn value_map(self) -> Map<Seq<char>, Seq<char>> {
        text_map(self.values@)
    }

    /// The enabled flags of the form, by parameter name.
    pub open spec fn enabled_map(self) -> Map<Seq<char>, bool> {
        map_of(self.enabled@)
    }

    /// A fresh form for `script`, filled from the script's defaults, its
    /// default preset and what was saved at the last run, in that order. The
    /// first field has the focus and nothing is being edited.
    pub fn new(script: &GlobalScript, saved: Option<SavedRunState>) -> (form: Self)
        ensures
            form.value_map() == fresh_fill(*script, saved).values,
            form.enabled_map() == fresh_fill(*script, saved).enabled,
            form.param_names@.len() == script.parameters@.len(),
            forall|i: int|
                0 <= i < form.param_names@.len() ==> (#[trigger] form.param_names@[i])@
                    == script.parameters@[i].name@,
            form.extra_args@ == (match saved {
                Some(state) => match state.extra_args {
                    Some(text) => text@,
                    None => Seq::<char>::empty(),
                },
                None => Seq::<char>::empty(),
            }),
            form.focused == 0,
            !form.editing,
            !form.picking_preset,
            form.preset_index == 0,
            form.cursor_pos == 0,
    {
        let mut values: Vec<(String, String)> = Vec::new();
        let mut enabled: Vec<(String, bool)> = Vec::new();
        let mut param_names: Vec<String> = Vec::new();
        let n = script.parameters.len();
        assert(text_map(values@) =~= Map::empty());
        assert(map_of(enabled@) =~= Map::empty());
        let mut i: usize = 0;
        while i < n
            invariant
                i <= n == script.parameters@.len(),
                param_names@.len() == i,
                forall|k: int|
                    0 <= k < i ==> (#[trigger] param_names@[k])@ == script.parameters@[k].name@,
                text_map(values@) == default_fill(script.parameters@, i as int).values,
                map_of(enabled@) == default_fill(script.parameters@, i as int).enabled,
            decreases n - i,
        {
            let p = &script.parameters[i];
            param_names.push(p.name.clone());
            let value = first_value(p);
            let on = p.required || !value.as_str().is_empty();
            put_text(&mut values, p.name.as_str(), value);
            set_value(&mut enabled, p.name.as_str(), on);
            i += 1;
        }
        let preset = match &script.default_preset_id {
            Some(id) => find_preset(&script.parameter_presets, id.as_str()),
            None => None,
        };
        match preset {
            Some(at) => {
                let preset = &script.parameter_presets[at];
                let ghost base = text_map(values@);
                let ghost flags = map_of(enabled@);
                let mut k: usize = 0;
                while k < preset.values.len()
                    invariant
                        k <= preset.values@.len(),
                        text_map(values@) == overlaid(base, preset.values@, k as int),
                    decreases preset.values@.len() - k,
                {
                    put_text(&mut values, preset.values[k].0.as_str(), preset.values[k].1.clone());
                    k += 1;
                }
                if preset.enabled.len() > 0 {
                    apply_flags(&mut enabled, preset, &script.parameters);
                } else {
                    let mut k: usize = 0;
                    while k < preset.values.len()
                        invariant
                            k <= preset.values@.len(),
                            map_of(enabled@) == all_enabled(flags, preset.values@, k as int),
                        decreases preset.values@.len() - k,
                    {
                        set_value(&mut enabled, preset.values[k].0.as_str(), true);
                        k += 1;
                    }
                }
            },
            None => {},
        }
        let mut extra_args = String::new();
        match saved {
            Some(state) => {
                let ghost base = FormFill { values: text_map(values@), enabled: map_of(enabled@) };
                let mut i: usize = 0;
                while i < n
                    invariant
                        i <= n == script.parameters@.len(),
                        text_map(values@) == with_saved(
                            base,
                            state,
                            script.parameters@,
                            i as int,
                        ).values,
                        map_of(enabled@) == with_saved(
                            base,
                            state,
                            script.parameters@,
                            i as int,
                        ).enabled,
                    decreases n - i,
                {
                    let p = &script.parameters[i];
                    match find_text(&state.param_values, p.name.as_str()) {
                        Some(v) => put_text(&mut values, p.name.as_str(), v.clone()),
                        None => {},
                    }
                    match find_flag(&state.param_enabled, p.name.as_str()) {
                        Some(flag) => set_value(&mut enabled, p.name.as_str(), p.required || flag),
                        None => {},
                    }
                    i += 1;
                }
                match state.extra_args {
                    Some(text) => {
                        extra_args = text;
                    },
                    None => {},
                }
            },
            None => {},
        }
        ParamFormState {
            script: script.clone(),
            param_names,
            values,
            enabled,
            extra_args,
            focused: 0,
            editing: false,
            picking_preset: false,
            preset_index: 0,
            cursor_pos: 0,
        }
    }

    /// How many fields can have the focus: the parameters and the extra
    /// arguments.
    pub fn field_count(&self) -> (count: usize)
        requires
            self.param_names@.len() < usize::MAX,
        ensures
            count == self.param_names@.len() + 1,
    {
        self.param_names.len() + 1
    }

    /// Whether the field of the extra arguments has the focus.
    pub fn is_extra_args_focused(&self) -> (extra: bool)
        ensures
            extra == (self.focused == self.param_names@.len()),
    {
        self.focused == self.param_names.len()
    }

    /// The name of the parameter that has the focus, if one has.
    pub fn focused_param_name(&self) -> (name: Option<&str>)
        ensures
            name is Some <==> self.focused < self.param_names@.len(),
            name is Some ==> name->Some_0@ == self.param_names@[self.focused as int]@,
    {
        if self.focused < self.param_names.len() {
            Some(self.param_names[self.focused].as_str())
        } else {
            None
        }
    }

    /// Moves the focus one field up, unless it is on the first.
    pub fn move_up(&mut self)
        ensures
            *final(self) == (ParamFormState {
                focused: if old(self).focused > 0 {
                    (old(self).focused - 1) as usize
                } else {
                    0
                },
                ..*old(self)
            }),
    {
        if self.focused > 0 {
            self.focused -= 1;
        }
    }

    /// Moves the focus one field down, unless it is on the last.
    pub fn move_down(&mut self)
        ensures
            *final(self) == (ParamFormState {
                focused: if old(self).focused < old(self).param_names@.len() {
                    (old(self).focused + 1) as usize
                } else {
                    old(self).focused
                },
                ..*old(self)
            }),
    {
        if self.focused < self.param_names.len() {
            self.focused += 1;
        }
    }

    /// Turns the focused parameter on or off. A required parameter stays
    /// as it is, and so does the form where no parameter of the script has
    /// the focus.
    pub fn toggle_focused(&mut self)
        ensures
            final(self).script == old(self).script,
            final(self)@ == (if old(self).focused < old(self).param_names@.len() {
                let name = old(self).param_names@[old(self).focused as int]@;
                match parameter_at(old(self).script.parameters@, name) {
                    Some(at) => if old(self).script.parameters@[at].required {
                        old(self)@
                    } else {
                        FormView {
                            enabled: old(self)@.enabled.insert(
                                name,
                                !(old(self)@.enabled.contains_key(name) && old(self)@.enabled[name]),
                            ),
                            ..old(self)@
                        }
                    },
                    None => old(self)@,
                }
            } else {
                old(self)@
            }),
    {
        if self.focused >= self.param_names.len() {
            return ;
        }
        let name = self.param_names[self.focused].clone();
        match find_parameter(&self.script.parameters, name.as_str()) {
            Some(at) => {
                if !self.script.parameters[at].required {
                    let current = match find_flag(&self.enabled, name.as_str()) {
                        Some(flag) => flag,
                        None => false,
                    };
                    set_value(&mut self.enabled, name.as_str(), !current);
                }
            },
            None => {},
        }
    }

    /// Flips the value of the focused parameter between `true` and `false`;
    /// a value that is not `true` becomes `true`.
    pub fn toggle_bool(&mut self)
        ensures
            final(self).script == old(self).script,
            final(self)@ == (if old(self).focused < old(self).param_names@.len() {
                let name = old(self).param_names@[old(self).focused as int]@;
                let was_true = old(self)@.values.contains_key(name) && old(self)@.values[name]
                    == "true"@;
                FormView {
                    values: old(self)@.values.insert(
                        name,
                        if was_true {
                            "false"@
                        } else {
                            "true"@
                        },
                    ),
                    ..old(self)@
                }
            } else {
                old(self)@
            }),
    {
        if self.focused >= self.param_names.len() {
            return ;
        }
        let name = self.param_names[self.focused].clone();
        let current = match find_text(&self.values, name.as_str()) {
            Some(v) => same_text(v.as_str(), "true"),
            None => false,
        };
        let next = if current {
            "false"
        } else {
            "true"
        };
        put_text(&mut self.values, name.as_str(), next.to_owned());
    }

    /// Applies the preset at `preset_index` to the form and closes the list
    /// of presets. Each parameter takes the preset's value for it, if it has
    /// one, and is enabled as the preset says. An index without a preset
    /// only closes the list.
    pub fn apply_preset(&mut self, preset_index: usize)
        ensures
            final(self).script == old(self).script,
            final(self)@ == preset_applied(old(self).script, old(self)@, preset_index as int),
    {
        self.picking_preset = false;
        if preset_index >= self.script.parameter_presets.len() {
            return ;
        }
        let ghost base = self@;
        let n = self.script.parameters.len();
        let mut i: usize = 0;
        while i < n
            invariant
                i <= n == self.script.parameters@.len(),
                preset_index < self.script.parameter_presets@.len(),
                self.script == old(self).script,
                self@ == (FormView {
                    values: preset_values(
                        base.values,
                        self.script.parameter_presets@[preset_index as int],
                        self.script.parameters@,
                        i as int,
                    ),
                    enabled: preset_enabled(
                        base.enabled,
                        self.script.parameter_presets@[preset_index as int],
                        self.script.parameters@,
                        i as int,
                    ),
                    ..base
                }),
            decreases n - i,
        {
            let name = self.script.parameters[i].name.clone();
            let required = self.script.parameters[i].required;
            let value = match find_text(
                &self.script.parameter_presets[preset_index].values,
                name.as_str(),
            ) {
                Some(v) => Some(v.clone()),
                None => None,
            };
            let flag = find_flag(&self.script.parameter_presets[preset_index].enabled, name.as_str());
            let has_value = value.is_some();
            match value {
                Some(v) => put_text(&mut self.values, name.as_str(), v),
                None => {},
            }
            match flag {
                Some(on) => set_value(&mut self.enabled, name.as_str(), required || on),
                None => {
                    if has_value {
                        set_value(&mut self.enabled, name.as_str(), true);
                    }
                },
            }
            i += 1;
        }
    }

    /// The command line that the form stands for.
    pub fn build_command(&self) -> (command: String)
        ensures
            command@ == form_command(self.script, self@),
    {
        let mut command = match &self.script.script_path {
            Some(path) => replace(self.script.command.as_str(), "{{SCRIPT_FILE}}", path.as_str()),
            None => self.script.command.clone(),
        };
        let ghost start = command@;
        let n = self.script.parameters.len();
        let mut i: usize = 0;
        while i < n
            invariant
                i <= n == self.script.parameters@.len(),
                command@ == command_with(
                    start,
                    self.script.parameters@,
                    self@.values,
                    self@.enabled,
                    i as int,
                ),
            decreases n - i,
        {
            let p = &self.script.parameters[i];
            let ghost before = command@;
            let on = match find_flag(&self.enabled, p.name.as_str()) {
                Some(flag) => flag,
                None => false,
            };
            if on {
                let empty = String::new();
                let value = match find_text(&self.values, p.name.as_str()) {
                    Some(v) => v,
                    None => &empty,
                };
                let is_bool = match p.param_type {
                    ScriptParamType::Bool => true,
                    _ => false,
                };
                let wanted = if is_bool {
                    same_text(value.as_str(), "true")
                } else {
                    !value.as_str().is_empty()
                };
                if wanted {
                    match &p.long_flag {
                        Some(flag) => {
                            command.append(" ");
                            command.append(flag.as_str());
                        },
                        None => match &p.short_flag {
                            Some(flag) => {
                                command.append(" ");
                                command.append(flag.as_str());
                            },
                            None => {},
                        },
                    }
                    if !is_bool {
                        command.append(" ");
                        command.append(value.as_str());
                    }
                }
            }
            assert(command@ =~= before + parameter_text(*p, self@.values, self@.enabled));
            i += 1;
        }
        let extra = trim(self.extra_args.as_str());
        if !extra.as_str().is_empty() {
            command.append(" ");
            command.append(extra.as_str());
        }
        command
    }
}

} // verus!
