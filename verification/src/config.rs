//! The user configuration of the daemon, as `cardwire.toml` holds it: its
//! defaults, the rule by which fields missing from the file take their default,
//! and the fall-back to the defaults when the file cannot be read as a
//! configuration.

use vstd::prelude::*;
use crate::modes::{Modes, mode_name, mode_of_name};

verus! {

/// The characters of each string of a sequence.
pub open spec fn string_views(v: Seq<String>) -> Seq<Seq<char>> {
    v.map_values(|s: String| s@)
}

/// What a configuration holds.
pub struct CardwireConfigView {
    pub auto_apply_gpu_state: bool,
    pub experimental_nvidia_block: bool,
    pub battery_auto_switch: bool,
    pub battery_auto_switch_mode: Modes,
    pub external_display_auto_switch: bool,
    pub allowed_programs: Seq<Seq<char>>,
}

/// The configuration the daemon runs with when the file does not say otherwise.
pub open spec fn default_config() -> CardwireConfigView {
    CardwireConfigView {
        auto_apply_gpu_state: true,
        experimental_nvidia_block: false,
        battery_auto_switch: false,
        battery_auto_switch_mode: Modes::Hybrid,
        external_display_auto_switch: false,
        allowed_programs: Seq::empty(),
    }
}

/// The user configuration of the daemon.
pub struct CardwireConfig {
    auto_apply_gpu_state: bool,
    experimental_nvidia_block: bool,
    battery_auto_switch: bool,
    battery_auto_switch_mode: Modes,
    external_display_auto_switch: bool,
    allowed_programs: Vec<String>,
}

impl View for CardwireConfig {
    type V = CardwireConfigView;

    closed spec fn view(&self) -> CardwireConfigView {
        CardwireConfigView {
            auto_apply_gpu_state: self.auto_apply_gpu_state,
            experimental_nvidia_block: self.experimental_nvidia_block,
            battery_auto_switch: self.battery_auto_switch,
            battery_auto_switch_mode: self.battery_auto_switch_mode,
            external_display_auto_switch: self.external_display_auto_switch,
            allowed_programs: string_views(self.allowed_programs@),
        }
    }
}

/// Copies a list of strings.
pub(crate) fn clone_strings(v: &[String]) -> (r: Vec<String>)
    ensures
        r@ == v@,
{
    let mut r: Vec<String> = Vec::new();
    let n = v.len();
    let mut i: usize = 0;
    while i < n
        invariant
            n == v@.len(),
            i <= n,
            r@ =~= v@.subrange(0, i as int),
        decreases n - i,
    {
        r.push(v[i].clone());
        i = i + 1;
    }
    r
}

impl Default for CardwireConfig {
    /// The default configuration: GPU state applied automatically, every
    /// other switch off, battery mode `Hybrid`, no extra allowed program.
    fn default() -> (r: CardwireConfig)
        ensures
            r@ == default_config(),
            r@.auto_apply_gpu_state == true,
            r@.experimental_nvidia_block == false,
            r@.battery_auto_switch == false,
            r@.battery_auto_switch_mode == Modes::Hybrid,
            r@.external_display_auto_switch == false,
            r@.allowed_programs.len() == 0,
    {
        let r = CardwireConfig {
            auto_apply_gpu_state: true,
            experimental_nvidia_block: false,
            battery_auto_switch: false,
            battery_auto_switch_mode: Modes::Hybrid,
            external_display_auto_switch: false,
            allowed_programs: Vec::new(),
        };
        assert(r@.allowed_programs =~= Seq::<Seq<char>>::empty());
        r
    }
}

/// The fields of a configuration file, each present or missing.
pub struct ConfigFields {
    pub auto_apply_gpu_state: Option<bool>,
    pub experimental_nvidia_block: Option<bool>,
    pub battery_auto_switch: Option<bool>,
    pub battery_auto_switch_mode: Option<String>,
    pub external_display_auto_switch: Option<bool>,
    pub allowed_programs: Option<Vec<String>>,
}

/// A field's value where present, else the default.
pub open spec fn field_or<T>(field: Option<T>, default: T) -> T {
    match field {
        Some(v) => v,
        None => default,
    }
}

/// The mode a file names, if the name stands for a mode; the default mode
/// where the field is missing.
pub open spec fn fields_mode(f: ConfigFields) -> Option<Modes> {
    match f.battery_auto_switch_mode {
        Some(name) => mode_of_name(name@),
        None => Some(default_config().battery_auto_switch_mode),
    }
}

/// The configuration a file's fields describe: each present field gives its
/// value, each missing one takes the default. `None` where the mode field
/// names no mode.
pub open spec fn config_of_fields(f: ConfigFields) -> Option<CardwireConfigView> {
    let d = default_config();
    match fields_mode(f) {
        Some(mode) => Some(
            CardwireConfigView {
                auto_apply_gpu_state: field_or(f.auto_apply_gpu_state, d.auto_apply_gpu_state),
                experimental_nvidia_block: field_or(
                    f.experimental_nvidia_block,
                    d.experimental_nvidia_block,
                ),
                battery_auto_switch: field_or(f.battery_auto_switch, d.battery_auto_switch),
                battery_auto_switch_mode: mode,
                external_display_auto_switch: field_or(
                    f.external_display_auto_switch,
                    d.external_display_auto_switch,
                ),
                allowed_programs: match f.allowed_programs {
                    Some(v) => string_views(v@),
                    None => d.allowed_programs,
                },
            },
        ),
        None => None,
    }
}

/// The configuration the daemon runs with once the file has been read: the
/// one the fields describe, or the defaults where the file could not be read as
/// a configuration (`None`) or its fields describe none.
pub open spec fn config_or_default(parsed: Option<ConfigFields>) -> CardwireConfigView {
    match parsed {
        Some(f) => match config_of_fields(f) {
            Some(c) => c,
            None => default_config(),
        },
        None => default_config(),
    }
}

/// The fields of a file that writes out every value of `c`.
pub open spec fn fields_of_config(f: ConfigFields, c: CardwireConfigView) -> bool {
    &&& f.auto_apply_gpu_state == Some(c.auto_apply_gpu_state)
    &&& f.experimental_nvidia_block == Some(c.experimental_nvidia_block)
    &&& f.battery_auto_switch == Some(c.battery_auto_switch)
    &&& f.battery_auto_switch_mode is Some
    &&& f.battery_auto_switch_mode.unwrap()@ == mode_name(c.battery_auto_switch_mode)
    &&& f.external_display_auto_switch == Some(c.external_display_auto_switch)
    &&& f.allowed_programs is Some
    &&& string_views(f.allowed_programs.unwrap()@) == c.allowed_programs
}

/// Each field of a file is read as the setting of the same name: a present
/// field gives its own value, a missing one the literal default.
pub open spec fn field_read_as_itself(f: ConfigFields, c: CardwireConfigView) -> bool {
    &&& (f.auto_apply_gpu_state matches Some(b) ==> c.auto_apply_gpu_state == b)
    &&& (f.auto_apply_gpu_state is None ==> c.auto_apply_gpu_state == true)
    &&& (f.experimental_nvidia_block matches Some(b) ==> c.experimental_nvidia_block == b)
    &&& (f.experimental_nvidia_block is None ==> c.experimental_nvidia_block == false)
    &&& (f.battery_auto_switch matches Some(b) ==> c.battery_auto_switch == b)
    &&& (f.battery_auto_switch is None ==> c.battery_auto_switch == false)
    &&& (f.battery_auto_switch_mode matches Some(n) ==> mode_name(c.battery_auto_switch_mode) == n@)
    &&& (f.battery_auto_switch_mode is None ==> c.battery_auto_switch_mode == Modes::Hybrid)
    &&& (f.external_display_auto_switch matches Some(b) ==> c.external_display_auto_switch == b)
    &&& (f.external_display_auto_switch is None ==> c.external_display_auto_switch == false)
    &&& (f.allowed_programs matches Some(v) ==> c.allowed_programs == string_views(v@))
    &&& (f.allowed_programs is None ==> c.allowed_programs.len() == 0)
}

impl CardwireConfig {
    /// A configuration made of the given values.
    pub fn new(
        auto_apply_gpu_state: bool,
        experimental_nvidia_block: bool,
        battery_auto_switch: bool,
        battery_auto_switch_mode: Modes,
        external_display_auto_switch: bool,
        allowed_programs: Vec<String>,
    ) -> (r: CardwireConfig)
        ensures
            r@ == (CardwireConfigView {
                auto_apply_gpu_state,
                experimental_nvidia_block,
                battery_auto_switch,
                battery_auto_switch_mode,
                external_display_auto_switch,
                allowed_programs: string_views(allowed_programs@),
            }),
    {
        CardwireConfig {
            auto_apply_gpu_state,
            experimental_nvidia_block,
            battery_auto_switch,
            battery_auto_switch_mode,
            external_display_auto_switch,
            allowed_programs,
        }
    }

    /// The configuration a file's fields describe: present fields give their
    /// value, missing ones their default; `None` where the mode field names no
    /// mode.
    pub fn from_fields(fields: ConfigFields) -> (r: Option<CardwireConfig>)
        ensures
            r is Some <==> config_of_fields(fields) is Some,
            r matches Some(c) ==> c@ == config_of_fields(fields).unwrap(),
            r is Some <==> (fields.battery_auto_switch_mode matches Some(n) ==> mode_of_name(n@) is Some),
            r matches Some(c) ==> field_read_as_itself(fields, c@),
    {
        let ghost f = fields;
        let mode = match &fields.battery_auto_switch_mode {
            Some(name) => match Modes::from_name(name.as_str()) {
                Some(m) => m,
                None => {
                    return None;
                },
            },
            None => Modes::Hybrid,
        };
        let allowed_programs = match fields.allowed_programs {
            Some(v) => v,
            None => Vec::new(),
        };
        let r = CardwireConfig {
            auto_apply_gpu_state: match fields.auto_apply_gpu_state {
                Some(b) => b,
                None => true,
            },
            experimental_nvidia_block: match fields.experimental_nvidia_block {
                Some(b) => b,
                None => false,
            },
            battery_auto_switch: match fields.battery_auto_switch {
                Some(b) => b,
                None => false,
            },
            battery_auto_switch_mode: mode,
            external_display_auto_switch: match fields.external_display_auto_switch {
                Some(b) => b,
                None => false,
            },
            allowed_programs,
        };
        assert(f.allowed_programs is None ==> r@.allowed_programs =~= Seq::<Seq<char>>::empty());
        Some(r)
    }

    /// The configuration to run with once the file has been read: the one its
    /// fields describe, or the defaults where it could not be read as a
    /// configuration (`None`) or its fields describe none.
    pub fn from_parsed(parsed: Option<ConfigFields>) -> (r: CardwireConfig)
        ensures
            r@ == config_or_default(parsed),
            parsed matches Some(f) ==> ((f.battery_auto_switch_mode matches Some(n) ==> mode_of_name(n@) is Some)
                ==> field_read_as_itself(f, r@)),
            parsed matches Some(f) ==> ((f.battery_auto_switch_mode matches Some(n) && mode_of_name(n@) is None)
                ==> r@ == default_config()),
            parsed is None ==> r@ == default_config(),
    {
        match parsed {
            Some(fields) => match CardwireConfig::from_fields(fields) {
                Some(c) => c,
                None => CardwireConfig::default(),
            },
            None => CardwireConfig::default(),
        }
    }

    /// The fields of a file that writes out every value of this configuration.
    pub fn to_fields(&self) -> (r: ConfigFields)
        ensures
            fields_of_config(r, self@),
            r.auto_apply_gpu_state == Some(self@.auto_apply_gpu_state),
            r.experimental_nvidia_block == Some(self@.experimental_nvidia_block),
            r.battery_auto_switch == Some(self@.battery_auto_switch),
            r.battery_auto_switch_mode matches Some(n) && n@ == mode_name(self@.battery_auto_switch_mode),
            r.external_display_auto_switch == Some(self@.external_display_auto_switch),
            r.allowed_programs matches Some(v) && string_views(v@) == self@.allowed_programs,
    {
        let programs = clone_strings(self.allowed_programs.as_slice());
        ConfigFields {
            auto_apply_gpu_state: Some(self.auto_apply_gpu_state),
            experimental_nvidia_block: Some(self.experimental_nvidia_block),
            battery_auto_switch: Some(self.battery_auto_switch),
            battery_auto_switch_mode: Some(String::from_str(self.battery_auto_switch_mode.name())),
            external_display_auto_switch: Some(self.external_display_auto_switch),
            allowed_programs: Some(programs),
        }
    }

    pub fn experimental_nvidia_block(&self) -> (r: bool)
        ensures
            r == self@.experimental_nvidia_block,
    {
        self.experimental_nvidia_block
    }

    pub fn auto_apply_gpu_state(&self) -> (r: bool)
        ensures
            r == self@.auto_apply_gpu_state,
    {
        self.auto_apply_gpu_state
    }

    pub fn battery_auto_switch(&self) -> (r: bool)
        ensures
            r == self@.battery_auto_switch,
    {
        self.battery_auto_switch
    }

    pub fn battery_auto_switch_mode(&self) -> (r: Modes)
        ensures
            r == self@.battery_auto_switch_mode,
    {
        self.battery_auto_switch_mode
    }

    pub fn external_display_auto_switch(&self) -> (r: bool)
        ensures
            r == self@.external_display_auto_switch,
    {
        self.external_display_auto_switch
    }

    pub fn allowed_programs(&self) -> (r: &[String])
        ensures
            string_views(r@) == self@.allowed_programs,
    {
        self.allowed_programs.as_slice()
    }
}

/// Writing a configuration out field by field and reading the fields back
/// gives the same configuration.
pub proof fn lemma_fields_roundtrip(f: ConfigFields, c: CardwireConfigView)
    requires
        fields_of_config(f, c),
    ensures
        config_of_fields(f) == Some(c),
{
    crate::modes::lemma_mode_name_roundtrip(c.battery_auto_switch_mode);
}

/// A file in which every field is missing describes the default configuration.
pub proof fn lemma_empty_fields_default(f: ConfigFields)
    requires
        f.auto_apply_gpu_state is None,
        f.experimental_nvidia_block is None,
        f.battery_auto_switch is None,
        f.battery_auto_switch_mode is None,
        f.external_display_auto_switch is None,
        f.allowed_programs is None,
    ensures
        config_of_fields(f) == Some(default_config()),
{
}

/// The default configuration: GPU state applied automatically, every other
/// switch off, battery mode `Hybrid`, no allowed program.
pub proof fn lemma_default_values()
    ensures
        default_config().auto_apply_gpu_state == true,
        default_config().experimental_nvidia_block == false,
        default_config().battery_auto_switch == false,
        default_config().battery_auto_switch_mode == Modes::Hybrid,
        default_config().external_display_auto_switch == false,
        default_config().allowed_programs.len() == 0,
{
}

/// A file whose mode field is missing or names a mode is read field by field:
/// each present field gives the setting of the same name, each missing field
/// its default.
pub proof fn lemma_file_read_field_by_field(f: ConfigFields)
    requires
        f.battery_auto_switch_mode matches Some(n) ==> mode_of_name(n@) is Some,
    ensures
        config_of_fields(f) is Some,
        config_or_default(Some(f)) == config_of_fields(f).unwrap(),
        field_read_as_itself(f, config_or_default(Some(f))),
{
    let n = f.battery_auto_switch_mode;
    if n is Some {
        crate::modes::lemma_mode_of_name_exact(n.unwrap()@);
    }
}

/// The running configuration keeps the file's list of allowed programs, in
/// order, whenever the file describes a configuration.
pub proof fn lemma_allowed_programs_kept(f: ConfigFields, v: Vec<String>)
    requires
        f.battery_auto_switch_mode matches Some(n) ==> mode_of_name(n@) is Some,
        f.allowed_programs == Some(v),
    ensures
        config_or_default(Some(f)).allowed_programs == string_views(v@),
        config_or_default(Some(f)).allowed_programs.len() == v@.len(),
        forall|i: int| 0 <= i < v@.len() ==> #[trigger] config_or_default(Some(f)).allowed_programs[i] == v@[i]@,
{
    lemma_file_read_field_by_field(f);
}

/// A file whose mode field names no mode is ignored: the defaults run.
pub proof fn lemma_unknown_mode_falls_back(f: ConfigFields, n: String)
    requires
        f.battery_auto_switch_mode == Some(n),
        mode_of_name(n@) is None,
    ensures
        config_of_fields(f) is None,
        config_or_default(Some(f)) == default_config(),
{
}

/// Writing a configuration puts every setting under its own field, and reading
/// those fields back gives each setting its own value again.
pub proof fn lemma_written_fields_are_own_settings(f: ConfigFields, c: CardwireConfigView)
    requires
        fields_of_config(f, c),
    ensures
        f.experimental_nvidia_block == Some(c.experimental_nvidia_block),
        f.external_display_auto_switch == Some(c.external_display_auto_switch),
        f.auto_apply_gpu_state == Some(c.auto_apply_gpu_state),
        f.battery_auto_switch == Some(c.battery_auto_switch),
        config_of_fields(f) is Some,
        config_of_fields(f).unwrap().experimental_nvidia_block == c.experimental_nvidia_block,
        config_of_fields(f).unwrap().external_display_auto_switch == c.external_display_auto_switch,
        config_of_fields(f).unwrap().auto_apply_gpu_state == c.auto_apply_gpu_state,
        config_of_fields(f).unwrap().battery_auto_switch == c.battery_auto_switch,
        config_of_fields(f).unwrap().battery_auto_switch_mode == c.battery_auto_switch_mode,
        config_of_fields(f).unwrap().allowed_programs == c.allowed_programs,
{
    crate::modes::lemma_mode_name_roundtrip(c.battery_auto_switch_mode);
}

/// Each field of a file that describes a configuration is read as the setting
/// of the same name: a present field gives its value, a missing one the default.
pub proof fn lemma_present_field_read_as_itself(f: ConfigFields)
    requires
        config_of_fields(f) is Some,
    ensures
        f.experimental_nvidia_block matches Some(b) ==> config_of_fields(f).unwrap().experimental_nvidia_block == b,
        f.experimental_nvidia_block is None ==> config_of_fields(f).unwrap().experimental_nvidia_block == false,
        f.external_display_auto_switch matches Some(b) ==> config_of_fields(f).unwrap().external_display_auto_switch == b,
        f.external_display_auto_switch is None ==> config_of_fields(f).unwrap().external_display_auto_switch == false,
        f.auto_apply_gpu_state matches Some(b) ==> config_of_fields(f).unwrap().auto_apply_gpu_state == b,
        f.auto_apply_gpu_state is None ==> config_of_fields(f).unwrap().auto_apply_gpu_state == true,
        f.battery_auto_switch matches Some(b) ==> config_of_fields(f).unwrap().battery_auto_switch == b,
        f.battery_auto_switch is None ==> config_of_fields(f).unwrap().battery_auto_switch == false,
        f.battery_auto_switch_mode matches Some(n) ==> mode_name(config_of_fields(f).unwrap().battery_auto_switch_mode) == n@,
        f.battery_auto_switch_mode is None ==> config_of_fields(f).unwrap().battery_auto_switch_mode == Modes::Hybrid,
        f.allowed_programs matches Some(v) ==> config_of_fields(f).unwrap().allowed_programs == string_views(v@),
        f.allowed_programs is None ==> config_of_fields(f).unwrap().allowed_programs.len() == 0,
{
    if f.battery_auto_switch_mode is Some {
        crate::modes::lemma_mode_of_name_exact(f.battery_auto_switch_mode.unwrap()@);
    }
}

/// The characters of a list of strings: one entry per string, in order.
pub proof fn lemma_string_views(v: Seq<String>)
    ensures
        string_views(v).len() == v.len(),
        forall|i: int| 0 <= i < v.len() ==> #[trigger] string_views(v)[i] == v[i]@,
{
}

} // verus!
