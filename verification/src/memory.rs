//! The settings the daemon holds while it runs, served and changed over D-Bus
//! and written back to the configuration file. The battery mode is held as the
//! number the bus carries, and only numbers that stand for a mode are ever
//! stored.

use vstd::prelude::*;
use crate::config::{CardwireConfig, CardwireConfigView, clone_strings, string_views};
use crate::interface::InterfaceError;
use crate::modes::{Modes, mode_number, mode_of_number};
use crate::text::decimal_digits;

verus! {

/// What the in-memory settings hold.
pub struct ConfigMemoryView {
    pub auto_apply_gpu_state: bool,
    pub experimental_nvidia_block: bool,
    pub battery_auto_switch: bool,
    pub battery_auto_switch_mode: u32,
    pub external_display_auto_switch: bool,
    pub allowed_programs: Seq<Seq<char>>,
}

/// The settings loaded from a configuration.
pub open spec fn memory_of_config(c: CardwireConfigView) -> ConfigMemoryView {
    ConfigMemoryView {
        auto_apply_gpu_state: c.auto_apply_gpu_state,
        experimental_nvidia_block: c.experimental_nvidia_block,
        battery_auto_switch: c.battery_auto_switch,
        battery_auto_switch_mode: mode_number(c.battery_auto_switch_mode),
        external_display_auto_switch: c.external_display_auto_switch,
        allowed_programs: c.allowed_programs,
    }
}

/// The configuration that settings with a valid mode number are saved as.
pub open spec fn config_of_memory(m: ConfigMemoryView) -> CardwireConfigView {
    CardwireConfigView {
        auto_apply_gpu_state: m.auto_apply_gpu_state,
        experimental_nvidia_block: m.experimental_nvidia_block,
        battery_auto_switch: m.battery_auto_switch,
        battery_auto_switch_mode: mode_of_number(m.battery_auto_switch_mode).unwrap(),
        external_display_auto_switch: m.external_display_auto_switch,
        allowed_programs: m.allowed_programs,
    }
}

/// The settings of the running daemon.
pub struct ConfigMemory {
    auto_apply_gpu_state: bool,
    experimental_nvidia_block: bool,
    battery_auto_switch: bool,
    battery_auto_switch_mode: u32,
    external_display_auto_switch: bool,
    allowed_programs: Vec<String>,
}

impl View for ConfigMemory {
    type V = ConfigMemoryView;

    closed spec fn view(&self) -> ConfigMemoryView {
        ConfigMemoryView {
            auto_apply_gpu_state: self.auto_apply_gpu_state,
            experimental_nvidia_block: self.experimental_nvidia_block,
            battery_auto_switch: self.battery_auto_switch,
            battery_auto_switch_mode: self.battery_auto_switch_mode,
            external_display_auto_switch: self.external_display_auto_switch,
            allowed_programs: string_views(self.allowed_programs@),
        }
    }
}

impl ConfigMemory {
    /// The stored mode number always stands for a mode.
    #[verifier::type_invariant]
    spec fn mode_is_valid(self) -> bool {
        mode_of_number(self.battery_auto_switch_mode) is Some
    }

    /// The settings loaded from a user configuration.
    pub fn build(user_config: CardwireConfig) -> (r: ConfigMemory)
        ensures
            r@ == memory_of_config(user_config@),
            r@.auto_apply_gpu_state == user_config@.auto_apply_gpu_state,
            r@.experimental_nvidia_block == user_config@.experimental_nvidia_block,
            r@.battery_auto_switch == user_config@.battery_auto_switch,
            r@.battery_auto_switch_mode == mode_number(user_config@.battery_auto_switch_mode),
            r@.external_display_auto_switch == user_config@.external_display_auto_switch,
            r@.allowed_programs == user_config@.allowed_programs,
    {
        let mode: u32 = user_config.battery_auto_switch_mode().into();
        let r = ConfigMemory {
            auto_apply_gpu_state: user_config.auto_apply_gpu_state(),
            experimental_nvidia_block: user_config.experimental_nvidia_block(),
            battery_auto_switch: user_config.battery_auto_switch(),
            battery_auto_switch_mode: mode,
            external_display_auto_switch: user_config.external_display_auto_switch(),
            allowed_programs: clone_strings(user_config.allowed_programs()),
        };
        r
    }

    pub fn auto_apply_gpu_state(&self) -> (r: bool)
        ensures
            r == self@.auto_apply_gpu_state,
    {
        self.auto_apply_gpu_state
    }

    pub fn experimental_nvidia_block(&self) -> (r: bool)
        ensures
            r == self@.experimental_nvidia_block,
    {
        self.experimental_nvidia_block
    }

    pub fn battery_auto_switch(&self) -> (r: bool)
        ensures
            r == self@.battery_auto_switch,
    {
        self.battery_auto_switch
    }

    /// The battery mode, as the number the bus carries.
    pub fn battery_auto_switch_mode(&self) -> (r: u32)
        ensures
            r == self@.battery_auto_switch_mode,
            mode_of_number(r) is Some,
    {
        proof {
            use_type_invariant(self);
        }
        self.battery_auto_switch_mode
    }

    pub fn external_display_auto_switch(&self) -> (r: bool)
        ensures
            r == self@.external_display_auto_switch,
    {
        self.external_display_auto_switch
    }

    pub fn allowed_programs(&self) -> (r: &[String])
        ensures
            string_views(r@) == self@.allowed_programs,
    {
        self.allowed_programs.as_slice()
    }

    pub fn set_auto_apply_gpu_state(&mut self, state: bool)
        ensures
            final(self)@ == (ConfigMemoryView { auto_apply_gpu_state: state, ..old(self)@ }),
    {
        proof {
            use_type_invariant(&*self);
        }
        self.auto_apply_gpu_state = state;
    }

    pub fn set_experimental_nvidia_block(&mut self, state: bool)
        ensures
            final(self)@ == (ConfigMemoryView { experimental_nvidia_block: state, ..old(self)@ }),
    {
        proof {
            use_type_invariant(&*self);
        }
        self.experimental_nvidia_block = state;
    }

    pub fn set_battery_auto_switch(&mut self, state: bool)
        ensures
            final(self)@ == (ConfigMemoryView { battery_auto_switch: state, ..old(self)@ }),
    {
        proof {
            use_type_invariant(&*self);
        }
        self.battery_auto_switch = state;
    }

    pub fn set_external_display_auto_switch(&mut self, state: bool)
        ensures
            final(self)@ == (ConfigMemoryView { external_display_auto_switch: state, ..old(self)@ }),
    {
        proof {
            use_type_invariant(&*self);
        }
        self.external_display_auto_switch = state;
    }

    /// Stores a battery mode given as a bus number, after checking that the
    /// number stands for a mode; a number that does not is refused with
    /// `InvalidArgs` and leaves the settings as they were.
    pub fn set_battery_auto_switch_mode(&mut self, mode: u32) -> (r: Result<(), InterfaceError>)
        ensures
            mode_of_number(mode) is Some ==> r is Ok && final(self)@ == (ConfigMemoryView {
                battery_auto_switch_mode: mode,
                ..old(self)@
            }),
            mode_of_number(mode) is None ==> final(self)@ == old(self)@,
            mode_of_number(mode) is None ==> (r matches Err(InterfaceError::InvalidArgs(msg))
                && msg@ == "invalid mode value: "@ + decimal_digits(mode as nat)),
    {
        match Modes::try_from(mode) {
            Ok(_) => {
                self.battery_auto_switch_mode = mode;
                Ok(())
            },
            Err(err) => Err(InterfaceError::InvalidArgs(err.message())),
        }
    }

    /// The configuration these settings are saved as.
    pub fn to_config(&self) -> (r: CardwireConfig)
        ensures
            r@ == config_of_memory(self@),
            r@.auto_apply_gpu_state == self@.auto_apply_gpu_state,
            r@.experimental_nvidia_block == self@.experimental_nvidia_block,
            r@.battery_auto_switch == self@.battery_auto_switch,
            mode_number(r@.battery_auto_switch_mode) == self@.battery_auto_switch_mode,
            mode_of_number(self@.battery_auto_switch_mode) == Some(r@.battery_auto_switch_mode),
            r@.external_display_auto_switch == self@.external_display_auto_switch,
            r@.allowed_programs == self@.allowed_programs,
    {
        proof {
            use_type_invariant(self);
        }
        let mode = match Modes::try_from(self.battery_auto_switch_mode) {
            Ok(m) => m,
            Err(_) => {
                proof {
                    assert(false);
                }
                Modes::Hybrid
            },
        };
        CardwireConfig::new(
            self.auto_apply_gpu_state,
            self.experimental_nvidia_block,
            self.battery_auto_switch,
            mode,
            self.external_display_auto_switch,
            clone_strings(self.allowed_programs.as_slice()),
        )
    }
}

/// Loading a configuration into memory and saving it back gives the same
/// configuration.
pub proof fn lemma_memory_roundtrip(c: CardwireConfigView)
    ensures
        config_of_memory(memory_of_config(c)) == c,
        mode_of_number(memory_of_config(c).battery_auto_switch_mode) is Some,
{
    crate::modes::lemma_mode_number_roundtrip(c.battery_auto_switch_mode);
}

/// Loading a configuration keeps every setting in the slot of the same name,
/// and stores the battery mode as its bus number.
pub proof fn lemma_load_keeps_each_setting(c: CardwireConfigView)
    ensures
        memory_of_config(c).auto_apply_gpu_state == c.auto_apply_gpu_state,
        memory_of_config(c).experimental_nvidia_block == c.experimental_nvidia_block,
        memory_of_config(c).battery_auto_switch == c.battery_auto_switch,
        memory_of_config(c).battery_auto_switch_mode == mode_number(c.battery_auto_switch_mode),
        memory_of_config(c).external_display_auto_switch == c.external_display_auto_switch,
        memory_of_config(c).allowed_programs == c.allowed_programs,
{
}

/// Saving settings whose mode number stands for a mode keeps every setting
/// under its own name, and saves the mode that the stored number stands for.
pub proof fn lemma_save_keeps_each_setting(m: ConfigMemoryView)
    requires
        mode_of_number(m.battery_auto_switch_mode) is Some,
    ensures
        config_of_memory(m).auto_apply_gpu_state == m.auto_apply_gpu_state,
        config_of_memory(m).experimental_nvidia_block == m.experimental_nvidia_block,
        config_of_memory(m).battery_auto_switch == m.battery_auto_switch,
        mode_number(config_of_memory(m).battery_auto_switch_mode) == m.battery_auto_switch_mode,
        config_of_memory(m).external_display_auto_switch == m.external_display_auto_switch,
        config_of_memory(m).allowed_programs == m.allowed_programs,
{
    crate::modes::lemma_mode_of_number_exact(
        m.battery_auto_switch_mode,
        mode_of_number(m.battery_auto_switch_mode).unwrap(),
    );
}

} // verus!
