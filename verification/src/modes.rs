//! The GPU modes the daemon can switch between, and their two external forms:
//! the number carried over D-Bus and the name written in the configuration file.

use vstd::prelude::*;
use vstd::string::*;
use crate::text::{decimal, decimal_digits, str_eq};

verus! {

/// A GPU mode.
#[derive(Clone, Copy, Debug, PartialEq, Eq, Structural)]
pub enum Modes {
    Integrated,
    Hybrid,
    Manual,
    Smart,
}

/// The number that stands for a mode on the bus.
pub open spec fn mode_number(m: Modes) -> u32 {
    match m {
        Modes::Integrated => 0,
        Modes::Hybrid => 1,
        Modes::Manual => 2,
        Modes::Smart => 3,
    }
}

/// The mode a number stands for, if any.
pub open spec fn mode_of_number(n: u32) -> Option<Modes> {
    if n == 0 {
        Some(Modes::Integrated)
    } else if n == 1 {
        Some(Modes::Hybrid)
    } else if n == 2 {
        Some(Modes::Manual)
    } else if n == 3 {
        Some(Modes::Smart)
    } else {
        None
    }
}

/// The error of converting a number that stands for no mode.
#[derive(Clone, Copy, Debug, PartialEq, Eq, Structural)]
pub struct InvalidMode {
    pub value: u32,
}

impl From<Modes> for u32 {
    fn from(m: Modes) -> (n: u32) {
        match m {
            Modes::Integrated => 0,
            Modes::Hybrid => 1,
            Modes::Manual => 2,
            Modes::Smart => 3,
        }
    }
}

impl vstd::std_specs::convert::FromSpecImpl<Modes> for u32 {
    open spec fn obeys_from_spec() -> bool {
        true
    }

    open spec fn from_spec(m: Modes) -> u32 {
        mode_number(m)
    }
}

impl TryFrom<u32> for Modes {
    type Error = InvalidMode;

    fn try_from(n: u32) -> (r: Result<Modes, InvalidMode>) {
        if n == 0 {
            Ok(Modes::Integrated)
        } else if n == 1 {
            Ok(Modes::Hybrid)
        } else if n == 2 {
            Ok(Modes::Manual)
        } else if n == 3 {
            Ok(Modes::Smart)
        } else {
            Err(InvalidMode { value: n })
        }
    }
}

impl vstd::std_specs::convert::TryFromSpecImpl<u32> for Modes {
    open spec fn obeys_try_from_spec() -> bool {
        true
    }

    open spec fn try_from_spec(n: u32) -> Result<Modes, InvalidMode> {
        match mode_of_number(n) {
            Some(m) => Ok(m),
            None => Err(InvalidMode { value: n }),
        }
    }
}

/// The name of a mode in the configuration file.
pub open spec fn mode_name(m: Modes) -> Seq<char> {
    match m {
        Modes::Integrated => "integrated"@,
        Modes::Hybrid => "hybrid"@,
        Modes::Manual => "manual"@,
        Modes::Smart => "smart"@,
    }
}

/// The mode a name in the configuration file stands for, if any.
pub open spec fn mode_of_name(s: Seq<char>) -> Option<Modes> {
    if s == mode_name(Modes::Integrated) {
        Some(Modes::Integrated)
    } else if s == mode_name(Modes::Hybrid) {
        Some(Modes::Hybrid)
    } else if s == mode_name(Modes::Manual) {
        Some(Modes::Manual)
    } else if s == mode_name(Modes::Smart) {
        Some(Modes::Smart)
    } else {
        None
    }
}

impl Modes {
    /// The name of this mode as the configuration file writes it.
    pub fn name(&self) -> (r: &'static str)
        ensures
            r@ == mode_name(*self),
    {
        match self {
            Modes::Integrated => "integrated",
            Modes::Hybrid => "hybrid",
            Modes::Manual => "manual",
            Modes::Smart => "smart",
        }
    }

    /// The mode that a name of the configuration file stands for; `None` for
    /// any other text (names are matched exactly, case included).
    pub fn from_name(name: &str) -> (r: Option<Modes>)
        ensures
            r == mode_of_name(name@),
    {
        if str_eq(name, "integrated") {
            Some(Modes::Integrated)
        } else if str_eq(name, "hybrid") {
            Some(Modes::Hybrid)
        } else if str_eq(name, "manual") {
            Some(Modes::Manual)
        } else if str_eq(name, "smart") {
            Some(Modes::Smart)
        } else {
            None
        }
    }
}

impl InvalidMode {
    /// The text of this error.
    pub fn message(&self) -> (r: String)
        ensures
            r@ == "invalid mode value: "@ + decimal_digits(self.value as nat),
    {
        let mut r = String::from_str("invalid mode value: ");
        let digits = decimal(self.value as u128);
        r.append(digits.as_str());
        r
    }
}

/// Converting a mode to its number and back gives the mode again.
pub proof fn lemma_mode_number_roundtrip(m: Modes)
    ensures
        mode_of_number(mode_number(m)) == Some(m),
{
}

/// A number converts to a mode exactly when it is the number of that mode.
pub proof fn lemma_mode_of_number_exact(n: u32, m: Modes)
    ensures
        mode_of_number(n) == Some(m) <==> mode_number(m) == n,
{
}

/// Writing a mode's name and reading it back gives the mode again.
pub proof fn lemma_mode_name_roundtrip(m: Modes)
    ensures
        mode_of_name(mode_name(m)) == Some(m),
{
    reveal_strlit("integrated");
    reveal_strlit("hybrid");
    reveal_strlit("manual");
    reveal_strlit("smart");
    assert("integrated"@.len() == 10);
    assert("hybrid"@.len() == 6);
    assert("manual"@.len() == 6);
    assert("smart"@.len() == 5);
    assert("hybrid"@[0] == 'h');
    assert("manual"@[0] == 'm');
}

/// A name read as a mode is that mode's name.
pub proof fn lemma_mode_of_name_exact(s: Seq<char>)
    ensures
        mode_of_name(s) matches Some(m) ==> mode_name(m) == s,
{
}

/// The bus numbers of the modes: Integrated 0, Hybrid 1, Manual 2, Smart 3;
/// no other number stands for a mode.
pub proof fn lemma_mode_numbers(n: u32)
    ensures
        mode_number(Modes::Integrated) == 0,
        mode_number(Modes::Hybrid) == 1,
        mode_number(Modes::Manual) == 2,
        mode_number(Modes::Smart) == 3,
        mode_of_number(0) == Some(Modes::Integrated),
        mode_of_number(1) == Some(Modes::Hybrid),
        mode_of_number(2) == Some(Modes::Manual),
        mode_of_number(3) == Some(Modes::Smart),
        n > 3 ==> mode_of_number(n) is None,
{
}

/// The names of the modes in the configuration file, and what they read as.
pub proof fn lemma_mode_names()
    ensures
        mode_name(Modes::Integrated) == "integrated"@,
        mode_name(Modes::Hybrid) == "hybrid"@,
        mode_name(Modes::Manual) == "manual"@,
        mode_name(Modes::Smart) == "smart"@,
        mode_of_name("integrated"@) == Some(Modes::Integrated),
        mode_of_name("hybrid"@) == Some(Modes::Hybrid),
        mode_of_name("manual"@) == Some(Modes::Manual),
        mode_of_name("smart"@) == Some(Modes::Smart),
{
    lemma_mode_name_roundtrip(Modes::Integrated);
    lemma_mode_name_roundtrip(Modes::Hybrid);
    lemma_mode_name_roundtrip(Modes::Manual);
    lemma_mode_name_roundtrip(Modes::Smart);
}

} // verus!
