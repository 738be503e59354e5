//! Client option values that hold no floating point: the particle setting
//! and its stored forms, and option defaults.
use vstd::prelude::*;
use crate::text::{spec_to_ascii_lower, to_ascii_lower};

verus! {

/// The frame-rate option value that means no limit.
pub const UNLIMITED_FRAMERATE: u32 = 1000;

/// How many particles are drawn.
#[derive(Clone, Copy, Debug, PartialEq, Eq, Structural)]
pub enum ParticleSetting {
    All,
    Decreased,
    Minimal,
}

/// The name of each particle setting.
pub open spec fn spec_particle_label(p: ParticleSetting) -> Seq<char> {
    match p {
        ParticleSetting::All => seq!['A', 'l', 'l'],
        ParticleSetting::Decreased => seq!['D', 'e', 'c', 'r', 'e', 'a', 's', 'e', 'd'],
        ParticleSetting::Minimal => seq!['M', 'i', 'n', 'i', 'm', 'a', 'l'],
    }
}

/// The setting after `p` in the cycle All, Decreased, Minimal.
pub open spec fn spec_particle_next(p: ParticleSetting) -> ParticleSetting {
    match p {
        ParticleSetting::All => ParticleSetting::Decreased,
        ParticleSetting::Decreased => ParticleSetting::Minimal,
        ParticleSetting::Minimal => ParticleSetting::All,
    }
}

impl ParticleSetting {
    /// The next setting of the cycle.
    pub fn next(self) -> (r: ParticleSetting)
        ensures
            r == spec_particle_next(self),
    {
        match self {
            ParticleSetting::All => ParticleSetting::Decreased,
            ParticleSetting::Decreased => ParticleSetting::Minimal,
            ParticleSetting::Minimal => ParticleSetting::All,
        }
    }

    /// Particles are drawn unless the setting is Minimal.
    pub fn enabled(self) -> (r: bool)
        ensures
            r == (self != ParticleSetting::Minimal),
    {
        !matches!(self, ParticleSetting::Minimal)
    }

    /// The name shown for the setting.
    pub fn label(self) -> (r: &'static str)
        ensures
            r@ == spec_particle_label(self),
    {
        match self {
            ParticleSetting::All => {
                proof {
                    reveal_strlit("All");
                }
                "All"
            },
            ParticleSetting::Decreased => {
                proof {
                    reveal_strlit("Decreased");
                }
                "Decreased"
            },
            ParticleSetting::Minimal => {
                proof {
                    reveal_strlit("Minimal");
                }
                "Minimal"
            },
        }
    }
}

impl Default for ParticleSetting {
    fn default() -> (r: ParticleSetting)
        ensures
            r == ParticleSetting::All,
    {
        ParticleSetting::All
    }
}

/// Three steps of the cycle come back to the start.
pub proof fn lemma_particle_cycle(p: ParticleSetting)
    ensures
        spec_particle_next(spec_particle_next(spec_particle_next(p))) == p,
{
}

/// A stored particle option: a flag, a name, or anything else.
#[derive(Clone, Debug)]
pub enum ParticleValue {
    Flag(bool),
    Name(String),
    Other,
}

/// The characters of `s` with ASCII letters made lower case.
pub open spec fn ascii_lowercase(s: Seq<char>) -> Seq<char> {
    s.map_values(|c: char| spec_to_ascii_lower(c))
}

/// `a` equals `b` ignoring ASCII case.
pub open spec fn spec_eq_ignore_ascii_case(a: Seq<char>, b: Seq<char>) -> bool {
    ascii_lowercase(a) == ascii_lowercase(b)
}

/// Whether `a` equals `b` ignoring ASCII case.
pub fn eq_ignore_ascii_case(a: &str, b: &str) -> (r: bool)
    ensures
        r == spec_eq_ignore_ascii_case(a@, b@),
{
    let n = a.unicode_len();
    if n != b.unicode_len() {
        assert(ascii_lowercase(a@).len() != ascii_lowercase(b@).len());
        return false;
    }
    let mut i: usize = 0;
    while i < n
        invariant
            n == a@.len() == b@.len(),
            i <= n,
            forall|k: int| 0 <= k < i ==> spec_to_ascii_lower(a@[k]) == spec_to_ascii_lower(b@[k]),
        decreases n - i,
    {
        if to_ascii_lower(a.get_char(i)) != to_ascii_lower(b.get_char(i)) {
            assert(ascii_lowercase(a@)[i as int] != ascii_lowercase(b@)[i as int]);
            return false;
        }
        i = i + 1;
    }
    assert(ascii_lowercase(a@) =~= ascii_lowercase(b@));
    true
}

/// The setting a stored value means: `true` All, `false` Minimal, the
/// names "decreased" and "minimal" in any ASCII case, anything else All.
pub open spec fn spec_particle_from_value(v: ParticleValue) -> ParticleSetting {
    match v {
        ParticleValue::Flag(b) => if b {
            ParticleSetting::All
        } else {
            ParticleSetting::Minimal
        },
        ParticleValue::Name(s) => if spec_eq_ignore_ascii_case(
            s@,
            seq!['d', 'e', 'c', 'r', 'e', 'a', 's', 'e', 'd'],
        ) {
            ParticleSetting::Decreased
        } else if spec_eq_ignore_ascii_case(s@, seq!['m', 'i', 'n', 'i', 'm', 'a', 'l']) {
            ParticleSetting::Minimal
        } else {
            ParticleSetting::All
        },
        ParticleValue::Other => ParticleSetting::All,
    }
}

impl ParticleSetting {
    /// Reads a stored particle option, accepting the older flag form.
    pub fn from_value(v: &ParticleValue) -> (r: ParticleSetting)
        ensures
            r == spec_particle_from_value(*v),
    {
        match v {
            ParticleValue::Flag(b) => if *b {
                ParticleSetting::All
            } else {
                ParticleSetting::Minimal
            },
            ParticleValue::Name(s) => {
                proof {
                    reveal_strlit("decreased");
                    reveal_strlit("minimal");
                    assert("decreased"@ =~= seq!['d', 'e', 'c', 'r', 'e', 'a', 's', 'e', 'd']);
                    assert("minimal"@ =~= seq!['m', 'i', 'n', 'i', 'm', 'a', 'l']);
                }
                if eq_ignore_ascii_case(s.as_str(), "decreased") {
                    ParticleSetting::Decreased
                } else if eq_ignore_ascii_case(s.as_str(), "minimal") {
                    ParticleSetting::Minimal
                } else {
                    ParticleSetting::All
                }
            },
            ParticleValue::Other => ParticleSetting::All,
        }
    }
}

/// The audio device used until one is chosen: "default".
pub fn default_audio_device() -> (r: String)
    ensures
        r@ == seq!['d', 'e', 'f', 'a', 'u', 'l', 't'],
{
    proof {
        reveal_strlit("default");
    }
    "default".to_owned()
}

/// Weather effects are on unless turned off.
pub fn default_weather_effects() -> (r: bool)
    ensures
        r,
{
    true
}

} // verus!
