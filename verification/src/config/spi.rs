//! Configuration of an SPI bus.

use vstd::prelude::*;
use crate::errors::ConfigError;
use crate::gpio::{ChosenPin, ChosenSpiBus};
use crate::text::strs_view;

verus! {

/// The pins of an optional line.
pub open spec fn opt_pin(pin: Option<ChosenPin>) -> Seq<ChosenPin> {
    match pin {
        Some(p) => seq![p],
        None => seq![],
    }
}

/// Configuration of one SPI bus.
#[derive(Debug, Clone, Copy, PartialEq, Eq, Structural)]
pub struct SpiConfig {
    pub bus: ChosenSpiBus,
    pub frequency_mhz: u32,
    pub mode: SpiMode,
    pub sck: ChosenPin,
    pub miso: Option<ChosenPin>,
    pub mosi: Option<ChosenPin>,
}

impl SpiConfig {
    /// The pins of the bus: SCK, then MISO and MOSI when present.
    pub open spec fn spec_uses_pins(self) -> Seq<ChosenPin> {
        seq![self.sck] + opt_pin(self.miso) + opt_pin(self.mosi)
    }

    /// The pin that `new` reports as reused, if any: MISO when it equals
    /// SCK, else MOSI when it equals SCK or MISO.
    pub open spec fn spec_reused_pin(sck: ChosenPin, miso: Option<ChosenPin>, mosi: Option<ChosenPin>) -> Option<ChosenPin> {
        if miso == Some(sck) {
            miso
        } else if mosi is Some && (mosi == Some(sck) || miso == mosi) {
            mosi
        } else {
            None
        }
    }

    /// Creates the configuration, refusing a pin used for two lines.
    pub fn new(
        bus: ChosenSpiBus,
        frequency_mhz: u32,
        mode: SpiMode,
        sck: ChosenPin,
        miso: Option<ChosenPin>,
        mosi: Option<ChosenPin>,
    ) -> (config: Result<Self, ConfigError>)
        ensures
            Self::spec_reused_pin(sck, miso, mosi) matches Some(p) ==> config == Err::<Self, ConfigError>(
                ConfigError::PinAlreadyInUse(p),
            ),
            Self::spec_reused_pin(sck, miso, mosi) is None ==> config == Ok::<Self, ConfigError>(
                SpiConfig { bus, frequency_mhz, mode, sck, miso, mosi },
            ),
    {
        if let Some(miso) = miso {
            if sck == miso {
                return Err(ConfigError::PinAlreadyInUse(miso));
            }
        }
        if let Some(mosi) = mosi {
            let reused = match miso {
                Some(m) => m == mosi,
                None => false,
            };
            if sck == mosi || reused {
                return Err(ConfigError::PinAlreadyInUse(mosi));
            }
        }
        Ok(SpiConfig { bus, frequency_mhz, mode, sck, miso, mosi })
    }

    /// Returns the pins of the bus: SCK, then MISO and MOSI when present.
    pub fn uses_pins(&self) -> (pins: Vec<ChosenPin>)
        ensures
            pins@ == self.spec_uses_pins(),
    {
        let mut pins = vec![self.sck];
        if let Some(miso) = self.miso {
            pins.push(miso);
        }
        if let Some(mosi) = self.mosi {
            pins.push(mosi);
        }
        proof {
            assert(pins@ =~= self.spec_uses_pins());
        }
        pins
    }
}

/// SPI mode, the combination of clock polarity (CPOL) and phase (CPHA).
#[derive(Debug, Clone, Copy, PartialEq, Eq, Structural)]
pub enum SpiMode {
    /// Polarity IdleLow (CPOL=0), phase CaptureOnFirstTransition (CPHA=0).
    Mode0,
    /// Polarity IdleLow (CPOL=0), phase CaptureOnSecondTransition (CPHA=1).
    Mode1,
    /// Polarity IdleHigh (CPOL=1), phase CaptureOnFirstTransition (CPHA=0).
    Mode2,
    /// Polarity IdleHigh (CPOL=1), phase CaptureOnSecondTransition (CPHA=1).
    Mode3,
}

impl Default for SpiMode {
    fn default() -> (mode: Self)
        ensures
            mode == SpiMode::Mode0,
    {
        SpiMode::Mode0
    }
}

impl SpiMode {
    /// Polarity and phase names of the HAL.
    pub open spec fn spec_template_vars(self) -> (Seq<char>, Seq<char>) {
        match self {
            SpiMode::Mode0 => ("IdleLow"@, "CaptureOnFirstTransition"@),
            SpiMode::Mode1 => ("IdleLow"@, "CaptureOnSecondTransition"@),
            SpiMode::Mode2 => ("IdleHigh"@, "CaptureOnFirstTransition"@),
            SpiMode::Mode3 => ("IdleHigh"@, "CaptureOnSecondTransition"@),
        }
    }

    /// The mode with number `idx`, if there is one.
    pub open spec fn spec_from_index(idx: nat) -> Option<SpiMode> {
        if idx == 0 {
            Some(SpiMode::Mode0)
        } else if idx == 1 {
            Some(SpiMode::Mode1)
        } else if idx == 2 {
            Some(SpiMode::Mode2)
        } else if idx == 3 {
            Some(SpiMode::Mode3)
        } else {
            None
        }
    }

    /// Number of the mode.
    pub open spec fn spec_index(self) -> nat {
        match self {
            SpiMode::Mode0 => 0,
            SpiMode::Mode1 => 1,
            SpiMode::Mode2 => 2,
            SpiMode::Mode3 => 3,
        }
    }

    /// Name of the mode, such as `"Mode0"`.
    pub open spec fn spec_label(self) -> Seq<char> {
        match self {
            SpiMode::Mode0 => "Mode0"@,
            SpiMode::Mode1 => "Mode1"@,
            SpiMode::Mode2 => "Mode2"@,
            SpiMode::Mode3 => "Mode3"@,
        }
    }

    /// Returns the name of the mode, such as `"Mode0"`.
    pub fn label(self) -> (label: &'static str)
        ensures
            label@ == self.spec_label(),
    {
        match self {
            SpiMode::Mode0 => "Mode0",
            SpiMode::Mode1 => "Mode1",
            SpiMode::Mode2 => "Mode2",
            SpiMode::Mode3 => "Mode3",
        }
    }

    /// Returns the polarity and phase names of the HAL.
    pub fn template_vars(&self) -> (vars: (&'static str, &'static str))
        ensures
            (vars.0@, vars.1@) == self.spec_template_vars(),
    {
        match self {
            SpiMode::Mode0 => ("IdleLow", "CaptureOnFirstTransition"),
            SpiMode::Mode1 => ("IdleLow", "CaptureOnSecondTransition"),
            SpiMode::Mode2 => ("IdleHigh", "CaptureOnFirstTransition"),
            SpiMode::Mode3 => ("IdleHigh", "CaptureOnSecondTransition"),
        }
    }

    /// Returns the mode with number `idx`, if there is one.
    pub fn from_index(idx: usize) -> (mode: Option<SpiMode>)
        ensures
            mode == Self::spec_from_index(idx as nat),
    {
        if idx == 0 {
            Some(SpiMode::Mode0)
        } else if idx == 1 {
            Some(SpiMode::Mode1)
        } else if idx == 2 {
            Some(SpiMode::Mode2)
        } else if idx == 3 {
            Some(SpiMode::Mode3)
        } else {
            None
        }
    }

    /// Returns the number of the mode.
    pub fn index(self) -> (idx: usize)
        ensures
            idx == self.spec_index(),
    {
        match self {
            SpiMode::Mode0 => 0,
            SpiMode::Mode1 => 1,
            SpiMode::Mode2 => 2,
            SpiMode::Mode3 => 3,
        }
    }

    /// Returns the names of every mode, in order.
    pub fn labels() -> (labels: Vec<&'static str>)
        ensures
            strs_view(labels@) == seq!["Mode0"@, "Mode1"@, "Mode2"@, "Mode3"@],
    {
        let labels = vec!["Mode0", "Mode1", "Mode2", "Mode3"];
        proof {
            assert(strs_view(labels@) =~= seq!["Mode0"@, "Mode1"@, "Mode2"@, "Mode3"@]);
        }
        labels
    }

    /// Returns every mode, in order.
    pub fn all() -> (modes: Vec<SpiMode>)
        ensures
            modes@ == seq![SpiMode::Mode0, SpiMode::Mode1, SpiMode::Mode2, SpiMode::Mode3],
    {
        vec![SpiMode::Mode0, SpiMode::Mode1, SpiMode::Mode2, SpiMode::Mode3]
    }
}

/// A configuration that `SpiConfig::new` accepts uses each pin once.
pub proof fn lemma_new_accepts_distinct_pins(sck: ChosenPin, miso: Option<ChosenPin>, mosi: Option<ChosenPin>)
    ensures
        SpiConfig::spec_reused_pin(sck, miso, mosi) is None <==> (seq![sck] + opt_pin(miso) + opt_pin(mosi)).no_duplicates(),
{
    let s = seq![sck] + opt_pin(miso) + opt_pin(mosi);
    if SpiConfig::spec_reused_pin(sck, miso, mosi) is None {
        assert forall|i: int, j: int| 0 <= i < s.len() && 0 <= j < s.len() && i != j implies s[i] != s[j] by {
            match (miso, mosi) {
                (Some(a), Some(b)) => assert(s =~= seq![sck, a, b]),
                (Some(a), None) => assert(s =~= seq![sck, a]),
                (None, Some(b)) => assert(s =~= seq![sck, b]),
                (None, None) => assert(s =~= seq![sck]),
            }
        }
    } else {
        match (miso, mosi) {
            (Some(a), Some(b)) => {
                assert(s =~= seq![sck, a, b]);
                if a == sck {
                    assert(s[0] == s[1]);
                } else if b == sck {
                    assert(s[0] == s[2]);
                } else {
                    assert(s[1] == s[2]);
                }
            },
            (Some(a), None) => {
                assert(s =~= seq![sck, a]);
                assert(s[0] == s[1]);
            },
            (None, Some(b)) => {
                assert(s =~= seq![sck, b]);
                assert(s[0] == s[1]);
            },
            (None, None) => {},
        }
    }
}

} // verus!
