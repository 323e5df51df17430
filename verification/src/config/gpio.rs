//! Configuration of a user GPIO pin.

use vstd::prelude::*;
use crate::gpio::ChosenPinWithMode;
use crate::text::{ascii_lower, ascii_lowercase};

verus! {

/// Configuration of one user GPIO pin of the microcontroller.
#[derive(Debug, PartialEq, Eq)]
pub struct PinConfig {
    pub pin: ChosenPinWithMode,
    pub label: Option<String>,
}

/// Abstract view of a [`PinConfig`].
pub struct PinConfigView {
    pub pin: ChosenPinWithMode,
    pub label: Option<Seq<char>>,
}

impl View for PinConfig {
    type V = PinConfigView;

    open spec fn view(&self) -> PinConfigView {
        PinConfigView {
            pin: self.pin,
            label: match self.label {
                Some(l) => Some(l@),
                None => None,
            },
        }
    }
}

impl Clone for PinConfig {
    fn clone(&self) -> (copy: Self)
        ensures
            copy@ == self@,
    {
        let label = match &self.label {
            Some(l) => Some(l.clone()),
            None => None,
        };
        PinConfig { pin: self.pin, label }
    }
}

impl PinConfigView {
    /// The name the pin goes by: the user alias, or `p` followed by the pin
    /// name in lower case (`pa5`).
    pub open spec fn label_text(self) -> Seq<char> {
        match self.label {
            Some(l) => l,
            None => seq!['p'] + ascii_lower(self.pin.spec_pin().spec_name()),
        }
    }
}

impl PinConfig {
    /// Returns the user alias, or `p` followed by the pin name in lower case.
    pub fn label(&self) -> (label: String)
        ensures
            label@ == self@.label_text(),
    {
        match &self.label {
            Some(l) => l.clone(),
            None => {
                proof {
                    reveal_strlit("p");
                    assert("p"@ =~= seq!['p']);
                }
                let mut label = String::from_str("p");
                let lower = ascii_lowercase(self.pin.pin().variant_name());
                label.append(lower.as_str());
                label
            },
        }
    }
}

} // verus!
