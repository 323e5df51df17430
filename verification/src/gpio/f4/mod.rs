//! GPIO modes of the STM32F4 family.

pub mod f401;

use vstd::prelude::*;
use crate::gpio::{PinModeUiInfo, PropertyView, properties_view};
use crate::text::{pascal_case, snake_case, strs_view};

verus! {

/// Input configuration of a pin.
#[derive(Debug, Clone, Copy, PartialEq, Eq, Structural)]
pub enum StmF4InputMode {
    Floating,
    PullUp,
    PullDown,
}

impl StmF4InputMode {
    /// Position of the variant in declaration order.
    pub open spec fn spec_index(self) -> nat {
        match self {
            StmF4InputMode::Floating => 0,
            StmF4InputMode::PullUp => 1,
            StmF4InputMode::PullDown => 2,
        }
    }

    /// Display label of the variant.
    pub open spec fn spec_label(self) -> Seq<char> {
        match self {
            StmF4InputMode::Floating => "Floating"@,
            StmF4InputMode::PullUp => "Pull up"@,
            StmF4InputMode::PullDown => "Pull down"@,
        }
    }

    /// Display labels of every variant, in declaration order.
    pub open spec fn spec_labels() -> Seq<Seq<char>> {
        seq!["Floating"@, "Pull up"@, "Pull down"@]
    }

    /// The variant at position `idx`, if there is one.
    pub open spec fn spec_from_index(idx: nat) -> Option<Self> {
        if idx == 0 {
            Some(StmF4InputMode::Floating)
        } else if idx == 1 {
            Some(StmF4InputMode::PullUp)
        } else if idx == 2 {
            Some(StmF4InputMode::PullDown)
        } else {
            None
        }
    }

    /// Returns the position of the variant in declaration order.
    pub fn index(self) -> (idx: usize)
        ensures
            idx == self.spec_index(),
    {
        match self {
            StmF4InputMode::Floating => 0,
            StmF4InputMode::PullUp => 1,
            StmF4InputMode::PullDown => 2,
        }
    }

    /// Returns the variant at position `idx`, if there is one.
    pub fn from_index(idx: usize) -> (mode: Option<Self>)
        ensures
            mode == Self::spec_from_index(idx as nat),
    {
        if idx == 0 {
            Some(StmF4InputMode::Floating)
        } else if idx == 1 {
            Some(StmF4InputMode::PullUp)
        } else if idx == 2 {
            Some(StmF4InputMode::PullDown)
        } else {
            None
        }
    }

    /// Returns the display label of the variant.
    pub fn label(self) -> (label: &'static str)
        ensures
            label@ == self.spec_label(),
    {
        match self {
            StmF4InputMode::Floating => "Floating",
            StmF4InputMode::PullUp => "Pull up",
            StmF4InputMode::PullDown => "Pull down",
        }
    }

    /// Returns the display labels of every variant, in declaration order.
    pub fn labels() -> (labels: Vec<&'static str>)
        ensures
            strs_view(labels@) == Self::spec_labels(),
    {
        let labels = vec!["Floating", "Pull up", "Pull down"];
        proof {
            assert(strs_view(labels@) =~= Self::spec_labels());
        }
        labels
    }
}

impl StmF4InputMode {
    /// Name of the HAL method that puts the pin in this input mode.
    pub open spec fn spec_method_name(self) -> Seq<char> {
        match self {
            StmF4InputMode::Floating => "into_floating_input"@,
            StmF4InputMode::PullUp => "into_pull_up_input"@,
            StmF4InputMode::PullDown => "into_pull_down_input"@,
        }
    }

    /// Name of the HAL method that puts the pin in this input mode.
    pub fn method_name(&self) -> (name: &'static str)
        ensures
            name@ == self.spec_method_name(),
    {
        match self {
            StmF4InputMode::Floating => "into_floating_input",
            StmF4InputMode::PullUp => "into_pull_up_input",
            StmF4InputMode::PullDown => "into_pull_down_input",
        }
    }
}

/// Output slew rate of a pin.
#[derive(Debug, Clone, Copy, PartialEq, Eq, Structural)]
pub enum StmF4OutputSpeed {
    /// About 4 MHz, for slow signals.
    Low,
    /// About 25 MHz, for general use.
    Medium,
    /// About 50 MHz, for fast SPI or SDIO.
    High,
    /// About 100 MHz; the Black Pill board is not laid out for such frequencies.
    VeryHigh,
}

impl StmF4OutputSpeed {
    /// Position of the variant in declaration order.
    pub open spec fn spec_index(self) -> nat {
        match self {
            StmF4OutputSpeed::Low => 0,
            StmF4OutputSpeed::Medium => 1,
            StmF4OutputSpeed::High => 2,
            StmF4OutputSpeed::VeryHigh => 3,
        }
    }

    /// Display label of the variant.
    pub open spec fn spec_label(self) -> Seq<char> {
        match self {
            StmF4OutputSpeed::Low => "Low"@,
            StmF4OutputSpeed::Medium => "Medium"@,
            StmF4OutputSpeed::High => "High"@,
            StmF4OutputSpeed::VeryHigh => "Very high"@,
        }
    }

    /// Display labels of every variant, in declaration order.
    pub open spec fn spec_labels() -> Seq<Seq<char>> {
        seq!["Low"@, "Medium"@, "High"@, "Very high"@]
    }

    /// The variant at position `idx`, if there is one.
    pub open spec fn spec_from_index(idx: nat) -> Option<Self> {
        if idx == 0 {
            Some(StmF4OutputSpeed::Low)
        } else if idx == 1 {
            Some(StmF4OutputSpeed::Medium)
        } else if idx == 2 {
            Some(StmF4OutputSpeed::High)
        } else if idx == 3 {
            Some(StmF4OutputSpeed::VeryHigh)
        } else {
            None
        }
    }

    /// Returns the position of the variant in declaration order.
    pub fn index(self) -> (idx: usize)
        ensures
            idx == self.spec_index(),
    {
        match self {
            StmF4OutputSpeed::Low => 0,
            StmF4OutputSpeed::Medium => 1,
            StmF4OutputSpeed::High => 2,
            StmF4OutputSpeed::VeryHigh => 3,
        }
    }

    /// Returns the variant at position `idx`, if there is one.
    pub fn from_index(idx: usize) -> (mode: Option<Self>)
        ensures
            mode == Self::spec_from_index(idx as nat),
    {
        if idx == 0 {
            Some(StmF4OutputSpeed::Low)
        } else if idx == 1 {
            Some(StmF4OutputSpeed::Medium)
        } else if idx == 2 {
            Some(StmF4OutputSpeed::High)
        } else if idx == 3 {
            Some(StmF4OutputSpeed::VeryHigh)
        } else {
            None
        }
    }

    /// Returns the display label of the variant.
    pub fn label(self) -> (label: &'static str)
        ensures
            label@ == self.spec_label(),
    {
        match self {
            StmF4OutputSpeed::Low => "Low",
            StmF4OutputSpeed::Medium => "Medium",
            StmF4OutputSpeed::High => "High",
            StmF4OutputSpeed::VeryHigh => "Very high",
        }
    }

    /// Returns the display labels of every variant, in declaration order.
    pub fn labels() -> (labels: Vec<&'static str>)
        ensures
            strs_view(labels@) == Self::spec_labels(),
    {
        let labels = vec!["Low", "Medium", "High", "Very high"];
        proof {
            assert(strs_view(labels@) =~= Self::spec_labels());
        }
        labels
    }
}

impl StmF4OutputSpeed {
    /// Name of the HAL speed constant.
    pub open spec fn spec_speed_name(self) -> Seq<char> {
        match self {
            StmF4OutputSpeed::Low => "Low"@,
            StmF4OutputSpeed::Medium => "Medium"@,
            StmF4OutputSpeed::High => "High"@,
            StmF4OutputSpeed::VeryHigh => "VeryHigh"@,
        }
    }

    /// Name of the HAL speed constant.
    pub fn speed_name(&self) -> (name: &'static str)
        ensures
            name@ == self.spec_speed_name(),
    {
        match self {
            StmF4OutputSpeed::Low => "Low",
            StmF4OutputSpeed::Medium => "Medium",
            StmF4OutputSpeed::High => "High",
            StmF4OutputSpeed::VeryHigh => "VeryHigh",
        }
    }
}

/// Output driver of a pin.
#[derive(Debug, Clone, Copy, PartialEq, Eq, Structural)]
pub enum StmF4OutputMode {
    /// Drives both the high and the low level; the usual choice.
    PushPull,
    /// Drives only the low level; the high level comes from a pull-up, as on I2C.
    OpenDrain,
}

impl StmF4OutputMode {
    /// Position of the variant in declaration order.
    pub open spec fn spec_index(self) -> nat {
        match self {
            StmF4OutputMode::PushPull => 0,
            StmF4OutputMode::OpenDrain => 1,
        }
    }

    /// Display label of the variant.
    pub open spec fn spec_label(self) -> Seq<char> {
        match self {
            StmF4OutputMode::PushPull => "Push pull"@,
            StmF4OutputMode::OpenDrain => "Open drain"@,
        }
    }

    /// Display labels of every variant, in declaration order.
    pub open spec fn spec_labels() -> Seq<Seq<char>> {
        seq!["Push pull"@, "Open drain"@]
    }

    /// The variant at position `idx`, if there is one.
    pub open spec fn spec_from_index(idx: nat) -> Option<Self> {
        if idx == 0 {
            Some(StmF4OutputMode::PushPull)
        } else if idx == 1 {
            Some(StmF4OutputMode::OpenDrain)
        } else {
            None
        }
    }

    /// Returns the position of the variant in declaration order.
    pub fn index(self) -> (idx: usize)
        ensures
            idx == self.spec_index(),
    {
        match self {
            StmF4OutputMode::PushPull => 0,
            StmF4OutputMode::OpenDrain => 1,
        }
    }

    /// Returns the variant at position `idx`, if there is one.
    pub fn from_index(idx: usize) -> (mode: Option<Self>)
        ensures
            mode == Self::spec_from_index(idx as nat),
    {
        if idx == 0 {
            Some(StmF4OutputMode::PushPull)
        } else if idx == 1 {
            Some(StmF4OutputMode::OpenDrain)
        } else {
            None
        }
    }

    /// Returns the display label of the variant.
    pub fn label(self) -> (label: &'static str)
        ensures
            label@ == self.spec_label(),
    {
        match self {
            StmF4OutputMode::PushPull => "Push pull",
            StmF4OutputMode::OpenDrain => "Open drain",
        }
    }

    /// Returns the display labels of every variant, in declaration order.
    pub fn labels() -> (labels: Vec<&'static str>)
        ensures
            strs_view(labels@) == Self::spec_labels(),
    {
        let labels = vec!["Push pull", "Open drain"];
        proof {
            assert(strs_view(labels@) =~= Self::spec_labels());
        }
        labels
    }
}

impl StmF4OutputMode {
    /// Name of the HAL method that puts the pin in this output mode.
    pub open spec fn spec_method_name(self) -> Seq<char> {
        match self {
            StmF4OutputMode::PushPull => "into_push_pull_output"@,
            StmF4OutputMode::OpenDrain => "into_open_drain_output"@,
        }
    }

    /// Name of the HAL method that puts the pin in this output mode.
    pub fn method_name(&self) -> (name: &'static str)
        ensures
            name@ == self.spec_method_name(),
    {
        match self {
            StmF4OutputMode::PushPull => "into_push_pull_output",
            StmF4OutputMode::OpenDrain => "into_open_drain_output",
        }
    }
}

/// GPIO mode of an STM32F4 pin.
#[derive(Debug, Clone, Copy, PartialEq, Eq, Structural)]
pub enum StmF4PinMode {
    Input(StmF4InputMode),
    Output(StmF4OutputMode, StmF4OutputSpeed),
}

impl StmF4PinMode {
    /// The mode a freshly selected pin starts in: a pulled-up input.
    pub open spec fn spec_default() -> Self {
        StmF4PinMode::Input(StmF4InputMode::PullUp)
    }

    /// Template variables of the mode: HAL method, whether the pin is an
    /// output, and the speed of an output.
    pub open spec fn spec_template_vars(self) -> (Seq<char>, bool, Option<Seq<char>>) {
        match self {
            StmF4PinMode::Input(input_mode) => (input_mode.spec_method_name(), false, None),
            StmF4PinMode::Output(out_mode, out_speed) => (out_mode.spec_method_name(), true, Some(out_speed.spec_speed_name())),
        }
    }

    /// Returns the template variables of the mode: the HAL method, whether
    /// the pin is an output, and the speed of an output.
    pub fn template_vars(&self) -> (vars: (&'static str, bool, Option<&'static str>))
        ensures
            (vars.0@, vars.1, match vars.2 {
                Some(s) => Some(s@),
                None => None,
            }) == self.spec_template_vars(),
    {
        match self {
            StmF4PinMode::Input(input_mode) => (input_mode.method_name(), false, None),
            StmF4PinMode::Output(out_mode, out_speed) => (out_mode.method_name(), true, Some(out_speed.speed_name())),
        }
    }
}

impl Default for StmF4PinMode {
    fn default() -> (mode: Self)
        ensures
            mode == Self::spec_default(),
    {
        StmF4PinMode::Input(StmF4InputMode::PullUp)
    }
}

impl PinModeUiInfo for StmF4PinMode {
    open spec fn spec_mode_variants(&self) -> Seq<Seq<char>> {
        seq!["Input"@, "Onput"@]
    }

    open spec fn spec_mode_index(&self) -> nat {
        match self {
            StmF4PinMode::Input(_) => 0,
            StmF4PinMode::Output(_, _) => 1,
        }
    }

    open spec fn spec_set_mode_index(&self, idx: nat) -> Self {
        if idx == 0 {
            StmF4PinMode::Input(StmF4InputMode::PullUp)
        } else if idx == 1 {
            StmF4PinMode::Output(StmF4OutputMode::PushPull, StmF4OutputSpeed::Low)
        } else {
            *self
        }
    }

    open spec fn spec_properties(&self) -> Seq<PropertyView> {
        match self {
            StmF4PinMode::Input(input_mode) => seq![("Режим входа"@, StmF4InputMode::spec_labels(), input_mode.spec_index())],
            StmF4PinMode::Output(out_mode, out_speed) => seq![
                ("Тип выхода"@, StmF4OutputMode::spec_labels(), out_mode.spec_index()),
                ("Скорость"@, StmF4OutputSpeed::spec_labels(), out_speed.spec_index()),
            ],
        }
    }

    open spec fn spec_set_property(&self, prop_idx: nat, variant_idx: nat) -> Self {
        match self {
            StmF4PinMode::Input(input_mode) => {
                if prop_idx == 0 && StmF4InputMode::spec_from_index(variant_idx) is Some {
                    StmF4PinMode::Input(StmF4InputMode::spec_from_index(variant_idx)->0)
                } else {
                    *self
                }
            },
            StmF4PinMode::Output(out_mode, out_speed) => {
                if prop_idx == 0 && StmF4OutputMode::spec_from_index(variant_idx) is Some {
                    StmF4PinMode::Output(StmF4OutputMode::spec_from_index(variant_idx)->0, *out_speed)
                } else if prop_idx == 1 && StmF4OutputSpeed::spec_from_index(variant_idx) is Some {
                    StmF4PinMode::Output(*out_mode, StmF4OutputSpeed::spec_from_index(variant_idx)->0)
                } else {
                    *self
                }
            },
        }
    }

    fn mode_variants(&self) -> (variants: Vec<&'static str>) {
        let variants = vec!["Input", "Onput"];
        proof {
            assert(strs_view(variants@) =~= self.spec_mode_variants());
        }
        variants
    }

    fn current_mode_index(&self) -> (idx: usize) {
        match self {
            StmF4PinMode::Input(_) => 0,
            StmF4PinMode::Output(_, _) => 1,
        }
    }

    fn set_mode_index(&mut self, idx: usize) {
        if idx == 0 {
            *self = StmF4PinMode::Input(StmF4InputMode::PullUp);
        } else if idx == 1 {
            *self = StmF4PinMode::Output(StmF4OutputMode::PushPull, StmF4OutputSpeed::Low);
        }
    }

    fn properties(&self) -> (props: Vec<(&'static str, Vec<&'static str>, usize)>) {
        let props = match self {
            StmF4PinMode::Input(input_mode) => vec![("Режим входа", StmF4InputMode::labels(), input_mode.index())],
            StmF4PinMode::Output(out_mode, out_speed) => vec![
                ("Тип выхода", StmF4OutputMode::labels(), out_mode.index()),
                ("Скорость", StmF4OutputSpeed::labels(), out_speed.index()),
            ],
        };
        proof {
            assert(properties_view(props@) =~= self.spec_properties());
        }
        props
    }

    fn set_property(&mut self, prop_idx: usize, variant_idx: usize) {
        match self {
            StmF4PinMode::Input(input_mode) => {
                if prop_idx == 0 {
                    if let Some(new_mode) = StmF4InputMode::from_index(variant_idx) {
                        *input_mode = new_mode;
                    }
                }
            },
            StmF4PinMode::Output(out_mode, out_speed) => {
                if prop_idx == 0 {
                    if let Some(new_mode) = StmF4OutputMode::from_index(variant_idx) {
                        *out_mode = new_mode;
                    }
                } else if prop_idx == 1 {
                    if let Some(new_speed) = StmF4OutputSpeed::from_index(variant_idx) {
                        *out_speed = new_speed;
                    }
                }
            },
        }
    }
}

/// Choosing a mode by its index and reading the index back gives the same
/// index, for every index that names a mode.
pub proof fn lemma_f4_mode_index_roundtrip(mode: StmF4PinMode, idx: nat)
    requires
        idx < mode.spec_mode_variants().len(),
    ensures
        mode.spec_set_mode_index(idx).spec_mode_index() == idx,
{
}

/// Setting a property to an offered value makes the property report that
/// value, and leaves the list of properties the same length.
pub proof fn lemma_f4_property_roundtrip(mode: StmF4PinMode, prop_idx: nat, variant_idx: nat)
    requires
        prop_idx < mode.spec_properties().len(),
        variant_idx < mode.spec_properties()[prop_idx as int].1.len(),
    ensures
        mode.spec_set_property(prop_idx, variant_idx).spec_properties().len() == mode.spec_properties().len(),
        mode.spec_set_property(prop_idx, variant_idx).spec_properties()[prop_idx as int].2 == variant_idx,
{
}


/// The label listed at an input mode's position is that mode's own label,
/// and the position chooses the mode back.
pub proof fn lemma_f4_input_labels(m: StmF4InputMode)
    ensures
        StmF4InputMode::spec_labels().len() == 3,
        m.spec_index() < 3,
        StmF4InputMode::spec_labels()[m.spec_index() as int] == m.spec_label(),
        StmF4InputMode::spec_from_index(m.spec_index()) == Some(m),
{
}

/// The label listed at an output type's position is that type's own label,
/// and the position chooses the type back.
pub proof fn lemma_f4_output_mode_labels(m: StmF4OutputMode)
    ensures
        StmF4OutputMode::spec_labels().len() == 2,
        m.spec_index() < 2,
        StmF4OutputMode::spec_labels()[m.spec_index() as int] == m.spec_label(),
        StmF4OutputMode::spec_from_index(m.spec_index()) == Some(m),
{
}

/// The label listed at a speed's position is that speed's own label, and
/// the position chooses the speed back.
pub proof fn lemma_f4_speed_labels(s: StmF4OutputSpeed)
    ensures
        StmF4OutputSpeed::spec_labels().len() == 4,
        s.spec_index() < 4,
        StmF4OutputSpeed::spec_labels()[s.spec_index() as int] == s.spec_label(),
        StmF4OutputSpeed::spec_from_index(s.spec_index()) == Some(s),
{
}

/// The property list of a pin mode marks the mode itself: at the selected
/// position of each list stands the label of the mode's current input
/// mode, output type or speed.
pub proof fn lemma_f4_properties_show_mode(mode: StmF4PinMode)
    ensures
        match mode {
            StmF4PinMode::Input(i) => mode.spec_properties()[0].1[mode.spec_properties()[0].2 as int] == i.spec_label(),
            StmF4PinMode::Output(o, s) => mode.spec_properties()[0].1[mode.spec_properties()[0].2 as int] == o.spec_label()
                && mode.spec_properties()[1].1[mode.spec_properties()[1].2 as int] == s.spec_label(),
        },
{
    match mode {
        StmF4PinMode::Input(i) => lemma_f4_input_labels(i),
        StmF4PinMode::Output(o, s) => {
            lemma_f4_output_mode_labels(o);
            lemma_f4_speed_labels(s);
        },
    }
}

/// The HAL method of an input mode is named after the mode: `into_`, its
/// label in snake case, then `_input`; so different modes get different
/// methods.
pub proof fn lemma_f4_input_method(m: StmF4InputMode, n: StmF4InputMode)
    ensures
        m.spec_method_name() == "into_"@ + snake_case(m.spec_label()) + "_input"@,
        m != n ==> m.spec_method_name() != n.spec_method_name(),
{
    reveal_strlit("into_");
    reveal_strlit("_input");
    reveal_strlit("Floating");
    reveal_strlit("Pull up");
    reveal_strlit("Pull down");
    reveal_strlit("into_floating_input");
    reveal_strlit("into_pull_up_input");
    reveal_strlit("into_pull_down_input");
    assert(m.spec_method_name() =~= "into_"@ + snake_case(m.spec_label()) + "_input"@);
}

/// The HAL method of an output type is named after the type: `into_`, its
/// label in snake case, then `_output`; so different types get different
/// methods.
pub proof fn lemma_f4_output_method(m: StmF4OutputMode, n: StmF4OutputMode)
    ensures
        m.spec_method_name() == "into_"@ + snake_case(m.spec_label()) + "_output"@,
        m != n ==> m.spec_method_name() != n.spec_method_name(),
{
    reveal_strlit("into_");
    reveal_strlit("_output");
    reveal_strlit("Push pull");
    reveal_strlit("Open drain");
    reveal_strlit("into_push_pull_output");
    reveal_strlit("into_open_drain_output");
    assert(m.spec_method_name() =~= "into_"@ + snake_case(m.spec_label()) + "_output"@);
}

/// The HAL speed constant of a speed is its label in Pascal case; so
/// different speeds get different constants.
pub proof fn lemma_f4_speed_name(s: StmF4OutputSpeed, t: StmF4OutputSpeed)
    ensures
        s.spec_speed_name() == pascal_case(s.spec_label()),
        s != t ==> s.spec_speed_name() != t.spec_speed_name(),
{
    reveal_strlit("Low");
    reveal_strlit("Medium");
    reveal_strlit("High");
    reveal_strlit("Very high");
    reveal_strlit("VeryHigh");
    reveal_with_fuel(pascal_case, 10);
    assert(s.spec_speed_name() =~= pascal_case(s.spec_label()));
}

} // verus!

