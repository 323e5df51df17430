//! GPIO modes of the STM32F1 family.

pub mod f103;

use vstd::prelude::*;
use crate::gpio::{PinModeUiInfo, PropertyView, properties_view};
use crate::text::{snake_case, strs_view};

verus! {

/// Input configuration of a pin.
#[derive(Debug, Clone, Copy, PartialEq, Eq, Structural)]
pub enum StmF1InputMode {
    Floating,
    PullUp,
    PullDown,
}

impl StmF1InputMode {
    /// Position of the variant in declaration order.
    pub open spec fn spec_index(self) -> nat {
        match self {
            StmF1InputMode::Floating => 0,
            StmF1InputMode::PullUp => 1,
            StmF1InputMode::PullDown => 2,
        }
    }

    /// Display label of the variant.
    pub open spec fn spec_label(self) -> Seq<char> {
        match self {
            StmF1InputMode::Floating => "Floating"@,
            StmF1InputMode::PullUp => "Pull up"@,
            StmF1InputMode::PullDown => "Pull down"@,
        }
    }

    /// Display labels of every variant, in declaration order.
    pub open spec fn spec_labels() -> Seq<Seq<char>> {
        seq!["Floating"@, "Pull up"@, "Pull down"@]
    }

    /// The variant at position `idx`, if there is one.
    pub open spec fn spec_from_index(idx: nat) -> Option<Self> {
        if idx == 0 {
            Some(StmF1InputMode::Floating)
        } else if idx == 1 {
            Some(StmF1InputMode::PullUp)
        } else if idx == 2 {
            Some(StmF1InputMode::PullDown)
        } else {
            None
        }
    }

    /// Returns the position of the variant in declaration order.
    pub fn index(self) -> (idx: usize)
        ensures
            idx == self.spec_index(),
    {
        match self {
            StmF1InputMode::Floating => 0,
            StmF1InputMode::PullUp => 1,
            StmF1InputMode::PullDown => 2,
        }
    }

    /// Returns the variant at position `idx`, if there is one.
    pub fn from_index(idx: usize) -> (mode: Option<Self>)
        ensures
            mode == Self::spec_from_index(idx as nat),
    {
        if idx == 0 {
            Some(StmF1InputMode::Floating)
        } else if idx == 1 {
            Some(StmF1InputMode::PullUp)
        } else if idx == 2 {
            Some(StmF1InputMode::PullDown)
        } else {
            None
        }
    }

    /// Returns the display label of the variant.
    pub fn label(self) -> (label: &'static str)
        ensures
            label@ == self.spec_label(),
    {
        match self {
            StmF1InputMode::Floating => "Floating",
            StmF1InputMode::PullUp => "Pull up",
            StmF1InputMode::PullDown => "Pull down",
        }
    }

    /// Returns the display labels of every variant, in declaration order.
    pub fn labels() -> (labels: Vec<&'static str>)
        ensures
            strs_view(labels@) == Self::spec_labels(),
    {
        let labels = vec!["Floating", "Pull up", "Pull down"];
        proof {
            assert(strs_view(labels@) =~= Self::spec_labels());
        }
        labels
    }
}

impl StmF1InputMode {
    /// Name of the HAL method that puts the pin in this input mode.
    pub open spec fn spec_method_name(self) -> Seq<char> {
        match self {
            StmF1InputMode::Floating => "into_floating_input"@,
            StmF1InputMode::PullUp => "into_pull_up_input"@,
            StmF1InputMode::PullDown => "into_pull_down_input"@,
        }
    }

    /// Name of the HAL method that puts the pin in this input mode.
    pub fn method_name(&self) -> (name: &'static str)
        ensures
            name@ == self.spec_method_name(),
    {
        match self {
            StmF1InputMode::Floating => "into_floating_input",
            StmF1InputMode::PullUp => "into_pull_up_input",
            StmF1InputMode::PullDown => "into_pull_down_input",
        }
    }
}

/// Output slew rate of a pin.
#[derive(Debug, Clone, Copy, PartialEq, Eq, Structural)]
pub enum StmF1OutputSpeed {
    Mhz2,
    Mhz10,
    Mhz50,
}

impl StmF1OutputSpeed {
    /// Position of the variant in declaration order.
    pub open spec fn spec_index(self) -> nat {
        match self {
            StmF1OutputSpeed::Mhz2 => 0,
            StmF1OutputSpeed::Mhz10 => 1,
            StmF1OutputSpeed::Mhz50 => 2,
        }
    }

    /// Display label of the variant.
    pub open spec fn spec_label(self) -> Seq<char> {
        match self {
            StmF1OutputSpeed::Mhz2 => "2 MHz"@,
            StmF1OutputSpeed::Mhz10 => "10 MHz"@,
            StmF1OutputSpeed::Mhz50 => "50 MHz"@,
        }
    }

    /// Display labels of every variant, in declaration order.
    pub open spec fn spec_labels() -> Seq<Seq<char>> {
        seq!["2 MHz"@, "10 MHz"@, "50 MHz"@]
    }

    /// The variant at position `idx`, if there is one.
    pub open spec fn spec_from_index(idx: nat) -> Option<Self> {
        if idx == 0 {
            Some(StmF1OutputSpeed::Mhz2)
        } else if idx == 1 {
            Some(StmF1OutputSpeed::Mhz10)
        } else if idx == 2 {
            Some(StmF1OutputSpeed::Mhz50)
        } else {
            None
        }
    }

    /// Returns the position of the variant in declaration order.
    pub fn index(self) -> (idx: usize)
        ensures
            idx == self.spec_index(),
    {
        match self {
            StmF1OutputSpeed::Mhz2 => 0,
            StmF1OutputSpeed::Mhz10 => 1,
            StmF1OutputSpeed::Mhz50 => 2,
        }
    }

    /// Returns the variant at position `idx`, if there is one.
    pub fn from_index(idx: usize) -> (mode: Option<Self>)
        ensures
            mode == Self::spec_from_index(idx as nat),
    {
        if idx == 0 {
            Some(StmF1OutputSpeed::Mhz2)
        } else if idx == 1 {
            Some(StmF1OutputSpeed::Mhz10)
        } else if idx == 2 {
            Some(StmF1OutputSpeed::Mhz50)
        } else {
            None
        }
    }

    /// Returns the display label of the variant.
    pub fn label(self) -> (label: &'static str)
        ensures
            label@ == self.spec_label(),
    {
        match self {
            StmF1OutputSpeed::Mhz2 => "2 MHz",
            StmF1OutputSpeed::Mhz10 => "10 MHz",
            StmF1OutputSpeed::Mhz50 => "50 MHz",
        }
    }

    /// Returns the display labels of every variant, in declaration order.
    pub fn labels() -> (labels: Vec<&'static str>)
        ensures
            strs_view(labels@) == Self::spec_labels(),
    {
        let labels = vec!["2 MHz", "10 MHz", "50 MHz"];
        proof {
            assert(strs_view(labels@) =~= Self::spec_labels());
        }
        labels
    }
}

/// Output driver of a pin.
#[derive(Debug, Clone, Copy, PartialEq, Eq, Structural)]
pub enum StmF1OutputMode {
    /// Drives both the high and the low level; the usual choice.
    PushPull,
    /// Drives only the low level; the high level comes from a pull-up, as on I2C.
    OpenDrain,
}

impl StmF1OutputMode {
    /// Position of the variant in declaration order.
    pub open spec fn spec_index(self) -> nat {
        match self {
            StmF1OutputMode::PushPull => 0,
            StmF1OutputMode::OpenDrain => 1,
        }
    }

    /// Display label of the variant.
    pub open spec fn spec_label(self) -> Seq<char> {
        match self {
            StmF1OutputMode::PushPull => "Push pull"@,
            StmF1OutputMode::OpenDrain => "Open drain"@,
        }
    }

    /// Display labels of every variant, in declaration order.
    pub open spec fn spec_labels() -> Seq<Seq<char>> {
        seq!["Push pull"@, "Open drain"@]
    }

    /// The variant at position `idx`, if there is one.
    pub open spec fn spec_from_index(idx: nat) -> Option<Self> {
        if idx == 0 {
            Some(StmF1OutputMode::PushPull)
        } else if idx == 1 {
            Some(StmF1OutputMode::OpenDrain)
        } else {
            None
        }
    }

    /// Returns the position of the variant in declaration order.
    pub fn index(self) -> (idx: usize)
        ensures
            idx == self.spec_index(),
    {
        match self {
            StmF1OutputMode::PushPull => 0,
            StmF1OutputMode::OpenDrain => 1,
        }
    }

    /// Returns the variant at position `idx`, if there is one.
    pub fn from_index(idx: usize) -> (mode: Option<Self>)
        ensures
            mode == Self::spec_from_index(idx as nat),
    {
        if idx == 0 {
            Some(StmF1OutputMode::PushPull)
        } else if idx == 1 {
            Some(StmF1OutputMode::OpenDrain)
        } else {
            None
        }
    }

    /// Returns the display label of the variant.
    pub fn label(self) -> (label: &'static str)
        ensures
            label@ == self.spec_label(),
    {
        match self {
            StmF1OutputMode::PushPull => "Push pull",
            StmF1OutputMode::OpenDrain => "Open drain",
        }
    }

    /// Returns the display labels of every variant, in declaration order.
    pub fn labels() -> (labels: Vec<&'static str>)
        ensures
            strs_view(labels@) == Self::spec_labels(),
    {
        let labels = vec!["Push pull", "Open drain"];
        proof {
            assert(strs_view(labels@) =~= Self::spec_labels());
        }
        labels
    }
}

impl StmF1OutputMode {
    /// Name of the HAL method that puts the pin in this output mode.
    pub open spec fn spec_method_name(self) -> Seq<char> {
        match self {
            StmF1OutputMode::PushPull => "into_push_pull_output"@,
            StmF1OutputMode::OpenDrain => "into_open_drain_output"@,
        }
    }

    /// Name of the HAL method that puts the pin in this output mode.
    pub fn method_name(&self) -> (name: &'static str)
        ensures
            name@ == self.spec_method_name(),
    {
        match self {
            StmF1OutputMode::PushPull => "into_push_pull_output",
            StmF1OutputMode::OpenDrain => "into_open_drain_output",
        }
    }
}

/// GPIO mode of an STM32F1 pin.
#[derive(Debug, Clone, Copy, PartialEq, Eq, Structural)]
pub enum StmF1PinMode {
    Input(StmF1InputMode),
    Output(StmF1OutputMode, StmF1OutputSpeed),
}

impl StmF1PinMode {
    /// The mode a freshly selected pin starts in: a pulled-up input.
    pub open spec fn spec_default() -> Self {
        StmF1PinMode::Input(StmF1InputMode::PullUp)
    }

    /// Template variables of the mode: HAL method, whether the pin is an
    /// output, and the speed of an output.
    pub open spec fn spec_template_vars(self) -> (Seq<char>, bool, Option<Seq<char>>) {
        match self {
            StmF1PinMode::Input(input_mode) => (input_mode.spec_method_name(), false, None),
            StmF1PinMode::Output(out_mode, out_speed) => (out_mode.spec_method_name(), true, Some(out_speed.spec_label())),
        }
    }

    /// Returns the template variables of the mode: the HAL method, whether
    /// the pin is an output, and the speed of an output.
    pub fn template_vars(&self) -> (vars: (&'static str, bool, Option<&'static str>))
        ensures
            (vars.0@, vars.1, match vars.2 {
                Some(s) => Some(s@),
                None => None,
            }) == self.spec_template_vars(),
    {
        match self {
            StmF1PinMode::Input(input_mode) => (input_mode.method_name(), false, None),
            StmF1PinMode::Output(out_mode, out_speed) => (out_mode.method_name(), true, Some(out_speed.label())),
        }
    }
}

impl Default for StmF1PinMode {
    fn default() -> (mode: Self)
        ensures
            mode == Self::spec_default(),
    {
        StmF1PinMode::Input(StmF1InputMode::PullUp)
    }
}

impl PinModeUiInfo for StmF1PinMode {
    open spec fn spec_mode_variants(&self) -> Seq<Seq<char>> {
        seq!["Input"@, "Output"@]
    }

    open spec fn spec_mode_index(&self) -> nat {
        match self {
            StmF1PinMode::Input(_) => 0,
            StmF1PinMode::Output(_, _) => 1,
        }
    }

    open spec fn spec_set_mode_index(&self, idx: nat) -> Self {
        if idx == 0 {
            StmF1PinMode::Input(StmF1InputMode::PullUp)
        } else if idx == 1 {
            StmF1PinMode::Output(StmF1OutputMode::PushPull, StmF1OutputSpeed::Mhz2)
        } else {
            *self
        }
    }

    open spec fn spec_properties(&self) -> Seq<PropertyView> {
        match self {
            StmF1PinMode::Input(input_mode) => seq![("Режим входа"@, StmF1InputMode::spec_labels(), input_mode.spec_index())],
            StmF1PinMode::Output(out_mode, out_speed) => seq![
                ("Тип выхода"@, StmF1OutputMode::spec_labels(), out_mode.spec_index()),
                ("Скорость"@, StmF1OutputSpeed::spec_labels(), out_speed.spec_index()),
            ],
        }
    }

    open spec fn spec_set_property(&self, prop_idx: nat, variant_idx: nat) -> Self {
        match self {
            StmF1PinMode::Input(input_mode) => {
                if prop_idx == 0 && StmF1InputMode::spec_from_index(variant_idx) is Some {
                    StmF1PinMode::Input(StmF1InputMode::spec_from_index(variant_idx)->0)
                } else {
                    *self
                }
            },
            StmF1PinMode::Output(out_mode, out_speed) => {
                if prop_idx == 0 && StmF1OutputMode::spec_from_index(variant_idx) is Some {
                    StmF1PinMode::Output(StmF1OutputMode::spec_from_index(variant_idx)->0, *out_speed)
                } else if prop_idx == 1 && StmF1OutputSpeed::spec_from_index(variant_idx) is Some {
                    StmF1PinMode::Output(*out_mode, StmF1OutputSpeed::spec_from_index(variant_idx)->0)
                } else {
                    *self
                }
            },
        }
    }

    fn mode_variants(&self) -> (variants: Vec<&'static str>) {
        let variants = vec!["Input", "Output"];
        proof {
            assert(strs_view(variants@) =~= self.spec_mode_variants());
        }
        variants
    }

    fn current_mode_index(&self) -> (idx: usize) {
        match self {
            StmF1PinMode::Input(_) => 0,
            StmF1PinMode::Output(_, _) => 1,
        }
    }

    fn set_mode_index(&mut self, idx: usize) {
        if idx == 0 {
            *self = StmF1PinMode::Input(StmF1InputMode::PullUp);
        } else if idx == 1 {
            *self = StmF1PinMode::Output(StmF1OutputMode::PushPull, StmF1OutputSpeed::Mhz2);
        }
    }

    fn properties(&self) -> (props: Vec<(&'static str, Vec<&'static str>, usize)>) {
        let props = match self {
            StmF1PinMode::Input(input_mode) => vec![("Режим входа", StmF1InputMode::labels(), input_mode.index())],
            StmF1PinMode::Output(out_mode, out_speed) => vec![
                ("Тип выхода", StmF1OutputMode::labels(), out_mode.index()),
                ("Скорость", StmF1OutputSpeed::labels(), out_speed.index()),
            ],
        };
        proof {
            assert(properties_view(props@) =~= self.spec_properties());
        }
        props
    }

    fn set_property(&mut self, prop_idx: usize, variant_idx: usize) {
        match self {
            StmF1PinMode::Input(input_mode) => {
                if prop_idx == 0 {
                    if let Some(new_mode) = StmF1InputMode::from_index(variant_idx) {
                        *input_mode = new_mode;
                    }
                }
            },
            StmF1PinMode::Output(out_mode, out_speed) => {
                if prop_idx == 0 {
                    if let Some(new_mode) = StmF1OutputMode::from_index(variant_idx) {
                        *out_mode = new_mode;
                    }
                } else if prop_idx == 1 {
                    if let Some(new_speed) = StmF1OutputSpeed::from_index(variant_idx) {
                        *out_speed = new_speed;
                    }
                }
            },
        }
    }
}

/// Choosing a mode by its index and reading the index back gives the same
/// index, for every index that names a mode.
pub proof fn lemma_f1_mode_index_roundtrip(mode: StmF1PinMode, idx: nat)
    requires
        idx < mode.spec_mode_variants().len(),
    ensures
        mode.spec_set_mode_index(idx).spec_mode_index() == idx,
{
}

/// Setting a property to an offered value makes the property report that
/// value, and leaves the list of properties the same length.
pub proof fn lemma_f1_property_roundtrip(mode: StmF1PinMode, prop_idx: nat, variant_idx: nat)
    requires
        prop_idx < mode.spec_properties().len(),
        variant_idx < mode.spec_properties()[prop_idx as int].1.len(),
    ensures
        mode.spec_set_property(prop_idx, variant_idx).spec_properties().len() == mode.spec_properties().len(),
        mode.spec_set_property(prop_idx, variant_idx).spec_properties()[prop_idx as int].2 == variant_idx,
{
}


/// The label listed at an input mode's position is that mode's own label,
/// and the position chooses the mode back.
pub proof fn lemma_f1_input_labels(m: StmF1InputMode)
    ensures
        StmF1InputMode::spec_labels().len() == 3,
        m.spec_index() < 3,
        StmF1InputMode::spec_labels()[m.spec_index() as int] == m.spec_label(),
        StmF1InputMode::spec_from_index(m.spec_index()) == Some(m),
{
}

/// The label listed at an output type's position is that type's own label,
/// and the position chooses the type back.
pub proof fn lemma_f1_output_mode_labels(m: StmF1OutputMode)
    ensures
        StmF1OutputMode::spec_labels().len() == 2,
        m.spec_index() < 2,
        StmF1OutputMode::spec_labels()[m.spec_index() as int] == m.spec_label(),
        StmF1OutputMode::spec_from_index(m.spec_index()) == Some(m),
{
}

/// The label listed at a speed's position is that speed's own label, and
/// the position chooses the speed back.
pub proof fn lemma_f1_speed_labels(s: StmF1OutputSpeed)
    ensures
        StmF1OutputSpeed::spec_labels().len() == 3,
        s.spec_index() < 3,
        StmF1OutputSpeed::spec_labels()[s.spec_index() as int] == s.spec_label(),
        StmF1OutputSpeed::spec_from_index(s.spec_index()) == Some(s),
{
}

/// The property list of a pin mode marks the mode itself: at the selected
/// position of each list stands the label of the mode's current input
/// mode, output type or speed.
pub proof fn lemma_f1_properties_show_mode(mode: StmF1PinMode)
    ensures
        match mode {
            StmF1PinMode::Input(i) => mode.spec_properties()[0].1[mode.spec_properties()[0].2 as int] == i.spec_label(),
            StmF1PinMode::Output(o, s) => mode.spec_properties()[0].1[mode.spec_properties()[0].2 as int] == o.spec_label()
                && mode.spec_properties()[1].1[mode.spec_properties()[1].2 as int] == s.spec_label(),
        },
{
    match mode {
        StmF1PinMode::Input(i) => lemma_f1_input_labels(i),
        StmF1PinMode::Output(o, s) => {
            lemma_f1_output_mode_labels(o);
            lemma_f1_speed_labels(s);
        },
    }
}

/// The HAL method of an input mode is named after the mode: `into_`, its
/// label in snake case, then `_input`; so different modes get different
/// methods.
pub proof fn lemma_f1_input_method(m: StmF1InputMode, n: StmF1InputMode)
    ensures
        m.spec_method_name() == "into_"@ + snake_case(m.spec_label()) + "_input"@,
        m != n ==> m.spec_method_name() != n.spec_method_name(),
{
    reveal_strlit("into_");
    reveal_strlit("_input");
    reveal_strlit("Floating");
    reveal_strlit("Pull up");
    reveal_strlit("Pull down");
    reveal_strlit("into_floating_input");
    reveal_strlit("into_pull_up_input");
    reveal_strlit("into_pull_down_input");
    assert(m.spec_method_name() =~= "into_"@ + snake_case(m.spec_label()) + "_input"@);
}

/// The HAL method of an output type is named after the type: `into_`, its
/// label in snake case, then `_output`; so different types get different
/// methods.
pub proof fn lemma_f1_output_method(m: StmF1OutputMode, n: StmF1OutputMode)
    ensures
        m.spec_method_name() == "into_"@ + snake_case(m.spec_label()) + "_output"@,
        m != n ==> m.spec_method_name() != n.spec_method_name(),
{
    reveal_strlit("into_");
    reveal_strlit("_output");
    reveal_strlit("Push pull");
    reveal_strlit("Open drain");
    reveal_strlit("into_push_pull_output");
    reveal_strlit("into_open_drain_output");
    assert(m.spec_method_name() =~= "into_"@ + snake_case(m.spec_label()) + "_output"@);
}

} // verus!

