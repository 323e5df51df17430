//! Pins and SPI buses of the STM32F401.

use vstd::prelude::*;
use crate::gpio::{ChosenPin, ChosenSpiBus, SpiMapping};
use crate::text::{decimal, lemma_decimal_small};

verus! {

/// Pins of the STM32F401 (the Black Pill package).
#[derive(Debug, Clone, Copy, PartialEq, Eq, Structural)]
pub enum StmF401Pin {
    A0,
    A1,
    A2,
    A3,
    A4,
    A5,
    A6,
    A7,
    A8,
    A9,
    A10,
    A11,
    A12,
    A13,
    A14,
    A15,
    B0,
    B1,
    B2,
    B3,
    B4,
    B5,
    B6,
    B7,
    B8,
    B9,
    B10,
    B12,
    B13,
    B14,
    B15,
    C13,
    C14,
    C15,
    E2,
    E5,
    E6,
    E12,
    E13,
    E14,
    H0,
    H1,
}

impl StmF401Pin {
    /// Port letter of the pin (`'A'` for `A5`).
    pub open spec fn port(self) -> char {
        match self {
            StmF401Pin::A0 => 'A',
            StmF401Pin::A1 => 'A',
            StmF401Pin::A2 => 'A',
            StmF401Pin::A3 => 'A',
            StmF401Pin::A4 => 'A',
            StmF401Pin::A5 => 'A',
            StmF401Pin::A6 => 'A',
            StmF401Pin::A7 => 'A',
            StmF401Pin::A8 => 'A',
            StmF401Pin::A9 => 'A',
            StmF401Pin::A10 => 'A',
            StmF401Pin::A11 => 'A',
            StmF401Pin::A12 => 'A',
            StmF401Pin::A13 => 'A',
            StmF401Pin::A14 => 'A',
            StmF401Pin::A15 => 'A',
            StmF401Pin::B0 => 'B',
            StmF401Pin::B1 => 'B',
            StmF401Pin::B2 => 'B',
            StmF401Pin::B3 => 'B',
            StmF401Pin::B4 => 'B',
            StmF401Pin::B5 => 'B',
            StmF401Pin::B6 => 'B',
            StmF401Pin::B7 => 'B',
            StmF401Pin::B8 => 'B',
            StmF401Pin::B9 => 'B',
            StmF401Pin::B10 => 'B',
            StmF401Pin::B12 => 'B',
            StmF401Pin::B13 => 'B',
            StmF401Pin::B14 => 'B',
            StmF401Pin::B15 => 'B',
            StmF401Pin::C13 => 'C',
            StmF401Pin::C14 => 'C',
            StmF401Pin::C15 => 'C',
            StmF401Pin::E2 => 'E',
            StmF401Pin::E5 => 'E',
            StmF401Pin::E6 => 'E',
            StmF401Pin::E12 => 'E',
            StmF401Pin::E13 => 'E',
            StmF401Pin::E14 => 'E',
            StmF401Pin::H0 => 'H',
            StmF401Pin::H1 => 'H',
        }
    }

    /// Pin number inside its port (`5` for `A5`).
    pub open spec fn number(self) -> nat {
        match self {
            StmF401Pin::A0 => 0,
            StmF401Pin::A1 => 1,
            StmF401Pin::A2 => 2,
            StmF401Pin::A3 => 3,
            StmF401Pin::A4 => 4,
            StmF401Pin::A5 => 5,
            StmF401Pin::A6 => 6,
            StmF401Pin::A7 => 7,
            StmF401Pin::A8 => 8,
            StmF401Pin::A9 => 9,
            StmF401Pin::A10 => 10,
            StmF401Pin::A11 => 11,
            StmF401Pin::A12 => 12,
            StmF401Pin::A13 => 13,
            StmF401Pin::A14 => 14,
            StmF401Pin::A15 => 15,
            StmF401Pin::B0 => 0,
            StmF401Pin::B1 => 1,
            StmF401Pin::B2 => 2,
            StmF401Pin::B3 => 3,
            StmF401Pin::B4 => 4,
            StmF401Pin::B5 => 5,
            StmF401Pin::B6 => 6,
            StmF401Pin::B7 => 7,
            StmF401Pin::B8 => 8,
            StmF401Pin::B9 => 9,
            StmF401Pin::B10 => 10,
            StmF401Pin::B12 => 12,
            StmF401Pin::B13 => 13,
            StmF401Pin::B14 => 14,
            StmF401Pin::B15 => 15,
            StmF401Pin::C13 => 13,
            StmF401Pin::C14 => 14,
            StmF401Pin::C15 => 15,
            StmF401Pin::E2 => 2,
            StmF401Pin::E5 => 5,
            StmF401Pin::E6 => 6,
            StmF401Pin::E12 => 12,
            StmF401Pin::E13 => 13,
            StmF401Pin::E14 => 14,
            StmF401Pin::H0 => 0,
            StmF401Pin::H1 => 1,
        }
    }

    /// Name of the pin: the port letter followed by the number in decimal.
    pub open spec fn spec_name(self) -> Seq<char> {
        seq![self.port()] + decimal(self.number())
    }

    /// Every pin of the package, in declaration order.
    pub open spec fn spec_all() -> Seq<StmF401Pin> {
        seq![StmF401Pin::A0, StmF401Pin::A1, StmF401Pin::A2, StmF401Pin::A3, StmF401Pin::A4, StmF401Pin::A5, StmF401Pin::A6, StmF401Pin::A7, StmF401Pin::A8, StmF401Pin::A9, StmF401Pin::A10, StmF401Pin::A11, StmF401Pin::A12, StmF401Pin::A13, StmF401Pin::A14, StmF401Pin::A15, StmF401Pin::B0, StmF401Pin::B1, StmF401Pin::B2, StmF401Pin::B3, StmF401Pin::B4, StmF401Pin::B5, StmF401Pin::B6, StmF401Pin::B7, StmF401Pin::B8, StmF401Pin::B9, StmF401Pin::B10, StmF401Pin::B12, StmF401Pin::B13, StmF401Pin::B14, StmF401Pin::B15, StmF401Pin::C13, StmF401Pin::C14, StmF401Pin::C15, StmF401Pin::E2, StmF401Pin::E5, StmF401Pin::E6, StmF401Pin::E12, StmF401Pin::E13, StmF401Pin::E14, StmF401Pin::H0, StmF401Pin::H1]
    }

    /// Returns the name of the pin, such as `"A5"`.
    pub fn as_str(self) -> (name: &'static str)
        ensures
            name@ == self.spec_name(),
    {
        proof {
            lemma_decimal_small(self.number());
        }
        match self {
            StmF401Pin::A0 => {
                proof {
                    reveal_strlit("A0");
                }
                "A0"
            },
            StmF401Pin::A1 => {
                proof {
                    reveal_strlit("A1");
                }
                "A1"
            },
            StmF401Pin::A2 => {
                proof {
                    reveal_strlit("A2");
                }
                "A2"
            },
            StmF401Pin::A3 => {
                proof {
                    reveal_strlit("A3");
                }
                "A3"
            },
            StmF401Pin::A4 => {
                proof {
                    reveal_strlit("A4");
                }
                "A4"
            },
            StmF401Pin::A5 => {
                proof {
                    reveal_strlit("A5");
                }
                "A5"
            },
            StmF401Pin::A6 => {
                proof {
                    reveal_strlit("A6");
                }
                "A6"
            },
            StmF401Pin::A7 => {
                proof {
                    reveal_strlit("A7");
                }
                "A7"
            },
            StmF401Pin::A8 => {
                proof {
                    reveal_strlit("A8");
                }
                "A8"
            },
            StmF401Pin::A9 => {
                proof {
                    reveal_strlit("A9");
                }
                "A9"
            },
            StmF401Pin::A10 => {
                proof {
                    reveal_strlit("A10");
                }
                "A10"
            },
            StmF401Pin::A11 => {
                proof {
                    reveal_strlit("A11");
                }
                "A11"
            },
            StmF401Pin::A12 => {
                proof {
                    reveal_strlit("A12");
                }
                "A12"
            },
            StmF401Pin::A13 => {
                proof {
                    reveal_strlit("A13");
                }
                "A13"
            },
            StmF401Pin::A14 => {
                proof {
                    reveal_strlit("A14");
                }
                "A14"
            },
            StmF401Pin::A15 => {
                proof {
                    reveal_strlit("A15");
                }
                "A15"
            },
            StmF401Pin::B0 => {
                proof {
                    reveal_strlit("B0");
                }
                "B0"
            },
            StmF401Pin::B1 => {
                proof {
                    reveal_strlit("B1");
                }
                "B1"
            },
            StmF401Pin::B2 => {
                proof {
                    reveal_strlit("B2");
                }
                "B2"
            },
            StmF401Pin::B3 => {
                proof {
                    reveal_strlit("B3");
                }
                "B3"
            },
            StmF401Pin::B4 => {
                proof {
                    reveal_strlit("B4");
                }
                "B4"
            },
            StmF401Pin::B5 => {
                proof {
                    reveal_strlit("B5");
                }
                "B5"
            },
            StmF401Pin::B6 => {
                proof {
                    reveal_strlit("B6");
                }
                "B6"
            },
            StmF401Pin::B7 => {
                proof {
                    reveal_strlit("B7");
                }
                "B7"
            },
            StmF401Pin::B8 => {
                proof {
                    reveal_strlit("B8");
                }
                "B8"
            },
            StmF401Pin::B9 => {
                proof {
                    reveal_strlit("B9");
                }
                "B9"
            },
            StmF401Pin::B10 => {
                proof {
                    reveal_strlit("B10");
                }
                "B10"
            },
            StmF401Pin::B12 => {
                proof {
                    reveal_strlit("B12");
                }
                "B12"
            },
            StmF401Pin::B13 => {
                proof {
                    reveal_strlit("B13");
                }
                "B13"
            },
            StmF401Pin::B14 => {
                proof {
                    reveal_strlit("B14");
                }
                "B14"
            },
            StmF401Pin::B15 => {
                proof {
                    reveal_strlit("B15");
                }
                "B15"
            },
            StmF401Pin::C13 => {
                proof {
                    reveal_strlit("C13");
                }
                "C13"
            },
            StmF401Pin::C14 => {
                proof {
                    reveal_strlit("C14");
                }
                "C14"
            },
            StmF401Pin::C15 => {
                proof {
                    reveal_strlit("C15");
                }
                "C15"
            },
            StmF401Pin::E2 => {
                proof {
                    reveal_strlit("E2");
                }
                "E2"
            },
            StmF401Pin::E5 => {
                proof {
                    reveal_strlit("E5");
                }
                "E5"
            },
            StmF401Pin::E6 => {
                proof {
                    reveal_strlit("E6");
                }
                "E6"
            },
            StmF401Pin::E12 => {
                proof {
                    reveal_strlit("E12");
                }
                "E12"
            },
            StmF401Pin::E13 => {
                proof {
                    reveal_strlit("E13");
                }
                "E13"
            },
            StmF401Pin::E14 => {
                proof {
                    reveal_strlit("E14");
                }
                "E14"
            },
            StmF401Pin::H0 => {
                proof {
                    reveal_strlit("H0");
                }
                "H0"
            },
            StmF401Pin::H1 => {
                proof {
                    reveal_strlit("H1");
                }
                "H1"
            },
        }
    }

    /// Returns every pin of the package, in declaration order.
    pub fn all() -> (pins: Vec<StmF401Pin>)
        ensures
            pins@ == Self::spec_all(),
    {
        vec![StmF401Pin::A0, StmF401Pin::A1, StmF401Pin::A2, StmF401Pin::A3, StmF401Pin::A4, StmF401Pin::A5, StmF401Pin::A6, StmF401Pin::A7, StmF401Pin::A8, StmF401Pin::A9, StmF401Pin::A10, StmF401Pin::A11, StmF401Pin::A12, StmF401Pin::A13, StmF401Pin::A14, StmF401Pin::A15, StmF401Pin::B0, StmF401Pin::B1, StmF401Pin::B2, StmF401Pin::B3, StmF401Pin::B4, StmF401Pin::B5, StmF401Pin::B6, StmF401Pin::B7, StmF401Pin::B8, StmF401Pin::B9, StmF401Pin::B10, StmF401Pin::B12, StmF401Pin::B13, StmF401Pin::B14, StmF401Pin::B15, StmF401Pin::C13, StmF401Pin::C14, StmF401Pin::C15, StmF401Pin::E2, StmF401Pin::E5, StmF401Pin::E6, StmF401Pin::E12, StmF401Pin::E13, StmF401Pin::E14, StmF401Pin::H0, StmF401Pin::H1]
    }
}

impl StmF401Pin {
    /// The GPIO pins that the Black Pill board brings out.
    pub open spec fn spec_black_pill_pins() -> Seq<StmF401Pin> {
        seq![
            StmF401Pin::A0, StmF401Pin::A1, StmF401Pin::A2, StmF401Pin::A3, StmF401Pin::A4,
            StmF401Pin::A5, StmF401Pin::A6, StmF401Pin::A7, StmF401Pin::A8, StmF401Pin::A9,
            StmF401Pin::A10, StmF401Pin::A11, StmF401Pin::A12, StmF401Pin::A13, StmF401Pin::A14,
            StmF401Pin::A15, StmF401Pin::B0, StmF401Pin::B1, StmF401Pin::B2, StmF401Pin::B3,
            StmF401Pin::B4, StmF401Pin::B5, StmF401Pin::B6, StmF401Pin::B7, StmF401Pin::B8,
            StmF401Pin::B9, StmF401Pin::B10, StmF401Pin::B12, StmF401Pin::B13, StmF401Pin::B14,
            StmF401Pin::B15, StmF401Pin::C13, StmF401Pin::C14, StmF401Pin::C15, StmF401Pin::H0,
            StmF401Pin::H1,
        ]
    }

    /// Returns the GPIO pins that the Black Pill board brings out.
    ///
    /// The remaining pins stay part of the MCU and can be exposed by another
    /// board without changing the STM32F401 model.
    pub fn black_pill_pins() -> (pins: Vec<StmF401Pin>)
        ensures
            pins@ == Self::spec_black_pill_pins(),
    {
        vec![
            StmF401Pin::A0, StmF401Pin::A1, StmF401Pin::A2, StmF401Pin::A3, StmF401Pin::A4,
            StmF401Pin::A5, StmF401Pin::A6, StmF401Pin::A7, StmF401Pin::A8, StmF401Pin::A9,
            StmF401Pin::A10, StmF401Pin::A11, StmF401Pin::A12, StmF401Pin::A13, StmF401Pin::A14,
            StmF401Pin::A15, StmF401Pin::B0, StmF401Pin::B1, StmF401Pin::B2, StmF401Pin::B3,
            StmF401Pin::B4, StmF401Pin::B5, StmF401Pin::B6, StmF401Pin::B7, StmF401Pin::B8,
            StmF401Pin::B9, StmF401Pin::B10, StmF401Pin::B12, StmF401Pin::B13, StmF401Pin::B14,
            StmF401Pin::B15, StmF401Pin::C13, StmF401Pin::C14, StmF401Pin::C15, StmF401Pin::H0,
            StmF401Pin::H1,
        ]
    }
}

/// SPI buses of the STM32F401.
#[derive(Debug, Clone, Copy, PartialEq, Eq, Structural)]
pub enum StmF401SpiBus {
    SPI1,
    SPI2,
    SPI3,
    SPI4,
}

/// A mapping of the bus onto three pins, when the three pins differ.
pub open spec fn mapping_of(bus: ChosenSpiBus, sck: StmF401Pin, miso: StmF401Pin, mosi: StmF401Pin) -> Seq<SpiMapping> {
    if sck != miso && sck != mosi && miso != mosi {
        seq![SpiMapping {
            bus,
            sck: ChosenPin::StmF401(sck),
            miso: ChosenPin::StmF401(miso),
            mosi: ChosenPin::StmF401(mosi),
        }]
    } else {
        seq![]
    }
}

/// Mappings with a fixed SCK and MISO, for each MOSI candidate in order.
pub open spec fn mappings_with_sck_miso(
    bus: ChosenSpiBus,
    sck: StmF401Pin,
    miso: StmF401Pin,
    mosis: Seq<StmF401Pin>,
) -> Seq<SpiMapping>
    decreases mosis.len(),
{
    if mosis.len() == 0 {
        seq![]
    } else {
        mappings_with_sck_miso(bus, sck, miso, mosis.drop_last()) + mapping_of(bus, sck, miso, mosis.last())
    }
}

/// Mappings with a fixed SCK, for each MISO candidate in order.
pub open spec fn mappings_with_sck(
    bus: ChosenSpiBus,
    sck: StmF401Pin,
    misos: Seq<StmF401Pin>,
    mosis: Seq<StmF401Pin>,
) -> Seq<SpiMapping>
    decreases misos.len(),
{
    if misos.len() == 0 {
        seq![]
    } else {
        mappings_with_sck(bus, sck, misos.drop_last(), mosis) + mappings_with_sck_miso(bus, sck, misos.last(), mosis)
    }
}

/// Every mapping built from the candidate lists, SCK outermost, MOSI
/// innermost, leaving out the combinations that reuse a pin.
pub open spec fn spec_make_mappings(
    bus: ChosenSpiBus,
    scks: Seq<StmF401Pin>,
    misos: Seq<StmF401Pin>,
    mosis: Seq<StmF401Pin>,
) -> Seq<SpiMapping>
    decreases scks.len(),
{
    if scks.len() == 0 {
        seq![]
    } else {
        spec_make_mappings(bus, scks.drop_last(), misos, mosis) + mappings_with_sck(bus, scks.last(), misos, mosis)
    }
}

impl StmF401SpiBus {
    /// Name of the bus, such as `"SPI1"`.
    pub open spec fn spec_name(self) -> Seq<char> {
        match self {
            StmF401SpiBus::SPI1 => "SPI1"@,
            StmF401SpiBus::SPI2 => "SPI2"@,
            StmF401SpiBus::SPI3 => "SPI3"@,
            StmF401SpiBus::SPI4 => "SPI4"@,
        }
    }

    /// Every bus, in declaration order.
    pub open spec fn spec_all() -> Seq<StmF401SpiBus> {
        seq![StmF401SpiBus::SPI1, StmF401SpiBus::SPI2, StmF401SpiBus::SPI3, StmF401SpiBus::SPI4]
    }

    /// The SCK, MISO and MOSI candidates of the bus.
    pub open spec fn spec_candidates(self) -> (Seq<StmF401Pin>, Seq<StmF401Pin>, Seq<StmF401Pin>) {
        match self {
            StmF401SpiBus::SPI1 => (
                seq![StmF401Pin::A5, StmF401Pin::B3],
                seq![StmF401Pin::A6, StmF401Pin::B4],
                seq![StmF401Pin::A7, StmF401Pin::B5],
            ),
            StmF401SpiBus::SPI2 => (
                seq![StmF401Pin::B10, StmF401Pin::B13],
                seq![StmF401Pin::B14],
                seq![StmF401Pin::B15],
            ),
            StmF401SpiBus::SPI3 => (seq![StmF401Pin::B3], seq![StmF401Pin::B4], seq![StmF401Pin::B5]),
            StmF401SpiBus::SPI4 => (
                seq![StmF401Pin::E2, StmF401Pin::E12],
                seq![StmF401Pin::E5, StmF401Pin::E13],
                seq![StmF401Pin::E6, StmF401Pin::E14],
            ),
        }
    }

    /// The complete mappings of the bus.
    pub open spec fn spec_mappings(self) -> Seq<SpiMapping> {
        let (scks, misos, mosis) = self.spec_candidates();
        spec_make_mappings(ChosenSpiBus::StmF401(self), scks, misos, mosis)
    }

    /// Returns the name of the bus, such as `"SPI1"`.
    pub fn as_str(self) -> (name: &'static str)
        ensures
            name@ == self.spec_name(),
    {
        match self {
            StmF401SpiBus::SPI1 => "SPI1",
            StmF401SpiBus::SPI2 => "SPI2",
            StmF401SpiBus::SPI3 => "SPI3",
            StmF401SpiBus::SPI4 => "SPI4",
        }
    }

    /// Returns every bus, in declaration order.
    pub fn all() -> (buses: Vec<StmF401SpiBus>)
        ensures
            buses@ == Self::spec_all(),
    {
        vec![StmF401SpiBus::SPI1, StmF401SpiBus::SPI2, StmF401SpiBus::SPI3, StmF401SpiBus::SPI4]
    }

    /// Returns every compatible complete SPI mapping of the bus.
    ///
    /// The HAL allows the SCK, MISO and MOSI pins independently, so every
    /// combination of the candidates is built, except those that reuse a pin.
    pub fn spi_mappings(self) -> (mappings: Vec<SpiMapping>)
        ensures
            mappings@ == self.spec_mappings(),
    {
        let bus = ChosenSpiBus::StmF401(self);
        let (scks, misos, mosis): (Vec<StmF401Pin>, Vec<StmF401Pin>, Vec<StmF401Pin>) = match self {
            StmF401SpiBus::SPI1 => (
                vec![StmF401Pin::A5, StmF401Pin::B3],
                vec![StmF401Pin::A6, StmF401Pin::B4],
                vec![StmF401Pin::A7, StmF401Pin::B5],
            ),
            StmF401SpiBus::SPI2 => (
                vec![StmF401Pin::B10, StmF401Pin::B13],
                vec![StmF401Pin::B14],
                vec![StmF401Pin::B15],
            ),
            StmF401SpiBus::SPI3 => (vec![StmF401Pin::B3], vec![StmF401Pin::B4], vec![StmF401Pin::B5]),
            StmF401SpiBus::SPI4 => (
                vec![StmF401Pin::E2, StmF401Pin::E12],
                vec![StmF401Pin::E5, StmF401Pin::E13],
                vec![StmF401Pin::E6, StmF401Pin::E14],
            ),
        };
        proof {
            let (s, mi, mo) = self.spec_candidates();
            assert(scks@ =~= s);
            assert(misos@ =~= mi);
            assert(mosis@ =~= mo);
        }
        make_mappings(bus, scks.as_slice(), misos.as_slice(), mosis.as_slice())
    }
}

/// Builds every mapping from the candidate lists, SCK outermost and MOSI
/// innermost, leaving out the combinations that reuse a pin.
pub fn make_mappings(
    bus: ChosenSpiBus,
    sck_pins: &[StmF401Pin],
    miso_pins: &[StmF401Pin],
    mosi_pins: &[StmF401Pin],
) -> (mappings: Vec<SpiMapping>)
    ensures
        mappings@ == spec_make_mappings(bus, sck_pins@, miso_pins@, mosi_pins@),
{
    let mut mappings: Vec<SpiMapping> = Vec::new();
    let mut i: usize = 0;
    while i < sck_pins.len()
        invariant
            i <= sck_pins@.len(),
            mappings@ == spec_make_mappings(bus, sck_pins@.take(i as int), miso_pins@, mosi_pins@),
        decreases sck_pins@.len() - i,
    {
        let sck = sck_pins[i];
        let ghost before = mappings@;
        let mut j: usize = 0;
        while j < miso_pins.len()
            invariant
                i < sck_pins@.len(),
                sck == sck_pins@[i as int],
                j <= miso_pins@.len(),
                mappings@ == before + mappings_with_sck(bus, sck, miso_pins@.take(j as int), mosi_pins@),
            decreases miso_pins@.len() - j,
        {
            let miso = miso_pins[j];
            let ghost before_miso = mappings@;
            let mut k: usize = 0;
            while k < mosi_pins.len()
                invariant
                    j < miso_pins@.len(),
                    miso == miso_pins@[j as int],
                    k <= mosi_pins@.len(),
                    mappings@ == before_miso + mappings_with_sck_miso(bus, sck, miso, mosi_pins@.take(k as int)),
                decreases mosi_pins@.len() - k,
            {
                let mosi = mosi_pins[k];
                proof {
                    assert(mosi_pins@.take(k + 1).drop_last() =~= mosi_pins@.take(k as int));
                }
                if sck != miso && sck != mosi && miso != mosi {
                    mappings.push(SpiMapping {
                        bus,
                        sck: ChosenPin::StmF401(sck),
                        miso: ChosenPin::StmF401(miso),
                        mosi: ChosenPin::StmF401(mosi),
                    });
                }
                k += 1;
            }
            proof {
                assert(mosi_pins@.take(k as int) =~= mosi_pins@);
                assert(miso_pins@.take(j + 1).drop_last() =~= miso_pins@.take(j as int));
            }
            j += 1;
        }
        proof {
            assert(miso_pins@.take(j as int) =~= miso_pins@);
            assert(sck_pins@.take(i + 1).drop_last() =~= sck_pins@.take(i as int));
        }
        i += 1;
    }
    proof {
        assert(sck_pins@.take(i as int) =~= sck_pins@);
    }
    mappings
}

/// Whether the three lines of a mapping use three different pins.
pub open spec fn mapping_pins_distinct(m: SpiMapping) -> bool {
    m.sck != m.miso && m.sck != m.mosi && m.miso != m.mosi
}

/// Whether every mapping of the list uses three different pins and
/// belongs to the bus.
pub open spec fn mappings_sound(s: Seq<SpiMapping>, bus: ChosenSpiBus) -> bool {
    forall|k: int| 0 <= k < s.len() ==> mapping_pins_distinct(#[trigger] s[k]) && s[k].bus == bus
}

proof fn lemma_concat_sound(a: Seq<SpiMapping>, b: Seq<SpiMapping>, bus: ChosenSpiBus)
    requires
        mappings_sound(a, bus),
        mappings_sound(b, bus),
    ensures
        mappings_sound(a + b, bus),
{
    assert forall|k: int| 0 <= k < (a + b).len() implies mapping_pins_distinct(#[trigger] (a + b)[k]) && (a + b)[k].bus == bus by {
        if k < a.len() {
            assert((a + b)[k] == a[k]);
        } else {
            assert((a + b)[k] == b[k - a.len()]);
        }
    }
}

proof fn lemma_with_sck_miso_sound(bus: ChosenSpiBus, sck: StmF401Pin, miso: StmF401Pin, mosis: Seq<StmF401Pin>)
    ensures
        mappings_sound(mappings_with_sck_miso(bus, sck, miso, mosis), bus),
    decreases mosis.len(),
{
    if mosis.len() > 0 {
        lemma_with_sck_miso_sound(bus, sck, miso, mosis.drop_last());
        lemma_concat_sound(mappings_with_sck_miso(bus, sck, miso, mosis.drop_last()), mapping_of(bus, sck, miso, mosis.last()), bus);
    }
}

proof fn lemma_with_sck_sound(bus: ChosenSpiBus, sck: StmF401Pin, misos: Seq<StmF401Pin>, mosis: Seq<StmF401Pin>)
    ensures
        mappings_sound(mappings_with_sck(bus, sck, misos, mosis), bus),
    decreases misos.len(),
{
    if misos.len() > 0 {
        lemma_with_sck_sound(bus, sck, misos.drop_last(), mosis);
        lemma_with_sck_miso_sound(bus, sck, misos.last(), mosis);
        lemma_concat_sound(mappings_with_sck(bus, sck, misos.drop_last(), mosis), mappings_with_sck_miso(bus, sck, misos.last(), mosis), bus);
    }
}

/// Every mapping that `make_mappings` builds belongs to the bus and uses
/// three different pins.
pub proof fn lemma_make_mappings_sound(bus: ChosenSpiBus, scks: Seq<StmF401Pin>, misos: Seq<StmF401Pin>, mosis: Seq<StmF401Pin>)
    ensures
        mappings_sound(spec_make_mappings(bus, scks, misos, mosis), bus),
    decreases scks.len(),
{
    if scks.len() > 0 {
        lemma_make_mappings_sound(bus, scks.drop_last(), misos, mosis);
        lemma_with_sck_sound(bus, scks.last(), misos, mosis);
        lemma_concat_sound(spec_make_mappings(bus, scks.drop_last(), misos, mosis), mappings_with_sck(bus, scks.last(), misos, mosis), bus);
    }
}

/// Where a pin stands among the pins the Black Pill brings out, counting
/// the pins of the package in order and skipping port E; `-1` for a pin
/// of port E.
pub open spec fn black_pill_position(p: StmF401Pin) -> int {
    match p {
        StmF401Pin::A0 => 0,
        StmF401Pin::A1 => 1,
        StmF401Pin::A2 => 2,
        StmF401Pin::A3 => 3,
        StmF401Pin::A4 => 4,
        StmF401Pin::A5 => 5,
        StmF401Pin::A6 => 6,
        StmF401Pin::A7 => 7,
        StmF401Pin::A8 => 8,
        StmF401Pin::A9 => 9,
        StmF401Pin::A10 => 10,
        StmF401Pin::A11 => 11,
        StmF401Pin::A12 => 12,
        StmF401Pin::A13 => 13,
        StmF401Pin::A14 => 14,
        StmF401Pin::A15 => 15,
        StmF401Pin::B0 => 16,
        StmF401Pin::B1 => 17,
        StmF401Pin::B2 => 18,
        StmF401Pin::B3 => 19,
        StmF401Pin::B4 => 20,
        StmF401Pin::B5 => 21,
        StmF401Pin::B6 => 22,
        StmF401Pin::B7 => 23,
        StmF401Pin::B8 => 24,
        StmF401Pin::B9 => 25,
        StmF401Pin::B10 => 26,
        StmF401Pin::B12 => 27,
        StmF401Pin::B13 => 28,
        StmF401Pin::B14 => 29,
        StmF401Pin::B15 => 30,
        StmF401Pin::C13 => 31,
        StmF401Pin::C14 => 32,
        StmF401Pin::C15 => 33,
        StmF401Pin::E2 => -1,
        StmF401Pin::E5 => -1,
        StmF401Pin::E6 => -1,
        StmF401Pin::E12 => -1,
        StmF401Pin::E13 => -1,
        StmF401Pin::E14 => -1,
        StmF401Pin::H0 => 34,
        StmF401Pin::H1 => 35,
    }
}

/// The Black Pill brings out every pin of the STM32F401 outside port E,
/// each once, in the order of the package.
pub proof fn lemma_black_pill_pins_exact()
    ensures
        forall|p: StmF401Pin| #[trigger] StmF401Pin::spec_black_pill_pins().contains(p) <==> p.port() != 'E',
        StmF401Pin::spec_black_pill_pins().no_duplicates(),
        StmF401Pin::spec_black_pill_pins().len() == 36,
        forall|i: int, j: int| 0 <= i < j < 36 ==> black_pill_position(#[trigger] StmF401Pin::spec_black_pill_pins()[i])
            < black_pill_position(#[trigger] StmF401Pin::spec_black_pill_pins()[j]),
{
    let s = StmF401Pin::spec_black_pill_pins();
    assert(s[0] == StmF401Pin::A0);
    assert(s[1] == StmF401Pin::A1);
    assert(s[2] == StmF401Pin::A2);
    assert(s[3] == StmF401Pin::A3);
    assert(s[4] == StmF401Pin::A4);
    assert(s[5] == StmF401Pin::A5);
    assert(s[6] == StmF401Pin::A6);
    assert(s[7] == StmF401Pin::A7);
    assert(s[8] == StmF401Pin::A8);
    assert(s[9] == StmF401Pin::A9);
    assert(s[10] == StmF401Pin::A10);
    assert(s[11] == StmF401Pin::A11);
    assert(s[12] == StmF401Pin::A12);
    assert(s[13] == StmF401Pin::A13);
    assert(s[14] == StmF401Pin::A14);
    assert(s[15] == StmF401Pin::A15);
    assert(s[16] == StmF401Pin::B0);
    assert(s[17] == StmF401Pin::B1);
    assert(s[18] == StmF401Pin::B2);
    assert(s[19] == StmF401Pin::B3);
    assert(s[20] == StmF401Pin::B4);
    assert(s[21] == StmF401Pin::B5);
    assert(s[22] == StmF401Pin::B6);
    assert(s[23] == StmF401Pin::B7);
    assert(s[24] == StmF401Pin::B8);
    assert(s[25] == StmF401Pin::B9);
    assert(s[26] == StmF401Pin::B10);
    assert(s[27] == StmF401Pin::B12);
    assert(s[28] == StmF401Pin::B13);
    assert(s[29] == StmF401Pin::B14);
    assert(s[30] == StmF401Pin::B15);
    assert(s[31] == StmF401Pin::C13);
    assert(s[32] == StmF401Pin::C14);
    assert(s[33] == StmF401Pin::C15);
    assert(s[34] == StmF401Pin::H0);
    assert(s[35] == StmF401Pin::H1);
    assert forall|i: int| 0 <= i < 36 implies black_pill_position(#[trigger] s[i]) == i && s[i].port() != 'E' by {
        if i == 0 {
            assert(s[0] == StmF401Pin::A0);
        } else if i == 1 {
            assert(s[1] == StmF401Pin::A1);
        } else if i == 2 {
            assert(s[2] == StmF401Pin::A2);
        } else if i == 3 {
            assert(s[3] == StmF401Pin::A3);
        } else if i == 4 {
            assert(s[4] == StmF401Pin::A4);
        } else if i == 5 {
            assert(s[5] == StmF401Pin::A5);
        } else if i == 6 {
            assert(s[6] == StmF401Pin::A6);
        } else if i == 7 {
            assert(s[7] == StmF401Pin::A7);
        } else if i == 8 {
            assert(s[8] == StmF401Pin::A8);
        } else if i == 9 {
            assert(s[9] == StmF401Pin::A9);
        } else if i == 10 {
            assert(s[10] == StmF401Pin::A10);
        } else if i == 11 {
            assert(s[11] == StmF401Pin::A11);
        } else if i == 12 {
            assert(s[12] == StmF401Pin::A12);
        } else if i == 13 {
            assert(s[13] == StmF401Pin::A13);
        } else if i == 14 {
            assert(s[14] == StmF401Pin::A14);
        } else if i == 15 {
            assert(s[15] == StmF401Pin::A15);
        } else if i == 16 {
            assert(s[16] == StmF401Pin::B0);
        } else if i == 17 {
            assert(s[17] == StmF401Pin::B1);
        } else if i == 18 {
            assert(s[18] == StmF401Pin::B2);
        } else if i == 19 {
            assert(s[19] == StmF401Pin::B3);
        } else if i == 20 {
            assert(s[20] == StmF401Pin::B4);
        } else if i == 21 {
            assert(s[21] == StmF401Pin::B5);
        } else if i == 22 {
            assert(s[22] == StmF401Pin::B6);
        } else if i == 23 {
            assert(s[23] == StmF401Pin::B7);
        } else if i == 24 {
            assert(s[24] == StmF401Pin::B8);
        } else if i == 25 {
            assert(s[25] == StmF401Pin::B9);
        } else if i == 26 {
            assert(s[26] == StmF401Pin::B10);
        } else if i == 27 {
            assert(s[27] == StmF401Pin::B12);
        } else if i == 28 {
            assert(s[28] == StmF401Pin::B13);
        } else if i == 29 {
            assert(s[29] == StmF401Pin::B14);
        } else if i == 30 {
            assert(s[30] == StmF401Pin::B15);
        } else if i == 31 {
            assert(s[31] == StmF401Pin::C13);
        } else if i == 32 {
            assert(s[32] == StmF401Pin::C14);
        } else if i == 33 {
            assert(s[33] == StmF401Pin::C15);
        } else if i == 34 {
            assert(s[34] == StmF401Pin::H0);
        } else if i == 35 {
            assert(s[35] == StmF401Pin::H1);
        }
    }
    assert forall|p: StmF401Pin| #[trigger] s.contains(p) <==> p.port() != 'E' by {
        if s.contains(p) {
            let k = choose|k: int| 0 <= k < s.len() && s[k] == p;
            assert(black_pill_position(s[k]) == k);
        }
        match p {
            StmF401Pin::A0 => { assert(s[0] == p); },
            StmF401Pin::A1 => { assert(s[1] == p); },
            StmF401Pin::A2 => { assert(s[2] == p); },
            StmF401Pin::A3 => { assert(s[3] == p); },
            StmF401Pin::A4 => { assert(s[4] == p); },
            StmF401Pin::A5 => { assert(s[5] == p); },
            StmF401Pin::A6 => { assert(s[6] == p); },
            StmF401Pin::A7 => { assert(s[7] == p); },
            StmF401Pin::A8 => { assert(s[8] == p); },
            StmF401Pin::A9 => { assert(s[9] == p); },
            StmF401Pin::A10 => { assert(s[10] == p); },
            StmF401Pin::A11 => { assert(s[11] == p); },
            StmF401Pin::A12 => { assert(s[12] == p); },
            StmF401Pin::A13 => { assert(s[13] == p); },
            StmF401Pin::A14 => { assert(s[14] == p); },
            StmF401Pin::A15 => { assert(s[15] == p); },
            StmF401Pin::B0 => { assert(s[16] == p); },
            StmF401Pin::B1 => { assert(s[17] == p); },
            StmF401Pin::B2 => { assert(s[18] == p); },
            StmF401Pin::B3 => { assert(s[19] == p); },
            StmF401Pin::B4 => { assert(s[20] == p); },
            StmF401Pin::B5 => { assert(s[21] == p); },
            StmF401Pin::B6 => { assert(s[22] == p); },
            StmF401Pin::B7 => { assert(s[23] == p); },
            StmF401Pin::B8 => { assert(s[24] == p); },
            StmF401Pin::B9 => { assert(s[25] == p); },
            StmF401Pin::B10 => { assert(s[26] == p); },
            StmF401Pin::B12 => { assert(s[27] == p); },
            StmF401Pin::B13 => { assert(s[28] == p); },
            StmF401Pin::B14 => { assert(s[29] == p); },
            StmF401Pin::B15 => { assert(s[30] == p); },
            StmF401Pin::C13 => { assert(s[31] == p); },
            StmF401Pin::C14 => { assert(s[32] == p); },
            StmF401Pin::C15 => { assert(s[33] == p); },
            StmF401Pin::E2 => {},
            StmF401Pin::E5 => {},
            StmF401Pin::E6 => {},
            StmF401Pin::E12 => {},
            StmF401Pin::E13 => {},
            StmF401Pin::E14 => {},
            StmF401Pin::H0 => { assert(s[34] == p); },
            StmF401Pin::H1 => { assert(s[35] == p); },
        }
    }
    assert forall|i: int, j: int| 0 <= i < s.len() && 0 <= j < s.len() && i != j implies s[i] != s[j] by {
        assert(black_pill_position(s[i]) == i);
        assert(black_pill_position(s[j]) == j);
    }
}


/// Whether the STM32F401 can route a line of an SPI bus to the pin, by its
/// alternate-function table: line `0` is SCK, `1` is MISO and `2` is MOSI.
pub open spec fn spi_alternate_function(pin: StmF401Pin, bus: StmF401SpiBus, line: nat) -> bool {
    match pin {
        StmF401Pin::A5 => bus == StmF401SpiBus::SPI1 && line == 0,
        StmF401Pin::A6 => bus == StmF401SpiBus::SPI1 && line == 1,
        StmF401Pin::A7 => bus == StmF401SpiBus::SPI1 && line == 2,
        StmF401Pin::B3 => (bus == StmF401SpiBus::SPI1 || bus == StmF401SpiBus::SPI3) && line == 0,
        StmF401Pin::B4 => (bus == StmF401SpiBus::SPI1 || bus == StmF401SpiBus::SPI3) && line == 1,
        StmF401Pin::B5 => (bus == StmF401SpiBus::SPI1 || bus == StmF401SpiBus::SPI3) && line == 2,
        StmF401Pin::B10 => bus == StmF401SpiBus::SPI2 && line == 0,
        StmF401Pin::B13 => bus == StmF401SpiBus::SPI2 && line == 0,
        StmF401Pin::B14 => bus == StmF401SpiBus::SPI2 && line == 1,
        StmF401Pin::B15 => bus == StmF401SpiBus::SPI2 && line == 2,
        StmF401Pin::E2 => bus == StmF401SpiBus::SPI4 && line == 0,
        StmF401Pin::E12 => bus == StmF401SpiBus::SPI4 && line == 0,
        StmF401Pin::E5 => bus == StmF401SpiBus::SPI4 && line == 1,
        StmF401Pin::E13 => bus == StmF401SpiBus::SPI4 && line == 1,
        StmF401Pin::E6 => bus == StmF401SpiBus::SPI4 && line == 2,
        StmF401Pin::E14 => bus == StmF401SpiBus::SPI4 && line == 2,
        _ => false,
    }
}

/// Whether the mapping is one that the candidate lists give: it belongs to
/// the bus, takes each line from its list, and uses three different pins.
pub open spec fn built_from(
    m: SpiMapping,
    bus: ChosenSpiBus,
    scks: Seq<StmF401Pin>,
    misos: Seq<StmF401Pin>,
    mosis: Seq<StmF401Pin>,
) -> bool {
    &&& m.bus == bus
    &&& m.sck matches ChosenPin::StmF401(s) && scks.contains(s)
    &&& m.miso matches ChosenPin::StmF401(mi) && misos.contains(mi)
    &&& m.mosi matches ChosenPin::StmF401(mo) && mosis.contains(mo)
    &&& mapping_pins_distinct(m)
}

proof fn lemma_concat_contains<A>(a: Seq<A>, b: Seq<A>, x: A)
    ensures
        (a + b).contains(x) <==> a.contains(x) || b.contains(x),
{
    if (a + b).contains(x) {
        let k = choose|k: int| 0 <= k < (a + b).len() && (a + b)[k] == x;
        if k < a.len() {
            assert(a[k] == x);
        } else {
            assert(b[k - a.len()] == x);
        }
    }
    if a.contains(x) {
        let k = choose|k: int| 0 <= k < a.len() && a[k] == x;
        assert((a + b)[k] == x);
    }
    if b.contains(x) {
        let k = choose|k: int| 0 <= k < b.len() && b[k] == x;
        assert((a + b)[a.len() + k] == x);
    }
}

proof fn lemma_drop_last_contains<A>(s: Seq<A>, x: A)
    requires
        s.len() > 0,
    ensures
        s.contains(x) <==> s.drop_last().contains(x) || s.last() == x,
{
    if s.contains(x) {
        let k = choose|k: int| 0 <= k < s.len() && s[k] == x;
        if k < s.len() - 1 {
            assert(s.drop_last()[k] == x);
        }
    }
    if s.drop_last().contains(x) {
        let k = choose|k: int| 0 <= k < s.drop_last().len() && s.drop_last()[k] == x;
        assert(s[k] == x);
    }
    if s.last() == x {
        assert(s[s.len() - 1] == x);
    }
}

proof fn lemma_with_sck_miso_contains(
    bus: ChosenSpiBus,
    sck: StmF401Pin,
    miso: StmF401Pin,
    mosis: Seq<StmF401Pin>,
    m: SpiMapping,
)
    ensures
        mappings_with_sck_miso(bus, sck, miso, mosis).contains(m)
            <==> built_from(m, bus, seq![sck], seq![miso], mosis),
    decreases mosis.len(),
{
    assert(seq![sck].contains(sck)) by { assert(seq![sck][0] == sck); }
    assert(seq![miso].contains(miso)) by { assert(seq![miso][0] == miso); }
    assert(forall|p: StmF401Pin| #[trigger] seq![sck].contains(p) ==> p == sck);
    assert(forall|p: StmF401Pin| #[trigger] seq![miso].contains(p) ==> p == miso);
    if mosis.len() == 0 {
        assert(!built_from(m, bus, seq![sck], seq![miso], mosis));
    } else {
        let last = mosis.last();
        lemma_with_sck_miso_contains(bus, sck, miso, mosis.drop_last(), m);
        lemma_concat_contains(
            mappings_with_sck_miso(bus, sck, miso, mosis.drop_last()),
            mapping_of(bus, sck, miso, last),
            m,
        );
        if let ChosenPin::StmF401(mo) = m.mosi {
            lemma_drop_last_contains(mosis, mo);
        }
        let one = SpiMapping {
            bus,
            sck: ChosenPin::StmF401(sck),
            miso: ChosenPin::StmF401(miso),
            mosi: ChosenPin::StmF401(last),
        };
        if mapping_of(bus, sck, miso, last).contains(m) {
            assert(mapping_of(bus, sck, miso, last) == seq![one]);
            assert(m == one);
        }
        if m == one && sck != miso && sck != last && miso != last {
            assert(mapping_of(bus, sck, miso, last)[0] == m);
        }
    }
}

proof fn lemma_with_sck_contains(
    bus: ChosenSpiBus,
    sck: StmF401Pin,
    misos: Seq<StmF401Pin>,
    mosis: Seq<StmF401Pin>,
    m: SpiMapping,
)
    ensures
        mappings_with_sck(bus, sck, misos, mosis).contains(m) <==> built_from(m, bus, seq![sck], misos, mosis),
    decreases misos.len(),
{
    if misos.len() > 0 {
        let last = misos.last();
        lemma_with_sck_contains(bus, sck, misos.drop_last(), mosis, m);
        lemma_with_sck_miso_contains(bus, sck, last, mosis, m);
        lemma_concat_contains(
            mappings_with_sck(bus, sck, misos.drop_last(), mosis),
            mappings_with_sck_miso(bus, sck, last, mosis),
            m,
        );
        if let ChosenPin::StmF401(mi) = m.miso {
            lemma_drop_last_contains(misos, mi);
            assert(seq![last].contains(mi) <==> mi == last) by {
                if mi == last {
                    assert(seq![last][0] == mi);
                }
            }
        }
    }
}

/// A mapping is among those built from the candidate lists exactly when
/// it belongs to the bus, takes each line from its list and uses three
/// different pins.
pub proof fn lemma_make_mappings_contains(
    bus: ChosenSpiBus,
    scks: Seq<StmF401Pin>,
    misos: Seq<StmF401Pin>,
    mosis: Seq<StmF401Pin>,
    m: SpiMapping,
)
    ensures
        spec_make_mappings(bus, scks, misos, mosis).contains(m) <==> built_from(m, bus, scks, misos, mosis),
    decreases scks.len(),
{
    if scks.len() > 0 {
        let last = scks.last();
        lemma_make_mappings_contains(bus, scks.drop_last(), misos, mosis, m);
        lemma_with_sck_contains(bus, last, misos, mosis, m);
        lemma_concat_contains(
            spec_make_mappings(bus, scks.drop_last(), misos, mosis),
            mappings_with_sck(bus, last, misos, mosis),
            m,
        );
        if let ChosenPin::StmF401(s) = m.sck {
            lemma_drop_last_contains(scks, s);
            assert(seq![last].contains(s) <==> s == last) by {
                if s == last {
                    assert(seq![last][0] == s);
                }
            }
        }
    }
}

/// The candidate lists of a bus hold exactly the pins that the
/// alternate-function table routes each line of the bus to.
proof fn lemma_candidates_exact(bus: StmF401SpiBus, p: StmF401Pin)
    ensures
        bus.spec_candidates().0.contains(p) <==> spi_alternate_function(p, bus, 0),
        bus.spec_candidates().1.contains(p) <==> spi_alternate_function(p, bus, 1),
        bus.spec_candidates().2.contains(p) <==> spi_alternate_function(p, bus, 2),
{
    let (a, b, c) = bus.spec_candidates();
    assert(forall|k: int| 0 <= k < a.len() ==> spi_alternate_function(#[trigger] a[k], bus, 0));
    assert(forall|k: int| 0 <= k < b.len() ==> spi_alternate_function(#[trigger] b[k], bus, 1));
    assert(forall|k: int| 0 <= k < c.len() ==> spi_alternate_function(#[trigger] c[k], bus, 2));
    if spi_alternate_function(p, bus, 0) {
        if a.len() == 2 && a[1] == p {
            assert(a.contains(p));
        } else {
            assert(a[0] == p);
        }
    }
    if spi_alternate_function(p, bus, 1) {
        if b.len() == 2 && b[1] == p {
            assert(b.contains(p));
        } else {
            assert(b[0] == p);
        }
    }
    if spi_alternate_function(p, bus, 2) {
        if c.len() == 2 && c[1] == p {
            assert(c.contains(p));
        } else {
            assert(c[0] == p);
        }
    }
}

/// The SPI mappings of a bus are exactly the routings that the
/// alternate-function table allows: a mapping is listed when and only when
/// it belongs to the bus, each of its lines goes to a pin the table routes
/// that line of the bus to, and its three pins differ.
pub proof fn lemma_f401_mappings_exact(bus: StmF401SpiBus, m: SpiMapping)
    ensures
        bus.spec_mappings().contains(m) <==> {
            &&& m.bus == ChosenSpiBus::StmF401(bus)
            &&& m.sck matches ChosenPin::StmF401(s) && spi_alternate_function(s, bus, 0)
            &&& m.miso matches ChosenPin::StmF401(mi) && spi_alternate_function(mi, bus, 1)
            &&& m.mosi matches ChosenPin::StmF401(mo) && spi_alternate_function(mo, bus, 2)
            &&& mapping_pins_distinct(m)
        },
{
    let (scks, misos, mosis) = bus.spec_candidates();
    lemma_make_mappings_contains(ChosenSpiBus::StmF401(bus), scks, misos, mosis, m);
    if let ChosenPin::StmF401(s) = m.sck {
        lemma_candidates_exact(bus, s);
    }
    if let ChosenPin::StmF401(mi) = m.miso {
        lemma_candidates_exact(bus, mi);
    }
    if let ChosenPin::StmF401(mo) = m.mosi {
        lemma_candidates_exact(bus, mo);
    }
}

} // verus!
