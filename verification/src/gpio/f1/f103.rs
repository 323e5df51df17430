//! Pins and SPI buses of the STM32F103C8T6.

use vstd::prelude::*;
use crate::gpio::{ChosenPin, ChosenSpiBus, SpiMapping};
use crate::text::{decimal, lemma_decimal_small};

verus! {

/// Pins of the STM32F103C8T6 (LQFP48).
#[derive(Debug, Clone, Copy, PartialEq, Eq, Structural)]
pub enum StmF103Pin {
    A0,
    A1,
    A2,
    A3,
    A4,
    A5,
    A6,
    A7,
    A8,
    A9,
    A10,
    A11,
    A12,
    A13,
    A14,
    A15,
    B0,
    B1,
    B2,
    B3,
    B4,
    B5,
    B6,
    B7,
    B8,
    B9,
    B10,
    B11,
    B12,
    B13,
    B14,
    B15,
    C13,
    C14,
    C15,
    D0,
    D1,
}

impl StmF103Pin {
    /// Port letter of the pin (`'A'` for `A5`).
    pub open spec fn port(self) -> char {
        match self {
            StmF103Pin::A0 => 'A',
            StmF103Pin::A1 => 'A',
            StmF103Pin::A2 => 'A',
            StmF103Pin::A3 => 'A',
            StmF103Pin::A4 => 'A',
            StmF103Pin::A5 => 'A',
            StmF103Pin::A6 => 'A',
            StmF103Pin::A7 => 'A',
            StmF103Pin::A8 => 'A',
            StmF103Pin::A9 => 'A',
            StmF103Pin::A10 => 'A',
            StmF103Pin::A11 => 'A',
            StmF103Pin::A12 => 'A',
            StmF103Pin::A13 => 'A',
            StmF103Pin::A14 => 'A',
            StmF103Pin::A15 => 'A',
            StmF103Pin::B0 => 'B',
            StmF103Pin::B1 => 'B',
            StmF103Pin::B2 => 'B',
            StmF103Pin::B3 => 'B',
            StmF103Pin::B4 => 'B',
            StmF103Pin::B5 => 'B',
            StmF103Pin::B6 => 'B',
            StmF103Pin::B7 => 'B',
            StmF103Pin::B8 => 'B',
            StmF103Pin::B9 => 'B',
            StmF103Pin::B10 => 'B',
            StmF103Pin::B11 => 'B',
            StmF103Pin::B12 => 'B',
            StmF103Pin::B13 => 'B',
            StmF103Pin::B14 => 'B',
            StmF103Pin::B15 => 'B',
            StmF103Pin::C13 => 'C',
            StmF103Pin::C14 => 'C',
            StmF103Pin::C15 => 'C',
            StmF103Pin::D0 => 'D',
            StmF103Pin::D1 => 'D',
        }
    }

    /// Pin number inside its port (`5` for `A5`).
    pub open spec fn number(self) -> nat {
        match self {
            StmF103Pin::A0 => 0,
            StmF103Pin::A1 => 1,
            StmF103Pin::A2 => 2,
            StmF103Pin::A3 => 3,
            StmF103Pin::A4 => 4,
            StmF103Pin::A5 => 5,
            StmF103Pin::A6 => 6,
            StmF103Pin::A7 => 7,
            StmF103Pin::A8 => 8,
            StmF103Pin::A9 => 9,
            StmF103Pin::A10 => 10,
            StmF103Pin::A11 => 11,
            StmF103Pin::A12 => 12,
            StmF103Pin::A13 => 13,
            StmF103Pin::A14 => 14,
            StmF103Pin::A15 => 15,
            StmF103Pin::B0 => 0,
            StmF103Pin::B1 => 1,
            StmF103Pin::B2 => 2,
            StmF103Pin::B3 => 3,
            StmF103Pin::B4 => 4,
            StmF103Pin::B5 => 5,
            StmF103Pin::B6 => 6,
            StmF103Pin::B7 => 7,
            StmF103Pin::B8 => 8,
            StmF103Pin::B9 => 9,
            StmF103Pin::B10 => 10,
            StmF103Pin::B11 => 11,
            StmF103Pin::B12 => 12,
            StmF103Pin::B13 => 13,
            StmF103Pin::B14 => 14,
            StmF103Pin::B15 => 15,
            StmF103Pin::C13 => 13,
            StmF103Pin::C14 => 14,
            StmF103Pin::C15 => 15,
            StmF103Pin::D0 => 0,
            StmF103Pin::D1 => 1,
        }
    }

    /// Name of the pin: the port letter followed by the number in decimal.
    pub open spec fn spec_name(self) -> Seq<char> {
        seq![self.port()] + decimal(self.number())
    }

    /// Every pin of the package, in declaration order.
    pub open spec fn spec_all() -> Seq<StmF103Pin> {
        seq![StmF103Pin::A0, StmF103Pin::A1, StmF103Pin::A2, StmF103Pin::A3, StmF103Pin::A4, StmF103Pin::A5, StmF103Pin::A6, StmF103Pin::A7, StmF103Pin::A8, StmF103Pin::A9, StmF103Pin::A10, StmF103Pin::A11, StmF103Pin::A12, StmF103Pin::A13, StmF103Pin::A14, StmF103Pin::A15, StmF103Pin::B0, StmF103Pin::B1, StmF103Pin::B2, StmF103Pin::B3, StmF103Pin::B4, StmF103Pin::B5, StmF103Pin::B6, StmF103Pin::B7, StmF103Pin::B8, StmF103Pin::B9, StmF103Pin::B10, StmF103Pin::B11, StmF103Pin::B12, StmF103Pin::B13, StmF103Pin::B14, StmF103Pin::B15, StmF103Pin::C13, StmF103Pin::C14, StmF103Pin::C15, StmF103Pin::D0, StmF103Pin::D1]
    }

    /// Returns the name of the pin, such as `"A5"`.
    pub fn as_str(self) -> (name: &'static str)
        ensures
            name@ == self.spec_name(),
    {
        proof {
            lemma_decimal_small(self.number());
        }
        match self {
            StmF103Pin::A0 => {
                proof {
                    reveal_strlit("A0");
                }
                "A0"
            },
            StmF103Pin::A1 => {
                proof {
                    reveal_strlit("A1");
                }
                "A1"
            },
            StmF103Pin::A2 => {
                proof {
                    reveal_strlit("A2");
                }
                "A2"
            },
            StmF103Pin::A3 => {
                proof {
                    reveal_strlit("A3");
                }
                "A3"
            },
            StmF103Pin::A4 => {
                proof {
                    reveal_strlit("A4");
                }
                "A4"
            },
            StmF103Pin::A5 => {
                proof {
                    reveal_strlit("A5");
                }
                "A5"
            },
            StmF103Pin::A6 => {
                proof {
                    reveal_strlit("A6");
                }
                "A6"
            },
            StmF103Pin::A7 => {
                proof {
                    reveal_strlit("A7");
                }
                "A7"
            },
            StmF103Pin::A8 => {
                proof {
                    reveal_strlit("A8");
                }
                "A8"
            },
            StmF103Pin::A9 => {
                proof {
                    reveal_strlit("A9");
                }
                "A9"
            },
            StmF103Pin::A10 => {
                proof {
                    reveal_strlit("A10");
                }
                "A10"
            },
            StmF103Pin::A11 => {
                proof {
                    reveal_strlit("A11");
                }
                "A11"
            },
            StmF103Pin::A12 => {
                proof {
                    reveal_strlit("A12");
                }
                "A12"
            },
            StmF103Pin::A13 => {
                proof {
                    reveal_strlit("A13");
                }
                "A13"
            },
            StmF103Pin::A14 => {
                proof {
                    reveal_strlit("A14");
                }
                "A14"
            },
            StmF103Pin::A15 => {
                proof {
                    reveal_strlit("A15");
                }
                "A15"
            },
            StmF103Pin::B0 => {
                proof {
                    reveal_strlit("B0");
                }
                "B0"
            },
            StmF103Pin::B1 => {
                proof {
                    reveal_strlit("B1");
                }
                "B1"
            },
            StmF103Pin::B2 => {
                proof {
                    reveal_strlit("B2");
                }
                "B2"
            },
            StmF103Pin::B3 => {
                proof {
                    reveal_strlit("B3");
                }
                "B3"
            },
            StmF103Pin::B4 => {
                proof {
                    reveal_strlit("B4");
                }
                "B4"
            },
            StmF103Pin::B5 => {
                proof {
                    reveal_strlit("B5");
                }
                "B5"
            },
            StmF103Pin::B6 => {
                proof {
                    reveal_strlit("B6");
                }
                "B6"
            },
            StmF103Pin::B7 => {
                proof {
                    reveal_strlit("B7");
                }
                "B7"
            },
            StmF103Pin::B8 => {
                proof {
                    reveal_strlit("B8");
                }
                "B8"
            },
            StmF103Pin::B9 => {
                proof {
                    reveal_strlit("B9");
                }
                "B9"
            },
            StmF103Pin::B10 => {
                proof {
                    reveal_strlit("B10");
                }
                "B10"
            },
            StmF103Pin::B11 => {
                proof {
                    reveal_strlit("B11");
                }
                "B11"
            },
            StmF103Pin::B12 => {
                proof {
                    reveal_strlit("B12");
                }
                "B12"
            },
            StmF103Pin::B13 => {
                proof {
                    reveal_strlit("B13");
                }
                "B13"
            },
            StmF103Pin::B14 => {
                proof {
                    reveal_strlit("B14");
                }
                "B14"
            },
            StmF103Pin::B15 => {
                proof {
                    reveal_strlit("B15");
                }
                "B15"
            },
            StmF103Pin::C13 => {
                proof {
                    reveal_strlit("C13");
                }
                "C13"
            },
            StmF103Pin::C14 => {
                proof {
                    reveal_strlit("C14");
                }
                "C14"
            },
            StmF103Pin::C15 => {
                proof {
                    reveal_strlit("C15");
                }
                "C15"
            },
            StmF103Pin::D0 => {
                proof {
                    reveal_strlit("D0");
                }
                "D0"
            },
            StmF103Pin::D1 => {
                proof {
                    reveal_strlit("D1");
                }
                "D1"
            },
        }
    }

    /// Returns every pin of the package, in declaration order.
    pub fn all() -> (pins: Vec<StmF103Pin>)
        ensures
            pins@ == Self::spec_all(),
    {
        vec![StmF103Pin::A0, StmF103Pin::A1, StmF103Pin::A2, StmF103Pin::A3, StmF103Pin::A4, StmF103Pin::A5, StmF103Pin::A6, StmF103Pin::A7, StmF103Pin::A8, StmF103Pin::A9, StmF103Pin::A10, StmF103Pin::A11, StmF103Pin::A12, StmF103Pin::A13, StmF103Pin::A14, StmF103Pin::A15, StmF103Pin::B0, StmF103Pin::B1, StmF103Pin::B2, StmF103Pin::B3, StmF103Pin::B4, StmF103Pin::B5, StmF103Pin::B6, StmF103Pin::B7, StmF103Pin::B8, StmF103Pin::B9, StmF103Pin::B10, StmF103Pin::B11, StmF103Pin::B12, StmF103Pin::B13, StmF103Pin::B14, StmF103Pin::B15, StmF103Pin::C13, StmF103Pin::C14, StmF103Pin::C15, StmF103Pin::D0, StmF103Pin::D1]
    }
}

/// SPI buses of the STM32F103C8T6 on their default (not remapped) pins.
#[derive(Debug, Clone, Copy, PartialEq, Eq, Structural)]
pub enum StmF103SpiBus {
    SPI1,
    SPI2,
}

impl StmF103SpiBus {
    /// Name of the bus, such as `"SPI1"`.
    pub open spec fn spec_name(self) -> Seq<char> {
        match self {
            StmF103SpiBus::SPI1 => "SPI1"@,
            StmF103SpiBus::SPI2 => "SPI2"@,
        }
    }

    /// Every bus, in declaration order.
    pub open spec fn spec_all() -> Seq<StmF103SpiBus> {
        seq![StmF103SpiBus::SPI1, StmF103SpiBus::SPI2]
    }

    /// The one complete pin mapping of the bus.
    pub open spec fn spec_mapping(self) -> SpiMapping {
        match self {
            StmF103SpiBus::SPI1 => SpiMapping {
                bus: ChosenSpiBus::StmF103(StmF103SpiBus::SPI1),
                sck: ChosenPin::StmF103(StmF103Pin::A5),
                miso: ChosenPin::StmF103(StmF103Pin::A6),
                mosi: ChosenPin::StmF103(StmF103Pin::A7),
            },
            StmF103SpiBus::SPI2 => SpiMapping {
                bus: ChosenSpiBus::StmF103(StmF103SpiBus::SPI2),
                sck: ChosenPin::StmF103(StmF103Pin::B13),
                miso: ChosenPin::StmF103(StmF103Pin::B14),
                mosi: ChosenPin::StmF103(StmF103Pin::B15),
            },
        }
    }

    /// Returns the name of the bus, such as `"SPI1"`.
    pub fn as_str(self) -> (name: &'static str)
        ensures
            name@ == self.spec_name(),
    {
        match self {
            StmF103SpiBus::SPI1 => "SPI1",
            StmF103SpiBus::SPI2 => "SPI2",
        }
    }

    /// Returns every bus, in declaration order.
    pub fn all() -> (buses: Vec<StmF103SpiBus>)
        ensures
            buses@ == Self::spec_all(),
    {
        vec![StmF103SpiBus::SPI1, StmF103SpiBus::SPI2]
    }

    /// Returns the complete, hardware compatible pin mappings of the bus.
    pub fn spi_mappings(self) -> (mappings: Vec<SpiMapping>)
        ensures
            mappings@ == seq![self.spec_mapping()],
    {
        match self {
            StmF103SpiBus::SPI1 => vec![SpiMapping {
                bus: ChosenSpiBus::StmF103(StmF103SpiBus::SPI1),
                sck: ChosenPin::StmF103(StmF103Pin::A5),
                miso: ChosenPin::StmF103(StmF103Pin::A6),
                mosi: ChosenPin::StmF103(StmF103Pin::A7),
            }],
            StmF103SpiBus::SPI2 => vec![SpiMapping {
                bus: ChosenSpiBus::StmF103(StmF103SpiBus::SPI2),
                sck: ChosenPin::StmF103(StmF103Pin::B13),
                miso: ChosenPin::StmF103(StmF103Pin::B14),
                mosi: ChosenPin::StmF103(StmF103Pin::B15),
            }],
        }
    }
}

} // verus!
