//! Supported boards and the pins they bring out.

use vstd::prelude::*;
use crate::errors::TargetBoardError;
use crate::gpio::f1::f103::StmF103Pin;
use crate::gpio::f4::f401::StmF401Pin;
use crate::gpio::{pins_contain, ChosenPin, TargetMcu};

verus! {

/// Kind of a board pin.
#[derive(Debug, Clone, Copy, PartialEq, Eq, Structural)]
pub enum PinType {
    Gpio(ChosenPin),
    Power,
}

/// A pin of a board header, as the UI draws it.
#[derive(Debug, PartialEq, Eq)]
pub struct Pin {
    pub pin_type: PinType,
    pub label: String,
    pub key: String,
}

/// Abstract view of a board pin.
pub struct PinView {
    pub pin_type: PinType,
    pub label: Seq<char>,
    pub key: Seq<char>,
}

impl View for Pin {
    type V = PinView;

    open spec fn view(&self) -> PinView {
        PinView { pin_type: self.pin_type, label: self.label@, key: self.key@ }
    }
}

impl Clone for Pin {
    fn clone(&self) -> (copy: Self)
        ensures
            copy@ == self@,
    {
        Pin { pin_type: self.pin_type, label: self.label.clone(), key: self.key.clone() }
    }
}

/// View of the board pin that carries a GPIO pin.
pub open spec fn gpio_pin_view(pin: ChosenPin) -> PinView {
    PinView { pin_type: PinType::Gpio(pin), label: seq!['P'] + pin.spec_name(), key: pin.spec_name() }
}

/// View of a power pin with the given label.
pub open spec fn power_pin_view(label: Seq<char>) -> PinView {
    PinView { pin_type: PinType::Power, label: label, key: label }
}

/// Views of a list of board pins.
pub open spec fn pins_view(pins: Seq<Pin>) -> Seq<PinView> {
    pins.map_values(|p: Pin| p@)
}

impl Pin {
    /// Creates the board pin of a GPIO pin: label `P` + name, key the name.
    pub fn gpio(pin: ChosenPin) -> (board_pin: Pin)
        ensures
            board_pin@ == gpio_pin_view(pin),
    {
        let variant_name = pin.variant_name();
        proof {
            reveal_strlit("P");
            assert("P"@ =~= seq!['P']);
        }
        let mut label = String::from_str("P");
        label.append(variant_name);
        Pin { pin_type: PinType::Gpio(pin), label, key: String::from_str(variant_name) }
    }

    /// Creates a power pin; its key is its label.
    pub fn power(label: &str) -> (board_pin: Pin)
        ensures
            board_pin@ == power_pin_view(label@),
    {
        Pin { pin_type: PinType::Power, label: String::from_str(label), key: String::from_str(label) }
    }
}

/// Identifier of a supported board.
#[derive(Debug, Clone, Copy, PartialEq, Eq, Structural)]
pub enum TargetBoardId {
    BlackPill,
    BluePill,
}

/// A board together with the microcontroller it carries.
#[derive(Debug, Clone, Copy, PartialEq, Eq, Structural)]
pub struct TargetBoard {
    id: TargetBoardId,
    mcu: TargetMcu,
}

/// Microcontrollers that a board can carry.
pub open spec fn spec_supported_mcus(id: TargetBoardId) -> Seq<TargetMcu> {
    match id {
        TargetBoardId::BlackPill => seq![TargetMcu::StmF401],
        TargetBoardId::BluePill => seq![TargetMcu::StmF103],
    }
}

/// GPIO pins that the Black Pill brings out.
pub open spec fn black_pill_board_pins() -> Seq<ChosenPin> {
    StmF401Pin::spec_black_pill_pins().map_values(|p: StmF401Pin| ChosenPin::StmF401(p))
}

/// GPIO pins that the Blue Pill brings out (RESET is no GPIO pin).
pub open spec fn blue_pill_board_pins() -> Seq<ChosenPin> {
    seq![
        StmF103Pin::A0, StmF103Pin::A1, StmF103Pin::A2, StmF103Pin::A3, StmF103Pin::A4,
        StmF103Pin::A5, StmF103Pin::A6, StmF103Pin::A7, StmF103Pin::A8, StmF103Pin::A9,
        StmF103Pin::A10, StmF103Pin::A11, StmF103Pin::A12, StmF103Pin::A15, StmF103Pin::B0,
        StmF103Pin::B1, StmF103Pin::B3, StmF103Pin::B4, StmF103Pin::B5, StmF103Pin::B6,
        StmF103Pin::B7, StmF103Pin::B8, StmF103Pin::B9, StmF103Pin::B10, StmF103Pin::B11,
        StmF103Pin::B12, StmF103Pin::B13, StmF103Pin::B14, StmF103Pin::B15, StmF103Pin::C13,
        StmF103Pin::C14, StmF103Pin::C15,
    ].map_values(|p: StmF103Pin| ChosenPin::StmF103(p))
}

/// The pins of `mcu_pins` that occur in `board_pins`, in the order of `mcu_pins`.
pub open spec fn pins_on_board(mcu_pins: Seq<ChosenPin>, board_pins: Seq<ChosenPin>) -> Seq<ChosenPin>
    decreases mcu_pins.len(),
{
    if mcu_pins.len() == 0 {
        seq![]
    } else {
        pins_on_board(mcu_pins.drop_last(), board_pins) + (if board_pins.contains(mcu_pins.last()) {
            seq![mcu_pins.last()]
        } else {
            seq![]
        })
    }
}

/// Power pins before the GPIO pins of a board header.
pub open spec fn power_head() -> Seq<PinView> {
    seq![power_pin_view("VBAT"@), power_pin_view("3V3"@), power_pin_view("GND"@)]
}

/// Power pins after the GPIO pins of a board header.
pub open spec fn power_tail() -> Seq<PinView> {
    seq![power_pin_view("5V"@), power_pin_view("GND"@), power_pin_view("3V3"@), power_pin_view("GND"@)]
}

/// The header of a board whose GPIO pins are `gpio`.
pub open spec fn header_view(gpio: Seq<ChosenPin>) -> Seq<PinView> {
    power_head() + gpio.map_values(|p: ChosenPin| gpio_pin_view(p)) + power_tail()
}

impl TargetBoard {
    /// Whether the board carries the microcontroller.
    pub open spec fn spec_supports(id: TargetBoardId, mcu: TargetMcu) -> bool {
        spec_supported_mcus(id).contains(mcu)
    }

    /// Board identifier.
    pub closed spec fn spec_id(self) -> TargetBoardId {
        self.id
    }

    /// Microcontroller of the board.
    pub closed spec fn spec_mcu(self) -> TargetMcu {
        self.mcu
    }

    /// GPIO pins of the microcontroller that the board brings out, in MCU order.
    pub open spec fn spec_gpio_pins(self) -> Seq<ChosenPin> {
        match self.spec_id() {
            TargetBoardId::BlackPill => pins_on_board(self.spec_mcu().spec_all_pins(), black_pill_board_pins()),
            TargetBoardId::BluePill => pins_on_board(self.spec_mcu().spec_all_pins(), blue_pill_board_pins()),
        }
    }

    /// Pins of the board header.
    pub open spec fn spec_pins(self) -> Seq<PinView> {
        header_view(self.spec_gpio_pins())
    }

    /// Name of the board: its label and the MCU, such as `Black Pill (StmF401)`.
    pub open spec fn spec_name(self) -> Seq<char> {
        self.spec_id().spec_label() + " ("@ + self.spec_mcu().spec_debug_name() + ")"@
    }

    /// Label of the chip drawn on the board.
    pub open spec fn spec_chip_label(self) -> Seq<char> {
        match self.spec_mcu() {
            TargetMcu::StmF103 => "STM32F103"@,
            TargetMcu::StmF401 => "STM32F401"@,
        }
    }

    /// Pairs the board with the microcontroller, if the board carries it.
    pub fn try_new(id: TargetBoardId, mcu: TargetMcu) -> (board: Result<Self, TargetBoardError>)
        ensures
            Self::spec_supports(id, mcu) ==> (board matches Ok(b) && b.spec_id() == id && b.spec_mcu() == mcu),
            !Self::spec_supports(id, mcu) ==> board == Err::<Self, TargetBoardError>(
                TargetBoardError::UnsupportedMcu { board: id, mcu },
            ),
    {
        let supported = Self::supported_mcus(id);
        let mut i: usize = 0;
        while i < supported.len()
            invariant
                supported@ == spec_supported_mcus(id),
                i <= supported@.len(),
                forall|j: int| 0 <= j < i ==> supported@[j] != mcu,
            decreases supported@.len() - i,
        {
            if supported[i] == mcu {
                return Ok(TargetBoard { id, mcu });
            }
            i += 1;
        }
        Err(TargetBoardError::UnsupportedMcu { board: id, mcu })
    }

    /// Returns the microcontrollers that the board can carry.
    pub fn supported_mcus(id: TargetBoardId) -> (mcus: Vec<TargetMcu>)
        ensures
            mcus@ == spec_supported_mcus(id),
    {
        match id {
            TargetBoardId::BlackPill => vec![TargetMcu::StmF401],
            TargetBoardId::BluePill => vec![TargetMcu::StmF103],
        }
    }

    /// Returns the board identifier.
    pub fn id(&self) -> (id: TargetBoardId)
        ensures
            id == self.spec_id(),
    {
        self.id
    }

    /// Returns the microcontroller of the board.
    pub fn mcu(&self) -> (mcu: TargetMcu)
        ensures
            mcu == self.spec_mcu(),
    {
        self.mcu
    }

    /// Returns the name of the board, such as `Black Pill (StmF401)`.
    pub fn name(&self) -> (name: String)
        ensures
            name@ == self.spec_name(),
    {
        let mut name = String::from_str(self.id.label());
        name.append(" (");
        name.append(self.mcu.debug_name());
        name.append(")");
        name
    }

    /// Returns the label of the chip drawn on the board.
    pub fn chip_label(&self) -> (label: String)
        ensures
            label@ == self.spec_chip_label(),
    {
        match self.mcu() {
            TargetMcu::StmF103 => String::from_str("STM32F103"),
            TargetMcu::StmF401 => String::from_str("STM32F401"),
        }
    }

    /// Returns the GPIO pins of the microcontroller that the board brings out,
    /// in MCU order.
    pub fn gpio_pins(&self) -> (pins: Vec<ChosenPin>)
        ensures
            pins@ == self.spec_gpio_pins(),
    {
        let board_pins = match self.id {
            TargetBoardId::BlackPill => black_pill_pins(),
            TargetBoardId::BluePill => blue_pill_pins(),
        };
        filter_on_board(&self.mcu.all_pins(), &board_pins)
    }

    /// Returns the pins of the board header: three power pins, the GPIO pins
    /// that the board brings out in MCU order, then four power pins.
    pub fn build_pins(&self) -> (pins: Vec<Pin>)
        ensures
            pins_view(pins@) == self.spec_pins(),
    {
        match self.id {
            TargetBoardId::BlackPill => build_black_pill_pins(self.mcu),
            TargetBoardId::BluePill => build_blue_pill_pins(self.mcu),
        }
    }
}

impl TargetBoardId {
    /// Display label of the board.
    pub open spec fn spec_label(self) -> Seq<char> {
        match self {
            TargetBoardId::BlackPill => "Black Pill"@,
            TargetBoardId::BluePill => "Blue Pill"@,
        }
    }

    /// Returns the display label of the board.
    pub fn label(self) -> (label: &'static str)
        ensures
            label@ == self.spec_label(),
    {
        match self {
            TargetBoardId::BlackPill => "Black Pill",
            TargetBoardId::BluePill => "Blue Pill",
        }
    }
}

/// Returns the GPIO pins that the Black Pill brings out.
fn black_pill_pins() -> (pins: Vec<ChosenPin>)
    ensures
        pins@ == black_pill_board_pins(),
{
    let f401 = StmF401Pin::black_pill_pins();
    let mut pins: Vec<ChosenPin> = Vec::new();
    let mut i: usize = 0;
    while i < f401.len()
        invariant
            i <= f401@.len(),
            pins@ == f401@.take(i as int).map_values(|p: StmF401Pin| ChosenPin::StmF401(p)),
        decreases f401@.len() - i,
    {
        pins.push(ChosenPin::StmF401(f401[i]));
        proof {
            assert(f401@.take(i + 1).map_values(|p: StmF401Pin| ChosenPin::StmF401(p))
                =~= f401@.take(i as int).map_values(|p: StmF401Pin| ChosenPin::StmF401(p)).push(ChosenPin::StmF401(f401@[i as int])));
        }
        i += 1;
    }
    proof {
        assert(f401@.take(i as int) =~= f401@);
    }
    pins
}

/// Returns the GPIO pins that the Blue Pill brings out.
fn blue_pill_pins() -> (pins: Vec<ChosenPin>)
    ensures
        pins@ == blue_pill_board_pins(),
{
    let pins = vec![
        ChosenPin::StmF103(StmF103Pin::A0), ChosenPin::StmF103(StmF103Pin::A1),
        ChosenPin::StmF103(StmF103Pin::A2), ChosenPin::StmF103(StmF103Pin::A3),
        ChosenPin::StmF103(StmF103Pin::A4), ChosenPin::StmF103(StmF103Pin::A5),
        ChosenPin::StmF103(StmF103Pin::A6), ChosenPin::StmF103(StmF103Pin::A7),
        ChosenPin::StmF103(StmF103Pin::A8), ChosenPin::StmF103(StmF103Pin::A9),
        ChosenPin::StmF103(StmF103Pin::A10), ChosenPin::StmF103(StmF103Pin::A11),
        ChosenPin::StmF103(StmF103Pin::A12), ChosenPin::StmF103(StmF103Pin::A15),
        ChosenPin::StmF103(StmF103Pin::B0), ChosenPin::StmF103(StmF103Pin::B1),
        ChosenPin::StmF103(StmF103Pin::B3), ChosenPin::StmF103(StmF103Pin::B4),
        ChosenPin::StmF103(StmF103Pin::B5), ChosenPin::StmF103(StmF103Pin::B6),
        ChosenPin::StmF103(StmF103Pin::B7), ChosenPin::StmF103(StmF103Pin::B8),
        ChosenPin::StmF103(StmF103Pin::B9), ChosenPin::StmF103(StmF103Pin::B10),
        ChosenPin::StmF103(StmF103Pin::B11), ChosenPin::StmF103(StmF103Pin::B12),
        ChosenPin::StmF103(StmF103Pin::B13), ChosenPin::StmF103(StmF103Pin::B14),
        ChosenPin::StmF103(StmF103Pin::B15), ChosenPin::StmF103(StmF103Pin::C13),
        ChosenPin::StmF103(StmF103Pin::C14), ChosenPin::StmF103(StmF103Pin::C15),
    ];
    proof {
        assert(pins@ =~= blue_pill_board_pins());
    }
    pins
}

/// Keeps the pins of `mcu_pins` that occur in `board_pins`, in order.
fn filter_on_board(mcu_pins: &Vec<ChosenPin>, board_pins: &Vec<ChosenPin>) -> (pins: Vec<ChosenPin>)
    ensures
        pins@ == pins_on_board(mcu_pins@, board_pins@),
{
    let mut pins: Vec<ChosenPin> = Vec::new();
    let mut i: usize = 0;
    while i < mcu_pins.len()
        invariant
            i <= mcu_pins@.len(),
            pins@ == pins_on_board(mcu_pins@.take(i as int), board_pins@),
        decreases mcu_pins@.len() - i,
    {
        let pin = mcu_pins[i];
        proof {
            assert(mcu_pins@.take(i + 1).drop_last() =~= mcu_pins@.take(i as int));
        }
        if pins_contain(board_pins, pin) {
            pins.push(pin);
        }
        proof {
            assert(pins@ =~= pins_on_board(mcu_pins@.take(i + 1), board_pins@));
        }
        i += 1;
    }
    proof {
        assert(mcu_pins@.take(i as int) =~= mcu_pins@);
    }
    pins
}

/// Builds a header: three power pins, the GPIO pins, four power pins.
fn build_header(gpio: &Vec<ChosenPin>) -> (pins: Vec<Pin>)
    ensures
        pins_view(pins@) == header_view(gpio@),
{
    let mut pins = vec![Pin::power("VBAT"), Pin::power("3V3"), Pin::power("GND")];
    proof {
        assert(pins_view(pins@) =~= power_head());
    }
    let mut i: usize = 0;
    while i < gpio.len()
        invariant
            i <= gpio@.len(),
            pins_view(pins@) == power_head() + gpio@.take(i as int).map_values(|p: ChosenPin| gpio_pin_view(p)),
        decreases gpio@.len() - i,
    {
        let ghost before = pins@;
        pins.push(Pin::gpio(gpio[i]));
        proof {
            assert(pins_view(pins@) =~= pins_view(before).push(gpio_pin_view(gpio@[i as int])));
            assert(gpio@.take(i + 1).map_values(|p: ChosenPin| gpio_pin_view(p))
                =~= gpio@.take(i as int).map_values(|p: ChosenPin| gpio_pin_view(p)).push(gpio_pin_view(gpio@[i as int])));
        }
        i += 1;
    }
    proof {
        assert(gpio@.take(i as int) =~= gpio@);
    }
    let ghost middle = pins@;
    pins.push(Pin::power("5V"));
    pins.push(Pin::power("GND"));
    pins.push(Pin::power("3V3"));
    pins.push(Pin::power("GND"));
    proof {
        assert(pins_view(pins@) =~= pins_view(middle) + power_tail());
    }
    pins
}

/// Returns the header of the Black Pill for the microcontroller.
fn build_black_pill_pins(mcu: TargetMcu) -> (pins: Vec<Pin>)
    ensures
        pins_view(pins@) == header_view(pins_on_board(mcu.spec_all_pins(), black_pill_board_pins())),
{
    let board_pins = black_pill_pins();
    let gpio = filter_on_board(&mcu.all_pins(), &board_pins);
    build_header(&gpio)
}

/// Returns the header of the Blue Pill for the microcontroller.
fn build_blue_pill_pins(mcu: TargetMcu) -> (pins: Vec<Pin>)
    ensures
        pins_view(pins@) == header_view(pins_on_board(mcu.spec_all_pins(), blue_pill_board_pins())),
{
    let board_pins = blue_pill_pins();
    let gpio = filter_on_board(&mcu.all_pins(), &board_pins);
    build_header(&gpio)
}

/// A pin is kept by `pins_on_board` exactly when it is both a pin of the
/// MCU and a pin of the board.
pub proof fn lemma_pins_on_board_contains(mcu_pins: Seq<ChosenPin>, board_pins: Seq<ChosenPin>, x: ChosenPin)
    ensures
        pins_on_board(mcu_pins, board_pins).contains(x) <==> mcu_pins.contains(x) && board_pins.contains(x),
    decreases mcu_pins.len(),
{
    if mcu_pins.len() > 0 {
        let rest = mcu_pins.drop_last();
        let last = mcu_pins.last();
        lemma_pins_on_board_contains(rest, board_pins, x);
        let tail: Seq<ChosenPin> = if board_pins.contains(last) { seq![last] } else { seq![] };
        let whole = pins_on_board(mcu_pins, board_pins);
        assert(whole == pins_on_board(rest, board_pins) + tail);
        if whole.contains(x) {
            let k = choose|k: int| 0 <= k < whole.len() && whole[k] == x;
            if k < pins_on_board(rest, board_pins).len() {
                assert(pins_on_board(rest, board_pins)[k] == x);
            } else {
                assert(tail[k - pins_on_board(rest, board_pins).len()] == x);
            }
        }
        if mcu_pins.contains(x) && board_pins.contains(x) {
            let k = choose|k: int| 0 <= k < mcu_pins.len() && mcu_pins[k] == x;
            if k < rest.len() {
                assert(rest[k] == x);
                let j = choose|j: int| 0 <= j < pins_on_board(rest, board_pins).len() && pins_on_board(rest, board_pins)[j] == x;
                assert(whole[j] == x);
            } else {
                assert(x == last);
                assert(whole[pins_on_board(rest, board_pins).len() as int] == x);
            }
        }
        if rest.contains(x) {
            let k = choose|k: int| 0 <= k < rest.len() && rest[k] == x;
            assert(mcu_pins[k] == x);
        }
    }
}

/// The STM32F401 package lists every one of its pins.
pub proof fn lemma_f401_all_pins_complete(p: StmF401Pin)
    ensures
        TargetMcu::StmF401.spec_all_pins().contains(ChosenPin::StmF401(p)),
{
    let s = StmF401Pin::spec_all();
    let all = TargetMcu::StmF401.spec_all_pins();
    assert(all.len() == s.len());
    let k: int = match p {
        StmF401Pin::A0 => 0,
        StmF401Pin::A1 => 1,
        StmF401Pin::A2 => 2,
        StmF401Pin::A3 => 3,
        StmF401Pin::A4 => 4,
        StmF401Pin::A5 => 5,
        StmF401Pin::A6 => 6,
        StmF401Pin::A7 => 7,
        StmF401Pin::A8 => 8,
        StmF401Pin::A9 => 9,
        StmF401Pin::A10 => 10,
        StmF401Pin::A11 => 11,
        StmF401Pin::A12 => 12,
        StmF401Pin::A13 => 13,
        StmF401Pin::A14 => 14,
        StmF401Pin::A15 => 15,
        StmF401Pin::B0 => 16,
        StmF401Pin::B1 => 17,
        StmF401Pin::B2 => 18,
        StmF401Pin::B3 => 19,
        StmF401Pin::B4 => 20,
        StmF401Pin::B5 => 21,
        StmF401Pin::B6 => 22,
        StmF401Pin::B7 => 23,
        StmF401Pin::B8 => 24,
        StmF401Pin::B9 => 25,
        StmF401Pin::B10 => 26,
        StmF401Pin::B12 => 27,
        StmF401Pin::B13 => 28,
        StmF401Pin::B14 => 29,
        StmF401Pin::B15 => 30,
        StmF401Pin::C13 => 31,
        StmF401Pin::C14 => 32,
        StmF401Pin::C15 => 33,
        StmF401Pin::E2 => 34,
        StmF401Pin::E5 => 35,
        StmF401Pin::E6 => 36,
        StmF401Pin::E12 => 37,
        StmF401Pin::E13 => 38,
        StmF401Pin::E14 => 39,
        StmF401Pin::H0 => 40,
        StmF401Pin::H1 => 41,
    };
    assert(s[k] == p);
    assert(all[k] == ChosenPin::StmF401(s[k]));
}

/// The Black Pill header brings out exactly the pins of the STM32F401
/// outside port E, each once.
pub proof fn lemma_black_pill_header(board: TargetBoard)
    requires
        board.spec_id() == TargetBoardId::BlackPill,
        board.spec_mcu() == TargetMcu::StmF401,
    ensures
        forall|p: StmF401Pin| #[trigger] board.spec_gpio_pins().contains(ChosenPin::StmF401(p)) <==> p.port() != 'E',
        forall|x: ChosenPin| #[trigger] board.spec_gpio_pins().contains(x) ==> x is StmF401,
{
    crate::gpio::f4::f401::lemma_black_pill_pins_exact();
    let bp = StmF401Pin::spec_black_pill_pins();
    let b = black_pill_board_pins();
    assert forall|x: ChosenPin| #[trigger] b.contains(x) <==> (x matches ChosenPin::StmF401(p) && bp.contains(p)) by {
        if b.contains(x) {
            let k = choose|k: int| 0 <= k < b.len() && b[k] == x;
            assert(b[k] == ChosenPin::StmF401(bp[k]));
        }
        match x {
            ChosenPin::StmF401(p) => {
                if bp.contains(p) {
                    let k = choose|k: int| 0 <= k < bp.len() && bp[k] == p;
                    assert(b[k] == x);
                }
            },
            ChosenPin::StmF103(_) => {},
        }
    }
    assert forall|p: StmF401Pin| #[trigger] board.spec_gpio_pins().contains(ChosenPin::StmF401(p)) <==> p.port() != 'E' by {
        lemma_pins_on_board_contains(TargetMcu::StmF401.spec_all_pins(), b, ChosenPin::StmF401(p));
        lemma_f401_all_pins_complete(p);
    }
    assert forall|x: ChosenPin| #[trigger] board.spec_gpio_pins().contains(x) implies x is StmF401 by {
        lemma_pins_on_board_contains(TargetMcu::StmF401.spec_all_pins(), b, x);
    }
}

/// The pins of the STM32F103 that the Blue Pill keeps off its header: the
/// debug pins A13 and A14, BOOT1 on B2, and the oscillator pins D0 and D1.
pub open spec fn blue_pill_reserved(p: StmF103Pin) -> bool {
    p == StmF103Pin::A13 || p == StmF103Pin::A14 || p == StmF103Pin::B2 || p == StmF103Pin::D0 || p == StmF103Pin::D1
}

/// The STM32F103 package lists every one of its pins.
pub proof fn lemma_f103_all_pins_complete(p: StmF103Pin)
    ensures
        TargetMcu::StmF103.spec_all_pins().contains(ChosenPin::StmF103(p)),
{
    let s = StmF103Pin::spec_all();
    let all = TargetMcu::StmF103.spec_all_pins();
    assert(all.len() == s.len());
    let k: int = match p {
        StmF103Pin::A0 => 0,
        StmF103Pin::A1 => 1,
        StmF103Pin::A2 => 2,
        StmF103Pin::A3 => 3,
        StmF103Pin::A4 => 4,
        StmF103Pin::A5 => 5,
        StmF103Pin::A6 => 6,
        StmF103Pin::A7 => 7,
        StmF103Pin::A8 => 8,
        StmF103Pin::A9 => 9,
        StmF103Pin::A10 => 10,
        StmF103Pin::A11 => 11,
        StmF103Pin::A12 => 12,
        StmF103Pin::A13 => 13,
        StmF103Pin::A14 => 14,
        StmF103Pin::A15 => 15,
        StmF103Pin::B0 => 16,
        StmF103Pin::B1 => 17,
        StmF103Pin::B2 => 18,
        StmF103Pin::B3 => 19,
        StmF103Pin::B4 => 20,
        StmF103Pin::B5 => 21,
        StmF103Pin::B6 => 22,
        StmF103Pin::B7 => 23,
        StmF103Pin::B8 => 24,
        StmF103Pin::B9 => 25,
        StmF103Pin::B10 => 26,
        StmF103Pin::B11 => 27,
        StmF103Pin::B12 => 28,
        StmF103Pin::B13 => 29,
        StmF103Pin::B14 => 30,
        StmF103Pin::B15 => 31,
        StmF103Pin::C13 => 32,
        StmF103Pin::C14 => 33,
        StmF103Pin::C15 => 34,
        StmF103Pin::D0 => 35,
        StmF103Pin::D1 => 36,
    };
    assert(s[k] == p);
    assert(all[k] == ChosenPin::StmF103(s[k]));
}

/// The Blue Pill header brings out exactly the pins of the STM32F103 that
/// are not reserved for debugging, booting or the oscillator.
pub proof fn lemma_blue_pill_header(board: TargetBoard)
    requires
        board.spec_id() == TargetBoardId::BluePill,
        board.spec_mcu() == TargetMcu::StmF103,
    ensures
        forall|p: StmF103Pin| #[trigger] board.spec_gpio_pins().contains(ChosenPin::StmF103(p)) <==> !blue_pill_reserved(p),
        forall|x: ChosenPin| #[trigger] board.spec_gpio_pins().contains(x) ==> x is StmF103,
{
    let b = blue_pill_board_pins();
    assert(b[0] == ChosenPin::StmF103(StmF103Pin::A0));
    assert(b[1] == ChosenPin::StmF103(StmF103Pin::A1));
    assert(b[2] == ChosenPin::StmF103(StmF103Pin::A2));
    assert(b[3] == ChosenPin::StmF103(StmF103Pin::A3));
    assert(b[4] == ChosenPin::StmF103(StmF103Pin::A4));
    assert(b[5] == ChosenPin::StmF103(StmF103Pin::A5));
    assert(b[6] == ChosenPin::StmF103(StmF103Pin::A6));
    assert(b[7] == ChosenPin::StmF103(StmF103Pin::A7));
    assert(b[8] == ChosenPin::StmF103(StmF103Pin::A8));
    assert(b[9] == ChosenPin::StmF103(StmF103Pin::A9));
    assert(b[10] == ChosenPin::StmF103(StmF103Pin::A10));
    assert(b[11] == ChosenPin::StmF103(StmF103Pin::A11));
    assert(b[12] == ChosenPin::StmF103(StmF103Pin::A12));
    assert(b[13] == ChosenPin::StmF103(StmF103Pin::A15));
    assert(b[14] == ChosenPin::StmF103(StmF103Pin::B0));
    assert(b[15] == ChosenPin::StmF103(StmF103Pin::B1));
    assert(b[16] == ChosenPin::StmF103(StmF103Pin::B3));
    assert(b[17] == ChosenPin::StmF103(StmF103Pin::B4));
    assert(b[18] == ChosenPin::StmF103(StmF103Pin::B5));
    assert(b[19] == ChosenPin::StmF103(StmF103Pin::B6));
    assert(b[20] == ChosenPin::StmF103(StmF103Pin::B7));
    assert(b[21] == ChosenPin::StmF103(StmF103Pin::B8));
    assert(b[22] == ChosenPin::StmF103(StmF103Pin::B9));
    assert(b[23] == ChosenPin::StmF103(StmF103Pin::B10));
    assert(b[24] == ChosenPin::StmF103(StmF103Pin::B11));
    assert(b[25] == ChosenPin::StmF103(StmF103Pin::B12));
    assert(b[26] == ChosenPin::StmF103(StmF103Pin::B13));
    assert(b[27] == ChosenPin::StmF103(StmF103Pin::B14));
    assert(b[28] == ChosenPin::StmF103(StmF103Pin::B15));
    assert(b[29] == ChosenPin::StmF103(StmF103Pin::C13));
    assert(b[30] == ChosenPin::StmF103(StmF103Pin::C14));
    assert(b[31] == ChosenPin::StmF103(StmF103Pin::C15));
    assert(b.len() == 32);
    assert forall|k: int| 0 <= k < b.len() implies (#[trigger] b[k] matches ChosenPin::StmF103(q) && !blue_pill_reserved(q)) by {
        if k == 0 {
            assert(b[0] == ChosenPin::StmF103(StmF103Pin::A0));
        } else if k == 1 {
            assert(b[1] == ChosenPin::StmF103(StmF103Pin::A1));
        } else if k == 2 {
            assert(b[2] == ChosenPin::StmF103(StmF103Pin::A2));
        } else if k == 3 {
            assert(b[3] == ChosenPin::StmF103(StmF103Pin::A3));
        } else if k == 4 {
            assert(b[4] == ChosenPin::StmF103(StmF103Pin::A4));
        } else if k == 5 {
            assert(b[5] == ChosenPin::StmF103(StmF103Pin::A5));
        } else if k == 6 {
            assert(b[6] == ChosenPin::StmF103(StmF103Pin::A6));
        } else if k == 7 {
            assert(b[7] == ChosenPin::StmF103(StmF103Pin::A7));
        } else if k == 8 {
            assert(b[8] == ChosenPin::StmF103(StmF103Pin::A8));
        } else if k == 9 {
            assert(b[9] == ChosenPin::StmF103(StmF103Pin::A9));
        } else if k == 10 {
            assert(b[10] == ChosenPin::StmF103(StmF103Pin::A10));
        } else if k == 11 {
            assert(b[11] == ChosenPin::StmF103(StmF103Pin::A11));
        } else if k == 12 {
            assert(b[12] == ChosenPin::StmF103(StmF103Pin::A12));
        } else if k == 13 {
            assert(b[13] == ChosenPin::StmF103(StmF103Pin::A15));
        } else if k == 14 {
            assert(b[14] == ChosenPin::StmF103(StmF103Pin::B0));
        } else if k == 15 {
            assert(b[15] == ChosenPin::StmF103(StmF103Pin::B1));
        } else if k == 16 {
            assert(b[16] == ChosenPin::StmF103(StmF103Pin::B3));
        } else if k == 17 {
            assert(b[17] == ChosenPin::StmF103(StmF103Pin::B4));
        } else if k == 18 {
            assert(b[18] == ChosenPin::StmF103(StmF103Pin::B5));
        } else if k == 19 {
            assert(b[19] == ChosenPin::StmF103(StmF103Pin::B6));
        } else if k == 20 {
            assert(b[20] == ChosenPin::StmF103(StmF103Pin::B7));
        } else if k == 21 {
            assert(b[21] == ChosenPin::StmF103(StmF103Pin::B8));
        } else if k == 22 {
            assert(b[22] == ChosenPin::StmF103(StmF103Pin::B9));
        } else if k == 23 {
            assert(b[23] == ChosenPin::StmF103(StmF103Pin::B10));
        } else if k == 24 {
            assert(b[24] == ChosenPin::StmF103(StmF103Pin::B11));
        } else if k == 25 {
            assert(b[25] == ChosenPin::StmF103(StmF103Pin::B12));
        } else if k == 26 {
            assert(b[26] == ChosenPin::StmF103(StmF103Pin::B13));
        } else if k == 27 {
            assert(b[27] == ChosenPin::StmF103(StmF103Pin::B14));
        } else if k == 28 {
            assert(b[28] == ChosenPin::StmF103(StmF103Pin::B15));
        } else if k == 29 {
            assert(b[29] == ChosenPin::StmF103(StmF103Pin::C13));
        } else if k == 30 {
            assert(b[30] == ChosenPin::StmF103(StmF103Pin::C14));
        } else if k == 31 {
            assert(b[31] == ChosenPin::StmF103(StmF103Pin::C15));
        }
    }
    assert forall|p: StmF103Pin| #[trigger] b.contains(ChosenPin::StmF103(p)) <==> !blue_pill_reserved(p) by {
        if b.contains(ChosenPin::StmF103(p)) {
            let k = choose|k: int| 0 <= k < b.len() && b[k] == ChosenPin::StmF103(p);
            assert(b[k] matches ChosenPin::StmF103(q) && !blue_pill_reserved(q));
        }
        match p {
            StmF103Pin::A0 => { assert(b[0] == ChosenPin::StmF103(p)); },
            StmF103Pin::A1 => { assert(b[1] == ChosenPin::StmF103(p)); },
            StmF103Pin::A2 => { assert(b[2] == ChosenPin::StmF103(p)); },
            StmF103Pin::A3 => { assert(b[3] == ChosenPin::StmF103(p)); },
            StmF103Pin::A4 => { assert(b[4] == ChosenPin::StmF103(p)); },
            StmF103Pin::A5 => { assert(b[5] == ChosenPin::StmF103(p)); },
            StmF103Pin::A6 => { assert(b[6] == ChosenPin::StmF103(p)); },
            StmF103Pin::A7 => { assert(b[7] == ChosenPin::StmF103(p)); },
            StmF103Pin::A8 => { assert(b[8] == ChosenPin::StmF103(p)); },
            StmF103Pin::A9 => { assert(b[9] == ChosenPin::StmF103(p)); },
            StmF103Pin::A10 => { assert(b[10] == ChosenPin::StmF103(p)); },
            StmF103Pin::A11 => { assert(b[11] == ChosenPin::StmF103(p)); },
            StmF103Pin::A12 => { assert(b[12] == ChosenPin::StmF103(p)); },
            StmF103Pin::A13 => {},
            StmF103Pin::A14 => {},
            StmF103Pin::A15 => { assert(b[13] == ChosenPin::StmF103(p)); },
            StmF103Pin::B0 => { assert(b[14] == ChosenPin::StmF103(p)); },
            StmF103Pin::B1 => { assert(b[15] == ChosenPin::StmF103(p)); },
            StmF103Pin::B2 => {},
            StmF103Pin::B3 => { assert(b[16] == ChosenPin::StmF103(p)); },
            StmF103Pin::B4 => { assert(b[17] == ChosenPin::StmF103(p)); },
            StmF103Pin::B5 => { assert(b[18] == ChosenPin::StmF103(p)); },
            StmF103Pin::B6 => { assert(b[19] == ChosenPin::StmF103(p)); },
            StmF103Pin::B7 => { assert(b[20] == ChosenPin::StmF103(p)); },
            StmF103Pin::B8 => { assert(b[21] == ChosenPin::StmF103(p)); },
            StmF103Pin::B9 => { assert(b[22] == ChosenPin::StmF103(p)); },
            StmF103Pin::B10 => { assert(b[23] == ChosenPin::StmF103(p)); },
            StmF103Pin::B11 => { assert(b[24] == ChosenPin::StmF103(p)); },
            StmF103Pin::B12 => { assert(b[25] == ChosenPin::StmF103(p)); },
            StmF103Pin::B13 => { assert(b[26] == ChosenPin::StmF103(p)); },
            StmF103Pin::B14 => { assert(b[27] == ChosenPin::StmF103(p)); },
            StmF103Pin::B15 => { assert(b[28] == ChosenPin::StmF103(p)); },
            StmF103Pin::C13 => { assert(b[29] == ChosenPin::StmF103(p)); },
            StmF103Pin::C14 => { assert(b[30] == ChosenPin::StmF103(p)); },
            StmF103Pin::C15 => { assert(b[31] == ChosenPin::StmF103(p)); },
            StmF103Pin::D0 => {},
            StmF103Pin::D1 => {},
        }
    }
    assert forall|p: StmF103Pin| #[trigger] board.spec_gpio_pins().contains(ChosenPin::StmF103(p)) <==> !blue_pill_reserved(p) by {
        lemma_pins_on_board_contains(TargetMcu::StmF103.spec_all_pins(), b, ChosenPin::StmF103(p));
        lemma_f103_all_pins_complete(p);
    }
    assert forall|x: ChosenPin| #[trigger] board.spec_gpio_pins().contains(x) implies x is StmF103 by {
        lemma_pins_on_board_contains(TargetMcu::StmF103.spec_all_pins(), b, x);
        if b.contains(x) {
            let k = choose|k: int| 0 <= k < b.len() && b[k] == x;
            assert(b[k] matches ChosenPin::StmF103(q) && !blue_pill_reserved(q));
        }
    }
}

} // verus!
