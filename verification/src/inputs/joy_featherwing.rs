use vstd::prelude::*;

use crate::inputs::bus::{
    read_from, write_to, BusReply, BusReplyView, Transaction, TransactionView, Transfer,
};
use crate::inputs::pins::{PinAssignment, PinMap};
use crate::inputs::registers::{
    BaseRegister, GpioFunctionRegister, HardwareID, StatusFunctionRegister,
};
use crate::inputs::shared::SharedSensorState;
use crate::inputs::{byte_of, encode_word, u8s_to_u32, words_of, InputError};

verus! {

/// A logical button of the joystick board. `Neutral` stands for "nothing
/// pressed" where an event is expected.
#[derive(Clone, Copy, Debug, PartialEq, Eq, Structural)]
pub enum Button {
    Neutral,
    Up,
    Down,
    Left,
    Right,
    Select,
}

/// The buttons found pressed by one poll of the board: any of the five, in
/// no order.
#[derive(Clone, Copy, Debug, PartialEq, Eq, Structural)]
pub struct ButtonSet {
    pub up: bool,
    pub down: bool,
    pub left: bool,
    pub right: bool,
    pub select: bool,
}

impl ButtonSet {
    /// Whether `button` is in the set. `Neutral` never is.
    pub open spec fn has(self, button: Button) -> bool {
        match button {
            Button::Neutral => false,
            Button::Up => self.up,
            Button::Down => self.down,
            Button::Left => self.left,
            Button::Right => self.right,
            Button::Select => self.select,
        }
    }

    /// The set with nothing in it.
    pub open spec fn none() -> ButtonSet {
        ButtonSet { up: false, down: false, left: false, right: false, select: false }
    }

    /// The set that holds `button` and nothing else; the empty set for
    /// `Neutral`.
    pub open spec fn only(button: Button) -> ButtonSet {
        ButtonSet {
            up: button == Button::Up,
            down: button == Button::Down,
            left: button == Button::Left,
            right: button == Button::Right,
            select: button == Button::Select,
        }
    }

    /// The members in the order Up, Down, Left, Right, Select.
    pub open spec fn listing(self) -> Seq<Button> {
        (if self.up {
            seq![Button::Up]
        } else {
            seq![]
        }) + (if self.down {
            seq![Button::Down]
        } else {
            seq![]
        }) + (if self.left {
            seq![Button::Left]
        } else {
            seq![]
        }) + (if self.right {
            seq![Button::Right]
        } else {
            seq![]
        }) + (if self.select {
            seq![Button::Select]
        } else {
            seq![]
        })
    }

    pub fn empty() -> (set: ButtonSet)
        ensures
            set == ButtonSet::none(),
    {
        ButtonSet { up: false, down: false, left: false, right: false, select: false }
    }

    pub fn contains(&self, button: Button) -> (found: bool)
        ensures
            found == self.has(button),
    {
        match button {
            Button::Neutral => false,
            Button::Up => self.up,
            Button::Down => self.down,
            Button::Left => self.left,
            Button::Right => self.right,
            Button::Select => self.select,
        }
    }

    /// The members as a list, in the order Up, Down, Left, Right, Select.
    pub fn to_vec(&self) -> (list: Vec<Button>)
        ensures
            list@ == self.listing(),
    {
        let mut list: Vec<Button> = Vec::new();
        if self.up {
            list.push(Button::Up);
        }
        if self.down {
            list.push(Button::Down);
        }
        if self.left {
            list.push(Button::Left);
        }
        if self.right {
            list.push(Button::Right);
        }
        if self.select {
            list.push(Button::Select);
        }
        assert(list@ =~= self.listing());
        list
    }
}

/// A list made from a set holds each button of the set once and nothing
/// else, `Neutral` never.
pub proof fn lemma_listing_members(set: ButtonSet, button: Button)
    ensures
        set.listing().contains(button) <==> set.has(button),
        set.listing().no_duplicates(),
        set.listing().len() <= 5,
{
    let list = set.listing();
    let up: Seq<Button> = if set.up { seq![Button::Up] } else { seq![] };
    let down: Seq<Button> = if set.down { seq![Button::Down] } else { seq![] };
    let left: Seq<Button> = if set.left { seq![Button::Left] } else { seq![] };
    let right: Seq<Button> = if set.right { seq![Button::Right] } else { seq![] };
    let select: Seq<Button> = if set.select { seq![Button::Select] } else { seq![] };
    assert(list == up + down + left + right + select);
    assert forall|i: int| 0 <= i < list.len() implies set.has(#[trigger] list[i]) && (list[i]
        == Button::Up <==> i < up.len()) && (list[i] == Button::Down <==> up.len() <= i < up.len()
        + down.len()) && (list[i] == Button::Left <==> up.len() + down.len() <= i < up.len()
        + down.len() + left.len()) && (list[i] == Button::Right <==> up.len() + down.len()
        + left.len() <= i < up.len() + down.len() + left.len() + right.len()) by {}
    if set.has(button) {
        let at: int = match button {
            Button::Up => 0,
            Button::Down => up.len() as int,
            Button::Left => (up.len() + down.len()) as int,
            Button::Right => (up.len() + down.len() + left.len()) as int,
            _ => (up.len() + down.len() + left.len() + right.len()) as int,
        };
        assert(list[at] == button);
    }
}

/// Bus address of the joystick board.
pub const JOY_I2C_ADDR: u16 = 0x49;

/// Milliseconds the board needs after each transaction.
pub const DELAY_MS: u64 = 10;

/// Where the driver stands in its protocol: the stage names the transaction
/// that is due next.
#[derive(Clone, Copy, Debug, PartialEq, Eq, Structural)]
pub enum Stage {
    /// The reset command is to be written; it is written again until the
    /// board acknowledges it.
    Reset,
    /// The request for the hardware id is to be written.
    Identify,
    /// The hardware id, one byte, is to be read.
    IdentifyReply,
    /// The button pins are to be made inputs.
    ClearDirection,
    /// The pull resistors of the button pins are to be enabled.
    EnablePull,
    /// The button pins are to be set high, which makes the pulls pull up.
    PullHigh,
    /// The request for the GPIO register is to be written.
    Request,
    /// The GPIO register, four bytes, is to be read.
    Reply,
    /// Startup failed for the reason given; no transaction is due.
    Halted(InputError),
}

/// A register write that carries a pin mask: bank, function, then the mask
/// with its most significant byte first.
pub open spec fn frame(base: u8, function: u8, word: u32) -> Seq<u8> {
    seq![
        base,
        function,
        byte_of(word, 0),
        byte_of(word, 1),
        byte_of(word, 2),
        byte_of(word, 3),
    ]
}

/// The write that resets the board's registers.
pub open spec fn reset_command() -> TransactionView {
    write_to(
        JOY_I2C_ADDR,
        seq![BaseRegister::Status.wire(), StatusFunctionRegister::SwRst.wire(), 0xffu8],
        DELAY_MS,
    )
}

/// The write that asks for the hardware id.
pub open spec fn identify_command() -> TransactionView {
    write_to(
        JOY_I2C_ADDR,
        seq![BaseRegister::Status.wire(), StatusFunctionRegister::HwId.wire()],
        DELAY_MS,
    )
}

/// The write that asks for the GPIO register.
pub open spec fn gpio_command() -> TransactionView {
    write_to(
        JOY_I2C_ADDR,
        seq![BaseRegister::Gpio.wire(), GpioFunctionRegister::Gpio.wire()],
        DELAY_MS,
    )
}

/// The write that applies GPIO function `function` to the button pins.
pub open spec fn pin_command(pins: PinAssignment, function: GpioFunctionRegister)
    -> TransactionView {
    write_to(JOY_I2C_ADDR, frame(BaseRegister::Gpio.wire(), function.wire(), pins.mask()), DELAY_MS)
}

/// The chip named by the reply to the hardware-id read, or `HwNotFound`
/// unless the reply is a single byte that names a known chip.
pub open spec fn identified(reply: BusReplyView) -> Result<HardwareID, InputError> {
    match reply {
        BusReplyView::Data(bytes) => if bytes.len() == 1 && HardwareID::of(bytes[0]) is Some {
            Ok(HardwareID::of(bytes[0])->0)
        } else {
            Err(InputError::HwNotFound)
        },
        _ => Err(InputError::HwNotFound),
    }
}

/// The driver as a plain value.
pub struct JoyView {
    pub stage: Stage,
    pub pins: PinAssignment,
}

impl JoyView {
    /// The transaction that is due, if any.
    pub open spec fn request(self) -> Option<TransactionView> {
        match self.stage {
            Stage::Reset => Some(reset_command()),
            Stage::Identify => Some(identify_command()),
            Stage::IdentifyReply => Some(read_from(JOY_I2C_ADDR, 1, DELAY_MS)),
            Stage::ClearDirection => Some(pin_command(self.pins, GpioFunctionRegister::DirClr)),
            Stage::EnablePull => Some(pin_command(self.pins, GpioFunctionRegister::PullEnSet)),
            Stage::PullHigh => Some(pin_command(self.pins, GpioFunctionRegister::BulkSet)),
            Stage::Request => Some(gpio_command()),
            Stage::Reply => Some(read_from(JOY_I2C_ADDR, 4, DELAY_MS)),
            Stage::Halted(_) => None,
        }
    }

    /// The buttons read by the transaction that `reply` answers: some set
    /// only where the GPIO register was due and exactly four bytes came.
    pub open spec fn seen(self, reply: BusReplyView) -> Option<ButtonSet> {
        match reply {
            BusReplyView::Data(bytes) => if self.stage == Stage::Reply && bytes.len() == 4 {
                Some(self.pins.decode(words_of(bytes)[0]))
            } else {
                None
            },
            _ => None,
        }
    }

    /// The stage that follows when the due transaction is answered by
    /// `reply`.
    ///
    /// The reset command is repeated until it is acknowledged. Any other
    /// failure during startup halts the driver: `HwNotFound` while the chip
    /// is identified, `WriteErr` while the pins are configured. A failure
    /// while polling starts the whole startup over.
    pub open spec fn after(self, reply: BusReplyView) -> Stage {
        match self.stage {
            Stage::Reset => if reply is Written {
                Stage::Identify
            } else {
                Stage::Reset
            },
            Stage::Identify => if reply is Written {
                Stage::IdentifyReply
            } else {
                Stage::Halted(InputError::HwNotFound)
            },
            Stage::IdentifyReply => if identified(reply) is Ok {
                Stage::ClearDirection
            } else {
                Stage::Halted(InputError::HwNotFound)
            },
            Stage::ClearDirection => if reply is Written {
                Stage::EnablePull
            } else {
                Stage::Halted(InputError::WriteErr)
            },
            Stage::EnablePull => if reply is Written {
                Stage::PullHigh
            } else {
                Stage::Halted(InputError::WriteErr)
            },
            Stage::PullHigh => if reply is Written {
                Stage::Request
            } else {
                Stage::Halted(InputError::WriteErr)
            },
            Stage::Request => if reply is Written {
                Stage::Reply
            } else {
                Stage::Reset
            },
            Stage::Reply => if self.seen(reply) is Some {
                Stage::Request
            } else {
                Stage::Reset
            },
            Stage::Halted(e) => Stage::Halted(e),
        }
    }

    /// The driver after the transactions that `replies` answer, one after
    /// the other.
    pub open spec fn run(self, replies: Seq<BusReplyView>) -> JoyView
        decreases replies.len(),
    {
        if replies.len() == 0 {
            self
        } else {
            let before = self.run(replies.drop_last());
            JoyView { stage: before.after(replies.last()), pins: before.pins }
        }
    }
}

/// How many transactions the startup has behind it at `stage`, at least.
pub open spec fn progress(stage: Stage) -> nat {
    match stage {
        Stage::Reset => 0,
        Stage::Identify => 1,
        Stage::IdentifyReply => 2,
        Stage::ClearDirection => 3,
        Stage::EnablePull => 4,
        Stage::PullHigh => 5,
        Stage::Request => 6,
        Stage::Reply => 7,
        Stage::Halted(_) => 0,
    }
}

/// Driver of the joystick board.
///
/// The driver performs no transaction itself. It says which one is due
/// (`request`), and is told how that one ended (`measure_joy_buttons`).
#[derive(Clone, Copy, Debug)]
pub struct JoyFeatherwing {
    stage: Stage,
    pins: PinMap,
}

impl View for JoyFeatherwing {
    type V = JoyView;

    closed spec fn view(&self) -> JoyView {
        JoyView { stage: self.stage, pins: self.pins@ }
    }
}

/// Whether `reply` acknowledges a write.
fn acknowledged(reply: &BusReply) -> (yes: bool)
    ensures
        yes == (reply@ is Written),
{
    match reply {
        BusReply::Written => true,
        _ => false,
    }
}

/// A write of `function` of bank `base`, with nothing after the two bytes.
fn command(base: BaseRegister, function: u8) -> (due: Transaction)
    ensures
        due@ == write_to(JOY_I2C_ADDR, seq![base.wire(), function], DELAY_MS),
{
    let mut bytes: Vec<u8> = Vec::new();
    bytes.push(base.code());
    bytes.push(function);
    assert(bytes@ =~= seq![base.wire(), function]);
    Transaction { address: JOY_I2C_ADDR, transfer: Transfer::Write(bytes), settle_ms: DELAY_MS }
}

/// A read of `count` bytes from the board.
fn read(count: usize) -> (due: Transaction)
    ensures
        due@ == read_from(JOY_I2C_ADDR, count as nat, DELAY_MS),
{
    Transaction { address: JOY_I2C_ADDR, transfer: Transfer::Read(count), settle_ms: DELAY_MS }
}

impl JoyFeatherwing {
    /// A driver for a board wired as `pins` says, at the start of its
    /// startup sequence.
    pub fn new(pins: PinMap) -> (driver: JoyFeatherwing)
        ensures
            driver@ == (JoyView { stage: Stage::Reset, pins: pins@ }),
    {
        JoyFeatherwing { stage: Stage::Reset, pins }
    }

    /// Starts the startup sequence, from the reset command, wherever the
    /// driver stood.
    pub fn init(&mut self)
        ensures
            final(self)@ == (JoyView { stage: Stage::Reset, pins: old(self)@.pins }),
    {
        self.stage = Stage::Reset;
    }

    pub fn stage(&self) -> (stage: Stage)
        ensures
            stage == self@.stage,
    {
        self.stage
    }

    pub fn pins(&self) -> (pins: PinMap)
        ensures
            pins@ == self@.pins,
    {
        self.pins
    }

    /// The write that resets the board's registers.
    pub fn software_reset() -> (due: Transaction)
        ensures
            due@ == reset_command(),
    {
        let mut bytes: Vec<u8> = Vec::new();
        bytes.push(BaseRegister::Status.code());
        bytes.push(StatusFunctionRegister::SwRst.code());
        bytes.push(0xff);
        assert(bytes@ =~= seq![
            BaseRegister::Status.wire(),
            StatusFunctionRegister::SwRst.wire(),
            0xffu8,
        ]);
        Transaction { address: JOY_I2C_ADDR, transfer: Transfer::Write(bytes), settle_ms: DELAY_MS }
    }

    /// Reads the chip out of the reply to the hardware-id read.
    pub fn hardware_id(reply: &BusReply) -> (chip: Result<HardwareID, InputError>)
        ensures
            chip == identified(reply@),
    {
        match reply {
            BusReply::Data(bytes) => {
                if bytes.len() == 1 {
                    match HardwareID::from_code(bytes[0]) {
                        Some(chip) => Ok(chip),
                        None => Err(InputError::HwNotFound),
                    }
                } else {
                    Err(InputError::HwNotFound)
                }
            },
            _ => Err(InputError::HwNotFound),
        }
    }

    /// The write that applies `function` to the button pins.
    fn pin_write(&self, function: GpioFunctionRegister) -> (due: Transaction)
        ensures
            due@ == pin_command(self@.pins, function),
    {
        let mask = encode_word(self.pins.mask());
        let mut bytes: Vec<u8> = Vec::new();
        bytes.push(BaseRegister::Gpio.code());
        bytes.push(function.code());
        bytes.push(mask[0]);
        bytes.push(mask[1]);
        bytes.push(mask[2]);
        bytes.push(mask[3]);
        assert(bytes@ =~= frame(BaseRegister::Gpio.wire(), function.wire(), self@.pins.mask()));
        Transaction { address: JOY_I2C_ADDR, transfer: Transfer::Write(bytes), settle_ms: DELAY_MS }
    }

    /// The three writes that make the button pins pulled-up inputs, in the
    /// order in which the board needs them: direction, pull enable, level.
    pub fn pullup_pins(&self) -> (script: Vec<Transaction>)
        ensures
            script@.len() == 3,
            script@[0]@ == pin_command(self@.pins, GpioFunctionRegister::DirClr),
            script@[1]@ == pin_command(self@.pins, GpioFunctionRegister::PullEnSet),
            script@[2]@ == pin_command(self@.pins, GpioFunctionRegister::BulkSet),
    {
        let mut script: Vec<Transaction> = Vec::new();
        script.push(self.pin_write(GpioFunctionRegister::DirClr));
        script.push(self.pin_write(GpioFunctionRegister::PullEnSet));
        script.push(self.pin_write(GpioFunctionRegister::BulkSet));
        script
    }

    /// The write that lets the button pins raise interrupts. It is no part
    /// of the startup sequence.
    pub fn set_gpio_interrupts(&self) -> (due: Transaction)
        ensures
            due@ == pin_command(self@.pins, GpioFunctionRegister::IntEnSet),
    {
        self.pin_write(GpioFunctionRegister::IntEnSet)
    }

    /// The transaction that is due: `None` once startup has failed.
    pub fn request(&self) -> (due: Option<Transaction>)
        ensures
            due is Some <==> self@.request() is Some,
            due matches Some(t) ==> Some(t@) == self@.request(),
    {
        match self.stage {
            Stage::Reset => Some(JoyFeatherwing::software_reset()),
            Stage::Identify => Some(
                command(BaseRegister::Status, StatusFunctionRegister::HwId.code()),
            ),
            Stage::IdentifyReply => Some(read(1)),
            Stage::ClearDirection => Some(self.pin_write(GpioFunctionRegister::DirClr)),
            Stage::EnablePull => Some(self.pin_write(GpioFunctionRegister::PullEnSet)),
            Stage::PullHigh => Some(self.pin_write(GpioFunctionRegister::BulkSet)),
            Stage::Request => Some(command(BaseRegister::Gpio, GpioFunctionRegister::Gpio.code())),
            Stage::Reply => Some(read(4)),
            Stage::Halted(_) => None,
        }
    }

    /// Why startup failed, if it did.
    pub fn fault(&self) -> (why: Option<InputError>)
        ensures
            why == (match self@.stage {
                Stage::Halted(e) => Some(e),
                _ => None,
            }),
    {
        match self.stage {
            Stage::Halted(e) => Some(e),
            _ => None,
        }
    }

    /// One turn of the poll loop: takes the reply to the transaction that
    /// was due and moves on.
    ///
    /// Where the reply completes a poll, the buttons it shows are published
    /// to `shared` and returned. In every other case `shared` is left as
    /// it is and the empty set is returned; a failed poll is never an
    /// error, the driver starts over with its startup sequence instead.
    pub fn measure_joy_buttons(&mut self, reply: &BusReply, shared: &mut SharedSensorState) -> (seen:
        ButtonSet)
        ensures
            final(self)@.pins == old(self)@.pins,
            final(self)@.stage == old(self)@.after(reply@),
            final(shared).brightness == old(shared).brightness,
            match old(self)@.seen(reply@) {
                Some(set) => seen == set && final(shared).buttons == set,
                None => seen == ButtonSet::none() && final(shared).buttons == old(shared).buttons,
            },
    {
        match self.stage {
            Stage::Reset => {
                if acknowledged(reply) {
                    self.stage = Stage::Identify;
                }
            },
            Stage::Identify => {
                self.stage = if acknowledged(reply) {
                    Stage::IdentifyReply
                } else {
                    Stage::Halted(InputError::HwNotFound)
                };
            },
            Stage::IdentifyReply => {
                self.stage = match JoyFeatherwing::hardware_id(reply) {
                    Ok(_) => Stage::ClearDirection,
                    Err(e) => Stage::Halted(e),
                };
            },
            Stage::ClearDirection => {
                self.stage = if acknowledged(reply) {
                    Stage::EnablePull
                } else {
                    Stage::Halted(InputError::WriteErr)
                };
            },
            Stage::EnablePull => {
                self.stage = if acknowledged(reply) {
                    Stage::PullHigh
                } else {
                    Stage::Halted(InputError::WriteErr)
                };
            },
            Stage::PullHigh => {
                self.stage = if acknowledged(reply) {
                    Stage::Request
                } else {
                    Stage::Halted(InputError::WriteErr)
                };
            },
            Stage::Request => {
                if acknowledged(reply) {
                    self.stage = Stage::Reply;
                } else {
                    self.init();
                }
            },
            Stage::Reply => {
                if let BusReply::Data(bytes) = reply {
                    if bytes.len() == 4 {
                        let words = u8s_to_u32(bytes.as_slice());
                        let set = self.pins.decode(words[0]);
                        shared.publish_buttons(set);
                        self.stage = Stage::Request;
                        return set;
                    }
                }
                self.init();
            },
            Stage::Halted(_) => {},
        }
        ButtonSet::empty()
    }

    /// The buttons that were published last, in the order Up, Down, Left,
    /// Right, Select.
    pub fn get_joy_buttons(shared: &SharedSensorState) -> (buttons: Vec<Button>)
        ensures
            buttons@ == shared.buttons.listing(),
    {
        shared.get_buttons().to_vec()
    }
}

/// Each stage of the startup is entered from the stage before it and from
/// no other, and polling is entered only from the last one: no reply makes
/// the driver skip a step.
pub proof fn lemma_startup_in_order(driver: JoyView, reply: BusReplyView)
    ensures
        driver.after(reply) == Stage::Identify ==> driver.stage == Stage::Reset,
        driver.after(reply) == Stage::IdentifyReply ==> driver.stage == Stage::Identify,
        driver.after(reply) == Stage::ClearDirection ==> driver.stage == Stage::IdentifyReply,
        driver.after(reply) == Stage::EnablePull ==> driver.stage == Stage::ClearDirection,
        driver.after(reply) == Stage::PullHigh ==> driver.stage == Stage::EnablePull,
        driver.after(reply) == Stage::Request ==> driver.stage == Stage::PullHigh || driver.stage
            == Stage::Reply,
        driver.after(reply) == Stage::Reply ==> driver.stage == Stage::Request,
{
}

/// A poll that does not end with exactly four bytes from the GPIO register
/// shows no buttons and sends the driver back to the reset command.
pub proof fn lemma_failed_poll_starts_over(driver: JoyView, reply: BusReplyView)
    requires
        driver.stage == Stage::Request || driver.stage == Stage::Reply,
    ensures
        driver.stage == Stage::Request ==> driver.seen(reply) is None,
        driver.stage == Stage::Request && !(reply is Written) ==> driver.after(reply)
            == Stage::Reset,
        driver.stage == Stage::Reply && !(reply matches BusReplyView::Data(bytes) && bytes.len()
            == 4) ==> driver.seen(reply) is None && driver.after(reply) == Stage::Reset,
{
}

/// No button is read before the startup is through. A driver that stands
/// at the reset command, at first or after a failed poll, reads none in
/// its next seven transactions, whatever the replies: the seven are the
/// reset, the two of the identification, the three pin commands and the
/// request for the GPIO register.
pub proof fn lemma_no_poll_before_startup(
    driver: JoyView,
    replies: Seq<BusReplyView>,
    reply: BusReplyView,
)
    requires
        driver.stage == Stage::Reset,
    ensures
        progress(driver.run(replies).stage) <= replies.len(),
        driver.run(replies).pins == driver.pins,
        replies.len() < 7 ==> driver.run(replies).seen(reply) is None,
    decreases replies.len(),
{
    if replies.len() > 0 {
        lemma_no_poll_before_startup(driver, replies.drop_last(), replies.last());
    }
}

} // verus!
