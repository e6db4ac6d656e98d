//! The register protocol of the regulator: which register each command
//! lives at, how a channel is paged in, and what goes on the bus for each
//! operation.
//!
//! Nothing here touches the bus. Every operation is described as a
//! `Transfer`, which the caller performs; what came back is handed to the
//! matching decoder. A bus error therefore never reaches this module: the
//! caller passes the reply buffer as the bus left it, zeros if nothing
//! arrived.

use vstd::prelude::*;
use vstd::slice::slice_to_vec;
use crate::codec::{to_bytes, to_u16, word_of};
use crate::linear11;
use crate::linear16;

verus! {

/// The commands of the regulator that the panel knows.
#[derive(Clone, Copy, Debug, PartialEq, Eq, Structural)]
pub enum Command {
    Page,
    Operation,
    OnOffConfig,
    ClearFaults,
    VOUTCommand,
    VOUTMax,
    VOUTDroop,
    VOUTMin,
    FrequencySwitch,
    IoutOCFaultLimit,
    StatusByte,
    ReadIout,
    ReadVout,
    ReadTemperature1,
    StatusAll,
    StatusExtended,
}

impl Command {
    /// The register that a command lives at.
    pub open spec fn address(self) -> u8 {
        match self {
            Command::Page => 0x00,
            Command::Operation => 0x01,
            Command::OnOffConfig => 0x02,
            Command::ClearFaults => 0x03,
            Command::VOUTCommand => 0x21,
            Command::VOUTMax => 0x24,
            Command::VOUTDroop => 0x28,
            Command::VOUTMin => 0x2B,
            Command::FrequencySwitch => 0x33,
            Command::IoutOCFaultLimit => 0x46,
            Command::StatusByte => 0x78,
            Command::ReadVout => 0x8B,
            Command::ReadIout => 0x8C,
            Command::ReadTemperature1 => 0x8D,
            Command::StatusAll => 0xDB,
            Command::StatusExtended => 0xDD,
        }
    }

    /// The register that a command lives at.
    pub fn to_address(self) -> (address: u8)
        ensures
            address == self.address(),
    {
        match self {
            Command::Page => 0x00,
            Command::Operation => 0x01,
            Command::OnOffConfig => 0x02,
            Command::ClearFaults => 0x03,
            Command::VOUTCommand => 0x21,
            Command::VOUTMax => 0x24,
            Command::VOUTDroop => 0x28,
            Command::VOUTMin => 0x2B,
            Command::FrequencySwitch => 0x33,
            Command::IoutOCFaultLimit => 0x46,
            Command::StatusByte => 0x78,
            Command::ReadVout => 0x8B,
            Command::ReadIout => 0x8C,
            Command::ReadTemperature1 => 0x8D,
            Command::StatusAll => 0xDB,
            Command::StatusExtended => 0xDD,
        }
    }

    /// No two commands share a register.
    pub proof fn lemma_addresses_differ(a: Command, b: Command)
        requires
            a.address() == b.address(),
        ensures
            a == b,
    {
    }
}

/// Which channel the next per-channel access reaches.
#[derive(Clone, Copy, Debug, PartialEq, Eq, Structural)]
pub enum Page {
    ChannelA,
    ChannelB,
    Both,
}

impl Page {
    /// The value of the page register that selects this page.
    pub open spec fn bits(self) -> u8 {
        match self {
            Page::ChannelA => 0x00,
            Page::ChannelB => 0x01,
            Page::Both => 0xFF,
        }
    }

    /// The value of the page register that selects this page.
    pub fn to_bits(self) -> (bits: u8)
        ensures
            bits == self.bits(),
    {
        match self {
            Page::ChannelA => 0x00,
            Page::ChannelB => 0x01,
            Page::Both => 0xFF,
        }
    }

    /// The page of a channel selector: 0 is the first channel, 1 the second.
    pub open spec fn of_channel_spec(selector: int) -> Option<Page> {
        if selector == 0 {
            Some(Page::ChannelA)
        } else if selector == 1 {
            Some(Page::ChannelB)
        } else {
            None
        }
    }

    /// The page of a channel selector, if it names a channel.
    pub fn of_channel(selector: i32) -> (page: Option<Page>)
        ensures
            page == Page::of_channel_spec(selector as int),
    {
        if selector == 0 {
            Some(Page::ChannelA)
        } else if selector == 1 {
            Some(Page::ChannelB)
        } else {
            None
        }
    }
}

/// One operation on the bus, as the caller is to perform it.
#[derive(Clone, Debug, PartialEq, Eq)]
pub enum Transfer {
    /// Send `payload` to the device at `address`.
    Write { address: u8, payload: Vec<u8> },
    /// Send the one byte `command` to the device at `address` and, in the
    /// same bus operation, read `length` bytes back.
    WriteRead { address: u8, command: u8, length: usize },
}

/// A `Transfer` as a mathematical value.
pub enum TransferView {
    Write { address: u8, payload: Seq<u8> },
    WriteRead { address: u8, command: u8, length: nat },
}

impl View for Transfer {
    type V = TransferView;

    open spec fn view(&self) -> TransferView {
        match *self {
            Transfer::Write { address, payload } => TransferView::Write {
                address,
                payload: payload@,
            },
            Transfer::WriteRead { address, command, length } => TransferView::WriteRead {
                address,
                command,
                length: length as nat,
            },
        }
    }
}

/// The write that pages a channel in.
pub open spec fn page_select(address: u8, page: Page) -> TransferView {
    TransferView::Write { address, payload: seq![Command::Page.address(), page.bits()] }
}

/// The write that sets a 16-bit register: the register first, then the word,
/// low byte first.
pub open spec fn word_write(address: u8, register: u8, word: int) -> TransferView {
    TransferView::Write {
        address,
        payload: seq![register, (word % 256) as u8, (word / 256) as u8],
    }
}

/// The read of `length` bytes from a register.
pub open spec fn register_read(address: u8, register: u8, length: nat) -> TransferView {
    TransferView::WriteRead { address, command: register, length }
}

/// Whether every access in a list of bus operations reaches the channel of
/// `page`: whatever in the list is not itself the select of that page comes
/// directly behind one.
pub open spec fn paged_for(plan: Seq<TransferView>, address: u8, page: Page) -> bool {
    forall|i: int|
        0 <= i < plan.len() && #[trigger] plan[i] != page_select(address, page) ==> i > 0 && plan[i
            - 1] == page_select(address, page)
}

/// The wire format of a numeric register.
#[derive(Clone, Copy, Debug, PartialEq, Eq, Structural)]
pub enum Format {
    /// Unsigned, fixed scale: voltages.
    Linear16,
    /// Signed, with its own exponent: currents and temperatures.
    Linear11,
}

impl Format {
    /// What a word stands for in this format, in thousandths.
    pub open spec fn decode_spec(self, word: int) -> int {
        match self {
            Format::Linear16 => linear16::decode_spec(word),
            Format::Linear11 => linear11::decode_spec(word),
        }
    }

    /// The word that carries a quantity in this format.
    pub open spec fn encode_spec(self, milli: int) -> int {
        match self {
            Format::Linear16 => linear16::encode_spec(milli),
            Format::Linear11 => linear11::encode_spec(milli),
        }
    }

    /// Decodes the two bytes of a reply, low byte first. Every reply has a
    /// value: the zeros of a failed read stand for zero.
    pub fn decode(self, reply: [u8; 2]) -> (milli: i64)
        ensures
            milli as int == self.decode_spec(word_of(reply[0], reply[1])),
    {
        let word: u16 = to_u16(reply);
        match self {
            Format::Linear16 => linear16::decode(word),
            Format::Linear11 => linear11::decode(word),
        }
    }

    /// Encodes a quantity as the word to send.
    pub fn encode(self, milli: i64) -> (word: u16)
        ensures
            word as int == self.encode_spec(milli as int),
    {
        match self {
            Format::Linear16 => linear16::encode(milli),
            Format::Linear11 => linear11::encode(milli),
        }
    }
}

/// A measured quantity of whichever channel is paged in: a numeric register
/// that can only be read.
#[derive(Clone, Copy, Debug, PartialEq, Eq, Structural)]
pub struct Reading {
    /// The bus address of the device.
    pub address: u8,
    /// The register of the quantity.
    pub register: u8,
    /// How the register's word is to be read.
    pub format: Format,
}

impl Reading {
    /// The bus operation that reads the quantity.
    pub fn read(&self) -> (transfer: Transfer)
        ensures
            transfer@ == register_read(self.address, self.register, 2),
    {
        Transfer::WriteRead { address: self.address, command: self.register, length: 2 }
    }

    /// The value that a reply to `read` stands for, in thousandths.
    pub fn value(&self, reply: [u8; 2]) -> (milli: i64)
        ensures
            milli as int == self.format.decode_spec(word_of(reply[0], reply[1])),
    {
        self.format.decode(reply)
    }
}

/// A setting of whichever channel is paged in: a numeric register that can
/// be read and written.
#[derive(Clone, Copy, Debug, PartialEq, Eq, Structural)]
pub struct Parameter {
    /// The bus address of the device.
    pub address: u8,
    /// The register of the parameter.
    pub register: u8,
    /// How the register's word is to be read.
    pub format: Format,
}

impl Parameter {
    /// The bus operation that reads the parameter.
    pub fn read(&self) -> (transfer: Transfer)
        ensures
            transfer@ == register_read(self.address, self.register, 2),
    {
        Transfer::WriteRead { address: self.address, command: self.register, length: 2 }
    }

    /// The value that a reply to `read` stands for, in thousandths.
    pub fn value(&self, reply: [u8; 2]) -> (milli: i64)
        ensures
            milli as int == self.format.decode_spec(word_of(reply[0], reply[1])),
    {
        self.format.decode(reply)
    }

    /// The bus operation that sets the parameter to a quantity given in
    /// thousandths: the register, then the encoded word, low byte first.
    pub fn write(&self, val: i64) -> (transfer: Transfer)
        ensures
            transfer@ == word_write(
                self.address,
                self.register,
                self.format.encode_spec(val as int),
            ),
    {
        let bytes: [u8; 2] = to_bytes(self.format.encode(val));
        let mut payload: Vec<u8> = Vec::new();
        payload.push(self.register);
        payload.push(bytes[0]);
        payload.push(bytes[1]);
        assert(payload@ =~= seq![self.register, bytes[0], bytes[1]]);
        Transfer::Write { address: self.address, payload }
    }
}

/// The regulator, as the device at one bus address.
#[derive(Clone, Copy, Debug, PartialEq, Eq, Structural)]
pub struct TPSC536C7 {
    address: u8,
}

impl TPSC536C7 {
    /// The bus address of the device.
    pub closed spec fn address_spec(&self) -> u8 {
        self.address
    }

    /// The regulator at a 7-bit bus address.
    pub fn new(address: u8) -> (controller: TPSC536C7)
        ensures
            controller.address_spec() == address,
    {
        TPSC536C7 { address }
    }

    /// The bus address of the device.
    pub fn address(&self) -> (address: u8)
        ensures
            address == self.address_spec(),
    {
        self.address
    }

    /// A raw write: the bytes go to the device as they are.
    pub fn command(&self, data: &[u8]) -> (transfer: Transfer)
        ensures
            transfer@ == (TransferView::Write { address: self.address_spec(), payload: data@ }),
    {
        Transfer::Write { address: self.address, payload: slice_to_vec(data) }
    }

    /// A raw read of `length` bytes from the register `cmd`.
    pub fn read(&self, cmd: u8, length: usize) -> (transfer: Transfer)
        ensures
            transfer@ == register_read(self.address_spec(), cmd, length as nat),
    {
        Transfer::WriteRead { address: self.address, command: cmd, length }
    }

    /// Sets the on/off configuration of the paged channel.
    pub fn on_off_config(&self, val: u8) -> (transfer: Transfer)
        ensures
            transfer@ == (TransferView::Write {
                address: self.address_spec(),
                payload: seq![Command::OnOffConfig.address(), val],
            }),
    {
        let mut payload: Vec<u8> = Vec::new();
        payload.push(Command::OnOffConfig.to_address());
        payload.push(val);
        assert(payload@ =~= seq![Command::OnOffConfig.address(), val]);
        Transfer::Write { address: self.address, payload }
    }

    /// Pages a channel in.
    pub fn page(&self, ch: Page) -> (transfer: Transfer)
        ensures
            transfer@ == page_select(self.address_spec(), ch),
    {
        let mut payload: Vec<u8> = Vec::new();
        payload.push(Command::Page.to_address());
        payload.push(ch.to_bits());
        assert(payload@ =~= seq![Command::Page.address(), ch.bits()]);
        Transfer::Write { address: self.address, payload }
    }

    /// Pages the first channel in.
    pub fn ch_a(&self) -> (transfer: Transfer)
        ensures
            transfer@ == page_select(self.address_spec(), Page::ChannelA),
    {
        self.page(Page::ChannelA)
    }

    /// Pages the second channel in.
    pub fn ch_b(&self) -> (transfer: Transfer)
        ensures
            transfer@ == page_select(self.address_spec(), Page::ChannelB),
    {
        self.page(Page::ChannelB)
    }

    /// Pages both channels in.
    pub fn ch_ab(&self) -> (transfer: Transfer)
        ensures
            transfer@ == page_select(self.address_spec(), Page::Both),
    {
        self.page(Page::Both)
    }

    /// Clears the latched faults.
    pub fn clear_faults(&self) -> (transfer: Transfer)
        ensures
            transfer@ == (TransferView::Write {
                address: self.address_spec(),
                payload: seq![Command::ClearFaults.address()],
            }),
    {
        let mut payload: Vec<u8> = Vec::new();
        payload.push(Command::ClearFaults.to_address());
        assert(payload@ =~= seq![Command::ClearFaults.address()]);
        Transfer::Write { address: self.address, payload }
    }

    /// Reads the one status byte.
    pub fn status_byte(&self) -> (transfer: Transfer)
        ensures
            transfer@ == register_read(self.address_spec(), Command::StatusByte.address(), 1),
    {
        self.read(Command::StatusByte.to_address(), 1)
    }

    /// Reads the page register back.
    pub fn read_page(&self) -> (transfer: Transfer)
        ensures
            transfer@ == register_read(self.address_spec(), Command::Page.address(), 1),
    {
        self.read(Command::Page.to_address(), 1)
    }

    /// Reads the seven bytes of extended status.
    pub fn read_status_extended(&self) -> (transfer: Transfer)
        ensures
            transfer@ == register_read(self.address_spec(), Command::StatusExtended.address(), 7),
    {
        self.read(Command::StatusExtended.to_address(), 7)
    }

    /// Reads the eighteen bytes of the whole status block.
    pub fn read_status_all(&self) -> (transfer: Transfer)
        ensures
            transfer@ == register_read(self.address_spec(), Command::StatusAll.address(), 18),
    {
        self.read(Command::StatusAll.to_address(), 18)
    }

    /// The voltage setpoint of the paged channel.
    pub fn vout_command(&self) -> (parameter: Parameter)
        ensures
            parameter == (Parameter {
                address: self.address_spec(),
                register: Command::VOUTCommand.address(),
                format: Format::Linear16,
            }),
    {
        Parameter {
            address: self.address,
            register: Command::VOUTCommand.to_address(),
            format: Format::Linear16,
        }
    }

    /// The upper voltage bound of the paged channel.
    pub fn vout_max(&self) -> (parameter: Parameter)
        ensures
            parameter == (Parameter {
                address: self.address_spec(),
                register: Command::VOUTMax.address(),
                format: Format::Linear16,
            }),
    {
        Parameter {
            address: self.address,
            register: Command::VOUTMax.to_address(),
            format: Format::Linear16,
        }
    }

    /// The lower voltage bound of the paged channel.
    pub fn vout_min(&self) -> (parameter: Parameter)
        ensures
            parameter == (Parameter {
                address: self.address_spec(),
                register: Command::VOUTMin.address(),
                format: Format::Linear16,
            }),
    {
        Parameter {
            address: self.address,
            register: Command::VOUTMin.to_address(),
            format: Format::Linear16,
        }
    }

    /// The over-current fault limit of the paged channel.
    pub fn iout_oc_fault_limit(&self) -> (parameter: Parameter)
        ensures
            parameter == (Parameter {
                address: self.address_spec(),
                register: Command::IoutOCFaultLimit.address(),
                format: Format::Linear11,
            }),
    {
        Parameter {
            address: self.address,
            register: Command::IoutOCFaultLimit.to_address(),
            format: Format::Linear11,
        }
    }

    /// The measured output voltage of the paged channel.
    pub fn read_vout(&self) -> (reading: Reading)
        ensures
            reading == (Reading {
                address: self.address_spec(),
                register: Command::ReadVout.address(),
                format: Format::Linear16,
            }),
    {
        Reading {
            address: self.address,
            register: Command::ReadVout.to_address(),
            format: Format::Linear16,
        }
    }

    /// The measured output current of the paged channel.
    pub fn read_iout(&self) -> (reading: Reading)
        ensures
            reading == (Reading {
                address: self.address_spec(),
                register: Command::ReadIout.address(),
                format: Format::Linear11,
            }),
    {
        Reading {
            address: self.address,
            register: Command::ReadIout.to_address(),
            format: Format::Linear11,
        }
    }

    /// The measured temperature of the paged channel.
    pub fn read_temperature_1(&self) -> (reading: Reading)
        ensures
            reading == (Reading {
                address: self.address_spec(),
                register: Command::ReadTemperature1.address(),
                format: Format::Linear11,
            }),
    {
        Reading {
            address: self.address,
            register: Command::ReadTemperature1.to_address(),
            format: Format::Linear11,
        }
    }
}

} // verus!
