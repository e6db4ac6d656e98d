//! The last known value of every parameter that the panel shows, per
//! channel. All quantities are in thousandths of their unit.

use vstd::prelude::*;
use crate::protocol::Format;
use crate::codec::word_of;

verus! {

/// Where a cell of the panel's grid sits: column, then row.
pub type Position = (i32, i32);

/// The row of the voltage cells.
pub const ROW_VOLTAGE: i32 = 0;

/// The row of the current cells.
pub const ROW_CURRENT: i32 = 1;

/// The row of the temperature cells, which cannot be edited.
pub const ROW_TEMPERATURE: i32 = 2;

/// How many registers one refresh of a channel reads.
pub const REFRESH_READS: usize = 5;

/// The last known values of one channel.
#[derive(Clone, Copy, Debug, PartialEq, Eq, Structural)]
pub struct Channel {
    /// The measured output voltage.
    pub voltage: i64,
    /// The commanded output voltage.
    pub voltage_setpoint: i64,
    /// The measured output current.
    pub current: i64,
    /// The commanded over-current limit.
    pub current_limit: i64,
    /// The measured temperature.
    pub temperature: i64,
}

impl Channel {
    /// A channel of which nothing is known yet.
    pub open spec fn zero() -> Channel {
        Channel { voltage: 0, voltage_setpoint: 0, current: 0, current_limit: 0, temperature: 0 }
    }

    pub fn get_voltage(&self) -> (val: i64)
        ensures
            val == self.voltage,
    {
        self.voltage
    }

    pub fn set_voltage(&mut self, val: i64)
        ensures
            *final(self) == (Channel { voltage: val, ..*old(self) }),
    {
        self.voltage = val;
    }

    pub fn get_voltage_setpoint(&self) -> (val: i64)
        ensures
            val == self.voltage_setpoint,
    {
        self.voltage_setpoint
    }

    pub fn set_voltage_setpoint(&mut self, val: i64)
        ensures
            *final(self) == (Channel { voltage_setpoint: val, ..*old(self) }),
    {
        self.voltage_setpoint = val;
    }

    pub fn get_current(&self) -> (val: i64)
        ensures
            val == self.current,
    {
        self.current
    }

    pub fn set_current(&mut self, val: i64)
        ensures
            *final(self) == (Channel { current: val, ..*old(self) }),
    {
        self.current = val;
    }

    pub fn get_current_limit(&self) -> (val: i64)
        ensures
            val == self.current_limit,
    {
        self.current_limit
    }

    pub fn set_current_limit(&mut self, val: i64)
        ensures
            *final(self) == (Channel { current_limit: val, ..*old(self) }),
    {
        self.current_limit = val;
    }

    pub fn get_temperature(&self) -> (val: i64)
        ensures
            val == self.temperature,
    {
        self.temperature
    }

    pub fn set_temperature(&mut self, val: i64)
        ensures
            *final(self) == (Channel { temperature: val, ..*old(self) }),
    {
        self.temperature = val;
    }

    /// The channel after its setting in a row of the grid was replaced:
    /// the voltage row holds the voltage setpoint, the current row the
    /// current limit, and no other row holds a setting.
    pub open spec fn with_setting(self, row: int, val: i64) -> Channel {
        if row == ROW_VOLTAGE {
            Channel { voltage_setpoint: val, ..self }
        } else if row == ROW_CURRENT {
            Channel { current_limit: val, ..self }
        } else {
            self
        }
    }

    /// What the channel holds for a row of the grid when that row is
    /// edited: its setting on the two upper rows, the temperature on the
    /// third, nothing elsewhere.
    pub open spec fn seed(self, row: int) -> i64 {
        if row == ROW_VOLTAGE {
            self.voltage_setpoint
        } else if row == ROW_CURRENT {
            self.current_limit
        } else if row == ROW_TEMPERATURE {
            self.temperature
        } else {
            0
        }
    }

    /// The channel after a refresh: each field is what its reply decodes
    /// to, the replies taken in the order voltage, temperature, current,
    /// voltage setpoint, current limit.
    pub open spec fn refreshed(replies: [[u8; 2]; 5]) -> Channel {
        Channel {
            voltage: Format::Linear16.decode_spec(word_of(replies[0][0], replies[0][1])) as i64,
            temperature: Format::Linear11.decode_spec(word_of(replies[1][0], replies[1][1])) as i64,
            current: Format::Linear11.decode_spec(word_of(replies[2][0], replies[2][1])) as i64,
            voltage_setpoint: Format::Linear16.decode_spec(
                word_of(replies[3][0], replies[3][1]),
            ) as i64,
            current_limit: Format::Linear11.decode_spec(
                word_of(replies[4][0], replies[4][1]),
            ) as i64,
        }
    }
}

impl Default for Channel {
    fn default() -> (channel: Channel)
        ensures
            channel == Channel::zero(),
    {
        Channel { voltage: 0, voltage_setpoint: 0, current: 0, current_limit: 0, temperature: 0 }
    }
}

/// The regulator as the panel knows it: its two channels.
#[derive(Clone, Copy, Debug, PartialEq, Eq, Structural)]
pub struct Device {
    /// The channel that feeds the core rail, column 0 of the grid.
    pub core: Channel,
    /// The channel that feeds the memory rail, column 1 of the grid.
    pub mem: Channel,
}

impl Default for Device {
    fn default() -> (device: Device)
        ensures
            device == Device::default_spec(),
    {
        Device { core: Channel::default(), mem: Channel::default() }
    }
}

impl Device {
    /// The device of which nothing is known yet.
    pub open spec fn default_spec() -> Device {
        Device { core: Channel::zero(), mem: Channel::zero() }
    }

    /// The device after `val` was committed at a cell of the grid. The
    /// column picks the channel and the row the setting; a cell outside the
    /// two columns or on a row without a setting leaves everything as it was.
    pub open spec fn stored(self, point: Position, val: i64) -> Device {
        if point.0 == 0 {
            Device { core: self.core.with_setting(point.1 as int, val), ..self }
        } else if point.0 == 1 {
            Device { mem: self.mem.with_setting(point.1 as int, val), ..self }
        } else {
            self
        }
    }

    /// What an edit of a cell starts from.
    pub open spec fn seed(self, point: Position) -> i64 {
        if point.0 == 0 {
            self.core.seed(point.1 as int)
        } else if point.0 == 1 {
            self.mem.seed(point.1 as int)
        } else {
            0
        }
    }

    /// The device after a channel was refreshed from the replies to its
    /// five reads. A selector that names no channel changes nothing.
    pub open spec fn refreshed(self, channel: int, replies: [[u8; 2]; 5]) -> Device {
        if channel == 0 {
            Device { core: Channel::refreshed(replies), ..self }
        } else if channel == 1 {
            Device { mem: Channel::refreshed(replies), ..self }
        } else {
            self
        }
    }

    /// The core channel, to read or to change.
    pub fn core_channel(&mut self) -> (chan: &mut Channel)
        ensures
            *chan == old(self).core,
            *final(self) == (Device { core: *final(chan), ..*old(self) }),
    {
        &mut self.core
    }

    /// The memory channel, to read or to change.
    pub fn mem(&mut self) -> (chan: &mut Channel)
        ensures
            *chan == old(self).mem,
            *final(self) == (Device { mem: *final(chan), ..*old(self) }),
    {
        &mut self.mem
    }

    /// Commits a value at a cell of the grid. Only the cache changes; the
    /// write to the regulator is the caller's to issue.
    pub fn store_value(&mut self, point: Position, val: i64)
        ensures
            *final(self) == old(self).stored(point, val),
    {
        if point.0 == 0 {
            if point.1 == ROW_VOLTAGE {
                self.core.voltage_setpoint = val;
            } else if point.1 == ROW_CURRENT {
                self.core.current_limit = val;
            }
        } else if point.0 == 1 {
            if point.1 == ROW_VOLTAGE {
                self.mem.voltage_setpoint = val;
            } else if point.1 == ROW_CURRENT {
                self.mem.current_limit = val;
            }
        }
    }

    /// What an edit of a cell starts from.
    pub fn seed_value(&self, point: Position) -> (val: i64)
        ensures
            val == self.seed(point),
    {
        let chan: &Channel = if point.0 == 0 {
            &self.core
        } else if point.0 == 1 {
            &self.mem
        } else {
            return 0;
        };
        if point.1 == ROW_VOLTAGE {
            chan.voltage_setpoint
        } else if point.1 == ROW_CURRENT {
            chan.current_limit
        } else if point.1 == ROW_TEMPERATURE {
            chan.temperature
        } else {
            0
        }
    }

    /// Overwrites a channel with what the replies to its five reads decode
    /// to. The replies come in the order of the reads: voltage, temperature,
    /// current, voltage setpoint, current limit.
    pub fn refresh(&mut self, channel: i32, replies: &[[u8; 2]; 5])
        ensures
            *final(self) == old(self).refreshed(channel as int, *replies),
    {
        if channel != 0 && channel != 1 {
            return ;
        }
        let fresh = Channel {
            voltage: Format::Linear16.decode(replies[0]),
            temperature: Format::Linear11.decode(replies[1]),
            current: Format::Linear11.decode(replies[2]),
            voltage_setpoint: Format::Linear16.decode(replies[3]),
            current_limit: Format::Linear11.decode(replies[4]),
        };
        if channel == 0 {
            self.core = fresh;
        } else {
            self.mem = fresh;
        }
    }
}

} // verus!
