//! The devices of a home: a thermometer and a socket, and the sum of both.
//!
//! Readings are whole numbers of thousandths: a temperature in thousandths
//! of a degree Celsius, a power in thousandths of a watt.

use crate::source::sample_range;
use crate::text::{append_two_places, two_places};
use vstd::prelude::*;

verus! {

/// The lowest temperature a thermometer reports: 1.000 °C.
pub const TEMPERATURE_MIN: u32 = 1_000;

/// The bound below which every reported temperature lies: 40.000 °C.
pub const TEMPERATURE_MAX: u32 = 40_000;

/// The lowest power a socket that is on reports: 2.000 W.
pub const POWER_MIN: u32 = 2_000;

/// The bound below which every reported power lies: 10.000 W.
pub const POWER_MAX: u32 = 10_000;

/// Whether `reading` is a temperature that a thermometer may report.
pub open spec fn is_temperature(reading: u32) -> bool {
    TEMPERATURE_MIN <= reading < TEMPERATURE_MAX
}

/// Whether `reading` is a power that a socket in state `on` may report:
/// nothing when it is off, a value of the power range when it is on.
pub open spec fn is_power(on: bool, reading: u32) -> bool {
    if on {
        POWER_MIN <= reading < POWER_MAX
    } else {
        reading == 0
    }
}

/// A thermometer. It keeps no state: each reading is drawn anew.
#[derive(Debug)]
pub struct SmartThermometer {}

impl SmartThermometer {
    /// A thermometer.
    pub fn new() -> (thermometer: Self)
        ensures
            thermometer == (SmartThermometer {  }),
    {
        Self {  }
    }

    /// The temperature now, in thousandths of a degree Celsius.
    pub fn get_temperature(&self) -> (reading: u32)
        ensures
            is_temperature(reading),
    {
        sample_range(TEMPERATURE_MIN, TEMPERATURE_MAX)
    }
}

impl Default for SmartThermometer {
    fn default() -> (thermometer: Self)
        ensures
            thermometer == (SmartThermometer {  }),
    {
        Self::new()
    }
}

/// A socket that is either on or off.
#[derive(Debug)]
pub struct SmartSocket {
    state: bool,
}

impl SmartSocket {
    /// Whether the socket is on.
    pub closed spec fn is_on(&self) -> bool {
        self.state
    }

    /// The socket as it is made in the state `on`.
    pub closed spec fn in_state(on: bool) -> Self {
        SmartSocket { state: on }
    }

    /// This socket after it was switched to `on`.
    pub closed spec fn switched(self, on: bool) -> Self {
        SmartSocket { state: on }
    }

    /// A socket that is on if `state` is true, and off if not.
    pub fn new(state: bool) -> (socket: Self)
        ensures
            socket == Self::in_state(state),
            socket.is_on() == state,
    {
        Self { state }
    }

    /// Switches the socket on, whatever it was before.
    pub fn turn_on(&mut self)
        ensures
            *final(self) == old(self).switched(true),
            final(self).is_on(),
    {
        self.state = true
    }

    /// Switches the socket off, whatever it was before.
    pub fn turn_off(&mut self)
        ensures
            *final(self) == old(self).switched(false),
            !final(self).is_on(),
    {
        self.state = false
    }

    /// Whether the socket is on.
    pub fn get_state(&self) -> (on: bool)
        ensures
            on == self.is_on(),
    {
        self.state
    }

    /// The power drawn now, in thousandths of a watt: nothing while the
    /// socket is off.
    pub fn get_power(&self) -> (reading: u32)
        ensures
            is_power(self.is_on(), reading),
    {
        if self.state {
            sample_range(POWER_MIN, POWER_MAX)
        } else {
            0
        }
    }
}

/// A socket that was just made is in the state it was made with.
pub proof fn lemma_new_socket_state(on: bool)
    ensures
        SmartSocket::in_state(on).is_on() == on,
{
}

/// After a switch the socket is in the state it was switched to, whatever
/// it was before.
pub proof fn lemma_switch_sets_state(socket: SmartSocket, on: bool)
    ensures
        socket.switched(on).is_on() == on,
{
}

/// Switching twice to the same state is the same as switching once, and a
/// switch to the state that the socket is in changes nothing.
pub proof fn lemma_switch_idempotent(socket: SmartSocket, on: bool)
    ensures
        socket.switched(on).switched(on) == socket.switched(on),
        socket.is_on() == on ==> socket.switched(on) == socket,
{
}

/// The last switch decides: what the socket was before does not matter.
pub proof fn lemma_switch_forgets(first: SmartSocket, second: SmartSocket, on: bool)
    ensures
        first.switched(on) == second.switched(on),
        first.switched(on) == SmartSocket::in_state(on),
{
}

/// A socket is what its state is: two sockets in the same state are equal.
pub proof fn lemma_socket_is_its_state(first: SmartSocket, second: SmartSocket)
    requires
        first.is_on() == second.is_on(),
    ensures
        first == second,
{
}

/// Every temperature but the lowest lies strictly between the two bounds.
pub proof fn lemma_temperature_strictly_inside(reading: u32)
    requires
        is_temperature(reading),
        reading != TEMPERATURE_MIN,
    ensures
        TEMPERATURE_MIN < reading < TEMPERATURE_MAX,
{
}

/// A power reading lies between the two bounds, both included, while the
/// socket is on, and is zero while it is off.
pub proof fn lemma_power_bounds(on: bool, reading: u32)
    requires
        is_power(on, reading),
    ensures
        on ==> POWER_MIN <= reading <= POWER_MAX,
        !on ==> reading == 0,
{
}

/// A device of a home.
pub enum SmartDevice {
    Thermometer(SmartThermometer),
    Socket(SmartSocket),
}

impl SmartDevice {
    /// Whether `reading` is a value that this device may report: a
    /// temperature for a thermometer, a power for a socket.
    pub open spec fn admits(&self, reading: u32) -> bool {
        match self {
            SmartDevice::Thermometer(_) => is_temperature(reading),
            SmartDevice::Socket(socket) => is_power(socket.is_on(), reading),
        }
    }

    /// The status line of this device when it reports `reading`. A socket
    /// that is off shows no figure.
    pub open spec fn description(&self, reading: u32) -> Seq<char> {
        match self {
            SmartDevice::Thermometer(_) => "Thermometer:\tCurrent temperature: "@ + two_places(
                reading as nat,
            ) + "°C"@,
            SmartDevice::Socket(socket) => if socket.is_on() {
                "Socket:\tCurrent sate: ON; Current power: "@ + two_places(reading as nat) + "W"@
            } else {
                "Socket:\tCurrent sate: OFF"@
            },
        }
    }

    /// Takes one reading from the device: a temperature from a thermometer,
    /// the power from a socket.
    pub fn measure(&self) -> (reading: u32)
        ensures
            self.admits(reading),
    {
        match self {
            SmartDevice::Thermometer(thermometer) => thermometer.get_temperature(),
            SmartDevice::Socket(socket) => socket.get_power(),
        }
    }

    /// The status line of this device for a reading that was taken from it.
    pub fn describe(&self, reading: u32) -> (text: String)
        ensures
            text@ == self.description(reading),
    {
        match self {
            SmartDevice::Thermometer(_) => {
                let mut text = String::from_str("Thermometer:\tCurrent temperature: ");
                append_two_places(&mut text, reading);
                text.append("°C");
                text
            },
            SmartDevice::Socket(socket) => {
                if socket.get_state() {
                    let mut text = String::from_str("Socket:\tCurrent sate: ON; Current power: ");
                    append_two_places(&mut text, reading);
                    text.append("W");
                    text
                } else {
                    String::from_str("Socket:\tCurrent sate: OFF")
                }
            },
        }
    }

    /// The status line of this device now: a reading is taken and described.
    pub fn status(&self) -> (text: String)
        ensures
            exists|reading: u32| self.admits(reading) && text@ == self.description(reading),
    {
        let reading: u32 = self.measure();
        self.describe(reading)
    }
}

} // verus!
