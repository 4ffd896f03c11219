//! A room: the devices in it, in the order in which they were put there.

use crate::device::SmartDevice;
use crate::error::OutOfBounds;
use crate::text::{append_decimal, numbered, text_of};
use vstd::prelude::*;

verus! {

/// The devices of one room, addressed by their place, the first at 0.
pub struct Room {
    devices: Vec<SmartDevice>,
}

impl View for Room {
    type V = Seq<SmartDevice>;

    closed spec fn view(&self) -> Seq<SmartDevice> {
        self.devices@
    }
}

impl Room {
    /// The room that holds `devices`, in their order.
    pub fn new(devices: Vec<SmartDevice>) -> (room: Self)
        ensures
            room@ == devices@,
    {
        Self { devices }
    }

    /// The number of devices in the room.
    pub fn len(&self) -> (n: usize)
        ensures
            n == self@.len(),
    {
        self.devices.len()
    }

    /// Puts `device` behind the devices that are in the room already.
    pub fn add(&mut self, device: SmartDevice)
        ensures
            final(self)@ == old(self)@.push(device),
    {
        self.devices.push(device);
    }

    /// The device at `index`, or the failure that says that the room holds no
    /// such place.
    pub fn get(&self, index: usize) -> (found: Result<&SmartDevice, OutOfBounds>)
        ensures
            index < self@.len() ==> found == Ok::<&SmartDevice, OutOfBounds>(&self@[index as int]),
            index >= self@.len() ==> found == Err::<&SmartDevice, OutOfBounds>(
                OutOfBounds { index, len: self@.len() as usize },
            ),
    {
        if index < self.devices.len() {
            Ok(&self.devices[index])
        } else {
            Err(OutOfBounds { index, len: self.devices.len() })
        }
    }

    /// The device at `index`, to be changed in its place, or the failure that
    /// says that the room holds no such place.
    pub fn get_mut(&mut self, index: usize) -> (found: Result<&mut SmartDevice, OutOfBounds>)
        ensures
            match found {
                Ok(device) => {
                    &&& index < old(self)@.len()
                    &&& *device == old(self)@[index as int]
                    &&& final(self)@ == old(self)@.update(index as int, *final(device))
                },
                Err(failure) => {
                    &&& index >= old(self)@.len()
                    &&& failure == (OutOfBounds { index, len: old(self)@.len() as usize })
                    &&& final(self)@ == old(self)@
                },
            },
    {
        if index < self.devices.len() {
            Ok(&mut self.devices[index])
        } else {
            Err(OutOfBounds { index, len: self.devices.len() })
        }
    }

    /// Whether `readings` holds one reading for each device of the room, in
    /// their order, each of them one that its device may report.
    pub open spec fn admits(&self, readings: Seq<u32>) -> bool {
        &&& readings.len() == self@.len()
        &&& forall|place: int|
            0 <= place < self@.len() ==> (#[trigger] self@[place]).admits(readings[place])
    }

    /// The lines of the room's report when its devices report `readings`:
    /// a heading, then one numbered line for each device, in their order.
    pub open spec fn report_text(&self, readings: Seq<u32>) -> Seq<Seq<char>> {
        seq!["Devices:"@] + Seq::new(
            self@.len(),
            |place: int| device_line(place, self@[place], readings[place]),
        )
    }

    /// The report of the room now: a reading is taken from each device, in
    /// their order, and each is described on a line of its own.
    pub fn report(&self) -> (lines: Vec<String>)
        ensures
            exists|readings: Seq<u32>|
                self.admits(readings) && text_of(lines@) == #[trigger] self.report_text(readings),
    {
        let mut lines: Vec<String> = Vec::new();
        lines.push(String::from_str("Devices:"));
        let ghost mut readings: Seq<u32> = Seq::empty();
        let mut place: usize = 0;
        while place < self.devices.len()
            invariant
                place <= self.devices.len(),
                self@ == self.devices@,
                readings.len() == place,
                forall|at: int| 0 <= at < place ==> (#[trigger] self@[at]).admits(readings[at]),
                lines@.len() == place + 1,
                lines@[0]@ == "Devices:"@,
                forall|at: int|
                    0 <= at < place ==> (#[trigger] lines@[at + 1])@ == device_line(
                        at,
                        self@[at],
                        readings[at],
                    ),
            decreases self.devices.len() - place,
        {
            let device = &self.devices[place];
            let reading: u32 = device.measure();
            let text = device.describe(reading);
            let line = numbered_line(place + 1, &text);
            lines.push(line);
            proof {
                readings = readings.push(reading);
            }
            place = place + 1;
        }
        proof {
            assert(text_of(lines@) =~= self.report_text(readings));
        }
        lines
    }
}

/// The line of the device at `place` (counted from 0, shown from 1) when it
/// reports `reading`.
pub open spec fn device_line(place: int, device: SmartDevice, reading: u32) -> Seq<char> {
    numbered("\t"@, (place + 1) as nat, ": \t"@ + device.description(reading))
}

/// The line that shows `text` as entry `number` of a room's report.
pub fn numbered_line(number: usize, text: &String) -> (line: String)
    ensures
        line@ == numbered("\t"@, number as nat, ": \t"@ + text@),
{
    let mut line = String::from_str("\t");
    append_decimal(&mut line, number as u64);
    line.append(": \t");
    line.append(text.as_str());
    assert(line@ =~= numbered("\t"@, number as nat, ": \t"@ + text@));
    line
}

} // verus!
