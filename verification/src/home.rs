//! A home: its rooms, in the order in which they were put there, and the
//! report over all of them.

use crate::error::OutOfBounds;
use crate::room::Room;
use crate::text::{append_decimal, numbered, text_of};
use vstd::prelude::*;

verus! {

/// The rooms of one home, addressed by their place, the first at 0.
pub struct SmartHome {
    rooms: Vec<Room>,
}

impl View for SmartHome {
    type V = Seq<Room>;

    closed spec fn view(&self) -> Seq<Room> {
        self.rooms@
    }
}

/// The heading over the room at `place` (counted from 0, shown from 1).
pub open spec fn room_heading(place: int) -> Seq<char> {
    numbered("Room "@, (place + 1) as nat, ":"@)
}

/// The heading over room `number` of a home's report.
pub fn room_heading_line(number: usize) -> (line: String)
    ensures
        line@ == numbered("Room "@, number as nat, ":"@),
{
    let mut line = String::from_str("Room ");
    append_decimal(&mut line, number as u64);
    line.append(":");
    assert(line@ =~= numbered("Room "@, number as nat, ":"@));
    line
}

impl SmartHome {
    /// The home that holds `rooms`, in their order.
    pub fn new(rooms: Vec<Room>) -> (home: Self)
        ensures
            home@ == rooms@,
    {
        Self { rooms }
    }

    /// The number of rooms in the home.
    pub fn len(&self) -> (n: usize)
        ensures
            n == self@.len(),
    {
        self.rooms.len()
    }

    /// Puts `room` behind the rooms that are in the home already.
    pub fn add(&mut self, room: Room)
        ensures
            final(self)@ == old(self)@.push(room),
    {
        self.rooms.push(room);
    }

    /// The room at `index`, or the failure that says that the home holds no
    /// such place.
    pub fn get(&self, index: usize) -> (found: Result<&Room, OutOfBounds>)
        ensures
            index < self@.len() ==> found == Ok::<&Room, OutOfBounds>(&self@[index as int]),
            index >= self@.len() ==> found == Err::<&Room, OutOfBounds>(
                OutOfBounds { index, len: self@.len() as usize },
            ),
    {
        if index < self.rooms.len() {
            Ok(&self.rooms[index])
        } else {
            Err(OutOfBounds { index, len: self.rooms.len() })
        }
    }

    /// The room at `index`, to be changed in its place, or the failure that
    /// says that the home holds no such place.
    pub fn get_mut(&mut self, index: usize) -> (found: Result<&mut Room, OutOfBounds>)
        ensures
            match found {
                Ok(room) => {
                    &&& index < old(self)@.len()
                    &&& *room == old(self)@[index as int]
                    &&& final(self)@ == old(self)@.update(index as int, *final(room))
                },
                Err(failure) => {
                    &&& index >= old(self)@.len()
                    &&& failure == (OutOfBounds { index, len: old(self)@.len() as usize })
                    &&& final(self)@ == old(self)@
                },
            },
    {
        if index < self.rooms.len() {
            Ok(&mut self.rooms[index])
        } else {
            Err(OutOfBounds { index, len: self.rooms.len() })
        }
    }

    /// Whether `readings` holds, for each room of the home in their order,
    /// readings that the room admits.
    pub open spec fn admits(&self, readings: Seq<Seq<u32>>) -> bool {
        &&& readings.len() == self@.len()
        &&& forall|place: int|
            0 <= place < self@.len() ==> (#[trigger] self@[place]).admits(readings[place])
    }

    /// The report over the first `count` rooms: the title, then for each of
    /// these rooms, in their order, its heading and its own report.
    pub open spec fn report_upto(&self, readings: Seq<Seq<u32>>, count: nat) -> Seq<Seq<char>>
        decreases count,
    {
        if count == 0 {
            seq!["Smart home report:"@]
        } else {
            let place = count - 1;
            self.report_upto(readings, place as nat) + seq![room_heading(place)]
                + self@[place].report_text(readings[place])
        }
    }

    /// The lines of the home's report when the devices of its rooms report
    /// `readings`.
    pub open spec fn report_text(&self, readings: Seq<Seq<u32>>) -> Seq<Seq<char>> {
        self.report_upto(readings, self@.len())
    }

    /// The number of lines in the report over the first `count` rooms: the
    /// title, and for each room two headings and a line for each device.
    pub open spec fn line_count_upto(&self, count: nat) -> nat
        decreases count,
    {
        if count == 0 {
            1
        } else {
            self.line_count_upto((count - 1) as nat) + 2 + self@[count - 1]@.len()
        }
    }

    /// The report over the first rooms reads only the readings of these
    /// rooms.
    pub proof fn lemma_report_upto_reads_prefix(
        &self,
        first: Seq<Seq<u32>>,
        second: Seq<Seq<u32>>,
        count: nat,
    )
        requires
            forall|place: int| 0 <= place < count ==> first[place] == second[place],
        ensures
            self.report_upto(first, count) == self.report_upto(second, count),
        decreases count,
    {
        if count > 0 {
            self.lemma_report_upto_reads_prefix(first, second, (count - 1) as nat);
        }
    }

    /// The number of lines of a report depends on the rooms and their
    /// devices only, not on what the devices report.
    pub proof fn lemma_report_line_count(&self, readings: Seq<Seq<u32>>, count: nat)
        ensures
            self.report_upto(readings, count).len() == self.line_count_upto(count),
        decreases count,
    {
        if count > 0 {
            self.lemma_report_line_count(readings, (count - 1) as nat);
        }
    }

    /// The report of the home now: the title, then each room, in their
    /// order, under its heading, with a reading taken from each device.
    pub fn report(&self) -> (lines: Vec<String>)
        ensures
            exists|readings: Seq<Seq<u32>>|
                self.admits(readings) && text_of(lines@) == #[trigger] self.report_text(readings),
    {
        let mut lines: Vec<String> = Vec::new();
        lines.push(String::from_str("Smart home report:"));
        let ghost mut readings: Seq<Seq<u32>> = Seq::empty();
        assert(text_of(lines@) =~= self.report_upto(readings, 0));
        let mut place: usize = 0;
        while place < self.rooms.len()
            invariant
                place <= self.rooms.len(),
                self@ == self.rooms@,
                readings.len() == place,
                forall|at: int| 0 <= at < place ==> (#[trigger] self@[at]).admits(readings[at]),
                text_of(lines@) == self.report_upto(readings, place as nat),
            decreases self.rooms.len() - place,
        {
            let room = &self.rooms[place];
            let ghost before = lines@;
            lines.push(room_heading_line(place + 1));
            let mut room_lines = room.report();
            let ghost of_room = choose|of_room: Seq<u32>|
                room.admits(of_room) && text_of(room_lines@) == #[trigger] room.report_text(
                    of_room,
                );
            let ghost added = room_lines@;
            lines.append(&mut room_lines);
            proof {
                let earlier = readings;
                readings = readings.push(of_room);
                self.lemma_report_upto_reads_prefix(earlier, readings, place as nat);
                assert(lines@ =~= before.push(lines@[before.len() as int]) + added);
                assert(text_of(lines@) =~= text_of(before) + seq![room_heading(place as int)]
                    + text_of(added));
            }
            place = place + 1;
        }
        proof {
            assert(self.admits(readings));
            assert(text_of(lines@) == self.report_text(readings));
        }
        lines
    }
}

} // verus!
