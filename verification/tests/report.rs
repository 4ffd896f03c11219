use smart_home::home::room_heading_line;
use smart_home::room::numbered_line;
use smart_home::{OutOfBounds, Room, SmartDevice, SmartHome, SmartSocket, SmartThermometer};

fn thermometer() -> SmartDevice {
    SmartDevice::Thermometer(SmartThermometer::new())
}

fn socket(on: bool) -> SmartDevice {
    SmartDevice::Socket(SmartSocket::new(on))
}

fn sample_home() -> SmartHome {
    SmartHome::new(vec![
        Room::new(vec![thermometer(), thermometer(), socket(false)]),
        Room::new(vec![thermometer(), socket(false), socket(true), socket(false)]),
        Room::new(vec![thermometer(), thermometer(), socket(false), socket(true)]),
    ])
}

fn is_on(device: &SmartDevice) -> Option<bool> {
    match device {
        SmartDevice::Socket(socket) => Some(socket.get_state()),
        SmartDevice::Thermometer(_) => None,
    }
}

fn figure_between(line: &str, before: &str, after: &str) -> f32 {
    let figure = line
        .strip_prefix(before)
        .and_then(|rest| rest.strip_suffix(after))
        .expect("the line has the expected shape");
    assert_eq!(figure.len() - figure.find('.').expect("a point"), 3);
    figure.parse().expect("a number")
}

fn assert_thermometer_line(line: &str, number: usize) {
    let before = format!("\t{}: \tThermometer:\tCurrent temperature: ", number);
    let value = figure_between(line, &before, "°C");
    assert!(1.0 <= value && value <= 40.0);
}

fn assert_socket_on_line(line: &str, number: usize) {
    let before = format!("\t{}: \tSocket:\tCurrent sate: ON; Current power: ", number);
    let value = figure_between(line, &before, "W");
    assert!(2.0 <= value && value <= 10.0);
}

fn assert_socket_off_line(line: &str, number: usize) {
    assert_eq!(line, format!("\t{}: \tSocket:\tCurrent sate: OFF", number));
}

#[test]
fn numbered_lines_count_from_what_they_are_given() {
    assert_eq!(numbered_line(1, &String::from("x")), "\t1: \tx");
    assert_eq!(numbered_line(12, &String::from("Socket")), "\t12: \tSocket");
    assert_eq!(numbered_line(0, &String::new()), "\t0: \t");
}

#[test]
fn room_headings() {
    assert_eq!(room_heading_line(1), "Room 1:");
    assert_eq!(room_heading_line(10), "Room 10:");
    assert_eq!(room_heading_line(usize::MAX), format!("Room {}:", usize::MAX));
}

#[test]
fn room_holds_its_devices_in_order() {
    let room = Room::new(vec![thermometer(), socket(true), socket(false)]);
    assert_eq!(room.len(), 3);
    assert_eq!(room.get(0).ok().and_then(is_on), None);
    assert!(room.get(0).is_ok());
    assert_eq!(room.get(1).ok().and_then(is_on), Some(true));
    assert_eq!(room.get(2).ok().and_then(is_on), Some(false));
}

#[test]
fn room_add_appends() {
    let mut room = Room::new(Vec::new());
    assert_eq!(room.len(), 0);
    room.add(socket(true));
    room.add(thermometer());
    room.add(socket(false));
    assert_eq!(room.len(), 3);
    assert_eq!(room.get(0).ok().and_then(is_on), Some(true));
    assert!(matches!(room.get(1), Ok(SmartDevice::Thermometer(_))));
    assert_eq!(room.get(2).ok().and_then(is_on), Some(false));
}

#[test]
fn room_index_at_its_length_is_out_of_bounds() {
    let mut room = Room::new(vec![thermometer(), socket(false)]);
    assert_eq!(room.get(2).err(), Some(OutOfBounds { index: 2, len: 2 }));
    assert_eq!(room.get_mut(2).err(), Some(OutOfBounds { index: 2, len: 2 }));
    assert_eq!(
        room.get(usize::MAX).err(),
        Some(OutOfBounds { index: usize::MAX, len: 2 })
    );
    assert!(room.get(1).is_ok());
    assert_eq!(room.len(), 2);
}

#[test]
fn empty_room_has_no_place() {
    let mut room = Room::new(Vec::new());
    assert_eq!(room.get(0).err(), Some(OutOfBounds { index: 0, len: 0 }));
    assert_eq!(room.get_mut(0).err(), Some(OutOfBounds { index: 0, len: 0 }));
    assert_eq!(room.report(), vec![String::from("Devices:")]);
}

#[test]
fn home_index_at_its_length_is_out_of_bounds() {
    let mut home = sample_home();
    assert_eq!(home.len(), 3);
    assert_eq!(home.get(3).err(), Some(OutOfBounds { index: 3, len: 3 }));
    assert_eq!(home.get_mut(3).err(), Some(OutOfBounds { index: 3, len: 3 }));
    assert_eq!(home.get(7).err(), Some(OutOfBounds { index: 7, len: 3 }));
    assert!(home.get(2).is_ok());
    let empty = SmartHome::new(Vec::new());
    assert_eq!(empty.get(0).err(), Some(OutOfBounds { index: 0, len: 0 }));
}

#[test]
fn home_add_appends() {
    let mut home = SmartHome::new(Vec::new());
    home.add(Room::new(vec![socket(false)]));
    home.add(Room::new(vec![socket(false), socket(false)]));
    assert_eq!(home.len(), 2);
    assert_eq!(home.get(0).map(|room| room.len()).ok(), Some(1));
    assert_eq!(home.get(1).map(|room| room.len()).ok(), Some(2));
}

#[test]
fn get_mut_changes_the_device_in_its_place() {
    let mut room = Room::new(vec![socket(false), socket(false), socket(true)]);
    if let Ok(SmartDevice::Socket(socket)) = room.get_mut(1) {
        socket.turn_on();
    }
    if let Ok(SmartDevice::Socket(socket)) = room.get_mut(2) {
        socket.turn_off();
    }
    assert_eq!(room.len(), 3);
    assert_eq!(room.get(0).ok().and_then(is_on), Some(false));
    assert_eq!(room.get(1).ok().and_then(is_on), Some(true));
    assert_eq!(room.get(2).ok().and_then(is_on), Some(false));
}

#[test]
fn get_mut_can_replace_a_device() {
    let mut room = Room::new(vec![thermometer(), thermometer()]);
    if let Ok(device) = room.get_mut(0) {
        *device = socket(true);
    }
    assert_eq!(room.get(0).ok().and_then(is_on), Some(true));
    assert!(matches!(room.get(1), Ok(SmartDevice::Thermometer(_))));
}

#[test]
fn report_of_a_room_of_sockets_that_are_off_is_fixed() {
    let room = Room::new(vec![socket(false), socket(false)]);
    assert_eq!(
        room.report(),
        vec![
            String::from("Devices:"),
            String::from("\t1: \tSocket:\tCurrent sate: OFF"),
            String::from("\t2: \tSocket:\tCurrent sate: OFF"),
        ]
    );
}

#[test]
fn report_of_a_room_numbers_past_nine() {
    let mut room = Room::new(Vec::new());
    for _ in 0..12 {
        room.add(socket(false));
    }
    let lines = room.report();
    assert_eq!(lines.len(), 13);
    assert_eq!(lines[9], "\t9: \tSocket:\tCurrent sate: OFF");
    assert_eq!(lines[10], "\t10: \tSocket:\tCurrent sate: OFF");
    assert_eq!(lines[12], "\t12: \tSocket:\tCurrent sate: OFF");
}

#[test]
fn report_of_an_empty_home_is_its_title() {
    let home = SmartHome::new(Vec::new());
    assert_eq!(home.report(), vec![String::from("Smart home report:")]);
}

#[test]
fn report_of_a_home_of_sockets_that_are_off_is_fixed() {
    let home = SmartHome::new(vec![
        Room::new(vec![socket(false)]),
        Room::new(Vec::new()),
        Room::new(vec![socket(false), socket(false)]),
    ]);
    assert_eq!(
        home.report(),
        vec![
            String::from("Smart home report:"),
            String::from("Room 1:"),
            String::from("Devices:"),
            String::from("\t1: \tSocket:\tCurrent sate: OFF"),
            String::from("Room 2:"),
            String::from("Devices:"),
            String::from("Room 3:"),
            String::from("Devices:"),
            String::from("\t1: \tSocket:\tCurrent sate: OFF"),
            String::from("\t2: \tSocket:\tCurrent sate: OFF"),
        ]
    );
}

#[test]
fn report_of_the_sample_home_before_and_after_a_switch() {
    let mut home = sample_home();

    let lines = home.report();
    assert_eq!(lines.len(), 1 + (2 + 3) + (2 + 4) + (2 + 4));
    assert_eq!(lines[0], "Smart home report:");
    assert_eq!(lines[1], "Room 1:");
    assert_eq!(lines[2], "Devices:");
    assert_thermometer_line(&lines[3], 1);
    assert_thermometer_line(&lines[4], 2);
    assert_socket_off_line(&lines[5], 3);
    assert_eq!(lines[6], "Room 2:");
    assert_eq!(lines[7], "Devices:");
    assert_thermometer_line(&lines[8], 1);
    assert_socket_off_line(&lines[9], 2);
    assert_socket_on_line(&lines[10], 3);
    assert_socket_off_line(&lines[11], 4);
    assert_eq!(lines[12], "Room 3:");
    assert_eq!(lines[13], "Devices:");
    assert_thermometer_line(&lines[14], 1);
    assert_thermometer_line(&lines[15], 2);
    assert_socket_off_line(&lines[16], 3);
    assert_socket_on_line(&lines[17], 4);

    let room = home.get_mut(1).expect("the second room");
    if let SmartDevice::Socket(socket) = room.get_mut(1).expect("its second device") {
        socket.turn_on();
    }

    let lines = home.report();
    assert_eq!(lines.len(), 18);
    assert_eq!(lines[6], "Room 2:");
    assert_thermometer_line(&lines[8], 1);
    assert_socket_on_line(&lines[9], 2);
    assert!(lines[9].contains("ON"));
    assert!(!lines[9].contains("OFF"));
    assert_socket_on_line(&lines[10], 3);
    assert_socket_off_line(&lines[11], 4);
    assert_socket_off_line(&lines[5], 3);
    assert_socket_off_line(&lines[16], 3);
}
