use applet_interface::AppletInterface;
use applet_interface::Command;
use applet_interface::Opcode;
use applet_interface::Separator;
use applet_interface::codec::encode_command;

/// Read one wire message the way the board-side peer does: parse the JSON
/// object and pull out the three fields.
fn peer_decode(message: &[u8]) -> (String, u8, Vec<u8>) {
    let v: serde_json::Value = serde_json::from_slice(message).expect("wire message must be JSON");
    let obj = v.as_object().expect("wire message must be a JSON object");
    assert_eq!(obj.len(), 3, "exactly three fields");
    let opcode = obj["opcode"].as_str().expect("opcode must be a string").to_string();
    let app_num = obj["app_num"].as_u64().expect("app_num must be a number");
    assert!(app_num <= 255);
    let parameters: Vec<u8> = obj["parameters"]
        .as_array()
        .expect("parameters must be an array")
        .iter()
        .map(|p| {
            let b = p.as_u64().expect("parameter must be a number");
            assert!(b <= 255);
            b as u8
        })
        .collect();
    (opcode, app_num as u8, parameters)
}

#[test]
fn create_message_is_the_exact_wire_json() {
    let s = AppletInterface::new(1, Separator::Solid).unwrap();
    let msg = s.create_message();
    assert_eq!(
        String::from_utf8(msg).unwrap(),
        "{\"opcode\":\"CreateApplet\",\"app_num\":1,\"parameters\":[1]}"
    );
}

#[test]
fn bar_message_is_the_exact_wire_json() {
    let mut s = AppletInterface::new(0, Separator::Variable).unwrap();
    s.set_bar([255, 175, 125, 100, 75, 50, 25, 12, 0]);
    let msg = s.bar_message().unwrap();
    assert_eq!(
        String::from_utf8(msg).unwrap(),
        "{\"opcode\":\"UpdateBar\",\"app_num\":0,\"parameters\":[255,175,125,100,75,50,25,12,0]}"
    );
}

#[test]
fn encode_command_empty_parameters() {
    let c = Command { opcode: Opcode::UpdateGrid, app_num: 2, parameters: Vec::new() };
    let msg = encode_command(&c);
    assert_eq!(
        String::from_utf8(msg).unwrap(),
        "{\"opcode\":\"UpdateGrid\",\"app_num\":2,\"parameters\":[]}"
    );
}

#[test]
fn grid_round_trip_through_peer_decode() {
    // A grid of arbitrary bytes: the peer's decode of the encoded message
    // reconstructs the identical sequence in row-major order.
    let mut grid = [[0u8; 9]; 10];
    let mut x: u32 = 7;
    let mut expected = Vec::new();
    for i in 0..10 {
        for j in 0..9 {
            // Small linear-congruential mix so every byte value region is hit.
            x = x.wrapping_mul(1103515245).wrapping_add(12345);
            let b = (x >> 16) as u8;
            grid[i][j] = b;
            expected.push(b);
        }
    }
    let mut s = AppletInterface::new(3, Separator::Empty).unwrap();
    s.set_grid(grid);
    let (opcode, app_num, parameters) = peer_decode(&s.grid_message());
    assert_eq!(opcode, "UpdateGrid");
    assert_eq!(app_num, 3);
    assert_eq!(parameters, expected);
}

#[test]
fn end_to_end_create_then_two_grid_writes() {
    // Scripted peer: one CreateApplet, then two UpdateGrid commands.
    let mut s = AppletInterface::new(1, Separator::Solid).unwrap();

    // Handshake: the peer sees the create command and replies 0.
    let (opcode, app_num, parameters) = peer_decode(&s.create_message());
    assert_eq!(opcode, "CreateApplet");
    assert_eq!(app_num, 1);
    assert_eq!(parameters, vec![1]);
    assert!(applet_interface::status::decode_handshake(0).is_ok());

    // First write: a 10x9 grid of incrementing bytes 1..=90.
    let mut grid = [[0u8; 9]; 10];
    for i in 0..10 {
        for j in 0..9 {
            grid[i][j] = (i * 9 + j + 1) as u8;
        }
    }
    s.set_grid(grid);
    let (opcode, app_num, first) = peer_decode(&s.grid_message());
    assert_eq!(opcode, "UpdateGrid");
    assert_eq!(app_num, 1);
    let incrementing: Vec<u8> = (1..=90).collect();
    assert_eq!(first, incrementing);
    assert!(applet_interface::status::decode_status(0).is_ok());

    // Mutate one cell, write again: exactly that one value changed.
    s.set_point(4, 6, 222).unwrap();
    let (_, _, second) = peer_decode(&s.grid_message());
    assert_eq!(second.len(), first.len());
    for k in 0..90 {
        if k == 6 * 9 + 4 {
            assert_eq!(second[k], 222);
        } else {
            assert_eq!(second[k], first[k]);
        }
    }
    assert!(applet_interface::status::decode_status(0).is_ok());
}
