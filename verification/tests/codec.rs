//! Codec behaviour: exact bytes, round trips, malformed input, field order.
use prost::bytes::BufMut;
use prost::encoding::{encode_key, encode_varint, WireType};
use vsss_rust_client::command::{
    command_datagram, deserialize_packet, parse_command, serialize_packet, Command, Commands,
    Packet,
};

fn push_varint(buf: &mut Vec<u8>, mut v: u64) {
    while v >= 0x80 {
        buf.push(((v & 0x7f) | 0x80) as u8);
        v >>= 7;
    }
    buf.push(v as u8);
}

fn command_body(id: u32, yellowteam: bool, wheel_left: f64, wheel_right: f64) -> Vec<u8> {
    let mut body = Vec::new();
    body.push(0x08);
    push_varint(&mut body, id as u64);
    body.push(0x10);
    push_varint(&mut body, if yellowteam { 1 } else { 0 });
    body.push(0x19);
    body.extend_from_slice(&wheel_left.to_bits().to_le_bytes());
    body.push(0x21);
    body.extend_from_slice(&wheel_right.to_bits().to_le_bytes());
    body
}

fn packet_bytes(commands: &[(u32, bool, f64, f64)]) -> Vec<u8> {
    let mut cmds = Vec::new();
    for &(id, yellow, wl, wr) in commands {
        let body = command_body(id, yellow, wl, wr);
        cmds.push(0x0a);
        push_varint(&mut cmds, body.len() as u64);
        cmds.extend_from_slice(&body);
    }
    let mut packet = Vec::new();
    packet.push(0x0a);
    push_varint(&mut packet, cmds.len() as u64);
    packet.extend_from_slice(&cmds);
    packet
}

fn make_command(id: u32, yellowteam: bool, wheel_left: f64, wheel_right: f64) -> Command {
    Command::new(id, yellowteam, wheel_left.to_bits(), wheel_right.to_bits())
}

#[test]
fn serialize_packet_exact_bytes() {
    let cmd = make_command(1, true, 1.5, -2.0);
    let packet = Packet { cmd: Some(Commands::new(vec![cmd])) };
    let bytes = serialize_packet(packet);
    assert_eq!(bytes, packet_bytes(&[(1, true, 1.5, -2.0)]));
}

#[test]
fn command_new_keeps_its_arguments() {
    let cmd = Command::new(5, false, 2.5f64.to_bits(), (-0.5f64).to_bits());
    assert_eq!(cmd.id, 5);
    assert!(!cmd.yellowteam);
    assert_eq!(f64::from_bits(cmd.wheel_left), 2.5);
    assert_eq!(f64::from_bits(cmd.wheel_right), -0.5);
}

#[test]
fn command_datagram_equals_serialized_packet() {
    let commands = vec![make_command(1, true, 1.5, -2.0), make_command(2, false, 0.0, 3.5)];
    let packet = Packet { cmd: Some(Commands::new(commands.clone())) };
    assert_eq!(command_datagram(commands), serialize_packet(packet));
}

#[test]
fn serialize_packet_without_commands_is_empty() {
    let bytes = serialize_packet(Packet { cmd: None });
    assert!(bytes.is_empty());
}

#[test]
fn packet_round_trip_reproduces_commands() {
    let commands = vec![
        make_command(0, false, 0.0, 0.0),
        make_command(3, true, 12.25, -7.5),
        make_command(u32::MAX, false, -0.0, 1e300),
    ];
    let packet = Packet { cmd: Some(Commands::new(commands.clone())) };
    let bytes = serialize_packet(packet);
    let decoded = deserialize_packet(&bytes).expect("round trip must decode");
    let decoded_commands = decoded.cmd.expect("command list must be present");
    assert_eq!(decoded_commands.robot_commands, commands);
}

#[test]
fn packet_round_trip_empty_list() {
    let packet = Packet { cmd: Some(Commands::new(Vec::new())) };
    let bytes = serialize_packet(packet);
    assert_eq!(bytes, vec![0x0a, 0x00]);
    let decoded = deserialize_packet(&bytes).expect("round trip must decode");
    let decoded_commands = decoded.cmd.expect("command list must be present");
    assert!(decoded_commands.robot_commands.is_empty());
}

#[test]
fn empty_datagram_decodes_to_packet_without_commands() {
    let decoded = deserialize_packet(&[]).expect("empty packet is valid");
    assert!(decoded.cmd.is_none());
}

#[test]
fn truncated_length_prefix_is_rejected() {
    assert!(deserialize_packet(&[0x0a, 0x05, 0x01]).is_err());
}

#[test]
fn dangling_varint_is_rejected() {
    assert!(deserialize_packet(&[0x80]).is_err());
}

#[test]
fn command_fields_decode_in_any_order_last_wins() {
    // yellowteam, then id twice: the later id must win.
    let body = vec![0x10, 0x01, 0x08, 0x02, 0x08, 0x03];
    let cmd = parse_command(&body).expect("out-of-order members are accepted");
    assert_eq!(cmd.id, 3);
    assert!(cmd.yellowteam);
    assert_eq!(cmd.wheel_left, 0);
    assert_eq!(cmd.wheel_right, 0);
}

#[test]
fn command_decoder_skips_unknown_fields() {
    // field 9 (varint), then id.
    let body = vec![0x48, 0x05, 0x08, 0x07];
    let cmd = parse_command(&body).expect("unknown members are skipped");
    assert_eq!(cmd.id, 7);
}

#[test]
fn serialized_packet_matches_reference_protobuf_encoder() {
    let commands = vec![make_command(2, true, 0.5, -31.25), make_command(9, false, 4.0, 4.0)];

    let mut reference_body: Vec<u8> = Vec::new();
    for c in &commands {
        let mut one: Vec<u8> = Vec::new();
        prost::encoding::uint32::encode(1, &c.id, &mut one);
        prost::encoding::bool::encode(2, &c.yellowteam, &mut one);
        prost::encoding::double::encode(3, &f64::from_bits(c.wheel_left), &mut one);
        prost::encoding::double::encode(4, &f64::from_bits(c.wheel_right), &mut one);
        encode_key(1, WireType::LengthDelimited, &mut reference_body);
        encode_varint(one.len() as u64, &mut reference_body);
        reference_body.put_slice(&one);
    }
    let mut reference: Vec<u8> = Vec::new();
    encode_key(1, WireType::LengthDelimited, &mut reference);
    encode_varint(reference_body.len() as u64, &mut reference);
    reference.put_slice(&reference_body);

    let packet = Packet { cmd: Some(Commands::new(commands)) };
    assert_eq!(serialize_packet(packet), reference);
}
