use amc_launcher::server::{
    read_varint, write_varint, ServerDescription, ServerPinger, ServerPlayersInfo, ServerStatusRaw,
    ServerVersionInfo, VarIntError,
};
use amc_launcher::error::LauncherError;

#[test]
fn varint_encodings() {
    let mut b = Vec::new();
    write_varint(&mut b, 0);
    write_varint(&mut b, 300);
    write_varint(&mut b, 2147483647);
    assert_eq!(b, vec![0x00, 0xac, 0x02, 0xff, 0xff, 0xff, 0xff, 0x07]);
}

#[test]
fn varint_round_trip() {
    for v in [0, 1, 127, 128, 255, 25565, 2097151, 2147483647] {
        let mut b = Vec::new();
        write_varint(&mut b, v);
        b.push(0x42);
        let (got, next) = read_varint(&b, 0).unwrap();
        assert_eq!(got, v);
        assert_eq!(next, b.len() - 1);
    }
}

#[test]
fn varint_errors() {
    assert_eq!(read_varint(&[0x80, 0x80], 0), Err(VarIntError::UnexpectedEnd));
    assert_eq!(read_varint(&[0xff, 0xff, 0xff, 0xff, 0xff, 0x01], 0), Err(VarIntError::TooBig));
    assert_eq!(read_varint(&[0xff, 0xff, 0xff, 0xff, 0x0f], 0), Ok((-1, 5)));
}

#[test]
fn handshake_bytes() {
    let p = ServerPinger::handshake_packet("localhost", 25565);
    let mut expected = vec![0x10, 0x00, 0xfd, 0x05, 0x09];
    expected.extend_from_slice(b"localhost");
    expected.extend_from_slice(&[0x63, 0xdd, 0x01]);
    assert_eq!(p, expected);
    assert_eq!(ServerPinger::status_request_packet(), vec![1, 0]);
}

#[test]
fn status_header_checks() {
    assert_eq!(ServerPinger::check_status_header(0, 10).unwrap(), 10);
    match ServerPinger::check_status_header(1, 10) {
        Err(LauncherError::Network(m)) => assert_eq!(m, "Invalid SLP packet ID"),
        _ => panic!(),
    }
    match ServerPinger::check_status_header(0, 40000) {
        Err(LauncherError::Network(m)) => assert_eq!(m, "Server response too large"),
        _ => panic!(),
    }
    assert!(ServerPinger::check_status_header(0, -1).is_err());
}

#[test]
fn motd_without_colour_codes() {
    assert_eq!(amc_launcher::server::strip_minecraft_color_codes("§aHello §lWorld&r!"), "Hello World!");
    assert_eq!(amc_launcher::server::strip_minecraft_color_codes("100§"), "100§");
    let raw = ServerStatusRaw {
        version: Some(ServerVersionInfo { name: Some("Paper 1.20.4".to_string()), protocol: Some(765) }),
        players: Some(ServerPlayersInfo { max: Some(100), online: Some(7) }),
        description: Some(ServerDescription::Text("§6Aleph".to_string())),
    };
    let s = ServerPinger::status_from_raw("mc.example", 25565, raw, 42);
    assert_eq!(s.motd, "Aleph");
    assert_eq!(s.version, "Paper 1.20.4");
    assert_eq!((s.online_players, s.max_players, s.ping_ms), (7, 100, 42));
    assert!(s.is_online);
    let empty = ServerStatusRaw { version: None, players: None, description: None };
    let s = ServerPinger::status_from_raw("h", 1, empty, 0);
    assert_eq!(s.motd, "Minecraft Server");
    assert_eq!(s.version, "1.20.4");
    let off = ServerPinger::offline_status("h", 2);
    assert!(!off.is_online);
}
