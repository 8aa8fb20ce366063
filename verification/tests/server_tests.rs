use gaia_core::ident::NIL_ID;
use gaia_core::server::{ServerStruct, STATUS_OFFLINE, STATUS_ONLINE};

#[test]
fn default_server_is_an_offline_vanilla_server() {
    let server = ServerStruct::default();
    assert_eq!(server.id, NIL_ID);
    assert_eq!(server.id, 0);
    assert_eq!(server.status, STATUS_OFFLINE);
    assert_eq!(server.name, "");
    assert_eq!(server.description, "Server Description (This value can be anything)");
    assert_eq!(server.port, 25565);
    assert_eq!(server.public_ip, "0.0.0.0");
    assert_eq!(server.local_ip, "0.0.0.0");
    assert_eq!(server.path, "path");
    assert_eq!(server.icon_path, "path");
    assert_eq!(server.server_type, "vanilla");
    assert_eq!(server.server_jar_path, "path");
    assert_eq!(server.minecraft_version, "1.21.10");
    assert_eq!(server.server_version, "1.21.10");
    assert_eq!(server.creation_date, "today");
    assert!(!server.auto_start);
    assert!(server.force_save_on_stop);
    assert_eq!(server.java_path, "path");
    assert_eq!(server.java_allocated_memory, 4096);
    assert_eq!(server.java_startup_line, "");
    assert_eq!(server.current_player_count, 0);
    assert_eq!(server.max_players, 20);
}

#[test]
fn status_values() {
    assert_eq!(STATUS_OFFLINE, 0);
    assert_eq!(STATUS_ONLINE, 1);
}

#[test]
fn clone_keeps_every_field() {
    let mut server = ServerStruct::default();
    server.id = 42;
    server.status = STATUS_ONLINE;
    server.name = "Creative".to_string();
    server.port = 1;
    server.java_startup_line = "java".to_string();
    server.current_player_count = 3;
    let copy = server.clone();
    assert_eq!(format!("{:?}", copy), format!("{:?}", server));
    assert_eq!(copy.id, 42);
    assert_eq!(copy.name, "Creative");
    assert_eq!(copy.java_startup_line, "java");
}
