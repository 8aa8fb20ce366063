use gaia_core::provision::{
    configure_server, create_server, init, plan_directory, startup_line, BrokenSymlinkRule,
    CopyOptions, DepthLimit, DestinationRule, ProvisionStep, SetupStep, SymlinkRule,
};
use gaia_core::server::ServerStruct;

fn request() -> ServerStruct {
    let mut server = ServerStruct::default();
    server.name = "Survival".to_string();
    server.description = "The long-running world".to_string();
    server.port = 25570;
    server.path = "servers/survival".to_string();
    server.auto_start = true;
    server.force_save_on_stop = false;
    server.java_allocated_memory = 2048;
    server.max_players = 64;
    server.current_player_count = 7;
    server
}

#[test]
fn startup_line_spells_memory_and_archive() {
    assert_eq!(
        startup_line(4096, "servers/a/server.jar"),
        "java -Xmx4096M -Xms256M -jar servers/a/server.jar nogui"
    );
}

#[test]
fn startup_line_keeps_the_sign_of_the_memory() {
    assert_eq!(startup_line(-1, "x"), "java -Xmx-1M -Xms256M -jar x nogui");
    assert_eq!(startup_line(0, ""), "java -Xmx0M -Xms256M -jar  nogui");
}

#[test]
fn existing_directory_is_left_alone() {
    assert!(plan_directory("template", "servers/a", true).is_empty());
}

#[test]
fn missing_directory_is_created_then_filled() {
    let steps = plan_directory("template", "servers/a", false);
    assert_eq!(
        steps,
        vec![
            ProvisionStep::CreateDirectories { path: "servers/a".to_string() },
            ProvisionStep::CopyDirectory {
                source: "template".to_string(),
                destination: "servers/a".to_string(),
                options: CopyOptions {
                    destination_rule: DestinationRule::AllowEmpty,
                    depth_limit: DepthLimit::Unlimited,
                    symlinks: SymlinkRule::Keep,
                    broken_symlinks: BrokenSymlinkRule::Keep,
                },
            },
        ]
    );
}

#[test]
fn configured_record_takes_the_request_and_marks_the_unknown() {
    let record = configure_server(
        &request(),
        7,
        "servers/survival/server.jar".to_string(),
        "servers/survival/server-icon.png".to_string(),
    );
    assert_eq!(record.id, 7);
    assert_eq!(record.status, 0);
    assert_eq!(record.name, "Survival");
    assert_eq!(record.description, "The long-running world");
    assert_eq!(record.port, 25570);
    assert_eq!(record.public_ip, "0.0.0.0");
    assert_eq!(record.local_ip, "0.0.0.0");
    assert_eq!(record.path, "servers/survival");
    assert_eq!(record.icon_path, "servers/survival/server-icon.png");
    assert_eq!(record.server_type, "unknown");
    assert_eq!(record.server_jar_path, "servers/survival/server.jar");
    assert_eq!(record.minecraft_version, "unknown");
    assert_eq!(record.server_version, "unknown");
    assert_eq!(record.creation_date, "unkown");
    assert!(record.auto_start);
    assert!(!record.force_save_on_stop);
    assert_eq!(record.java_path, "unknown");
    assert_eq!(record.java_allocated_memory, 2048);
    assert_eq!(
        record.java_startup_line,
        "java -Xmx2048M -Xms256M -jar servers/survival/server.jar nogui"
    );
    assert_eq!(record.current_player_count, 0);
    assert_eq!(record.max_players, 20);
}

#[test]
fn create_server_plans_the_copy_and_builds_the_record() {
    let provision = create_server("template", &request(), false);
    assert_eq!(provision.steps.len(), 2);
    assert_eq!(provision.steps, plan_directory("template", "servers/survival", false));
    assert_eq!(provision.reply, "Success");
    let jar = std::path::Path::new("servers/survival").join("server.jar");
    let icon = std::path::Path::new("servers/survival").join("server-icon.png");
    assert_eq!(provision.record.server_jar_path, jar.to_str().unwrap());
    assert_eq!(provision.record.icon_path, icon.to_str().unwrap());
    assert_ne!(provision.record.server_jar_path, "servers/survival");
    assert_eq!(
        provision.record.java_startup_line,
        format!("java -Xmx2048M -Xms256M -jar {} nogui", jar.to_str().unwrap())
    );
    assert_eq!(provision.record.name, "Survival");
    assert_eq!(provision.record.max_players, 20);
}

#[test]
fn create_server_twice_copies_nothing_the_second_time() {
    let first = create_server("template", &request(), false);
    let second = create_server("template", &request(), true);
    assert!(!first.steps.is_empty());
    assert!(second.steps.is_empty());
    assert_eq!(second.reply, "Success");
    assert_eq!(first.record.path, second.record.path);
}

#[test]
fn created_servers_get_random_identifiers() {
    let first = create_server("template", &request(), true).record.id;
    let second = create_server("template", &request(), true).record.id;
    assert_ne!(first, 0);
    assert_ne!(first, second);
    assert_eq!((first >> 76) & 0xf, 4);
    assert_eq!((first >> 62) & 0x3, 2);
    assert_eq!((second >> 76) & 0xf, 4);
    assert_eq!((second >> 62) & 0x3, 2);
}

#[test]
fn first_start_creates_directories_and_settings() {
    assert_eq!(
        init(false, false),
        vec![
            SetupStep::CreateAppDirectory,
            SetupStep::CreateDataDirectory,
            SetupStep::WriteDefaultConfig,
        ]
    );
}

#[test]
fn later_start_does_nothing() {
    assert_eq!(init(true, true), Vec::<SetupStep>::new());
}

#[test]
fn missing_settings_are_written_into_an_existing_directory() {
    assert_eq!(init(true, false), vec![SetupStep::WriteDefaultConfig]);
}

#[test]
fn missing_directory_alone_is_created() {
    assert_eq!(
        init(false, true),
        vec![SetupStep::CreateAppDirectory, SetupStep::CreateDataDirectory]
    );
}
