use gaia_core::random::{
    draw_below, draw_server, generate_random_server, load_servers, numbers, placeholder_server,
    settle_draw, ServerDraw,
};
use gaia_core::state::AppStateStruct;

fn draw(status: i8, icon: i8) -> ServerDraw {
    ServerDraw { status, port: 8080, max_players: 50, players: 12, number: 4711, icon, id: 99 }
}

#[test]
fn numbers_lists_a_half_open_range() {
    assert_eq!(numbers(0, 5), vec![0, 1, 2, 3, 4]);
    assert_eq!(numbers(5, 8), vec![5, 6, 7]);
    assert_eq!(numbers(-2, 1), vec![-2, -1, 0]);
    assert_eq!(numbers(3, 3), Vec::<i32>::new());
    assert_eq!(numbers(4, 3), Vec::<i32>::new());
}

#[test]
fn draw_settles_on_what_was_picked() {
    assert_eq!(settle_draw(5, Some(7)), 7);
    assert_eq!(settle_draw(5, Some(5)), 5);
    assert_eq!(settle_draw(0, Some(-3)), -3);
    assert_eq!(settle_draw(5, None), 5);
}

#[test]
fn draw_stays_in_its_range() {
    for _ in 0..200 {
        let n = draw_below(5, 8);
        assert!((5..8).contains(&n));
    }
    assert_eq!(draw_below(7, 8), 7);
}

#[test]
fn draw_reaches_every_number() {
    let mut seen = [false; 4];
    for _ in 0..2000 {
        seen[draw_below(0, 4) as usize] = true;
    }
    assert_eq!(seen, [true; 4]);
}

#[test]
fn running_placeholder_keeps_its_players() {
    let server = placeholder_server(draw(1, 0));
    assert_eq!(server.id, 99);
    assert_eq!(server.status, 1);
    assert_eq!(server.name, "Server 4711");
    assert_eq!(server.port, 8080);
    assert_eq!(server.current_player_count, 12);
    assert_eq!(server.max_players, 50);
    assert_eq!(server.description, "Server Description (This value can be anything)");
    assert_eq!(server.local_ip, "0.0.0.0");
    assert_eq!(server.java_allocated_memory, 4096);
    assert_eq!(server.java_startup_line, "");
}

#[test]
fn stopped_placeholder_has_no_players() {
    let server = placeholder_server(draw(0, 0));
    assert_eq!(server.status, 0);
    assert_eq!(server.current_player_count, 0);
    assert_eq!(server.max_players, 50);
}

#[test]
fn icon_decides_picture_and_loader() {
    let expected = [
        (0, "E:/MC_Server_Manager/assets/images/dioxus.png", "vanilla"),
        (1, "E:/MC_Server_Manager/assets/images/pack.webp", "vanilla"),
        (2, "E:/MC_Server_Manager/assets/images/fabric.png", "fabric"),
        (3, "E:/MC_Server_Manager/assets/images/forge.jpg", "forge"),
        (4, "E:/MC_Server_Manager/assets/images/neoforge.png", "neoforge"),
        (5, "E:/MC_Server_Manager/assets/images/dioxus.png", "vanilla"),
        (-1, "E:/MC_Server_Manager/assets/images/dioxus.png", "vanilla"),
    ];
    for (icon, picture, loader) in expected {
        let server = placeholder_server(draw(1, icon));
        assert_eq!(server.icon_path, picture);
        assert_eq!(server.server_type, loader);
    }
}

#[test]
fn name_of_the_first_placeholder_number() {
    let mut first = draw(1, 0);
    first.number = 0;
    assert_eq!(placeholder_server(first).name, "Server 0");
}

#[test]
fn draws_are_valid() {
    for _ in 0..5 {
        let draw = draw_server();
        assert!(draw.status == 0 || draw.status == 1);
        assert!(draw.port < 65535);
        assert!((5..100).contains(&draw.max_players));
        assert!((0..draw.max_players).contains(&draw.players));
        assert!((0..999999).contains(&draw.number));
        assert!((0..5).contains(&draw.icon));
        assert_eq!((draw.id >> 76) & 0xf, 4);
        assert_eq!((draw.id >> 62) & 0x3, 2);
    }
}

#[test]
fn generated_server_is_a_placeholder() {
    for _ in 0..5 {
        let server = generate_random_server();
        assert!(server.status == 0 || server.status == 1);
        assert!((5..100).contains(&server.max_players));
        assert!((0..server.max_players).contains(&server.current_player_count));
        if server.status == 0 {
            assert_eq!(server.current_player_count, 0);
        }
        let number: i32 = server.name.strip_prefix("Server ").unwrap().parse().unwrap();
        assert!((0..999999).contains(&number));
        assert!(server.icon_path.starts_with("E:/MC_Server_Manager/assets/images/"));
        assert!(["vanilla", "fabric", "forge", "neoforge"].contains(&server.server_type.as_str()));
        assert_eq!(server.path, "path");
        assert_ne!(server.id, 0);
    }
}

#[test]
fn loading_appends_one_server() {
    let mut state = AppStateStruct::default();
    state.selected_panel = "p".to_string();
    load_servers(&mut state);
    assert_eq!(state.servers.len(), 1);
    let first = state.servers[0].id;
    load_servers(&mut state);
    assert_eq!(state.servers.len(), 2);
    assert_eq!(state.servers[0].id, first);
    assert_ne!(state.servers[1].id, first);
    assert_eq!(state.selected_panel, "p");
    assert!(state.selected_server.is_none());
}
