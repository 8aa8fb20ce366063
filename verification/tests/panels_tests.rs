use gaia_core::panels::{
    address_label, create_panel_view, is_selected_server, is_server_panel, list_entry_name,
    list_players_label, list_status_label, online_players_label, platform_label,
    player_count_label, selected_server_mark, server_actions, server_panel_name,
    status_chip_label, sub_panel_name, sub_panel_of, sub_panel_tabs, CreatePanelView,
    ServerAction, SubPanel, CONFIGURE_NEW_SERVER, CREATE_SERVER_PANEL, DASHBOARD,
    SELECT_SERVER_TYPE, SERVER_PANEL_PREFIX,
};

const ID: u128 = 0x550e8400_e29b_41d4_a716_446655440000;
const ID_TEXT: &str = "550e8400-e29b-41d4-a716-446655440000";

#[test]
fn panel_names() {
    assert_eq!(CREATE_SERVER_PANEL, "create_server");
    assert_eq!(SELECT_SERVER_TYPE, "select_server_type");
    assert_eq!(CONFIGURE_NEW_SERVER, "configure_new_server");
    assert_eq!(SERVER_PANEL_PREFIX, "SERVER:");
    assert_eq!(DASHBOARD, "dashboard");
}

#[test]
fn server_panel_is_told_by_its_prefix() {
    assert!(is_server_panel("SERVER:abc"));
    assert!(is_server_panel("SERVER:"));
    assert!(!is_server_panel("SERVER"));
    assert!(!is_server_panel("server:abc"));
    assert!(!is_server_panel(" SERVER:abc"));
    assert!(!is_server_panel("create_server"));
    assert!(!is_server_panel(""));
}

#[test]
fn create_panel_is_hidden_under_another_panel() {
    assert_eq!(create_panel_view("", "select_server_type"), CreatePanelView::Hidden);
    assert_eq!(create_panel_view("SERVER:x", "configure_new_server"), CreatePanelView::Hidden);
    assert_eq!(create_panel_view("create", "select_server_type"), CreatePanelView::Hidden);
}

#[test]
fn create_panel_follows_the_sub_panel() {
    assert_eq!(
        create_panel_view("create_server", "select_server_type"),
        CreatePanelView::SelectServerType
    );
    assert_eq!(
        create_panel_view("create_server", "configure_new_server"),
        CreatePanelView::ConfigureNewServer
    );
    assert_eq!(create_panel_view("create_server", "dashboard"), CreatePanelView::Unknown);
    assert_eq!(create_panel_view("create_server", ""), CreatePanelView::Unknown);
    assert_eq!(
        create_panel_view("create_server_wizard", "select_server_type"),
        CreatePanelView::SelectServerType
    );
}

#[test]
fn sub_panels_are_found_by_name() {
    assert_eq!(sub_panel_of("dashboard"), Some(SubPanel::Dashboard));
    assert_eq!(sub_panel_of("players"), Some(SubPanel::Players));
    assert_eq!(sub_panel_of("backups"), Some(SubPanel::Backups));
    assert_eq!(sub_panel_of("scheduler"), Some(SubPanel::Scheduler));
    assert_eq!(sub_panel_of("maps"), Some(SubPanel::Maps));
    assert_eq!(sub_panel_of("config_editor"), Some(SubPanel::ConfigEditor));
    assert_eq!(sub_panel_of("settings"), Some(SubPanel::Settings));
    assert_eq!(sub_panel_of("Dashboard"), None);
    assert_eq!(sub_panel_of("select_server_type"), None);
    assert_eq!(sub_panel_of(""), None);
}

#[test]
fn every_sub_panel_is_found_by_its_own_name() {
    let all = [
        SubPanel::Dashboard,
        SubPanel::Players,
        SubPanel::Backups,
        SubPanel::Scheduler,
        SubPanel::Maps,
        SubPanel::ConfigEditor,
        SubPanel::Settings,
    ];
    for panel in all {
        assert_eq!(sub_panel_of(sub_panel_name(panel)), Some(panel));
    }
    assert_eq!(sub_panel_name(SubPanel::ConfigEditor), "config_editor");
}

#[test]
fn maps_have_no_tab() {
    assert_eq!(
        sub_panel_tabs(),
        vec![
            SubPanel::Dashboard,
            SubPanel::Players,
            SubPanel::Backups,
            SubPanel::Scheduler,
            SubPanel::ConfigEditor,
            SubPanel::Settings,
        ]
    );
}

#[test]
fn offline_server_can_only_be_started() {
    assert_eq!(server_actions(0, false), vec![ServerAction::Start]);
    assert_eq!(server_actions(0, true), vec![ServerAction::Start]);
}

#[test]
fn running_server_can_be_stopped_and_more_from_the_menu() {
    assert_eq!(server_actions(1, false), vec![ServerAction::Stop]);
    assert_eq!(
        server_actions(1, true),
        vec![ServerAction::Stop, ServerAction::Terminate, ServerAction::Restart]
    );
    assert_eq!(server_actions(-1, false), vec![ServerAction::Stop]);
    assert_eq!(server_actions(2, false), vec![ServerAction::Stop]);
}

#[test]
fn status_labels() {
    assert_eq!(status_chip_label(0), "Offline");
    assert_eq!(status_chip_label(1), "Online");
    assert_eq!(status_chip_label(2), "Online");
    assert_eq!(list_status_label(1), "online");
    assert_eq!(list_status_label(0), "offline");
    assert_eq!(list_status_label(2), "offline");
}

#[test]
fn address_joins_ip_and_port() {
    assert_eq!(address_label("0.0.0.0", 25565), "0.0.0.0:25565");
    assert_eq!(address_label("192.168.1.20", 0), "192.168.1.20:0");
    assert_eq!(address_label("", 65535), ":65535");
}

#[test]
fn player_counts() {
    assert_eq!(player_count_label(3, 20), "3/20 Players");
    assert_eq!(player_count_label(0, 0), "0/0 Players");
    assert_eq!(player_count_label(-1, 100), "-1/100 Players");
    assert_eq!(online_players_label(3, 20), "Online Players 3/20");
    assert_eq!(online_players_label(0, 99), "Online Players 0/99");
}

#[test]
fn list_shows_players_of_running_servers_only() {
    assert_eq!(list_players_label(1, 3, 20), "3/20 Players");
    assert_eq!(list_players_label(0, 3, 20), "");
    assert_eq!(list_players_label(2, 3, 20), "");
}

#[test]
fn platform_joins_versions_and_kind() {
    assert_eq!(platform_label("1.21.10", "vanilla", "1.21.10"), "1.21.10 | vanilla 1.21.10");
    assert_eq!(platform_label("", "", ""), " |  ");
}

#[test]
fn panel_name_spells_the_identifier_in_groups() {
    assert_eq!(server_panel_name(ID), format!("SERVER:{}", ID_TEXT));
    assert_eq!(server_panel_name(0), "SERVER:00000000-0000-0000-0000-000000000000");
    assert_eq!(server_panel_name(u128::MAX), "SERVER:ffffffff-ffff-ffff-ffff-ffffffffffff");
    assert_eq!(
        server_panel_name(0x0123456789abcdef_fedcba9876543210),
        "SERVER:01234567-89ab-cdef-fedc-ba9876543210"
    );
}

#[test]
fn list_entry_name_spells_the_identifier() {
    assert_eq!(list_entry_name(ID), format!("view_server_{}", ID_TEXT));
    assert_eq!(list_entry_name(1), "view_server_00000000-0000-0000-0000-000000000001");
}

#[test]
fn panel_name_marks_its_server_and_no_other() {
    let name = server_panel_name(ID);
    assert!(is_selected_server(&name, ID));
    assert!(!is_selected_server(&name, ID + 1));
    assert!(!is_selected_server(&name, 0));
    assert_eq!(selected_server_mark(&name, ID), Some(true));
    assert_eq!(selected_server_mark(&name, ID - 1), Some(false));
}

#[test]
fn other_panels_mark_no_server() {
    assert!(!is_selected_server("create_server", ID));
    assert!(!is_selected_server("", ID));
    assert_eq!(selected_server_mark("create_server", ID), Some(false));
    assert_eq!(selected_server_mark(ID_TEXT, ID), Some(false));
}

#[test]
fn identifier_is_read_in_any_of_its_forms() {
    assert_eq!(
        selected_server_mark("SERVER:550E8400-E29B-41D4-A716-446655440000", ID),
        Some(true)
    );
    assert_eq!(selected_server_mark("SERVER:550e8400e29b41d4a716446655440000", ID), Some(true));
    assert_eq!(
        selected_server_mark("SERVER:{550e8400-e29b-41d4-a716-446655440000}", ID),
        Some(true)
    );
}

#[test]
fn every_occurrence_of_the_prefix_is_taken_out() {
    let doubled = format!("SERVER:SERVER:{}", ID_TEXT);
    assert_eq!(selected_server_mark(&doubled, ID), Some(true));
    let inside = "SERVER:550e8400-e29b-SERVER:41d4-a716-446655440000";
    assert_eq!(selected_server_mark(inside, ID), Some(true));
}

#[test]
fn server_panel_without_identifier_has_no_mark() {
    assert_eq!(selected_server_mark("SERVER:", ID), None);
    assert_eq!(selected_server_mark("SERVER:not-an-identifier", ID), None);
    assert_eq!(selected_server_mark("SERVER:550e8400", ID), None);
}
