//! What the panels show: which panel a name stands for, which actions a
//! server offers, and the texts on its chips and list entry.

use vstd::prelude::*;
use crate::ident::{parse_uuid, uuid_parse, uuid_text, uuid_to_string};
use crate::text::{
    decimal, lemma_without_absent, push_decimal, remove_all, same_text, starts_with, without,
};

verus! {

/// The panel in which a server is created.
pub const CREATE_SERVER_PANEL: &'static str = "create_server";

/// The first step of creating a server: choosing its kind.
pub const SELECT_SERVER_TYPE: &'static str = "select_server_type";

/// The second step of creating a server: filling in its settings.
pub const CONFIGURE_NEW_SERVER: &'static str = "configure_new_server";

/// What the name of a server's panel begins with; the server's identifier follows.
pub const SERVER_PANEL_PREFIX: &'static str = "SERVER:";

/// The sub-panel that a server's panel opens with.
pub const DASHBOARD: &'static str = "dashboard";

/// Whether `selected_panel` names the panel of a server.
pub open spec fn names_server_panel(selected_panel: Seq<char>) -> bool {
    SERVER_PANEL_PREFIX@.is_prefix_of(selected_panel)
}

/// Tells whether the panel of a server is to be shown.
pub fn is_server_panel(selected_panel: &str) -> (r: bool)
    ensures
        r == names_server_panel(selected_panel@),
{
    starts_with(selected_panel, SERVER_PANEL_PREFIX)
}

/// What the panel for creating a server shows.
#[derive(Clone, Copy, PartialEq, Eq, Debug)]
pub enum CreatePanelView {
    /// Another panel is selected: nothing is shown.
    Hidden,
    /// The list of server kinds to choose from.
    SelectServerType,
    /// The settings of the server to be created.
    ConfigureNewServer,
    /// The sub-panel is none of the two steps: a notice that this is an error.
    Unknown,
}

/// What the panel for creating a server shows for the selected panel and
/// sub-panel.
pub open spec fn create_panel_for(
    selected_panel: Seq<char>,
    selected_sub_panel: Seq<char>,
) -> CreatePanelView {
    if !CREATE_SERVER_PANEL@.is_prefix_of(selected_panel) {
        CreatePanelView::Hidden
    } else if selected_sub_panel == SELECT_SERVER_TYPE@ {
        CreatePanelView::SelectServerType
    } else if selected_sub_panel == CONFIGURE_NEW_SERVER@ {
        CreatePanelView::ConfigureNewServer
    } else {
        CreatePanelView::Unknown
    }
}

/// Decides what the panel for creating a server shows.
pub fn create_panel_view(selected_panel: &str, selected_sub_panel: &str) -> (r: CreatePanelView)
    ensures
        r == create_panel_for(selected_panel@, selected_sub_panel@),
{
    if !starts_with(selected_panel, CREATE_SERVER_PANEL) {
        CreatePanelView::Hidden
    } else if same_text(selected_sub_panel, SELECT_SERVER_TYPE) {
        CreatePanelView::SelectServerType
    } else if same_text(selected_sub_panel, CONFIGURE_NEW_SERVER) {
        CreatePanelView::ConfigureNewServer
    } else {
        CreatePanelView::Unknown
    }
}

/// The sub-panels of a server's panel.
#[derive(Clone, Copy, PartialEq, Eq, Debug)]
pub enum SubPanel {
    Dashboard,
    Players,
    Backups,
    Scheduler,
    Maps,
    ConfigEditor,
    Settings,
}

/// The name under which a sub-panel is selected.
pub open spec fn sub_panel_text(panel: SubPanel) -> Seq<char> {
    match panel {
        SubPanel::Dashboard => "dashboard"@,
        SubPanel::Players => "players"@,
        SubPanel::Backups => "backups"@,
        SubPanel::Scheduler => "scheduler"@,
        SubPanel::Maps => "maps"@,
        SubPanel::ConfigEditor => "config_editor"@,
        SubPanel::Settings => "settings"@,
    }
}

/// The sub-panel that a name selects, if it selects one.
pub open spec fn sub_panel_for(name: Seq<char>) -> Option<SubPanel> {
    if name == "dashboard"@ {
        Some(SubPanel::Dashboard)
    } else if name == "players"@ {
        Some(SubPanel::Players)
    } else if name == "backups"@ {
        Some(SubPanel::Backups)
    } else if name == "scheduler"@ {
        Some(SubPanel::Scheduler)
    } else if name == "maps"@ {
        Some(SubPanel::Maps)
    } else if name == "config_editor"@ {
        Some(SubPanel::ConfigEditor)
    } else if name == "settings"@ {
        Some(SubPanel::Settings)
    } else {
        None
    }
}

/// The sub-panels that have a tab, in the order of the tabs. The maps have
/// none.
pub open spec fn tab_order() -> Seq<SubPanel> {
    seq![
        SubPanel::Dashboard,
        SubPanel::Players,
        SubPanel::Backups,
        SubPanel::Scheduler,
        SubPanel::ConfigEditor,
        SubPanel::Settings,
    ]
}

/// Gives the name under which a sub-panel is selected.
pub fn sub_panel_name(panel: SubPanel) -> (r: &'static str)
    ensures
        r@ == sub_panel_text(panel),
{
    match panel {
        SubPanel::Dashboard => "dashboard",
        SubPanel::Players => "players",
        SubPanel::Backups => "backups",
        SubPanel::Scheduler => "scheduler",
        SubPanel::Maps => "maps",
        SubPanel::ConfigEditor => "config_editor",
        SubPanel::Settings => "settings",
    }
}

/// Finds the sub-panel that `name` selects.
pub fn sub_panel_of(name: &str) -> (r: Option<SubPanel>)
    ensures
        r == sub_panel_for(name@),
{
    if same_text(name, "dashboard") {
        Some(SubPanel::Dashboard)
    } else if same_text(name, "players") {
        Some(SubPanel::Players)
    } else if same_text(name, "backups") {
        Some(SubPanel::Backups)
    } else if same_text(name, "scheduler") {
        Some(SubPanel::Scheduler)
    } else if same_text(name, "maps") {
        Some(SubPanel::Maps)
    } else if same_text(name, "config_editor") {
        Some(SubPanel::ConfigEditor)
    } else if same_text(name, "settings") {
        Some(SubPanel::Settings)
    } else {
        None
    }
}

/// Lists the sub-panels that have a tab, in the order of the tabs.
pub fn sub_panel_tabs() -> (r: Vec<SubPanel>)
    ensures
        r@ == tab_order(),
{
    let mut tabs: Vec<SubPanel> = Vec::new();
    tabs.push(SubPanel::Dashboard);
    tabs.push(SubPanel::Players);
    tabs.push(SubPanel::Backups);
    tabs.push(SubPanel::Scheduler);
    tabs.push(SubPanel::ConfigEditor);
    tabs.push(SubPanel::Settings);
    assert(tabs@ =~= tab_order());
    tabs
}

/// Every sub-panel is selected by its own name and by no other sub-panel's.
pub proof fn lemma_sub_panel_names_are_distinct(panel: SubPanel)
    ensures
        sub_panel_for(sub_panel_text(panel)) == Some(panel),
{
    reveal_strlit("dashboard");
    reveal_strlit("players");
    reveal_strlit("backups");
    reveal_strlit("scheduler");
    reveal_strlit("maps");
    reveal_strlit("config_editor");
    reveal_strlit("settings");
    assert("dashboard"@.len() == 9 && "scheduler"@.len() == 9);
    assert("dashboard"@[0] == 'd' && "scheduler"@[0] == 's');
    assert("players"@.len() == 7 && "backups"@.len() == 7);
    assert("players"@[0] == 'p' && "backups"@[0] == 'b');
    assert("maps"@.len() == 4 && "config_editor"@.len() == 13 && "settings"@.len() == 8);
}

/// What can be done with a server.
#[derive(Clone, Copy, PartialEq, Eq, Debug)]
pub enum ServerAction {
    Start,
    Stop,
    Terminate,
    Restart,
}

/// The actions that a server offers: one that is off can only be started;
/// any other can be stopped, and while its menu is open also terminated and
/// restarted.
pub open spec fn actions_for(status: int, menu_opened: bool) -> Seq<ServerAction> {
    if status == 0 {
        seq![ServerAction::Start]
    } else if menu_opened {
        seq![ServerAction::Stop, ServerAction::Terminate, ServerAction::Restart]
    } else {
        seq![ServerAction::Stop]
    }
}

/// Lists the actions that a server with the status `status` offers.
pub fn server_actions(status: i8, menu_opened: bool) -> (r: Vec<ServerAction>)
    ensures
        r@ == actions_for(status as int, menu_opened),
{
    let mut actions: Vec<ServerAction> = Vec::new();
    if status == 0 {
        actions.push(ServerAction::Start);
    } else {
        actions.push(ServerAction::Stop);
        if menu_opened {
            actions.push(ServerAction::Terminate);
            actions.push(ServerAction::Restart);
        }
    }
    assert(actions@ =~= actions_for(status as int, menu_opened));
    actions
}

/// The text on the status chip: only the status 0 reads "Offline".
pub open spec fn status_chip_text(status: int) -> Seq<char> {
    if status == 0 {
        "Offline"@
    } else {
        "Online"@
    }
}

/// The status in the server list: only the status 1 reads "online".
pub open spec fn list_status_text(status: int) -> Seq<char> {
    if status == 1 {
        "online"@
    } else {
        "offline"@
    }
}

/// The address of a server: its local address, a colon, its port.
pub open spec fn address_text(local_ip: Seq<char>, port: int) -> Seq<char> {
    local_ip + ":"@ + decimal(port)
}

/// How many players are present, out of how many: "3/20 Players".
pub open spec fn player_count_text(current: int, maximum: int) -> Seq<char> {
    decimal(current) + "/"@ + decimal(maximum) + " Players"@
}

/// The players in the server list: counted for a server with the status 1,
/// empty for any other.
pub open spec fn list_players_text(status: int, current: int, maximum: int) -> Seq<char> {
    if status == 1 {
        player_count_text(current, maximum)
    } else {
        Seq::empty()
    }
}

/// The heading of the list of players on the dashboard.
pub open spec fn online_players_text(current: int, maximum: int) -> Seq<char> {
    "Online Players "@ + decimal(current) + "/"@ + decimal(maximum)
}

/// The platform of a server: the game version, a bar, the kind of server
/// and the version of the server software.
pub open spec fn platform_text(
    minecraft_version: Seq<char>,
    server_type: Seq<char>,
    server_version: Seq<char>,
) -> Seq<char> {
    minecraft_version + " | "@ + server_type + " "@ + server_version
}

/// The name of the list entry of the server with the identifier `id`.
pub open spec fn list_entry_text(id: u128) -> Seq<char> {
    "view_server_"@ + uuid_text(id)
}

/// Gives the text on the status chip.
pub fn status_chip_label(status: i8) -> (r: &'static str)
    ensures
        r@ == status_chip_text(status as int),
{
    if status == 0 {
        "Offline"
    } else {
        "Online"
    }
}

/// Gives the status that the server list shows.
pub fn list_status_label(status: i8) -> (r: &'static str)
    ensures
        r@ == list_status_text(status as int),
{
    if status == 1 {
        "online"
    } else {
        "offline"
    }
}

/// Builds the address shown on the address chip.
pub fn address_label(local_ip: &str, port: u16) -> (r: String)
    ensures
        r@ == address_text(local_ip@, port as int),
{
    let mut label = local_ip.to_owned();
    label.append(":");
    push_decimal(&mut label, port as i64);
    label
}

/// Builds the text on the player chip.
pub fn player_count_label(current: i32, maximum: i32) -> (r: String)
    ensures
        r@ == player_count_text(current as int, maximum as int),
{
    let mut label = String::new();
    push_decimal(&mut label, current as i64);
    label.append("/");
    push_decimal(&mut label, maximum as i64);
    label.append(" Players");
    assert(label@ =~= player_count_text(current as int, maximum as int));
    label
}

/// Builds the players shown in the server list.
pub fn list_players_label(status: i8, current: i32, maximum: i32) -> (r: String)
    ensures
        r@ == list_players_text(status as int, current as int, maximum as int),
{
    if status == 1 {
        player_count_label(current, maximum)
    } else {
        String::new()
    }
}

/// Builds the heading of the list of players on the dashboard.
pub fn online_players_label(current: i32, maximum: i32) -> (r: String)
    ensures
        r@ == online_players_text(current as int, maximum as int),
{
    let mut label = "Online Players ".to_owned();
    push_decimal(&mut label, current as i64);
    label.append("/");
    push_decimal(&mut label, maximum as i64);
    label
}

/// Builds the text on the platform chip.
pub fn platform_label(minecraft_version: &str, server_type: &str, server_version: &str) -> (r:
    String)
    ensures
        r@ == platform_text(minecraft_version@, server_type@, server_version@),
{
    let mut label = minecraft_version.to_owned();
    label.append(" | ");
    label.append(server_type);
    label.append(" ");
    label.append(server_version);
    label
}

/// Builds the name of the list entry of a server.
pub fn list_entry_name(id: u128) -> (r: String)
    ensures
        r@ == list_entry_text(id),
{
    let mut name = "view_server_".to_owned();
    let text = uuid_to_string(id);
    name.append(text.as_str());
    name
}

/// The name of the panel that shows the server with the identifier `id`.
pub open spec fn server_panel_text(id: u128) -> Seq<char> {
    SERVER_PANEL_PREFIX@ + uuid_text(id)
}

/// The identifier that the name of a server's panel holds: what is left of
/// the name without the prefix of such names, read as an identifier.
pub open spec fn panel_server_id(selected_panel: Seq<char>) -> Option<u128> {
    uuid_parse(without(selected_panel, SERVER_PANEL_PREFIX@))
}

/// Whether the list entry of the server with the identifier `id` is marked
/// as selected: the selected panel is the panel of a server, and the
/// identifier in its name is `id`.
pub open spec fn marks_selected(selected_panel: Seq<char>, id: u128) -> bool {
    names_server_panel(selected_panel) && panel_server_id(selected_panel) == Some(id)
}

/// The name of a server's panel begins with the prefix of such names, and
/// what is left without the prefix is the text of the server's identifier.
pub proof fn lemma_panel_name_holds_id(id: u128)
    ensures
        names_server_panel(server_panel_text(id)),
        without(server_panel_text(id), SERVER_PANEL_PREFIX@) == uuid_text(id),
{
    reveal_strlit("SERVER:");
    let prefix = SERVER_PANEL_PREFIX@;
    let name = server_panel_text(id);
    let text = uuid_text(id);
    assert(name.subrange(0, prefix.len() as int) =~= prefix);
    assert(name.skip(prefix.len() as int) =~= text);
    assert(prefix[0] == 'S');
    lemma_without_absent(text, prefix);
}

/// Builds the name of the panel that shows the server with the identifier
/// `id`. The list entry of that server, and of no server with another
/// identifier, is marked as selected while the panel has this name.
pub fn server_panel_name(id: u128) -> (r: String)
    ensures
        r@ == server_panel_text(id),
        forall|other: u128| marks_selected(r@, other) <==> other == id,
{
    let mut name = SERVER_PANEL_PREFIX.to_owned();
    let text = uuid_to_string(id);
    name.append(text.as_str());
    proof {
        lemma_panel_name_holds_id(id);
    }
    name
}

/// Tells whether the list entry of the server `id` is marked as selected.
/// The name of a server's panel must hold an identifier.
pub fn is_selected_server(selected_panel: &str, id: u128) -> (r: bool)
    requires
        names_server_panel(selected_panel@) ==> panel_server_id(selected_panel@) is Some,
    ensures
        r == marks_selected(selected_panel@, id),
{
    if !starts_with(selected_panel, SERVER_PANEL_PREFIX) {
        return false;
    }
    proof {
        reveal_strlit("SERVER:");
    }
    let rest = remove_all(selected_panel, SERVER_PANEL_PREFIX);
    match parse_uuid(rest.as_str()) {
        Some(found) => found == id,
        None => false,
    }
}

/// Tells whether the list entry of the server `id` is marked as selected,
/// for any panel name: `None` where the name is that of a server's panel and
/// holds no identifier.
pub fn selected_server_mark(selected_panel: &str, id: u128) -> (r: Option<bool>)
    ensures
        r == if names_server_panel(selected_panel@) && panel_server_id(selected_panel@) is None {
            None
        } else {
            Some(marks_selected(selected_panel@, id))
        },
{
    if starts_with(selected_panel, SERVER_PANEL_PREFIX) {
        proof {
            reveal_strlit("SERVER:");
        }
        let rest = remove_all(selected_panel, SERVER_PANEL_PREFIX);
        if parse_uuid(rest.as_str()).is_none() {
            return None;
        }
    }
    Some(is_selected_server(selected_panel, id))
}

} // verus!
