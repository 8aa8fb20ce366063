//! The navigation state of the interface: which panel and sub-panel are
//! shown, which server is selected, and which servers are known.

use vstd::prelude::*;
use crate::panels::{
    marks_selected, server_panel_name, server_panel_text, CREATE_SERVER_PANEL, DASHBOARD,
    SELECT_SERVER_TYPE,
};
use crate::server::{ServerStruct, ServerView};
use crate::text::text_view;

verus! {

/// What the user has entered so far for a server that is being created.
#[derive(Debug)]
pub struct ServerCreationStruct {
    /// One of "new", "import" and "clone".
    pub creation_type: String,
    pub original_path: Option<String>,
    pub destination_path: Option<String>,
    pub icon_path: Option<String>,
    pub name: String,
    pub description: String,
    pub server_type: String,
    pub port: u16,
    pub java_allocated_memory: i64,
    pub max_players: i32,
    pub auto_accept_eula: bool,
}

/// What a [`ServerCreationStruct`] says.
pub struct ServerCreationView {
    pub creation_type: Seq<char>,
    pub original_path: Option<Seq<char>>,
    pub destination_path: Option<Seq<char>>,
    pub icon_path: Option<Seq<char>>,
    pub name: Seq<char>,
    pub description: Seq<char>,
    pub server_type: Seq<char>,
    pub port: int,
    pub java_allocated_memory: int,
    pub max_players: int,
    pub auto_accept_eula: bool,
}

impl View for ServerCreationStruct {
    type V = ServerCreationView;

    open spec fn view(&self) -> ServerCreationView {
        ServerCreationView {
            creation_type: self.creation_type@,
            original_path: text_view(self.original_path),
            destination_path: text_view(self.destination_path),
            icon_path: text_view(self.icon_path),
            name: self.name@,
            description: self.description@,
            server_type: self.server_type@,
            port: self.port as int,
            java_allocated_memory: self.java_allocated_memory as int,
            max_players: self.max_players as int,
            auto_accept_eula: self.auto_accept_eula,
        }
    }
}

/// The form for a new server before the user has touched it: a new vanilla
/// server on the usual port, with one gigabyte of memory and room for twenty
/// players, no paths chosen and the licence not accepted.
pub open spec fn default_server_creation() -> ServerCreationView {
    ServerCreationView {
        creation_type: "new"@,
        original_path: None,
        destination_path: None,
        icon_path: None,
        name: "server name"@,
        description: ""@,
        server_type: "vanilla"@,
        port: 25565,
        java_allocated_memory: 1024,
        max_players: 20,
        auto_accept_eula: false,
    }
}

impl Default for ServerCreationStruct {
    fn default() -> (r: ServerCreationStruct)
        ensures
            r@ == default_server_creation(),
    {
        ServerCreationStruct {
            creation_type: "new".to_owned(),
            original_path: None,
            destination_path: None,
            icon_path: None,
            name: "server name".to_owned(),
            description: "".to_owned(),
            server_type: "vanilla".to_owned(),
            port: 25565,
            java_allocated_memory: 1024,
            max_players: 20,
            auto_accept_eula: false,
        }
    }
}

fn clone_text(text: &Option<String>) -> (r: Option<String>)
    ensures
        text_view(r) == text_view(*text),
{
    match text {
        Some(t) => Some(t.clone()),
        None => None,
    }
}

impl Clone for ServerCreationStruct {
    fn clone(&self) -> (r: ServerCreationStruct)
        ensures
            r@ == self@,
    {
        ServerCreationStruct {
            creation_type: self.creation_type.clone(),
            original_path: clone_text(&self.original_path),
            destination_path: clone_text(&self.destination_path),
            icon_path: clone_text(&self.icon_path),
            name: self.name.clone(),
            description: self.description.clone(),
            server_type: self.server_type.clone(),
            port: self.port,
            java_allocated_memory: self.java_allocated_memory,
            max_players: self.max_players,
            auto_accept_eula: self.auto_accept_eula,
        }
    }
}

/// The state of the interface.
#[derive(Debug)]
pub struct AppStateStruct {
    pub selected_panel: String,
    pub selected_sub_panel: String,
    pub selected_server: Option<ServerStruct>,
    pub servers: Vec<ServerStruct>,
    pub server_creation_options: Option<ServerCreationStruct>,
}

/// What an [`AppStateStruct`] says.
pub struct AppStateView {
    pub selected_panel: Seq<char>,
    pub selected_sub_panel: Seq<char>,
    pub selected_server: Option<ServerView>,
    pub servers: Seq<ServerView>,
    pub server_creation_options: Option<ServerCreationView>,
}

/// The views of a list of servers, in order.
pub open spec fn servers_view(servers: Seq<ServerStruct>) -> Seq<ServerView> {
    servers.map_values(|server: ServerStruct| server@)
}

/// The view of an optional server.
pub open spec fn server_view(server: Option<ServerStruct>) -> Option<ServerView> {
    match server {
        Some(s) => Some(s@),
        None => None,
    }
}

/// The view of an optional form.
pub open spec fn creation_view(options: Option<ServerCreationStruct>) -> Option<
    ServerCreationView,
> {
    match options {
        Some(o) => Some(o@),
        None => None,
    }
}

impl View for AppStateStruct {
    type V = AppStateView;

    open spec fn view(&self) -> AppStateView {
        AppStateView {
            selected_panel: self.selected_panel@,
            selected_sub_panel: self.selected_sub_panel@,
            selected_server: server_view(self.selected_server),
            servers: servers_view(self.servers@),
            server_creation_options: creation_view(self.server_creation_options),
        }
    }
}

/// The state in which the application starts: no panel, no selection, no
/// servers.
pub open spec fn default_app_state() -> AppStateView {
    AppStateView {
        selected_panel: ""@,
        selected_sub_panel: ""@,
        selected_server: None,
        servers: Seq::empty(),
        server_creation_options: None,
    }
}

impl Default for AppStateStruct {
    fn default() -> (r: AppStateStruct)
        ensures
            r@ == default_app_state(),
    {
        let r = AppStateStruct {
            selected_panel: "".to_owned(),
            selected_sub_panel: "".to_owned(),
            selected_server: None,
            servers: Vec::new(),
            server_creation_options: None,
        };
        assert(servers_view(r.servers@) =~= Seq::empty());
        r
    }
}

/// The place of the first server with the identifier `id`, if there is one.
pub open spec fn position_of_id(servers: Seq<ServerView>, id: u128) -> Option<int>
    decreases servers.len(),
{
    if servers.len() == 0 {
        None
    } else if servers[0].id == id {
        Some(0)
    } else {
        match position_of_id(servers.skip(1), id) {
            Some(i) => Some(i + 1),
            None => None,
        }
    }
}

/// The first server with the identifier `id`, if there is one.
pub open spec fn first_with_id(servers: Seq<ServerView>, id: u128) -> Option<ServerView> {
    match position_of_id(servers, id) {
        Some(i) => Some(servers[i]),
        None => None,
    }
}

/// A place found by [`position_of_id`] lies in the list and holds the
/// identifier, and no earlier place does.
pub proof fn lemma_position_of_id(servers: Seq<ServerView>, id: u128)
    ensures
        match position_of_id(servers, id) {
            Some(i) => {
                &&& 0 <= i < servers.len()
                &&& servers[i].id == id
                &&& forall|j: int| 0 <= j < i ==> servers[j].id != id
            },
            None => forall|j: int| 0 <= j < servers.len() ==> servers[j].id != id,
        },
    decreases servers.len(),
{
    if servers.len() > 0 && servers[0].id != id {
        let rest = servers.skip(1);
        lemma_position_of_id(rest, id);
        match position_of_id(rest, id) {
            Some(i) => {
                assert forall|j: int| 0 <= j < i + 1 implies servers[j].id != id by {
                    if j > 0 {
                        assert(servers[j] == rest[j - 1]);
                    }
                }
                assert(servers[i + 1] == rest[i]);
            },
            None => {
                assert forall|j: int| 0 <= j < servers.len() implies servers[j].id != id by {
                    if j > 0 {
                        assert(servers[j] == rest[j - 1]);
                    }
                }
            },
        }
    }
}

/// The first place that holds the identifier is the one that
/// [`position_of_id`] finds.
pub proof fn lemma_first_place_is_position(servers: Seq<ServerView>, id: u128, i: int)
    requires
        0 <= i < servers.len(),
        servers[i].id == id,
        forall|j: int| 0 <= j < i ==> servers[j].id != id,
    ensures
        position_of_id(servers, id) == Some(i),
{
    lemma_position_of_id(servers, id);
}

/// Finds the first server with the identifier `id` and gives its place.
pub fn find_server(servers: &Vec<ServerStruct>, id: u128) -> (r: Option<usize>)
    ensures
        match r {
            Some(i) => position_of_id(servers_view(servers@), id) == Some(i as int),
            None => position_of_id(servers_view(servers@), id) is None,
        },
{
    let ghost all = servers_view(servers@);
    let mut i: usize = 0;
    while i < servers.len()
        invariant
            i <= servers.len(),
            all == servers_view(servers@),
            forall|j: int| 0 <= j < i ==> all[j].id != id,
        decreases servers.len() - i,
    {
        if servers[i].id == id {
            proof {
                lemma_first_place_is_position(all, id, i as int);
            }
            return Some(i);
        }
        i += 1;
    }
    proof {
        lemma_position_of_id(all, id);
    }
    None
}

/// Forgets the selected server and the form for a new one.
pub fn reset_option_states(state: &mut AppStateStruct)
    ensures
        final(state)@ == (AppStateView {
            selected_server: None,
            server_creation_options: None,
            ..old(state)@
        }),
{
    state.selected_server = None;
    state.server_creation_options = None;
}

/// Shows the panel named `value`. Changing the panel forgets the selected
/// server and the form for a new one.
pub fn set_selected_panel(state: &mut AppStateStruct, value: &str)
    ensures
        final(state)@ == (AppStateView {
            selected_panel: value@,
            selected_server: None,
            server_creation_options: None,
            ..old(state)@
        }),
{
    reset_option_states(state);
    state.selected_panel = value.to_owned();
}

/// Shows the sub-panel named `value`; nothing else changes.
pub fn set_selected_sub_panel(state: &mut AppStateStruct, value: &str)
    ensures
        final(state)@ == (AppStateView { selected_sub_panel: value@, ..old(state)@ }),
{
    state.selected_sub_panel = value.to_owned();
}

/// Replaces the form for a new server; nothing else changes.
pub fn set_server_creation_options(state: &mut AppStateStruct, value: Option<ServerCreationStruct>)
    ensures
        final(state)@ == (AppStateView {
            server_creation_options: creation_view(value),
            ..old(state)@
        }),
{
    state.server_creation_options = value;
}

/// Selects the first of the known servers that has the identifier `value`.
/// A server with that identifier must be known.
pub fn set_selected_server(state: &mut AppStateStruct, value: u128)
    requires
        position_of_id(old(state)@.servers, value) is Some,
    ensures
        final(state)@ == (AppStateView {
            selected_server: first_with_id(old(state)@.servers, value),
            ..old(state)@
        }),
{
    let found = find_server(&state.servers, value);
    proof {
        lemma_position_of_id(servers_view(state.servers@), value);
    }
    match found {
        Some(i) => {
            let server = state.servers[i].clone();
            assert(servers_view(state.servers@)[i as int] == state.servers@[i as int]@);
            state.selected_server = Some(server);
        },
        None => {},
    }
}

/// Brings the panel in line with the selection: where a server is selected,
/// its panel is shown; where none is, nothing changes.
pub fn show_selected_server(state: &mut AppStateStruct)
    ensures
        final(state)@ == (AppStateView {
            selected_panel: match old(state)@.selected_server {
                Some(server) => server_panel_text(server.id),
                None => old(state)@.selected_panel,
            },
            ..old(state)@
        }),
{
    let id = match &state.selected_server {
        Some(server) => Some(server.id),
        None => None,
    };
    match id {
        Some(id) => {
            state.selected_panel = server_panel_name(id);
        },
        None => {},
    }
}

/// Opens the panel of the server with the identifier `id`, on its dashboard,
/// and selects that server. The selection is made last, so that changing the
/// panel does not undo it. A server with that identifier must be known.
pub fn open_server(state: &mut AppStateStruct, id: u128)
    requires
        position_of_id(old(state)@.servers, id) is Some,
    ensures
        final(state)@ == (AppStateView {
            selected_panel: server_panel_text(id),
            selected_sub_panel: DASHBOARD@,
            selected_server: first_with_id(old(state)@.servers, id),
            server_creation_options: None,
            ..old(state)@
        }),
        marks_selected(final(state)@.selected_panel, id),
{
    let name = server_panel_name(id);
    set_selected_panel(state, name.as_str());
    set_selected_sub_panel(state, DASHBOARD);
    set_selected_server(state, id);
}

/// Opens the panel in which a server is created, at its first step.
pub fn open_create_server(state: &mut AppStateStruct)
    ensures
        final(state)@ == (AppStateView {
            selected_panel: CREATE_SERVER_PANEL@,
            selected_sub_panel: SELECT_SERVER_TYPE@,
            selected_server: None,
            server_creation_options: None,
            ..old(state)@
        }),
{
    set_selected_panel(state, CREATE_SERVER_PANEL);
    set_selected_sub_panel(state, SELECT_SERVER_TYPE);
}

} // verus!
