//! Placeholder servers with randomly drawn properties, to fill the server
//! list while real servers cannot be loaded yet.

use rand::seq::IndexedRandom;
use vstd::prelude::*;
use crate::ident::{fresh_id, is_random_id};
use crate::server::{default_server, ServerStruct, ServerView};
use crate::state::{servers_view, AppStateStruct, AppStateView};
use crate::text::{decimal, push_decimal};

verus! {

/// What is drawn for one placeholder server.
#[derive(Clone, Copy, PartialEq, Eq, Debug)]
pub struct ServerDraw {
    pub status: i8,
    pub port: u16,
    pub max_players: i32,
    pub players: i32,
    pub number: i32,
    pub icon: i8,
    pub id: u128,
}

/// The draws that can come out: the server is off or on, the port is below
/// 65535, there is room for 5 to 99 players and fewer than that are present,
/// the number in the name has at most six digits and is not 999999, the icon
/// is one of five, and the identifier is a random one.
pub open spec fn valid_draw(draw: ServerDraw) -> bool {
    &&& 0 <= draw.status < 2
    &&& 0 <= draw.port < 65535
    &&& 5 <= draw.max_players < 100
    &&& 0 <= draw.players < draw.max_players
    &&& 0 <= draw.number < 999999
    &&& 0 <= draw.icon < 5
    &&& is_random_id(draw.id)
}

/// The picture that stands for the icon number `icon`.
pub open spec fn placeholder_icon(icon: int) -> Seq<char> {
    if icon == 1 {
        "E:/MC_Server_Manager/assets/images/pack.webp"@
    } else if icon == 2 {
        "E:/MC_Server_Manager/assets/images/fabric.png"@
    } else if icon == 3 {
        "E:/MC_Server_Manager/assets/images/forge.jpg"@
    } else if icon == 4 {
        "E:/MC_Server_Manager/assets/images/neoforge.png"@
    } else {
        "E:/MC_Server_Manager/assets/images/dioxus.png"@
    }
}

/// The kind of server that goes with the icon number `icon`: the icons of
/// the three mod loaders announce their loader, every other icon a vanilla
/// server.
pub open spec fn placeholder_loader(icon: int) -> Seq<char> {
    if icon == 2 {
        "fabric"@
    } else if icon == 3 {
        "forge"@
    } else if icon == 4 {
        "neoforge"@
    } else {
        "vanilla"@
    }
}

/// The placeholder server that a draw stands for. A server that is off has
/// no players, whatever was drawn for them. What is not drawn is as in
/// [`default_server`].
pub open spec fn drawn_server(draw: ServerDraw) -> ServerView {
    ServerView {
        id: draw.id,
        status: draw.status as int,
        name: "Server "@ + decimal(draw.number as int),
        port: draw.port as int,
        icon_path: placeholder_icon(draw.icon as int),
        server_type: placeholder_loader(draw.icon as int),
        current_player_count: if draw.status == 0 {
            0
        } else {
            draw.players as int
        },
        max_players: draw.max_players as int,
        ..default_server()
    }
}

/// Whether `list` holds the numbers from `low` up to, not including,
/// `high`, in rising order.
pub open spec fn is_span(list: Seq<i32>, low: int, high: int) -> bool {
    &&& list.len() == if high > low {
        high - low
    } else {
        0
    }
    &&& forall|i: int| 0 <= i < list.len() ==> list[i] == low + i
}

/// Wraps `IndexedRandom::choose` of the rand crate on the generator of
/// `rand::rng`: an empty list gives `None`, any other list one of its items,
/// picked at random.
#[verifier::external_body]
pub(crate) fn pick(items: &Vec<i32>) -> (r: Option<i32>)
    ensures
        items@.len() == 0 ==> r is None,
        items@.len() > 0 ==> r is Some && items@.contains(r->Some_0),
{
    items.choose(&mut rand::rng()).copied()
}

/// Lists the numbers from `low` up to, not including, `high`.
pub fn numbers(low: i32, high: i32) -> (r: Vec<i32>)
    ensures
        is_span(r@, low as int, high as int),
{
    let mut list: Vec<i32> = Vec::new();
    let mut next: i32 = low;
    while next < high
        invariant
            low <= next <= high || (high < low && next == low),
            is_span(list@, low as int, next as int),
        decreases high - next,
    {
        list.push(next);
        next += 1;
    }
    list
}

/// Draws a number from `low` up to, not including, `high`.
pub fn draw_below(low: i32, high: i32) -> (r: i32)
    requires
        low < high,
    ensures
        low <= r < high,
{
    let list = numbers(low, high);
    // `low < high` makes the list non-empty: one of its numbers is picked,
    // and every one of them lies in the range.
    let picked = pick(&list);
    settle_draw(low, picked)
}

/// What a draw comes to, given what was picked from the list of numbers:
/// the number picked, or `low` where the list was empty and nothing could be
/// picked.
pub open spec fn draw_outcome(low: int, picked: Option<i32>) -> int {
    match picked {
        Some(n) => n as int,
        None => low,
    }
}

/// Settles a draw on what was picked from the list of numbers.
pub fn settle_draw(low: i32, picked: Option<i32>) -> (r: i32)
    ensures
        r == draw_outcome(low as int, picked),
{
    match picked {
        Some(n) => n,
        None => low,
    }
}

/// Builds the placeholder server that a draw stands for.
pub fn placeholder_server(draw: ServerDraw) -> (r: ServerStruct)
    ensures
        r@ == drawn_server(draw),
{
    let mut loader = "vanilla".to_owned();
    let mut icon = "E:/MC_Server_Manager/assets/images/dioxus.png".to_owned();
    if draw.icon == 1 {
        icon = "E:/MC_Server_Manager/assets/images/pack.webp".to_owned();
    } else if draw.icon == 2 {
        icon = "E:/MC_Server_Manager/assets/images/fabric.png".to_owned();
        loader = "fabric".to_owned();
    } else if draw.icon == 3 {
        icon = "E:/MC_Server_Manager/assets/images/forge.jpg".to_owned();
        loader = "forge".to_owned();
    } else if draw.icon == 4 {
        icon = "E:/MC_Server_Manager/assets/images/neoforge.png".to_owned();
        loader = "neoforge".to_owned();
    }
    let mut name = "Server ".to_owned();
    push_decimal(&mut name, draw.number as i64);
    let players: i32 = if draw.status == 0 {
        0
    } else {
        draw.players
    };
    let defaults = ServerStruct::default();
    ServerStruct {
        id: draw.id,
        status: draw.status,
        name,
        description: defaults.description,
        port: draw.port,
        public_ip: defaults.public_ip,
        local_ip: defaults.local_ip,
        path: defaults.path,
        icon_path: icon,
        server_type: loader,
        server_jar_path: defaults.server_jar_path,
        minecraft_version: defaults.minecraft_version,
        server_version: defaults.server_version,
        creation_date: defaults.creation_date,
        auto_start: defaults.auto_start,
        force_save_on_stop: defaults.force_save_on_stop,
        java_path: defaults.java_path,
        java_allocated_memory: defaults.java_allocated_memory,
        java_startup_line: defaults.java_startup_line,
        current_player_count: players,
        max_players: draw.max_players,
    }
}

/// Draws what a placeholder server needs.
pub fn draw_server() -> (r: ServerDraw)
    ensures
        valid_draw(r),
{
    let status = draw_below(0, 2);
    let port = draw_below(0, 65535);
    let max_players = draw_below(5, 100);
    let players = draw_below(0, max_players);
    let number = draw_below(0, 999999);
    let icon = draw_below(0, 5);
    ServerDraw {
        status: status as i8,
        port: port as u16,
        max_players,
        players,
        number,
        icon: icon as i8,
        id: fresh_id(),
    }
}

/// Makes up a server: the placeholder of some valid draw.
pub fn generate_random_server() -> (r: ServerStruct)
    ensures
        exists|draw: ServerDraw| valid_draw(draw) && r@ == drawn_server(draw),
{
    let draw = draw_server();
    placeholder_server(draw)
}

/// Adds a made-up server at the end of the list of known servers; nothing
/// else changes.
pub fn load_servers(state: &mut AppStateStruct)
    ensures
        exists|draw: ServerDraw|
            valid_draw(draw) && final(state)@ == (AppStateView {
                servers: old(state)@.servers.push(drawn_server(draw)),
                ..old(state)@
            }),
{
    let draw = draw_server();
    let server = placeholder_server(draw);
    state.servers.push(server);
    assert(servers_view(final(state).servers@) =~= servers_view(old(state).servers@).push(
        drawn_server(draw),
    ));
}

} // verus!
