//! The record that the manager keeps for each server.

use vstd::prelude::*;
use crate::ident::NIL_ID;

verus! {

/// The status of a server that is not running.
pub const STATUS_OFFLINE: i8 = 0;

/// The status of a server that is running.
pub const STATUS_ONLINE: i8 = 1;

/// A configured server: where it lives, how it is started and what is shown
/// of it.
#[derive(Debug)]
pub struct ServerStruct {
    pub id: u128,
    pub status: i8,
    pub name: String,
    pub description: String,
    pub port: u16,
    pub public_ip: String,
    pub local_ip: String,
    pub path: String,
    pub icon_path: String,
    pub server_type: String,
    pub server_jar_path: String,
    pub minecraft_version: String,
    pub server_version: String,
    pub creation_date: String,
    pub auto_start: bool,
    pub force_save_on_stop: bool,
    pub java_path: String,
    pub java_allocated_memory: i64,
    pub java_startup_line: String,
    pub current_player_count: i32,
    pub max_players: i32,
}

/// What a [`ServerStruct`] says, with each text as a sequence of characters.
pub struct ServerView {
    pub id: u128,
    pub status: int,
    pub name: Seq<char>,
    pub description: Seq<char>,
    pub port: int,
    pub public_ip: Seq<char>,
    pub local_ip: Seq<char>,
    pub path: Seq<char>,
    pub icon_path: Seq<char>,
    pub server_type: Seq<char>,
    pub server_jar_path: Seq<char>,
    pub minecraft_version: Seq<char>,
    pub server_version: Seq<char>,
    pub creation_date: Seq<char>,
    pub auto_start: bool,
    pub force_save_on_stop: bool,
    pub java_path: Seq<char>,
    pub java_allocated_memory: int,
    pub java_startup_line: Seq<char>,
    pub current_player_count: int,
    pub max_players: int,
}

impl View for ServerStruct {
    type V = ServerView;

    open spec fn view(&self) -> ServerView {
        ServerView {
            id: self.id,
            status: self.status as int,
            name: self.name@,
            description: self.description@,
            port: self.port as int,
            public_ip: self.public_ip@,
            local_ip: self.local_ip@,
            path: self.path@,
            icon_path: self.icon_path@,
            server_type: self.server_type@,
            server_jar_path: self.server_jar_path@,
            minecraft_version: self.minecraft_version@,
            server_version: self.server_version@,
            creation_date: self.creation_date@,
            auto_start: self.auto_start,
            force_save_on_stop: self.force_save_on_stop,
            java_path: self.java_path@,
            java_allocated_memory: self.java_allocated_memory as int,
            java_startup_line: self.java_startup_line@,
            current_player_count: self.current_player_count as int,
            max_players: self.max_players as int,
        }
    }
}

/// The record of a server of which nothing is known yet: no identifier, not
/// running, the usual port, room for twenty players and four gigabytes of
/// memory.
pub open spec fn default_server() -> ServerView {
    ServerView {
        id: NIL_ID,
        status: 0,
        name: ""@,
        description: "Server Description (This value can be anything)"@,
        port: 25565,
        public_ip: "0.0.0.0"@,
        local_ip: "0.0.0.0"@,
        path: "path"@,
        icon_path: "path"@,
        server_type: "vanilla"@,
        server_jar_path: "path"@,
        minecraft_version: "1.21.10"@,
        server_version: "1.21.10"@,
        creation_date: "today"@,
        auto_start: false,
        force_save_on_stop: true,
        java_path: "path"@,
        java_allocated_memory: 4096,
        java_startup_line: ""@,
        current_player_count: 0,
        max_players: 20,
    }
}

impl Default for ServerStruct {
    fn default() -> (r: ServerStruct)
        ensures
            r@ == default_server(),
    {
        ServerStruct {
            id: NIL_ID,
            status: STATUS_OFFLINE,
            name: "".to_owned(),
            description: "Server Description (This value can be anything)".to_owned(),
            port: 25565,
            public_ip: "0.0.0.0".to_owned(),
            local_ip: "0.0.0.0".to_owned(),
            path: "path".to_owned(),
            icon_path: "path".to_owned(),
            server_type: "vanilla".to_owned(),
            server_jar_path: "path".to_owned(),
            minecraft_version: "1.21.10".to_owned(),
            server_version: "1.21.10".to_owned(),
            creation_date: "today".to_owned(),
            auto_start: false,
            force_save_on_stop: true,
            java_path: "path".to_owned(),
            java_allocated_memory: 4096,
            java_startup_line: "".to_owned(),
            current_player_count: 0,
            max_players: 20,
        }
    }
}

impl Clone for ServerStruct {
    fn clone(&self) -> (r: ServerStruct)
        ensures
            r@ == self@,
    {
        ServerStruct {
            id: self.id,
            status: self.status,
            name: self.name.clone(),
            description: self.description.clone(),
            port: self.port,
            public_ip: self.public_ip.clone(),
            local_ip: self.local_ip.clone(),
            path: self.path.clone(),
            icon_path: self.icon_path.clone(),
            server_type: self.server_type.clone(),
            server_jar_path: self.server_jar_path.clone(),
            minecraft_version: self.minecraft_version.clone(),
            server_version: self.server_version.clone(),
            creation_date: self.creation_date.clone(),
            auto_start: self.auto_start,
            force_save_on_stop: self.force_save_on_stop,
            java_path: self.java_path.clone(),
            java_allocated_memory: self.java_allocated_memory,
            java_startup_line: self.java_startup_line.clone(),
            current_player_count: self.current_player_count,
            max_players: self.max_players,
        }
    }
}

} // verus!
