//! Provisioning: what has to happen on disk when a server is created or the
//! application starts for the first time, and the record that a new server
//! gets.
//!
//! The functions here decide; they touch no file. The caller tells them what
//! exists and carries out the steps they return, in order.

use vstd::prelude::*;
use crate::ident::{fresh_id, is_random_id};
use crate::server::{default_server, ServerStruct, ServerView};
use crate::text::{decimal, push_decimal};

verus! {

/// The file name of a server's executable archive inside its directory.
pub const SERVER_JAR_NAME: &'static str = "server.jar";

/// The file name of a server's icon inside its directory.
pub const SERVER_ICON_NAME: &'static str = "server-icon.png";

/// The name of the data directory inside the application directory.
pub const DATA_DIRECTORY_NAME: &'static str = "data";

/// The name of the configuration file inside the application directory.
pub const CONFIG_FILE_NAME: &'static str = "config.toml";

/// Whether a copy may write into a directory that is already there.
#[derive(Clone, Copy, PartialEq, Eq, Debug)]
pub enum DestinationRule {
    /// The destination must not exist.
    DisallowExisting,
    /// The destination may exist if it is empty.
    AllowEmpty,
}

/// How deep below the source directory a copy goes.
#[derive(Clone, Copy, PartialEq, Eq, Debug)]
pub enum DepthLimit {
    /// The whole tree is copied.
    Unlimited,
    /// Only this many levels below the source are copied.
    Limited { maximum_depth: usize },
}

/// What a copy does with a symbolic link.
#[derive(Clone, Copy, PartialEq, Eq, Debug)]
pub enum SymlinkRule {
    /// The link is copied as a link.
    Keep,
    /// What the link points to is copied.
    Follow,
}

/// What a copy does with a symbolic link that points nowhere.
#[derive(Clone, Copy, PartialEq, Eq, Debug)]
pub enum BrokenSymlinkRule {
    /// The link is copied as it is.
    Keep,
    /// The copy is given up.
    Abort,
}

/// The rules of a directory copy.
#[derive(Clone, Copy, PartialEq, Eq, Debug)]
pub struct CopyOptions {
    pub destination_rule: DestinationRule,
    pub depth_limit: DepthLimit,
    pub symlinks: SymlinkRule,
    pub broken_symlinks: BrokenSymlinkRule,
}

/// The rules under which an installation is copied into a new server
/// directory: into an empty directory, the whole tree, links kept as links,
/// broken ones included.
pub open spec fn template_copy_options() -> CopyOptions {
    CopyOptions {
        destination_rule: DestinationRule::AllowEmpty,
        depth_limit: DepthLimit::Unlimited,
        symlinks: SymlinkRule::Keep,
        broken_symlinks: BrokenSymlinkRule::Keep,
    }
}

/// One action on the file system that provisioning asks for.
#[derive(PartialEq, Eq, Debug)]
pub enum ProvisionStep {
    /// Create the directory and every missing directory above it.
    CreateDirectories { path: String },
    /// Copy the tree below `source` into `destination`.
    CopyDirectory { source: String, destination: String, options: CopyOptions },
}

/// What a [`ProvisionStep`] says, with each path as a sequence of characters.
pub enum ProvisionStepView {
    CreateDirectories { path: Seq<char> },
    CopyDirectory { source: Seq<char>, destination: Seq<char>, options: CopyOptions },
}

impl View for ProvisionStep {
    type V = ProvisionStepView;

    open spec fn view(&self) -> ProvisionStepView {
        match *self {
            ProvisionStep::CreateDirectories { path } => ProvisionStepView::CreateDirectories {
                path: path@,
            },
            ProvisionStep::CopyDirectory {
                source,
                destination,
                options,
            } => ProvisionStepView::CopyDirectory {
                source: source@,
                destination: destination@,
                options,
            },
        }
    }
}

/// The views of a list of steps, in order.
pub open spec fn steps_view(steps: Seq<ProvisionStep>) -> Seq<ProvisionStepView> {
    steps.map_values(|step: ProvisionStep| step@)
}

/// The steps that bring a server directory into being. A directory that is
/// already there is left alone, so that creating the same server twice
/// copies nothing the second time; a missing one is created and filled from
/// the source installation.
pub open spec fn provision_steps(
    source: Seq<char>,
    destination: Seq<char>,
    destination_exists: bool,
) -> Seq<ProvisionStepView> {
    if destination_exists {
        Seq::empty()
    } else {
        seq![
            ProvisionStepView::CreateDirectories { path: destination },
            ProvisionStepView::CopyDirectory {
                source,
                destination,
                options: template_copy_options(),
            },
        ]
    }
}

/// Provisioning is idempotent: once the destination is there, nothing is
/// left to do, whatever the source.
pub proof fn lemma_existing_destination_is_left_alone(source: Seq<char>, destination: Seq<char>)
    ensures
        provision_steps(source, destination, true) == Seq::<ProvisionStepView>::empty(),
{
}

/// The command line that starts a server: the Java launcher with
/// `memory` megabytes as the upper bound of the heap, 256 megabytes as its
/// initial size, the archive at `jar_path`, and no graphical console.
pub open spec fn startup_line_text(memory: int, jar_path: Seq<char>) -> Seq<char> {
    "java -Xmx"@ + decimal(memory) + "M -Xms256M -jar "@ + jar_path + " nogui"@
}

/// The record of a newly created server. Name, description, port, directory,
/// the two start-up flags and the memory come from the request. The
/// identifier and the two paths inside the directory are given. What is not
/// detected yet reads "unknown", and the creation date keeps the spelling
/// that existing configuration files have. Everything else is as in
/// [`default_server`].
pub open spec fn configured_server(
    request: ServerView,
    id: u128,
    jar_path: Seq<char>,
    icon_path: Seq<char>,
) -> ServerView {
    ServerView {
        id,
        status: 0,
        name: request.name,
        description: request.description,
        port: request.port,
        path: request.path,
        icon_path,
        server_type: "unknown"@,
        server_jar_path: jar_path,
        minecraft_version: "unknown"@,
        server_version: "unknown"@,
        creation_date: "unkown"@,
        auto_start: request.auto_start,
        force_save_on_stop: request.force_save_on_stop,
        java_path: "unknown"@,
        java_allocated_memory: request.java_allocated_memory,
        java_startup_line: startup_line_text(request.java_allocated_memory, jar_path),
        ..default_server()
    }
}

/// Everything that creating a server amounts to: the steps on disk, the
/// record to store, and the answer to the one who asked.
#[derive(Debug)]
pub struct Provision {
    pub steps: Vec<ProvisionStep>,
    pub record: ServerStruct,
    pub reply: String,
}

/// Wraps `Path::join` of the standard library, on text: `name` adjoined to
/// the path `base`, read back as text. The separator and the treatment of
/// prefixes are the platform's, so nothing is claimed of the result.
#[verifier::external_body]
pub(crate) fn join_path(base: &str, name: &str) -> (r: String) {
    std::path::Path::new(base).join(name).to_string_lossy().into_owned()
}

/// Builds the command line that starts a server.
pub fn startup_line(memory: i64, jar_path: &str) -> (r: String)
    ensures
        r@ == startup_line_text(memory as int, jar_path@),
{
    let mut line = "java -Xmx".to_owned();
    push_decimal(&mut line, memory);
    line.append("M -Xms256M -jar ");
    line.append(jar_path);
    line.append(" nogui");
    line
}

/// Builds the record of a newly created server from the request, the
/// identifier it is given, and the paths of its archive and its icon.
pub fn configure_server(
    request: &ServerStruct,
    id: u128,
    jar_path: String,
    icon_path: String,
) -> (r: ServerStruct)
    ensures
        r@ == configured_server(request@, id, jar_path@, icon_path@),
{
    let defaults = ServerStruct::default();
    let java_startup_line = startup_line(request.java_allocated_memory, jar_path.as_str());
    ServerStruct {
        id,
        status: 0,
        name: request.name.clone(),
        description: request.description.clone(),
        port: request.port,
        public_ip: defaults.public_ip,
        local_ip: defaults.local_ip,
        path: request.path.clone(),
        icon_path,
        server_type: "unknown".to_owned(),
        server_jar_path: jar_path,
        minecraft_version: "unknown".to_owned(),
        server_version: "unknown".to_owned(),
        creation_date: "unkown".to_owned(),
        auto_start: request.auto_start,
        force_save_on_stop: request.force_save_on_stop,
        java_path: "unknown".to_owned(),
        java_allocated_memory: request.java_allocated_memory,
        java_startup_line,
        current_player_count: defaults.current_player_count,
        max_players: defaults.max_players,
    }
}

/// Lists the steps that bring the directory `destination` into being from
/// the installation at `source`.
pub fn plan_directory(source: &str, destination: &str, destination_exists: bool) -> (r: Vec<
    ProvisionStep,
>)
    ensures
        steps_view(r@) == provision_steps(source@, destination@, destination_exists),
{
    let mut steps: Vec<ProvisionStep> = Vec::new();
    if !destination_exists {
        steps.push(ProvisionStep::CreateDirectories { path: destination.to_owned() });
        steps.push(
            ProvisionStep::CopyDirectory {
                source: source.to_owned(),
                destination: destination.to_owned(),
                options: CopyOptions {
                    destination_rule: DestinationRule::AllowEmpty,
                    depth_limit: DepthLimit::Unlimited,
                    symlinks: SymlinkRule::Keep,
                    broken_symlinks: BrokenSymlinkRule::Keep,
                },
            },
        );
    }
    assert(steps_view(steps@) =~= provision_steps(source@, destination@, destination_exists));
    steps
}

/// Creates a server from the installation at `path`, as `server` asks for
/// it. `destination_exists` says whether the directory `server.path` is
/// already there.
///
/// The steps are exactly those of [`provision_steps`]. The record is that of
/// [`configured_server`] for a freshly drawn identifier and for the archive
/// and icon paths inside the server's directory, which the platform spells;
/// the record itself says which they are. The reply is always "Success".
pub fn create_server(path: &str, server: &ServerStruct, destination_exists: bool) -> (r: Provision)
    ensures
        steps_view(r.steps@) == provision_steps(path@, server.path@, destination_exists),
        r.record@ == configured_server(
            server@,
            r.record.id,
            r.record.server_jar_path@,
            r.record.icon_path@,
        ),
        is_random_id(r.record.id),
        r.reply@ == "Success"@,
{
    let steps = plan_directory(path, server.path.as_str(), destination_exists);
    let jar_path = join_path(server.path.as_str(), SERVER_JAR_NAME);
    let icon_path = join_path(server.path.as_str(), SERVER_ICON_NAME);
    let record = configure_server(server, fresh_id(), jar_path, icon_path);
    Provision { steps, record, reply: "Success".to_owned() }
}

/// One action that the first start of the application asks for.
#[derive(Clone, Copy, PartialEq, Eq, Debug)]
pub enum SetupStep {
    /// Create the application directory.
    CreateAppDirectory,
    /// Create the data directory, named [`DATA_DIRECTORY_NAME`], inside it.
    CreateDataDirectory,
    /// Write the default settings to the file named [`CONFIG_FILE_NAME`].
    WriteDefaultConfig,
}

/// The steps of a start: a missing application directory is created
/// together with its data directory, a missing configuration file is written
/// with the default settings, and what is there is never overwritten.
pub open spec fn setup_steps(app_directory_exists: bool, config_exists: bool) -> Seq<SetupStep> {
    let directories = if app_directory_exists {
        Seq::<SetupStep>::empty()
    } else {
        seq![SetupStep::CreateAppDirectory, SetupStep::CreateDataDirectory]
    };
    let config = if config_exists {
        Seq::<SetupStep>::empty()
    } else {
        seq![SetupStep::WriteDefaultConfig]
    };
    directories + config
}

/// A start after a complete set-up does nothing.
pub proof fn lemma_complete_setup_is_left_alone()
    ensures
        setup_steps(true, true) == Seq::<SetupStep>::empty(),
{
    assert(setup_steps(true, true) =~= Seq::<SetupStep>::empty());
}

/// Lists what a start of the application has to do, given whether its
/// directory and its configuration file are there.
pub fn init(app_directory_exists: bool, config_exists: bool) -> (r: Vec<SetupStep>)
    ensures
        r@ == setup_steps(app_directory_exists, config_exists),
{
    let mut steps: Vec<SetupStep> = Vec::new();
    if !app_directory_exists {
        steps.push(SetupStep::CreateAppDirectory);
        steps.push(SetupStep::CreateDataDirectory);
    }
    if !config_exists {
        steps.push(SetupStep::WriteDefaultConfig);
    }
    assert(steps@ =~= setup_steps(app_directory_exists, config_exists));
    steps
}

} // verus!
