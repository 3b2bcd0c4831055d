//! The launch configuration and the variable map that it gives a version.

use vstd::prelude::*;
use vstd::string::StringExecFns;
use crate::text::{
    decimal, decimal_string, join_path, joined, or_empty, strip_hyphens, text_view,
    without_hyphens,
};
use crate::variables::VariableMap;

verus! {

/// Why a launch attempt ended without a running game.
#[derive(Debug, Clone, Copy, PartialEq, Eq, Structural)]
pub enum LaunchError {
    /// The runtime locator found no candidate.
    RuntimeNotFound,
    /// The version manager does not know the version identifier.
    VersionNotFound,
    /// The version's native libraries could not be resolved.
    NativeResolutionFailure,
    /// One of the version's argument templates is malformed.
    TemplateExpansionFailure,
    /// A native library could not be written.
    ExtractionFailure,
    /// The operating system could not start the runtime.
    SpawnFailure,
}

/// The family of operating system that the runtime is started on.
#[derive(Debug, Clone, Copy, PartialEq, Eq, Structural)]
pub enum Platform {
    /// Linux, macOS and the other Unix-like systems.
    Unix,
    /// Windows.
    Windows,
}

/// The text that parts the entries of a path list on a platform: a colon on
/// a Unix-like system, a semicolon on Windows.
pub open spec fn path_list_separator(platform: Platform) -> Seq<char> {
    match platform {
        Platform::Unix => ":"@,
        Platform::Windows => ";"@,
    }
}

/// An authenticated session, as far as the launcher reads it.
#[derive(Debug)]
pub struct Session {
    /// The player's display name.
    pub name: String,
    /// The player's unique identifier, with or without hyphens.
    pub uuid: String,
    /// The session's access token, with or without hyphens.
    pub access_token: String,
}

/// The view of a session.
pub ghost struct SessionView {
    pub name: Seq<char>,
    pub uuid: Seq<char>,
    pub access_token: Seq<char>,
}

impl View for Session {
    type V = SessionView;

    open spec fn view(&self) -> SessionView {
        SessionView { name: self.name@, uuid: self.uuid@, access_token: self.access_token@ }
    }
}

/// What the variable map holds of one resolved version.
#[derive(Debug)]
pub struct VersionFacts {
    /// The identifier of the asset index, where the version has one.
    pub asset_index_id: Option<String>,
    /// Whether the version is a release, a snapshot or something else.
    pub version_type: String,
    /// The classpath over the libraries directory; `None` where it could
    /// not be computed.
    pub classpath: Option<String>,
    /// The directory that the version manager keeps the natives in.
    pub natives_path: String,
    /// The version manager's path of the primary jar.
    pub primary_jar: String,
}

/// The view of a version's facts.
pub ghost struct VersionFactsView {
    pub asset_index_id: Option<Seq<char>>,
    pub version_type: Seq<char>,
    pub classpath: Option<Seq<char>>,
    pub natives_path: Seq<char>,
    pub primary_jar: Seq<char>,
}

impl View for VersionFacts {
    type V = VersionFactsView;

    open spec fn view(&self) -> VersionFactsView {
        VersionFactsView {
            asset_index_id: text_view(self.asset_index_id),
            version_type: self.version_type@,
            classpath: text_view(self.classpath),
            natives_path: self.natives_path@,
            primary_jar: self.primary_jar@,
        }
    }
}

/// The launch configuration: everything about one launch attempt that does
/// not depend on the version's own data.
#[derive(Debug)]
pub struct MinecraftLauncher {
    version_id: String,
    program_path: String,
    game_root_dir: String,
    assets_dir: String,
    libraries_dir: String,
    versions_dir: String,
    launcher_name_version: (String, String),
    auth_info: Session,
    window_resolution: (u32, u32),
    platform: Platform,
}

/// The view of a launch configuration.
pub ghost struct LauncherView {
    pub version_id: Seq<char>,
    pub program_path: Seq<char>,
    pub game_root_dir: Seq<char>,
    pub assets_dir: Seq<char>,
    pub libraries_dir: Seq<char>,
    pub versions_dir: Seq<char>,
    pub launcher_name: Seq<char>,
    pub launcher_version: Seq<char>,
    pub session: SessionView,
    pub window_width: nat,
    pub window_height: nat,
    pub platform: Platform,
}

impl View for MinecraftLauncher {
    type V = LauncherView;

    closed spec fn view(&self) -> LauncherView {
        LauncherView {
            version_id: self.version_id@,
            program_path: self.program_path@,
            game_root_dir: self.game_root_dir@,
            assets_dir: self.assets_dir@,
            libraries_dir: self.libraries_dir@,
            versions_dir: self.versions_dir@,
            launcher_name: self.launcher_name_version.0@,
            launcher_version: self.launcher_name_version.1@,
            session: self.auth_info@,
            window_width: self.window_resolution.0 as nat,
            window_height: self.window_resolution.1 as nat,
            platform: self.platform,
        }
    }
}

/// A directory under the game directory, as text; the empty text where the
/// game directory's path is no text.
pub open spec fn under(game_dir: Option<Seq<char>>, rel: Seq<char>) -> Seq<char> {
    match game_dir {
        Some(dir) => joined(dir, rel),
        None => Seq::empty(),
    }
}

/// The configuration that a game directory, a version identifier, a
/// session, the first runtime candidate and a platform give.
pub open spec fn configured(
    game_dir: Option<Seq<char>>,
    version_id: Seq<char>,
    session: SessionView,
    runtime: Seq<char>,
    platform: Platform,
) -> LauncherView {
    LauncherView {
        version_id,
        program_path: runtime,
        game_root_dir: or_empty(game_dir),
        assets_dir: under(game_dir, "assets/"@),
        libraries_dir: under(game_dir, "libraries/"@),
        versions_dir: under(game_dir, "versions/"@),
        launcher_name: "RMCLL"@,
        launcher_version: "0.1.0"@,
        session,
        window_width: 854,
        window_height: 480,
        platform,
    }
}

/// The session token as templates see it: the access token and the unique
/// identifier, both in simple form, behind the word `token`.
pub open spec fn session_token(session: SessionView) -> Seq<char> {
    "token:"@ + without_hyphens(session.access_token) + ":"@ + without_hyphens(session.uuid)
}

/// The variable map of a configuration and a version: every name that a
/// template may use, with its value.
pub open spec fn variables(launcher: LauncherView, version: VersionFactsView) -> Map<
    Seq<char>,
    Seq<char>,
> {
    Map::<Seq<char>, Seq<char>>::empty().insert(
        "auth_access_token"@,
        without_hyphens(launcher.session.access_token),
    ).insert("user_properties"@, "{}"@).insert("user_property_map"@, "{}"@).insert(
        "auth_session"@,
        session_token(launcher.session),
    ).insert("auth_player_name"@, launcher.session.name).insert(
        "auth_uuid"@,
        without_hyphens(launcher.session.uuid),
    ).insert("user_type"@, "legacy"@).insert("profile_name"@, launcher.session.name).insert(
        "version_name"@,
        launcher.version_id,
    ).insert("game_directory"@, launcher.game_root_dir).insert(
        "assets_root"@,
        launcher.assets_dir,
    ).insert("assets_index_name"@, or_empty(version.asset_index_id)).insert(
        "version_type"@,
        version.version_type,
    ).insert("resolution_width"@, decimal(launcher.window_width)).insert(
        "resolution_height"@,
        decimal(launcher.window_height),
    ).insert("language"@, "en-us"@).insert("launcher_name"@, launcher.launcher_name).insert(
        "launcher_version"@,
        launcher.launcher_version,
    ).insert("natives_directory"@, version.natives_path).insert(
        "primary_jar"@,
        version.primary_jar,
    ).insert("classpath"@, or_empty(version.classpath)).insert(
        "classpath_separator"@,
        path_list_separator(launcher.platform),
    )
}

/// The names of the variable map.
pub open spec fn variable_names() -> Set<Seq<char>> {
    set![
        "auth_access_token"@,
        "user_properties"@,
        "user_property_map"@,
        "auth_session"@,
        "auth_player_name"@,
        "auth_uuid"@,
        "user_type"@,
        "profile_name"@,
        "version_name"@,
        "game_directory"@,
        "assets_root"@,
        "assets_index_name"@,
        "version_type"@,
        "resolution_width"@,
        "resolution_height"@,
        "language"@,
        "launcher_name"@,
        "launcher_version"@,
        "natives_directory"@,
        "primary_jar"@,
        "classpath"@,
        "classpath_separator"@
    ]
}

/// A copy of a text that may be absent, with the empty text in its place.
fn text_or_empty(text: &Option<String>) -> (copy: String)
    ensures
        copy@ == or_empty(text_view(*text)),
{
    match text {
        Some(s) => s.clone(),
        None => String::new(),
    }
}

/// A directory under the game directory, as text.
fn directory_under(game_dir: &Option<String>, rel: &str) -> (path: String)
    ensures
        path@ == under(text_view(*game_dir), rel@),
{
    match game_dir {
        Some(dir) => join_path(dir.as_str(), rel),
        None => String::new(),
    }
}

/// Sets up a launch: the directories under the game directory, the launcher's
/// identity, the default window, the platform's path-list separator and the
/// first of the runtime candidates.  The game directory is `None` where its
/// path is no text; its variables are then empty.  Without a candidate there
/// is nothing to launch with, and it fails.
pub fn create(
    game_dir: Option<String>,
    game_version_id: &str,
    game_auth_info: Session,
    candidates: Vec<String>,
    platform: Platform,
) -> (launcher: Result<MinecraftLauncher, LaunchError>)
    ensures
        match launcher {
            Ok(l) => candidates@.len() > 0 && l@ == configured(
                text_view(game_dir),
                game_version_id@,
                game_auth_info@,
                candidates@[0]@,
                platform,
            ),
            Err(e) => candidates@.len() == 0 && e == LaunchError::RuntimeNotFound,
        },
{
    if candidates.len() == 0 {
        return Err(LaunchError::RuntimeNotFound);
    }
    let program_path = candidates[0].clone();
    let assets_dir = directory_under(&game_dir, "assets/");
    let libraries_dir = directory_under(&game_dir, "libraries/");
    let versions_dir = directory_under(&game_dir, "versions/");
    Ok(
        MinecraftLauncher {
            version_id: game_version_id.to_owned(),
            program_path,
            assets_dir,
            libraries_dir,
            versions_dir,
            game_root_dir: text_or_empty(&game_dir),
            launcher_name_version: ("RMCLL".to_owned(), "0.1.0".to_owned()),
            auth_info: game_auth_info,
            window_resolution: (854, 480),
            platform,
        },
    )
}

impl MinecraftLauncher {
    /// Builds the variable map for a version.
    pub fn generate_argument_map(&self, version: &VersionFacts) -> (map: VariableMap)
        ensures
            map@ == variables(self@, version@),
    {
        let mut map = VariableMap::new();
        let name = self.auth_info.name.clone();
        let uuid = strip_hyphens(self.auth_info.uuid.as_str());
        let access_token = strip_hyphens(self.auth_info.access_token.as_str());
        let mut session = "token:".to_owned();
        session.append(access_token.as_str());
        session.append(":");
        session.append(uuid.as_str());
        map.insert("auth_access_token".to_owned(), access_token);
        map.insert("user_properties".to_owned(), "{}".to_owned());
        map.insert("user_property_map".to_owned(), "{}".to_owned());
        map.insert("auth_session".to_owned(), session);
        map.insert("auth_player_name".to_owned(), name.clone());
        map.insert("auth_uuid".to_owned(), uuid);
        map.insert("user_type".to_owned(), "legacy".to_owned());
        map.insert("profile_name".to_owned(), name);
        map.insert("version_name".to_owned(), self.version_id.clone());
        map.insert("game_directory".to_owned(), self.game_root_dir.clone());
        map.insert("assets_root".to_owned(), self.assets_dir.clone());
        map.insert("assets_index_name".to_owned(), text_or_empty(&version.asset_index_id));
        map.insert("version_type".to_owned(), version.version_type.clone());
        map.insert("resolution_width".to_owned(), decimal_string(self.window_resolution.0));
        map.insert("resolution_height".to_owned(), decimal_string(self.window_resolution.1));
        map.insert("language".to_owned(), "en-us".to_owned());
        map.insert("launcher_name".to_owned(), self.launcher_name_version.0.clone());
        map.insert("launcher_version".to_owned(), self.launcher_name_version.1.clone());
        map.insert("natives_directory".to_owned(), version.natives_path.clone());
        map.insert("primary_jar".to_owned(), version.primary_jar.clone());
        map.insert("classpath".to_owned(), text_or_empty(&version.classpath));
        let separator = match self.platform {
            Platform::Unix => ":".to_owned(),
            Platform::Windows => ";".to_owned(),
        };
        map.insert("classpath_separator".to_owned(), separator);
        map
    }

    /// The identifier of the version to launch.
    pub fn version_id(&self) -> (text: &String)
        ensures
            text@ == self@.version_id,
    {
        &self.version_id
    }

    /// The runtime executable.
    pub fn program_path(&self) -> (text: &String)
        ensures
            text@ == self@.program_path,
    {
        &self.program_path
    }

    /// The game's root directory.
    pub fn game_root_dir(&self) -> (text: &String)
        ensures
            text@ == self@.game_root_dir,
    {
        &self.game_root_dir
    }

    /// The directory that assets are kept in.
    pub fn assets_dir(&self) -> (text: &String)
        ensures
            text@ == self@.assets_dir,
    {
        &self.assets_dir
    }

    /// The window's width and height.
    pub fn window_resolution(&self) -> (size: (u32, u32))
        ensures
            size.0 == self@.window_width,
            size.1 == self@.window_height,
    {
        self.window_resolution
    }

    /// The platform that the runtime is started on.
    pub fn platform(&self) -> (platform: Platform)
        ensures
            platform == self@.platform,
    {
        self.platform
    }

    /// The directory that libraries are kept in.
    pub fn libraries_dir(&self) -> (text: &String)
        ensures
            text@ == self@.libraries_dir,
    {
        &self.libraries_dir
    }

    /// The directory that the version manager works in.
    pub fn versions_dir(&self) -> (text: &String)
        ensures
            text@ == self@.versions_dir,
    {
        &self.versions_dir
    }
}

} // verus!
