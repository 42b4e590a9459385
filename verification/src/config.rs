//! The settings of the host, the list of accounts that may connect, and where the
//! host keeps its files.

use vstd::prelude::*;

use crate::sorted::insert_sorted;

verus! {

/// The settings of the host.
#[derive(Debug, PartialEq, Eq)]
pub struct AppConfig {
    pub enabled: bool,
    pub bind_address: String,
    pub port: u16,
    pub fps: u32,
    pub max_clients: u32,
    pub allow_control: bool,
    pub allowed_users: Vec<String>,
}

/// The settings as values.
#[verifier::ext_equal]
pub struct ConfigModel {
    pub enabled: bool,
    pub bind_address: Seq<char>,
    pub port: u16,
    pub fps: u32,
    pub max_clients: u32,
    pub allow_control: bool,
    pub allowed_users: Seq<Seq<char>>,
}

impl View for AppConfig {
    type V = ConfigModel;

    open spec fn view(&self) -> ConfigModel {
        ConfigModel {
            enabled: self.enabled,
            bind_address: self.bind_address@,
            port: self.port,
            fps: self.fps,
            max_clients: self.max_clients,
            allow_control: self.allow_control,
            allowed_users: crate::text::texts(self.allowed_users@),
        }
    }
}

/// A number within limits.
pub open spec fn clamped(value: u32, least: u32, most: u32) -> u32 {
    if value < least {
        least
    } else if value > most {
        most
    } else {
        value
    }
}

fn clamp(value: u32, least: u32, most: u32) -> (result: u32)
    ensures
        result == clamped(value, least, most),
{
    if value < least {
        least
    } else if value > most {
        most
    } else {
        value
    }
}

/// The name by which an account is listed: without white space around it, in lower
/// case.
pub open spec fn account_key(name: Seq<char>) -> Seq<char> {
    crate::text::lowercase(crate::text::trimmed(name))
}

/// The name by which an account is listed.
pub fn normalize_account(name: &str) -> (key: String)
    ensures
        key@ == account_key(name@),
{
    name.trim().to_lowercase()
}

/// Whether `name` is the key of one of these names, and not empty.
pub open spec fn is_key_of(name: Seq<char>, names: Seq<Seq<char>>) -> bool {
    name.len() > 0 && exists|i: int|
        0 <= i < names.len() && account_key(#[trigger] names[i]) == name
}

impl ConfigModel {
    /// Whether `next` is what normalizing makes of these settings: trimmed, within
    /// limits, and with the keys of the accounts in order, each once, without the
    /// empty one.
    pub open spec fn normalizes_to(self, next: ConfigModel) -> bool {
        &&& next.enabled == self.enabled
        &&& next.bind_address == crate::text::trimmed(self.bind_address)
        &&& next.port == self.port
        &&& next.fps == clamped(self.fps, 1, 120)
        &&& next.max_clients == clamped(self.max_clients, 1, 16)
        &&& next.allow_control == self.allow_control
        &&& crate::sorted::strictly_sorted(next.allowed_users)
        &&& forall|name: Seq<char>| #[trigger]
            next.allowed_users.contains(name) <==> is_key_of(name, self.allowed_users)
    }

    /// Whether one of these names is the name of an account that may connect.
    pub open spec fn allows(self, candidates: Seq<Seq<char>>) -> bool {
        exists|i: int|
            0 <= i < candidates.len() && account_key(#[trigger] candidates[i]).len() > 0
                && self.allowed_users.contains(account_key(candidates[i]))
    }

    /// The settings of a host that was never configured.
    pub open spec fn initial() -> ConfigModel {
        ConfigModel {
            enabled: true,
            bind_address: "0.0.0.0"@,
            port: 3390,
            fps: 30,
            max_clients: 1,
            allow_control: true,
            allowed_users: Seq::empty(),
        }
    }
}

impl Default for AppConfig {
    fn default() -> (config: Self)
        ensures
            config@ == ConfigModel::initial(),
    {
        let config = AppConfig {
            enabled: true,
            bind_address: "0.0.0.0".to_owned(),
            port: 3390,
            fps: 30,
            max_clients: 1,
            allow_control: true,
            allowed_users: Vec::new(),
        };
        assert(config@ =~= ConfigModel::initial());
        config
    }
}

impl Clone for AppConfig {
    fn clone(&self) -> (copy: Self)
        ensures
            copy@ == self@,
    {
        let mut allowed_users: Vec<String> = Vec::new();
        let mut k: usize = 0;
        while k < self.allowed_users.len()
            invariant
                k <= self.allowed_users.len(),
                allowed_users@ == self.allowed_users@.take(k as int),
            decreases self.allowed_users.len() - k,
        {
            let user = self.allowed_users[k].clone();
            allowed_users.push(user);
            assert(self.allowed_users@.take(k + 1) =~= self.allowed_users@.take(k as int).push(
                user,
            ));
            k += 1;
        }
        assert(self.allowed_users@.take(k as int) =~= self.allowed_users@);
        AppConfig {
            enabled: self.enabled,
            bind_address: self.bind_address.clone(),
            port: self.port,
            fps: self.fps,
            max_clients: self.max_clients,
            allow_control: self.allow_control,
            allowed_users,
        }
    }
}

impl AppConfig {
    /// Brings the settings into their normal form.
    pub fn normalize(&mut self)
        ensures
            old(self)@.normalizes_to(final(self)@),
    {
        let ghost names = self@.allowed_users;
        self.bind_address = self.bind_address.as_str().trim().to_owned();
        self.fps = clamp(self.fps, 1, 120);
        self.max_clients = clamp(self.max_clients, 1, 16);
        let mut users: Vec<String> = Vec::new();
        let mut k: usize = 0;
        while k < self.allowed_users.len()
            invariant
                k <= self.allowed_users.len(),
                names == crate::text::texts(self.allowed_users@),
                crate::sorted::strictly_sorted(crate::text::texts(users@)),
                forall|name: Seq<char>| #[trigger]
                    crate::text::texts(users@).contains(name) <==> is_key_of(
                        name,
                        names.take(k as int),
                    ),
            decreases self.allowed_users.len() - k,
        {
            let user = normalize_account(self.allowed_users[k].as_str());
            let ghost before = crate::text::texts(users@);
            let ghost key = user@;
            assert(names[k as int] == self.allowed_users@[k as int]@);
            if !user.as_str().is_empty() {
                insert_sorted(&mut users, user);
            }
            proof {
                let earlier = names.take(k as int);
                let now = names.take(k + 1);
                assert(now =~= earlier.push(names[k as int]));
                assert forall|name: Seq<char>| #[trigger]
                    crate::text::texts(users@).contains(name) <==> is_key_of(name, now) by {
                    if is_key_of(name, earlier) {
                        let i = choose|i: int|
                            0 <= i < earlier.len() && account_key(#[trigger] earlier[i]) == name;
                        assert(now[i] == earlier[i]);
                    }
                    if is_key_of(name, now) {
                        let i = choose|i: int|
                            0 <= i < now.len() && account_key(#[trigger] now[i]) == name;
                        if i < k {
                            assert(earlier[i] == now[i]);
                        }
                    }
                    assert(now[k as int] == names[k as int]);
                    assert(before.contains(name) <==> is_key_of(name, earlier));
                }
            }
            k += 1;
        }
        assert(names.take(names.len() as int) =~= names);
        self.allowed_users = users;
    }

    /// Whether one of these names is the name of an account that may connect.
    pub fn allows_user(&self, candidates: &Vec<String>) -> (allowed: bool)
        ensures
            allowed == self@.allows(crate::text::texts(candidates@)),
    {
        let ghost names = crate::text::texts(candidates@);
        let mut k: usize = 0;
        while k < candidates.len()
            invariant
                k <= candidates.len(),
                names == crate::text::texts(candidates@),
                forall|i: int|
                    0 <= i < k ==> !(account_key(#[trigger] names[i]).len() > 0
                        && self@.allowed_users.contains(account_key(names[i]))),
            decreases candidates.len() - k,
        {
            let candidate = normalize_account(candidates[k].as_str());
            assert(names[k as int] == candidates@[k as int]@);
            if !candidate.as_str().is_empty() && self.lists_user(&candidate) {
                return true;
            }
            k += 1;
        }
        false
    }

    /// Whether a key is listed.
    fn lists_user(&self, key: &String) -> (listed: bool)
        ensures
            listed == self@.allowed_users.contains(key@),
    {
        let mut k: usize = 0;
        while k < self.allowed_users.len()
            invariant
                k <= self.allowed_users.len(),
                forall|i: int| 0 <= i < k ==> #[trigger] self@.allowed_users[i] != key@,
            decreases self.allowed_users.len() - k,
        {
            assert(self@.allowed_users[k as int] == self.allowed_users@[k as int]@);
            if self.allowed_users[k] == *key {
                return true;
            }
            k += 1;
        }
        false
    }
}

/// Settings have one normal form.
pub proof fn law_normal_form_is_unique(config: ConfigModel, first: ConfigModel, second: ConfigModel)
    requires
        config.normalizes_to(first),
        config.normalizes_to(second),
    ensures
        first == second,
{
    assert forall|name: Seq<char>| first.allowed_users.contains(name)
        <==> second.allowed_users.contains(name) by {}
    crate::sorted::law_sorted_lists_are_unique(first.allowed_users, second.allowed_users);
}

/// Settings in their normal form are left alone when they are normalized again. Account
/// names of other characters than ASCII must be such that their lower case stays as it
/// is in lower case.
pub proof fn law_normal_form_is_kept(config: ConfigModel, normal: ConfigModel, next: ConfigModel)
    requires
        config.normalizes_to(normal),
        normal.normalizes_to(next),
        forall|i: int|
            0 <= i < config.allowed_users.len() ==> crate::text::is_ascii_text(
                #[trigger] config.allowed_users[i],
            ) || account_key(account_key(config.allowed_users[i])) == account_key(
                config.allowed_users[i],
            ),
    ensures
        next == normal,
{
    assert forall|i: int| 0 <= i < normal.allowed_users.len() implies account_key(
        #[trigger] normal.allowed_users[i],
    ) == normal.allowed_users[i] by {
        let name = normal.allowed_users[i];
        assert(normal.allowed_users.contains(name));
        let j = choose|j: int|
            0 <= j < config.allowed_users.len() && account_key(#[trigger] config.allowed_users[j])
                == name;
        if crate::text::is_ascii_text(config.allowed_users[j]) {
            crate::text::lemma_ascii_lowercase_is_kept(config.allowed_users[j]);
        }
    }
    crate::text::lemma_trimmed_ends(config.bind_address);
    assert forall|name: Seq<char>| next.allowed_users.contains(name)
        <==> normal.allowed_users.contains(name) by {
        if normal.allowed_users.contains(name) {
            let i = choose|i: int|
                0 <= i < normal.allowed_users.len() && normal.allowed_users[i] == name;
            assert(is_key_of(name, config.allowed_users));
            assert(account_key(normal.allowed_users[i]) == name);
        }
    }
    crate::sorted::law_sorted_lists_are_unique(next.allowed_users, normal.allowed_users);
}

/// An account that is listed under any spelling may connect under any other spelling
/// with the same key, and no other account may.
pub proof fn law_listed_accounts_may_connect(
    config: ConfigModel,
    normal: ConfigModel,
    account: Seq<char>,
)
    requires
        config.normalizes_to(normal),
    ensures
        normal.allows(seq![account]) <==> is_key_of(account_key(account), config.allowed_users),
{
    assert(seq![account][0] == account);
    if normal.allows(seq![account]) {
        assert(normal.allowed_users.contains(account_key(account)));
    }
}

/// Where no account is listed, nobody may connect.
pub proof fn law_empty_list_admits_nobody(config: ConfigModel, candidates: Seq<Seq<char>>)
    requires
        config.allowed_users.len() == 0,
    ensures
        !config.allows(candidates),
{
}

/// The directory of the host's files. Paths are joined as the system does.
pub struct DataDirectory {
    path: String,
    windows: bool,
}

/// Whether a path is a drive alone, such as `C:`.
pub open spec fn is_drive(path: Seq<char>) -> bool {
    path.len() == 2 && path[1] == ':' && ('a' <= path[0] <= 'z' || 'A' <= path[0] <= 'Z')
}

/// Whether a separator stands between a path and a name behind it.
pub open spec fn needs_separator(path: Seq<char>, windows: bool) -> bool {
    path.len() > 0 && path.last() != '/' && (windows ==> path.last() != '\\' && !is_drive(path))
}

/// A name in a directory.
pub open spec fn joined(path: Seq<char>, name: Seq<char>, windows: bool) -> Seq<char> {
    if needs_separator(path, windows) {
        path + (if windows {
            "\\"@
        } else {
            "/"@
        }) + name
    } else {
        path + name
    }
}

/// Puts a name behind a directory.
fn join(path: &str, name: &str, windows: bool) -> (result: String)
    ensures
        result@ == joined(path@, name@, windows),
{
    let list = crate::text::characters(path);
    let length: usize = list.len();
    let drive = length == 2 && list[1] == ':' && (('a' <= list[0] && list[0] <= 'z') || ('A'
        <= list[0] && list[0] <= 'Z'));
    let separate = length > 0 && list[length - 1] != '/' && (!windows || (list[length - 1] != '\\'
        && !drive));
    let mut result = path.to_owned();
    if separate {
        result.push_str(
            if windows {
                "\\"
            } else {
                "/"
            },
        );
    }
    result.push_str(name);
    result
}

impl DataDirectory {
    /// The path of the directory.
    pub closed spec fn text(self) -> Seq<char> {
        self.path@
    }

    /// Whether its paths are those of Windows.
    pub closed spec fn on_windows(self) -> bool {
        self.windows
    }

    /// The path of a file in the directory.
    pub open spec fn file(self, name: Seq<char>) -> Seq<char> {
        joined(self.text(), name, self.on_windows())
    }

    /// The directory on Windows: under the directory of programs' data, wherever the
    /// system has it.
    pub fn on_windows_under(program_data: Option<&str>) -> (directory: Self)
        ensures
            directory.on_windows(),
            directory.text() == joined(
                match program_data {
                    Some(path) => path@,
                    None => "C:\\ProgramData"@,
                },
                "SunRemoteDesktop"@,
                true,
            ),
    {
        let base = match program_data {
            Some(path) => path,
            None => "C:\\ProgramData",
        };
        DataDirectory { path: join(base, "SunRemoteDesktop", true), windows: true }
    }

    /// The directory elsewhere: the one that the system gives a program, or one in
    /// the current directory.
    pub fn elsewhere(directory: Option<&str>) -> (result: Self)
        ensures
            !result.on_windows(),
            result.text() == match directory {
                Some(path) => path@,
                None => ".rdp-desktop-host"@,
            },
    {
        let path = match directory {
            Some(path) => path,
            None => ".rdp-desktop-host",
        };
        DataDirectory { path: path.to_owned(), windows: false }
    }
}

/// The directory of the host's files.
pub fn data_dir(directory: &DataDirectory) -> (path: String)
    ensures
        path@ == directory.text(),
{
    directory.path.clone()
}

/// The file of the settings.
pub fn config_path(directory: &DataDirectory) -> (path: String)
    ensures
        path@ == directory.file("config.toml"@),
{
    join(directory.path.as_str(), "config.toml", directory.windows)
}

/// The file of the certificate.
pub fn certificate_path(directory: &DataDirectory) -> (path: String)
    ensures
        path@ == directory.file("server-cert.pem"@),
{
    join(directory.path.as_str(), "server-cert.pem", directory.windows)
}

/// The file of the private key.
pub fn private_key_path(directory: &DataDirectory) -> (path: String)
    ensures
        path@ == directory.file("server-key.pem"@),
{
    join(directory.path.as_str(), "server-key.pem", directory.windows)
}

/// The file of the remembered clients, in a directory that only administrators write.
pub fn trusted_clients_path(directory: &DataDirectory) -> (path: String)
    ensures
        path@ == joined(
            directory.file("Maintenance"@),
            "trusted-clients.toml"@,
            directory.on_windows(),
        ),
{
    let maintenance = join(directory.path.as_str(), "Maintenance", directory.windows);
    join(maintenance.as_str(), "trusted-clients.toml", directory.windows)
}

/// The file of the service's log.
pub fn service_log_path(directory: &DataDirectory) -> (path: String)
    ensures
        path@ == directory.file("sunrdp-service.log"@),
{
    join(directory.path.as_str(), "sunrdp-service.log", directory.windows)
}

/// What loading the settings comes to, where the file may be missing.
pub fn loaded_config(found: Option<AppConfig>) -> (result: (AppConfig, bool))
    ensures
        match found {
            Some(config) => config@.normalizes_to(result.0@) && !result.1,
            None => ConfigModel::initial().normalizes_to(result.0@) && result.1,
        },
{
    match found {
        Some(config) => {
            let mut config = config;
            config.normalize();
            (config, false)
        },
        None => {
            let mut config = AppConfig::default();
            config.normalize();
            (config, true)
        },
    }
}

/// In normal form a rate is 1 to 120 and there are 1 to 16 clients, as asked for within these
/// bounds; the address has no white space around it and the rest stays.
pub proof fn law_settings_are_bounded(config: ConfigModel, next: ConfigModel)
    requires
        config.normalizes_to(next),
    ensures
        1 <= next.fps <= 120 && 1 <= next.max_clients <= 16,
        1 <= config.fps <= 120 ==> next.fps == config.fps,
        config.fps > 120 ==> next.fps == 120,
        1 <= config.max_clients <= 16 ==> next.max_clients == config.max_clients,
        config.max_clients > 16 ==> next.max_clients == 16,
        next.bind_address.len() > 0 ==> !crate::text::is_white_space(next.bind_address[0])
            && !crate::text::is_white_space(next.bind_address.last()),
        next.port == config.port && next.enabled == config.enabled && next.allow_control
            == config.allow_control,
{
    crate::text::lemma_trimmed_ends(config.bind_address);
}

/// In normal form the listed names are those that were listed, in lower case and without the
/// white space around them, but for blank ones; each once and in order.
pub proof fn law_listed_names_are_brought_together(
    config: ConfigModel,
    next: ConfigModel,
    at: int,
    i: int,
    j: int,
)
    requires
        config.normalizes_to(next),
        0 <= at < config.allowed_users.len(),
        crate::text::is_ascii_text(crate::text::trimmed(config.allowed_users[at])),
    ensures
        ({
            let name = crate::text::ascii_lowercase(crate::text::trimmed(config.allowed_users[at]));
            name.len() > 0 <==> next.allowed_users.contains(name)
        }),
        0 <= i < j < next.allowed_users.len() ==> next.allowed_users[i] != next.allowed_users[j]
            && crate::sorted::before(next.allowed_users[i], next.allowed_users[j]),
        0 <= i < next.allowed_users.len() ==> next.allowed_users[i].len() > 0,
{
    let name = crate::text::ascii_lowercase(crate::text::trimmed(config.allowed_users[at]));
    assert(account_key(config.allowed_users[at]) == name);
    if name.len() > 0 {
        assert(is_key_of(name, config.allowed_users));
    } else {
        assert(!is_key_of(name, config.allowed_users));
    }
    if 0 <= i < j < next.allowed_users.len() {
        crate::sorted::lemma_not_before_itself(next.allowed_users[i]);
    }
    if 0 <= i < next.allowed_users.len() {
        assert(next.allowed_users.contains(next.allowed_users[i]));
        assert(is_key_of(next.allowed_users[i], config.allowed_users));
    }
}

/// Accounts are told apart by neither case nor the white space around them.
pub proof fn law_account_keys_ignore_case(name: Seq<char>, other: Seq<char>)
    requires
        crate::text::is_ascii_text(crate::text::trimmed(name)),
        crate::text::is_ascii_text(crate::text::trimmed(other)),
    ensures
        account_key(name) == account_key(other) <==> crate::text::ascii_lowercase(
            crate::text::trimmed(name),
        ) == crate::text::ascii_lowercase(crate::text::trimmed(other)),
        account_key(name).len() == crate::text::trimmed(name).len(),
{
}

/// The settings that a fresh host has are in normal form already, listen on port 3390 of
/// every address, let one client in at a time, and nobody before they are changed.
pub proof fn law_fresh_settings_admit_nobody(candidates: Seq<Seq<char>>, next: ConfigModel)
    requires
        ConfigModel::initial().normalizes_to(next),
    ensures
        next == ConfigModel::initial(),
        !next.allows(candidates),
        next.enabled && next.allow_control,
        next.port == 3390 && next.fps == 30 && next.max_clients == 1,
        next.bind_address == "0.0.0.0"@,
{
    reveal_strlit("0.0.0.0");
    let first = ConfigModel::initial();
    assert(crate::text::trimmed(first.bind_address) == first.bind_address);
    assert forall|name: Seq<char>| !(#[trigger] next.allowed_users.contains(name)) by {
        assert(!is_key_of(name, first.allowed_users));
    }
    if next.allowed_users.len() > 0 {
        assert(next.allowed_users.contains(next.allowed_users[0]));
    }
    assert(next.allowed_users =~= first.allowed_users);
    assert(next =~= first);
}

/// A file of the data directory is named by the directory, one separator and the name: a
/// backslash on Windows and a slash elsewhere. There is none where the directory ends in one
/// already, or on Windows is a drive alone.
pub proof fn law_files_stand_in_the_directory(path: Seq<char>, name: Seq<char>, windows: bool)
    ensures
        ({
            let file = joined(path, name, windows);
            let ended = path.len() == 0 || path.last() == '/' || (windows && (path.last() == '\\'
                || (path.len() == 2 && path[1] == ':' && ('a' <= path[0] <= 'z' || 'A' <= path[0]
                <= 'Z'))));
            &&& file.take(path.len() as int) == path
            &&& ended ==> file.len() == path.len() + name.len() && file.skip(path.len() as int)
                == name
            &&& !ended ==> file.len() == path.len() + 1 + name.len() && file.skip(
                (path.len() + 1) as int,
            ) == name && file[path.len() as int] == if windows { '\\' } else { '/' }
        }),
{
    reveal_strlit("\\");
    reveal_strlit("/");
    let file = joined(path, name, windows);
    assert(file.take(path.len() as int) =~= path);
    if needs_separator(path, windows) {
        assert(file.skip((path.len() + 1) as int) =~= name);
    } else {
        assert(file.skip(path.len() as int) =~= name);
    }
}

} // verus!
