//! Instance configuration and global settings.
use std::time::Duration;
use vstd::prelude::*;

verus! {

/// One configured GitLab instance.
#[derive(Debug, Clone)]
pub struct Gitlab {
    pub host: String,
    /// Plain transport (`http://`) instead of an encrypted one.
    pub insecure: bool,
    /// Accept an invalid certificate.
    pub cert_insecure: bool,
    /// Tracked project identifiers, in display order.
    pub project_ids: Vec<u64>,
}

pub open spec fn protocol_of(insecure: bool) -> Seq<char> {
    if insecure {
        "http://"@
    } else {
        "https://"@
    }
}

impl Gitlab {
    /// An instance with no tracked project.
    pub fn empty(host: String, insecure: bool, cert_insecure: bool) -> (r: Self)
        ensures
            r.host@ == host@,
            r.insecure == insecure,
            r.cert_insecure == cert_insecure,
            r.project_ids@.len() == 0,
    {
        Gitlab { host, insecure, cert_insecure, project_ids: Vec::new() }
    }

    /// The scheme prefix of the instance's URLs.
    pub fn protocol(&self) -> (r: String)
        ensures
            r@ == protocol_of(self.insecure),
    {
        if self.insecure {
            String::from_str("http://")
        } else {
            String::from_str("https://")
        }
    }
}

/// Which merge requests the project view lists.
#[derive(Debug, Clone, Copy, PartialEq, Eq, Structural)]
pub enum ShowMergeRequest {
    /// Only those authored by the current user.
    OnlyMine,
    All,
}

impl ShowMergeRequest {
    pub open spec fn title_spec(self) -> Seq<char> {
        match self {
            ShowMergeRequest::OnlyMine => "Show only my MRs"@,
            ShowMergeRequest::All => "Show all MRs"@,
        }
    }

    /// The label of the choice.
    pub fn title(&self) -> (r: String)
        ensures
            r@ == self.title_spec(),
    {
        match self {
            ShowMergeRequest::OnlyMine => String::from_str("Show only my MRs"),
            ShowMergeRequest::All => String::from_str("Show all MRs"),
        }
    }

    /// Place of the choice in the list offered.
    pub fn position(&self) -> (r: usize)
        ensures
            r == (if *self == ShowMergeRequest::OnlyMine { 0usize } else { 1usize }),
    {
        match self {
            ShowMergeRequest::OnlyMine => 0,
            ShowMergeRequest::All => 1,
        }
    }
}

impl Default for ShowMergeRequest {
    fn default() -> (r: Self)
        ensures
            r == ShowMergeRequest::OnlyMine,
    {
        ShowMergeRequest::OnlyMine
    }
}

/// How often every widget refreshes.
#[derive(Debug, Clone, Copy, PartialEq, Eq, Structural)]
pub enum RefreshEvery {
    X60Seconds,
    X5Minutes,
    X15Minutes,
    X30Minutes,
    X1Hour,
    X6Hours,
}

/// A duration of a whole number of seconds.
pub uninterp spec fn duration_of_secs(secs: nat) -> Duration;

/// Relies on `Duration::from_secs`: the duration of exactly `secs` seconds.
#[verifier::external_body]
fn duration_from_secs(secs: u64) -> (r: Duration)
    ensures
        r == duration_of_secs(secs as nat),
{
    Duration::from_secs(secs)
}

impl RefreshEvery {
    pub open spec fn seconds_spec(self) -> u64 {
        match self {
            RefreshEvery::X60Seconds => 60,
            RefreshEvery::X5Minutes => 300,
            RefreshEvery::X15Minutes => 900,
            RefreshEvery::X30Minutes => 1800,
            RefreshEvery::X1Hour => 3600,
            RefreshEvery::X6Hours => 21600,
        }
    }

    /// The interval in seconds.
    pub fn seconds(&self) -> (r: u64)
        ensures
            r == self.seconds_spec(),
    {
        match self {
            RefreshEvery::X60Seconds => 60,
            RefreshEvery::X5Minutes => 60 * 5,
            RefreshEvery::X15Minutes => 60 * 15,
            RefreshEvery::X30Minutes => 60 * 30,
            RefreshEvery::X1Hour => 60 * 60 * 1,
            RefreshEvery::X6Hours => 60 * 60 * 6,
        }
    }

    /// The interval.
    pub fn duration(&self) -> (r: Duration)
        ensures
            r == duration_of_secs(self.seconds_spec() as nat),
    {
        duration_from_secs(self.seconds())
    }

    pub open spec fn title_spec(self) -> Seq<char> {
        match self {
            RefreshEvery::X60Seconds => "Refresh every 60 seconds"@,
            RefreshEvery::X5Minutes => "Refresh every 5 minutes"@,
            RefreshEvery::X15Minutes => "Refresh every 15 minutes"@,
            RefreshEvery::X30Minutes => "Refresh every 30 minutes"@,
            RefreshEvery::X1Hour => "Refresh every 1 hour"@,
            RefreshEvery::X6Hours => "Refresh every 6 hours"@,
        }
    }

    /// The label of the choice.
    pub fn title(&self) -> (r: String)
        ensures
            r@ == self.title_spec(),
    {
        match self {
            RefreshEvery::X60Seconds => String::from_str("Refresh every 60 seconds"),
            RefreshEvery::X5Minutes => String::from_str("Refresh every 5 minutes"),
            RefreshEvery::X15Minutes => String::from_str("Refresh every 15 minutes"),
            RefreshEvery::X30Minutes => String::from_str("Refresh every 30 minutes"),
            RefreshEvery::X1Hour => String::from_str("Refresh every 1 hour"),
            RefreshEvery::X6Hours => String::from_str("Refresh every 6 hours"),
        }
    }

    pub open spec fn position_spec(self) -> usize {
        match self {
            RefreshEvery::X60Seconds => 0,
            RefreshEvery::X5Minutes => 1,
            RefreshEvery::X15Minutes => 2,
            RefreshEvery::X30Minutes => 3,
            RefreshEvery::X1Hour => 4,
            RefreshEvery::X6Hours => 5,
        }
    }

    /// Place of the choice in the list offered, shortest interval first.
    pub fn position(&self) -> (r: usize)
        ensures
            r == self.position_spec(),
    {
        match self {
            RefreshEvery::X60Seconds => 0,
            RefreshEvery::X5Minutes => 1,
            RefreshEvery::X15Minutes => 2,
            RefreshEvery::X30Minutes => 3,
            RefreshEvery::X1Hour => 4,
            RefreshEvery::X6Hours => 5,
        }
    }
}

impl Default for RefreshEvery {
    fn default() -> (r: Self)
        ensures
            r == RefreshEvery::X1Hour,
    {
        RefreshEvery::X1Hour
    }
}

/// Declares the error of the desktop colour-scheme lookup.
#[verifier::external_type_specification]
#[verifier::external_body]
pub struct ExDarkLightError(dark_light::Error);

/// The desktop's colour-scheme preference.
#[derive(Debug, Clone, Copy, PartialEq, Eq, Structural)]
pub enum SystemMode {
    Dark,
    Light,
    Unspecified,
}

/// Relies on `dark_light::detect`: the desktop's colour-scheme preference, or
/// why it could not be read. It depends on the desktop, so nothing is stated
/// of which comes back.
#[verifier::external_body]
fn detect_system_mode() -> Result<SystemMode, dark_light::Error> {
    match dark_light::detect() {
        Ok(dark_light::Mode::Dark) => Ok(SystemMode::Dark),
        Ok(dark_light::Mode::Light) => Ok(SystemMode::Light),
        Ok(dark_light::Mode::Unspecified) => Ok(SystemMode::Unspecified),
        Err(error) => Err(error),
    }
}

/// Light or dark theme, or whatever the desktop prefers.
#[derive(Debug, Clone, Copy, PartialEq, Eq, Structural)]
pub enum ThemeMode {
    System,
    Dark,
    Light,
}

/// The explicit mode for a desktop preference; no preference means light.
pub open spec fn mode_of_system(mode: SystemMode) -> ThemeMode {
    match mode {
        SystemMode::Dark => ThemeMode::Dark,
        _ => ThemeMode::Light,
    }
}

/// Theme name of an explicit mode.
pub open spec fn theme_name_of(mode: ThemeMode) -> Seq<char> {
    if mode == ThemeMode::Dark {
        "Ayu Dark"@
    } else {
        "Ayu Light"@
    }
}

impl ThemeMode {
    pub open spec fn resolve_spec(self, detected: Result<SystemMode, dark_light::Error>) -> Result<
        ThemeMode,
        dark_light::Error,
    > {
        match self {
            ThemeMode::System => match detected {
                Ok(mode) => Ok(mode_of_system(mode)),
                Err(e) => Err(e),
            },
            _ => Ok(self),
        }
    }

    /// The explicit mode, given what the desktop preference lookup answered;
    /// the answer only matters for `System`.
    pub fn resolve_detected(&self, detected: Result<SystemMode, dark_light::Error>) -> (r: Result<
        ThemeMode,
        dark_light::Error,
    >)
        ensures
            r == self.resolve_spec(detected),
    {
        match self {
            ThemeMode::System => match detected {
                Ok(SystemMode::Dark) => Ok(ThemeMode::Dark),
                Ok(_) => Ok(ThemeMode::Light),
                Err(e) => Err(e),
            },
            ThemeMode::Dark => Ok(ThemeMode::Dark),
            ThemeMode::Light => Ok(ThemeMode::Light),
        }
    }

    /// The explicit mode: `System` asks the desktop for its preference.
    pub fn resolve(&self) -> (r: Result<ThemeMode, dark_light::Error>)
        ensures
            *self != ThemeMode::System ==> r == Ok::<ThemeMode, dark_light::Error>(*self),
            r is Ok ==> r->Ok_0 != ThemeMode::System,
    {
        match self {
            ThemeMode::System => self.resolve_detected(detect_system_mode()),
            ThemeMode::Dark => Ok(ThemeMode::Dark),
            ThemeMode::Light => Ok(ThemeMode::Light),
        }
    }

    /// Name of the theme for an explicit mode.
    pub fn theme_name_for(mode: ThemeMode) -> (r: &'static str)
        ensures
            r@ == theme_name_of(mode),
    {
        match mode {
            ThemeMode::Dark => "Ayu Dark",
            _ => "Ayu Light",
        }
    }

    /// Name of the theme to apply.
    pub fn theme_name(&self) -> (r: Result<&'static str, dark_light::Error>)
        ensures
            *self != ThemeMode::System ==> r is Ok && r->Ok_0@ == theme_name_of(*self),
            r is Ok ==> r->Ok_0@ == "Ayu Dark"@ || r->Ok_0@ == "Ayu Light"@,
    {
        match self.resolve() {
            Ok(mode) => Ok(ThemeMode::theme_name_for(mode)),
            Err(e) => Err(e),
        }
    }

    pub open spec fn title_spec(self) -> Seq<char> {
        match self {
            ThemeMode::System => "System theme"@,
            ThemeMode::Dark => "Dark theme"@,
            ThemeMode::Light => "Light theme"@,
        }
    }

    /// The label of the choice.
    pub fn title(&self) -> (r: String)
        ensures
            r@ == self.title_spec(),
    {
        match self {
            ThemeMode::System => String::from_str("System theme"),
            ThemeMode::Dark => String::from_str("Dark theme"),
            ThemeMode::Light => String::from_str("Light theme"),
        }
    }

    /// Place of the choice in the list offered.
    pub fn position(&self) -> (r: usize)
        ensures
            r == (match *self {
                ThemeMode::System => 0usize,
                ThemeMode::Dark => 1usize,
                ThemeMode::Light => 2usize,
            }),
    {
        match self {
            ThemeMode::System => 0,
            ThemeMode::Dark => 1,
            ThemeMode::Light => 2,
        }
    }
}

impl Default for ThemeMode {
    fn default() -> (r: Self)
        ensures
            r == ThemeMode::System,
    {
        ThemeMode::System
    }
}

/// A desktop preference that could not be read; the light theme is used.
pub struct DarkLightError(pub dark_light::Error);

/// The theme to load for a theme-name lookup: its name, or the light theme
/// and the reason when the desktop could not be asked.
pub fn select_theme(name: Result<&'static str, dark_light::Error>) -> (r: (
    &'static str,
    Option<DarkLightError>,
))
    ensures
        name is Ok ==> r.0 == name->Ok_0 && r.1 is None,
        name is Err ==> r.0@ == "Ayu Light"@ && r.1 == Some(DarkLightError(name->Err_0)),
{
    match name {
        Ok(theme_name) => (theme_name, None),
        Err(error) => ("Ayu Light", Some(DarkLightError(error))),
    }
}

/// Kind of a notification shown to the user.
#[derive(Debug, Clone, Copy, PartialEq, Eq, Structural)]
pub enum NotificationType {
    Info,
    Success,
    Warning,
    Error,
}

impl DarkLightError {
    /// A warning that the desktop preference could not be read, with why.
    pub fn into_notification(&self) -> (r: (NotificationType, String))
        ensures
            r.0 == NotificationType::Warning,
            r.1@.len() >= "Can't determine system dark/light preference: "@.len(),
            r.1@.take("Can't determine system dark/light preference: "@.len() as int)
                == "Can't determine system dark/light preference: "@,
    {
        let mut message = String::from_str("Can't determine system dark/light preference: ");
        let reason = self.0.to_string();
        message.append(reason.as_str());
        proof {
            assert(message@.take("Can't determine system dark/light preference: "@.len() as int)
                =~= "Can't determine system dark/light preference: "@);
        }
        (NotificationType::Warning, message)
    }
}

/// Why the configuration could not be read or written.
#[derive(Debug, Clone, PartialEq, Eq)]
pub enum ConfigError {
    /// The home directory could not be determined.
    Home(String),
    /// The current user has no home directory.
    NoHome,
    /// Reading or writing the file failed.
    Io(String),
    Unexpected(String),
    /// The credential store could not be reached.
    Keyring(String),
}

/// Why a default configuration is used.
#[derive(Debug, Clone, PartialEq, Eq)]
pub enum ConfigLoadInfo {
    /// There is no configuration file at this path yet.
    NoOne(String),
    /// The configuration file could not be parsed; why.
    Invalid(String),
}

impl ConfigLoadInfo {
    /// The notification telling the user.
    pub fn into_notification(&self) -> (r: (NotificationType, String))
        ensures
            self is NoOne ==> r.0 == NotificationType::Info && r.1@ == "No config found"@,
            self is Invalid ==> r.0 == NotificationType::Warning && r.1@ == "Invalid config found ("@
                + self->Invalid_0@ + "), new one crated"@,
    {
        match self {
            ConfigLoadInfo::NoOne(_) => (NotificationType::Info, String::from_str("No config found")),
            ConfigLoadInfo::Invalid(message) => {
                let mut text = String::from_str("Invalid config found (");
                text.append(message.as_str());
                text.append("), new one crated");
                (NotificationType::Warning, text)
            },
        }
    }
}

/// The whole configuration.
#[derive(Debug, Clone)]
pub struct Config {
    pub gitlabs: Vec<Gitlab>,
    pub refresh_every: RefreshEvery,
    pub show_merge_request: ShowMergeRequest,
    pub theme_mode: ThemeMode,
}

impl Default for Config {
    fn default() -> (r: Self)
        ensures
            is_default_config(r),
    {
        Config {
            gitlabs: Vec::new(),
            refresh_every: RefreshEvery::X1Hour,
            show_merge_request: ShowMergeRequest::OnlyMine,
            theme_mode: ThemeMode::System,
        }
    }
}

/// What reading the configuration file gave.
#[derive(Debug)]
pub enum ConfigRead {
    /// The file parsed into this configuration.
    Parsed(Config),
    /// The file exists but could not be parsed; why.
    Malformed(String),
    /// There is no file at this path.
    Missing(String),
    /// The file could not be read.
    Failed(ConfigError),
}

/// The default settings, with no instance.
pub open spec fn is_default_config(c: Config) -> bool {
    &&& c.gitlabs@.len() == 0
    &&& c.refresh_every == RefreshEvery::X1Hour
    &&& c.show_merge_request == ShowMergeRequest::OnlyMine
    &&& c.theme_mode == ThemeMode::System
}

pub open spec fn has_host(g: Gitlab, host: Seq<char>) -> bool {
    g.host@ == host
}

impl Config {
    /// The configuration to start with: the file's, else the default with the
    /// reason; a file that cannot be read is an error.
    pub fn from_read(read: ConfigRead) -> (r: Result<(Config, Option<ConfigLoadInfo>), ConfigError>)
        ensures
            read is Parsed ==> r is Ok && r->Ok_0.0 == read->Parsed_0 && r->Ok_0.1 is None,
            read is Malformed ==> r is Ok && is_default_config(r->Ok_0.0) && r->Ok_0.1
                == Some(ConfigLoadInfo::Invalid(read->Malformed_0)),
            read is Missing ==> r is Ok && is_default_config(r->Ok_0.0) && r->Ok_0.1
                == Some(ConfigLoadInfo::NoOne(read->Missing_0)),
            read is Failed ==> r == Err::<(Config, Option<ConfigLoadInfo>), ConfigError>(
                read->Failed_0,
            ),
    {
        match read {
            ConfigRead::Parsed(config) => Ok((config, None)),
            ConfigRead::Malformed(why) => Ok((Config::default(), Some(ConfigLoadInfo::Invalid(why)))),
            ConfigRead::Missing(path) => Ok((Config::default(), Some(ConfigLoadInfo::NoOne(path)))),
            ConfigRead::Failed(error) => Err(error),
        }
    }

    /// Index of the first instance with this host.
    pub fn find(&self, host: &String) -> (r: Option<usize>)
        ensures
            r is None ==> forall|i: int|
                0 <= i < self.gitlabs@.len() ==> self.gitlabs@[i].host@ != host@,
            r is Some ==> r->0 < self.gitlabs@.len() && self.gitlabs@[r->0 as int].host@ == host@
                && forall|i: int| 0 <= i < r->0 ==> self.gitlabs@[i].host@ != host@,
    {
        let mut i: usize = 0;
        while i < self.gitlabs.len()
            invariant
                i <= self.gitlabs@.len(),
                forall|j: int| 0 <= j < i ==> self.gitlabs@[j].host@ != host@,
            decreases self.gitlabs@.len() - i,
        {
            if self.gitlabs[i].host == *host {
                return Some(i);
            }
            i = i + 1;
        }
        None
    }

    /// The first instance with this host.
    pub fn instance(&self, host: &String) -> (r: Option<&Gitlab>)
        ensures
            r is None ==> forall|i: int|
                0 <= i < self.gitlabs@.len() ==> self.gitlabs@[i].host@ != host@,
            r is Some ==> exists|i: int|
                0 <= i < self.gitlabs@.len() && self.gitlabs@[i] == *r->0 && r->0.host@ == host@
                    && forall|j: int| 0 <= j < i ==> self.gitlabs@[j].host@ != host@,
    {
        match self.find(host) {
            Some(i) => Some(&self.gitlabs[i]),
            None => None,
        }
    }

    /// Drops every instance with this host.
    pub fn remove_instance(&mut self, host: &String)
        ensures
            final(self).gitlabs@ == old(self).gitlabs@.filter(|g: Gitlab| !has_host(g, host@)),
            final(self).refresh_every == old(self).refresh_every,
            final(self).show_merge_request == old(self).show_merge_request,
            final(self).theme_mode == old(self).theme_mode,
    {
        let ghost orig = self.gitlabs@;
        let ghost pred = |g: Gitlab| !has_host(g, host@);
        let mut i: usize = 0;
        let ghost mut j: int = 0;
        while i < self.gitlabs.len()
            invariant
                0 <= i <= j <= orig.len(),
                self.gitlabs@.len() == i + (orig.len() - j),
                self.gitlabs@.take(i as int) == orig.take(j).filter(pred),
                self.gitlabs@.skip(i as int) == orig.skip(j),
                self.refresh_every == old(self).refresh_every,
                self.show_merge_request == old(self).show_merge_request,
                self.theme_mode == old(self).theme_mode,
                pred == (|g: Gitlab| !has_host(g, host@)),
            decreases self.gitlabs@.len() - i,
        {
            assert(self.gitlabs@[i as int] == orig[j]) by {
                assert(self.gitlabs@.skip(i as int)[0] == orig.skip(j)[0]);
            }
            reveal(Seq::filter);
            assert(orig.take(j + 1).drop_last() =~= orig.take(j));
            assert(orig.take(j + 1).last() == orig[j]);
            if self.gitlabs[i].host == *host {
                let ghost before = self.gitlabs@;
                assert(!pred(orig[j]));
                assert(orig.take(j + 1).filter(pred) == orig.take(j).filter(pred));
                let _ = self.gitlabs.remove(i);
                assert(self.gitlabs@.take(i as int) =~= before.take(i as int));
                assert forall|k: int| 0 <= k < self.gitlabs@.len() - i implies #[trigger] self.gitlabs@.skip(
                    i as int,
                )[k] == orig.skip(j + 1)[k] by {
                    assert(self.gitlabs@[i + k] == before[i + k + 1]);
                    assert(before.skip(i as int)[k + 1] == orig.skip(j)[k + 1]);
                }
                assert(self.gitlabs@.skip(i as int) =~= orig.skip(j + 1));
            } else {
                assert(pred(orig[j]));
                assert(orig.take(j + 1).filter(pred) == orig.take(j).filter(pred).push(orig[j]));
                assert(self.gitlabs@.take(i + 1) =~= self.gitlabs@.take(i as int).push(orig[j]));
                assert forall|k: int| 0 <= k < self.gitlabs@.len() - i - 1 implies #[trigger] self.gitlabs@.skip(
                    i + 1,
                )[k] == orig.skip(j + 1)[k] by {
                    assert(self.gitlabs@.skip(i as int)[k + 1] == orig.skip(j)[k + 1]);
                }
                assert(self.gitlabs@.skip(i + 1) =~= orig.skip(j + 1));
                i = i + 1;
            }
            proof {
                j = j + 1;
            }
        }
        assert(orig.take(j) =~= orig);
        reveal(Seq::filter);
        assert(self.gitlabs@ =~= self.gitlabs@.take(i as int));
    }

    /// Sets the tracked projects of the first instance with this host; `false`
    /// when there is none, and then nothing changes.
    pub fn set_project_ids(&mut self, host: &String, project_ids: Vec<u64>) -> (r: bool)
        ensures
            r == exists|i: int| 0 <= i < old(self).gitlabs@.len() && old(self).gitlabs@[i].host@ == host@,
            !r ==> *final(self) == *old(self),
            r ==> exists|i: int|
                0 <= i < old(self).gitlabs@.len() && old(self).gitlabs@[i].host@ == host@ && (forall|
                    j: int,
                | 0 <= j < i ==> old(self).gitlabs@[j].host@ != host@) && final(self).gitlabs@
                    == old(self).gitlabs@.update(
                    i,
                    Gitlab { project_ids, ..old(self).gitlabs@[i] },
                ),
            final(self).refresh_every == old(self).refresh_every,
            final(self).show_merge_request == old(self).show_merge_request,
            final(self).theme_mode == old(self).theme_mode,
    {
        match self.find(host) {
            None => false,
            Some(i) => {
                let mut gitlab = self.gitlabs.remove(i);
                gitlab.project_ids = project_ids;
                self.gitlabs.insert(i, gitlab);
                assert(self.gitlabs@ =~= old(self).gitlabs@.update(
                    i as int,
                    Gitlab { project_ids, ..old(self).gitlabs@[i as int] },
                ));
                true
            },
        }
    }
}

} // verus!
