use vstd::prelude::*;
use crate::command::tokens_view;
use crate::template::TemplateKind;

verus! {

/// The packages installed after scaffolding, in declared order.
pub struct Dependencies {
    /// Development dependencies.
    pub dev: Vec<String>,
    /// Runtime dependencies.
    pub proj: Vec<String>,
}

/// The dependency set of each template kind.
pub struct Config {
    pub vite: Dependencies,
    pub next: Dependencies,
}

/// The mathematical value of a `Dependencies`.
pub struct DependenciesView {
    pub dev: Seq<Seq<char>>,
    pub proj: Seq<Seq<char>>,
}

/// The mathematical value of a `Config`.
pub struct ConfigView {
    pub vite: DependenciesView,
    pub next: DependenciesView,
}

impl View for Dependencies {
    type V = DependenciesView;

    open spec fn view(&self) -> DependenciesView {
        DependenciesView { dev: tokens_view(self.dev@), proj: tokens_view(self.proj@) }
    }
}

impl View for Config {
    type V = ConfigView;

    open spec fn view(&self) -> ConfigView {
        ConfigView { vite: self.vite@, next: self.next@ }
    }
}

/// The development dependencies that every kind starts with.
pub open spec fn default_dev_spec() -> Seq<Seq<char>> {
    seq!["tailwindcss"@, "postcss"@, "autoprefixer"@, "jest"@]
}

/// The built-in configuration, used and persisted when none is stored.
pub open spec fn default_config_spec() -> ConfigView {
    ConfigView {
        vite: DependenciesView { dev: default_dev_spec(), proj: seq!["react-router-dom"@] },
        next: DependenciesView { dev: default_dev_spec(), proj: seq![""@] },
    }
}

/// The dependency set of `kind` in `c`.
pub open spec fn dependencies_of(c: ConfigView, kind: TemplateKind) -> DependenciesView {
    match kind {
        TemplateKind::Vite => c.vite,
        TemplateKind::Next => c.next,
    }
}

fn default_dev() -> (r: Vec<String>)
    ensures
        tokens_view(r@) == default_dev_spec(),
{
    let r = vec![
        String::from_str("tailwindcss"),
        String::from_str("postcss"),
        String::from_str("autoprefixer"),
        String::from_str("jest"),
    ];
    assert(tokens_view(r@) =~= default_dev_spec());
    r
}

/// Builds the built-in configuration.
pub fn default_config() -> (r: Config)
    ensures
        r@ == default_config_spec(),
{
    let vite_proj = vec![String::from_str("react-router-dom")];
    let next_proj = vec![String::from_str("")];
    assert(tokens_view(vite_proj@) =~= seq!["react-router-dom"@]);
    assert(tokens_view(next_proj@) =~= seq![""@]);
    Config {
        vite: Dependencies { dev: default_dev(), proj: vite_proj },
        next: Dependencies { dev: default_dev(), proj: next_proj },
    }
}

impl Config {
    /// The dependency set of `kind`.
    pub fn dependencies(&self, kind: TemplateKind) -> (r: &Dependencies)
        ensures
            r@ == dependencies_of(self@, kind),
    {
        match kind {
            TemplateKind::Vite => &self.vite,
            TemplateKind::Next => &self.next,
        }
    }
}

/// What reading the persisted configuration found.
pub enum StoredConfig {
    /// No file stands at the configuration path.
    Missing,
    /// The file was read and parsed.
    Parsed(Config),
    /// The file was read but its content does not parse.
    Malformed,
}

/// Why the configuration could not be loaded.
#[derive(Clone, Copy, Debug, PartialEq, Eq, Structural)]
pub enum ConfigError {
    /// The persisted file exists but does not parse; it is left untouched.
    Malformed,
}

/// The configuration to run with.
pub struct Loaded {
    pub config: Config,
    /// The configuration is the built-in default and must be persisted.
    pub persist: bool,
}

/// Decides the configuration from what was found at the configuration path:
/// a parsed file is used as it is, a missing one is replaced by the built-in
/// default that is then persisted, and a malformed one is an error that
/// writes nothing.
pub fn resolve_config(stored: StoredConfig) -> (r: Result<Loaded, ConfigError>)
    ensures
        match stored {
            StoredConfig::Missing => r matches Ok(l) && l.persist && l.config@
                == default_config_spec(),
            StoredConfig::Parsed(c) => r matches Ok(l) && !l.persist && l.config@ == c@,
            StoredConfig::Malformed => r == Err::<Loaded, ConfigError>(ConfigError::Malformed),
        },
{
    match stored {
        StoredConfig::Missing => Ok(Loaded { config: default_config(), persist: true }),
        StoredConfig::Parsed(c) => Ok(Loaded { config: c, persist: false }),
        StoredConfig::Malformed => Err(ConfigError::Malformed),
    }
}

} // verus!
