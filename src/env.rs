use vstd::prelude::*;

verus! {

/// The variable that is missing or empty, reported fail-fast in the order
/// token, owner, name, log level.
#[derive(Debug, Clone, Copy, PartialEq, Eq, Structural)]
pub enum ConfigError {
    MissingToken,
    MissingOwner,
    MissingName,
    MissingLogLevel,
}

impl ConfigError {
    pub open spec fn spec_message(self) -> Seq<char> {
        match self {
            ConfigError::MissingToken => "GITHUB_TOKEN must be set"@,
            ConfigError::MissingOwner => "REPO_OWNER must be set"@,
            ConfigError::MissingName => "REPO_NAME must be set"@,
            ConfigError::MissingLogLevel => "LOG_LEVEL must be set"@,
        }
    }

    /// The message that names the offending variable.
    pub fn message(&self) -> (r: String)
        ensures
            r@ == self.spec_message(),
    {
        match self {
            ConfigError::MissingToken => String::from_str("GITHUB_TOKEN must be set"),
            ConfigError::MissingOwner => String::from_str("REPO_OWNER must be set"),
            ConfigError::MissingName => String::from_str("REPO_NAME must be set"),
            ConfigError::MissingLogLevel => String::from_str("LOG_LEVEL must be set"),
        }
    }
}

/// The values of the variables that configure a run, `None` where a variable
/// is not set.
#[derive(Debug, Clone, PartialEq, Eq)]
pub struct EnvVars {
    pub github_token: Option<String>,
    pub repo_owner: Option<String>,
    pub repo_name: Option<String>,
    pub log_level: Option<String>,
}

pub struct EnvVarsView {
    pub github_token: Option<Seq<char>>,
    pub repo_owner: Option<Seq<char>>,
    pub repo_name: Option<Seq<char>>,
    pub log_level: Option<Seq<char>>,
}

pub open spec fn opt_view(o: Option<String>) -> Option<Seq<char>> {
    match o {
        Some(s) => Some(s@),
        None => None,
    }
}

/// A variable that is set but holds the empty string.
pub open spec fn set_but_empty(o: Option<Seq<char>>) -> bool {
    o matches Some(s) && s.len() == 0
}

/// The log level used when `LOG_LEVEL` is not set.
pub open spec fn default_log_level() -> Seq<char> {
    "info"@
}

impl View for EnvVars {
    type V = EnvVarsView;

    open spec fn view(&self) -> EnvVarsView {
        EnvVarsView {
            github_token: opt_view(self.github_token),
            repo_owner: opt_view(self.repo_owner),
            repo_name: opt_view(self.repo_name),
            log_level: opt_view(self.log_level),
        }
    }
}

impl EnvVarsView {
    /// The first failure in reading order: the three required variables must be
    /// set, then each of the four must be non-empty.
    pub open spec fn load_error(self) -> Option<ConfigError> {
        if self.github_token is None {
            Some(ConfigError::MissingToken)
        } else if self.repo_owner is None {
            Some(ConfigError::MissingOwner)
        } else if self.repo_name is None {
            Some(ConfigError::MissingName)
        } else if set_but_empty(self.github_token) {
            Some(ConfigError::MissingToken)
        } else if set_but_empty(self.repo_owner) {
            Some(ConfigError::MissingOwner)
        } else if set_but_empty(self.repo_name) {
            Some(ConfigError::MissingName)
        } else if set_but_empty(self.log_level) {
            Some(ConfigError::MissingLogLevel)
        } else {
            None
        }
    }

    pub open spec fn effective_log_level(self) -> Seq<char> {
        match self.log_level {
            Some(l) => l,
            None => default_log_level(),
        }
    }

    /// The configuration that these values give when `load_error` is `None`.
    pub open spec fn loaded(self) -> ConfigView {
        ConfigView {
            token: self.github_token.unwrap(),
            owner: self.repo_owner.unwrap(),
            name: self.repo_name.unwrap(),
            log_level: self.effective_log_level(),
        }
    }
}

/// The configuration of one run.
pub struct Config {
    github_token: String,
    pub repo_owner: String,
    pub repo_name: String,
    pub log_level: String,
}

pub struct ConfigView {
    pub token: Seq<char>,
    pub owner: Seq<char>,
    pub name: Seq<char>,
    pub log_level: Seq<char>,
}

impl ConfigView {
    pub open spec fn wf(self) -> bool {
        &&& self.token.len() > 0
        &&& self.owner.len() > 0
        &&& self.name.len() > 0
        &&& self.log_level.len() > 0
    }

    /// The first empty field, in the order token, owner, name, log level.
    pub open spec fn first_empty(self) -> Option<ConfigError> {
        if self.token.len() == 0 {
            Some(ConfigError::MissingToken)
        } else if self.owner.len() == 0 {
            Some(ConfigError::MissingOwner)
        } else if self.name.len() == 0 {
            Some(ConfigError::MissingName)
        } else if self.log_level.len() == 0 {
            Some(ConfigError::MissingLogLevel)
        } else {
            None
        }
    }
}

impl Config {
    /// The four values, the token included.
    pub closed spec fn view(&self) -> ConfigView {
        ConfigView {
            token: self.github_token@,
            owner: self.repo_owner@,
            name: self.repo_name@,
            log_level: self.log_level@,
        }
    }
}

impl Config {
    /// Builds the configuration from the values of the environment: the three
    /// required variables are read first, then the four values are validated.
    pub fn from_vars(vars: EnvVars) -> (r: Result<Config, ConfigError>)
        ensures
            r is Err <==> vars@.load_error() is Some,
            r matches Err(e) ==> vars@.load_error() == Some(e),
            r matches Ok(c) ==> c@ == vars@.loaded() && c@.wf(),
    {
        let EnvVars { github_token, repo_owner, repo_name, log_level } = vars;
        let github_token = match github_token {
            Some(t) => t,
            None => return Err(ConfigError::MissingToken),
        };
        let repo_owner = match repo_owner {
            Some(o) => o,
            None => return Err(ConfigError::MissingOwner),
        };
        let repo_name = match repo_name {
            Some(n) => n,
            None => return Err(ConfigError::MissingName),
        };
        let log_level = match log_level {
            Some(l) => l,
            None => {
                proof {
                    reveal_strlit("info");
                }
                String::from_str("info")
            },
        };
        let config = Config { github_token, repo_owner, repo_name, log_level };
        match config.validate() {
            Ok(()) => Ok(config),
            Err(e) => Err(e),
        }
    }

    /// Checks that no field is empty, reporting the first empty one.
    pub fn validate(&self) -> (r: Result<(), ConfigError>)
        ensures
            r is Ok <==> self@.wf(),
            r matches Err(e) ==> self@.first_empty() == Some(e),
    {
        if self.github_token.as_str().unicode_len() == 0 {
            return Err(ConfigError::MissingToken);
        }
        if self.repo_owner.as_str().unicode_len() == 0 {
            return Err(ConfigError::MissingOwner);
        }
        if self.repo_name.as_str().unicode_len() == 0 {
            return Err(ConfigError::MissingName);
        }
        if self.log_level.as_str().unicode_len() == 0 {
            return Err(ConfigError::MissingLogLevel);
        }
        Ok(())
    }

    /// A copy of the token.
    pub fn github_token(&self) -> (r: String)
        ensures
            r@ == self@.token,
    {
        self.github_token.clone()
    }

    pub fn repo_owner(&self) -> (r: &String)
        ensures
            r@ == self@.owner,
    {
        &self.repo_owner
    }

    pub fn repo_name(&self) -> (r: &String)
        ensures
            r@ == self@.name,
    {
        &self.repo_name
    }

    pub fn log_level(&self) -> (r: &String)
        ensures
            r@ == self@.log_level,
    {
        &self.log_level
    }
}

/// When the three required variables are set and non-empty, and `LOG_LEVEL`
/// is not set to the empty string, loading succeeds; with `LOG_LEVEL` unset
/// the log level is `info`.
pub proof fn lemma_complete_environment_loads(vars: EnvVarsView)
    requires
        vars.github_token matches Some(t) && t.len() > 0,
        vars.repo_owner matches Some(o) && o.len() > 0,
        vars.repo_name matches Some(n) && n.len() > 0,
        !set_but_empty(vars.log_level),
    ensures
        vars.load_error() is None,
        vars.loaded().wf(),
        vars.log_level is None ==> vars.loaded().log_level == "info"@,
{
    reveal_strlit("info");
}

/// `LOG_LEVEL` set to the empty string makes loading fail, although leaving
/// it unset would not; the failure names the log level when nothing else is
/// wrong.
pub proof fn lemma_empty_log_level_fails(vars: EnvVarsView)
    requires
        set_but_empty(vars.log_level),
    ensures
        vars.load_error() is Some,
        (vars.github_token matches Some(t) && t.len() > 0) && (vars.repo_owner matches Some(o)
            && o.len() > 0) && (vars.repo_name matches Some(n) && n.len() > 0) ==> vars.load_error()
            == Some(ConfigError::MissingLogLevel),
{
}

} // verus!
