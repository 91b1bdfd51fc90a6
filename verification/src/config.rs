//! The service configuration: its defaults, the API key, the TLS settings and
//! the bearer-token check that guards the hardware report.

use vstd::prelude::*;
use crate::text::{trimmed, trim_text, lemma_trimmed_empty_iff_blank, blank};

verus! {

/// Port the service listens on when the configuration names none.
pub const DEFAULT_PORT: u16 = 8477;

/// Number of characters of a generated API key.
pub const API_KEY_LEN: usize = 32;

/// The configuration of the service.
#[derive(Debug, Clone)]
pub struct Config {
    pub host: String,
    pub port: u16,
    pub api_key: String,
    pub require_auth: bool,
    pub tls_cert_path: Option<String>,
    pub tls_key_path: Option<String>,
}

/// Why a configuration is refused.
#[derive(Debug, Clone, Copy, PartialEq, Eq, Structural)]
pub enum ConfigError {
    /// Only one of the certificate and the key is configured, or one of them
    /// is an empty path.
    IncompleteTls,
}

impl ConfigError {
    /// The message that reports the error.
    pub fn message(&self) -> (r: String)
        ensures
            r@ == "tls_cert_path and tls_key_path must both be configured"@,
    {
        match self {
            ConfigError::IncompleteTls => "tls_cert_path and tls_key_path must both be configured".to_owned(),
        }
    }
}

/// The text of an optional string.
pub open spec fn opt_view(o: Option<String>) -> Option<Seq<char>> {
    match o {
        Some(s) => Some(s@),
        None => None,
    }
}

/// A TLS setting is usable when neither path is given, or both are given and
/// neither is empty.
pub open spec fn tls_pair_valid(cert: Option<Seq<char>>, key: Option<Seq<char>>) -> bool {
    match (cert, key) {
        (None, None) => true,
        (Some(c), Some(k)) => c.len() > 0 && k.len() > 0,
        _ => false,
    }
}

/// An ASCII letter or digit.
pub open spec fn alphanumeric(c: char) -> bool {
    let v = c as u32;
    ||| 0x30 <= v <= 0x39
    ||| 0x41 <= v <= 0x5a
    ||| 0x61 <= v <= 0x7a
}

/// What every generated API key is: 32 ASCII letters and digits.
pub open spec fn valid_api_key(key: Seq<char>) -> bool {
    &&& key.len() == API_KEY_LEN
    &&& forall|i: int| 0 <= i < key.len() ==> alphanumeric(#[trigger] key[i])
}

/// The parent directory of a path, as `Path::parent` gives it.
pub uninterp spec fn parent_of(path: Seq<char>) -> Option<Seq<char>>;

/// Whether a path is absolute, as `Path::is_absolute` decides it.
pub uninterp spec fn absolute_path(path: Seq<char>) -> bool;

/// `path` adjoined to `base`, as `Path::join` gives it.
pub uninterp spec fn joined_path(base: Seq<char>, path: Seq<char>) -> Seq<char>;

/// The directory against which relative TLS paths are read: the directory of
/// the configuration file, or `.` where the path has no parent.
pub open spec fn base_of(parent: Option<Seq<char>>) -> Seq<char> {
    match parent {
        Some(p) => p,
        None => seq!['.'],
    }
}

/// A TLS path as the service opens it: an absolute path as it is, a relative
/// one adjoined to `base`.
pub open spec fn resolved(base: Seq<char>, path: Seq<char>) -> Seq<char> {
    if absolute_path(path) {
        path
    } else {
        joined_path(base, path)
    }
}

/// The text of a pair of optional paths.
pub open spec fn paths_view(r: Result<Option<(String, String)>, ConfigError>) -> Result<
    Option<(Seq<char>, Seq<char>)>,
    ConfigError,
> {
    match r {
        Ok(Some((c, k))) => Ok(Some((c@, k@))),
        Ok(None) => Ok(None),
        Err(e) => Err(e),
    }
}

/// The key is blank once trimmed, so that a new one is generated.
pub open spec fn key_missing(key: Seq<char>) -> bool {
    trimmed(key).len() == 0
}

/// `after` and `generated` are what settling the API key of `before` gives:
/// a blank key is replaced by a generated one and reported, any other key is
/// kept and nothing is reported.
pub open spec fn api_key_settled(before: Config, after: Config, generated: bool) -> bool {
    if key_missing(before.api_key@) {
        &&& generated
        &&& valid_api_key(after.api_key@)
        &&& after == (Config { api_key: after.api_key, ..before })
    } else {
        &&& !generated
        &&& after == before
    }
}

/// The header value that authenticates a request under `key`.
pub open spec fn bearer_header(key: Seq<char>) -> Seq<char> {
    "Bearer "@ + key
}

impl Config {
    /// The configuration is usable: its TLS setting is complete.
    pub open spec fn tls_valid(&self) -> bool {
        tls_pair_valid(opt_view(self.tls_cert_path), opt_view(self.tls_key_path))
    }

    /// What validation answers.
    pub open spec fn validation(&self) -> Result<(), ConfigError> {
        if self.tls_valid() {
            Ok(())
        } else {
            Err(ConfigError::IncompleteTls)
        }
    }

    /// The certificate and key paths that the service serves TLS with, for a
    /// configuration read from `config_path`.
    pub open spec fn tls_paths_result(&self, config_path: Seq<char>) -> Result<
        Option<(Seq<char>, Seq<char>)>,
        ConfigError,
    > {
        if !self.tls_valid() {
            Err(ConfigError::IncompleteTls)
        } else {
            match (self.tls_cert_path, self.tls_key_path) {
                (Some(c), Some(k)) => {
                    let base = base_of(parent_of(config_path));
                    Ok(Some((resolved(base, c@), resolved(base, k@))))
                },
                _ => Ok(None),
            }
        }
    }

    /// The configuration that a first start writes: the default host, port
    /// and authentication, a generated key and no TLS.
    pub open spec fn is_default(&self) -> bool {
        &&& self.host@ == "127.0.0.1"@
        &&& self.port == DEFAULT_PORT
        &&& valid_api_key(self.api_key@)
        &&& self.require_auth
        &&& self.tls_cert_path is None
        &&& self.tls_key_path is None
    }

    /// Checks that the TLS certificate and key are configured together.
    pub fn validate(&self) -> (r: Result<(), ConfigError>)
        ensures
            r == self.validation(),
    {
        match (&self.tls_cert_path, &self.tls_key_path) {
            (None, None) => Ok(()),
            (Some(cert), Some(key)) => {
                if !cert.as_str().is_empty() && !key.as_str().is_empty() {
                    Ok(())
                } else {
                    Err(ConfigError::IncompleteTls)
                }
            },
            _ => Err(ConfigError::IncompleteTls),
        }
    }

    /// The certificate and key paths to serve TLS with, for a configuration
    /// read from `config_path`: none when TLS is not configured, both read
    /// against the configuration's directory when they are relative, and an
    /// error when only one is configured or one is empty.
    pub fn tls_paths(&self, config_path: &str) -> (r: Result<Option<(String, String)>, ConfigError>)
        ensures
            paths_view(r) == self.tls_paths_result(config_path@),
    {
        match (&self.tls_cert_path, &self.tls_key_path) {
            (None, None) => Ok(None),
            (Some(cert), Some(key)) => {
                if !cert.as_str().is_empty() && !key.as_str().is_empty() {
                    let base = base_dir(path_parent(config_path));
                    let cert_path = resolve_path(base.as_str(), cert.as_str());
                    let key_path = resolve_path(base.as_str(), key.as_str());
                    Ok(Some((cert_path, key_path)))
                } else {
                    Err(ConfigError::IncompleteTls)
                }
            },
            _ => Err(ConfigError::IncompleteTls),
        }
    }

    /// Settles the API key of a configuration read from disk: a key that is
    /// blank once trimmed is replaced by a generated one, and the second
    /// component says whether that happened (the file then needs saving).
    pub fn ensure_api_key(self) -> (r: (Config, bool))
        ensures
            api_key_settled(self, r.0, r.1),
    {
        let missing = trim_text(self.api_key.as_str()).as_str().is_empty();
        if missing {
            let mut config = self;
            config.api_key = generate_api_key();
            (config, true)
        } else {
            (self, false)
        }
    }

    /// Whether a request with the `Authorization` header value
    /// `authorization` may read the report: always when authentication is
    /// off, otherwise only with `Bearer ` followed by the API key.
    pub fn authorizes(&self, authorization: Option<&str>) -> (r: bool)
        ensures
            r == (!self.require_auth || (authorization matches Some(h) && h@ == bearer_header(
                self.api_key@,
            ))),
    {
        if !self.require_auth {
            return true;
        }
        match authorization {
            Some(h) => {
                let given = h.to_owned();
                let mut expected = "Bearer ".to_owned();
                expected.append(self.api_key.as_str());
                given == expected
            },
            None => false,
        }
    }
}

impl Default for Config {
    /// The configuration of a first start: localhost, the default port,
    /// authentication on, a generated key and no TLS.
    fn default() -> (r: Self)
        ensures
            r.is_default(),
    {
        Config {
            host: default_host(),
            port: default_port(),
            api_key: generate_api_key(),
            require_auth: default_require_auth(),
            tls_cert_path: None,
            tls_key_path: None,
        }
    }
}

/// The host the service listens on when the configuration names none.
pub fn default_host() -> (r: String)
    ensures
        r@ == "127.0.0.1"@,
{
    "127.0.0.1".to_owned()
}

/// The port the service listens on when the configuration names none.
pub fn default_port() -> (r: u16)
    ensures
        r == DEFAULT_PORT,
{
    DEFAULT_PORT
}

/// Whether the report requires the API key when the configuration does not
/// say.
pub fn default_require_auth() -> (r: bool)
    ensures
        r,
{
    true
}

/// One ASCII letter or digit, drawn uniformly.
///
/// Trusted: calls `rand::Rng::sample` with `rand::distr::Alphanumeric` on the
/// thread-local generator of `rand::rng()`, and widens the byte to a `char`.
/// The claim is that the byte is one of `A-Z`, `a-z`, `0-9`, which is the
/// character set that distribution draws from. Which character comes out is
/// left unsaid; creating the generator panics if the operating system has no
/// randomness to seed it with.
#[verifier::external_body]
fn sample_alphanumeric() -> (c: char)
    ensures
        alphanumeric(c),
{
    let mut rng = rand::rng();
    char::from(rand::Rng::sample(&mut rng, rand::distr::Alphanumeric))
}

/// The API key made of the drawn characters, in the order drawn.
pub fn api_key_from(draws: &Vec<char>) -> (key: String)
    requires
        draws@.len() == API_KEY_LEN,
        forall|i: int| 0 <= i < draws@.len() ==> alphanumeric(#[trigger] draws@[i]),
    ensures
        key@ == draws@,
        valid_api_key(key@),
{
    let mut key = String::new();
    let n = draws.len();
    for i in 0..n
        invariant
            n == draws@.len(),
            key@ == draws@.subrange(0, i as int),
    {
        crate::text::push_char(&mut key, draws[i]);
        assert(key@ =~= draws@.subrange(0, i + 1));
    }
    assert(key@ =~= draws@);
    key
}

/// A fresh API key of 32 random ASCII letters and digits: 32 characters
/// drawn one after another from the thread's random generator.
pub fn generate_api_key() -> (key: String)
    ensures
        valid_api_key(key@),
{
    let mut draws: Vec<char> = Vec::new();
    let mut i: usize = 0;
    while i < API_KEY_LEN
        invariant
            i <= API_KEY_LEN,
            draws@.len() == i,
            forall|j: int| 0 <= j < i ==> alphanumeric(#[trigger] draws@[j]),
        decreases API_KEY_LEN - i,
    {
        let c = sample_alphanumeric();
        draws.push(c);
        i = i + 1;
    }
    api_key_from(&draws)
}

/// Where the configuration file lives by default, given the platform's
/// configuration directory: `sprout/config.toml` inside it, or
/// `config.toml` in the current directory where the platform has none.
pub fn default_config_path(config_dir: Option<String>) -> (r: String)
    ensures
        r@ == (match opt_view(config_dir) {
            Some(dir) => joined_path(joined_path(dir, "sprout"@), "config.toml"@),
            None => "config.toml"@,
        }),
{
    match config_dir {
        Some(dir) => {
            let app_dir = path_join(dir.as_str(), "sprout");
            path_join(app_dir.as_str(), "config.toml")
        },
        None => "config.toml".to_owned(),
    }
}

/// The parent directory of `path`.
///
/// Trusted: calls `std::path::Path::parent`, converting the parent back to a
/// string. The claim is only that the result is a function of the path; the
/// platform's rule for components is left unsaid.
#[verifier::external_body]
fn path_parent(path: &str) -> (r: Option<String>)
    ensures
        opt_view(r) == parent_of(path@),
{
    match std::path::Path::new(path).parent() {
        Some(p) => Some(p.to_string_lossy().into_owned()),
        None => None,
    }
}

/// Whether `path` is absolute.
///
/// Trusted: calls `std::path::Path::is_absolute`. The claim is only that the
/// answer is a function of the path; the platform's rule is left unsaid.
#[verifier::external_body]
fn path_is_absolute(path: &str) -> (r: bool)
    ensures
        r == absolute_path(path@),
{
    std::path::Path::new(path).is_absolute()
}

/// `path` adjoined to `base`.
///
/// Trusted: calls `std::path::Path::join`, converting the result back to a
/// string. The claim is only that the result is a function of the two paths.
#[verifier::external_body]
fn path_join(base: &str, path: &str) -> (r: String)
    ensures
        r@ == joined_path(base@, path@),
{
    std::path::Path::new(base).join(path).to_string_lossy().into_owned()
}

/// The directory that relative TLS paths are read against, given the parent
/// of the configuration file's path: that parent, or `.` where there is none.
pub fn base_dir(parent: Option<String>) -> (r: String)
    ensures
        r@ == base_of(opt_view(parent)),
{
    match parent {
        Some(p) => p,
        None => {
            let dot = ".".to_owned();
            proof {
                reveal_strlit(".");
                assert(dot@ =~= seq!['.']);
            }
            dot
        },
    }
}

/// `path` as the service opens it: unchanged when absolute, otherwise
/// adjoined to `base`.
pub fn resolve_path(base: &str, path: &str) -> (r: String)
    ensures
        r@ == resolved(base@, path@),
{
    if path_is_absolute(path) {
        path.to_owned()
    } else {
        path_join(base, path)
    }
}

/// TLS paths are handed out exactly when the configuration passes
/// validation, whatever the configuration's own path.
pub proof fn lemma_tls_paths_agree_with_validate(config: Config, config_path: Seq<char>)
    ensures
        config.tls_paths_result(config_path) is Ok <==> config.validation() is Ok,
        config.tls_paths_result(config_path) is Err ==> config.tls_paths_result(config_path)
            == Err::<Option<(Seq<char>, Seq<char>)>, ConfigError>(ConfigError::IncompleteTls),
{
}

/// The configuration of a first start passes validation and serves no TLS.
pub proof fn lemma_default_config_valid(config: Config, config_path: Seq<char>)
    requires
        config.is_default(),
    ensures
        config.validation() is Ok,
        config.tls_paths_result(config_path) == Ok::<Option<(Seq<char>, Seq<char>)>, ConfigError>(
            None,
        ),
{
}

/// A generated key is never blank.
pub proof fn lemma_generated_key_present(key: Seq<char>)
    requires
        valid_api_key(key),
    ensures
        !key_missing(key),
{
    lemma_trimmed_empty_iff_blank(key);
    assert(alphanumeric(key[0]));
    assert(!blank(key));
}

/// Settling the API key settles it for good: the key that comes out is not
/// blank, and settling it again keeps it and reports nothing.
pub proof fn lemma_api_key_settles(before: Config, after: Config, generated: bool)
    requires
        api_key_settled(before, after, generated),
    ensures
        !key_missing(after.api_key@),
        api_key_settled(after, after, false),
{
    if key_missing(before.api_key@) {
        lemma_generated_key_present(after.api_key@);
    }
}


/// With authentication on, the header that is accepted is `Bearer `
/// followed by exactly the configured key, and different keys are accepted
/// under different headers, so no other key opens the report.
pub proof fn lemma_bearer_header_is_the_key(key: Seq<char>, other: Seq<char>)
    ensures
        bearer_header(key) == "Bearer "@ + key,
        bearer_header(key).len() == "Bearer "@.len() + key.len(),
        bearer_header(key).subrange("Bearer "@.len() as int, bearer_header(key).len() as int)
            == key,
        bearer_header(key) == bearer_header(other) ==> key == other,
{
    let p = "Bearer "@;
    assert((p + key).subrange(p.len() as int, (p + key).len() as int) =~= key);
    assert((p + other).subrange(p.len() as int, (p + other).len() as int) =~= other);
}

} // verus!
