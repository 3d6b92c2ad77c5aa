use vstd::prelude::*;

verus! {

/// Partially-specified endpoint configuration, as read from the
/// configuration document: every field may be absent.
#[derive(Debug)]
pub struct RawSeikaConfig {
    pub url: Option<String>,
    pub username: Option<String>,
    pub password: Option<String>,
}

/// Mathematical model of a [`RawSeikaConfig`].
pub ghost struct RawSeikaConfigV {
    pub url: Option<Seq<char>>,
    pub username: Option<Seq<char>>,
    pub password: Option<Seq<char>>,
}

impl View for RawSeikaConfig {
    type V = RawSeikaConfigV;

    open spec fn view(&self) -> RawSeikaConfigV {
        RawSeikaConfigV {
            url: match self.url {
                Some(s) => Some(s@),
                None => None,
            },
            username: match self.username {
                Some(s) => Some(s@),
                None => None,
            },
            password: match self.password {
                Some(s) => Some(s@),
                None => None,
            },
        }
    }
}

/// The components of a parsed URL that the resolver reads: scheme, host,
/// explicit port, path, and whether the URL is hierarchical (can serve as a
/// base for relative references).
#[derive(Debug)]
pub struct UrlParts {
    pub scheme: String,
    pub host: Option<String>,
    pub port: Option<u16>,
    pub path: String,
    pub can_be_base: bool,
}

/// Mathematical model of [`UrlParts`].
pub ghost struct UrlPartsV {
    pub scheme: Seq<char>,
    pub host: Option<Seq<char>>,
    pub port: Option<u16>,
    pub path: Seq<char>,
    pub can_be_base: bool,
}

impl View for UrlParts {
    type V = UrlPartsV;

    open spec fn view(&self) -> UrlPartsV {
        UrlPartsV {
            scheme: self.scheme@,
            host: match self.host {
                Some(h) => Some(h@),
                None => None,
            },
            port: self.port,
            path: self.path@,
            can_be_base: self.can_be_base,
        }
    }
}

/// The components of the URL that `url::Url::parse` yields on a given
/// string, or `None` where the string is not an absolute URL.
pub uninterp spec fn url_parse(s: Seq<char>) -> Option<UrlPartsV>;

/// Relies on `url::Url::parse` and the accessors `Url::scheme`,
/// `Url::host_str`, `Url::port`, `Url::path` and `Url::cannot_be_a_base`:
/// parsing an absolute URL string and reading its components off the result
/// is a function of the string alone.
#[verifier::external_body]
fn parse_url(s: &str) -> (r: Option<UrlParts>)
    ensures
        match r {
            Some(p) => url_parse(s@) == Some(p@),
            None => url_parse(s@) is None,
        },
{
    match url::Url::parse(s) {
        Ok(u) => Some(UrlParts {
            scheme: u.scheme().to_string(),
            host: u.host_str().map(|h| h.to_string()),
            port: u.port(),
            path: u.path().to_string(),
            can_be_base: !u.cannot_be_a_base(),
        }),
        Err(_) => None,
    }
}

/// Fully-specified, validated actuation-server descriptor: the endpoint
/// always carries a non-empty scheme, a host and an explicit port, together
/// with the credentials for Basic authentication.
#[derive(Debug)]
pub struct SeikaConfig {
    pub scheme: String,
    pub host: String,
    pub port: u16,
    pub path: String,
    pub username: String,
    pub password: String,
}

/// Mathematical model of a [`SeikaConfig`].
pub ghost struct SeikaConfigV {
    pub scheme: Seq<char>,
    pub host: Seq<char>,
    pub port: u16,
    pub path: Seq<char>,
    pub username: Seq<char>,
    pub password: Seq<char>,
}

impl View for SeikaConfig {
    type V = SeikaConfigV;

    open spec fn view(&self) -> SeikaConfigV {
        SeikaConfigV {
            scheme: self.scheme@,
            host: self.host@,
            port: self.port,
            path: self.path@,
            username: self.username@,
            password: self.password@,
        }
    }
}

impl SeikaConfig {
    /// Descriptor invariant established by resolution: the scheme is never
    /// empty (the port is explicit by construction, being a plain field).
    pub open spec fn wf(&self) -> bool {
        self@.scheme.len() > 0
    }
}

/// Unrecoverable startup failures of endpoint resolution.
#[derive(Debug, PartialEq, Eq, Clone, Copy)]
pub enum ConfigError {
    /// The configured URL string cannot be parsed as an absolute URL.
    UnparseableUrl,
    /// The configured URL cannot host a path component (a non-hierarchical
    /// scheme such as `data:` or `mailto:`).
    NonHierarchicalUrl,
}

/// The URL components used when no URL is configured: those of
/// `http://localhost:7180`.
pub open spec fn spec_default_url_parts() -> UrlPartsV {
    UrlPartsV {
        scheme: "http"@,
        host: Some("localhost"@),
        port: Some(7180u16),
        path: "/"@,
        can_be_base: true,
    }
}

/// The parsed URL components a raw configuration stands for: the parse of
/// its URL string where one is given, the fixed defaults where none is.
pub open spec fn spec_parts_of_raw(u: Option<Seq<char>>) -> Option<UrlPartsV> {
    match u {
        Some(s) => url_parse(s),
        None => Some(spec_default_url_parts()),
    }
}

/// Independent defaulting of each missing URL component: an empty scheme
/// becomes `http`, an absent host becomes `localhost`, an absent port
/// becomes 7180. Components that are present are kept as given.
pub open spec fn spec_resolve_parts(p: UrlPartsV, username: Option<Seq<char>>, password: Option<Seq<char>>) -> SeikaConfigV {
    SeikaConfigV {
        scheme: if p.scheme.len() == 0 {
            "http"@
        } else {
            p.scheme
        },
        host: match p.host {
            Some(h) => h,
            None => "localhost"@,
        },
        port: match p.port {
            Some(pt) => pt,
            None => 7180u16,
        },
        path: p.path,
        username: match username {
            Some(u) => u,
            None => "SeikaServerUser"@,
        },
        password: match password {
            Some(pw) => pw,
            None => "SeikaServerPassword"@,
        },
    }
}

/// What resolution returns on a raw configuration: the error owed on an
/// unparseable or non-hierarchical URL, otherwise the defaulted descriptor.
pub open spec fn spec_resolve(raw: RawSeikaConfigV) -> Result<SeikaConfigV, ConfigError> {
    match spec_parts_of_raw(raw.url) {
        None => Err(ConfigError::UnparseableUrl),
        Some(p) => if !p.can_be_base {
            Err(ConfigError::NonHierarchicalUrl)
        } else {
            Ok(spec_resolve_parts(p, raw.username, raw.password))
        },
    }
}

/// Turn a partially-specified configuration into a validated descriptor.
/// An absent URL stands for `http://localhost:7180`; a present one is
/// parsed, rejected when unparseable or non-hierarchical, and has exactly
/// its missing components defaulted. Absent credentials become the fixed
/// placeholder strings.
pub fn seika_config_from(raw: RawSeikaConfig) -> (r: Result<SeikaConfig, ConfigError>)
    ensures
        match r {
            Ok(c) => spec_resolve(raw@) == Ok::<SeikaConfigV, ConfigError>(c@) && c.wf(),
            Err(e) => spec_resolve(raw@) == Err::<SeikaConfigV, ConfigError>(e),
        },
{
    let parts: UrlParts = match raw.url {
        None => UrlParts {
            scheme: "http".to_owned(),
            host: Some("localhost".to_owned()),
            port: Some(7180),
            path: "/".to_owned(),
            can_be_base: true,
        },
        Some(s) => match parse_url(s.as_str()) {
            None => {
                return Err(ConfigError::UnparseableUrl);
            },
            Some(p) => p,
        },
    };
    if !parts.can_be_base {
        return Err(ConfigError::NonHierarchicalUrl);
    }
    let scheme = if parts.scheme.as_str().is_empty() {
        proof {
            reveal_strlit("http");
        }
        "http".to_owned()
    } else {
        parts.scheme
    };
    let host = match parts.host {
        Some(h) => h,
        None => "localhost".to_owned(),
    };
    let port = match parts.port {
        Some(pt) => pt,
        None => 7180,
    };
    let username = match raw.username {
        Some(u) => u,
        None => "SeikaServerUser".to_owned(),
    };
    let password = match raw.password {
        Some(pw) => pw,
        None => "SeikaServerPassword".to_owned(),
    };
    Ok(SeikaConfig { scheme, host, port, path: parts.path, username, password })
}

/// Defaulting totality: a configuration that leaves every field absent
/// resolves successfully, to exactly the descriptor
/// `http://localhost:7180` with the placeholder credentials; and whenever
/// only the URL is absent, the endpoint components are still exactly those
/// defaults.
pub proof fn lemma_defaulting_totality(raw: RawSeikaConfigV)
    requires
        raw.url is None,
    ensures
        spec_resolve(raw) is Ok,
        spec_resolve(raw)->Ok_0.scheme == "http"@,
        spec_resolve(raw)->Ok_0.host == "localhost"@,
        spec_resolve(raw)->Ok_0.port == 7180u16,
        raw.username is None ==> spec_resolve(raw)->Ok_0.username == "SeikaServerUser"@,
        raw.password is None ==> spec_resolve(raw)->Ok_0.password == "SeikaServerPassword"@,
{
    reveal_strlit("http");
}

/// Defaulting is non-destructive: where the configured URL parses and does
/// specify a scheme, a host or a port, resolution preserves the given
/// component and defaults only the missing ones.
pub proof fn lemma_defaulting_non_destructive(raw: RawSeikaConfigV, p: UrlPartsV)
    requires
        raw.url matches Some(s) && url_parse(s) == Some(p),
        p.can_be_base,
    ensures
        spec_resolve(raw) is Ok,
        p.scheme.len() > 0 ==> spec_resolve(raw)->Ok_0.scheme == p.scheme,
        p.host matches Some(h) ==> spec_resolve(raw)->Ok_0.host == h,
        p.port matches Some(pt) ==> spec_resolve(raw)->Ok_0.port == pt,
        p.scheme.len() == 0 ==> spec_resolve(raw)->Ok_0.scheme == "http"@,
        p.host is None ==> spec_resolve(raw)->Ok_0.host == "localhost"@,
        p.port is None ==> spec_resolve(raw)->Ok_0.port == 7180u16,
{
}

/// Idempotence of resolution: it is a pure function of the raw
/// configuration, so two descriptors resolved from the same raw
/// configuration are identical, component for component.
pub proof fn lemma_resolution_idempotent(raw: RawSeikaConfigV, c1: SeikaConfigV, c2: SeikaConfigV)
    requires
        spec_resolve(raw) == Ok::<SeikaConfigV, ConfigError>(c1),
        spec_resolve(raw) == Ok::<SeikaConfigV, ConfigError>(c2),
    ensures
        c1 == c2,
{
}

} // verus!
