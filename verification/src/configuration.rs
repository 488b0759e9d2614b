//! Where the objects go: the appliance and the folder on it.

use vstd::prelude::*;
use vstd::string::*;

use crate::text::{chars_of, opt_view, strip_prefix, without_prefix};

verus! {

/// The appliance's address and the folder on it that holds the objects.
#[derive(Clone, Debug)]
pub struct Configuration {
    pub nas_url: String,
    pub path: String,
}

/// Why a value of `lfs.url` gives no configuration.
#[derive(Clone, Copy, Debug, PartialEq, Eq, Structural)]
pub enum ConfigError {
    /// The value begins with neither `filestation://` nor `filestation-secure://`.
    UnknownScheme,
    /// The value is no URL.
    InvalidUrl,
    /// The URL has no path that begins with `/`.
    InvalidPath,
}

/// A URL in two parts: what stands before its path, and its path.
#[derive(Clone, Debug)]
pub struct UrlParts {
    pub base: String,
    pub path: String,
}

/// What `url::Url::parse` makes of a text: the serialized URL before its
/// path and the path, or nothing where the text is no absolute URL.
pub uninterp spec fn url_parts(text: Seq<char>) -> Option<(Seq<char>, Seq<char>)>;

/// Calls `url::Url::parse` and takes from the parsed URL its path and what
/// stands before the path. The contract only names what the crate computes.
#[verifier::external_body]
pub(crate) fn split_url(text: &str) -> (r: Option<UrlParts>)
    ensures
        match r {
            Some(parts) => url_parts(text@) == Some((parts.base@, parts.path@)),
            None => url_parts(text@) is None,
        },
{
    match url::Url::parse(text) {
        Ok(parsed) => Some(
            UrlParts {
                base: parsed[..url::Position::BeforePath].to_string(),
                path: parsed.path().to_string(),
            },
        ),
        Err(_) => None,
    }
}

/// The value of `lfs.url` with its scheme rewritten: `filestation-secure`
/// becomes `https`, `filestation` becomes `http`.
pub open spec fn rewritten_scheme(value: Seq<char>) -> Option<Seq<char>> {
    match without_prefix(value, "filestation-secure://"@) {
        Some(rest) => Some("https://"@ + rest),
        None => match without_prefix(value, "filestation://"@) {
            Some(rest) => Some("http://"@ + rest),
            None => None,
        },
    }
}

/// A path without the slashes at its end; the root stays as it is.
pub open spec fn trimmed_path(path: Seq<char>) -> Seq<char>
    decreases path.len(),
{
    if path.len() > 1 && path.last() == '/' {
        trimmed_path(path.drop_last())
    } else {
        path
    }
}

/// The configuration that the two parts of a URL give.
pub open spec fn spec_from_parts(base: Seq<char>, path: Seq<char>) -> Result<
    (Seq<char>, Seq<char>),
    ConfigError,
> {
    if path.len() > 0 && path[0] == '/' {
        Ok((base, trimmed_path(path)))
    } else {
        Err(ConfigError::InvalidPath)
    }
}

/// The configuration that a value of `lfs.url` gives, over what the URL
/// parser makes of the rewritten value.
pub open spec fn spec_load(value: Seq<char>) -> Result<(Seq<char>, Seq<char>), ConfigError> {
    match rewritten_scheme(value) {
        None => Err(ConfigError::UnknownScheme),
        Some(rewritten) => match url_parts(rewritten) {
            None => Err(ConfigError::InvalidUrl),
            Some((base, path)) => spec_from_parts(base, path),
        },
    }
}

/// The path trims to a path that still begins with `/` and ends with `/`
/// only where it is the root.
pub proof fn lemma_trimmed_path(path: Seq<char>)
    requires
        path.len() > 0,
        path[0] == '/',
    ensures
        trimmed_path(path).len() > 0,
        trimmed_path(path)[0] == '/',
        trimmed_path(path).last() == '/' ==> trimmed_path(path) == seq!['/'],
    decreases path.len(),
{
    if path.len() > 1 && path.last() == '/' {
        lemma_trimmed_path(path.drop_last());
    } else if path.last() == '/' {
        assert(path =~= seq!['/']);
    }
}

/// Rewrites the scheme of a value of `lfs.url`.
pub fn rewrite_scheme(value: &str) -> (r: Option<String>)
    ensures
        opt_view(r) == rewritten_scheme(value@),
{
    match strip_prefix(value, "filestation-secure://") {
        Some(rest) => Some(String::from_str("https://").concat(rest.as_str())),
        None => match strip_prefix(value, "filestation://") {
            Some(rest) => Some(String::from_str("http://").concat(rest.as_str())),
            None => None,
        },
    }
}

/// The address of the appliance for a URL as the user gives it. A URL that
/// begins with neither of the two schemes is refused.
pub fn appliance_url(url: &str) -> (r: Result<String, ConfigError>)
    ensures
        match rewritten_scheme(url@) {
            Some(address) => r matches Ok(built) && built@ == address,
            None => r matches Err(e) && e == ConfigError::UnknownScheme,
        },
{
    match rewrite_scheme(url) {
        Some(address) => Ok(address),
        None => Err(ConfigError::UnknownScheme),
    }
}

fn trim_path(path: &str) -> (r: String)
    requires
        path@.len() > 0,
        path@[0] == '/',
    ensures
        r@ == trimmed_path(path@),
{
    let chars = chars_of(path);
    let mut n: usize = chars.len();
    assert(chars@.take(n as int) =~= chars@);
    while n > 1 && chars[n - 1] == '/'
        invariant
            1 <= n <= chars.len(),
            trimmed_path(chars@) == trimmed_path(chars@.take(n as int)),
        decreases n,
    {
        assert(chars@.take(n as int).drop_last() =~= chars@.take(n - 1));
        n = n - 1;
    }
    assert(chars@.take(n as int) =~= path@.subrange(0, n as int));
    path.substring_char(0, n).to_string()
}

impl Configuration {
    /// Whether the configuration is well formed: the folder's path begins
    /// with `/` and ends with `/` only where it is the root.
    pub open spec fn wf(&self) -> bool {
        &&& self.path@.len() > 0
        &&& self.path@[0] == '/'
        &&& self.path@.last() == '/' ==> self.path@ == seq!['/']
    }

    /// The configuration for an appliance at `base` and the folder `path`.
    /// The path must begin with `/`; slashes at its end are dropped.
    pub fn from_parts(base: String, path: String) -> (r: Result<Configuration, ConfigError>)
        ensures
            match spec_from_parts(base@, path@) {
                Ok((nas_url, folder)) => r matches Ok(c) && c.nas_url@ == nas_url && c.path@ == folder
                    && c.wf(),
                Err(e) => r matches Err(failure) && failure == e,
            },
    {
        let n = path.as_str().unicode_len();
        if n == 0 || path.as_str().get_char(0) != '/' {
            return Err(ConfigError::InvalidPath);
        }
        proof {
            lemma_trimmed_path(path@);
        }
        let trimmed = trim_path(path.as_str());
        Ok(Configuration { nas_url: base, path: trimmed })
    }

    /// The configuration that the value of `lfs.url` gives. The value's
    /// scheme is rewritten, the result is parsed as a URL; what stands before
    /// the URL's path is the appliance's address and the path is the folder.
    pub fn load(lfs_url: &str) -> (r: Result<Configuration, ConfigError>)
        ensures
            match spec_load(lfs_url@) {
                Ok((nas_url, folder)) => r matches Ok(c) && c.nas_url@ == nas_url && c.path@ == folder
                    && c.wf(),
                Err(e) => r matches Err(failure) && failure == e,
            },
    {
        let rewritten = match rewrite_scheme(lfs_url) {
            Some(rewritten) => rewritten,
            None => {
                return Err(ConfigError::UnknownScheme);
            },
        };
        match split_url(rewritten.as_str()) {
            Some(parts) => Self::from_parts(parts.base, parts.path),
            None => Err(ConfigError::InvalidUrl),
        }
    }
}

} // verus!
