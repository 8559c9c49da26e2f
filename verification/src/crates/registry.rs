//! Registry package sources: the cache layout of downloaded crate
//! archives, the download URL — hard-coded for the public registry,
//! resolved from the index configuration for alternative registries — and
//! the path handling of archive extraction.

use vstd::prelude::*;
use vstd::string::*;
use crate::text;
use crate::utils;
use crate::workspace::Workspace;

verus! {

/// A Cargo-compatible registry other than the public crates.io, identified
/// by its git index URL.
pub struct AlternativeRegistry {
    /// The URL of the registry's git index.
    pub registry_index: String,
}

impl AlternativeRegistry {
    /// The registry with the given index URL.
    pub fn new(registry_index: &str) -> (r: Self)
        ensures
            r.registry_index@ == registry_index@,
    {
        AlternativeRegistry { registry_index: registry_index.to_owned() }
    }

    /// The index URL.
    pub fn index(&self) -> (r: &str)
        ensures
            r@ == self.registry_index@,
    {
        self.registry_index.as_str()
    }

    /// The directory name the index is cached under: the escaped index
    /// URL.
    pub fn index_folder(&self) -> (r: String)
        ensures
            r@ == utils::escape_model(vstd::utf8::encode_utf8(self.registry_index@)),
    {
        utils::escape_path(self.registry_index.as_str().as_bytes())
    }
}

/// A registry a crate can come from.
pub enum Registry {
    /// The public crates.io registry.
    CratesIo,
    /// An alternative registry.
    Alternative(AlternativeRegistry),
}

/// The cache directory name of a registry: the registry key followed by
/// `-sources`.
pub open spec fn cache_folder_spec(r: Registry) -> Seq<char> {
    match r {
        Registry::CratesIo => "cratesio-sources"@,
        Registry::Alternative(a) => utils::escape_model(
            vstd::utf8::encode_utf8(a.registry_index@),
        ) + "-sources"@,
    }
}

impl Registry {
    /// The cache directory name of this registry.
    pub fn cache_folder(&self) -> (r: String)
        ensures
            r@ == cache_folder_spec(*self),
    {
        match self {
            Registry::CratesIo => "cratesio-sources".to_owned(),
            Registry::Alternative(a) => {
                let mut s = a.index_folder();
                s.append("-sources");
                s
            },
        }
    }

    /// The registry's display name: `crates.io`, or the index URL.
    pub fn name(&self) -> (r: String)
        ensures
            match self {
                Registry::CratesIo => r@ == "crates.io"@,
                Registry::Alternative(a) => r@ == a.registry_index@,
            },
    {
        match self {
            Registry::CratesIo => "crates.io".to_owned(),
            Registry::Alternative(a) => a.registry_index.clone(),
        }
    }
}

/// A crate from a registry, at one exact version.
pub struct RegistryCrate {
    /// The registry the crate comes from.
    pub registry: Registry,
    /// The crate's name.
    pub name: String,
    /// The crate's version.
    pub version: String,
    /// An SSH key authenticating against the registry index, when one is
    /// needed; it is used where the index is cloned.
    pub key: Option<String>,
}

/// Where the crate's archive is cached:
/// `<cache>/<registry-key>-sources/<name>/<name>-<version>.crate`.
pub open spec fn cache_path_spec(k: RegistryCrate, ws: &Workspace) -> Seq<char> {
    ws.root@ + "/cache"@ + "/"@ + cache_folder_spec(k.registry) + "/"@ + k.name@ + "/"@ + k.name@
        + "-"@ + k.version@ + ".crate"@
}

/// The cache archive's file name: exactly `<name>-<version>.crate`, and the
/// whole path lives under the registry's sources folder and the crate's own
/// directory.
pub proof fn lemma_cache_layout(k: RegistryCrate, ws: &Workspace)
    ensures
        cache_path_spec(k, ws) == (ws.root@ + "/cache"@ + "/"@ + cache_folder_spec(k.registry)
            + "/"@ + k.name@ + "/"@) + (k.name@ + "-"@ + k.version@ + ".crate"@),
{
    assert(cache_path_spec(k, ws) =~= (ws.root@ + "/cache"@ + "/"@ + cache_folder_spec(k.registry)
        + "/"@ + k.name@ + "/"@) + (k.name@ + "-"@ + k.version@ + ".crate"@));
}

/// The download URL on the public registry.
pub open spec fn crates_io_url(name: Seq<char>, version: Seq<char>) -> Seq<char> {
    "https://static.crates.io/crates/"@ + name + "/"@ + name + "-"@ + version + ".crate"@
}

/// The download URL an alternative registry's `dl` template gives: the
/// template with `{crate}` and `{version}` substituted, or — when it holds
/// no substitution tokens — the legacy `<dl>/<crate>/<version>/download`.
pub open spec fn alt_url(dl: Seq<char>, name: Seq<char>, version: Seq<char>) -> Seq<char> {
    if text::contains_spec(dl, "{crate}"@) || text::contains_spec(dl, "{version}"@) {
        text::replace_rep(text::replace_rep(dl, "{crate}"@, name), "{version}"@, version)
    } else {
        dl + "/"@ + name + "/"@ + version + "/download"@
    }
}

/// Whether `url` is the download URL of the crate, given the index
/// configuration handed in for alternative registries.
pub open spec fn fetch_url_ok(k: RegistryCrate, json: Option<&String>, url: Seq<char>) -> bool {
    match k.registry {
        Registry::CratesIo => url == crates_io_url(k.name@, k.version@),
        Registry::Alternative(_) => json matches Some(j) && (index_dl_of(j@) matches Some(dl)
            && url == alt_url(dl, k.name@, k.version@)),
    }
}

/// What an alternative registry's `config.json` names as its download
/// template, when the document can be understood.
pub uninterp spec fn index_dl_of(s: Seq<char>) -> Option<Seq<char>>;

/// Relies on serde_json::from_str and the Value accessors: reads the `dl`
/// template out of a registry's `config.json`.
#[verifier::external_body]
fn parse_index_config(s: &str) -> (r: Option<String>)
    ensures
        match r {
            Some(d) => index_dl_of(s@) == Some(d@),
            None => index_dl_of(s@) is None,
        },
{
    let v: serde_json::Value = serde_json::from_str(s).ok()?;
    Some(v.get("dl")?.as_str()?.to_string())
}

impl RegistryCrate {
    /// A crate of the given registry, name and version; the key, when one
    /// is given, authenticates cloning the registry index.
    pub fn new(registry: Registry, name: &str, version: &str, key: Option<String>) -> (r: Self)
        ensures
            r.registry == registry,
            r.name@ == name@,
            r.version@ == version@,
            r.key == key,
    {
        RegistryCrate { registry, name: name.to_owned(), version: version.to_owned(), key }
    }

    /// Where this crate's archive is cached.
    pub fn cache_path(&self, workspace: &Workspace) -> (r: String)
        ensures
            r@ == cache_path_spec(*self, workspace),
    {
        let mut p = workspace.cache_dir();
        p.append("/");
        let folder = self.registry.cache_folder();
        p.append(folder.as_str());
        p.append("/");
        p.append(self.name.as_str());
        p.append("/");
        p.append(self.name.as_str());
        p.append("-");
        p.append(self.version.as_str());
        p.append(".crate");
        p
    }

    /// The URL this crate's archive is downloaded from: the public
    /// registry's fixed layout, or the URL the alternative registry's
    /// index configuration gives; an unreadable configuration fails.
    pub fn fetch_url(&self, index_config_json: Option<&String>) -> (r: Result<String, String>)
        requires
            self.registry is Alternative ==> index_config_json is Some,
        ensures
            match self.registry {
                Registry::CratesIo => r matches Ok(u) && u@ == crates_io_url(
                    self.name@,
                    self.version@,
                ),
                Registry::Alternative(_) => match r {
                    Ok(u) => fetch_url_ok(*self, index_config_json, u@),
                    Err(_) => index_config_json matches Some(j) && index_dl_of(j@) is None,
                },
            },
    {
        match &self.registry {
            Registry::CratesIo => {
                let mut u = "https://static.crates.io/crates/".to_owned();
                u.append(self.name.as_str());
                u.append("/");
                u.append(self.name.as_str());
                u.append("-");
                u.append(self.version.as_str());
                u.append(".crate");
                Ok(u)
            },
            Registry::Alternative(_) => {
                let j = match index_config_json {
                    Some(j) => j,
                    None => {
                        proof {
                            assert(false);
                        }
                        return Err(String::new());
                    },
                };
                let dl = match parse_index_config(j.as_str()) {
                    Some(d) => d,
                    None => {
                        return Err("registry has invalid config.json".to_owned());
                    },
                };
                proof {
                    reveal_strlit("{crate}");
                    reveal_strlit("{version}");
                }
                if text::contains(dl.as_str(), "{crate}") || text::contains(
                    dl.as_str(),
                    "{version}",
                ) {
                    let step = text::replace_all(dl.as_str(), "{crate}", self.name.as_str());
                    let full = text::replace_all(step.as_str(), "{version}", self.version.as_str());
                    Ok(full)
                } else {
                    let mut u = dl;
                    u.append("/");
                    u.append(self.name.as_str());
                    u.append("/");
                    u.append(self.version.as_str());
                    u.append("/download");
                    Ok(u)
                }
            },
        }
    }

    /// The diagnostic attached when extracting the cached archive fails.
    pub fn download_error_message(&self) -> (r: String)
        ensures
            r@ == "unable to download "@ + self.name@ + " version "@ + self.version@,
    {
        let mut s = "unable to download ".to_owned();
        s.append(self.name.as_str());
        s.append(" version ");
        s.append(self.version.as_str());
        s
    }
}

/// The index of the first slash in a path, or its length if none occurs.
pub open spec fn until_slash(s: Seq<char>) -> int
    decreases s.len(),
{
    if s.len() == 0 {
        0
    } else if s[0] == '/' {
        0
    } else {
        1 + until_slash(s.subrange(1, s.len() as int))
    }
}

/// An archive entry's path without its first component: crate archives nest
/// everything under one top directory, which is stripped on extraction.
pub open spec fn strip_first_component(p: Seq<char>) -> Seq<char> {
    if until_slash(p) == p.len() {
        Seq::empty()
    } else {
        p.subrange(until_slash(p) + 1, p.len() as int)
    }
}

/// `until_slash` is the position of the first slash.
proof fn lemma_until_slash(s: Seq<char>, k: int)
    requires
        0 <= k <= s.len(),
        forall|j: int| 0 <= j < k ==> s[j] != '/',
        k < s.len() ==> s[k] == '/',
    ensures
        until_slash(s) == k,
    decreases k,
{
    if s.len() == 0 {
    } else if s[0] == '/' {
    } else {
        let tail = s.subrange(1, s.len() as int);
        assert(forall|j: int| 0 <= j < k - 1 ==> tail[j] == s[j + 1] && s[j + 1] != '/');
        lemma_until_slash(tail, k - 1);
    }
}

/// Where one archive entry lands: the destination joined with the entry's
/// path stripped of its first component; an entry without a remainder
/// lands on the destination itself.
pub fn unpack_dest(dest: &str, entry_rel: &str) -> (r: String)
    ensures
        strip_first_component(entry_rel@).len() == 0 ==> r@ == dest@,
        strip_first_component(entry_rel@).len() > 0 ==> r@ == dest@ + "/"@
            + strip_first_component(entry_rel@),
{
    let n = entry_rel.unicode_len();
    let mut k: usize = 0;
    while k < n && entry_rel.get_char(k) != '/'
        invariant
            n == entry_rel@.len(),
            0 <= k <= n,
            forall|j: int| 0 <= j < k ==> entry_rel@[j] != '/',
        decreases n - k,
    {
        k += 1;
    }
    proof {
        lemma_until_slash(entry_rel@, k as int);
    }
    if k == n {
        proof {
            assert(strip_first_component(entry_rel@).len() == 0);
        }
        dest.to_owned()
    } else {
        let rest = entry_rel.substring_char(k + 1, n);
        if rest.is_empty() {
            dest.to_owned()
        } else {
            text::concat3(dest, "/", rest)
        }
    }
}

} // verus!
