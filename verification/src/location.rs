//! Source descriptors: where a module's payload lives, and the pure
//! resolution of a descriptor into a cache subdirectory, an archive file
//! name and a default strip depth.

use vstd::prelude::*;
use vstd::string::*;
use crate::errors::InstallError;
use crate::lowercase::LwcString;
use crate::strutil::concat2;

verus! {

/// An `http`/`https` download source, with an optional explicit name for the
/// saved archive.
#[derive(Debug, Clone)]
pub struct Http {
    pub http: String,
    pub rename: Option<String>,
}

/// How a Github payload is designated.
#[derive(Debug, Clone)]
pub enum GithubDescriptor {
    Release { release: Option<String>, asset: String },
    Commit { commit: String },
    Branch(GitBranch),
    Tag { tag: String },
}

/// A branch designation, with the policy deciding when a cached archive is
/// fetched again.
#[derive(Debug, Clone)]
pub struct GitBranch {
    pub branch: String,
    pub refresh: RefreshCondition,
}

/// When a cached branch archive is downloaded anew.
#[derive(Debug, Clone, PartialEq, Eq, Structural)]
pub enum RefreshCondition {
    Never,
    Always,
}

/// A Github repository source.
#[derive(Debug, Clone)]
pub struct Github {
    pub github_user: String,
    pub repository: String,
    pub descriptor: GithubDescriptor,
}

/// Where a module's payload comes from. Exactly one case applies.
#[derive(Debug, Clone)]
pub enum Source {
    Http(Http),
    Github(Github),
    Absolute { path: String },
    Local { local: String },
}

impl Default for Source {
    /// The default source is a local path with an empty name.
    fn default() -> (r: Source)
        ensures
            r matches Source::Local { local } && local@ == Seq::<char>::empty(),
    {
        Source::Local { local: String::new() }
    }
}

/// The host of a parsed url, as `url::Url::parse` and `url::Url::host`
/// yield it (an ip host is its usual text form); `None` when the text does
/// not parse as an url or the url has no host. A function of the text alone.
pub uninterp spec fn url_host_of(s: Seq<char>) -> Option<Seq<char>>;

/// Relies on `url::Url::parse` and `url::Url::host`: the host part is a
/// function of the url text alone.
#[verifier::external_body]
fn url_host(s: &str) -> (r: Option<String>)
    ensures
        match r {
            Option::None => url_host_of(s@) is None,
            Option::Some(h) => url_host_of(s@) == Option::Some(h@),
        },
{
    match url::Url::parse(s) {
        Err(_) => None,
        Ok(u) => match u.host() {
            None => None,
            Some(url::Host::Domain(d)) => Some(d.to_string()),
            Some(url::Host::Ipv4(a)) => Some(a.to_string()),
            Some(url::Host::Ipv6(a)) => Some(a.to_string()),
        },
    }
}

/// The last path segment of a parsed url, as `url::Url::parse` and
/// `url::Url::path_segments` yield it, still percent-encoded; `None` when
/// the text does not parse or the url cannot have path segments. A function
/// of the text alone.
pub uninterp spec fn url_last_segment_of(s: Seq<char>) -> Option<Seq<char>>;

/// Relies on `url::Url::parse` and `url::Url::path_segments`: the last
/// segment is a function of the url text alone.
#[verifier::external_body]
fn url_last_segment(s: &str) -> (r: Option<String>)
    ensures
        match r {
            Option::None => url_last_segment_of(s@) is None,
            Option::Some(seg) => url_last_segment_of(s@) == Option::Some(seg@),
        },
{
    match url::Url::parse(s) {
        Err(_) => None,
        Ok(u) => match u.path_segments() {
            None => None,
            Some(segments) => segments.last().map(|seg| seg.to_string()),
        },
    }
}

/// The percent-decoded form of a piece of text, with invalid utf-8 replaced,
/// as `percent_encoding::percent_decode_str` yields it. A function of the
/// text alone.
pub uninterp spec fn percent_decoded_of(s: Seq<char>) -> Seq<char>;

/// Relies on `percent_encoding::percent_decode_str`: the decoded text is a
/// function of the input alone.
#[verifier::external_body]
fn percent_decode_lossy(s: &str) -> (r: String)
    ensures
        r@ == percent_decoded_of(s@),
{
    percent_encoding::percent_decode_str(s).decode_utf8_lossy().into_owned()
}

/// The cache subdirectory a source saves under, or `None` when the source's
/// url yields no host.
pub open spec fn save_subdir_spec(src: &Source) -> Option<Seq<char>> {
    match src {
        Source::Http(h) => match url_host_of(h.http@) {
            Option::None => Option::None,
            Option::Some(host) => Option::Some("http/"@ + host),
        },
        Source::Github(g) => Option::Some(
            "github/"@ + g.github_user@ + "/"@ + g.repository@,
        ),
        Source::Absolute { .. } => Option::Some(Seq::<char>::empty()),
        Source::Local { .. } => Option::Some(Seq::<char>::empty()),
    }
}

/// The archive file name a source saves as, or `None` when it cannot be
/// derived from an url with no usable last segment and no rename.
pub open spec fn save_name_spec(src: &Source, module_name: Seq<char>) -> Option<Seq<char>> {
    match src {
        Source::Http(h) => match h.rename {
            Option::Some(ref rename) => Option::Some(rename@),
            Option::None => match url_last_segment_of(h.http@) {
                Option::None => Option::None,
                Option::Some(seg) => Option::Some(percent_decoded_of(seg)),
            },
        },
        Source::Github(g) => match g.descriptor {
            GithubDescriptor::Release { ref asset, .. } => Option::Some(asset@),
            GithubDescriptor::Commit { ref commit } => Option::Some(
                module_name + "-"@ + commit@ + ".zip"@,
            ),
            GithubDescriptor::Branch(ref b) => Option::Some(
                module_name + "-"@ + b.branch@ + ".zip"@,
            ),
            GithubDescriptor::Tag { ref tag } => Option::Some(
                module_name + "-"@ + tag@ + ".zip"@,
            ),
        },
        Source::Absolute { .. } => Option::Some(Seq::<char>::empty()),
        Source::Local { .. } => Option::Some(Seq::<char>::empty()),
    }
}

/// The strip depth a source calls for when its layout does not choose one:
/// Github commit, branch and tag archives wrap their content in a single
/// top-level directory.
pub open spec fn default_strip_spec(src: &Source) -> usize {
    match src {
        Source::Github(g) => match g.descriptor {
            GithubDescriptor::Release { .. } => 0usize,
            _ => 1usize,
        },
        _ => 0usize,
    }
}

impl Source {
    /// The cache subdirectory this source saves under: `http/<host>` for an
    /// http source, `github/<user>/<repository>` for a Github source, and
    /// the empty path for local and absolute sources (they are not cached).
    /// Fails exactly when an http url has no parsable host.
    pub fn save_subdir(&self) -> (r: Result<String, InstallError>)
        ensures
            match r {
                Ok(p) => save_subdir_spec(self) == Option::Some(p@),
                Err(e) => {
                    &&& save_subdir_spec(self) is None
                    &&& e matches InstallError::SourceResolution { detail }
                    &&& self matches Source::Http(h) && detail@ == h.http@
                },
            },
    {
        match self {
            Source::Http(h) => match url_host(h.http.as_str()) {
                None => Err(InstallError::SourceResolution { detail: h.http.clone() }),
                Some(host) => Ok(concat2("http/", host.as_str())),
            },
            Source::Github(g) => {
                let mut s = String::from_str("github/");
                s.append(g.github_user.as_str());
                s.append("/");
                s.append(g.repository.as_str());
                Ok(s)
            }
            Source::Absolute { .. } => Ok(String::new()),
            Source::Local { .. } => Ok(String::new()),
        }
    }

    /// The archive file name this source saves as: the explicit `rename` or
    /// the percent-decoded last url segment for an http source, the asset
    /// name or `<module>-<ref>.zip` for a Github source, and the empty path
    /// for local and absolute sources. Fails exactly when an http source has
    /// no rename and its url yields no last path segment.
    pub fn save_name(&self, module_name: &LwcString) -> (r: Result<String, InstallError>)
        ensures
            match r {
                Ok(p) => save_name_spec(self, module_name@) == Option::Some(p@),
                Err(e) => {
                    &&& save_name_spec(self, module_name@) is None
                    &&& e matches InstallError::SourceResolution { detail }
                    &&& self matches Source::Http(h) && detail@ == h.http@
                },
            },
    {
        match self {
            Source::Http(h) => match h.rename {
                Some(ref rename) => Ok(rename.clone()),
                None => match url_last_segment(h.http.as_str()) {
                    None => Err(InstallError::SourceResolution { detail: h.http.clone() }),
                    Some(seg) => Ok(percent_decode_lossy(seg.as_str())),
                },
            },
            Source::Github(g) => match g.descriptor {
                GithubDescriptor::Release { ref asset, .. } => Ok(asset.clone()),
                GithubDescriptor::Commit { ref commit } => Ok(
                    Self::ref_archive_name(module_name, commit.as_str()),
                ),
                GithubDescriptor::Branch(ref b) => Ok(
                    Self::ref_archive_name(module_name, b.branch.as_str()),
                ),
                GithubDescriptor::Tag { ref tag } => Ok(
                    Self::ref_archive_name(module_name, tag.as_str()),
                ),
            },
            Source::Absolute { .. } => Ok(String::new()),
            Source::Local { .. } => Ok(String::new()),
        }
    }

    /// `<module>-<reference>.zip`, the name Github's generated archives save
    /// under.
    fn ref_archive_name(module_name: &LwcString, reference: &str) -> (r: String)
        ensures
            r@ == module_name@ + "-"@ + reference@ + ".zip"@,
    {
        let mut s = String::from_str(module_name.as_str());
        s.append("-");
        s.append(reference);
        s.append(".zip");
        s
    }

    /// `1` for Github commit, branch and tag archives (their content sits in
    /// one wrapping directory), `0` for every other source, Github releases
    /// included.
    pub fn default_strip_leading(&self) -> (r: usize)
        ensures
            r == default_strip_spec(self),
    {
        match self {
            Source::Github(g) => match g.descriptor {
                GithubDescriptor::Release { .. } => 0,
                _ => 1,
            },
            _ => 0,
        }
    }

    /// A fixed http source with no rename, for exercising callers.
    pub fn http_source() -> (r: Source)
        ensures
            r matches Source::Http(h) && h.http@ == "https://dummy.example"@ && h.rename is None,
    {
        Source::Http(Http { http: String::from_str("https://dummy.example"), rename: None })
    }

    /// A fixed Github release source with empty coordinates, for exercising
    /// callers.
    pub fn gh_release_source() -> (r: Source)
        ensures
            r matches Source::Github(g) && {
                &&& g.github_user@ == Seq::<char>::empty()
                &&& g.repository@ == Seq::<char>::empty()
                &&& g.descriptor matches GithubDescriptor::Release { release, asset }
                    && release is Some && asset@ == Seq::<char>::empty()
            },
    {
        Source::Github(Github {
            github_user: String::new(),
            repository: String::new(),
            descriptor: GithubDescriptor::Release {
                release: Some(String::new()),
                asset: String::new(),
            },
        })
    }

    /// A fixed Github branch source with empty coordinates, for exercising
    /// callers.
    pub fn gh_branch_source() -> (r: Source)
        ensures
            r matches Source::Github(g) && {
                &&& g.github_user@ == Seq::<char>::empty()
                &&& g.repository@ == Seq::<char>::empty()
                &&& g.descriptor matches GithubDescriptor::Branch(b)
                    && b.branch@ == Seq::<char>::empty()
                    && b.refresh == RefreshCondition::Never
            },
    {
        Source::Github(Github {
            github_user: String::new(),
            repository: String::new(),
            descriptor: GithubDescriptor::Branch(GitBranch {
                branch: String::new(),
                refresh: RefreshCondition::Never,
            }),
        })
    }
}

/// Two Github sources with the same user and repository save under the same
/// cache subdirectory, whatever their descriptors.
pub proof fn lemma_save_subdir_descriptor_independent(ga: Github, gb: Github)
    requires
        ga.github_user@ == gb.github_user@,
        ga.repository@ == gb.repository@,
    ensures
        save_subdir_spec(&Source::Github(ga)) == save_subdir_spec(&Source::Github(gb)),
{
}

/// The glob patterns and strip depth the extractor consumes for one module.
#[derive(Debug, Clone)]
pub struct GlobDesc {
    pub patterns: Vec<String>,
    pub strip: usize,
}

/// Which archived files become installed files: a glob pattern set, and an
/// optional strip depth overriding the source's default.
#[derive(Debug, Clone)]
pub struct Layout {
    pub patterns: Vec<String>,
    pub strip_leading: Option<usize>,
}

impl Default for Layout {
    /// The default layout has no patterns and no strip override.
    fn default() -> (r: Layout)
        ensures
            r.patterns@.len() == 0,
            r.strip_leading is None,
    {
        Layout { patterns: Vec::new(), strip_leading: None }
    }
}

impl Layout {
    /// The pattern set as written, with the strip depth resolved: the
    /// layout's own when set, else the source's default.
    pub fn to_glob(&self, source: &Source) -> (r: GlobDesc)
        ensures
            r.patterns.deep_view() == self.patterns.deep_view(),
            r.strip == match self.strip_leading {
                Option::Some(n) => n,
                Option::None => default_strip_spec(source),
            },
    {
        let strip = match self.strip_leading {
            Some(n) => n,
            None => source.default_strip_leading(),
        };
        GlobDesc { patterns: clone_string_vec(&self.patterns), strip }
    }
}

/// Clones a vector of strings, keeping every element's text.
pub fn clone_string_vec(v: &Vec<String>) -> (r: Vec<String>)
    ensures
        r.deep_view() == v.deep_view(),
{
    let mut r: Vec<String> = Vec::new();
    let mut i: usize = 0;
    while i < v.len()
        invariant
            i <= v.len(),
            r@.len() == i,
            forall|j: int| 0 <= j < i ==> r@[j]@ == v@[j]@,
        decreases v.len() - i,
    {
        r.push(v[i].clone());
        i = i + 1;
    }
    proof {
        assert(r.deep_view() =~= v.deep_view());
    }
    r
}

/// An external command run against the unpacked archive before selection.
#[derive(Debug, Clone)]
pub struct PrecopyCommand {
    pub command: String,
    pub args: Option<Vec<String>>,
    pub subdir: Option<String>,
}

/// One post-install text substitution, applied by the external replace
/// engine.
#[derive(Debug, Clone)]
pub struct ReplaceSpec {
    pub file_globs: Vec<String>,
    pub replace: String,
    pub with_text: String,
}

/// What the external patch engine applies to the installed module.
#[derive(Debug, Clone)]
pub struct PatchDesc {
    pub source: String,
}

/// A fully specified payload location: the source plus how the archive's
/// files are laid out, patched and post-processed.
#[derive(Debug, Clone)]
pub struct ConcreteLocation {
    pub source: Source,
    pub layout: Layout,
    pub patch: Option<PatchDesc>,
    pub replace: Option<Vec<ReplaceSpec>>,
    pub precopy: Option<PrecopyCommand>,
}

impl Default for ConcreteLocation {
    /// The default location: default source, empty layout, no patch, no
    /// replace list, no precopy command.
    fn default() -> (r: ConcreteLocation)
        ensures
            r.source matches Source::Local { local } && local@ == Seq::<char>::empty(),
            r.layout.patterns@.len() == 0,
            r.layout.strip_leading is None,
            r.patch is None,
            r.replace is None,
            r.precopy is None,
    {
        ConcreteLocation {
            source: Source::default(),
            layout: Layout::default(),
            patch: None,
            replace: None,
            precopy: None,
        }
    }
}

/// A module's location: a named reference resolved elsewhere, or a concrete
/// location handled by this crate.
#[derive(Debug, Clone)]
pub enum Location {
    Ref { name: String },
    Concrete { concrete: ConcreteLocation },
}

} // verus!
