//! The cache of tool executables.
//!
//! The program carries the executables of the tools it runs and keeps a copy
//! of each in one directory, under a name that tells the tool and the
//! platform. The functions here decide what is to be done to that directory;
//! the caller reads it and does what is asked. What the doing amounts to is
//! stated over a model of the files, and the laws of the cache are proved of
//! that model.
use crate::path::{file_name_of, join, joined};
use crate::text::{lemma_after_last, CharClass};
use vstd::prelude::*;

verus! {

/// A tool whose executable is kept in the cache.
#[derive(Clone, Copy, Debug, PartialEq, Eq)]
pub enum Cache {
    Hacpack,
    Hactool,
}

/// The family of systems that the program runs on.
#[derive(Clone, Copy, Debug, PartialEq, Eq)]
pub enum Platform {
    Windows,
    Linux,
    Android,
}

impl Platform {
    /// What the names of executables end in on this platform.
    pub open spec fn suffix(self) -> Seq<char> {
        match self {
            Platform::Windows => ".exe"@,
            Platform::Linux => ""@,
            Platform::Android => ""@,
        }
    }

    /// What the names of executables end in on this platform.
    pub fn exe_suffix(self) -> (s: &'static str)
        ensures
            s@ == self.suffix(),
    {
        match self {
            Platform::Windows => ".exe",
            Platform::Linux => "",
            Platform::Android => "",
        }
    }
}

/// The executables that the program carries, one for each tool.
#[derive(Debug)]
pub struct Payloads {
    pub hacpack: Vec<u8>,
    pub hactool: Vec<u8>,
}

/// What [`Payloads`] hold, in mathematical terms.
pub ghost struct PayloadsView {
    pub hacpack: Seq<u8>,
    pub hactool: Seq<u8>,
}

impl View for Payloads {
    type V = PayloadsView;

    open spec fn view(&self) -> PayloadsView {
        PayloadsView { hacpack: self.hacpack@, hactool: self.hactool@ }
    }
}

/// What the caller is to do to the cache directory.
#[derive(Clone, Debug, PartialEq, Eq)]
pub enum CacheAction {
    /// The cached copy lies at `path`: use it as it is.
    Reuse { path: String },
    /// There is no cached copy: write the executable that the program carries
    /// for `tool` to `path`.
    Write { path: String, tool: Cache },
    /// Copy the file at `source` to `path`, over what may lie there.
    Copy { source: String, path: String },
}

/// What a [`CacheAction`] holds, in mathematical terms.
pub ghost enum CacheActionView {
    Reuse { path: Seq<char> },
    Write { path: Seq<char>, tool: Cache },
    Copy { source: Seq<char>, path: Seq<char> },
}

impl View for CacheAction {
    type V = CacheActionView;

    open spec fn view(&self) -> CacheActionView {
        match self {
            CacheAction::Reuse { path } => CacheActionView::Reuse { path: path@ },
            CacheAction::Write { path, tool } => CacheActionView::Write { path: path@, tool: *tool },
            CacheAction::Copy { source, path } => CacheActionView::Copy {
                source: source@,
                path: path@,
            },
        }
    }
}

impl CacheActionView {
    /// Where the executable lies once the action is performed.
    pub open spec fn path(self) -> Seq<char> {
        match self {
            CacheActionView::Reuse { path } => path,
            CacheActionView::Write { path, .. } => path,
            CacheActionView::Copy { path, .. } => path,
        }
    }

    /// Whether performing the action writes to the cache directory.
    pub open spec fn writes(self) -> bool {
        !(self is Reuse)
    }
}

impl CacheAction {
    /// Where the executable lies once the action is performed.
    pub fn path(&self) -> (path: &str)
        ensures
            path@ == self@.path(),
    {
        match self {
            CacheAction::Reuse { path } => path.as_str(),
            CacheAction::Write { path, .. } => path.as_str(),
            CacheAction::Copy { path, .. } => path.as_str(),
        }
    }
}

/// The files on disk, as far as the cache is concerned: what each path holds.
pub type Files = Map<Seq<char>, Seq<u8>>;

/// The files once `action` is performed. A copy from a source that is not
/// there fails and changes nothing.
pub open spec fn performed(files: Files, action: CacheActionView, payloads: PayloadsView) -> Files {
    match action {
        CacheActionView::Reuse { .. } => files,
        CacheActionView::Write { path, tool } => files.insert(path, tool.payload(payloads)),
        CacheActionView::Copy { source, path } => if files.dom().contains(source) {
            files.insert(path, files[source])
        } else {
            files
        },
    }
}

/// What is to be done so that the executable of `tool` lies in `dir`, given
/// the names of the entries of `dir`: nothing where one of them is the name of
/// the tool, else the executable is written.
pub open spec fn resolved(
    tool: Cache,
    platform: Platform,
    dir: Seq<char>,
    entries: Seq<Seq<char>>,
) -> CacheActionView {
    let path = joined(dir, tool.name(platform));
    if entries.contains(tool.name(platform)) {
        CacheActionView::Reuse { path }
    } else {
        CacheActionView::Write { path, tool }
    }
}

/// What is to be done so that the file at `source` takes the place of the
/// executable of `tool` in `dir`.
pub open spec fn adopted(
    tool: Cache,
    platform: Platform,
    dir: Seq<char>,
    source: Seq<char>,
) -> CacheActionView {
    CacheActionView::Copy { source, path: joined(dir, tool.name(platform)) }
}

/// Whether `entries`, read as the names in `dir`, tell truly whether the
/// executable of `tool` is among `files`.
pub open spec fn reflects(
    entries: Seq<Seq<char>>,
    files: Files,
    tool: Cache,
    platform: Platform,
    dir: Seq<char>,
) -> bool {
    entries.contains(tool.name(platform)) <==> files.dom().contains(
        joined(dir, tool.name(platform)),
    )
}

impl Cache {
    /// The name of the tool.
    pub open spec fn base(self) -> Seq<char> {
        match self {
            Cache::Hacpack => "hacpack"@,
            Cache::Hactool => "hactool"@,
        }
    }

    /// The name of the tool's executable on `platform`.
    pub open spec fn name(self, platform: Platform) -> Seq<char> {
        self.base() + platform.suffix()
    }

    /// The executable that the program carries for the tool.
    pub open spec fn payload(self, payloads: PayloadsView) -> Seq<u8> {
        match self {
            Cache::Hacpack => payloads.hacpack,
            Cache::Hactool => payloads.hactool,
        }
    }

    /// The name of the tool's executable on `platform`.
    pub fn file_name(&self, platform: Platform) -> (name: String)
        ensures
            name@ == self.name(platform),
    {
        let base = match self {
            Cache::Hacpack => "hacpack",
            Cache::Hactool => "hactool",
        };
        base.to_owned().concat(platform.exe_suffix())
    }

    /// The executable that the program carries for the tool.
    pub fn as_bytes<'a>(&self, payloads: &'a Payloads) -> (bytes: &'a [u8])
        ensures
            bytes@ == self.payload(payloads@),
    {
        match self {
            Cache::Hacpack => payloads.hacpack.as_slice(),
            Cache::Hactool => payloads.hactool.as_slice(),
        }
    }

    /// Decides how the executable of the tool comes to lie in `cache_dir`,
    /// given the names of the entries of that directory. An entry with the
    /// name of the tool is taken as it is, whatever it holds. The caller makes
    /// the directory first where it is missing, reads it, and then does what
    /// is asked; the executable lies at the path of the action.
    pub fn path(&self, platform: Platform, cache_dir: &str, entries: &Vec<String>) -> (action:
        CacheAction)
        ensures
            action@ == resolved(*self, platform, cache_dir@, entries.deep_view()),
    {
        let name = self.file_name(platform);
        let path = join(cache_dir, name.as_str());
        let ghost names = entries.deep_view();
        let mut i: usize = 0;
        while i < entries.len()
            invariant
                i <= entries.len(),
                names == entries.deep_view(),
                name@ == self.name(platform),
                path@ == joined(cache_dir@, name@),
                forall|j: int| 0 <= j < i ==> names[j] != name@,
            decreases entries.len() - i,
        {
            if entries[i] == name {
                assert(names[i as int] == name@);
                return CacheAction::Reuse { path };
            }
            i += 1;
        }
        CacheAction::Write { path, tool: *self }
    }

    /// Decides how the file at `source` takes the place of the executable of
    /// the tool in `cache_dir`: by a copy over what may lie there. The caller
    /// makes the directory first where it is missing, and then copies.
    pub fn from(self, platform: Platform, cache_dir: &str, source: &str) -> (r: (Cache, CacheAction))
        ensures
            r.0 == self,
            r.1@ == adopted(self, platform, cache_dir@, source@),
    {
        let name = self.file_name(platform);
        let path = join(cache_dir, name.as_str());
        (self, CacheAction::Copy { source: source.to_owned(), path })
    }
}

/// Resolving twice gives the same path both times and writes at most once:
/// whatever the first resolution did, the second finds the cached copy and
/// leaves the files as they are.
pub proof fn law_resolve_twice(
    tool: Cache,
    platform: Platform,
    payloads: PayloadsView,
    dir: Seq<char>,
    files: Files,
    first: Seq<Seq<char>>,
    second: Seq<Seq<char>>,
)
    requires
        reflects(first, files, tool, platform, dir),
        reflects(
            second,
            performed(files, resolved(tool, platform, dir, first), payloads),
            tool,
            platform,
            dir,
        ),
    ensures
        ({
            let once = resolved(tool, platform, dir, first);
            let between = performed(files, once, payloads);
            let twice = resolved(tool, platform, dir, second);
            &&& twice.path() == once.path()
            &&& !twice.writes()
            &&& performed(between, twice, payloads) == between
        }),
{
}

/// After a file was adopted, resolving finds the cached copy, and that copy
/// holds what the adopted file held, not what the program carries.
pub proof fn law_adopt_then_resolve(
    tool: Cache,
    platform: Platform,
    payloads: PayloadsView,
    dir: Seq<char>,
    source: Seq<char>,
    files: Files,
    entries: Seq<Seq<char>>,
)
    requires
        files.dom().contains(source),
        reflects(
            entries,
            performed(files, adopted(tool, platform, dir, source), payloads),
            tool,
            platform,
            dir,
        ),
    ensures
        ({
            let after = performed(files, adopted(tool, platform, dir, source), payloads);
            let found = resolved(tool, platform, dir, entries);
            &&& found is Reuse
            &&& performed(after, found, payloads) == after
            &&& after[found.path()] == files[source]
        }),
{
}

/// Each tool has a place of its own in the cache directory: what is done for
/// one tool goes to another path than the copy of the other and leaves that
/// copy as it is.
pub proof fn law_one_copy_each(
    tool: Cache,
    other: Cache,
    platform: Platform,
    payloads: PayloadsView,
    dir: Seq<char>,
    source: Seq<char>,
    files: Files,
    entries: Seq<Seq<char>>,
)
    requires
        tool != other,
    ensures
        ({
            let kept = joined(dir, other.name(platform));
            let found = resolved(tool, platform, dir, entries);
            let copied = adopted(tool, platform, dir, source);
            &&& found.path() != kept
            &&& copied.path() != kept
            &&& performed(files, found, payloads).dom().contains(kept) == files.dom().contains(kept)
            &&& performed(files, copied, payloads).dom().contains(kept) == files.dom().contains(
                kept,
            )
            &&& performed(files, found, payloads)[kept] == files[kept]
            &&& performed(files, copied, payloads)[kept] == files[kept]
        }),
{
    reveal_strlit("hacpack");
    reveal_strlit("hactool");
    let a = tool.name(platform);
    let b = other.name(platform);
    let before = joined(dir, a).len() - a.len();
    assert(a[3] != b[3]);
    assert(joined(dir, a)[before + 3] == a[3]);
    assert(joined(dir, b)[before + 3] == b[3]);
}

/// The cached copy of a tool lies directly in the cache directory, under the
/// name of the tool: that name is the file name of its path.
pub proof fn law_cached_path_names_tool(tool: Cache, platform: Platform, dir: Seq<char>)
    ensures
        file_name_of(joined(dir, tool.name(platform))) == Some(tool.name(platform)),
{
    reveal_strlit("hacpack");
    reveal_strlit("hactool");
    reveal_strlit(".exe");
    reveal_strlit("");
    let name = tool.name(platform);
    let path = joined(dir, name);
    let start = path.len() - name.len();
    assert forall|j: int| 0 <= j < name.len() implies name[j] != '/' by {}
    lemma_after_last(path, CharClass::Slash, start);
    assert(path.skip(start) =~= name);
}

} // verus!
