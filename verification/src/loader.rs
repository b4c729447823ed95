//! The decision logic of the plugin loader: where a plugin lives on disk,
//! what its native library file is called on each platform, whether an
//! archive entry may be extracted, and what kind of archive a file is. The
//! filesystem and native-code work itself happens outside the library,
//! against these decisions.

use vstd::prelude::*;
use vstd::string::StrSliceExecFns;
use vstd::string::StringExecFns;

verus! {

/// The platform a native library file name is derived for.
#[derive(Clone, Copy, PartialEq, Eq, Structural, Debug)]
pub enum Platform {
    Windows,
    MacOs,
    Linux,
}

/// The supported archive formats of a plugin release.
#[derive(Clone, Copy, PartialEq, Eq, Structural, Debug)]
pub enum ArchiveKind {
    Zip,
    TarGz,
    Unsupported,
}

/// The name with every dash turned into an underscore, as a library file
/// stem is derived from a plugin id.
pub open spec fn spec_dash_to_underscore(s: Seq<char>) -> Seq<char> {
    Seq::new(
        s.len(),
        |i: int|
            if s[i] == '-' {
                '_'
            } else {
                s[i]
            },
    )
}

/// Replaces every dash with an underscore.
pub fn dash_to_underscore(s: &str) -> (r: String)
    ensures
        r@ == spec_dash_to_underscore(s@),
{
    let n = s.unicode_len();
    let mut out = String::new();
    let mut i: usize = 0;
    while i < n
        invariant
            i <= n,
            n == s@.len(),
            out@ =~= spec_dash_to_underscore(s@).subrange(0, i as int),
        decreases n - i,
    {
        if s.get_char(i) == '-' {
            out.append("_");
            proof {
                reveal_strlit("_");
            }
        } else {
            let piece = s.substring_char(i, i + 1);
            out.append(piece);
        }
        proof {
            assert(out@ =~= spec_dash_to_underscore(s@).subrange(0, i as int + 1));
        }
        i += 1;
    }
    proof {
        assert(spec_dash_to_underscore(s@).subrange(0, n as int) =~= spec_dash_to_underscore(s@));
    }
    out
}

/// The platform-specific file name of a plugin's native library.
pub open spec fn spec_library_file_name(id: Seq<char>, platform: Platform) -> Seq<char> {
    let stem = spec_dash_to_underscore(id);
    match platform {
        Platform::Windows => stem + ".dll"@,
        Platform::MacOs => "lib"@ + stem + ".dylib"@,
        Platform::Linux => "lib"@ + stem + ".so"@,
    }
}

/// Derives the library file name a plugin id resolves to on a platform.
pub fn library_file_name(plugin_id: &str, platform: Platform) -> (r: String)
    ensures
        r@ == spec_library_file_name(plugin_id@, platform),
{
    let stem = dash_to_underscore(plugin_id);
    match platform {
        Platform::Windows => {
            let mut out = stem;
            out.append(".dll");
            out
        },
        Platform::MacOs => {
            let mut out = String::new();
            out.append("lib");
            out.append(stem.as_str());
            out.append(".dylib");
            proof {
                assert(out@ =~= spec_library_file_name(plugin_id@, platform));
            }
            out
        },
        Platform::Linux => {
            let mut out = String::new();
            out.append("lib");
            out.append(stem.as_str());
            out.append(".so");
            proof {
                assert(out@ =~= spec_library_file_name(plugin_id@, platform));
            }
            out
        },
    }
}

/// An archive entry path that stays inside the destination directory: it is
/// relative, uses forward slashes only, names no drive, and holds no two
/// consecutive dots anywhere (which also rules out any `..` component).
pub open spec fn spec_entry_confined(p: Seq<char>) -> bool {
    &&& p.len() > 0
    &&& p[0] != '/'
    &&& forall|i: int| 0 <= i < p.len() ==> (#[trigger] p[i]) != '\\' && p[i] != ':'
    &&& !(exists|i: int| 0 <= i < p.len() - 1 && (#[trigger] p[i]) == '.' && p[i + 1] == '.')
}

/// Whether an archive entry may be extracted under the destination
/// directory. An entry that would resolve outside it must be rejected, never
/// silently skipped; the caller turns a rejection into an error.
pub fn entry_is_confined(p: &str) -> (r: bool)
    ensures
        r == spec_entry_confined(p@),
{
    let n = p.unicode_len();
    if n == 0 {
        return false;
    }
    if p.get_char(0) == '/' {
        return false;
    }
    let mut i: usize = 0;
    while i < n
        invariant
            i <= n,
            n == p@.len(),
            forall|j: int| 0 <= j < i ==> (#[trigger] p@[j]) != '\\' && p@[j] != ':',
            forall|j: int|
                0 <= j < i ==> !((#[trigger] p@[j]) == '.' && j + 1 < n && p@[j + 1] == '.'),
        decreases n - i,
    {
        let c = p.get_char(i);
        if c == '\\' || c == ':' {
            return false;
        }
        if c == '.' && i + 1 < n && p.get_char(i + 1) == '.' {
            return false;
        }
        i += 1;
    }
    true
}

/// Whether `s` ends with `suffix`.
pub open spec fn spec_ends_with(s: Seq<char>, suffix: Seq<char>) -> bool {
    s.len() >= suffix.len() && s.subrange(s.len() - suffix.len(), s.len() as int) == suffix
}

/// Suffix test over characters.
pub fn ends_with(s: &str, suffix: &str) -> (r: bool)
    ensures
        r == spec_ends_with(s@, suffix@),
{
    let n = s.unicode_len();
    let m = suffix.unicode_len();
    if n < m {
        return false;
    }
    let tail = s.substring_char(n - m, n);
    crate::value::str_eq(tail, suffix)
}

/// How an archive's format is recognized, from its file name alone: a
/// `.zip` suffix means ZIP, a `.gz` suffix means gzipped tar, anything else
/// is unsupported.
pub open spec fn spec_archive_kind(name: Seq<char>) -> ArchiveKind {
    if spec_ends_with(name, ".zip"@) {
        ArchiveKind::Zip
    } else if spec_ends_with(name, ".gz"@) {
        ArchiveKind::TarGz
    } else {
        ArchiveKind::Unsupported
    }
}

/// Recognizes an archive's format from its file name.
pub fn archive_kind(name: &str) -> (r: ArchiveKind)
    ensures
        r == spec_archive_kind(name@),
{
    if ends_with(name, ".zip") {
        ArchiveKind::Zip
    } else if ends_with(name, ".gz") {
        ArchiveKind::TarGz
    } else {
        ArchiveKind::Unsupported
    }
}

/// The filesystem lifecycle of installed plugins, reduced to its decisions:
/// it knows the plugins directory and derives every path from it. Reading,
/// writing and loading native code happen outside the library.
pub struct PluginLoader {
    plugins_dir: String,
}

impl PluginLoader {
    /// The directory all plugins live under.
    pub closed spec fn spec_plugins_dir(&self) -> Seq<char> {
        self.plugins_dir@
    }

    /// A loader rooted at the given directory.
    pub fn new(plugins_dir: String) -> (r: PluginLoader)
        ensures
            r.spec_plugins_dir() == plugins_dir@,
    {
        PluginLoader { plugins_dir }
    }

    /// The plugins directory path.
    pub fn plugins_dir(&self) -> (r: &str)
        ensures
            r@ == self.spec_plugins_dir(),
    {
        self.plugins_dir.as_str()
    }

    /// The directory of one plugin: the plugins directory, a separator, and
    /// the plugin id.
    pub fn get_plugin_dir(&self, plugin_id: &str) -> (r: String)
        ensures
            r@ == self.spec_plugins_dir() + "/"@ + plugin_id@,
    {
        let mut out = String::new();
        out.append(self.plugins_dir.as_str());
        out.append("/");
        out.append(plugin_id);
        out
    }

    /// The path a plugin's manifest file must sit at once installed.
    pub fn get_manifest_path(&self, plugin_id: &str) -> (r: String)
        ensures
            r@ == self.spec_plugins_dir() + "/"@ + plugin_id@ + "/plugin.toml"@,
    {
        let mut out = self.get_plugin_dir(plugin_id);
        out.append("/plugin.toml");
        out
    }

    /// The path a plugin's native library must sit at on a platform.
    pub fn library_path(&self, plugin_id: &str, platform: Platform) -> (r: String)
        ensures
            r@ == self.spec_plugins_dir() + "/"@ + plugin_id@ + "/"@ + spec_library_file_name(
                plugin_id@,
                platform,
            ),
    {
        let mut out = self.get_plugin_dir(plugin_id);
        out.append("/");
        let file = library_file_name(plugin_id, platform);
        out.append(file.as_str());
        proof {
            assert(out@ =~= self.spec_plugins_dir() + "/"@ + plugin_id@ + "/"@
                + spec_library_file_name(plugin_id@, platform));
        }
        out
    }
}

} // verus!
