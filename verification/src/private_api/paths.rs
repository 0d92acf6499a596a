//! Where the private-API bridge keeps its files, and where its library is
//! looked for.
use vstd::prelude::*;

use crate::env::var;
use crate::paths::{join_path, joined};
use crate::text::owned;
use crate::types::opt_string_view;

verus! {

/// Messages' sandbox data directory, relative to the home directory.
pub const CONTAINER_DATA: &'static str = "Library/Containers/com.apple.MobileSMS/Data";

/// The names the bridge protocol gives its files: the lock the injected
/// library writes once it is ready, the request queue directory with its
/// inbox and outbox, the event log, and the library's own file name.
#[derive(Debug, Clone, PartialEq, Eq)]
pub struct BridgeLayout {
    pub ready_lock: String,
    pub rpc_dir: String,
    pub inbox: String,
    pub outbox: String,
    pub events_log: String,
    pub dylib_name: String,
}

/// Messages' sandbox data directory under the home directory `home`.
pub open spec fn container_text(home: Seq<char>) -> Seq<char> {
    joined(home, CONTAINER_DATA@)
}

/// `~/Library/Containers/com.apple.MobileSMS/Data`, under `home`.
pub fn messages_container_data(home: &str) -> (res: String)
    ensures
        res@ == container_text(home@),
{
    join_path(home, CONTAINER_DATA)
}

/// The ready lock, in the sandbox data directory.
pub fn bridge_ready_lock(home: &str, layout: &BridgeLayout) -> (res: String)
    ensures
        res@ == joined(container_text(home@), layout.ready_lock@),
{
    let dir = messages_container_data(home);
    join_path(dir.as_str(), layout.ready_lock.as_str())
}

/// The directory requests are written to.
pub fn rpc_inbox(home: &str, layout: &BridgeLayout) -> (res: String)
    ensures
        res@ == joined(joined(container_text(home@), layout.rpc_dir@), layout.inbox@),
{
    let dir = messages_container_data(home);
    let rpc = join_path(dir.as_str(), layout.rpc_dir.as_str());
    join_path(rpc.as_str(), layout.inbox.as_str())
}

/// The directory responses are read from.
pub fn rpc_outbox(home: &str, layout: &BridgeLayout) -> (res: String)
    ensures
        res@ == joined(joined(container_text(home@), layout.rpc_dir@), layout.outbox@),
{
    let dir = messages_container_data(home);
    let rpc = join_path(dir.as_str(), layout.rpc_dir.as_str());
    join_path(rpc.as_str(), layout.outbox.as_str())
}

/// The log the bridge appends its events to.
pub fn events_log(home: &str, layout: &BridgeLayout) -> (res: String)
    ensures
        res@ == joined(container_text(home@), layout.events_log@),
{
    let dir = messages_container_data(home);
    join_path(dir.as_str(), layout.events_log.as_str())
}

/// A present value as a one-element list, an absent one as none.
pub open spec fn listed(o: Option<Seq<char>>) -> Seq<Seq<char>> {
    match o {
        Some(p) => seq![p],
        None => Seq::empty(),
    }
}

/// `dir/lib/name`.
pub open spec fn lib_file(dir: Seq<char>, name: Seq<char>) -> Seq<char> {
    joined(joined(dir, "lib"@), name)
}

/// The places the bridge library is looked for, in order: the `lib`
/// directory of the source tree, the path set in the environment, the
/// Homebrew prefix's `lib`, the two usual Homebrew library directories, and
/// the executable's directory and its sibling `lib`.
pub open spec fn search_paths(
    manifest_dir: Seq<char>,
    name: Seq<char>,
    custom: Option<Seq<char>>,
    homebrew_prefix: Option<Seq<char>>,
    exe_dir: Option<Seq<char>>,
) -> Seq<Seq<char>> {
    seq![lib_file(manifest_dir, name)] + listed(custom) + listed(
        match homebrew_prefix {
            Some(p) => Some(lib_file(p, name)),
            None => None,
        },
    ) + seq![joined("/opt/homebrew/lib"@, name), joined("/usr/local/lib"@, name)] + match exe_dir {
        Some(d) => seq![joined(d, name), joined(joined(d, "../lib"@), name)],
        None => Seq::empty(),
    }
}

/// The places the bridge library named `name` is looked for. The path set
/// in the environment is `$RS_IMESSAGE_BRIDGE_DYLIB`, else
/// `$RS_IMSG_BRIDGE_DYLIB`; `exe_dir` is the directory of the running
/// executable, when it is known.
pub fn dylib_search_paths(
    manifest_dir: &str,
    name: &str,
    bridge_dylib: Option<String>,
    legacy_bridge_dylib: Option<String>,
    homebrew_prefix: Option<String>,
    exe_dir: Option<String>,
) -> (res: Vec<String>)
    ensures
        res@.map_values(|p: String| p@) == search_paths(
            manifest_dir@,
            name@,
            match opt_string_view(bridge_dylib) {
                Some(p) => Some(p),
                None => opt_string_view(legacy_bridge_dylib),
            },
            opt_string_view(homebrew_prefix),
            opt_string_view(exe_dir),
        ),
{
    let ghost custom_v = match opt_string_view(bridge_dylib) {
        Some(p) => Some(p),
        None => opt_string_view(legacy_bridge_dylib),
    };
    let ghost brew_v = opt_string_view(homebrew_prefix);
    let ghost exe_v = opt_string_view(exe_dir);
    let mut paths: Vec<String> = Vec::new();
    let lib = join_path(manifest_dir, "lib");
    paths.push(join_path(lib.as_str(), name));
    let custom = var(bridge_dylib, legacy_bridge_dylib);
    if let Some(c) = custom {
        paths.push(c);
    }
    if let Some(prefix) = homebrew_prefix {
        let lib = join_path(prefix.as_str(), "lib");
        paths.push(join_path(lib.as_str(), name));
    }
    paths.push(join_path("/opt/homebrew/lib", name));
    paths.push(join_path("/usr/local/lib", name));
    if let Some(dir) = exe_dir {
        paths.push(join_path(dir.as_str(), name));
        let up = join_path(dir.as_str(), "../lib");
        paths.push(join_path(up.as_str(), name));
    }
    proof {
        let expect = search_paths(manifest_dir@, name@, custom_v, brew_v, exe_v);
        assert(paths@.map_values(|p: String| p@) =~= expect);
    }
    paths
}

/// The first candidate found to be a file, when any is.
pub open spec fn first_file(candidates: Seq<Seq<char>>, is_file: Seq<bool>) -> Option<Seq<char>>
    decreases candidates.len(),
{
    if candidates.len() == 0 || is_file.len() == 0 {
        None
    } else if is_file[0] {
        Some(candidates[0])
    } else {
        first_file(candidates.skip(1), is_file.skip(1))
    }
}

/// Picks the bridge library: the first of `candidates` (see
/// `dylib_search_paths`) that `is_file` says is a file.
pub fn resolve_dylib(candidates: &Vec<String>, is_file: &Vec<bool>) -> (res: Option<String>)
    requires
        candidates.len() == is_file.len(),
    ensures
        opt_string_view(res) == first_file(candidates@.map_values(|p: String| p@), is_file@),
{
    let ghost cs = candidates@.map_values(|p: String| p@);
    let mut i: usize = 0;
    assert(cs.skip(0) =~= cs);
    assert(is_file@.skip(0) =~= is_file@);
    while i < candidates.len()
        invariant
            candidates.len() == is_file.len(),
            cs == candidates@.map_values(|p: String| p@),
            i <= candidates.len(),
            first_file(cs, is_file@) == first_file(cs.skip(i as int), is_file@.skip(i as int)),
        decreases candidates.len() - i,
    {
        assert(cs.skip(i as int)[0] == candidates@[i as int]@);
        if is_file[i] {
            return Some(owned(candidates[i].as_str()));
        }
        assert(cs.skip(i as int).skip(1) =~= cs.skip(i + 1));
        assert(is_file@.skip(i as int).skip(1) =~= is_file@.skip(i + 1));
        i = i + 1;
    }
    None
}

/// Picking the library is `find` over the candidates in search order: there
/// is none exactly when no candidate is a file, and otherwise it is the
/// candidate at the first position whose answer is that it is a file.
pub proof fn law_dylib_is_first_file(candidates: Seq<Seq<char>>, is_file: Seq<bool>)
    requires
        candidates.len() == is_file.len(),
    ensures
        first_file(candidates, is_file) is None <==> forall|i: int|
            0 <= i < is_file.len() ==> !#[trigger] is_file[i],
        first_file(candidates, is_file) matches Some(p) ==> exists|i: int|
            0 <= i < candidates.len() && #[trigger] is_file[i] && candidates[i] == p && forall|j: int|
                0 <= j < i ==> !#[trigger] is_file[j],
    decreases candidates.len(),
{
    if candidates.len() > 0 && !is_file[0] {
        let cs = candidates.skip(1);
        let fs = is_file.skip(1);
        law_dylib_is_first_file(cs, fs);
        if first_file(cs, fs) is None {
            assert forall|i: int| 0 <= i < is_file.len() implies !#[trigger] is_file[i] by {
                if i > 0 {
                    assert(is_file[i] == fs[i - 1]);
                }
            }
        } else {
            let p = first_file(cs, fs)->0;
            let k = choose|k: int|
                0 <= k < cs.len() && #[trigger] fs[k] && cs[k] == p && forall|j: int|
                    0 <= j < k ==> !#[trigger] fs[j];
            assert(is_file[k + 1] && candidates[k + 1] == p);
            assert forall|j: int| 0 <= j < k + 1 implies !#[trigger] is_file[j] by {
                if j > 0 {
                    assert(is_file[j] == fs[j - 1]);
                }
            }
            assert(!is_file[0]);
        }
    } else if candidates.len() > 0 {
        assert(is_file[0]);
    }
}

} // verus!
