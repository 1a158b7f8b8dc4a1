//! Local discovery. Each -trix app writes a small manifest to a shared
//! directory at install/boot; every app reads that directory on boot and so
//! "sees" its siblings on the same machine. Coupling then needs no
//! configuration: an invoicing app that finds a bookkeeping manifest can offer
//! to couple.
//!
//! The directory and file access belong to the host program; this module holds
//! the manifest itself and every decision discovery makes: which directory,
//! which file name, which directory entries are manifests, whether a manifest
//! advertises a capability, and which manifest belongs to an app.

pub mod capability;

use vstd::prelude::*;

use crate::decimal::chars_of;
use crate::version::ContractRange;

verus! {

/// What one app publishes about itself for local discovery.
#[derive(Clone, Debug, PartialEq, Eq)]
pub struct AppManifest {
    /// Short app key, e.g. "ledgerix" or "facturix". Also the file stem.
    pub app: String,
    pub app_version: String,
    /// Where to reach this instance locally, e.g. "http://localhost:8080".
    pub base_url: String,
    /// The contract band this app speaks.
    pub contract: ContractRange,
    pub capabilities: Vec<String>,
}

/// `caps` lists the capability `cap`.
pub open spec fn lists_capability(caps: Seq<String>, cap: Seq<char>) -> bool {
    exists|i: int| 0 <= i < caps.len() && #[trigger] caps[i]@ == cap
}

/// A capability that stands at any position of the list is advertised, not
/// only one near the front.
pub proof fn capability_at_any_position_is_listed(caps: Seq<String>, cap: Seq<char>, i: int)
    requires
        0 <= i < caps.len(),
        caps[i]@ == cap,
    ensures
        lists_capability(caps, cap),
{
}

/// A manifest advertises exactly the capabilities whose text occurs in its
/// list.
pub proof fn capability_listed_iff_contained(caps: Seq<String>, cap: Seq<char>)
    ensures
        lists_capability(caps, cap) <==> caps.map_values(|c: String| c@).contains(cap),
{
    let texts = caps.map_values(|c: String| c@);
    if lists_capability(caps, cap) {
        let i = choose|i: int| 0 <= i < caps.len() && #[trigger] caps[i]@ == cap;
        assert(texts[i] == cap);
    }
    if texts.contains(cap) {
        let i = choose|i: int| 0 <= i < texts.len() && texts[i] == cap;
        assert(caps[i]@ == cap);
    }
}

/// Adding a capability to the end of a list advertises it, and keeps every
/// capability the list advertised before.
pub proof fn capability_list_grows_by_push(caps: Seq<String>, c: String, cap: Seq<char>)
    ensures
        lists_capability(caps.push(c), cap) <==> (lists_capability(caps, cap) || c@ == cap),
{
    let longer = caps.push(c);
    if lists_capability(caps, cap) {
        let i = choose|i: int| 0 <= i < caps.len() && #[trigger] caps[i]@ == cap;
        assert(longer[i] == caps[i]);
    }
    if c@ == cap {
        assert(longer[caps.len() as int] == c);
    }
    if lists_capability(longer, cap) {
        let i = choose|i: int| 0 <= i < longer.len() && #[trigger] longer[i]@ == cap;
        if i < caps.len() {
            assert(longer[i] == caps[i]);
        }
    }
}

impl AppManifest {
    /// Whether this manifest advertises the capability `cap`.
    pub fn has_capability(&self, cap: &str) -> (r: bool)
        ensures
            r == lists_capability(self.capabilities@, cap@),
    {
        let wanted = cap.to_owned();
        let n: usize = self.capabilities.len();
        let mut i: usize = 0;
        while i < n
            invariant
                n == self.capabilities@.len(),
                0 <= i <= n,
                wanted@ == cap@,
                forall|j: int| 0 <= j < i ==> #[trigger] self.capabilities@[j]@ != cap@,
            decreases n - i,
        {
            if self.capabilities[i] == wanted {
                return true;
            }
            i = i + 1;
        }
        false
    }
}

/// The shared manifest directory: an explicit override (the host reads it
/// from `TRIX_MANIFEST_DIR`) wins over the platform's default location.
pub fn manifest_dir(env_override: Option<String>, platform_default: String) -> (r: String)
    ensures
        r == (match env_override {
            Some(dir) => dir,
            None => platform_default,
        }),
{
    match env_override {
        Some(dir) => dir,
        None => platform_default,
    }
}

/// The file an app's manifest is written to inside the manifest directory:
/// `<app>.json`.
pub fn manifest_file_name(app: &str) -> (r: String)
    ensures
        r@ == app@ + ".json"@,
{
    let mut name = app.to_owned();
    name.append(".json");
    name
}

/// A directory entry named `name` has the extension `json`: the part after
/// its last `.` is `json`, and that `.` is not the name's first character
/// (so `.json` alone has no extension).
pub open spec fn has_json_extension(name: Seq<char>) -> bool {
    name.len() > 5 && name.subrange(name.len() - 5, name.len() as int) == ".json"@
}

/// A manifest written under [`manifest_file_name`] is found again by
/// [`is_manifest_file`] whenever the app key is not empty. (For an empty key
/// the file is `.json`, which has no extension and is not read back.)
pub proof fn manifest_file_is_discoverable(app: Seq<char>)
    requires
        app.len() > 0,
    ensures
        has_json_extension(app + ".json"@),
{
    reveal_strlit(".json");
    let name = app + ".json"@;
    assert(name.subrange(name.len() - 5, name.len() as int) =~= ".json"@);
}

/// A directory entry is read as a manifest exactly when its name is a
/// non-empty stem followed by `.json`; any other extension (`.toml`,
/// `.yaml`, `.lock`, `.JSON`, ...) or a bare `.json` is skipped.
pub proof fn manifest_names_are_stem_dot_json(name: Seq<char>)
    ensures
        has_json_extension(name) <==> exists|stem: Seq<char>|
            stem.len() > 0 && name == #[trigger] (stem + ".json"@),
{
    reveal_strlit(".json");
    if has_json_extension(name) {
        let stem = name.take(name.len() - 5);
        assert(name =~= stem + ".json"@);
    }
    if exists|stem: Seq<char>| stem.len() > 0 && name == #[trigger] (stem + ".json"@) {
        let stem = choose|stem: Seq<char>| stem.len() > 0 && name == #[trigger] (stem + ".json"@);
        assert(name.subrange(name.len() - 5, name.len() as int) =~= ".json"@);
    }
}

/// The same decision in the terms of a path's extension: an entry is read as
/// a manifest exactly when the part of its name after the last `.` is `json`
/// and that `.` is not the first character of the name.
pub proof fn manifest_names_have_extension_json(name: Seq<char>)
    ensures
        has_json_extension(name) <==> exists|i: int|
            0 < i < name.len() && #[trigger] name[i] == '.' && (forall|j: int|
                i < j < name.len() ==> name[j] != '.') && name.skip(i + 1) == "json"@,
{
    reveal_strlit(".json");
    reveal_strlit("json");
    if has_json_extension(name) {
        let i: int = name.len() - 5;
        let tail = name.subrange(i, name.len() as int);
        assert(tail[0] == '.');
        assert(name[i] == tail[0]);
        assert forall|j: int| i < j < name.len() implies name[j] != '.' by {
            assert(name[j] == tail[j - i]);
        }
        assert(".json"@ =~= seq!['.', 'j', 's', 'o', 'n']);
        assert("json"@ =~= seq!['j', 's', 'o', 'n']);
        assert forall|k: int| 0 <= k < 4 implies name.skip(i + 1)[k] == "json"@[k] by {
            assert(name.skip(i + 1)[k] == tail[k + 1]);
        }
        assert(name.skip(i + 1) =~= "json"@);
    }
    if exists|i: int|
        0 < i < name.len() && #[trigger] name[i] == '.' && (forall|j: int|
            i < j < name.len() ==> name[j] != '.') && name.skip(i + 1) == "json"@ {
        let i = choose|i: int|
            0 < i < name.len() && #[trigger] name[i] == '.' && (forall|j: int|
                i < j < name.len() ==> name[j] != '.') && name.skip(i + 1) == "json"@;
        assert(name.skip(i + 1).len() == 4);
        assert(i == name.len() - 5);
        let tail = name.subrange(name.len() - 5, name.len() as int);
        assert forall|k: int| 0 <= k < 5 implies tail[k] == ".json"@[k] by {
            if k > 0 {
                assert(tail[k] == name.skip(i + 1)[k - 1]);
            }
        }
        assert(tail =~= ".json"@);
    }
}

/// Whether a directory entry named `name` is read as a manifest during
/// discovery: exactly the entries whose extension is `json`.
pub fn is_manifest_file(name: &str) -> (r: bool)
    ensures
        r == has_json_extension(name@),
{
    proof {
        reveal_strlit(".json");
    }
    let cs = chars_of(name);
    let n: usize = cs.len();
    if n <= 5 {
        return false;
    }
    let r = cs[n - 5] == '.' && cs[n - 4] == 'j' && cs[n - 3] == 's' && cs[n - 2] == 'o'
        && cs[n - 1] == 'n';
    let ghost tail = cs@.subrange(n - 5, n as int);
    assert(".json"@ =~= seq!['.', 'j', 's', 'o', 'n']);
    if r {
        assert(tail =~= ".json"@);
    } else {
        assert(tail != ".json"@) by {
            if tail == ".json"@ {
                assert(tail[0] == '.' && tail[1] == 'j' && tail[2] == 's' && tail[3] == 'o'
                    && tail[4] == 'n');
            }
        }
    }
    r
}

/// Position `i` holds the first manifest in `ms` whose app key is `app`.
pub open spec fn is_first_for_app(ms: Seq<AppManifest>, app: Seq<char>, i: int) -> bool {
    &&& 0 <= i < ms.len()
    &&& ms[i].app@ == app
    &&& forall|j: int| 0 <= j < i ==> #[trigger] ms[j].app@ != app
}

/// Find the manifest of the app `app` among the discovered ones: the first
/// whose `app` key matches.
pub fn find(manifests: Vec<AppManifest>, app: &str) -> (r: Option<AppManifest>)
    ensures
        match r {
            Some(m) => exists|i: int|
                #[trigger] is_first_for_app(manifests@, app@, i) && manifests@[i] == m,
            None => forall|i: int| 0 <= i < manifests@.len() ==> #[trigger] manifests@[i].app@ != app@,
        },
{
    let wanted = app.to_owned();
    let ghost all = manifests@;
    let mut list = manifests;
    let n: usize = list.len();
    let mut i: usize = 0;
    while i < n
        invariant
            n == list@.len(),
            list@ == all,
            all == manifests@,
            0 <= i <= n,
            wanted@ == app@,
            forall|j: int| 0 <= j < i ==> #[trigger] all[j].app@ != app@,
        decreases n - i,
    {
        if list[i].app == wanted {
            let m = list.remove(i);
            assert(all[i as int] == m);
            assert(is_first_for_app(all, app@, i as int));
            return Some(m);
        }
        i = i + 1;
    }
    None
}

} // verus!
