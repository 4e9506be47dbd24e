//! The integer and text parts of the Pi-hole information endpoints.
use vstd::prelude::*;

use crate::text::{push_text, to_owned_string};

verus! {

/// The versions of the Pi-hole components.
#[derive(Debug)]
pub struct VersionResponse {
    pub version: VersionInfo,
}

#[derive(Debug)]
pub struct VersionInfo {
    pub core: ComponentVersions,
    pub web: ComponentVersions,
    pub ftl: ComponentVersions,
    pub docker: Option<ComponentVersions>,
}

/// The installed and the latest available version of a component.
#[derive(Debug)]
pub struct ComponentVersions {
    pub local: Option<VersionDetail>,
    pub remote: Option<VersionDetail>,
}

#[derive(Debug)]
pub struct VersionDetail {
    pub version: Option<String>,
    pub branch: Option<String>,
    pub hash: Option<String>,
}

/// A version as the API may give it: in detail, or as a bare version string.
#[derive(Debug)]
pub enum VersionEntry {
    Detail(VersionDetail),
    VersionOnly(String),
}

/// A version detail as plain values.
pub struct VersionDetailView {
    pub version: Option<Seq<char>>,
    pub branch: Option<Seq<char>>,
    pub hash: Option<Seq<char>>,
}

pub open spec fn opt_text(o: Option<String>) -> Option<Seq<char>> {
    match o {
        Some(s) => Some(s@),
        None => None,
    }
}

impl View for VersionDetail {
    type V = VersionDetailView;

    open spec fn view(&self) -> VersionDetailView {
        VersionDetailView {
            version: opt_text(self.version),
            branch: opt_text(self.branch),
            hash: opt_text(self.hash),
        }
    }
}

/// A bare version string is a detail with that version and nothing else.
pub fn version_entry_into_detail(entry: VersionEntry) -> (d: VersionDetail)
    ensures
        match entry {
            VersionEntry::Detail(detail) => d@ == detail@,
            VersionEntry::VersionOnly(v) => d@ == (VersionDetailView {
                version: Some(v@),
                branch: None,
                hash: None,
            }),
        },
{
    match entry {
        VersionEntry::Detail(detail) => detail,
        VersionEntry::VersionOnly(version) => VersionDetail {
            version: Some(version),
            branch: None,
            hash: None,
        },
    }
}

/// The FTL database counts.
#[derive(Debug, Clone, Copy)]
pub struct FtlDatabaseInfo {
    pub gravity: i64,
    pub groups: i64,
    pub lists: i64,
    pub clients: i64,
}

/// The text of an optional field, or `default` where it is absent.
pub open spec fn text_or(o: Option<Seq<char>>, default: Seq<char>) -> Seq<char> {
    match o {
        Some(s) => s,
        None => default,
    }
}

/// The label values of the version gauge for `component` at `scope`
/// (`local` or `remote`): the host, `component_scope`, the version (or
/// `unknown`), the branch and the hash (or empty texts).
pub open spec fn version_labels_spec(
    hostname: Seq<char>,
    component: Seq<char>,
    scope: Seq<char>,
    d: VersionDetailView,
) -> Seq<Seq<char>> {
    seq![
        hostname,
        component + "_"@ + scope,
        text_or(d.version, "unknown"@),
        text_or(d.branch, Seq::empty()),
        text_or(d.hash, Seq::empty()),
    ]
}

fn text_or_exec(o: &Option<String>, default: &str) -> (r: String)
    ensures
        r@ == text_or(opt_text(*o), default@),
{
    match o {
        Some(s) => s.clone(),
        None => to_owned_string(default),
    }
}

/// The label values of the version gauge for one version detail.
pub fn version_labels(hostname: &str, component: &str, scope: &str, detail: &VersionDetail) -> (r: Vec<String>)
    ensures
        r@.map_values(|s: String| s@) == version_labels_spec(hostname@, component@, scope@, detail@),
{
    let mut comp = to_owned_string(component);
    push_text(&mut comp, "_");
    push_text(&mut comp, scope);
    let mut r: Vec<String> = Vec::new();
    r.push(to_owned_string(hostname));
    r.push(comp);
    r.push(text_or_exec(&detail.version, "unknown"));
    r.push(text_or_exec(&detail.branch, ""));
    r.push(text_or_exec(&detail.hash, ""));
    proof {
        reveal_strlit("");
        assert(""@ =~= Seq::<char>::empty());
    }
    assert(r@.map_values(|s: String| s@) =~= version_labels_spec(
        hostname@,
        component@,
        scope@,
        detail@,
    ));
    r
}

/// The label values of the version gauge: the host, `component_scope`, the
/// version reported (`unknown` when there is none), the branch and the hash
/// reported (empty when there is none).
pub proof fn law_version_labels(hostname: Seq<char>, component: Seq<char>, scope: Seq<char>, d: VersionDetailView)
    ensures
        version_labels_spec(hostname, component, scope, d).len() == 5,
        version_labels_spec(hostname, component, scope, d)[0] == hostname,
        version_labels_spec(hostname, component, scope, d)[1] == component + seq!['_'] + scope,
        d.version matches Some(v) ==> version_labels_spec(hostname, component, scope, d)[2] == v,
        d.version is None ==> version_labels_spec(hostname, component, scope, d)[2] == seq!['u', 'n', 'k', 'n', 'o', 'w', 'n'],
        d.branch matches Some(b) ==> version_labels_spec(hostname, component, scope, d)[3] == b,
        d.branch is None ==> version_labels_spec(hostname, component, scope, d)[3].len() == 0,
        d.hash matches Some(x) ==> version_labels_spec(hostname, component, scope, d)[4] == x,
        d.hash is None ==> version_labels_spec(hostname, component, scope, d)[4].len() == 0,
{
    reveal_strlit("_");
    reveal_strlit("unknown");
    assert("_"@ =~= seq!['_']);
    assert("unknown"@ =~= seq!['u', 'n', 'k', 'n', 'o', 'w', 'n']);
}

} // verus!
