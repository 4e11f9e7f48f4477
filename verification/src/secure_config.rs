//! The locally-loaded settings file: its data model and the verifiable parts
//! of its discovery. The host resolves the candidate file locations and does
//! the reading and JSON parsing; this module owns the priority order and
//! deduplication of candidates, the choice of the first existing one, and the
//! removal of a UTF-8 byte-order mark before parsing.

use vstd::prelude::*;

verus! {

/// One entry of the organisation whitelist.
#[derive(Debug, Clone)]
pub struct SecureOrgWhitelistEntry {
    pub id: Option<String>,
    pub org_id: String,
    pub org_name: String,
    pub added_at: Option<String>,
    pub added_by: Option<String>,
    pub notes: Option<String>,
}

/// Optional feature switches of the settings file.
#[derive(Debug, Clone)]
pub struct SecureFeatureRestrictions {
    pub allow_web_search: Option<bool>,
    pub allow_vector_store: Option<bool>,
    pub allow_file_upload: Option<bool>,
    pub allow_chat_file_attachment: Option<bool>,
}

/// The parsed settings file.
#[derive(Debug, Clone)]
pub struct SecureConfig {
    pub version: Option<u32>,
    pub org_whitelist: Vec<SecureOrgWhitelistEntry>,
    pub admin_password_hash: Option<String>,
    pub features: Option<SecureFeatureRestrictions>,
    pub signature: Option<String>,
}

/// One place the settings file is looked for, with its display label.
#[derive(Debug, Clone)]
pub struct SecureConfigSearchPath {
    pub path: String,
    pub label: String,
}

/// The outcome of loading the settings file: the parsed file and where it was
/// found, or neither, along with every place that was searched.
#[derive(Debug, Clone)]
pub struct SecureConfigResult {
    pub config: Option<SecureConfig>,
    pub path: Option<String>,
    pub searched_paths: Vec<SecureConfigSearchPath>,
}

/// One candidate location, with whether a file exists there.
#[derive(Debug, Clone)]
pub struct ConfigCandidate {
    pub path: String,
    pub label: String,
    pub exists: bool,
}

/// Every candidate location, in priority order.
#[derive(Debug, Clone)]
pub struct ConfigCandidatesResult {
    pub candidates: Vec<ConfigCandidate>,
}

/// The (path, label) views of a candidate list.
pub open spec fn search_paths_view(ps: Seq<SecureConfigSearchPath>) -> Seq<(Seq<char>, Seq<char>)> {
    ps.map_values(|p: SecureConfigSearchPath| (p.path@, p.label@))
}

/// `acc` with one more candidate appended, unless the path is absent or
/// already listed.
pub open spec fn with_candidate(
    acc: Seq<(Seq<char>, Seq<char>)>,
    path: Option<Seq<char>>,
    label: Seq<char>,
) -> Seq<(Seq<char>, Seq<char>)> {
    match path {
        None => acc,
        Some(p) => if exists|i: int| 0 <= i < acc.len() && (#[trigger] acc[i]).0 == p {
            acc
        } else {
            acc.push((p, label))
        },
    }
}

/// The view of an optional path.
pub open spec fn opt_path_view(p: Option<String>) -> Option<Seq<char>> {
    match p {
        Some(s) => Some(s@),
        None => None,
    }
}

/// The candidate locations of the settings file, in priority order: the
/// application's config directory, the executable's directory, the resource
/// directory — each given as the candidate file path resolved by the host,
/// absent where the host could not resolve it, and listed once even where two
/// resolve to the same path.
pub open spec fn candidate_list(
    app_config: Option<Seq<char>>,
    executable: Option<Seq<char>>,
    resource: Option<Seq<char>>,
) -> Seq<(Seq<char>, Seq<char>)> {
    with_candidate(
        with_candidate(
            with_candidate(Seq::empty(), app_config, "application config directory"@),
            executable,
            "executable directory"@,
        ),
        resource,
        "resource directory"@,
    )
}

fn push_candidate(
    acc: &mut Vec<SecureConfigSearchPath>,
    path: Option<String>,
    label: &'static str,
)
    ensures
        search_paths_view(final(acc)@) == with_candidate(
            search_paths_view(old(acc)@),
            opt_path_view(path),
            label@,
        ),
{
    let ghost opath = opt_path_view(path);
    let p = match path {
        Some(p) => p,
        None => {
            return ;
        },
    };
    let mut i: usize = 0;
    while i < acc.len()
        invariant
            acc@ == old(acc)@,
            opath == Some(p@),
            opath == opt_path_view(path),
            i <= acc@.len(),
            forall|k: int| 0 <= k < i ==> (#[trigger] search_paths_view(acc@)[k]).0 != p@,
        decreases acc@.len() - i,
    {
        if acc[i].path == p {
            proof {
                let ghost view = search_paths_view(old(acc)@);
                assert((view[i as int]).0 == p@);
                assert(exists|k: int| 0 <= k < view.len() && (#[trigger] view[k]).0 == p@);
                assert(with_candidate(view, opath, label@) == view);
            }
            return ;
        }
        i = i + 1;
    }
    let ghost old_view = search_paths_view(acc@);
    acc.push(SecureConfigSearchPath { path: p, label: label.to_owned() });
    proof {
        assert(search_paths_view(acc@) =~= old_view.push(
            (acc@.last().path@, acc@.last().label@),
        ));
    }
}

/// Builds the candidate list of the settings file from the locations the host
/// resolved, keeping priority order and dropping duplicate paths.
pub fn candidate_paths(
    app_config: Option<String>,
    executable: Option<String>,
    resource: Option<String>,
) -> (r: Vec<SecureConfigSearchPath>)
    ensures
        search_paths_view(r@) == candidate_list(
            opt_path_view(app_config),
            opt_path_view(executable),
            opt_path_view(resource),
        ),
{
    let mut acc: Vec<SecureConfigSearchPath> = Vec::new();
    proof {
        assert(search_paths_view(acc@) =~= Seq::<(Seq<char>, Seq<char>)>::empty());
    }
    push_candidate(&mut acc, app_config, "application config directory");
    push_candidate(&mut acc, executable, "executable directory");
    push_candidate(&mut acc, resource, "resource directory");
    acc
}

/// Pairs each candidate with whether a file exists there, in order.
pub fn config_candidates_result(
    paths: Vec<SecureConfigSearchPath>,
    exists_flags: Vec<bool>,
) -> (r: ConfigCandidatesResult)
    requires
        paths@.len() == exists_flags@.len(),
    ensures
        r.candidates@.len() == paths@.len(),
        forall|i: int|
            0 <= i < paths@.len() ==> {
                let c = #[trigger] r.candidates@[i];
                c.path@ == paths@[i].path@ && c.label@ == paths@[i].label@ && c.exists
                    == exists_flags@[i]
            },
{
    let mut candidates: Vec<ConfigCandidate> = Vec::new();
    let mut i: usize = 0;
    while i < paths.len()
        invariant
            i <= paths@.len(),
            paths@.len() == exists_flags@.len(),
            candidates@.len() == i,
            forall|k: int|
                0 <= k < i ==> {
                    let c = #[trigger] candidates@[k];
                    c.path@ == paths@[k].path@ && c.label@ == paths@[k].label@ && c.exists
                        == exists_flags@[k]
                },
        decreases paths@.len() - i,
    {
        candidates.push(
            ConfigCandidate {
                path: paths[i].path.clone(),
                label: paths[i].label.clone(),
                exists: exists_flags[i],
            },
        );
        i = i + 1;
    }
    ConfigCandidatesResult { candidates }
}

/// The index of the first candidate where a file exists, if any.
pub fn select_first_existing(exists_flags: &Vec<bool>) -> (r: Option<usize>)
    ensures
        r is Some ==> r->Some_0 < exists_flags@.len() && exists_flags@[r->Some_0 as int]
            && forall|j: int| 0 <= j < r->Some_0 ==> !exists_flags@[j],
        r is None ==> forall|j: int| 0 <= j < exists_flags@.len() ==> !exists_flags@[j],
{
    let mut i: usize = 0;
    while i < exists_flags.len()
        invariant
            i <= exists_flags@.len(),
            forall|j: int| 0 <= j < i ==> !exists_flags@[j],
        decreases exists_flags@.len() - i,
    {
        if exists_flags[i] {
            return Some(i);
        }
        i = i + 1;
    }
    None
}

/// Whether the bytes start with the UTF-8 byte-order mark.
pub open spec fn has_utf8_bom(data: Seq<u8>) -> bool {
    data.len() >= 3 && data[0] == 0xEF && data[1] == 0xBB && data[2] == 0xBF
}

/// The bytes with a leading UTF-8 byte-order mark removed, if one is there.
pub open spec fn without_utf8_bom(data: Seq<u8>) -> Seq<u8> {
    if has_utf8_bom(data) {
        data.subrange(3, data.len() as int)
    } else {
        data
    }
}

/// Removes a leading UTF-8 byte-order mark, so the settings file parses
/// whether or not its editor wrote one.
pub fn strip_utf8_bom(data: Vec<u8>) -> (r: Vec<u8>)
    ensures
        r@ == without_utf8_bom(data@),
{
    if data.len() >= 3 && data[0] == 0xEF && data[1] == 0xBB && data[2] == 0xBF {
        let mut r: Vec<u8> = Vec::new();
        let mut i: usize = 3;
        while i < data.len()
            invariant
                3 <= i <= data@.len(),
                r@ == data@.subrange(3, i as int),
            decreases data@.len() - i,
        {
            r.push(data[i]);
            proof {
                assert(data@.subrange(3, i as int).push(data@[i as int]) =~= data@.subrange(
                    3,
                    i as int + 1,
                ));
            }
            i = i + 1;
        }
        r
    } else {
        data
    }
}

} // verus!
