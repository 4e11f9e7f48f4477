use openai_proxy::secure_config::{
    candidate_paths, config_candidates_result, select_first_existing, strip_utf8_bom,
    SecureConfig, SecureOrgWhitelistEntry,
};

#[test]
fn candidates_keep_priority_order() {
    let paths = candidate_paths(
        Some("/config/config.pkg".to_string()),
        Some("/exe/config.pkg".to_string()),
        Some("/res/config.pkg".to_string()),
    );
    let listed: Vec<(&str, &str)> = paths.iter().map(|p| (p.path.as_str(), p.label.as_str())).collect();
    assert_eq!(
        listed,
        vec![
            ("/config/config.pkg", "application config directory"),
            ("/exe/config.pkg", "executable directory"),
            ("/res/config.pkg", "resource directory"),
        ],
    );
}

#[test]
fn duplicate_candidate_paths_are_listed_once() {
    let paths = candidate_paths(
        Some("/same/config.pkg".to_string()),
        Some("/same/config.pkg".to_string()),
        Some("/res/config.pkg".to_string()),
    );
    assert_eq!(paths.len(), 2);
    assert_eq!(paths[0].path, "/same/config.pkg");
    assert_eq!(paths[0].label, "application config directory");
    assert_eq!(paths[1].path, "/res/config.pkg");
}

#[test]
fn unresolved_candidates_are_skipped() {
    let paths = candidate_paths(None, Some("/exe/config.pkg".to_string()), None);
    assert_eq!(paths.len(), 1);
    assert_eq!(paths[0].label, "executable directory");
}

#[test]
fn candidates_pair_with_existence_flags() {
    let paths = candidate_paths(
        Some("/a/config.pkg".to_string()),
        Some("/b/config.pkg".to_string()),
        None,
    );
    let result = config_candidates_result(paths, vec![false, true]);
    assert_eq!(result.candidates.len(), 2);
    assert!(!result.candidates[0].exists);
    assert!(result.candidates[1].exists);
    assert_eq!(result.candidates[1].path, "/b/config.pkg");
}

#[test]
fn first_existing_candidate_wins() {
    assert_eq!(select_first_existing(&vec![false, true, true]), Some(1));
    assert_eq!(select_first_existing(&vec![true, false]), Some(0));
    assert_eq!(select_first_existing(&vec![false, false]), None);
    assert_eq!(select_first_existing(&vec![]), None);
}

#[test]
fn utf8_bom_is_stripped() {
    let data = vec![0xEF, 0xBB, 0xBF, b'{', b'}'];
    assert_eq!(strip_utf8_bom(data), vec![b'{', b'}']);
}

#[test]
fn data_without_bom_is_unchanged() {
    let data = vec![b'{', b'}'];
    assert_eq!(strip_utf8_bom(data.clone()), data);
    let short = vec![0xEF, 0xBB];
    assert_eq!(strip_utf8_bom(short.clone()), short);
}

#[test]
fn config_model_holds_whitelist_entries() {
    let config = SecureConfig {
        version: Some(1),
        org_whitelist: vec![SecureOrgWhitelistEntry {
            id: None,
            org_id: "org-1".to_string(),
            org_name: "One".to_string(),
            added_at: None,
            added_by: None,
            notes: None,
        }],
        admin_password_hash: None,
        features: None,
        signature: None,
    };
    assert_eq!(config.org_whitelist.len(), 1);
    assert_eq!(config.org_whitelist[0].org_id, "org-1");
}
