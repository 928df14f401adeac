use rootless::error::{MappingKind, RootlessError};
use rootless::locate::{first_existing, lookup_map_binaries, search_candidates, HelperSearch};
use rootless::mapping::{decimal_string, is_id_mapped, parse_u32, signed_decimal_string};
use rootless::model::{IdMapping, Linux, Mount, Namespace, NamespaceType, Process, Spec};
use rootless::rootless::{rootless_required, Rootless};
use rootless::sysctl::{unprivileged_user_ns_enabled, userns_clone_value};
use rootless::validate::{validate, validate_mounts};
use rootless::writer::{
    check_helper_exit, format_mapping_line, parse_mapping_line, write_id_mapping, MappingAction,
};

fn m(container_id: u32, host_id: u32, size: u32) -> IdMapping {
    IdMapping { container_id, host_id, size }
}

fn user_ns(path: Option<&str>) -> Namespace {
    Namespace { typ: NamespaceType::User, path: path.map(|p| p.to_string()) }
}

fn spec_with(
    namespaces: Vec<Namespace>,
    uids: Option<Vec<IdMapping>>,
    gids: Option<Vec<IdMapping>>,
    mounts: Vec<Mount>,
    additional_gids: Option<Vec<u32>>,
) -> Spec {
    Spec {
        linux: Some(Linux { namespaces: Some(namespaces), uid_mappings: uids, gid_mappings: gids }),
        mounts: Some(mounts),
        process: Some(Process { additional_gids }),
    }
}

fn mount(dest: &str, options: &[&str]) -> Mount {
    Mount {
        destination: dest.to_string(),
        options: Some(options.iter().map(|o| o.to_string()).collect()),
    }
}

fn no_helpers() -> HelperSearch {
    HelperSearch { path_set: true, newuidmap: None, newgidmap: None }
}

fn both_helpers() -> HelperSearch {
    HelperSearch {
        path_set: true,
        newuidmap: Some("/usr/bin/newuidmap".to_string()),
        newgidmap: Some("/usr/bin/newgidmap".to_string()),
    }
}

fn valid_spec() -> Spec {
    spec_with(
        vec![Namespace { typ: NamespaceType::Pid, path: None }, user_ns(None)],
        Some(vec![m(0, 1000, 1)]),
        Some(vec![m(0, 1000, 1)]),
        vec![],
        None,
    )
}

#[test]
fn unprivileged_without_user_namespace_fails() {
    let spec = spec_with(
        vec![Namespace { typ: NamespaceType::Mount, path: None }],
        Some(vec![m(0, 1000, 1)]),
        Some(vec![m(0, 1000, 1)]),
        vec![],
        None,
    );
    let r = Rootless::with_privilege(&spec, false, None, &no_helpers());
    assert!(matches!(r, Err(RootlessError::MissingUserNamespace)));
}

#[test]
fn root_with_override_without_user_namespace_fails() {
    let spec = spec_with(vec![], None, None, vec![], None);
    let r = Rootless::with_privilege(&spec, true, Some("true"), &no_helpers());
    assert!(matches!(r, Err(RootlessError::MissingUserNamespace)));
    let r = Rootless::with_privilege(&spec, true, Some("false"), &no_helpers());
    assert!(matches!(r, Ok(None)));
}

#[test]
fn missing_linux_section_fails() {
    let spec = Spec { linux: None, mounts: None, process: None };
    let r = Rootless::with_privilege(&spec, true, None, &no_helpers());
    assert!(matches!(r, Err(RootlessError::MissingPlatformSection)));
}

#[test]
fn joined_user_namespace_is_not_rootless() {
    // The mappings are empty, which validation would refuse: they are not looked at.
    let spec = spec_with(vec![user_ns(Some("/proc/1/ns/user"))], None, None, vec![], Some(vec![5]));
    let r = Rootless::with_privilege(&spec, false, None, &no_helpers());
    assert!(matches!(r, Ok(None)));
}

#[test]
fn rootless_required_cases() {
    assert!(rootless_required(false, None));
    assert!(rootless_required(false, Some("no")));
    assert!(rootless_required(true, Some("true")));
    assert!(!rootless_required(true, Some("TRUE")));
    assert!(!rootless_required(true, None));
}

#[test]
fn single_uid_mapping_needs_no_helpers() {
    let linux = Linux { namespaces: None, uid_mappings: Some(vec![m(0, 1000, 1)]), gid_mappings: None };
    let found = HelperSearch { path_set: false, newuidmap: None, newgidmap: None };
    assert!(matches!(lookup_map_binaries(&linux, &found), Ok(None)));
    let absent = Linux { namespaces: None, uid_mappings: None, gid_mappings: None };
    assert!(matches!(lookup_map_binaries(&absent, &found), Ok(None)));
}

#[test]
fn multiple_uid_mappings_need_both_helpers() {
    let linux = Linux {
        namespaces: None,
        uid_mappings: Some(vec![m(0, 1000, 1), m(1, 100000, 65536)]),
        gid_mappings: None,
    };
    match lookup_map_binaries(&linux, &both_helpers()) {
        Ok(Some((u, g))) => {
            assert_eq!(u, "/usr/bin/newuidmap");
            assert_eq!(g, "/usr/bin/newgidmap");
        }
        other => panic!("unexpected {:?}", other),
    }
    let unset = HelperSearch { path_set: false, newuidmap: None, newgidmap: None };
    assert!(matches!(lookup_map_binaries(&linux, &unset), Err(RootlessError::PathLookupFailure)));
    let only_uid = HelperSearch {
        path_set: true,
        newuidmap: Some("/bin/newuidmap".to_string()),
        newgidmap: None,
    };
    match lookup_map_binaries(&linux, &only_uid) {
        Err(RootlessError::MissingHelperBinary(name)) => assert_eq!(name, "newgidmap"),
        other => panic!("unexpected {:?}", other),
    }
    match lookup_map_binaries(&linux, &no_helpers()) {
        Err(RootlessError::MissingHelperBinary(name)) => assert_eq!(name, "newuidmap"),
        other => panic!("unexpected {:?}", other),
    }
}

#[test]
fn membership_is_inclusive_at_both_ends() {
    let ms = [m(10, 1000, 5)];
    assert!(is_id_mapped(10, &ms));
    assert!(is_id_mapped(15, &ms));
    assert!(!is_id_mapped(16, &ms));
    assert!(!is_id_mapped(9, &ms));
    assert!(!is_id_mapped(0, &[]));
    let top = [m(u32::MAX - 1, 0, 5)];
    assert!(is_id_mapped(u32::MAX, &top));
}

#[test]
fn mapping_line_round_trip() {
    let entry = m(0, 100000, 65536);
    let line = format_mapping_line(entry);
    assert_eq!(line, "0 100000 65536");
    assert_eq!(parse_mapping_line(&line), Some(entry));
    let big = m(u32::MAX, 7, 4294967295);
    assert_eq!(parse_mapping_line(&format_mapping_line(big)), Some(big));
    assert_eq!(parse_mapping_line("1 2"), None);
    assert_eq!(parse_mapping_line("1 x 3"), None);
}

#[test]
fn supplementary_groups_root_mapped() {
    let spec = spec_with(
        vec![user_ns(None)],
        Some(vec![m(0, 1000, 200)]),
        Some(vec![m(0, 1000, 200)]),
        vec![],
        Some(vec![100]),
    );
    assert!(validate(&spec, true).is_ok());
}

#[test]
fn supplementary_groups_forbidden_for_unprivileged() {
    let spec = spec_with(
        vec![user_ns(None)],
        Some(vec![m(0, 1000, 200)]),
        Some(vec![m(0, 1000, 200)]),
        vec![],
        Some(vec![100]),
    );
    assert!(matches!(validate(&spec, false), Err(RootlessError::SupplementaryGroupsForbidden)));
}

#[test]
fn supplementary_group_unmapped_for_root() {
    let spec = spec_with(
        vec![user_ns(None)],
        Some(vec![m(0, 1000, 200)]),
        Some(vec![m(0, 1000, 200)]),
        vec![],
        Some(vec![100, 300, 400]),
    );
    assert!(matches!(validate(&spec, true), Err(RootlessError::UnmappedSupplementaryGroup(300))));
}

#[test]
fn empty_supplementary_groups_pass_for_unprivileged() {
    let spec = spec_with(
        vec![user_ns(None)],
        Some(vec![m(0, 1000, 1)]),
        Some(vec![m(0, 1000, 1)]),
        vec![],
        Some(vec![]),
    );
    assert!(validate(&spec, false).is_ok());
}

#[test]
fn mount_uid_outside_mapping_fails() {
    let spec = spec_with(
        vec![user_ns(None)],
        Some(vec![m(0, 1000, 10)]),
        Some(vec![m(0, 1000, 10)]),
        vec![mount("/data", &["uid=50"])],
        None,
    );
    match validate(&spec, true) {
        Err(RootlessError::UnmappedMountId { mount, id }) => {
            assert_eq!(mount, "/data");
            assert_eq!(id, 50);
        }
        other => panic!("unexpected {:?}", other),
    }
}

#[test]
fn mount_options_checked_per_kind() {
    let uids = vec![m(0, 1000, 10)];
    let gids = vec![m(100, 2000, 10)];
    let ok = [mount("/a", &["rw", "uid=10", "gid=105"])];
    assert!(validate_mounts(&ok, &uids, &gids).is_ok());
    let bad_gid = [mount("/a", &["gid=5"])];
    assert!(matches!(
        validate_mounts(&bad_gid, &uids, &gids),
        Err(RootlessError::UnmappedMountId { id: 5, .. })
    ));
    let invalid = [mount("/a", &["mode=755"]), mount("/b", &["uid=abc"])];
    match validate_mounts(&invalid, &uids, &gids) {
        Err(RootlessError::InvalidMountOption { mount, option }) => {
            assert_eq!(mount, "/b");
            assert_eq!(option, "uid=abc");
        }
        other => panic!("unexpected {:?}", other),
    }
    let no_options = [Mount { destination: "/c".to_string(), options: None }];
    assert!(validate_mounts(&no_options, &uids, &gids).is_ok());
}

#[test]
fn missing_or_empty_mappings_fail() {
    let no_gid = spec_with(vec![user_ns(None)], Some(vec![m(0, 1, 1)]), None, vec![], None);
    assert!(matches!(validate(&no_gid, true), Err(RootlessError::MissingMapping(MappingKind::Gid))));
    let no_uid = spec_with(vec![user_ns(None)], None, Some(vec![m(0, 1, 1)]), vec![], None);
    assert!(matches!(validate(&no_uid, true), Err(RootlessError::MissingMapping(MappingKind::Uid))));
    let empty_uid = spec_with(vec![user_ns(None)], Some(vec![]), Some(vec![m(0, 1, 1)]), vec![], None);
    assert!(matches!(validate(&empty_uid, true), Err(RootlessError::MissingMapping(MappingKind::Uid))));
    let empty_gid = spec_with(vec![user_ns(None)], Some(vec![m(0, 1, 1)]), Some(vec![]), vec![], None);
    assert!(matches!(validate(&empty_gid, true), Err(RootlessError::MissingMapping(MappingKind::Gid))));
    let no_user = spec_with(vec![], Some(vec![m(0, 1, 1)]), Some(vec![m(0, 1, 1)]), vec![], None);
    assert!(matches!(validate(&no_user, true), Err(RootlessError::MissingUserNamespace)));
}

#[test]
fn end_to_end_with_helpers() {
    let spec = spec_with(
        vec![user_ns(None)],
        Some(vec![m(0, 1000, 1), m(1, 100000, 65536)]),
        Some(vec![m(0, 1000, 1), m(1, 100000, 65536)]),
        vec![mount("/tmp", &["mode=1777"])],
        None,
    );
    let rootless = Rootless::with_privilege(&spec, true, None, &both_helpers()).unwrap().unwrap();
    assert_eq!(rootless.newuidmap.as_deref(), Some("/usr/bin/newuidmap"));
    assert_eq!(rootless.newgidmap.as_deref(), Some("/usr/bin/newgidmap"));
    assert!(rootless.privileged);
    assert!(rootless.user_namespace.is_some());

    match rootless.write_uid_mapping(4242).unwrap().unwrap() {
        MappingAction::RunHelper { program, args } => {
            assert_eq!(program, "/usr/bin/newuidmap");
            assert_eq!(args, vec!["4242", "0", "1000", "1", "1", "100000", "65536"]);
        }
        other => panic!("unexpected {:?}", other),
    }
    match rootless.write_gid_mapping(4242).unwrap().unwrap() {
        MappingAction::RunHelper { program, args } => {
            assert_eq!(program, "/usr/bin/newgidmap");
            assert_eq!(args, vec!["4242", "0", "1000", "1", "1", "100000", "65536"]);
        }
        other => panic!("unexpected {:?}", other),
    }
    assert!(check_helper_exit(Some(0), String::new()).is_ok());
    assert!(check_helper_exit(Some(0), String::new()).is_ok());
}

#[test]
fn single_entry_is_written_directly() {
    let spec = valid_spec();
    let rootless = Rootless::with_privilege(&spec, false, None, &no_helpers()).unwrap().unwrap();
    assert!(rootless.newuidmap.is_none());
    assert!(!rootless.privileged);
    match rootless.write_uid_mapping(77).unwrap().unwrap() {
        MappingAction::WriteFile { path, content } => {
            assert_eq!(path, "/proc/77/uid_map");
            assert_eq!(content, "0 1000 1");
        }
        other => panic!("unexpected {:?}", other),
    }
    match rootless.write_gid_mapping(77).unwrap().unwrap() {
        MappingAction::WriteFile { path, content } => {
            assert_eq!(path, "/proc/77/gid_map");
            assert_eq!(content, "0 1000 1");
        }
        other => panic!("unexpected {:?}", other),
    }
}

#[test]
fn new_reads_the_effective_user() {
    let spec = valid_spec();
    let r = Rootless::new(&spec, None, &no_helpers()).unwrap().unwrap();
    assert_eq!(r.uid_mappings.map(|v| v.len()), Some(1));
}

#[test]
fn absent_mappings_write_nothing() {
    let linux = Linux { namespaces: None, uid_mappings: None, gid_mappings: None };
    let rootless = Rootless::from_linux(&linux, true);
    assert!(matches!(rootless.write_uid_mapping(1), Ok(None)));
    assert!(matches!(rootless.write_gid_mapping(1), Ok(None)));
}

#[test]
fn write_id_mapping_errors() {
    assert!(matches!(
        write_id_mapping(1, MappingKind::Uid, &vec![], None),
        Err(RootlessError::EmptyMappingList)
    ));
    match write_id_mapping(1, MappingKind::Gid, &vec![m(0, 1, 1), m(1, 2, 1)], None) {
        Err(RootlessError::MissingHelperBinary(name)) => assert_eq!(name, "newgidmap"),
        other => panic!("unexpected {:?}", other),
    }
}

#[test]
fn helper_failure_is_reported() {
    match check_helper_exit(Some(1), "boom".to_string()) {
        Err(RootlessError::HelperExecutionFailure { status, stderr }) => {
            assert_eq!(status, Some(1));
            assert_eq!(stderr, "boom");
        }
        other => panic!("unexpected {:?}", other),
    }
    assert!(check_helper_exit(None, String::new()).is_err());
}

#[test]
fn userns_clone_switch() {
    assert!(matches!(unprivileged_user_ns_enabled(None), Ok(true)));
    assert!(matches!(unprivileged_user_ns_enabled(Some("0\n")), Ok(false)));
    assert!(matches!(unprivileged_user_ns_enabled(Some("  1 \n")), Ok(true)));
    match unprivileged_user_ns_enabled(Some(" 2\n")) {
        Err(RootlessError::SysctlParseError(v)) => assert_eq!(v, "2"),
        other => panic!("unexpected {:?}", other),
    }
    assert!(matches!(userns_clone_value("x"), Err(RootlessError::SysctlParseError(_))));
    for v in ["+1", "01", "00", "001", "", "10"] {
        match userns_clone_value(v) {
            Err(RootlessError::SysctlParseError(s)) => assert_eq!(s, v),
            other => panic!("unexpected {:?} for {:?}", other, v),
        }
    }
    assert!(matches!(userns_clone_value("0"), Ok(false)));
    assert!(matches!(unprivileged_user_ns_enabled(Some("\u{a0}\t1\u{3000}")), Ok(true)));
    assert!(matches!(
        unprivileged_user_ns_enabled(Some(" 01 ")),
        Err(RootlessError::SysctlParseError(_))
    ));
}

#[test]
fn decimal_text() {
    assert_eq!(decimal_string(0), "0");
    assert_eq!(decimal_string(4294967295), "4294967295");
    assert_eq!(signed_decimal_string(-2147483648), "-2147483648");
    assert_eq!(signed_decimal_string(31), "31");
}

#[test]
fn parse_unsigned() {
    assert_eq!(parse_u32("50"), Some(50));
    assert_eq!(parse_u32("+7"), Some(7));
    assert_eq!(parse_u32("4294967295"), Some(u32::MAX));
    assert_eq!(parse_u32("4294967296"), None);
    assert_eq!(parse_u32(""), None);
    assert_eq!(parse_u32("+"), None);
    assert_eq!(parse_u32("-1"), None);
}

#[test]
fn search_path_candidates() {
    assert_eq!(
        search_candidates("/usr/bin:/bin/::relative", "newuidmap"),
        vec!["/usr/bin/newuidmap", "/bin/newuidmap", "newuidmap", "relative/newuidmap"]
    );
    assert_eq!(search_candidates("/a:", "x"), vec!["/a/x"]);
    assert!(search_candidates("", "x").is_empty());
    assert_eq!(search_candidates(":", "x"), vec!["x"]);
}

#[test]
fn first_existing_candidate_wins() {
    let candidates = vec!["/a/x".to_string(), "/b/x".to_string(), "/c/x".to_string()];
    assert_eq!(first_existing(&candidates, &vec![false, true, true]), Some("/b/x".to_string()));
    assert_eq!(first_existing(&candidates, &vec![true, true, false]), Some("/a/x".to_string()));
    assert_eq!(first_existing(&candidates, &vec![false, false, false]), None);
    assert_eq!(first_existing(&candidates, &vec![false]), None);
    assert_eq!(first_existing(&vec![], &vec![true]), None);
}

#[test]
fn rootless_record_clones() {
    let spec = valid_spec();
    let r = Rootless::with_privilege(&spec, true, None, &no_helpers()).unwrap().unwrap();
    let c = r.clone();
    assert_eq!(c.uid_mappings, r.uid_mappings);
    assert!(c.privileged);
}
