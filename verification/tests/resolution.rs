use pargit::commands::{BumpKind, VersionSpec};
use pargit::config::Config;
use pargit::release::{
    all_same_version, get_version_files_to_bump, latest_candidate, must_choose, read_tag_under,
    resolve_release, try_get_latest_tagged_version, Release, ResolveError, TaggedVersion,
};
use pargit::version::Version;
use pargit::version_file::VersionFile;

fn tags(names: &[&str]) -> Vec<String> {
    names.iter().map(|s| s.to_string()).collect()
}

fn file(path: &str, version: &str) -> VersionFile {
    VersionFile::CargoToml {
        path: path.to_string(),
        version: Version::parse(version).unwrap(),
        is_workspace: false,
    }
}

fn prefixed(prefix: &str) -> Config {
    let mut config = Config::default();
    config.tag_prefix = prefix.to_string();
    config
}

#[test]
fn bump_from_tags_takes_the_latest_and_keeps_its_prefix() {
    let config = Config::default();
    let release = resolve_release(
        &config,
        VersionSpec::Bump(BumpKind::Minor),
        Vec::new(),
        None,
        &tags(&["v1.2.0", "v1.3.0", "bogus"]),
    )
    .unwrap();
    assert_eq!(release.version, Version::new(1, 4, 0));
    assert_eq!(release.name, "1.4.0");
    assert_eq!(release.tag, "v1.4.0");
    assert_eq!(release.version_files, Some(Vec::new()));
}

#[test]
fn bump_without_files_or_versions_in_tags_cannot_deduce() {
    let config = Config::default();
    let r = resolve_release(
        &config,
        VersionSpec::Bump(BumpKind::Patch),
        Vec::new(),
        None,
        &tags(&["bogus", "nightly"]),
    );
    assert_eq!(r, Err(ResolveError::CannotDeduce));
    let r = resolve_release(&config, VersionSpec::Bump(BumpKind::Patch), Vec::new(), None, &tags(&[]));
    assert_eq!(r, Err(ResolveError::CannotDeduce));
}

#[test]
fn files_that_share_a_version_are_all_bumped() {
    let config = prefixed("v");
    let files = vec![file("a/Cargo.toml", "2.0.0"), file("b/Cargo.toml", "2.0.0")];
    for (kind, next) in [
        (BumpKind::Major, Version::new(3, 0, 0)),
        (BumpKind::Minor, Version::new(2, 1, 0)),
        (BumpKind::Patch, Version::new(2, 0, 1)),
    ] {
        let release = resolve_release(
            &config,
            VersionSpec::Bump(kind),
            files.clone(),
            None,
            &tags(&["v9.9.9"]),
        )
        .unwrap();
        assert_eq!(release.version, next);
        assert_eq!(release.name, next.to_text());
        assert_eq!(release.tag, format!("v{}", next.to_text()));
        assert_eq!(release.version_files, Some(files.clone()));
    }
}

#[test]
fn files_with_several_versions_need_one_choice() {
    let config = Config::default();
    let files = vec![
        file("a/Cargo.toml", "1.0.0"),
        file("b/Cargo.toml", "2.5.0"),
        file("c/Cargo.toml", "1.0.0"),
    ];
    let spec = VersionSpec::Bump(BumpKind::Minor);
    assert_eq!(
        resolve_release(&config, spec.clone(), files.clone(), None, &tags(&[])),
        Err(ResolveError::NeedsChoice)
    );
    assert_eq!(
        resolve_release(&config, spec.clone(), files.clone(), Some(3), &tags(&[])),
        Err(ResolveError::NeedsChoice)
    );
    for i in 0..files.len() {
        let chosen = resolve_release(&config, spec.clone(), files.clone(), Some(i), &tags(&[]));
        let alone = resolve_release(&config, spec.clone(), vec![files[i].clone()], None, &tags(&[]));
        assert_eq!(chosen, alone);
        assert_eq!(chosen.unwrap().version_files, Some(vec![files[i].clone()]));
    }
    let second = resolve_release(&config, spec, files, Some(1), &tags(&[])).unwrap();
    assert_eq!(second.version, Version::new(2, 6, 0));
    assert_eq!(second.tag, "2.6.0");
}

#[test]
fn an_exact_version_goes_to_every_file_without_a_choice() {
    let config = prefixed("release-");
    let files = vec![file("a/Cargo.toml", "1.0.0"), file("b/Cargo.toml", "2.5.0")];
    let release = resolve_release(
        &config,
        VersionSpec::Exact(Version::new(7, 1, 0)),
        files.clone(),
        None,
        &tags(&["v1.0.0"]),
    )
    .unwrap();
    assert_eq!(
        release,
        Release {
            name: "7.1.0".to_string(),
            tag: "release-7.1.0".to_string(),
            version: Version::new(7, 1, 0),
            version_files: Some(files),
        }
    );
}

#[test]
fn a_bump_past_the_largest_number_is_refused() {
    let config = Config::default();
    let files = vec![VersionFile::CargoToml {
        path: "Cargo.toml".to_string(),
        version: Version::new(u64::MAX, 0, 0),
        is_workspace: false,
    }];
    assert_eq!(
        resolve_release(&config, VersionSpec::Bump(BumpKind::Major), files, None, &tags(&[])),
        Err(ResolveError::Overflow)
    );
    assert_eq!(
        resolve_release(
            &config,
            VersionSpec::Bump(BumpKind::Patch),
            Vec::new(),
            None,
            &tags(&["1.0.18446744073709551615"])
        ),
        Err(ResolveError::Overflow)
    );
}

#[test]
fn a_tag_is_read_behind_a_prefix() {
    let found = |prefix: &str, tag: &str| read_tag_under(prefix, tag).map(|t| (t.version, t.prefix));
    assert_eq!(found("rel-", "rel-1.2.3"), Some((Version::new(1, 2, 3), "rel-".to_string())));
    assert_eq!(found("v", "v1.2.3"), Some((Version::new(1, 2, 3), "v".to_string())));
    assert_eq!(found("", "1.2.3"), Some((Version::new(1, 2, 3), "".to_string())));
    assert_eq!(found("v1", "v11.2.3"), Some((Version::new(1, 2, 3), "v1".to_string())));
    assert_eq!(found("rel-", "v1.2.3"), None);
    assert_eq!(found("", "v1.2.3"), None);
    assert_eq!(found("v", "vv1.2.3"), None);
    assert_eq!(found("rel-", "rel-bogus"), None);
    assert_eq!(found("", ""), None);
    let hyphens = format!("v1.0.0-{}", vec!["a"; 300].join("-"));
    assert_eq!(found("v", &hyphens), None);
}

#[test]
fn a_tag_counts_with_every_version_that_it_spells() {
    let latest = try_get_latest_tagged_version("v1", &tags(&["v11.2.3"])).unwrap();
    assert_eq!(latest, TaggedVersion { version: Version::new(11, 2, 3), prefix: "v".to_string() });
    let latest = try_get_latest_tagged_version("v1", &tags(&["v11.2.3", "v12.0.0"])).unwrap();
    assert_eq!(latest, TaggedVersion { version: Version::new(12, 0, 0), prefix: "v".to_string() });
    let latest = try_get_latest_tagged_version("1", &tags(&["10.0.5", "9.0.0"])).unwrap();
    assert_eq!(latest, TaggedVersion { version: Version::new(10, 0, 5), prefix: "".to_string() });
    let latest = try_get_latest_tagged_version("rel-", &tags(&["rel-1.0.0", "v0.9.0", "0.8.0"]));
    assert_eq!(
        latest,
        Some(TaggedVersion { version: Version::new(1, 0, 0), prefix: "rel-".to_string() })
    );
}

#[test]
fn the_latest_candidate_is_the_last_that_none_exceeds() {
    let at = |version: &str| {
        Some(TaggedVersion { version: Version::parse(version).unwrap(), prefix: "v".to_string() })
    };
    assert_eq!(latest_candidate(&Vec::new()), None);
    assert_eq!(latest_candidate(&vec![None, None]), None);
    assert_eq!(latest_candidate(&vec![None, at("1.0.0"), None]), Some(1));
    assert_eq!(latest_candidate(&vec![at("1.0.0"), at("2.0.0"), at("1.5.0")]), Some(1));
    assert_eq!(latest_candidate(&vec![at("2.0.0"), None, at("2.0.0+b"), at("1.0.0")]), Some(2));
    assert_eq!(latest_candidate(&vec![at("2.0.0-rc.1"), at("2.0.0-rc.1"), None]), Some(1));
    assert_eq!(latest_candidate(&vec![at("3.0.0"), at("2.0.0"), at("1.0.0")]), Some(0));
}

#[test]
fn the_latest_tag_is_the_highest_in_precedence_whatever_the_order() {
    let latest = |names: &[&str]| {
        try_get_latest_tagged_version("", &tags(names)).map(|t| (t.version.to_text(), t.prefix))
    };
    assert_eq!(latest(&["v1.2.0", "v1.3.0", "bogus"]), Some(("1.3.0".to_string(), "v".to_string())));
    assert_eq!(latest(&["v1.3.0", "bogus", "v1.2.0"]), Some(("1.3.0".to_string(), "v".to_string())));
    assert_eq!(latest(&["1.10.0", "v1.9.0", "1.2.0"]), Some(("1.10.0".to_string(), "".to_string())));
    assert_eq!(latest(&["2.0.0-rc.1", "v1.9.0"]), Some(("2.0.0-rc.1".to_string(), "".to_string())));
    assert_eq!(latest(&["2.0.0-rc.1", "v2.0.0"]), Some(("2.0.0".to_string(), "v".to_string())));
    assert_eq!(latest(&["bogus", "also-bogus"]), None);
    assert_eq!(latest(&[]), None);
}

#[test]
fn among_equal_tags_the_last_one_gives_the_prefix() {
    let latest = try_get_latest_tagged_version("", &tags(&["v1.0.0", "1.0.0"])).unwrap();
    assert_eq!(latest, TaggedVersion { version: Version::new(1, 0, 0), prefix: "".to_string() });
    let latest = try_get_latest_tagged_version("", &tags(&["1.0.0", "v1.0.0", "0.9.0"])).unwrap();
    assert_eq!(latest, TaggedVersion { version: Version::new(1, 0, 0), prefix: "v".to_string() });
}

#[test]
fn the_configured_prefix_is_recognized_in_tags() {
    let config = prefixed("rel-");
    let release = resolve_release(
        &config,
        VersionSpec::Bump(BumpKind::Patch),
        Vec::new(),
        None,
        &tags(&["rel-0.3.1", "v0.2.0", "rel-bogus"]),
    )
    .unwrap();
    assert_eq!(release.version, Version::new(0, 3, 2));
    assert_eq!(release.tag, "rel-0.3.2");
}

#[test]
fn files_share_a_version_when_only_build_metadata_differs() {
    assert!(all_same_version(&vec![file("a", "1.0.0+x"), file("b", "1.0.0+y")]));
    assert!(all_same_version(&vec![file("a", "1.0.0")]));
    assert!(!all_same_version(&vec![file("a", "1.0.0"), file("b", "1.0.1")]));
    assert!(!all_same_version(&vec![file("a", "1.0.0-a"), file("b", "1.0.0")]));
    assert!(!all_same_version(&Vec::new()));
}

#[test]
fn a_choice_is_needed_only_among_several_versions() {
    assert!(!must_choose(&Vec::new()));
    assert!(!must_choose(&vec![file("a", "1.0.0")]));
    assert!(!must_choose(&vec![file("a", "1.0.0"), file("b", "1.0.0")]));
    assert!(must_choose(&vec![file("a", "1.0.0"), file("b", "1.1.0")]));
}

#[test]
fn files_to_bump_are_all_or_the_chosen_one() {
    let same = vec![file("a", "1.0.0"), file("b", "1.0.0")];
    assert_eq!(get_version_files_to_bump(same.clone(), None), Ok(same.clone()));
    assert_eq!(get_version_files_to_bump(same.clone(), Some(1)), Ok(same));
    let mixed = vec![file("a", "1.0.0"), file("b", "1.1.0")];
    assert_eq!(get_version_files_to_bump(mixed.clone(), Some(1)), Ok(vec![file("b", "1.1.0")]));
    assert_eq!(get_version_files_to_bump(mixed.clone(), None), Err(ResolveError::NeedsChoice));
    assert_eq!(get_version_files_to_bump(mixed, Some(2)), Err(ResolveError::NeedsChoice));
    assert_eq!(get_version_files_to_bump(Vec::new(), None), Ok(Vec::new()));
}

#[test]
fn release_of_a_version_is_named_and_tagged_by_it() {
    let config = prefixed("v");
    let r = Release::version(&config, Version::new(1, 2, 3), None, None);
    assert_eq!(r.name, "1.2.3");
    assert_eq!(r.tag, "v1.2.3");
    assert_eq!(r.version_files, None);
    let r = Release::version(&config, Version::new(1, 2, 3), None, Some("".to_string()));
    assert_eq!(r.tag, "1.2.3");
}
