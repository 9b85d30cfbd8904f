use qwen_studio::version::compare_versions;

#[test]
fn equal_versions_are_level() {
    assert_eq!(compare_versions("2.2.3", "2.2.3"), 0);
    assert_eq!(compare_versions("", ""), 0);
}

#[test]
fn newer_patch_is_newer() {
    assert_eq!(compare_versions("2.2.4", "2.2.3"), 1);
    assert_eq!(compare_versions("2.2.3", "2.2.4"), -1);
}

#[test]
fn components_compare_numerically() {
    assert_eq!(compare_versions("2.10.0", "2.9.9"), 1);
    assert_eq!(compare_versions("10.0.0", "9.99.99"), 1);
    assert_eq!(compare_versions("1.02", "1.2"), 0);
}

#[test]
fn missing_components_count_as_zero() {
    assert_eq!(compare_versions("2.2", "2.2.0"), 0);
    assert_eq!(compare_versions("2.2", "2.2.1"), -1);
    assert_eq!(compare_versions("3", "2.99.99"), 1);
}

#[test]
fn prerelease_is_older_and_build_metadata_ignored() {
    assert_eq!(compare_versions("2.2.3-beta.1", "2.2.3"), -1);
    assert_eq!(compare_versions("2.2.3", "2.2.3-beta.1"), 1);
    assert_eq!(compare_versions("2.2.3+build.7", "2.2.2"), 1);
    assert_eq!(compare_versions("2.2.3rc1", "2.2.3"), 0);
    assert_eq!(compare_versions("1.0.0-alpha", "1.0.0"), -1);
    assert_eq!(compare_versions("1.0.0+b", "1.0.0"), 0);
    assert_eq!(compare_versions("1.0.0-a+b", "1.0.0-a"), 0);
    assert_eq!(compare_versions("1.0.1-alpha", "1.0.0"), 1);
}

#[test]
fn prerelease_precedence_chain() {
    let chain = [
        "1.0.0-alpha",
        "1.0.0-alpha.1",
        "1.0.0-alpha.beta",
        "1.0.0-beta",
        "1.0.0-beta.2",
        "1.0.0-beta.11",
        "1.0.0-rc.1",
        "1.0.0",
    ];
    for i in 0..chain.len() {
        for j in 0..chain.len() {
            let expected = if i < j { -1 } else if i == j { 0 } else { 1 };
            assert_eq!(compare_versions(chain[i], chain[j]), expected, "{} vs {}", chain[i], chain[j]);
        }
    }
}

#[test]
fn huge_components_do_not_overflow() {
    assert_eq!(
        compare_versions("1.123456789012345678901234567890", "1.123456789012345678901234567889"),
        1
    );
    assert_eq!(compare_versions("0000000000000000000000001", "1"), 0);
}

#[test]
fn order_is_antisymmetric_on_examples() {
    let vs = ["1.0", "1.0.1", "2.2.3", "2.10", "0.9.9-x", "v2"];
    for a in vs.iter() {
        for b in vs.iter() {
            assert_eq!(compare_versions(a, b), -compare_versions(b, a));
        }
        assert_eq!(compare_versions(a, a), 0);
    }
}

#[test]
fn order_is_transitive_on_examples() {
    assert_eq!(compare_versions("1.9", "1.10"), -1);
    assert_eq!(compare_versions("1.10", "2.0"), -1);
    assert_eq!(compare_versions("1.9", "2.0"), -1);
}

#[test]
fn non_numeric_components_count_as_zero() {
    assert_eq!(compare_versions("v2", "0"), 0);
    assert_eq!(compare_versions("a.b.c", ""), 0);
}
