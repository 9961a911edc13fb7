use example_runner::appmode::app_target_path;
use example_runner::appmode::default_group_check;
use example_runner::appmode::fresh_component_name;
use example_runner::names::component_name_for;
use example_runner::names::count_char;
use example_runner::names::default_package_name;
use example_runner::names::join_path;
use example_runner::names::package_name_valid;

#[test]
fn fresh_names_have_the_fixed_shape() {
    let name = fresh_component_name();
    assert_eq!(name.chars().count(), 19);
    assert!(name.starts_with("app:comp-"));
    for c in name.chars().skip(9) {
        assert!(('a'..='h').contains(&c));
    }
}

#[test]
fn fresh_names_are_valid_package_names() {
    for _ in 0..4 {
        let name = fresh_component_name();
        assert!(package_name_valid(&name));
    }
}

#[test]
fn fresh_names_are_distinct_across_draws() {
    let a = fresh_component_name();
    let b = fresh_component_name();
    let c = fresh_component_name();
    let d = fresh_component_name();
    assert!(a != b && a != c && a != d && b != c && b != d && c != d);
}

#[test]
fn four_names_per_language_are_valid_and_distinct() {
    // One round of the component-add loop for a language: four generated
    // names, each of the fixed shape, each accepted by the package-name
    // rule, and pairwise distinct (random; collision odds are about 6/8^10).
    let names = vec![
        fresh_component_name(),
        fresh_component_name(),
        fresh_component_name(),
        fresh_component_name(),
    ];
    for name in &names {
        assert_eq!(name.chars().count(), 19);
        assert!(name.starts_with("app:comp-"));
        assert!(name.chars().skip(9).all(|c| ('a'..='h').contains(&c)));
        assert!(package_name_valid(name));
    }
    for i in 0..names.len() {
        for j in (i + 1)..names.len() {
            assert_ne!(names[i], names[j]);
        }
    }
}

#[test]
fn package_name_rule_wants_exactly_one_colon() {
    assert!(package_name_valid("golemx:componentx"));
    assert!(package_name_valid("a:b"));
    assert!(!package_name_valid("nocolon"));
    assert!(!package_name_valid("a:b:c"));
    assert!(!package_name_valid(""));
}

#[test]
fn the_default_package_name_is_valid() {
    let name = default_package_name();
    assert_eq!(name, "golemx:componentx");
    assert!(package_name_valid(&name));
}

#[test]
fn counts_characters() {
    assert_eq!(count_char("a:b:c", ':'), 2);
    assert_eq!(count_char("", ':'), 0);
    assert_eq!(count_char("::", ':'), 2);
}

#[test]
fn component_names_carry_the_suffix() {
    assert_eq!(component_name_for("minimal"), "minimal-comp");
    assert_eq!(component_name_for(""), "-comp");
}

#[test]
fn joins_paths_with_a_separator() {
    assert_eq!(join_path("examples-test", "minimal-comp"), "examples-test/minimal-comp");
}

#[test]
fn default_group_must_exist() {
    let r = default_group_check(false, 0);
    assert_eq!(r.unwrap_err(), "no default component group for language");
}

#[test]
fn default_group_must_hold_exactly_one_component() {
    assert!(default_group_check(true, 1).is_ok());
    let r = default_group_check(true, 2);
    assert_eq!(r.unwrap_err(), "default component group must contain exactly one component template");
    let r0 = default_group_check(true, 0);
    assert!(r0.is_err());
}

#[test]
fn app_target_path_defaults_and_joins() {
    assert_eq!(app_target_path(&None), "examples/app-default");
    assert_eq!(app_target_path(&Some("work".to_string())), "work/app-default");
}
