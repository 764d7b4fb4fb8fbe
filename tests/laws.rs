use debcontrol::{BinaryDebControl, DebControlBuilder, RenderPolicy, SourceDebControl};

fn bare_binary() -> BinaryDebControl {
    DebControlBuilder::binary_package_builder("pkg")
        .version("2.0")
        .architecture("all")
        .description("desc")
        .maintainer("M <m@x.y>")
        .build()
}

#[test]
fn binary_bare_record_has_only_required_lines() {
    let out = bare_binary().render();
    assert_eq!(
        out,
        "Package:        pkg\nVersion:        2.0\nArchitecture:   all\nDescription:    desc\nEssential:      no\nMaintainer:     M <m@x.y>\n"
    );
}

#[test]
fn binary_default_record_renders_empty_values() {
    let out = BinaryDebControl::builder().build().render();
    assert_eq!(
        out,
        "Package:        \nVersion:        \nArchitecture:   \nDescription:    \nEssential:      no\nMaintainer:     \n"
    );
}

#[test]
fn binary_optional_field_adds_one_line_in_place() {
    let bare = bare_binary().render();
    let with = DebControlBuilder::binary_package_builder("pkg")
        .version("2.0")
        .architecture("all")
        .description("desc")
        .maintainer("M <m@x.y>")
        .priority("optional")
        .build()
        .render();
    assert_eq!(with, format!("{}Priority:       optional\n", bare));
    assert_eq!(with.matches("Priority:").count(), 1);
}

#[test]
fn binary_optional_field_set_to_empty_still_renders() {
    let out = DebControlBuilder::binary_package_builder("p")
        .homepage("")
        .build()
        .render();
    assert!(out.contains("Homepage:       \n"));
}

#[test]
fn binary_section_sits_between_source_and_priority() {
    let out = DebControlBuilder::binary_package_builder("p")
        .priority("optional")
        .section("devel")
        .source("src")
        .build()
        .render();
    assert!(out.ends_with(
        "Source:         src\nSection:        devel\nPriority:       optional\n"
    ));
}

#[test]
fn binary_two_appends_equal_one_append() {
    let split = DebControlBuilder::binary_package_builder("p")
        .add_depends_entries(vec!["a"])
        .add_depends_entries(vec!["b"])
        .build();
    let whole = DebControlBuilder::binary_package_builder("p")
        .add_depends_entries(vec!["a", "b"])
        .build();
    assert_eq!(split, whole);
    assert_eq!(split.render(), whole.render());
    assert!(whole.render().ends_with("Depends:        a, b\n"));
}

#[test]
fn binary_list_keeps_duplicates() {
    let out = DebControlBuilder::binary_package_builder("p")
        .add_breaks_entries(vec!["x", "x"])
        .build()
        .render();
    assert!(out.ends_with("Breaks:         x, x\n"));
}

#[test]
fn binary_empty_append_changes_nothing() {
    let out = DebControlBuilder::binary_package_builder("p")
        .add_suggests_entries(vec![])
        .build()
        .render();
    assert!(!out.contains("Suggests"));
}

#[test]
fn binary_render_is_repeatable() {
    let rec = DebControlBuilder::binary_package_builder("p")
        .add_provides_entries(vec!["q"])
        .build();
    let first = rec.render();
    let second = rec.render();
    assert_eq!(first, second);
}

#[test]
fn binary_call_order_does_not_matter() {
    let a = DebControlBuilder::binary_package_builder("p")
        .version("1")
        .essential(true)
        .homepage("h")
        .add_conflicts_entries(vec!["c"])
        .add_replaces_entries(vec!["r"])
        .build();
    let b = DebControlBuilder::binary_package_builder("p")
        .add_replaces_entries(vec!["r"])
        .homepage("h")
        .add_conflicts_entries(vec!["c"])
        .essential(true)
        .version("1")
        .build();
    assert_eq!(a, b);
}

#[test]
fn binary_essential_tokens() {
    let yes = DebControlBuilder::binary_package_builder("p").essential(true).build().render();
    let no = DebControlBuilder::binary_package_builder("p").essential(false).build().render();
    assert!(yes.contains("Essential:      yes\n"));
    assert!(no.contains("Essential:      no\n"));
}

#[test]
fn binary_scenario_depends_and_essential() {
    let out = DebControlBuilder::binary_package_builder("debcontrol")
        .version("1")
        .architecture("any")
        .maintainer("A <a@b.c>")
        .description("d")
        .essential(true)
        .add_depends_entries(vec!["rustc", "cargo"])
        .build()
        .render();
    assert!(out.contains("\nDepends:        rustc, cargo\n"));
    assert!(out.contains("\nEssential:      yes\n"));
    assert!(!out.contains("Priority:"));
    assert_eq!(
        out,
        "Package:        debcontrol\nVersion:        1\nArchitecture:   any\nDescription:    d\nEssential:      yes\nMaintainer:     A <a@b.c>\nDepends:        rustc, cargo\n"
    );
}

#[test]
fn source_bare_record_keeps_blank_slots() {
    let out = DebControlBuilder::source_package_builder("s")
        .standards_version("4.5")
        .architecture("any")
        .maintainer("M")
        .description("d")
        .build()
        .render()
        .unwrap();
    let expected = format!(
        "Package:             \nSource:              s\nStandards-Version:   4.5\nArchitecture:        any\nMaintainer:          M\nDescription:         d\nEssential:           no\n{}",
        "\n".repeat(26)
    );
    assert_eq!(out, expected);
}

#[test]
fn source_builder_sets_only_the_source_name() {
    let rec = DebControlBuilder::source_package_builder("s").build();
    let expected = SourceDebControl { source: "s".to_string(), ..SourceDebControl::default() };
    assert_eq!(rec, expected);
    assert_eq!(rec.package, "");
    let named = DebControlBuilder::source_package_builder("s").package("bin").build();
    assert_eq!(named.source, "s");
    assert_eq!(named.package, "bin");
}

#[test]
fn source_package_type_follows_built_using() {
    let out = SourceDebControl::builder()
        .package_type("deb")
        .priority("optional")
        .built_using("rustc")
        .build()
        .render_with(RenderPolicy::Compact);
    assert!(out.ends_with(
        "Priority:            optional\nBuilt-Using:         rustc\nPackage-Type:        deb\n"
    ));
}

#[test]
fn source_scenario_only_git_locator() {
    let url = "https://example.org/repo.git";
    let out = DebControlBuilder::source_package_builder("s").git(url).build().render().unwrap();
    let lines: Vec<&str> = out.split('\n').collect();
    // The locator slots follow the seven always-present lines and nine other slots.
    let vcs = &lines[16..24];
    assert_eq!(vcs.iter().filter(|l| l.is_empty()).count(), 7);
    assert_eq!(vcs[4], format!("Git:                 {}", url));
    assert_eq!(out.matches("Git:").count(), 1);
}

#[test]
fn source_list_repeats_label_per_entry() {
    let out = SourceDebControl::builder()
        .add_recommends_entries(vec!["a"])
        .add_recommends_entries(vec!["b"])
        .build()
        .render()
        .unwrap();
    assert!(out.contains("\nRecommends: a\nRecommends: b\n"));
}

#[test]
fn source_two_appends_equal_one_append() {
    let split = SourceDebControl::builder()
        .add_enchances_entries(vec!["a"])
        .add_enchances_entries(vec!["b"])
        .build();
    let whole = SourceDebControl::builder().add_enchances_entries(vec!["a", "b"]).build();
    assert_eq!(split, whole);
    assert_eq!(split.render().unwrap(), whole.render().unwrap());
    assert!(whole.render().unwrap().ends_with("\nEnchances: a\nEnchances: b\n"));
}

#[test]
fn source_render_owned_matches_render() {
    let rec = SourceDebControl::builder().testsuite("autopkgtest").essential(true).build();
    let by_ref = rec.render().unwrap();
    assert!(by_ref.contains("Testsuite:           autopkgtest\n"));
    assert!(by_ref.contains("Essential:           yes\n"));
    assert_eq!(rec.clone().render_owned().unwrap(), by_ref);
    assert_eq!(rec.render().unwrap(), by_ref);
}

#[test]
fn source_call_order_does_not_matter() {
    let a = SourceDebControl::builder().hg("h").svn("s").uploaders("u").build();
    let b = SourceDebControl::builder().uploaders("u").svn("s").hg("h").build();
    assert_eq!(a, b);
}

#[test]
fn binary_fixed_slot_layout() {
    let out = DebControlBuilder::binary_package_builder("p")
        .version("1")
        .section("devel")
        .add_depends_entries(vec!["a", "b"])
        .build()
        .render_with(RenderPolicy::FixedSlots);
    assert_eq!(
        out,
        "Package:        p\nVersion:        1\nArchitecture:   \nDescription:    \nEssential:      no\nMaintainer:     \n\nSection:        devel\n\n\n\n\n\n\nDepends: a\nDepends: b\n\n\n\n\n\n\n\n"
    );
}

#[test]
fn binary_render_is_compact_layout() {
    let rec = DebControlBuilder::binary_package_builder("p").add_provides_entries(vec!["x"]).build();
    assert_eq!(rec.render(), rec.render_with(RenderPolicy::Compact));
}

#[test]
fn source_compact_layout() {
    let out = DebControlBuilder::source_package_builder("s")
        .git("g")
        .add_depends_entries(vec!["a", "b"])
        .build()
        .render_with(RenderPolicy::Compact);
    assert_eq!(
        out,
        "Package:             \nSource:              s\nStandards-Version:   \nArchitecture:        \nMaintainer:          \nDescription:         \nEssential:           no\nGit:                 g\nDepends:             a, b\n"
    );
}

#[test]
fn source_render_is_fixed_slot_layout() {
    let rec = SourceDebControl::builder().bzr("b").build();
    assert_eq!(rec.render().unwrap(), rec.render_with(RenderPolicy::FixedSlots));
}

#[test]
fn binary_appends_interleave_with_other_calls() {
    let a = DebControlBuilder::binary_package_builder("p")
        .add_depends_entries(vec!["x"])
        .section("s")
        .add_depends_entries(vec!["y"])
        .section("s")
        .build();
    let b = DebControlBuilder::binary_package_builder("p")
        .section("s")
        .add_depends_entries(vec!["x"])
        .section("s")
        .add_depends_entries(vec!["y"])
        .build();
    assert_eq!(a, b);
    assert!(a.render().ends_with("Section:        s\nDepends:        x, y\n"));
}
