use debcontrol::{BinaryDebControl, DebControlBuilder};

#[test]
fn builds_and_renders_binary_control() {
    let expect = BinaryDebControl {
        package: "debcontrol".to_string(),
        version: "1".to_string(),
        architecture: "any".to_string(),
        maintainer: "Wojciech Kępka <wojciech@wkepka.dev>".to_string(),
        description: "crate for DEB/control file generation".to_string(),
        source: Some("package.tar.gz".to_string()),
        section: Some("devel".to_string()),
        priority: None,
        installed_size: Some("1Mb".to_string()),
        homepage: Some("https://github.com/wojciechkepka/debcontrol".to_string()),
        built_using: Some("rustc".to_string()),
        essential: true,
        pre_depends: vec!["rustc".to_string(), "cargo".to_string()],
        depends: vec!["rustc".to_string(), "cargo".to_string()],
        recommends: vec![],
        suggests: vec![],
        breaks: vec![],
        conflicts: vec!["rustc".to_string(), "cargo".to_string()],
        provides: vec![
            "rustc".to_string(),
            "cargo".to_string(),
            "debcontrol".to_string(),
        ],
        replaces: vec!["rustc".to_string(), "cargo".to_string()],
        enchances: vec!["rustc".to_string(), "cargo".to_string()],
    };
    let out: &str = r#"Package:        debcontrol
Version:        1
Architecture:   any
Description:    crate for DEB/control file generation
Essential:      yes
Maintainer:     Wojciech Kępka <wojciech@wkepka.dev>
Source:         package.tar.gz
Section:        devel
Installed-Size: 1Mb
Homepage:       https://github.com/wojciechkepka/debcontrol
Built-Using:    rustc
Pre-Depends:    rustc, cargo
Depends:        rustc, cargo
Conflicts:      rustc, cargo
Provides:       rustc, cargo, debcontrol
Replaces:       rustc, cargo
Enchances:      rustc, cargo
"#;
    let got = DebControlBuilder::binary_package_builder("debcontrol")
        .source("package.tar.gz")
        .version("1")
        .architecture("any")
        .maintainer("Wojciech Kępka <wojciech@wkepka.dev>")
        .description("crate for DEB/control file generation")
        .essential(true)
        .installed_size("1Mb")
        .section("devel")
        .homepage("https://github.com/wojciechkepka/debcontrol")
        .built_using("rustc")
        .add_pre_depends_entries(vec!["rustc", "cargo"])
        .add_depends_entries(vec!["rustc", "cargo"])
        .add_conflicts_entries(vec!["rustc", "cargo"])
        .add_provides_entries(vec!["rustc", "cargo"])
        .add_replaces_entries(vec!["rustc", "cargo"])
        .add_enchances_entries(vec!["rustc", "cargo"])
        .add_provides_entries(vec!["debcontrol"])
        .build();
    println!("{}", got.render());

    assert_eq!(expect, got);
    assert_eq!(out, got.render());
}
