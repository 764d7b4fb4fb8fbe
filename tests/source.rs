use debcontrol::{DebControlBuilder, SourceDebControl};

#[test]
fn builds_and_renders_source_control() {
    let expect = SourceDebControl {
        package: "".to_string(),
        source: "package.tar.gz".to_string(),
        maintainer: "Wojciech Kępka <wojciech@wkepka.dev>".to_string(),
        standards_version: "1".to_string(),
        architecture: "any".to_string(),
        description: "crate for DEB/control file generation".to_string(),
        uploaders: Some("wojciech@wkepka.dev".to_string()),
        section: Some("devel".to_string()),
        priority: None,
        installed_size: None,
        homepage: Some("https://github.com/wojciechkepka/debcontrol".to_string()),
        built_using: Some("rustc".to_string()),
        package_type: Some("deb".to_string()),
        testsuite: None,
        rules_requires_root: Some("no".to_string()),
        arch: None,
        bzr: None,
        cvs: None,
        darcs: None,
        git: Some("https://github.com/wojciechkepka/debcontrol/source.tar.gz".to_string()),
        hg: None,
        mtn: None,
        svn: None,
        essential: true,
        pre_depends: vec![],
        depends: vec!["rustc".to_string(), "cargo".to_string()],
        recommends: vec![],
        suggests: vec![],
        breaks: vec![],
        conflicts: vec![],
        provides: vec!["debcontrol".to_string()],
        replaces: vec![],
        enchances: vec![],
    };

    let out: &str = r#"Package:             
Source:              package.tar.gz
Standards-Version:   1
Architecture:        any
Maintainer:          Wojciech Kępka <wojciech@wkepka.dev>
Description:         crate for DEB/control file generation
Essential:           yes
Uploaders:           wojciech@wkepka.dev
Section:             devel


Homepage:            https://github.com/wojciechkepka/debcontrol
Built-Using:         rustc
Package-Type:        deb

Rules-Requires-Root: no




Git:                 https://github.com/wojciechkepka/debcontrol/source.tar.gz





Depends: rustc
Depends: cargo





Provides: debcontrol


"#;
    let got = DebControlBuilder::source_package_builder("debcontrol")
        .source("package.tar.gz")
        .standards_version("1")
        .architecture("any")
        .maintainer("Wojciech Kępka <wojciech@wkepka.dev>")
        .description("crate for DEB/control file generation")
        .essential(true)
        .uploaders("wojciech@wkepka.dev")
        .section("devel")
        .package_type("deb")
        .homepage("https://github.com/wojciechkepka/debcontrol")
        .built_using("rustc")
        .rules_requires_root("no")
        .git("https://github.com/wojciechkepka/debcontrol/source.tar.gz")
        .add_depends_entries(vec!["rustc", "cargo"])
        .add_provides_entries(vec!["debcontrol"])
        .build();

    println!("{}", got.render().unwrap());

    assert_eq!(expect, got);
    assert_eq!(out, got.render().unwrap());
}
