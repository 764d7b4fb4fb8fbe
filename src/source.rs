//! The source package record, its builder and its fixed-slot rendering.
use vstd::prelude::*;
use vstd::seq_lib::group_to_multiset_ensures;

use crate::relation::{relation_index, Relation};
use crate::text::{
    concat_all, concat_parts, entry_block, entry_block_lines, entry_lines, extend_entries,
    field_line, flag_field_line, flag_text, joined_field_line, joined_line, lemma_concat_all_append, lemma_concat_all_blank_lines,
    lemma_concat_all_push, lemma_concat_all_split, line, newline, optional_field_line, optional_line,
    slot_field_line, slot_line,
    strs_of, text_of, texts_of,
};
use crate::{DebControlError, RenderPolicy};

verus! {

/// The fields of a source package record. The version-control locators (`arch` to
/// `svn`) are independent of each other: any number of them may be present.
#[derive(Clone, Debug, Default, PartialEq)]
pub struct SourceDebControl {
    /// The package name.
    pub package: String,
    /// The name of the source package.
    pub source: String,
    /// The newest version of the packaging policy the package complies with.
    pub standards_version: String,
    /// An architecture name, or `any`, `all` or `source`.
    pub architecture: String,
    /// The maintainer's name followed by an e-mail address in angle brackets.
    pub maintainer: String,
    /// A description of the package.
    pub description: String,
    /// Co-maintainers allowed to upload the package.
    pub uploaders: Option<String>,
    /// The application area the package is classified under.
    pub section: Option<String>,
    /// The kind of binary package, such as `deb` or `udeb`.
    pub package_type: Option<String>,
    /// How important it is that users have the package installed.
    pub priority: Option<String>,
    /// An estimate of the disk space the installed package takes.
    pub installed_size: Option<String>,
    /// The test suites the package declares.
    pub testsuite: Option<String>,
    /// The URL of the package's web site.
    pub homepage: Option<String>,
    /// Other source packages the build incorporated.
    pub built_using: Option<String>,
    /// Whether the build rules need root privileges.
    pub rules_requires_root: Option<String>,
    /// The location of the Arch repository.
    pub arch: Option<String>,
    /// The location of the Bazaar repository.
    pub bzr: Option<String>,
    /// The location of the CVS repository.
    pub cvs: Option<String>,
    /// The location of the Darcs repository.
    pub darcs: Option<String>,
    /// The location of the Git repository.
    pub git: Option<String>,
    /// The location of the Mercurial repository.
    pub hg: Option<String>,
    /// The location of the Monotone repository.
    pub mtn: Option<String>,
    /// The location of the Subversion repository.
    pub svn: Option<String>,
    /// Whether the package is essential; rendered as `yes` or `no`.
    pub essential: bool,
    /// Packages that must be installed and configured first; the lists below relate
    /// this package to others in the same way, one name or expression per entry.
    pub pre_depends: Vec<String>,
    pub depends: Vec<String>,
    pub recommends: Vec<String>,
    pub suggests: Vec<String>,
    pub breaks: Vec<String>,
    pub conflicts: Vec<String>,
    pub provides: Vec<String>,
    pub replaces: Vec<String>,
    pub enchances: Vec<String>,
}

/// The contents of a source package record.
pub struct SourceFields {
    pub package: Seq<char>,
    pub source: Seq<char>,
    pub standards_version: Seq<char>,
    pub architecture: Seq<char>,
    pub maintainer: Seq<char>,
    pub description: Seq<char>,
    pub uploaders: Option<Seq<char>>,
    pub section: Option<Seq<char>>,
    pub package_type: Option<Seq<char>>,
    pub priority: Option<Seq<char>>,
    pub installed_size: Option<Seq<char>>,
    pub testsuite: Option<Seq<char>>,
    pub homepage: Option<Seq<char>>,
    pub built_using: Option<Seq<char>>,
    pub rules_requires_root: Option<Seq<char>>,
    pub arch: Option<Seq<char>>,
    pub bzr: Option<Seq<char>>,
    pub cvs: Option<Seq<char>>,
    pub darcs: Option<Seq<char>>,
    pub git: Option<Seq<char>>,
    pub hg: Option<Seq<char>>,
    pub mtn: Option<Seq<char>>,
    pub svn: Option<Seq<char>>,
    pub essential: bool,
    pub pre_depends: Seq<Seq<char>>,
    pub depends: Seq<Seq<char>>,
    pub recommends: Seq<Seq<char>>,
    pub suggests: Seq<Seq<char>>,
    pub breaks: Seq<Seq<char>>,
    pub conflicts: Seq<Seq<char>>,
    pub provides: Seq<Seq<char>>,
    pub replaces: Seq<Seq<char>>,
    pub enchances: Seq<Seq<char>>,
}

/// A string field that is always rendered.
pub enum SourceText {
    Package,
    Source,
    StandardsVersion,
    Architecture,
    Maintainer,
    Description,
}

/// A field that may be absent, in layout order.
pub enum SourceOptional {
    Uploaders,
    Section,
    Priority,
    InstalledSize,
    Homepage,
    BuiltUsing,
    PackageType,
    Testsuite,
    RulesRequiresRoot,
    Arch,
    Bzr,
    Cvs,
    Darcs,
    Git,
    Hg,
    Mtn,
    Svn,
}

/// One builder call, as a change of the record's contents.
pub enum SourceEdit {
    Text(SourceText, Seq<char>),
    Optional(SourceOptional, Seq<char>),
    Essential(bool),
    Extend(Relation, Seq<Seq<char>>),
}

/// The field that an edit changes, as its position in the rendered layout.
pub open spec fn source_target(e: SourceEdit) -> int {
    match e {
        SourceEdit::Text(f, _) => match f {
            SourceText::Package => 0,
            SourceText::Source => 1,
            SourceText::StandardsVersion => 2,
            SourceText::Architecture => 3,
            SourceText::Maintainer => 4,
            SourceText::Description => 5,
        },
        SourceEdit::Essential(_) => 6,
        SourceEdit::Optional(f, _) => source_optional_position(f),
        SourceEdit::Extend(r, _) => source_list_target(r),
    }
}

/// Where an optional field's slot stands among the sections of the rendered text.
pub open spec fn source_optional_position(f: SourceOptional) -> int {
    match f {
        SourceOptional::Uploaders => 7,
        SourceOptional::Section => 8,
        SourceOptional::Priority => 9,
        SourceOptional::InstalledSize => 10,
        SourceOptional::Homepage => 11,
        SourceOptional::BuiltUsing => 12,
        SourceOptional::PackageType => 13,
        SourceOptional::Testsuite => 14,
        SourceOptional::RulesRequiresRoot => 15,
        SourceOptional::Arch => 16,
        SourceOptional::Bzr => 17,
        SourceOptional::Cvs => 18,
        SourceOptional::Darcs => 19,
        SourceOptional::Git => 20,
        SourceOptional::Hg => 21,
        SourceOptional::Mtn => 22,
        SourceOptional::Svn => 23,
    }
}

/// The label, with colon and padding, of an optional field.
pub open spec fn source_optional_label(f: SourceOptional) -> Seq<char> {
    match f {
        SourceOptional::Uploaders => "Uploaders:           "@,
        SourceOptional::Section => "Section:             "@,
        SourceOptional::PackageType => "Package-Type:        "@,
        SourceOptional::Priority => "Priority:            "@,
        SourceOptional::InstalledSize => "Installed-Size:      "@,
        SourceOptional::Testsuite => "Testsuite:           "@,
        SourceOptional::Homepage => "Homepage:            "@,
        SourceOptional::BuiltUsing => "Built-Using:         "@,
        SourceOptional::RulesRequiresRoot => "Rules-Requires-Root: "@,
        SourceOptional::Arch => "Arch:                "@,
        SourceOptional::Bzr => "Bzr:                 "@,
        SourceOptional::Cvs => "Cvs:                 "@,
        SourceOptional::Darcs => "Darcs:               "@,
        SourceOptional::Git => "Git:                 "@,
        SourceOptional::Hg => "Hg:                  "@,
        SourceOptional::Mtn => "Mtn:                 "@,
        SourceOptional::Svn => "Svn:                 "@,
    }
}

impl SourceFields {
    /// Every string empty, every optional field absent, every list empty, not essential.
    pub open spec fn empty() -> Self {
        SourceFields {
            package: Seq::empty(),
            source: Seq::empty(),
            standards_version: Seq::empty(),
            architecture: Seq::empty(),
            maintainer: Seq::empty(),
            description: Seq::empty(),
            uploaders: None,
            section: None,
            package_type: None,
            priority: None,
            installed_size: None,
            testsuite: None,
            homepage: None,
            built_using: None,
            rules_requires_root: None,
            arch: None,
            bzr: None,
            cvs: None,
            darcs: None,
            git: None,
            hg: None,
            mtn: None,
            svn: None,
            essential: false,
            pre_depends: Seq::empty(),
            depends: Seq::empty(),
            recommends: Seq::empty(),
            suggests: Seq::empty(),
            breaks: Seq::empty(),
            conflicts: Seq::empty(),
            provides: Seq::empty(),
            replaces: Seq::empty(),
            enchances: Seq::empty(),
        }
    }

    pub open spec fn optional(self, f: SourceOptional) -> Option<Seq<char>> {
        match f {
            SourceOptional::Uploaders => self.uploaders,
            SourceOptional::Section => self.section,
            SourceOptional::PackageType => self.package_type,
            SourceOptional::Priority => self.priority,
            SourceOptional::InstalledSize => self.installed_size,
            SourceOptional::Testsuite => self.testsuite,
            SourceOptional::Homepage => self.homepage,
            SourceOptional::BuiltUsing => self.built_using,
            SourceOptional::RulesRequiresRoot => self.rules_requires_root,
            SourceOptional::Arch => self.arch,
            SourceOptional::Bzr => self.bzr,
            SourceOptional::Cvs => self.cvs,
            SourceOptional::Darcs => self.darcs,
            SourceOptional::Git => self.git,
            SourceOptional::Hg => self.hg,
            SourceOptional::Mtn => self.mtn,
            SourceOptional::Svn => self.svn,
        }
    }

    pub open spec fn relation(self, r: Relation) -> Seq<Seq<char>> {
        match r {
            Relation::PreDepends => self.pre_depends,
            Relation::Depends => self.depends,
            Relation::Recommends => self.recommends,
            Relation::Suggests => self.suggests,
            Relation::Breaks => self.breaks,
            Relation::Conflicts => self.conflicts,
            Relation::Provides => self.provides,
            Relation::Replaces => self.replaces,
            Relation::Enchances => self.enchances,
        }
    }

    /// The contents after one builder call.
    pub open spec fn apply(self, e: SourceEdit) -> Self {
        match e {
            SourceEdit::Text(f, s) => match f {
                SourceText::Package => SourceFields { package: s, ..self },
                SourceText::Source => SourceFields { source: s, ..self },
                SourceText::StandardsVersion => SourceFields { standards_version: s, ..self },
                SourceText::Architecture => SourceFields { architecture: s, ..self },
                SourceText::Maintainer => SourceFields { maintainer: s, ..self },
                SourceText::Description => SourceFields { description: s, ..self },
            },
            SourceEdit::Optional(f, s) => match f {
                SourceOptional::Uploaders => SourceFields { uploaders: Some(s), ..self },
                SourceOptional::Section => SourceFields { section: Some(s), ..self },
                SourceOptional::PackageType => SourceFields { package_type: Some(s), ..self },
                SourceOptional::Priority => SourceFields { priority: Some(s), ..self },
                SourceOptional::InstalledSize => SourceFields { installed_size: Some(s), ..self },
                SourceOptional::Testsuite => SourceFields { testsuite: Some(s), ..self },
                SourceOptional::Homepage => SourceFields { homepage: Some(s), ..self },
                SourceOptional::BuiltUsing => SourceFields { built_using: Some(s), ..self },
                SourceOptional::RulesRequiresRoot => SourceFields { rules_requires_root: Some(s), ..self },
                SourceOptional::Arch => SourceFields { arch: Some(s), ..self },
                SourceOptional::Bzr => SourceFields { bzr: Some(s), ..self },
                SourceOptional::Cvs => SourceFields { cvs: Some(s), ..self },
                SourceOptional::Darcs => SourceFields { darcs: Some(s), ..self },
                SourceOptional::Git => SourceFields { git: Some(s), ..self },
                SourceOptional::Hg => SourceFields { hg: Some(s), ..self },
                SourceOptional::Mtn => SourceFields { mtn: Some(s), ..self },
                SourceOptional::Svn => SourceFields { svn: Some(s), ..self },
            },
            SourceEdit::Essential(b) => SourceFields { essential: b, ..self },
            SourceEdit::Extend(r, items) => match r {
                Relation::PreDepends => SourceFields { pre_depends: self.pre_depends + items, ..self },
                Relation::Depends => SourceFields { depends: self.depends + items, ..self },
                Relation::Recommends => SourceFields { recommends: self.recommends + items, ..self },
                Relation::Suggests => SourceFields { suggests: self.suggests + items, ..self },
                Relation::Breaks => SourceFields { breaks: self.breaks + items, ..self },
                Relation::Conflicts => SourceFields { conflicts: self.conflicts + items, ..self },
                Relation::Provides => SourceFields { provides: self.provides + items, ..self },
                Relation::Replaces => SourceFields { replaces: self.replaces + items, ..self },
                Relation::Enchances => SourceFields { enchances: self.enchances + items, ..self },
            },
        }
    }

    /// The fixed-slot rendering, section by section: one section per field, in layout order.
    pub open spec fn slot_sections(self) -> Seq<Seq<char>> {
        seq![
            line("Package:             "@, self.package),
            line("Source:              "@, self.source),
            line("Standards-Version:   "@, self.standards_version),
            line("Architecture:        "@, self.architecture),
            line("Maintainer:          "@, self.maintainer),
            line("Description:         "@, self.description),
            line("Essential:           "@, flag_text(self.essential)),
            slot_line("Uploaders:           "@, self.uploaders),
            slot_line("Section:             "@, self.section),
            slot_line("Priority:            "@, self.priority),
            slot_line("Installed-Size:      "@, self.installed_size),
            slot_line("Homepage:            "@, self.homepage),
            slot_line("Built-Using:         "@, self.built_using),
            slot_line("Package-Type:        "@, self.package_type),
            slot_line("Testsuite:           "@, self.testsuite),
            slot_line("Rules-Requires-Root: "@, self.rules_requires_root),
            slot_line("Arch:                "@, self.arch),
            slot_line("Bzr:                 "@, self.bzr),
            slot_line("Cvs:                 "@, self.cvs),
            slot_line("Darcs:               "@, self.darcs),
            slot_line("Git:                 "@, self.git),
            slot_line("Hg:                  "@, self.hg),
            slot_line("Mtn:                 "@, self.mtn),
            slot_line("Svn:                 "@, self.svn),
            entry_block("Pre-Depends: "@, self.pre_depends),
            entry_block("Depends: "@, self.depends),
            entry_block("Recommends: "@, self.recommends),
            entry_block("Suggests: "@, self.suggests),
            entry_block("Breaks: "@, self.breaks),
            entry_block("Conflicts: "@, self.conflicts),
            entry_block("Provides: "@, self.provides),
            entry_block("Replaces: "@, self.replaces),
            entry_block("Enchances: "@, self.enchances),
        ]
    }

    /// The compact rendering, section by section: one section per field, in layout order;
    /// an absent optional field and an empty list give empty sections.
    pub open spec fn compact_sections(self) -> Seq<Seq<char>> {
        seq![
            line("Package:             "@, self.package),
            line("Source:              "@, self.source),
            line("Standards-Version:   "@, self.standards_version),
            line("Architecture:        "@, self.architecture),
            line("Maintainer:          "@, self.maintainer),
            line("Description:         "@, self.description),
            line("Essential:           "@, flag_text(self.essential)),
            optional_line("Uploaders:           "@, self.uploaders),
            optional_line("Section:             "@, self.section),
            optional_line("Priority:            "@, self.priority),
            optional_line("Installed-Size:      "@, self.installed_size),
            optional_line("Homepage:            "@, self.homepage),
            optional_line("Built-Using:         "@, self.built_using),
            optional_line("Package-Type:        "@, self.package_type),
            optional_line("Testsuite:           "@, self.testsuite),
            optional_line("Rules-Requires-Root: "@, self.rules_requires_root),
            optional_line("Arch:                "@, self.arch),
            optional_line("Bzr:                 "@, self.bzr),
            optional_line("Cvs:                 "@, self.cvs),
            optional_line("Darcs:               "@, self.darcs),
            optional_line("Git:                 "@, self.git),
            optional_line("Hg:                  "@, self.hg),
            optional_line("Mtn:                 "@, self.mtn),
            optional_line("Svn:                 "@, self.svn),
            joined_line("Pre-Depends:         "@, self.pre_depends),
            joined_line("Depends:             "@, self.depends),
            joined_line("Recommends:          "@, self.recommends),
            joined_line("Suggests:            "@, self.suggests),
            joined_line("Breaks:              "@, self.breaks),
            joined_line("Conflicts:           "@, self.conflicts),
            joined_line("Provides:            "@, self.provides),
            joined_line("Replaces:            "@, self.replaces),
            joined_line("Enchances:           "@, self.enchances),
        ]
    }

    /// The text of the record in the given layout.
    pub open spec fn rendered(self, policy: RenderPolicy) -> Seq<char> {
        match policy {
            RenderPolicy::FixedSlots => concat_all(self.slot_sections()),
            RenderPolicy::Compact => concat_all(self.compact_sections()),
        }
    }
}

impl View for SourceDebControl {
    type V = SourceFields;

    open spec fn view(&self) -> SourceFields {
        SourceFields {
            package: self.package@,
            source: self.source@,
            standards_version: self.standards_version@,
            architecture: self.architecture@,
            maintainer: self.maintainer@,
            description: self.description@,
            uploaders: text_of(self.uploaders),
            section: text_of(self.section),
            package_type: text_of(self.package_type),
            priority: text_of(self.priority),
            installed_size: text_of(self.installed_size),
            testsuite: text_of(self.testsuite),
            homepage: text_of(self.homepage),
            built_using: text_of(self.built_using),
            rules_requires_root: text_of(self.rules_requires_root),
            arch: text_of(self.arch),
            bzr: text_of(self.bzr),
            cvs: text_of(self.cvs),
            darcs: text_of(self.darcs),
            git: text_of(self.git),
            hg: text_of(self.hg),
            mtn: text_of(self.mtn),
            svn: text_of(self.svn),
            essential: self.essential,
            pre_depends: texts_of(self.pre_depends@),
            depends: texts_of(self.depends@),
            recommends: texts_of(self.recommends@),
            suggests: texts_of(self.suggests@),
            breaks: texts_of(self.breaks@),
            conflicts: texts_of(self.conflicts@),
            provides: texts_of(self.provides@),
            replaces: texts_of(self.replaces@),
            enchances: texts_of(self.enchances@),
        }
    }
}

impl SourceDebControl {
    /// A builder over an empty record.
    pub fn builder() -> (r: SourceDebControlBuilder)
        ensures
            r@ == SourceFields::empty(),
    {
        let r = SourceDebControlBuilder {
            record: SourceDebControl {
                package: String::new(),
                source: String::new(),
                standards_version: String::new(),
                architecture: String::new(),
                maintainer: String::new(),
                description: String::new(),
                uploaders: None,
                section: None,
                package_type: None,
                priority: None,
                installed_size: None,
                testsuite: None,
                homepage: None,
                built_using: None,
                rules_requires_root: None,
                arch: None,
                bzr: None,
                cvs: None,
                darcs: None,
                git: None,
                hg: None,
                mtn: None,
                svn: None,
                essential: false,
                pre_depends: Vec::new(),
                depends: Vec::new(),
                recommends: Vec::new(),
                suggests: Vec::new(),
                breaks: Vec::new(),
                conflicts: Vec::new(),
                provides: Vec::new(),
                replaces: Vec::new(),
                enchances: Vec::new(),
            },
        };
        proof {
            assert(texts_of(r.record.pre_depends@) =~= Seq::empty());
            assert(texts_of(r.record.depends@) =~= Seq::empty());
            assert(texts_of(r.record.recommends@) =~= Seq::empty());
            assert(texts_of(r.record.suggests@) =~= Seq::empty());
            assert(texts_of(r.record.breaks@) =~= Seq::empty());
            assert(texts_of(r.record.conflicts@) =~= Seq::empty());
            assert(texts_of(r.record.provides@) =~= Seq::empty());
            assert(texts_of(r.record.replaces@) =~= Seq::empty());
            assert(texts_of(r.record.enchances@) =~= Seq::empty());
        }
        r
    }

    /// The control file text in the fixed-slot layout. The layout is built here and
    /// cannot fail, so the result is always `Ok`.
    pub fn render(&self) -> (r: Result<String, DebControlError>)
        ensures
            match r {
                Ok(t) => t@ == self@.rendered(RenderPolicy::FixedSlots),
                Err(_) => false,
            },
    {
        Ok(self.render_with(RenderPolicy::FixedSlots))
    }

    /// The control file text in the given layout.
    pub fn render_with(&self, policy: RenderPolicy) -> (r: String)
        ensures
            r@ == self@.rendered(policy),
    {
        match policy {
            RenderPolicy::Compact => self.render_compact(),
            RenderPolicy::FixedSlots => self.render_slots(),
        }
    }

    fn render_slots(&self) -> (r: String)
        ensures
            r@ == self@.rendered(RenderPolicy::FixedSlots),
    {
        let parts = vec![
            field_line("Package:             ", self.package.as_str()),
            field_line("Source:              ", self.source.as_str()),
            field_line("Standards-Version:   ", self.standards_version.as_str()),
            field_line("Architecture:        ", self.architecture.as_str()),
            field_line("Maintainer:          ", self.maintainer.as_str()),
            field_line("Description:         ", self.description.as_str()),
            flag_field_line("Essential:           ", self.essential),
            slot_field_line("Uploaders:           ", &self.uploaders),
            slot_field_line("Section:             ", &self.section),
            slot_field_line("Priority:            ", &self.priority),
            slot_field_line("Installed-Size:      ", &self.installed_size),
            slot_field_line("Homepage:            ", &self.homepage),
            slot_field_line("Built-Using:         ", &self.built_using),
            slot_field_line("Package-Type:        ", &self.package_type),
            slot_field_line("Testsuite:           ", &self.testsuite),
            slot_field_line("Rules-Requires-Root: ", &self.rules_requires_root),
            slot_field_line("Arch:                ", &self.arch),
            slot_field_line("Bzr:                 ", &self.bzr),
            slot_field_line("Cvs:                 ", &self.cvs),
            slot_field_line("Darcs:               ", &self.darcs),
            slot_field_line("Git:                 ", &self.git),
            slot_field_line("Hg:                  ", &self.hg),
            slot_field_line("Mtn:                 ", &self.mtn),
            slot_field_line("Svn:                 ", &self.svn),
            entry_block_lines("Pre-Depends: ", &self.pre_depends),
            entry_block_lines("Depends: ", &self.depends),
            entry_block_lines("Recommends: ", &self.recommends),
            entry_block_lines("Suggests: ", &self.suggests),
            entry_block_lines("Breaks: ", &self.breaks),
            entry_block_lines("Conflicts: ", &self.conflicts),
            entry_block_lines("Provides: ", &self.provides),
            entry_block_lines("Replaces: ", &self.replaces),
            entry_block_lines("Enchances: ", &self.enchances),
        ];
        proof {
            assert(texts_of(parts@) =~= self@.slot_sections());
        }
        concat_parts(&parts)
    }

    fn render_compact(&self) -> (r: String)
        ensures
            r@ == self@.rendered(RenderPolicy::Compact),
    {
        let parts = vec![
            field_line("Package:             ", self.package.as_str()),
            field_line("Source:              ", self.source.as_str()),
            field_line("Standards-Version:   ", self.standards_version.as_str()),
            field_line("Architecture:        ", self.architecture.as_str()),
            field_line("Maintainer:          ", self.maintainer.as_str()),
            field_line("Description:         ", self.description.as_str()),
            flag_field_line("Essential:           ", self.essential),
            optional_field_line("Uploaders:           ", &self.uploaders),
            optional_field_line("Section:             ", &self.section),
            optional_field_line("Priority:            ", &self.priority),
            optional_field_line("Installed-Size:      ", &self.installed_size),
            optional_field_line("Homepage:            ", &self.homepage),
            optional_field_line("Built-Using:         ", &self.built_using),
            optional_field_line("Package-Type:        ", &self.package_type),
            optional_field_line("Testsuite:           ", &self.testsuite),
            optional_field_line("Rules-Requires-Root: ", &self.rules_requires_root),
            optional_field_line("Arch:                ", &self.arch),
            optional_field_line("Bzr:                 ", &self.bzr),
            optional_field_line("Cvs:                 ", &self.cvs),
            optional_field_line("Darcs:               ", &self.darcs),
            optional_field_line("Git:                 ", &self.git),
            optional_field_line("Hg:                  ", &self.hg),
            optional_field_line("Mtn:                 ", &self.mtn),
            optional_field_line("Svn:                 ", &self.svn),
            joined_field_line("Pre-Depends:         ", &self.pre_depends),
            joined_field_line("Depends:             ", &self.depends),
            joined_field_line("Recommends:          ", &self.recommends),
            joined_field_line("Suggests:            ", &self.suggests),
            joined_field_line("Breaks:              ", &self.breaks),
            joined_field_line("Conflicts:           ", &self.conflicts),
            joined_field_line("Provides:            ", &self.provides),
            joined_field_line("Replaces:            ", &self.replaces),
            joined_field_line("Enchances:           ", &self.enchances),
        ];
        proof {
            assert(texts_of(parts@) =~= self@.compact_sections());
        }
        concat_parts(&parts)
    }

    /// As `render`, consuming the record.
    pub fn render_owned(self) -> (r: Result<String, DebControlError>)
        ensures
            match r {
                Ok(t) => t@ == self@.rendered(RenderPolicy::FixedSlots),
                Err(_) => false,
            },
    {
        self.render()
    }
}

/// Accumulates the fields of a source package record.
pub struct SourceDebControlBuilder {
    record: SourceDebControl,
}

impl View for SourceDebControlBuilder {
    type V = SourceFields;

    closed spec fn view(&self) -> SourceFields {
        self.record@
    }
}

impl SourceDebControlBuilder {
    /// The record as accumulated so far.
    pub fn build(self) -> (r: SourceDebControl)
        ensures
            r@ == self@,
    {
        self.record
    }

    pub fn package(self, package: &str) -> (r: Self)
        ensures
            r@ == self@.apply(SourceEdit::Text(SourceText::Package, package@)),
    {
        let mut b = self;
        b.record.package = String::from_str(package);
        b
    }

    pub fn source(self, source: &str) -> (r: Self)
        ensures
            r@ == self@.apply(SourceEdit::Text(SourceText::Source, source@)),
    {
        let mut b = self;
        b.record.source = String::from_str(source);
        b
    }

    pub fn standards_version(self, standards_version: &str) -> (r: Self)
        ensures
            r@ == self@.apply(SourceEdit::Text(SourceText::StandardsVersion, standards_version@)),
    {
        let mut b = self;
        b.record.standards_version = String::from_str(standards_version);
        b
    }

    pub fn architecture(self, architecture: &str) -> (r: Self)
        ensures
            r@ == self@.apply(SourceEdit::Text(SourceText::Architecture, architecture@)),
    {
        let mut b = self;
        b.record.architecture = String::from_str(architecture);
        b
    }

    pub fn maintainer(self, maintainer: &str) -> (r: Self)
        ensures
            r@ == self@.apply(SourceEdit::Text(SourceText::Maintainer, maintainer@)),
    {
        let mut b = self;
        b.record.maintainer = String::from_str(maintainer);
        b
    }

    pub fn description(self, description: &str) -> (r: Self)
        ensures
            r@ == self@.apply(SourceEdit::Text(SourceText::Description, description@)),
    {
        let mut b = self;
        b.record.description = String::from_str(description);
        b
    }

    pub fn uploaders(self, uploaders: &str) -> (r: Self)
        ensures
            r@ == self@.apply(SourceEdit::Optional(SourceOptional::Uploaders, uploaders@)),
    {
        let mut b = self;
        b.record.uploaders = Some(String::from_str(uploaders));
        b
    }

    pub fn section(self, section: &str) -> (r: Self)
        ensures
            r@ == self@.apply(SourceEdit::Optional(SourceOptional::Section, section@)),
    {
        let mut b = self;
        b.record.section = Some(String::from_str(section));
        b
    }

    pub fn package_type(self, package_type: &str) -> (r: Self)
        ensures
            r@ == self@.apply(SourceEdit::Optional(SourceOptional::PackageType, package_type@)),
    {
        let mut b = self;
        b.record.package_type = Some(String::from_str(package_type));
        b
    }

    pub fn priority(self, priority: &str) -> (r: Self)
        ensures
            r@ == self@.apply(SourceEdit::Optional(SourceOptional::Priority, priority@)),
    {
        let mut b = self;
        b.record.priority = Some(String::from_str(priority));
        b
    }

    pub fn installed_size(self, installed_size: &str) -> (r: Self)
        ensures
            r@ == self@.apply(SourceEdit::Optional(SourceOptional::InstalledSize, installed_size@)),
    {
        let mut b = self;
        b.record.installed_size = Some(String::from_str(installed_size));
        b
    }

    pub fn testsuite(self, testsuite: &str) -> (r: Self)
        ensures
            r@ == self@.apply(SourceEdit::Optional(SourceOptional::Testsuite, testsuite@)),
    {
        let mut b = self;
        b.record.testsuite = Some(String::from_str(testsuite));
        b
    }

    pub fn homepage(self, homepage: &str) -> (r: Self)
        ensures
            r@ == self@.apply(SourceEdit::Optional(SourceOptional::Homepage, homepage@)),
    {
        let mut b = self;
        b.record.homepage = Some(String::from_str(homepage));
        b
    }

    pub fn built_using(self, built_using: &str) -> (r: Self)
        ensures
            r@ == self@.apply(SourceEdit::Optional(SourceOptional::BuiltUsing, built_using@)),
    {
        let mut b = self;
        b.record.built_using = Some(String::from_str(built_using));
        b
    }

    pub fn rules_requires_root(self, rules_requires_root: &str) -> (r: Self)
        ensures
            r@ == self@.apply(SourceEdit::Optional(SourceOptional::RulesRequiresRoot, rules_requires_root@)),
    {
        let mut b = self;
        b.record.rules_requires_root = Some(String::from_str(rules_requires_root));
        b
    }

    pub fn arch(self, arch: &str) -> (r: Self)
        ensures
            r@ == self@.apply(SourceEdit::Optional(SourceOptional::Arch, arch@)),
    {
        let mut b = self;
        b.record.arch = Some(String::from_str(arch));
        b
    }

    pub fn bzr(self, bzr: &str) -> (r: Self)
        ensures
            r@ == self@.apply(SourceEdit::Optional(SourceOptional::Bzr, bzr@)),
    {
        let mut b = self;
        b.record.bzr = Some(String::from_str(bzr));
        b
    }

    pub fn cvs(self, cvs: &str) -> (r: Self)
        ensures
            r@ == self@.apply(SourceEdit::Optional(SourceOptional::Cvs, cvs@)),
    {
        let mut b = self;
        b.record.cvs = Some(String::from_str(cvs));
        b
    }

    pub fn darcs(self, darcs: &str) -> (r: Self)
        ensures
            r@ == self@.apply(SourceEdit::Optional(SourceOptional::Darcs, darcs@)),
    {
        let mut b = self;
        b.record.darcs = Some(String::from_str(darcs));
        b
    }

    pub fn git(self, git: &str) -> (r: Self)
        ensures
            r@ == self@.apply(SourceEdit::Optional(SourceOptional::Git, git@)),
    {
        let mut b = self;
        b.record.git = Some(String::from_str(git));
        b
    }

    pub fn hg(self, hg: &str) -> (r: Self)
        ensures
            r@ == self@.apply(SourceEdit::Optional(SourceOptional::Hg, hg@)),
    {
        let mut b = self;
        b.record.hg = Some(String::from_str(hg));
        b
    }

    pub fn mtn(self, mtn: &str) -> (r: Self)
        ensures
            r@ == self@.apply(SourceEdit::Optional(SourceOptional::Mtn, mtn@)),
    {
        let mut b = self;
        b.record.mtn = Some(String::from_str(mtn));
        b
    }

    pub fn svn(self, svn: &str) -> (r: Self)
        ensures
            r@ == self@.apply(SourceEdit::Optional(SourceOptional::Svn, svn@)),
    {
        let mut b = self;
        b.record.svn = Some(String::from_str(svn));
        b
    }

    pub fn essential(self, essential: bool) -> (r: Self)
        ensures
            r@ == self@.apply(SourceEdit::Essential(essential)),
    {
        let mut b = self;
        b.record.essential = essential;
        b
    }

    pub fn add_pre_depends_entries(self, entries: Vec<&str>) -> (r: Self)
        ensures
            r@ == self@.apply(SourceEdit::Extend(Relation::PreDepends, strs_of(entries@))),
    {
        let mut b = self;
        extend_entries(&mut b.record.pre_depends, entries);
        b
    }

    pub fn add_depends_entries(self, entries: Vec<&str>) -> (r: Self)
        ensures
            r@ == self@.apply(SourceEdit::Extend(Relation::Depends, strs_of(entries@))),
    {
        let mut b = self;
        extend_entries(&mut b.record.depends, entries);
        b
    }

    pub fn add_recommends_entries(self, entries: Vec<&str>) -> (r: Self)
        ensures
            r@ == self@.apply(SourceEdit::Extend(Relation::Recommends, strs_of(entries@))),
    {
        let mut b = self;
        extend_entries(&mut b.record.recommends, entries);
        b
    }

    pub fn add_suggests_entries(self, entries: Vec<&str>) -> (r: Self)
        ensures
            r@ == self@.apply(SourceEdit::Extend(Relation::Suggests, strs_of(entries@))),
    {
        let mut b = self;
        extend_entries(&mut b.record.suggests, entries);
        b
    }

    pub fn add_breaks_entries(self, entries: Vec<&str>) -> (r: Self)
        ensures
            r@ == self@.apply(SourceEdit::Extend(Relation::Breaks, strs_of(entries@))),
    {
        let mut b = self;
        extend_entries(&mut b.record.breaks, entries);
        b
    }

    pub fn add_conflicts_entries(self, entries: Vec<&str>) -> (r: Self)
        ensures
            r@ == self@.apply(SourceEdit::Extend(Relation::Conflicts, strs_of(entries@))),
    {
        let mut b = self;
        extend_entries(&mut b.record.conflicts, entries);
        b
    }

    pub fn add_provides_entries(self, entries: Vec<&str>) -> (r: Self)
        ensures
            r@ == self@.apply(SourceEdit::Extend(Relation::Provides, strs_of(entries@))),
    {
        let mut b = self;
        extend_entries(&mut b.record.provides, entries);
        b
    }

    pub fn add_replaces_entries(self, entries: Vec<&str>) -> (r: Self)
        ensures
            r@ == self@.apply(SourceEdit::Extend(Relation::Replaces, strs_of(entries@))),
    {
        let mut b = self;
        extend_entries(&mut b.record.replaces, entries);
        b
    }

    pub fn add_enchances_entries(self, entries: Vec<&str>) -> (r: Self)
        ensures
            r@ == self@.apply(SourceEdit::Extend(Relation::Enchances, strs_of(entries@))),
    {
        let mut b = self;
        extend_entries(&mut b.record.enchances, entries);
        b
    }
}

/// Rendering reads the record's contents alone: records with equal contents, or one
/// record rendered twice, give the same text in each layout.
pub proof fn lemma_source_render_repeatable(a: SourceDebControl, b: SourceDebControl, policy: RenderPolicy)
    requires
        a@ == b@,
    ensures
        a@.rendered(policy) == b@.rendered(policy),
{
}

/// Two edits that change different fields, or two equal edits.
pub open spec fn source_edits_compatible(a: SourceEdit, b: SourceEdit) -> bool {
    source_target(a) != source_target(b) || a == b
}

/// Builder calls on different fields may be made in either order: the record comes
/// out the same.
pub proof fn lemma_source_edits_commute(v: SourceFields, a: SourceEdit, b: SourceEdit)
    requires
        source_edits_compatible(a, b),
    ensures
        v.apply(a).apply(b) == v.apply(b).apply(a),
{
}

/// Appending `a` and then `b` to a list gives the record, and so the text in either
/// layout, that one append of `a + b` gives.
pub proof fn lemma_source_extend_accumulates(
    v: SourceFields,
    r: Relation,
    a: Seq<Seq<char>>,
    b: Seq<Seq<char>>,
)
    ensures
        v.apply(SourceEdit::Extend(r, a)).apply(SourceEdit::Extend(r, b)) == v.apply(
            SourceEdit::Extend(r, a + b),
        ),
        v.apply(SourceEdit::Extend(r, a)).apply(SourceEdit::Extend(r, b)).rendered(RenderPolicy::FixedSlots) == v.apply(
            SourceEdit::Extend(r, a + b),
        ).rendered(RenderPolicy::FixedSlots),
{
    assert(v.relation(r) + a + b =~= v.relation(r) + (a + b));
}

/// A record with every optional field absent and every list empty renders, in the
/// fixed-slot layout, as its string lines and its essential line, followed by one blank line for each optional
/// field and each list.
pub proof fn lemma_source_bare_render(v: SourceFields)
    requires
        forall|f: SourceOptional| v.optional(f) is None,
        forall|r: Relation| v.relation(r).len() == 0,
    ensures
        v.rendered(RenderPolicy::FixedSlots) == line("Package:             "@, v.package) + line("Source:              "@, v.source) + line("Standards-Version:   "@, v.standards_version) + line("Architecture:        "@, v.architecture) + line("Maintainer:          "@, v.maintainer) + line("Description:         "@, v.description) + line("Essential:           "@, flag_text(v.essential)) + Seq::new(26, |i: int| '\n'),
{
    assert(v.optional(SourceOptional::Uploaders) is None);
    assert(v.optional(SourceOptional::Section) is None);
    assert(v.optional(SourceOptional::PackageType) is None);
    assert(v.optional(SourceOptional::Priority) is None);
    assert(v.optional(SourceOptional::InstalledSize) is None);
    assert(v.optional(SourceOptional::Testsuite) is None);
    assert(v.optional(SourceOptional::Homepage) is None);
    assert(v.optional(SourceOptional::BuiltUsing) is None);
    assert(v.optional(SourceOptional::RulesRequiresRoot) is None);
    assert(v.optional(SourceOptional::Arch) is None);
    assert(v.optional(SourceOptional::Bzr) is None);
    assert(v.optional(SourceOptional::Cvs) is None);
    assert(v.optional(SourceOptional::Darcs) is None);
    assert(v.optional(SourceOptional::Git) is None);
    assert(v.optional(SourceOptional::Hg) is None);
    assert(v.optional(SourceOptional::Mtn) is None);
    assert(v.optional(SourceOptional::Svn) is None);
    assert(v.relation(Relation::PreDepends).len() == 0);
    assert(v.relation(Relation::Depends).len() == 0);
    assert(v.relation(Relation::Recommends).len() == 0);
    assert(v.relation(Relation::Suggests).len() == 0);
    assert(v.relation(Relation::Breaks).len() == 0);
    assert(v.relation(Relation::Conflicts).len() == 0);
    assert(v.relation(Relation::Provides).len() == 0);
    assert(v.relation(Relation::Replaces).len() == 0);
    assert(v.relation(Relation::Enchances).len() == 0);
    let s = v.slot_sections();
    let head = s.take(7);
    assert(s =~= head + s.skip(7));
    lemma_concat_all_append(head, s.skip(7));
    assert(entry_lines(Seq::empty(), Seq::<Seq<char>>::empty()) == Seq::<char>::empty());
    assert forall|i: int| 0 <= i < s.skip(7).len() implies s.skip(7)[i] == newline() by {
        assert(s.skip(7)[i] == s[i + 7]);
    }
    lemma_concat_all_blank_lines(s.skip(7));
    let e = Seq::<Seq<char>>::empty();
    lemma_concat_all_push(e, s[0]);
    lemma_concat_all_push(e.push(s[0]), s[1]);
    lemma_concat_all_push(e.push(s[0]).push(s[1]), s[2]);
    lemma_concat_all_push(e.push(s[0]).push(s[1]).push(s[2]), s[3]);
    lemma_concat_all_push(e.push(s[0]).push(s[1]).push(s[2]).push(s[3]), s[4]);
    lemma_concat_all_push(e.push(s[0]).push(s[1]).push(s[2]).push(s[3]).push(s[4]), s[5]);
    lemma_concat_all_push(e.push(s[0]).push(s[1]).push(s[2]).push(s[3]).push(s[4]).push(s[5]), s[6]);
    assert(head =~= e.push(s[0]).push(s[1]).push(s[2]).push(s[3]).push(s[4]).push(s[5]).push(s[6]));
    assert(concat_all(e) == Seq::<char>::empty());
    assert(concat_all(head) =~= s[0] + s[1] + s[2] + s[3] + s[4] + s[5] + s[6]);
}

/// Setting an optional field puts exactly its line in the field's fixed slot of the
/// fixed-slot text; every other section of the text stays as it was.
pub proof fn lemma_source_optional_line(v: SourceFields, f: SourceOptional, x: Seq<char>)
    ensures
        ({
            let after = v.apply(SourceEdit::Optional(f, x));
            let p = source_optional_position(f);
            &&& after.slot_sections().len() == v.slot_sections().len()
            &&& after.slot_sections()[p] == line(source_optional_label(f), x)
            &&& forall|i: int|
                0 <= i < v.slot_sections().len() && i != p ==> after.slot_sections()[i] == v.slot_sections()[i]
            &&& after.rendered(RenderPolicy::FixedSlots) == concat_all(v.slot_sections().take(p)) + line(
                source_optional_label(f),
                x,
            ) + concat_all(v.slot_sections().skip(p + 1))
        }),
{
    let after = v.apply(SourceEdit::Optional(f, x));
    let p = source_optional_position(f);
    assert(after.slot_sections().len() == v.slot_sections().len());
    assert(after.slot_sections()[p] == line(source_optional_label(f), x));
    assert forall|i: int| 0 <= i < v.slot_sections().len() && i != p implies after.slot_sections()[i]
        == v.slot_sections()[i] by {
        match f {
            SourceOptional::Uploaders => {},
            SourceOptional::Section => {},
            SourceOptional::PackageType => {},
            SourceOptional::Priority => {},
            SourceOptional::InstalledSize => {},
            SourceOptional::Testsuite => {},
            SourceOptional::Homepage => {},
            SourceOptional::BuiltUsing => {},
            SourceOptional::RulesRequiresRoot => {},
            SourceOptional::Arch => {},
            SourceOptional::Bzr => {},
            SourceOptional::Cvs => {},
            SourceOptional::Darcs => {},
            SourceOptional::Git => {},
            SourceOptional::Hg => {},
            SourceOptional::Mtn => {},
            SourceOptional::Svn => {},
        }
    }
    assert(after.slot_sections().take(p) =~= v.slot_sections().take(p));
    assert(after.slot_sections().skip(p + 1) =~= v.slot_sections().skip(p + 1));
    lemma_concat_all_split(after.slot_sections(), p);
}

/// The essential field renders on its own line as `yes` when set and `no` when not.
pub proof fn lemma_source_essential_line(v: SourceFields)
    ensures
        v.slot_sections()[6] == line(
            "Essential:           "@,
            if v.essential {
                "yes"@
            } else {
                "no"@
            },
        ),
{
    reveal_strlit("yes");
    reveal_strlit("no");
    assert("yes"@ =~= flag_text(true));
    assert("no"@ =~= flag_text(false));
}

impl SourceFields {
    /// The contents after a run of builder calls, made in order.
    pub open spec fn apply_all(self, edits: Seq<SourceEdit>) -> Self
        decreases edits.len(),
    {
        if edits.len() == 0 {
            self
        } else {
            self.apply_all(edits.drop_last()).apply(edits.last())
        }
    }
}

proof fn lemma_source_move_to_end(v: SourceFields, p: Seq<SourceEdit>, e: SourceEdit, q: Seq<SourceEdit>)
    requires
        forall|k: int| 0 <= k < q.len() ==> source_edits_compatible(e, #[trigger] q[k]),
    ensures
        v.apply_all(p.push(e) + q) == v.apply_all((p + q).push(e)),
    decreases q.len(),
{
    if q.len() == 0 {
        assert(p.push(e) + q =~= (p + q).push(e));
    } else {
        let q1 = q.drop_last();
        let y = q.last();
        lemma_source_move_to_end(v, p, e, q1);
        assert((p.push(e) + q).drop_last() =~= p.push(e) + q1);
        assert((p.push(e) + q).last() == y);
        assert((p + q1).push(e).drop_last() =~= p + q1);
        assert(source_edits_compatible(e, q[q.len() - 1]));
        let x = v.apply_all(p + q1);
        lemma_source_edits_commute(x, e, y);
        assert(v.apply_all(p.push(e) + q) == v.apply_all(p.push(e) + q1).apply(y));
        assert(v.apply_all((p + q1).push(e)) == x.apply(e));
        assert((p + q).drop_last() =~= p + q1);
        assert((p + q).last() == y);
        assert(v.apply_all(p + q) == x.apply(y));
        assert((p + q).push(e).drop_last() =~= p + q);
        assert((p + q).push(e).last() == e);
        assert(v.apply_all((p + q).push(e)) == v.apply_all(p + q).apply(e));
    }
}

/// The edits of a run that change the field at `t`, in the order they are made.
pub open spec fn source_edits_on(edits: Seq<SourceEdit>, t: int) -> Seq<SourceEdit>
    decreases edits.len(),
{
    if edits.len() == 0 {
        Seq::empty()
    } else if source_target(edits.last()) == t {
        source_edits_on(edits.drop_last(), t).push(edits.last())
    } else {
        source_edits_on(edits.drop_last(), t)
    }
}

/// The last edit of the field at `u` in a run, and what is left of the run without it.
proof fn lemma_source_last_edit_on(a: Seq<SourceEdit>, u: int) -> (j: int)
    requires
        source_edits_on(a, u).len() > 0,
    ensures
        0 <= j < a.len(),
        a[j] == source_edits_on(a, u).last(),
        forall|k: int| j < k < a.len() ==> source_target(#[trigger] a[k]) != u,
        forall|s: int|
            #[trigger] source_edits_on(a.take(j) + a.skip(j + 1), s) == if s == u {
                source_edits_on(a, u).drop_last()
            } else {
                source_edits_on(a, s)
            },
    decreases a.len(),
{
    let d = a.drop_last();
    if source_target(a.last()) == u {
        let j = a.len() - 1;
        assert(a.take(j) + a.skip(j + 1) =~= d);
        assert(source_edits_on(a, u).drop_last() =~= source_edits_on(d, u));
        assert forall|s: int| #[trigger] source_edits_on(a.take(j) + a.skip(j + 1), s) == if s == u {
            source_edits_on(a, u).drop_last()
        } else {
            source_edits_on(a, s)
        } by {
            assert(a.take(j) + a.skip(j + 1) == d);
        }
        j
    } else {
        let j = lemma_source_last_edit_on(d, u);
        let rest = a.take(j) + a.skip(j + 1);
        assert(rest =~= (d.take(j) + d.skip(j + 1)).push(a.last()));
        assert(rest.drop_last() =~= d.take(j) + d.skip(j + 1));
        assert(rest.last() == a.last());
        assert forall|s: int| #[trigger] source_edits_on(rest, s) == if s == u {
            source_edits_on(a, u).drop_last()
        } else {
            source_edits_on(a, s)
        } by {
            assert(source_edits_on(d.take(j) + d.skip(j + 1), s) == if s == u {
                source_edits_on(d, u).drop_last()
            } else {
                source_edits_on(d, s)
            });
        }
        assert forall|k: int| j < k < a.len() implies source_target(#[trigger] a[k]) != u by {
            if k < a.len() - 1 {
                assert(a[k] == d[k]);
            }
        }
        j
    }
}

/// Two runs of builder calls that make, field by field, the same calls in the same
/// order give the same record, however the calls on different fields interleave. So
/// calls may be reordered freely as long as no field is set twice to different values
/// and appends to one list keep their relative order.
pub proof fn lemma_source_edits_interleave(v: SourceFields, a: Seq<SourceEdit>, b: Seq<SourceEdit>)
    requires
        forall|t: int| #[trigger] source_edits_on(a, t) == source_edits_on(b, t),
    ensures
        v.apply_all(a) == v.apply_all(b),
    decreases b.len(),
{
    if b.len() == 0 {
        if a.len() > 0 {
            let t = source_target(a.last());
            assert(source_edits_on(a, t).len() > 0);
            assert(source_edits_on(b, t).len() == 0);
        }
    } else {
        let y = b.last();
        let u = source_target(y);
        let b1 = b.drop_last();
        assert(source_edits_on(a, u) == source_edits_on(b, u));
        assert(source_edits_on(b, u) == source_edits_on(b1, u).push(y));
        let j = lemma_source_last_edit_on(a, u);
        let p = a.take(j);
        let q = a.skip(j + 1);
        assert(a =~= p.push(y) + q);
        assert forall|k: int| 0 <= k < q.len() implies source_edits_compatible(y, #[trigger] q[k]) by {
            assert(q[k] == a[j + 1 + k]);
        }
        lemma_source_move_to_end(v, p, y, q);
        assert forall|t: int| #[trigger] source_edits_on(p + q, t) == source_edits_on(b1, t) by {
            assert(source_edits_on(a, t) == source_edits_on(b, t));
            if t == u {
                assert(source_edits_on(b, u).drop_last() =~= source_edits_on(b1, u));
            }
        }
        lemma_source_edits_interleave(v, p + q, b1);
        assert((p + q).push(y).drop_last() =~= p + q);
    }
}

/// Where a list's section stands among the sections of the rendered text.
pub open spec fn source_list_target(r: Relation) -> int {
    24 + relation_index(r)
}

proof fn lemma_source_edits_on_none(s: Seq<SourceEdit>, t: int)
    requires
        forall|k: int| 0 <= k < s.len() ==> source_target(#[trigger] s[k]) != t,
    ensures
        source_edits_on(s, t) == Seq::<SourceEdit>::empty(),
    decreases s.len(),
{
    if s.len() > 0 {
        let d = s.drop_last();
        assert forall|k: int| 0 <= k < d.len() implies source_target(#[trigger] d[k]) != t by {
            assert(d[k] == s[k]);
        }
        lemma_source_edits_on_none(d, t);
        assert(source_target(s[s.len() - 1]) != t);
    }
}

proof fn lemma_source_edits_on_uniform(s: Seq<SourceEdit>, t: int, x: SourceEdit)
    requires
        source_target(x) == t,
        forall|k: int| 0 <= k < s.len() && source_target(#[trigger] s[k]) == t ==> s[k] == x,
    ensures
        source_edits_on(s, t) =~= Seq::new(s.to_multiset().count(x), |i: int| x),
    decreases s.len(),
{
    broadcast use group_to_multiset_ensures;

    if s.len() == 0 {
        assert(!s.contains(x));
    } else {
        let d = s.drop_last();
        assert forall|k: int| 0 <= k < d.len() && source_target(#[trigger] d[k]) == t implies d[k] == x by {
            assert(d[k] == s[k]);
        }
        lemma_source_edits_on_uniform(d, t, x);
        assert(s =~= d.push(s.last()));
        assert(s.to_multiset() =~= d.to_multiset().insert(s.last()));
        if source_target(s.last()) == t {
            assert(s[s.len() - 1] == x);
        }
    }
}

/// Builder calls that set no field twice to different values, and that append to each
/// list in the same relative order, give the same record in whatever order they are
/// made.
pub proof fn lemma_source_edits_reorder(v: SourceFields, a: Seq<SourceEdit>, b: Seq<SourceEdit>)
    requires
        a.to_multiset() == b.to_multiset(),
        forall|i: int, j: int|
            0 <= i < a.len() && 0 <= j < a.len() && !(a[i] is Extend) ==> source_edits_compatible(
                #[trigger] a[i],
                #[trigger] a[j],
            ),
        forall|r: Relation| #[trigger]
            source_edits_on(a, source_list_target(r)) == source_edits_on(b, source_list_target(r)),
    ensures
        v.apply_all(a) == v.apply_all(b),
{
    broadcast use group_to_multiset_ensures;

    assert forall|t: int| #[trigger] source_edits_on(a, t) == source_edits_on(b, t) by {
        if exists|r: Relation| t == source_list_target(r) {
            let r = choose|r: Relation| t == source_list_target(r);
            assert(source_edits_on(a, source_list_target(r)) == source_edits_on(b, source_list_target(r)));
        } else {
            assert forall|m: int| 0 <= m < b.len() && source_target(#[trigger] b[m]) == t implies a.contains(
                b[m],
            ) by {
                assert(b.contains(b[m]));
                assert(b.to_multiset().count(b[m]) > 0);
            }
            if exists|k: int| 0 <= k < a.len() && source_target(#[trigger] a[k]) == t {
                let k = choose|k: int| 0 <= k < a.len() && source_target(#[trigger] a[k]) == t;
                let x = a[k];
                if x is Extend {
                    assert(t == source_list_target(x->Extend_0));
                }
                assert forall|m: int| 0 <= m < a.len() && source_target(#[trigger] a[m]) == t implies a[m]
                    == x by {
                    assert(source_edits_compatible(a[k], a[m]));
                }
                lemma_source_edits_on_uniform(a, t, x);
                assert forall|m: int| 0 <= m < b.len() && source_target(#[trigger] b[m]) == t implies b[m]
                    == x by {
                    assert(a.contains(b[m]));
                    let m2 = choose|m2: int| 0 <= m2 < a.len() && a[m2] == b[m];
                    assert(source_target(a[m2]) == t);
                }
                lemma_source_edits_on_uniform(b, t, x);
            } else {
                lemma_source_edits_on_none(a, t);
                assert forall|m: int| 0 <= m < b.len() implies source_target(#[trigger] b[m]) != t by {
                    if source_target(b[m]) == t {
                        assert(a.contains(b[m]));
                        let m2 = choose|m2: int| 0 <= m2 < a.len() && a[m2] == b[m];
                        assert(source_target(a[m2]) == t);
                    }
                }
                lemma_source_edits_on_none(b, t);
            }
        }
    }
    lemma_source_edits_interleave(v, a, b);
}

} // verus!
