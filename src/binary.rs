//! The binary package record, its builder and its compact rendering.
use vstd::prelude::*;
use vstd::seq_lib::group_to_multiset_ensures;

use crate::relation::{relation_index, Relation};
use crate::RenderPolicy;
use crate::text::{
    concat_all, concat_parts, lemma_concat_all_append, lemma_concat_all_blank, lemma_concat_all_push,
    lemma_concat_all_split, extend_entries, field_line, flag_field_line, flag_text,
    entry_block, entry_block_lines, joined_field_line, joined_line, line, slot_field_line, slot_line, optional_field_line, optional_line, strs_of, text_of,
    texts_of,
};

verus! {

/// The fields of a binary package record.
#[derive(Clone, Debug, Default, PartialEq)]
pub struct BinaryDebControl {
    /// The package name.
    pub package: String,
    /// The version: `[epoch:]upstream_version[-debian_revision]`.
    pub version: String,
    /// An architecture name, or `any`, `all` or `source`.
    pub architecture: String,
    /// A description of the package.
    pub description: String,
    /// The maintainer's name followed by an e-mail address in angle brackets.
    pub maintainer: String,
    /// The name of the source package.
    pub source: Option<String>,
    /// The application area the package is classified under.
    pub section: Option<String>,
    /// How important it is that users have the package installed.
    pub priority: Option<String>,
    /// An estimate of the disk space the installed package takes.
    pub installed_size: Option<String>,
    /// The URL of the package's web site.
    pub homepage: Option<String>,
    /// Other source packages the build incorporated.
    pub built_using: Option<String>,
    /// Whether the package is essential; rendered as `yes` or `no`.
    pub essential: bool,
    /// Packages that must be installed and configured first; the lists below relate
    /// this package to others in the same way, one name or expression per entry.
    pub pre_depends: Vec<String>,
    pub depends: Vec<String>,
    pub recommends: Vec<String>,
    pub suggests: Vec<String>,
    pub breaks: Vec<String>,
    pub conflicts: Vec<String>,
    pub provides: Vec<String>,
    pub replaces: Vec<String>,
    pub enchances: Vec<String>,
}

/// The contents of a binary package record.
pub struct BinaryFields {
    pub package: Seq<char>,
    pub version: Seq<char>,
    pub architecture: Seq<char>,
    pub description: Seq<char>,
    pub maintainer: Seq<char>,
    pub source: Option<Seq<char>>,
    pub section: Option<Seq<char>>,
    pub priority: Option<Seq<char>>,
    pub installed_size: Option<Seq<char>>,
    pub homepage: Option<Seq<char>>,
    pub built_using: Option<Seq<char>>,
    pub essential: bool,
    pub pre_depends: Seq<Seq<char>>,
    pub depends: Seq<Seq<char>>,
    pub recommends: Seq<Seq<char>>,
    pub suggests: Seq<Seq<char>>,
    pub breaks: Seq<Seq<char>>,
    pub conflicts: Seq<Seq<char>>,
    pub provides: Seq<Seq<char>>,
    pub replaces: Seq<Seq<char>>,
    pub enchances: Seq<Seq<char>>,
}

/// A string field that is always rendered.
pub enum BinaryText {
    Package,
    Version,
    Architecture,
    Description,
    Maintainer,
}

/// A field that is rendered only when present.
pub enum BinaryOptional {
    Source,
    Section,
    Priority,
    InstalledSize,
    Homepage,
    BuiltUsing,
}

/// One builder call, as a change of the record's contents.
pub enum BinaryEdit {
    Text(BinaryText, Seq<char>),
    Optional(BinaryOptional, Seq<char>),
    Essential(bool),
    Extend(Relation, Seq<Seq<char>>),
}

/// The field that an edit changes, as its position in the rendered layout.
pub open spec fn binary_target(e: BinaryEdit) -> int {
    match e {
        BinaryEdit::Text(f, _) => match f {
            BinaryText::Package => 0,
            BinaryText::Version => 1,
            BinaryText::Architecture => 2,
            BinaryText::Description => 3,
            BinaryText::Maintainer => 5,
        },
        BinaryEdit::Essential(_) => 4,
        BinaryEdit::Optional(f, _) => binary_optional_position(f),
        BinaryEdit::Extend(r, _) => binary_list_target(r),
    }
}

/// Where an optional field's line stands among the sections of the rendered text.
pub open spec fn binary_optional_position(f: BinaryOptional) -> int {
    match f {
        BinaryOptional::Source => 6,
        BinaryOptional::Section => 7,
        BinaryOptional::Priority => 8,
        BinaryOptional::InstalledSize => 9,
        BinaryOptional::Homepage => 10,
        BinaryOptional::BuiltUsing => 11,
    }
}

/// The label, with colon and padding, of an optional field.
pub open spec fn binary_optional_label(f: BinaryOptional) -> Seq<char> {
    match f {
        BinaryOptional::Source => "Source:         "@,
        BinaryOptional::Section => "Section:        "@,
        BinaryOptional::Priority => "Priority:       "@,
        BinaryOptional::InstalledSize => "Installed-Size: "@,
        BinaryOptional::Homepage => "Homepage:       "@,
        BinaryOptional::BuiltUsing => "Built-Using:    "@,
    }
}

impl BinaryFields {
    /// Every string empty, every optional field absent, every list empty, not essential.
    pub open spec fn empty() -> Self {
        BinaryFields {
            package: Seq::empty(),
            version: Seq::empty(),
            architecture: Seq::empty(),
            description: Seq::empty(),
            maintainer: Seq::empty(),
            source: None,
            section: None,
            priority: None,
            installed_size: None,
            homepage: None,
            built_using: None,
            essential: false,
            pre_depends: Seq::empty(),
            depends: Seq::empty(),
            recommends: Seq::empty(),
            suggests: Seq::empty(),
            breaks: Seq::empty(),
            conflicts: Seq::empty(),
            provides: Seq::empty(),
            replaces: Seq::empty(),
            enchances: Seq::empty(),
        }
    }

    pub open spec fn optional(self, f: BinaryOptional) -> Option<Seq<char>> {
        match f {
            BinaryOptional::Source => self.source,
            BinaryOptional::Section => self.section,
            BinaryOptional::Priority => self.priority,
            BinaryOptional::InstalledSize => self.installed_size,
            BinaryOptional::Homepage => self.homepage,
            BinaryOptional::BuiltUsing => self.built_using,
        }
    }

    pub open spec fn relation(self, r: Relation) -> Seq<Seq<char>> {
        match r {
            Relation::PreDepends => self.pre_depends,
            Relation::Depends => self.depends,
            Relation::Recommends => self.recommends,
            Relation::Suggests => self.suggests,
            Relation::Breaks => self.breaks,
            Relation::Conflicts => self.conflicts,
            Relation::Provides => self.provides,
            Relation::Replaces => self.replaces,
            Relation::Enchances => self.enchances,
        }
    }

    /// The contents after one builder call.
    pub open spec fn apply(self, e: BinaryEdit) -> Self {
        match e {
            BinaryEdit::Text(f, s) => match f {
                BinaryText::Package => BinaryFields { package: s, ..self },
                BinaryText::Version => BinaryFields { version: s, ..self },
                BinaryText::Architecture => BinaryFields { architecture: s, ..self },
                BinaryText::Description => BinaryFields { description: s, ..self },
                BinaryText::Maintainer => BinaryFields { maintainer: s, ..self },
            },
            BinaryEdit::Optional(f, s) => match f {
                BinaryOptional::Source => BinaryFields { source: Some(s), ..self },
                BinaryOptional::Section => BinaryFields { section: Some(s), ..self },
                BinaryOptional::Priority => BinaryFields { priority: Some(s), ..self },
                BinaryOptional::InstalledSize => BinaryFields { installed_size: Some(s), ..self },
                BinaryOptional::Homepage => BinaryFields { homepage: Some(s), ..self },
                BinaryOptional::BuiltUsing => BinaryFields { built_using: Some(s), ..self },
            },
            BinaryEdit::Essential(b) => BinaryFields { essential: b, ..self },
            BinaryEdit::Extend(r, items) => match r {
                Relation::PreDepends => BinaryFields { pre_depends: self.pre_depends + items, ..self },
                Relation::Depends => BinaryFields { depends: self.depends + items, ..self },
                Relation::Recommends => BinaryFields { recommends: self.recommends + items, ..self },
                Relation::Suggests => BinaryFields { suggests: self.suggests + items, ..self },
                Relation::Breaks => BinaryFields { breaks: self.breaks + items, ..self },
                Relation::Conflicts => BinaryFields { conflicts: self.conflicts + items, ..self },
                Relation::Provides => BinaryFields { provides: self.provides + items, ..self },
                Relation::Replaces => BinaryFields { replaces: self.replaces + items, ..self },
                Relation::Enchances => BinaryFields { enchances: self.enchances + items, ..self },
            },
        }
    }

    /// The compact rendering, section by section: one section per field, in layout order;
    /// an absent optional field and an empty list give empty sections.
    pub open spec fn compact_sections(self) -> Seq<Seq<char>> {
        seq![
            line("Package:        "@, self.package),
            line("Version:        "@, self.version),
            line("Architecture:   "@, self.architecture),
            line("Description:    "@, self.description),
            line("Essential:      "@, flag_text(self.essential)),
            line("Maintainer:     "@, self.maintainer),
            optional_line("Source:         "@, self.source),
            optional_line("Section:        "@, self.section),
            optional_line("Priority:       "@, self.priority),
            optional_line("Installed-Size: "@, self.installed_size),
            optional_line("Homepage:       "@, self.homepage),
            optional_line("Built-Using:    "@, self.built_using),
            joined_line("Pre-Depends:    "@, self.pre_depends),
            joined_line("Depends:        "@, self.depends),
            joined_line("Recommends:     "@, self.recommends),
            joined_line("Suggests:       "@, self.suggests),
            joined_line("Breaks:         "@, self.breaks),
            joined_line("Conflicts:      "@, self.conflicts),
            joined_line("Provides:       "@, self.provides),
            joined_line("Replaces:       "@, self.replaces),
            joined_line("Enchances:      "@, self.enchances),
        ]
    }

    /// The fixed-slot rendering, section by section: one section per field, in layout order.
    pub open spec fn slot_sections(self) -> Seq<Seq<char>> {
        seq![
            line("Package:        "@, self.package),
            line("Version:        "@, self.version),
            line("Architecture:   "@, self.architecture),
            line("Description:    "@, self.description),
            line("Essential:      "@, flag_text(self.essential)),
            line("Maintainer:     "@, self.maintainer),
            slot_line("Source:         "@, self.source),
            slot_line("Section:        "@, self.section),
            slot_line("Priority:       "@, self.priority),
            slot_line("Installed-Size: "@, self.installed_size),
            slot_line("Homepage:       "@, self.homepage),
            slot_line("Built-Using:    "@, self.built_using),
            entry_block("Pre-Depends: "@, self.pre_depends),
            entry_block("Depends: "@, self.depends),
            entry_block("Recommends: "@, self.recommends),
            entry_block("Suggests: "@, self.suggests),
            entry_block("Breaks: "@, self.breaks),
            entry_block("Conflicts: "@, self.conflicts),
            entry_block("Provides: "@, self.provides),
            entry_block("Replaces: "@, self.replaces),
            entry_block("Enchances: "@, self.enchances),
        ]
    }

    /// The text of the record in the given layout.
    pub open spec fn rendered(self, policy: RenderPolicy) -> Seq<char> {
        match policy {
            RenderPolicy::FixedSlots => concat_all(self.slot_sections()),
            RenderPolicy::Compact => concat_all(self.compact_sections()),
        }
    }
}

impl View for BinaryDebControl {
    type V = BinaryFields;

    open spec fn view(&self) -> BinaryFields {
        BinaryFields {
            package: self.package@,
            version: self.version@,
            architecture: self.architecture@,
            description: self.description@,
            maintainer: self.maintainer@,
            source: text_of(self.source),
            section: text_of(self.section),
            priority: text_of(self.priority),
            installed_size: text_of(self.installed_size),
            homepage: text_of(self.homepage),
            built_using: text_of(self.built_using),
            essential: self.essential,
            pre_depends: texts_of(self.pre_depends@),
            depends: texts_of(self.depends@),
            recommends: texts_of(self.recommends@),
            suggests: texts_of(self.suggests@),
            breaks: texts_of(self.breaks@),
            conflicts: texts_of(self.conflicts@),
            provides: texts_of(self.provides@),
            replaces: texts_of(self.replaces@),
            enchances: texts_of(self.enchances@),
        }
    }
}

impl BinaryDebControl {
    /// A builder over an empty record.
    pub fn builder() -> (r: BinaryDebControlBuilder)
        ensures
            r@ == BinaryFields::empty(),
    {
        let r = BinaryDebControlBuilder {
            record: BinaryDebControl {
                package: String::new(),
                version: String::new(),
                architecture: String::new(),
                description: String::new(),
                maintainer: String::new(),
                source: None,
                section: None,
                priority: None,
                installed_size: None,
                homepage: None,
                built_using: None,
                essential: false,
                pre_depends: Vec::new(),
                depends: Vec::new(),
                recommends: Vec::new(),
                suggests: Vec::new(),
                breaks: Vec::new(),
                conflicts: Vec::new(),
                provides: Vec::new(),
                replaces: Vec::new(),
                enchances: Vec::new(),
            },
        };
        proof {
            assert(texts_of(r.record.pre_depends@) =~= Seq::empty());
            assert(texts_of(r.record.depends@) =~= Seq::empty());
            assert(texts_of(r.record.recommends@) =~= Seq::empty());
            assert(texts_of(r.record.suggests@) =~= Seq::empty());
            assert(texts_of(r.record.breaks@) =~= Seq::empty());
            assert(texts_of(r.record.conflicts@) =~= Seq::empty());
            assert(texts_of(r.record.provides@) =~= Seq::empty());
            assert(texts_of(r.record.replaces@) =~= Seq::empty());
            assert(texts_of(r.record.enchances@) =~= Seq::empty());
        }
        r
    }

    /// The control file text in the compact layout.
    pub fn render(&self) -> (r: String)
        ensures
            r@ == self@.rendered(RenderPolicy::Compact),
    {
        self.render_with(RenderPolicy::Compact)
    }

    /// The control file text in the given layout.
    pub fn render_with(&self, policy: RenderPolicy) -> (r: String)
        ensures
            r@ == self@.rendered(policy),
    {
        match policy {
            RenderPolicy::Compact => self.render_compact(),
            RenderPolicy::FixedSlots => self.render_slots(),
        }
    }

    fn render_compact(&self) -> (r: String)
        ensures
            r@ == self@.rendered(RenderPolicy::Compact),
    {
        let parts = vec![
            field_line("Package:        ", self.package.as_str()),
            field_line("Version:        ", self.version.as_str()),
            field_line("Architecture:   ", self.architecture.as_str()),
            field_line("Description:    ", self.description.as_str()),
            flag_field_line("Essential:      ", self.essential),
            field_line("Maintainer:     ", self.maintainer.as_str()),
            optional_field_line("Source:         ", &self.source),
            optional_field_line("Section:        ", &self.section),
            optional_field_line("Priority:       ", &self.priority),
            optional_field_line("Installed-Size: ", &self.installed_size),
            optional_field_line("Homepage:       ", &self.homepage),
            optional_field_line("Built-Using:    ", &self.built_using),
            joined_field_line("Pre-Depends:    ", &self.pre_depends),
            joined_field_line("Depends:        ", &self.depends),
            joined_field_line("Recommends:     ", &self.recommends),
            joined_field_line("Suggests:       ", &self.suggests),
            joined_field_line("Breaks:         ", &self.breaks),
            joined_field_line("Conflicts:      ", &self.conflicts),
            joined_field_line("Provides:       ", &self.provides),
            joined_field_line("Replaces:       ", &self.replaces),
            joined_field_line("Enchances:      ", &self.enchances),
        ];
        proof {
            assert(texts_of(parts@) =~= self@.compact_sections());
        }
        concat_parts(&parts)
    }

    fn render_slots(&self) -> (r: String)
        ensures
            r@ == self@.rendered(RenderPolicy::FixedSlots),
    {
        let parts = vec![
            field_line("Package:        ", self.package.as_str()),
            field_line("Version:        ", self.version.as_str()),
            field_line("Architecture:   ", self.architecture.as_str()),
            field_line("Description:    ", self.description.as_str()),
            flag_field_line("Essential:      ", self.essential),
            field_line("Maintainer:     ", self.maintainer.as_str()),
            slot_field_line("Source:         ", &self.source),
            slot_field_line("Section:        ", &self.section),
            slot_field_line("Priority:       ", &self.priority),
            slot_field_line("Installed-Size: ", &self.installed_size),
            slot_field_line("Homepage:       ", &self.homepage),
            slot_field_line("Built-Using:    ", &self.built_using),
            entry_block_lines("Pre-Depends: ", &self.pre_depends),
            entry_block_lines("Depends: ", &self.depends),
            entry_block_lines("Recommends: ", &self.recommends),
            entry_block_lines("Suggests: ", &self.suggests),
            entry_block_lines("Breaks: ", &self.breaks),
            entry_block_lines("Conflicts: ", &self.conflicts),
            entry_block_lines("Provides: ", &self.provides),
            entry_block_lines("Replaces: ", &self.replaces),
            entry_block_lines("Enchances: ", &self.enchances),
        ];
        proof {
            assert(texts_of(parts@) =~= self@.slot_sections());
        }
        concat_parts(&parts)
    }
}

/// Accumulates the fields of a binary package record.
pub struct BinaryDebControlBuilder {
    record: BinaryDebControl,
}

impl View for BinaryDebControlBuilder {
    type V = BinaryFields;

    closed spec fn view(&self) -> BinaryFields {
        self.record@
    }
}

impl BinaryDebControlBuilder {
    /// The record as accumulated so far.
    pub fn build(self) -> (r: BinaryDebControl)
        ensures
            r@ == self@,
    {
        self.record
    }

    pub fn package(self, package: &str) -> (r: Self)
        ensures
            r@ == self@.apply(BinaryEdit::Text(BinaryText::Package, package@)),
    {
        let mut b = self;
        b.record.package = String::from_str(package);
        b
    }

    pub fn version(self, version: &str) -> (r: Self)
        ensures
            r@ == self@.apply(BinaryEdit::Text(BinaryText::Version, version@)),
    {
        let mut b = self;
        b.record.version = String::from_str(version);
        b
    }

    pub fn architecture(self, architecture: &str) -> (r: Self)
        ensures
            r@ == self@.apply(BinaryEdit::Text(BinaryText::Architecture, architecture@)),
    {
        let mut b = self;
        b.record.architecture = String::from_str(architecture);
        b
    }

    pub fn description(self, description: &str) -> (r: Self)
        ensures
            r@ == self@.apply(BinaryEdit::Text(BinaryText::Description, description@)),
    {
        let mut b = self;
        b.record.description = String::from_str(description);
        b
    }

    pub fn maintainer(self, maintainer: &str) -> (r: Self)
        ensures
            r@ == self@.apply(BinaryEdit::Text(BinaryText::Maintainer, maintainer@)),
    {
        let mut b = self;
        b.record.maintainer = String::from_str(maintainer);
        b
    }

    pub fn source(self, source: &str) -> (r: Self)
        ensures
            r@ == self@.apply(BinaryEdit::Optional(BinaryOptional::Source, source@)),
    {
        let mut b = self;
        b.record.source = Some(String::from_str(source));
        b
    }

    pub fn section(self, section: &str) -> (r: Self)
        ensures
            r@ == self@.apply(BinaryEdit::Optional(BinaryOptional::Section, section@)),
    {
        let mut b = self;
        b.record.section = Some(String::from_str(section));
        b
    }

    pub fn priority(self, priority: &str) -> (r: Self)
        ensures
            r@ == self@.apply(BinaryEdit::Optional(BinaryOptional::Priority, priority@)),
    {
        let mut b = self;
        b.record.priority = Some(String::from_str(priority));
        b
    }

    pub fn installed_size(self, installed_size: &str) -> (r: Self)
        ensures
            r@ == self@.apply(BinaryEdit::Optional(BinaryOptional::InstalledSize, installed_size@)),
    {
        let mut b = self;
        b.record.installed_size = Some(String::from_str(installed_size));
        b
    }

    pub fn homepage(self, homepage: &str) -> (r: Self)
        ensures
            r@ == self@.apply(BinaryEdit::Optional(BinaryOptional::Homepage, homepage@)),
    {
        let mut b = self;
        b.record.homepage = Some(String::from_str(homepage));
        b
    }

    pub fn built_using(self, built_using: &str) -> (r: Self)
        ensures
            r@ == self@.apply(BinaryEdit::Optional(BinaryOptional::BuiltUsing, built_using@)),
    {
        let mut b = self;
        b.record.built_using = Some(String::from_str(built_using));
        b
    }

    pub fn essential(self, essential: bool) -> (r: Self)
        ensures
            r@ == self@.apply(BinaryEdit::Essential(essential)),
    {
        let mut b = self;
        b.record.essential = essential;
        b
    }

    pub fn add_pre_depends_entries(self, entries: Vec<&str>) -> (r: Self)
        ensures
            r@ == self@.apply(BinaryEdit::Extend(Relation::PreDepends, strs_of(entries@))),
    {
        let mut b = self;
        extend_entries(&mut b.record.pre_depends, entries);
        b
    }

    pub fn add_depends_entries(self, entries: Vec<&str>) -> (r: Self)
        ensures
            r@ == self@.apply(BinaryEdit::Extend(Relation::Depends, strs_of(entries@))),
    {
        let mut b = self;
        extend_entries(&mut b.record.depends, entries);
        b
    }

    pub fn add_recommends_entries(self, entries: Vec<&str>) -> (r: Self)
        ensures
            r@ == self@.apply(BinaryEdit::Extend(Relation::Recommends, strs_of(entries@))),
    {
        let mut b = self;
        extend_entries(&mut b.record.recommends, entries);
        b
    }

    pub fn add_suggests_entries(self, entries: Vec<&str>) -> (r: Self)
        ensures
            r@ == self@.apply(BinaryEdit::Extend(Relation::Suggests, strs_of(entries@))),
    {
        let mut b = self;
        extend_entries(&mut b.record.suggests, entries);
        b
    }

    pub fn add_breaks_entries(self, entries: Vec<&str>) -> (r: Self)
        ensures
            r@ == self@.apply(BinaryEdit::Extend(Relation::Breaks, strs_of(entries@))),
    {
        let mut b = self;
        extend_entries(&mut b.record.breaks, entries);
        b
    }

    pub fn add_conflicts_entries(self, entries: Vec<&str>) -> (r: Self)
        ensures
            r@ == self@.apply(BinaryEdit::Extend(Relation::Conflicts, strs_of(entries@))),
    {
        let mut b = self;
        extend_entries(&mut b.record.conflicts, entries);
        b
    }

    pub fn add_provides_entries(self, entries: Vec<&str>) -> (r: Self)
        ensures
            r@ == self@.apply(BinaryEdit::Extend(Relation::Provides, strs_of(entries@))),
    {
        let mut b = self;
        extend_entries(&mut b.record.provides, entries);
        b
    }

    pub fn add_replaces_entries(self, entries: Vec<&str>) -> (r: Self)
        ensures
            r@ == self@.apply(BinaryEdit::Extend(Relation::Replaces, strs_of(entries@))),
    {
        let mut b = self;
        extend_entries(&mut b.record.replaces, entries);
        b
    }

    pub fn add_enchances_entries(self, entries: Vec<&str>) -> (r: Self)
        ensures
            r@ == self@.apply(BinaryEdit::Extend(Relation::Enchances, strs_of(entries@))),
    {
        let mut b = self;
        extend_entries(&mut b.record.enchances, entries);
        b
    }
}

/// Rendering reads the record's contents alone: records with equal contents, or one
/// record rendered twice, give the same text in each layout.
pub proof fn lemma_binary_render_repeatable(a: BinaryDebControl, b: BinaryDebControl, policy: RenderPolicy)
    requires
        a@ == b@,
    ensures
        a@.rendered(policy) == b@.rendered(policy),
{
}

/// Two edits that change different fields, or two equal edits.
pub open spec fn binary_edits_compatible(a: BinaryEdit, b: BinaryEdit) -> bool {
    binary_target(a) != binary_target(b) || a == b
}

/// Builder calls on different fields may be made in either order: the record comes
/// out the same.
pub proof fn lemma_binary_edits_commute(v: BinaryFields, a: BinaryEdit, b: BinaryEdit)
    requires
        binary_edits_compatible(a, b),
    ensures
        v.apply(a).apply(b) == v.apply(b).apply(a),
{
}

/// Appending `a` and then `b` to a list gives the record, and so the text in either
/// layout, that one append of `a + b` gives.
pub proof fn lemma_binary_extend_accumulates(
    v: BinaryFields,
    r: Relation,
    a: Seq<Seq<char>>,
    b: Seq<Seq<char>>,
)
    ensures
        v.apply(BinaryEdit::Extend(r, a)).apply(BinaryEdit::Extend(r, b)) == v.apply(
            BinaryEdit::Extend(r, a + b),
        ),
        v.apply(BinaryEdit::Extend(r, a)).apply(BinaryEdit::Extend(r, b)).rendered(RenderPolicy::Compact) == v.apply(
            BinaryEdit::Extend(r, a + b),
        ).rendered(RenderPolicy::Compact),
{
    assert(v.relation(r) + a + b =~= v.relation(r) + (a + b));
}

/// A record with every optional field absent and every list empty renders, in the
/// compact layout, as its string lines and its essential line, and nothing else.
pub proof fn lemma_binary_bare_render(v: BinaryFields)
    requires
        forall|f: BinaryOptional| v.optional(f) is None,
        forall|r: Relation| v.relation(r).len() == 0,
    ensures
        v.rendered(RenderPolicy::Compact) == line("Package:        "@, v.package) + line("Version:        "@, v.version)
            + line("Architecture:   "@, v.architecture) + line(
            "Description:    "@,
            v.description,
        ) + line("Essential:      "@, flag_text(v.essential)) + line(
            "Maintainer:     "@,
            v.maintainer,
        ),
{
    assert(v.optional(BinaryOptional::Source) is None);
    assert(v.optional(BinaryOptional::Section) is None);
    assert(v.optional(BinaryOptional::Priority) is None);
    assert(v.optional(BinaryOptional::InstalledSize) is None);
    assert(v.optional(BinaryOptional::Homepage) is None);
    assert(v.optional(BinaryOptional::BuiltUsing) is None);
    assert(v.relation(Relation::PreDepends).len() == 0);
    assert(v.relation(Relation::Depends).len() == 0);
    assert(v.relation(Relation::Recommends).len() == 0);
    assert(v.relation(Relation::Suggests).len() == 0);
    assert(v.relation(Relation::Breaks).len() == 0);
    assert(v.relation(Relation::Conflicts).len() == 0);
    assert(v.relation(Relation::Provides).len() == 0);
    assert(v.relation(Relation::Replaces).len() == 0);
    assert(v.relation(Relation::Enchances).len() == 0);
    let s = v.compact_sections();
    let head = s.take(6);
    assert(s =~= head + s.skip(6));
    lemma_concat_all_append(head, s.skip(6));
    lemma_concat_all_blank(s.skip(6));
    assert(head =~= seq![s[0], s[1], s[2], s[3], s[4], s[5]]);
    assert(concat_all(Seq::<Seq<char>>::empty()) == Seq::<char>::empty());
    assert(v.rendered(RenderPolicy::Compact) =~= concat_all(head));
    let e = Seq::<Seq<char>>::empty();
    lemma_concat_all_push(e, s[0]);
    lemma_concat_all_push(e.push(s[0]), s[1]);
    lemma_concat_all_push(e.push(s[0]).push(s[1]), s[2]);
    lemma_concat_all_push(e.push(s[0]).push(s[1]).push(s[2]), s[3]);
    lemma_concat_all_push(e.push(s[0]).push(s[1]).push(s[2]).push(s[3]), s[4]);
    lemma_concat_all_push(e.push(s[0]).push(s[1]).push(s[2]).push(s[3]).push(s[4]), s[5]);
    assert(head =~= e.push(s[0]).push(s[1]).push(s[2]).push(s[3]).push(s[4]).push(s[5]));
    assert(concat_all(head) =~= s[0] + s[1] + s[2] + s[3] + s[4] + s[5]);
}

/// Setting an optional field puts exactly its line at the field's fixed place in the
/// compact text; every other section of the text stays as it was.
pub proof fn lemma_binary_optional_line(v: BinaryFields, f: BinaryOptional, x: Seq<char>)
    ensures
        ({
            let after = v.apply(BinaryEdit::Optional(f, x));
            let p = binary_optional_position(f);
            &&& after.compact_sections().len() == v.compact_sections().len()
            &&& after.compact_sections()[p] == line(binary_optional_label(f), x)
            &&& forall|i: int|
                0 <= i < v.compact_sections().len() && i != p ==> after.compact_sections()[i] == v.compact_sections()[i]
            &&& after.rendered(RenderPolicy::Compact) == concat_all(v.compact_sections().take(p)) + line(
                binary_optional_label(f),
                x,
            ) + concat_all(v.compact_sections().skip(p + 1))
        }),
{
    let after = v.apply(BinaryEdit::Optional(f, x));
    let p = binary_optional_position(f);
    assert(after.compact_sections().len() == v.compact_sections().len());
    assert(after.compact_sections()[p] == line(binary_optional_label(f), x));
    assert(forall|i: int|
        0 <= i < v.compact_sections().len() && i != p ==> after.compact_sections()[i] == v.compact_sections()[i]);
    assert(after.compact_sections().take(p) =~= v.compact_sections().take(p));
    assert(after.compact_sections().skip(p + 1) =~= v.compact_sections().skip(p + 1));
    lemma_concat_all_split(after.compact_sections(), p);
}

/// The essential field renders on its own line as `yes` when set and `no` when not.
pub proof fn lemma_binary_essential_line(v: BinaryFields)
    ensures
        v.compact_sections()[4] == line(
            "Essential:      "@,
            if v.essential {
                "yes"@
            } else {
                "no"@
            },
        ),
{
    reveal_strlit("yes");
    reveal_strlit("no");
    assert("yes"@ =~= flag_text(true));
    assert("no"@ =~= flag_text(false));
}

impl BinaryFields {
    /// The contents after a run of builder calls, made in order.
    pub open spec fn apply_all(self, edits: Seq<BinaryEdit>) -> Self
        decreases edits.len(),
    {
        if edits.len() == 0 {
            self
        } else {
            self.apply_all(edits.drop_last()).apply(edits.last())
        }
    }
}

proof fn lemma_binary_move_to_end(v: BinaryFields, p: Seq<BinaryEdit>, e: BinaryEdit, q: Seq<BinaryEdit>)
    requires
        forall|k: int| 0 <= k < q.len() ==> binary_edits_compatible(e, #[trigger] q[k]),
    ensures
        v.apply_all(p.push(e) + q) == v.apply_all((p + q).push(e)),
    decreases q.len(),
{
    if q.len() == 0 {
        assert(p.push(e) + q =~= (p + q).push(e));
    } else {
        let q1 = q.drop_last();
        let y = q.last();
        lemma_binary_move_to_end(v, p, e, q1);
        assert((p.push(e) + q).drop_last() =~= p.push(e) + q1);
        assert((p.push(e) + q).last() == y);
        assert((p + q1).push(e).drop_last() =~= p + q1);
        assert(binary_edits_compatible(e, q[q.len() - 1]));
        let x = v.apply_all(p + q1);
        lemma_binary_edits_commute(x, e, y);
        assert(v.apply_all(p.push(e) + q) == v.apply_all(p.push(e) + q1).apply(y));
        assert(v.apply_all((p + q1).push(e)) == x.apply(e));
        assert((p + q).drop_last() =~= p + q1);
        assert((p + q).last() == y);
        assert(v.apply_all(p + q) == x.apply(y));
        assert((p + q).push(e).drop_last() =~= p + q);
        assert((p + q).push(e).last() == e);
        assert(v.apply_all((p + q).push(e)) == v.apply_all(p + q).apply(e));
    }
}

/// The edits of a run that change the field at `t`, in the order they are made.
pub open spec fn binary_edits_on(edits: Seq<BinaryEdit>, t: int) -> Seq<BinaryEdit>
    decreases edits.len(),
{
    if edits.len() == 0 {
        Seq::empty()
    } else if binary_target(edits.last()) == t {
        binary_edits_on(edits.drop_last(), t).push(edits.last())
    } else {
        binary_edits_on(edits.drop_last(), t)
    }
}

/// The last edit of the field at `u` in a run, and what is left of the run without it.
proof fn lemma_binary_last_edit_on(a: Seq<BinaryEdit>, u: int) -> (j: int)
    requires
        binary_edits_on(a, u).len() > 0,
    ensures
        0 <= j < a.len(),
        a[j] == binary_edits_on(a, u).last(),
        forall|k: int| j < k < a.len() ==> binary_target(#[trigger] a[k]) != u,
        forall|s: int|
            #[trigger] binary_edits_on(a.take(j) + a.skip(j + 1), s) == if s == u {
                binary_edits_on(a, u).drop_last()
            } else {
                binary_edits_on(a, s)
            },
    decreases a.len(),
{
    let d = a.drop_last();
    if binary_target(a.last()) == u {
        let j = a.len() - 1;
        assert(a.take(j) + a.skip(j + 1) =~= d);
        assert(binary_edits_on(a, u).drop_last() =~= binary_edits_on(d, u));
        assert forall|s: int| #[trigger] binary_edits_on(a.take(j) + a.skip(j + 1), s) == if s == u {
            binary_edits_on(a, u).drop_last()
        } else {
            binary_edits_on(a, s)
        } by {
            assert(a.take(j) + a.skip(j + 1) == d);
        }
        j
    } else {
        let j = lemma_binary_last_edit_on(d, u);
        let rest = a.take(j) + a.skip(j + 1);
        assert(rest =~= (d.take(j) + d.skip(j + 1)).push(a.last()));
        assert(rest.drop_last() =~= d.take(j) + d.skip(j + 1));
        assert(rest.last() == a.last());
        assert forall|s: int| #[trigger] binary_edits_on(rest, s) == if s == u {
            binary_edits_on(a, u).drop_last()
        } else {
            binary_edits_on(a, s)
        } by {
            assert(binary_edits_on(d.take(j) + d.skip(j + 1), s) == if s == u {
                binary_edits_on(d, u).drop_last()
            } else {
                binary_edits_on(d, s)
            });
        }
        assert forall|k: int| j < k < a.len() implies binary_target(#[trigger] a[k]) != u by {
            if k < a.len() - 1 {
                assert(a[k] == d[k]);
            }
        }
        j
    }
}

/// Two runs of builder calls that make, field by field, the same calls in the same
/// order give the same record, however the calls on different fields interleave. So
/// calls may be reordered freely as long as no field is set twice to different values
/// and appends to one list keep their relative order.
pub proof fn lemma_binary_edits_interleave(v: BinaryFields, a: Seq<BinaryEdit>, b: Seq<BinaryEdit>)
    requires
        forall|t: int| #[trigger] binary_edits_on(a, t) == binary_edits_on(b, t),
    ensures
        v.apply_all(a) == v.apply_all(b),
    decreases b.len(),
{
    if b.len() == 0 {
        if a.len() > 0 {
            let t = binary_target(a.last());
            assert(binary_edits_on(a, t).len() > 0);
            assert(binary_edits_on(b, t).len() == 0);
        }
    } else {
        let y = b.last();
        let u = binary_target(y);
        let b1 = b.drop_last();
        assert(binary_edits_on(a, u) == binary_edits_on(b, u));
        assert(binary_edits_on(b, u) == binary_edits_on(b1, u).push(y));
        let j = lemma_binary_last_edit_on(a, u);
        let p = a.take(j);
        let q = a.skip(j + 1);
        assert(a =~= p.push(y) + q);
        assert forall|k: int| 0 <= k < q.len() implies binary_edits_compatible(y, #[trigger] q[k]) by {
            assert(q[k] == a[j + 1 + k]);
        }
        lemma_binary_move_to_end(v, p, y, q);
        assert forall|t: int| #[trigger] binary_edits_on(p + q, t) == binary_edits_on(b1, t) by {
            assert(binary_edits_on(a, t) == binary_edits_on(b, t));
            if t == u {
                assert(binary_edits_on(b, u).drop_last() =~= binary_edits_on(b1, u));
            }
        }
        lemma_binary_edits_interleave(v, p + q, b1);
        assert((p + q).push(y).drop_last() =~= p + q);
    }
}

/// Where a list's section stands among the sections of the rendered text.
pub open spec fn binary_list_target(r: Relation) -> int {
    12 + relation_index(r)
}

proof fn lemma_binary_edits_on_none(s: Seq<BinaryEdit>, t: int)
    requires
        forall|k: int| 0 <= k < s.len() ==> binary_target(#[trigger] s[k]) != t,
    ensures
        binary_edits_on(s, t) == Seq::<BinaryEdit>::empty(),
    decreases s.len(),
{
    if s.len() > 0 {
        let d = s.drop_last();
        assert forall|k: int| 0 <= k < d.len() implies binary_target(#[trigger] d[k]) != t by {
            assert(d[k] == s[k]);
        }
        lemma_binary_edits_on_none(d, t);
        assert(binary_target(s[s.len() - 1]) != t);
    }
}

proof fn lemma_binary_edits_on_uniform(s: Seq<BinaryEdit>, t: int, x: BinaryEdit)
    requires
        binary_target(x) == t,
        forall|k: int| 0 <= k < s.len() && binary_target(#[trigger] s[k]) == t ==> s[k] == x,
    ensures
        binary_edits_on(s, t) =~= Seq::new(s.to_multiset().count(x), |i: int| x),
    decreases s.len(),
{
    broadcast use group_to_multiset_ensures;

    if s.len() == 0 {
        assert(!s.contains(x));
    } else {
        let d = s.drop_last();
        assert forall|k: int| 0 <= k < d.len() && binary_target(#[trigger] d[k]) == t implies d[k] == x by {
            assert(d[k] == s[k]);
        }
        lemma_binary_edits_on_uniform(d, t, x);
        assert(s =~= d.push(s.last()));
        assert(s.to_multiset() =~= d.to_multiset().insert(s.last()));
        if binary_target(s.last()) == t {
            assert(s[s.len() - 1] == x);
        }
    }
}

/// Builder calls that set no field twice to different values, and that append to each
/// list in the same relative order, give the same record in whatever order they are
/// made.
pub proof fn lemma_binary_edits_reorder(v: BinaryFields, a: Seq<BinaryEdit>, b: Seq<BinaryEdit>)
    requires
        a.to_multiset() == b.to_multiset(),
        forall|i: int, j: int|
            0 <= i < a.len() && 0 <= j < a.len() && !(a[i] is Extend) ==> binary_edits_compatible(
                #[trigger] a[i],
                #[trigger] a[j],
            ),
        forall|r: Relation| #[trigger]
            binary_edits_on(a, binary_list_target(r)) == binary_edits_on(b, binary_list_target(r)),
    ensures
        v.apply_all(a) == v.apply_all(b),
{
    broadcast use group_to_multiset_ensures;

    assert forall|t: int| #[trigger] binary_edits_on(a, t) == binary_edits_on(b, t) by {
        if exists|r: Relation| t == binary_list_target(r) {
            let r = choose|r: Relation| t == binary_list_target(r);
            assert(binary_edits_on(a, binary_list_target(r)) == binary_edits_on(b, binary_list_target(r)));
        } else {
            assert forall|m: int| 0 <= m < b.len() && binary_target(#[trigger] b[m]) == t implies a.contains(
                b[m],
            ) by {
                assert(b.contains(b[m]));
                assert(b.to_multiset().count(b[m]) > 0);
            }
            if exists|k: int| 0 <= k < a.len() && binary_target(#[trigger] a[k]) == t {
                let k = choose|k: int| 0 <= k < a.len() && binary_target(#[trigger] a[k]) == t;
                let x = a[k];
                if x is Extend {
                    assert(t == binary_list_target(x->Extend_0));
                }
                assert forall|m: int| 0 <= m < a.len() && binary_target(#[trigger] a[m]) == t implies a[m]
                    == x by {
                    assert(binary_edits_compatible(a[k], a[m]));
                }
                lemma_binary_edits_on_uniform(a, t, x);
                assert forall|m: int| 0 <= m < b.len() && binary_target(#[trigger] b[m]) == t implies b[m]
                    == x by {
                    assert(a.contains(b[m]));
                    let m2 = choose|m2: int| 0 <= m2 < a.len() && a[m2] == b[m];
                    assert(binary_target(a[m2]) == t);
                }
                lemma_binary_edits_on_uniform(b, t, x);
            } else {
                lemma_binary_edits_on_none(a, t);
                assert forall|m: int| 0 <= m < b.len() implies binary_target(#[trigger] b[m]) != t by {
                    if binary_target(b[m]) == t {
                        assert(a.contains(b[m]));
                        let m2 = choose|m2: int| 0 <= m2 < a.len() && a[m2] == b[m];
                        assert(binary_target(a[m2]) == t);
                    }
                }
                lemma_binary_edits_on_none(b, t);
            }
        }
    }
    lemma_binary_edits_interleave(v, a, b);
}

} // verus!
