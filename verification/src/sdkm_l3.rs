//! The third catalog level: the sections, groups and components of one
//! release, and the files that each component is downloaded as.

use crate::lookup::{is_first_at, keys, keys_of, position, views, Keyed};
use crate::names::{lemma_union_over_empty, lemma_union_over_push, union_over, NameMap, NameSet};
use crate::sdkm_l2::L2Release;
use vstd::prelude::*;

verus! {

/// The third-level catalog.
#[derive(Debug, Clone)]
pub struct L3Repo {
    /// The URL the catalog was read from; relative links are resolved against it.
    pub source: Option<String>,
    pub information: L3Information,
    pub comp_directory: String,
    pub sections: Vec<L3Section>,
    /// The groups, each under its identifier.
    pub groups: NameMap<L3Group>,
    /// The components, each under its identifier.
    pub components: NameMap<L3Component>,
}

/// What the third-level catalog says about itself.
#[derive(Debug, Clone, PartialEq, Eq)]
pub struct L3Information {
    pub schema_url: String,
    pub schema_version: String,
    pub file_version: String,
    pub release: L2Release,
    pub target_access_info: L3TargetAccessInfo,
}

/// How the target device is reached.
#[derive(Debug, Clone, PartialEq, Eq)]
pub struct L3TargetAccessInfo {
    pub user: String,
    pub password: String,
    pub host: String,
    pub port: String,
}

/// A section: some groups under one heading.
#[derive(Debug, Clone, PartialEq, Eq)]
pub struct L3Section {
    pub id: String,
    pub name: String,
    pub title: String,
    pub selectable: Option<bool>,
    pub selected: Option<bool>,
    pub displayed: Option<bool>,
    /// The identifiers of the section's groups.
    pub groups: Vec<String>,
}

/// A group: components that are installed together.
#[derive(Debug, Clone, PartialEq, Eq)]
pub struct L3Group {
    pub id: String,
    pub name: String,
    pub group_type: String,
    pub installed_on: String,
    pub description: String,
    pub flash_message: Option<String>,
    pub versions: Vec<L3GroupVersion>,
}

/// One version of a group, with the components that make it up.
#[derive(Debug, Clone, PartialEq, Eq)]
pub struct L3GroupVersion {
    pub version: String,
    pub components: Vec<L3GroupComponentVersion>,
}

/// A component of a group, in the version that the group takes it in.
#[derive(Debug, Clone, PartialEq, Eq)]
pub struct L3GroupComponentVersion {
    pub id: String,
    pub version: String,
}

/// A component: one piece of software.
#[derive(Debug, Clone, PartialEq, Eq)]
pub struct L3Component {
    pub id: String,
    pub name: String,
    pub description: String,
    pub comp_type: String,
    pub is_visible: bool,
    pub license_id: Option<String>,
    pub is_detectable_install: bool,
    pub is_install_path_customizable: bool,
    pub versions: Vec<L3ComponentVersion>,
}

/// One version of a component, with the files it is downloaded as.
#[derive(Debug, Clone, PartialEq, Eq)]
pub struct L3ComponentVersion {
    pub version: String,
    pub operating_systems: Vec<String>,
    /// The installed size in megabytes, as the text in which it is shown.
    pub install_size_mb: String,
    pub download_files: Vec<L3ComponentVersionDownloadFile>,
    pub target_ids: Vec<String>,
    /// The dependencies, kept as the JSON text that the catalog holds.
    pub dependencies: String,
    /// The outside dependencies, kept as the JSON text that the catalog holds.
    pub external_dependencies: String,
}

/// The forms in which a catalog writes a dependency.
#[derive(Debug, Clone, PartialEq, Eq)]
pub enum L3ComponentDependency {
    Plain(String),
    List(Vec<Vec<(String, String)>>),
    Mapping(Vec<(String, String)>),
}

/// A file of a component version: where it is downloaded from, under what
/// name it is kept, and what its checksum is.
#[derive(Debug, Clone, PartialEq, Eq)]
pub struct L3ComponentVersionDownloadFile {
    /// Where the file is, relative to the catalog.
    pub url: String,
    pub file_name: String,
    pub size: u32,
    pub checksum: String,
    pub checksum_type: String,
    pub install_parameters: L3ComponentInstallParameters,
}

/// How a downloaded file is installed.
#[derive(Debug, Clone, PartialEq, Eq)]
pub struct L3ComponentInstallParameters {
    pub install_type: String,
    pub additional_parameters: L3ComponentAdditionalParameters,
}

/// Further parameters of an installation.
#[derive(Debug, Clone, PartialEq, Eq)]
pub struct L3ComponentAdditionalParameters {
    pub packages_info: Option<Vec<Vec<(String, String)>>>,
    pub apt_switch: Option<String>,
    pub post_uninstall_commands: Option<Vec<Vec<(String, String)>>>,
}

impl Keyed for L3Section {
    open spec fn key(&self) -> Seq<char> {
        self.id@
    }

    fn key_text(&self) -> (text: &str) {
        self.id.as_str()
    }
}

impl Keyed for L3GroupComponentVersion {
    open spec fn key(&self) -> Seq<char> {
        self.id@
    }

    fn key_text(&self) -> (text: &str) {
        self.id.as_str()
    }
}

impl L3Repo {
    /// The tables of groups and of components are in order.
    pub open spec fn wf(&self) -> bool {
        self.groups.wf() && self.components.wf()
    }

    /// The identifiers of the sections, in catalog order.
    pub open spec fn section_ids(&self) -> Seq<Seq<char>> {
        keys_of(self.sections@)
    }

    /// The components of a group: those of its first version. A group that
    /// is not there, or that has no version, has none.
    pub open spec fn group_components(&self, id: Seq<char>) -> Set<Seq<char>> {
        if self.groups@.contains_key(id) && self.groups@[id].versions.len() > 0 {
            keys_of(self.groups@[id].versions[0].components@).to_set()
        } else {
            Set::empty()
        }
    }

    /// The components of a group, as a function of the group's identifier.
    pub open spec fn of_group(&self) -> spec_fn(Seq<char>) -> Set<Seq<char>> {
        |id: Seq<char>| self.group_components(id)
    }

    /// The components of a section: those of the groups of the first section
    /// with that identifier. A section that is not there has none.
    pub open spec fn section_components(&self, id: Seq<char>) -> Set<Seq<char>> {
        if self.section_ids().contains(id) {
            let at = choose|i: int| is_first_at(self.section_ids(), id, i);
            union_over(views(self.sections@[at].groups@), self.of_group())
        } else {
            Set::empty()
        }
    }

    /// The components of a section, as a function of the section's identifier.
    pub open spec fn of_section(&self) -> spec_fn(Seq<char>) -> Set<Seq<char>> {
        |id: Seq<char>| self.section_components(id)
    }

    /// The identifiers of the sections, in catalog order.
    pub fn sections(&self) -> (ids: Vec<String>)
        ensures
            views(ids@) == self.section_ids(),
    {
        keys(&self.sections)
    }

    /// The first section with the identifier `id`.
    pub fn get_section(&self, id: &str) -> (found: Option<&L3Section>)
        ensures
            match found {
                Some(section) => exists|i: int|
                    is_first_at(self.section_ids(), id@, i) && *section == self.sections@[i],
                None => !self.section_ids().contains(id@),
            },
    {
        match position(&self.sections, id) {
            Some(i) => Some(&self.sections[i]),
            None => None,
        }
    }

    /// The identifiers of the groups, each once, in the order of the table.
    pub fn groups(&self) -> (ids: Vec<String>)
        requires
            self.wf(),
        ensures
            views(ids@) == self.groups.key_seq(),
            views(ids@).no_duplicates(),
            views(ids@).to_set() == self.groups@.dom(),
    {
        self.groups.keys()
    }

    /// The group with the identifier `name`.
    pub fn get_group(&self, name: &str) -> (found: Option<&L3Group>)
        requires
            self.wf(),
        ensures
            match found {
                Some(group) => self.groups@.contains_key(name@) && *group == self.groups@[name@],
                None => !self.groups@.contains_key(name@),
            },
    {
        self.groups.get(name)
    }

    /// The identifiers of the components, each once, in the order of the table.
    pub fn components(&self) -> (ids: Vec<String>)
        requires
            self.wf(),
        ensures
            views(ids@) == self.components.key_seq(),
            views(ids@).no_duplicates(),
            views(ids@).to_set() == self.components@.dom(),
    {
        self.components.keys()
    }

    /// The component with the identifier `id`.
    pub fn get_component(&self, id: &str) -> (found: Option<&L3Component>)
        requires
            self.wf(),
        ensures
            match found {
                Some(component) => self.components@.contains_key(id@) && *component
                    == self.components@[id@],
                None => !self.components@.contains_key(id@),
            },
    {
        self.components.get(id)
    }

    /// The identifiers of the components of the group `id`, taken from the
    /// group's first version.
    pub fn get_components_for_group(&self, id: &str) -> (components: NameSet)
        requires
            self.wf(),
        ensures
            components.wf(),
            components@ == self.group_components(id@),
    {
        let mut components = NameSet::new();
        match self.get_group(id) {
            Some(group) => {
                if group.versions.len() > 0 {
                    let ids = keys(&group.versions[0].components);
                    components.extend_from(&ids);
                    assert(components@ =~= self.group_components(id@));
                }
            },
            None => {},
        }
        components
    }

    /// The identifiers of the components of the groups of the section `id`.
    pub fn get_components_for_section(&self, id: &str) -> (components: NameSet)
        requires
            self.wf(),
        ensures
            components.wf(),
            components@ == self.section_components(id@),
    {
        match position(&self.sections, id) {
            Some(at) => {
                proof {
                    assert(self.section_ids()[at as int] == id@);
                    let chosen = choose|i: int| is_first_at(self.section_ids(), id@, i);
                    assert(chosen == at);
                }
                self.components_of_groups(&self.sections[at].groups)
            },
            None => NameSet::new(),
        }
    }

    /// The identifiers of the components of the groups `ids`, taken together.
    pub fn components_of_groups(&self, ids: &Vec<String>) -> (components: NameSet)
        requires
            self.wf(),
        ensures
            components.wf(),
            components@ == union_over(views(ids@), self.of_group()),
    {
        let ghost all = views(ids@);
        let mut components = NameSet::new();
        let mut k: usize = 0;
        proof {
            lemma_union_over_empty(self.of_group());
            assert(all.take(0) =~= Seq::<Seq<char>>::empty());
        }
        while k < ids.len()
            invariant
                k <= ids.len(),
                self.wf(),
                all == views(ids@),
                components.wf(),
                components@ == union_over(all.take(k as int), self.of_group()),
            decreases ids.len() - k,
        {
            let more = self.get_components_for_group(ids[k].as_str());
            components.extend(&more);
            proof {
                assert(all.take(k as int + 1) =~= all.take(k as int).push(all[k as int]));
                lemma_union_over_push(all.take(k as int), all[k as int], self.of_group());
            }
            k = k + 1;
        }
        assert(all.take(k as int) =~= all);
        components
    }

    /// The identifiers of the components of the sections `ids`, taken together.
    pub fn components_of_sections(&self, ids: &Vec<String>) -> (components: NameSet)
        requires
            self.wf(),
        ensures
            components.wf(),
            components@ == union_over(views(ids@), self.of_section()),
    {
        let ghost all = views(ids@);
        let mut components = NameSet::new();
        let mut k: usize = 0;
        proof {
            lemma_union_over_empty(self.of_section());
            assert(all.take(0) =~= Seq::<Seq<char>>::empty());
        }
        while k < ids.len()
            invariant
                k <= ids.len(),
                self.wf(),
                all == views(ids@),
                components.wf(),
                components@ == union_over(all.take(k as int), self.of_section()),
            decreases ids.len() - k,
        {
            let more = self.get_components_for_section(ids[k].as_str());
            components.extend(&more);
            proof {
                assert(all.take(k as int + 1) =~= all.take(k as int).push(all[k as int]));
                lemma_union_over_push(all.take(k as int), all[k as int], self.of_section());
            }
            k = k + 1;
        }
        assert(all.take(k as int) =~= all);
        components
    }
}

} // verus!
