//! The second catalog level: the releases of one product line, each with the
//! link to the catalog of its components.

use crate::error::Error;
use crate::lookup::{is_first_at, keys, keys_of, position, views, Keyed};
use crate::sdkm::{join_url, resolved_url};
use vstd::prelude::*;

verus! {

/// The second-level catalog.
#[derive(Debug, Clone, PartialEq, Eq)]
pub struct L2Repo {
    /// The URL the catalog was read from; relative links are resolved against it.
    pub source: Option<String>,
    pub information: L2Information,
    pub releases: Vec<L2Release>,
}

/// What the second-level catalog says about itself.
#[derive(Debug, Clone, PartialEq, Eq)]
pub struct L2Information {
    pub title: String,
    pub file_version: String,
    pub file_revision: u8,
    pub server_configuration_build: String,
}

/// One release of a product line.
#[derive(Debug, Clone, PartialEq, Eq)]
pub struct L2Release {
    pub product_category: String,
    pub target_os: String,
    pub server_type: Vec<String>,
    pub id: Option<String>,
    pub title: String,
    pub release_version: String,
    pub release_edition: String,
    pub release_edition_message: String,
    pub release_build: String,
    pub release_revision: u8,
    pub min_sdkm_ver: String,
    pub release_message: String,
    pub show_in_main_list: Option<bool>,
    pub release_notes: ReleaseNote,
    pub pid_group_id: String,
    /// The program identifier, kept as the JSON text that the catalog holds.
    pub devzone_program_id: String,
    pub target_hw: Vec<String>,
    pub operating_systems_support: Vec<String>,
    pub operating_systems_support_warning: Vec<String>,
    pub estimate_target_disk_size_in_gb: String,
    pub is_install_on_target_enabled: Option<bool>,
    pub int_hw_support: Option<bool>,
    /// Where the catalog of the release's components is, relative to this catalog.
    pub comp_repo_url: Option<String>,
}

/// Where the notes on a release are found.
#[derive(Debug, Clone, PartialEq, Eq)]
pub struct ReleaseNote {
    pub release_notes_title: String,
    pub release_notes_url: String,
    pub release_notes_tooltip: String,
    pub release_notes_download: bool,
}

impl Keyed for L2Release {
    open spec fn key(&self) -> Seq<char> {
        self.title@
    }

    fn key_text(&self) -> (text: &str) {
        self.title.as_str()
    }
}

/// Where the catalog of a release's components is.
pub enum ComponentCatalog {
    /// At this URL.
    At(Seq<char>),
    /// The release names none.
    Unnamed,
    /// The release names one by a link that cannot be resolved.
    Unresolved,
}

impl L2Release {
    /// Where the catalog of the release's components is, for a release
    /// catalog read from `base`.
    pub open spec fn component_catalog(&self, base: Seq<char>) -> ComponentCatalog {
        match self.comp_repo_url {
            None => ComponentCatalog::Unnamed,
            Some(link) => match resolved_url(base, link@) {
                Some(text) => ComponentCatalog::At(text),
                None => ComponentCatalog::Unresolved,
            },
        }
    }

    /// The URL of the catalog of the release's components, given the URL of
    /// this catalog.
    ///
    /// Fails with `L2RepoReleaseMissingUrl`, which holds the release's title,
    /// where the release names no such catalog, and with `InvalidUrl` where
    /// the link cannot be resolved.
    pub fn get_url(&self, base: &str) -> (url: Result<String, Error>)
        ensures
            match url {
                Ok(text) => self.component_catalog(base@) == ComponentCatalog::At(text@),
                Err(Error::L2RepoReleaseMissingUrl(title)) => self.component_catalog(base@)
                    is Unnamed && title@ == self.title@,
                Err(e) => self.component_catalog(base@) is Unresolved && e is InvalidUrl,
            },
    {
        match &self.comp_repo_url {
            Some(link) => join_url(base, link.as_str()),
            None => Err(Error::L2RepoReleaseMissingUrl(self.title.clone())),
        }
    }
}

impl L2Repo {
    /// The titles of the releases, in catalog order.
    pub open spec fn release_titles(&self) -> Seq<Seq<char>> {
        keys_of(self.releases@)
    }

    /// The titles of the releases, in catalog order.
    pub fn releases(&self) -> (titles: Vec<String>)
        ensures
            views(titles@) == self.release_titles(),
    {
        keys(&self.releases)
    }

    /// The first release with the title `title`.
    pub fn get_release(&self, title: &str) -> (found: Option<&L2Release>)
        ensures
            match found {
                Some(release) => exists|i: int|
                    is_first_at(self.release_titles(), title@, i) && *release
                        == self.releases@[i],
                None => !self.release_titles().contains(title@),
            },
    {
        match position(&self.releases, title) {
            Some(i) => Some(&self.releases[i]),
            None => None,
        }
    }

    /// The URL of the component catalog of the release with the title `title`.
    ///
    /// Fails with `InvalidRelease`, which holds the title asked for and the
    /// titles there are, where there is no such release; otherwise as
    /// `L2Release::get_url` does.
    pub fn get_release_url(&self, title: &str) -> (url: Result<String, Error>)
        requires
            self.release_titles().contains(title@) ==> self.source is Some,
        ensures
            match url {
                Ok(text) => exists|i: int|
                    is_first_at(self.release_titles(), title@, i)
                        && self.releases@[i].component_catalog(self.source->0@)
                        == ComponentCatalog::At(text@),
                Err(Error::InvalidRelease(asked, legal)) => {
                    &&& !self.release_titles().contains(title@)
                    &&& asked@ == title@
                    &&& views(legal@) == self.release_titles()
                },
                Err(Error::L2RepoReleaseMissingUrl(named)) => exists|i: int|
                    is_first_at(self.release_titles(), title@, i)
                        && self.releases@[i].component_catalog(self.source->0@) is Unnamed
                        && named@ == title@,
                Err(e) => e is InvalidUrl && exists|i: int|
                    is_first_at(self.release_titles(), title@, i)
                        && self.releases@[i].component_catalog(self.source->0@) is Unresolved,
            },
    {
        match self.get_release(title) {
            Some(release) => {
                proof {
                    let i = choose|i: int| is_first_at(self.release_titles(), title@, i);
                    assert(self.release_titles()[i] == title@);
                }
                let base = self.source.as_ref().unwrap();
                release.get_url(base.as_str())
            },
            None => Err(Error::InvalidRelease(title.to_owned(), self.releases())),
        }
    }
}

} // verus!
