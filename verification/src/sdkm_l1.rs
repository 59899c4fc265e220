//! The first catalog level: product categories and, for each target system,
//! the link to the index of its releases.

use crate::error::Error;
use crate::lookup::{is_first_at, keys, keys_of, position, views, Keyed};
use crate::sdkm::{join_url, resolved_url};
use vstd::prelude::*;

verus! {

/// The first-level catalog.
#[derive(Debug, Clone, PartialEq, Eq)]
pub struct L1Repo {
    /// The URL the catalog was read from; relative links are resolved against it.
    pub source: Option<String>,
    pub information: L1Information,
    pub product_categories: Vec<L1ProductCategory>,
}

/// What the first-level catalog says about itself.
#[derive(Debug, Clone, PartialEq, Eq)]
pub struct L1Information {
    pub title: String,
    pub version: String,
    pub revision: u8,
    pub server_configuration_build: String,
}

/// A family of products, with one product line for each target system.
#[derive(Debug, Clone, PartialEq, Eq)]
pub struct L1ProductCategory {
    pub category_name: String,
    pub product_lines: Vec<L1ProductLine>,
}

/// The products for one target system.
#[derive(Debug, Clone, PartialEq, Eq)]
pub struct L1ProductLine {
    pub target_os: String,
    pub target_type: String,
    pub server_type: Vec<String>,
    /// Where the index of this line's releases is, relative to the catalog.
    pub releases_index_url: String,
}

impl Keyed for L1ProductCategory {
    open spec fn key(&self) -> Seq<char> {
        self.category_name@
    }

    fn key_text(&self) -> (text: &str) {
        self.category_name.as_str()
    }
}

impl Keyed for L1ProductLine {
    open spec fn key(&self) -> Seq<char> {
        self.target_os@
    }

    fn key_text(&self) -> (text: &str) {
        self.target_os.as_str()
    }
}

impl L1ProductLine {
    /// The URL of this line's release index, given the URL of the catalog.
    pub fn get_url(&self, base: &str) -> (url: Result<String, Error>)
        ensures
            match url {
                Ok(text) => resolved_url(base@, self.releases_index_url@) == Some(text@),
                Err(e) => resolved_url(base@, self.releases_index_url@) is None && e is InvalidUrl,
            },
    {
        join_url(base, self.releases_index_url.as_str())
    }
}

impl L1ProductCategory {
    /// The target systems of this category, in catalog order.
    pub open spec fn line_names(&self) -> Seq<Seq<char>> {
        keys_of(self.product_lines@)
    }

    /// The target systems of this category, in catalog order.
    pub fn product_lines(&self) -> (names: Vec<String>)
        ensures
            views(names@) == self.line_names(),
    {
        keys(&self.product_lines)
    }

    /// The first product line for the target system `target_os`.
    pub fn get_product_line(&self, target_os: &str) -> (found: Option<&L1ProductLine>)
        ensures
            match found {
                Some(line) => exists|i: int|
                    is_first_at(self.line_names(), target_os@, i) && *line
                        == self.product_lines@[i],
                None => !self.line_names().contains(target_os@),
            },
    {
        match position(&self.product_lines, target_os) {
            Some(i) => Some(&self.product_lines[i]),
            None => None,
        }
    }

    /// The URL of the release index for `target_os`, given the catalog's URL.
    ///
    /// Fails with `InvalidTargetOS`, which holds the name asked for and the
    /// names there are, when the category has no such line; with `InvalidUrl`
    /// when the line's link cannot be resolved.
    pub fn get_product_line_url(&self, base: &str, target_os: &str) -> (url: Result<String, Error>)
        ensures
            match url {
                Ok(text) => exists|i: int|
                    is_first_at(self.line_names(), target_os@, i) && resolved_url(
                        base@,
                        self.product_lines@[i].releases_index_url@,
                    ) == Some(text@),
                Err(Error::InvalidTargetOS(name, legal)) => {
                    &&& !self.line_names().contains(target_os@)
                    &&& name@ == target_os@
                    &&& views(legal@) == self.line_names()
                },
                Err(e) => e is InvalidUrl && exists|i: int|
                    is_first_at(self.line_names(), target_os@, i) && resolved_url(
                        base@,
                        self.product_lines@[i].releases_index_url@,
                    ) is None,
            },
    {
        match self.get_product_line(target_os) {
            Some(line) => line.get_url(base),
            None => Err(Error::InvalidTargetOS(target_os.to_owned(), self.product_lines())),
        }
    }
}

impl L1Repo {
    /// The names of the product categories, in catalog order.
    pub open spec fn category_names(&self) -> Seq<Seq<char>> {
        keys_of(self.product_categories@)
    }

    /// The names of the product categories, in catalog order.
    pub fn product_categories(&self) -> (names: Vec<String>)
        ensures
            views(names@) == self.category_names(),
    {
        keys(&self.product_categories)
    }

    /// The first product category named `product_category`.
    pub fn get_product_category(&self, product_category: &str) -> (found: Option<
        &L1ProductCategory,
    >)
        ensures
            match found {
                Some(category) => exists|i: int|
                    is_first_at(self.category_names(), product_category@, i) && *category
                        == self.product_categories@[i],
                None => !self.category_names().contains(product_category@),
            },
    {
        match position(&self.product_categories, product_category) {
            Some(i) => Some(&self.product_categories[i]),
            None => None,
        }
    }

    /// The URL of the release index for a product category and a target system.
    ///
    /// Fails with `InvalidProductCategory` when there is no such category,
    /// with `InvalidTargetOS` when the category has no line for the target
    /// system, and with `InvalidUrl` when the line's link cannot be resolved
    /// against the catalog's own URL.
    pub fn get_product_url(&self, product_category: &str, target_os: &str) -> (url: Result<
        String,
        Error,
    >)
        requires
            self.category_names().contains(product_category@) ==> self.source is Some,
        ensures
            match url {
                Ok(text) => exists|i: int, j: int|
                    {
                        &&& is_first_at(self.category_names(), product_category@, i)
                        &&& is_first_at(self.product_categories@[i].line_names(), target_os@, j)
                        &&& resolved_url(
                            self.source->0@,
                            self.product_categories@[i].product_lines@[j].releases_index_url@,
                        ) == Some(text@)
                    },
                Err(Error::InvalidProductCategory(name, legal)) => {
                    &&& !self.category_names().contains(product_category@)
                    &&& name@ == product_category@
                    &&& views(legal@) == self.category_names()
                },
                Err(Error::InvalidTargetOS(name, legal)) => exists|i: int|
                    {
                        &&& is_first_at(self.category_names(), product_category@, i)
                        &&& !self.product_categories@[i].line_names().contains(target_os@)
                        &&& name@ == target_os@
                        &&& views(legal@) == self.product_categories@[i].line_names()
                    },
                Err(e) => e is InvalidUrl && exists|i: int, j: int|
                    {
                        &&& is_first_at(self.category_names(), product_category@, i)
                        &&& is_first_at(self.product_categories@[i].line_names(), target_os@, j)
                        &&& resolved_url(
                            self.source->0@,
                            self.product_categories@[i].product_lines@[j].releases_index_url@,
                        ) is None
                    },
            },
    {
        match self.get_product_category(product_category) {
            Some(category) => {
                proof {
                    let i = choose|i: int|
                        is_first_at(self.category_names(), product_category@, i);
                    assert(self.category_names()[i] == product_category@);
                }
                let base = self.source.as_ref().unwrap();
                category.get_product_line_url(base.as_str(), target_os)
            },
            None => Err(
                Error::InvalidProductCategory(
                    product_category.to_owned(),
                    self.product_categories(),
                ),
            ),
        }
    }
}

} // verus!
