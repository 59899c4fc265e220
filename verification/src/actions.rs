//! What the user can ask for, and on which parts of the catalog.

use crate::cache::{join_path, joined_path};
use crate::error::Error;
use crate::integrity::{OutcomeView, VerificationOutcome};
use crate::lookup::{is_first_at, keys, keys_of, views};
use crate::names::{union_over, NameSet};
use crate::sdkm::{join_url, resolved_url};
use crate::sdkm_l3::{
    L3Component, L3ComponentVersion, L3ComponentVersionDownloadFile, L3Group, L3GroupVersion,
    L3Repo, L3Section,
};
use vstd::prelude::*;

verus! {

/// A request of the user, with the sections, groups and components it names.
#[derive(Debug, Clone, PartialEq, Eq)]
pub enum Action {
    /// Describe sections, groups and components.
    Show { section: Vec<String>, group: Vec<String>, component: Vec<String> },
    /// Download the packages of the named parts.
    Fetch { section: Vec<String>, group: Vec<String>, component: Vec<String> },
    /// Check the downloaded packages of the named parts.
    Verify { section: Vec<String>, group: Vec<String>, component: Vec<String> },
}

impl Action {
    /// The sections that the request names.
    pub open spec fn sections(&self) -> Vec<String> {
        match *self {
            Action::Show { section, .. } => section,
            Action::Fetch { section, .. } => section,
            Action::Verify { section, .. } => section,
        }
    }

    /// The groups that the request names.
    pub open spec fn groups(&self) -> Vec<String> {
        match *self {
            Action::Show { group, .. } => group,
            Action::Fetch { group, .. } => group,
            Action::Verify { group, .. } => group,
        }
    }

    /// The components that the request names.
    pub open spec fn components(&self) -> Vec<String> {
        match *self {
            Action::Show { component, .. } => component,
            Action::Fetch { component, .. } => component,
            Action::Verify { component, .. } => component,
        }
    }

    /// The sections that the request names.
    pub fn get_sections(&self) -> (sections: &Vec<String>)
        ensures
            *sections == self.sections(),
    {
        match self {
            Action::Show { section, .. } => section,
            Action::Fetch { section, .. } => section,
            Action::Verify { section, .. } => section,
        }
    }

    /// The groups that the request names.
    pub fn get_groups(&self) -> (groups: &Vec<String>)
        ensures
            *groups == self.groups(),
    {
        match self {
            Action::Show { group, .. } => group,
            Action::Fetch { group, .. } => group,
            Action::Verify { group, .. } => group,
        }
    }

    /// The components that the request names.
    pub fn get_components(&self) -> (components: &Vec<String>)
        ensures
            *components == self.components(),
    {
        match self {
            Action::Show { component, .. } => component,
            Action::Fetch { component, .. } => component,
            Action::Verify { component, .. } => component,
        }
    }
}

/// The components that a request is about: those it names, those of the
/// sections it names, and those of the groups it names.
pub open spec fn wanted_components(l3repo: L3Repo, action: Action) -> Set<Seq<char>> {
    views(action.components()@).to_set().union(
        union_over(views(action.sections()@), l3repo.of_section()),
    ).union(union_over(views(action.groups()@), l3repo.of_group()))
}

/// The identifiers of the components that a request is about.
pub fn get_component_ids(l3repo: &L3Repo, action_data: &Action) -> (ids: NameSet)
    requires
        l3repo.wf(),
    ensures
        ids.wf(),
        ids@ == wanted_components(*l3repo, *action_data),
{
    let mut ids = NameSet::new();
    ids.extend_from(action_data.get_components());
    assert(ids@ =~= views(action_data.components()@).to_set());
    let of_sections = l3repo.components_of_sections(action_data.get_sections());
    ids.extend(&of_sections);
    let of_groups = l3repo.components_of_groups(action_data.get_groups());
    ids.extend(&of_groups);
    ids
}

/// What comes of taking `ids` one after the other: the items that `step`
/// gives for each, up to and with those of the first identifier at which
/// `step` fails, and that identifier, if there is one.
pub open spec fn collected<T>(ids: Seq<Seq<char>>, step: spec_fn(Seq<char>) -> (Seq<T>, bool)) -> (
    Seq<T>,
    Option<Seq<char>>,
)
    decreases ids.len(),
{
    if ids.len() == 0 {
        (Seq::empty(), None)
    } else if step(ids[0]).1 {
        (step(ids[0]).0, Some(ids[0]))
    } else {
        let rest = collected(ids.drop_first(), step);
        (step(ids[0]).0 + rest.0, rest.1)
    }
}

/// One step of a collection: what comes of the identifiers from `k` on
/// follows from what comes of those after it.
proof fn lemma_collected_step<T>(
    ids: Seq<Seq<char>>,
    step: spec_fn(Seq<char>) -> (Seq<T>, bool),
    k: int,
)
    requires
        0 <= k < ids.len(),
    ensures
        collected(ids.skip(k), step) == if step(ids[k]).1 {
            (step(ids[k]).0, Some(ids[k]))
        } else {
            (
                step(ids[k]).0 + collected(ids.skip(k + 1), step).0,
                collected(ids.skip(k + 1), step).1,
            )
        },
{
    assert(ids.skip(k)[0] == ids[k]);
    assert(ids.skip(k).drop_first() =~= ids.skip(k + 1));
}

/// A file to verify: where it lies, and the checksum that the catalog
/// gives for it.
#[derive(Debug, Clone, PartialEq, Eq)]
pub struct FileCheck {
    pub path: String,
    pub checksum_type: String,
    pub checksum: String,
}

/// A file to verify, as a mathematical value.
pub struct FileCheckView {
    pub path: Seq<char>,
    pub checksum_type: Seq<char>,
    pub checksum: Seq<char>,
}

impl View for FileCheck {
    type V = FileCheckView;

    open spec fn view(&self) -> FileCheckView {
        FileCheckView {
            path: self.path@,
            checksum_type: self.checksum_type@,
            checksum: self.checksum@,
        }
    }
}

/// The views of a list of files to verify.
pub open spec fn check_views(checks: Seq<FileCheck>) -> Seq<FileCheckView> {
    Seq::new(checks.len(), |i: int| checks[i]@)
}

/// The files of a component version.
pub open spec fn files_of() -> spec_fn(L3ComponentVersion) -> Seq<L3ComponentVersionDownloadFile> {
    |version: L3ComponentVersion| version.download_files@
}

/// The check of a catalog file that is kept in `cache_dir`.
pub open spec fn check_in(cache_dir: Seq<char>) -> spec_fn(
    L3ComponentVersionDownloadFile,
) -> FileCheckView {
    |file: L3ComponentVersionDownloadFile|
        FileCheckView {
            path: joined_path(cache_dir, file.file_name@),
            checksum_type: file.checksum_type@,
            checksum: file.checksum@,
        }
}

/// The checks of all files of all versions of a component, in catalog order.
pub open spec fn component_checks(component: L3Component, cache_dir: Seq<char>) -> Seq<
    FileCheckView,
> {
    component.versions@.flat_map(files_of()).map_values(check_in(cache_dir))
}

/// The files to verify for the component `component_id`: every file of every
/// version, looked for in `cache_dir` under its file name.
///
/// Fails with `InvalidComponent` where there is no such component.
pub fn files_to_verify(l3repo: &L3Repo, component_id: &str, cache_dir: &str) -> (checks: Result<
    Vec<FileCheck>,
    Error,
>)
    requires
        l3repo.wf(),
    ensures
        match checks {
            Ok(list) => l3repo.components@.contains_key(component_id@) && check_views(list@)
                == component_checks(l3repo.components@[component_id@], cache_dir@),
            Err(Error::InvalidComponent(id)) => !l3repo.components@.contains_key(component_id@)
                && id@ == component_id@,
            Err(_) => false,
        },
{
    let component = match l3repo.get_component(component_id) {
        Some(found) => found,
        None => {
            return Err(Error::InvalidComponent(component_id.to_owned()));
        },
    };
    let ghost versions = component.versions@;
    let mut list: Vec<FileCheck> = Vec::new();
    let mut v: usize = 0;
    proof {
        assert(versions.take(0).flat_map(files_of()) =~= Seq::empty());
        assert(check_views(list@) =~= versions.take(0).flat_map(files_of()).map_values(
            check_in(cache_dir@),
        ));
    }
    while v < component.versions.len()
        invariant
            v <= component.versions.len(),
            versions == component.versions@,
            check_views(list@) == versions.take(v as int).flat_map(files_of()).map_values(
                check_in(cache_dir@),
            ),
        decreases component.versions.len() - v,
    {
        let files = &component.versions[v].download_files;
        let ghost done = versions.take(v as int).flat_map(files_of());
        let mut f: usize = 0;
        assert(done + files@.take(0) =~= done);
        while f < files.len()
            invariant
                f <= files.len(),
                check_views(list@) == (done + files@.take(f as int)).map_values(
                    check_in(cache_dir@),
                ),
            decreases files.len() - f,
        {
            let file = &files[f];
            let ghost before = check_views(list@);
            list.push(
                FileCheck {
                    path: join_path(cache_dir, file.file_name.as_str()),
                    checksum_type: file.checksum_type.clone(),
                    checksum: file.checksum.clone(),
                },
            );
            proof {
                let shorter = done + files@.take(f as int);
                assert(done + files@.take(f as int + 1) =~= shorter.push(files@[f as int]));
                shorter.lemma_push_map_commute(check_in(cache_dir@), files@[f as int]);
                assert(check_views(list@) =~= before.push(check_in(cache_dir@)(files@[f as int])));
            }
            f = f + 1;
        }
        proof {
            assert(files@.take(f as int) =~= files@);
            versions.lemma_flat_map_take_append(files_of(), v as int);
        }
        v = v + 1;
    }
    assert(versions.take(v as int) =~= versions);
    Ok(list)
}

/// The checks for the component with a given identifier, in `cache_dir`;
/// it fails where there is no such component.
pub open spec fn check_step(l3repo: L3Repo, cache_dir: Seq<char>) -> spec_fn(Seq<char>) -> (
    Seq<FileCheckView>,
    bool,
) {
    |id: Seq<char>|
        if l3repo.components@.contains_key(id) {
            (component_checks(l3repo.components@[id], cache_dir), false)
        } else {
            (Seq::empty(), true)
        }
}

/// The files to verify for a request, and the failure that ends the run
/// after them, if there is one.
#[derive(Debug, Clone, PartialEq, Eq)]
pub struct VerifyPlan {
    /// The components that the request is about, in the order in which
    /// they are taken.
    pub components: Vec<String>,
    pub checks: Vec<FileCheck>,
    pub failure: Option<Error>,
}

/// Plans the verification for a request: the components that the request
/// is about are taken one after the other, each with every file of every
/// one of its versions, looked for in `cache_dir`. An identifier that names
/// no component ends the plan with `InvalidComponent`.
pub fn verify(l3repo: &L3Repo, action_data: &Action, cache_dir: &str) -> (plan: VerifyPlan)
    requires
        l3repo.wf(),
    ensures
        views(plan.components@).no_duplicates(),
        views(plan.components@).to_set() == wanted_components(*l3repo, *action_data),
        check_views(plan.checks@) == collected(
            views(plan.components@),
            check_step(*l3repo, cache_dir@),
        ).0,
        match plan.failure {
            Some(Error::InvalidComponent(id)) => collected(
                views(plan.components@),
                check_step(*l3repo, cache_dir@),
            ).1 == Some(id@),
            Some(_) => false,
            None => collected(views(plan.components@), check_step(*l3repo, cache_dir@)).1
                is None,
        },
{
    let components = get_component_ids(l3repo, action_data).into_names();
    let ghost all = views(components@);
    let ghost step = check_step(*l3repo, cache_dir@);
    let mut checks: Vec<FileCheck> = Vec::new();
    let mut k: usize = 0;
    proof {
        assert(all.skip(0) =~= all);
        assert(check_views(checks@) =~= Seq::<FileCheckView>::empty());
        assert(check_views(checks@) + collected(all, step).0 =~= collected(all, step).0);
    }
    while k < components.len()
        invariant
            k <= components.len(),
            l3repo.wf(),
            all == views(components@),
            all.no_duplicates(),
            all.to_set() == wanted_components(*l3repo, *action_data),
            step == check_step(*l3repo, cache_dir@),
            collected(all, step).0 == check_views(checks@) + collected(
                all.skip(k as int),
                step,
            ).0,
            collected(all, step).1 == collected(all.skip(k as int), step).1,
        decreases components.len() - k,
    {
        proof {
            lemma_collected_step(all, step, k as int);
        }
        match files_to_verify(l3repo, components[k].as_str(), cache_dir) {
            Ok(mut more) => {
                let ghost before = check_views(checks@);
                let ghost added = check_views(more@);
                checks.append(&mut more);
                proof {
                    let rest = collected(all.skip(k as int + 1), step).0;
                    assert(check_views(checks@) =~= before + added);
                    assert(before + (added + rest) =~= (before + added) + rest);
                }
            },
            Err(e) => {
                proof {
                    assert(check_views(checks@) + Seq::<FileCheckView>::empty() =~= check_views(
                        checks@,
                    ));
                }
                return VerifyPlan { components, checks, failure: Some(e) };
            },
        }
        k = k + 1;
    }
    proof {
        assert(all.skip(k as int) =~= Seq::<Seq<char>>::empty());
        assert(check_views(checks@) + Seq::<FileCheckView>::empty() =~= check_views(checks@));
    }
    VerifyPlan { components, checks, failure: None }
}

/// A line of the report on a verification run.
#[derive(Debug, Clone, PartialEq, Eq)]
pub enum ReportLine {
    /// The file is as it should be.
    Valid(String),
    /// The file has a problem that the line describes; the run goes on.
    Problem(String),
}

/// What a verification run says about one file, as a mathematical value.
pub enum ReportView {
    /// The line for a file that is as it should be.
    Valid(Seq<char>),
    /// The line for a file with a problem, after which the run goes on.
    Problem(Seq<char>),
    /// The run ends: the algorithm of this name cannot be used.
    Unsupported(Seq<char>),
}

/// What the run says about a file at `path`, checked with the algorithm
/// `cktype`, for which the verification found `outcome`.
pub open spec fn report_of(path: Seq<char>, cktype: Seq<char>, outcome: OutcomeView) -> ReportView {
    match outcome {
        OutcomeView::Valid => ReportView::Valid("VALID:   "@ + path),
        OutcomeView::DigestMismatch { expected, actual } => ReportView::Problem(
            "INVALID DIGEST: "@ + path + "["@ + cktype + "] "@ + actual + " != "@ + expected,
        ),
        OutcomeView::Missing => ReportView::Problem(
            "MISSING FILE:   "@ + path + " does not exist"@,
        ),
        OutcomeView::UnsupportedAlgorithm(name) => ReportView::Unsupported(name),
    }
}

/// Reports the outcome of verifying one file of a run.
///
/// A file that is valid, differs or is missing gets its line, and the run
/// goes on. An algorithm that cannot be used ends the run with
/// `UnsupportedChecksumType`.
pub fn report(check: &FileCheck, outcome: VerificationOutcome) -> (line: Result<ReportLine, Error>)
    ensures
        match line {
            Ok(ReportLine::Valid(text)) => report_of(check.path@, check.checksum_type@, outcome@)
                == ReportView::Valid(text@),
            Ok(ReportLine::Problem(text)) => report_of(check.path@, check.checksum_type@, outcome@)
                == ReportView::Problem(text@),
            Err(Error::UnsupportedChecksumType(name)) => report_of(
                check.path@,
                check.checksum_type@,
                outcome@,
            ) == ReportView::Unsupported(name@),
            Err(_) => false,
        },
{
    match outcome {
        VerificationOutcome::Valid => {
            let mut text = "VALID:   ".to_owned();
            text.append(check.path.as_str());
            Ok(ReportLine::Valid(text))
        },
        VerificationOutcome::DigestMismatch { expected, actual } => {
            let mut text = "INVALID DIGEST: ".to_owned();
            text.append(check.path.as_str());
            text.append("[");
            text.append(check.checksum_type.as_str());
            text.append("] ");
            text.append(actual.as_str());
            text.append(" != ");
            text.append(expected.as_str());
            Ok(ReportLine::Problem(text))
        },
        VerificationOutcome::Missing => {
            let mut text = "MISSING FILE:   ".to_owned();
            text.append(check.path.as_str());
            text.append(" does not exist");
            Ok(ReportLine::Problem(text))
        },
        VerificationOutcome::UnsupportedAlgorithm(name) => Err(
            Error::UnsupportedChecksumType(name),
        ),
    }
}

/// A file to download: where it comes from, and the path in the download
/// directory under which the cached copy is made visible.
#[derive(Debug, Clone, PartialEq, Eq)]
pub struct Download {
    pub url: String,
    pub link_path: String,
}

/// A file to download, as a mathematical value.
pub struct DownloadView {
    pub url: Seq<char>,
    pub link_path: Seq<char>,
}

impl View for Download {
    type V = DownloadView;

    open spec fn view(&self) -> DownloadView {
        DownloadView { url: self.url@, link_path: self.link_path@ }
    }
}

/// The views of a list of files to download.
pub open spec fn download_views(downloads: Seq<Download>) -> Seq<DownloadView> {
    Seq::new(downloads.len(), |i: int| downloads[i]@)
}

/// What is to be downloaded, and the failure that ends the work after
/// those downloads, if there is one.
#[derive(Debug, Clone, PartialEq, Eq)]
pub struct FetchPlan {
    pub downloads: Vec<Download>,
    pub failure: Option<Error>,
}

/// The files that are downloaded for a component: those of its first
/// version. A component without versions has none.
pub open spec fn first_files(component: L3Component) -> Seq<L3ComponentVersionDownloadFile> {
    if component.versions@.len() > 0 {
        component.versions@[0].download_files@
    } else {
        Seq::empty()
    }
}

/// The number of files at the start of `files` whose links can be resolved
/// against `base`.
pub open spec fn resolvable(base: Seq<char>, files: Seq<L3ComponentVersionDownloadFile>) -> nat
    decreases files.len(),
{
    if files.len() == 0 || resolved_url(base, files[0].url@) is None {
        0
    } else {
        1 + resolvable(base, files.drop_first())
    }
}

/// The download of a catalog file of a catalog read from `base` into the
/// directory `cache_dir`.
pub open spec fn download_in(base: Seq<char>, cache_dir: Seq<char>) -> spec_fn(
    L3ComponentVersionDownloadFile,
) -> DownloadView {
    |file: L3ComponentVersionDownloadFile|
        DownloadView {
            url: resolved_url(base, file.url@)->0,
            link_path: joined_path(cache_dir, file.file_name@),
        }
}

/// The downloads for the files `files`: one for each file, in order, up to
/// the first file whose link cannot be resolved; and whether there is such
/// a file.
pub open spec fn planned_downloads(
    base: Seq<char>,
    cache_dir: Seq<char>,
    files: Seq<L3ComponentVersionDownloadFile>,
) -> (Seq<DownloadView>, bool) {
    (
        files.take(resolvable(base, files) as int).map_values(download_in(base, cache_dir)),
        resolvable(base, files) < files.len(),
    )
}

/// The downloads for the component with a given identifier; they fail
/// where there is no such component, and where a link cannot be resolved.
pub open spec fn fetch_step(l3repo: L3Repo, cache_dir: Seq<char>) -> spec_fn(Seq<char>) -> (
    Seq<DownloadView>,
    bool,
) {
    |id: Seq<char>|
        if l3repo.components@.contains_key(id) {
            planned_downloads(
                l3repo.source->0@,
                cache_dir,
                first_files(l3repo.components@[id]),
            )
        } else {
            (Seq::empty(), true)
        }
}

/// The links of the first `k` files can be resolved, and that of the next
/// file, if there is one, cannot: `k` is the number of resolvable files.
proof fn lemma_resolvable(base: Seq<char>, files: Seq<L3ComponentVersionDownloadFile>, k: int)
    requires
        0 <= k <= files.len(),
        forall|j: int| 0 <= j < k ==> resolved_url(base, #[trigger] files[j].url@) is Some,
        k == files.len() || resolved_url(base, files[k].url@) is None,
    ensures
        resolvable(base, files) == k,
    decreases k,
{
    if k > 0 {
        let rest = files.drop_first();
        assert(resolved_url(base, files[0].url@) is Some);
        assert forall|j: int| 0 <= j < k - 1 implies resolved_url(base, #[trigger] rest[j].url@)
            is Some by {
            assert(rest[j] == files[j + 1]);
        }
        lemma_resolvable(base, rest, k - 1);
    }
}

/// Plans the downloads for the component `component_id`: the files of its
/// first version, each from its link resolved against the catalog's URL,
/// each to be made visible in `cache_dir` under its file name. The first
/// link that cannot be resolved ends the plan with `InvalidUrl`.
///
/// Where there is no such component, nothing is downloaded and the failure
/// is `InvalidComponent`.
pub fn files_to_fetch(l3repo: &L3Repo, component_id: &str, cache_dir: &str) -> (plan: FetchPlan)
    requires
        l3repo.wf(),
        l3repo.components@.contains_key(component_id@) && first_files(
            l3repo.components@[component_id@],
        ).len() > 0 ==> l3repo.source is Some,
    ensures
        download_views(plan.downloads@) == fetch_step(*l3repo, cache_dir@)(component_id@).0,
        plan.failure is Some == fetch_step(*l3repo, cache_dir@)(component_id@).1,
        match plan.failure {
            Some(Error::InvalidComponent(id)) => !l3repo.components@.contains_key(component_id@)
                && id@ == component_id@,
            Some(e) => l3repo.components@.contains_key(component_id@) && e is InvalidUrl,
            None => true,
        },
{
    let component = match l3repo.get_component(component_id) {
        Some(found) => found,
        None => {
            let downloads: Vec<Download> = Vec::new();
            assert(download_views(downloads@) =~= Seq::<DownloadView>::empty());
            return FetchPlan {
                downloads,
                failure: Some(Error::InvalidComponent(component_id.to_owned())),
            };
        },
    };
    let mut downloads: Vec<Download> = Vec::new();
    let ghost base = l3repo.source->0@;
    if component.versions.len() == 0 || component.versions[0].download_files.len() == 0 {
        proof {
            let files = first_files(*component);
            assert(files.take(0).map_values(download_in(base, cache_dir@)) =~= Seq::<
                DownloadView,
            >::empty());
            assert(download_views(downloads@) =~= Seq::<DownloadView>::empty());
        }
        return FetchPlan { downloads, failure: None };
    }
    let files = &component.versions[0].download_files;
    let source = l3repo.source.as_ref().unwrap();
    let mut f: usize = 0;
    proof {
        assert(download_views(downloads@) =~= files@.take(0).map_values(
            download_in(base, cache_dir@),
        ));
    }
    while f < files.len()
        invariant
            f <= files.len(),
            l3repo.components@.contains_key(component_id@),
            files@ == first_files(l3repo.components@[component_id@]),
            l3repo.source is Some,
            source@ == base,
            base == l3repo.source->0@,
            forall|j: int| 0 <= j < f ==> resolved_url(base, #[trigger] files@[j].url@) is Some,
            download_views(downloads@) == files@.take(f as int).map_values(
                download_in(base, cache_dir@),
            ),
        decreases files.len() - f,
    {
        let file = &files[f];
        let link_path = join_path(cache_dir, file.file_name.as_str());
        match join_url(source.as_str(), file.url.as_str()) {
            Ok(url) => {
                let ghost before = download_views(downloads@);
                downloads.push(Download { url, link_path });
                proof {
                    let shorter = files@.take(f as int);
                    assert(files@.take(f as int + 1) =~= shorter.push(files@[f as int]));
                    shorter.lemma_push_map_commute(download_in(base, cache_dir@), files@[f as int]);
                    assert(download_views(downloads@) =~= before.push(
                        download_in(base, cache_dir@)(files@[f as int]),
                    ));
                }
            },
            Err(e) => {
                proof {
                    lemma_resolvable(base, files@, f as int);
                }
                return FetchPlan { downloads, failure: Some(e) };
            },
        }
        f = f + 1;
    }
    proof {
        lemma_resolvable(base, files@, f as int);
    }
    FetchPlan { downloads, failure: None }
}

/// Plans the downloads for a request: the components that the request is
/// about are taken one after the other, each as `files_to_fetch` plans it.
/// The first failure ends the plan. The first part of the result is the
/// order in which the components are taken.
pub fn fetch(l3repo: &L3Repo, action_data: &Action, cache_dir: &str) -> (out: (
    Vec<String>,
    FetchPlan,
))
    requires
        l3repo.wf(),
        forall|id: Seq<char>|
            wanted_components(*l3repo, *action_data).contains(id)
                && l3repo.components@.contains_key(id) && first_files(
                #[trigger] l3repo.components@[id],
            ).len() > 0 ==> l3repo.source is Some,
    ensures
        views(out.0@).no_duplicates(),
        views(out.0@).to_set() == wanted_components(*l3repo, *action_data),
        download_views(out.1.downloads@) == collected(
            views(out.0@),
            fetch_step(*l3repo, cache_dir@),
        ).0,
        match out.1.failure {
            Some(Error::InvalidComponent(id)) => collected(
                views(out.0@),
                fetch_step(*l3repo, cache_dir@),
            ).1 == Some(id@) && !l3repo.components@.contains_key(id@),
            Some(e) => {
                &&& e is InvalidUrl
                &&& collected(views(out.0@), fetch_step(*l3repo, cache_dir@)).1 matches Some(id)
                &&& l3repo.components@.contains_key(id)
            },
            None => collected(views(out.0@), fetch_step(*l3repo, cache_dir@)).1 is None,
        },
{
    let components = get_component_ids(l3repo, action_data).into_names();
    let ghost all = views(components@);
    let ghost step = fetch_step(*l3repo, cache_dir@);
    let mut downloads: Vec<Download> = Vec::new();
    let mut k: usize = 0;
    proof {
        assert(all.skip(0) =~= all);
        assert(download_views(downloads@) =~= Seq::<DownloadView>::empty());
        assert(download_views(downloads@) + collected(all, step).0 =~= collected(all, step).0);
    }
    while k < components.len()
        invariant
            k <= components.len(),
            l3repo.wf(),
            all == views(components@),
            all.no_duplicates(),
            all.to_set() == wanted_components(*l3repo, *action_data),
            forall|id: Seq<char>|
                wanted_components(*l3repo, *action_data).contains(id)
                    && l3repo.components@.contains_key(id) && first_files(
                    #[trigger] l3repo.components@[id],
                ).len() > 0 ==> l3repo.source is Some,
            step == fetch_step(*l3repo, cache_dir@),
            collected(all, step).0 == download_views(downloads@) + collected(
                all.skip(k as int),
                step,
            ).0,
            collected(all, step).1 == collected(all.skip(k as int), step).1,
        decreases components.len() - k,
    {
        proof {
            lemma_collected_step(all, step, k as int);
            assert(all.to_set().contains(all[k as int]));
        }
        let FetchPlan { downloads: mut more, failure } = files_to_fetch(
            l3repo,
            components[k].as_str(),
            cache_dir,
        );
        let ghost before = download_views(downloads@);
        let ghost added = download_views(more@);
        downloads.append(&mut more);
        proof {
            let rest = collected(all.skip(k as int + 1), step).0;
            assert(download_views(downloads@) =~= before + added);
            assert(before + (added + rest) =~= (before + added) + rest);
        }
        match failure {
            Some(e) => {
                return (components, FetchPlan { downloads, failure: Some(e) });
            },
            None => {},
        }
        k = k + 1;
    }
    proof {
        assert(all.skip(k as int) =~= Seq::<Seq<char>>::empty());
        assert(download_views(downloads@) + Seq::<DownloadView>::empty() =~= download_views(
            downloads@,
        ));
    }
    (components, FetchPlan { downloads, failure: None })
}

/// The test that puts `prefix` before a text.
pub open spec fn prefixed(prefix: Seq<char>) -> spec_fn(Seq<char>) -> Seq<char> {
    |text: Seq<char>| prefix + text
}

/// One line for each of `items`: the item after `prefix`.
pub open spec fn item_lines(prefix: Seq<char>, items: Seq<Seq<char>>) -> Seq<Seq<char>> {
    items.map_values(prefixed(prefix))
}

/// The file name of a catalog file.
pub open spec fn file_name_of() -> spec_fn(L3ComponentVersionDownloadFile) -> Seq<char> {
    |file: L3ComponentVersionDownloadFile| file.file_name@
}

/// The lines that list what a catalog holds.
pub open spec fn overview_lines(l3repo: L3Repo) -> Seq<Seq<char>> {
    seq!["Package sections:"@] + item_lines("\t"@, l3repo.section_ids()) + seq![
        "Package groups:"@,
    ] + item_lines("\t"@, l3repo.groups.key_seq()) + seq!["Package components:"@] + item_lines(
        "\t"@,
        l3repo.components.key_seq(),
    )
}

/// The lines that describe a section.
pub open spec fn section_lines(section: L3Section) -> Seq<Seq<char>> {
    seq!["Section "@ + section.id@ + ": "@ + section.title@ + "["@ + section.name@ + "]"@]
        + item_lines("\tChild group: "@, views(section.groups@))
}

/// The lines that describe one version of a group.
pub open spec fn group_version_lines() -> spec_fn(L3GroupVersion) -> Seq<Seq<char>> {
    |version: L3GroupVersion|
        seq!["\tVersion "@ + version.version@ + " components:"@] + item_lines(
            "\t\t"@,
            keys_of(version.components@),
        )
}

/// The lines that describe a group.
pub open spec fn group_lines(group: L3Group) -> Seq<Seq<char>> {
    seq![
        "Group "@ + group.id@ + ": "@ + group.name@ + "["@ + group.installed_on@ + "]"@,
        "\tDescription: "@ + group.description@,
    ] + group.versions@.flat_map(group_version_lines())
}

/// The lines that describe one version of a component.
pub open spec fn component_version_lines() -> spec_fn(L3ComponentVersion) -> Seq<Seq<char>> {
    |version: L3ComponentVersion|
        seq![
            "\tVersion "@ + version.version@ + ":"@,
            "\t\tInstall size: "@ + version.install_size_mb@ + " MB"@,
        ] + item_lines("\t\tSupported OS: "@, views(version.operating_systems@)) + item_lines(
            "\t\tSupported HW: "@,
            views(version.target_ids@),
        ) + item_lines("\t\tPackage "@, version.download_files@.map_values(file_name_of()))
}

/// The lines that describe a component.
pub open spec fn component_lines(component: L3Component) -> Seq<Seq<char>> {
    seq![
        "Component "@ + component.id@ + ": "@ + component.name@ + "["@ + component.comp_type@
            + "]"@,
        "\tDescription: "@ + component.description@,
    ] + component.versions@.flat_map(component_version_lines())
}

/// Appends one line for each of `items` to `lines`: the item after `prefix`.
fn push_item_lines(lines: &mut Vec<String>, prefix: &str, items: &Vec<String>)
    ensures
        views(final(lines)@) == views(old(lines)@) + item_lines(prefix@, views(items@)),
{
    let ghost start = views(lines@);
    let ghost all = views(items@);
    let mut i: usize = 0;
    assert(start + item_lines(prefix@, all.take(0)) =~= start);
    while i < items.len()
        invariant
            i <= items.len(),
            all == views(items@),
            views(lines@) == start + item_lines(prefix@, all.take(i as int)),
        decreases items.len() - i,
    {
        let ghost before = views(lines@);
        let mut line = prefix.to_owned();
        line.append(items[i].as_str());
        lines.push(line);
        proof {
            assert(all.take(i as int + 1) =~= all.take(i as int).push(all[i as int]));
            all.take(i as int).lemma_push_map_commute(prefixed(prefix@), all[i as int]);
            assert(views(lines@) =~= before.push(prefix@ + all[i as int]));
        }
        i = i + 1;
    }
    assert(all.take(i as int) =~= all);
}

/// Appends all of `more` to `lines`.
fn push_lines(lines: &mut Vec<String>, more: Vec<String>)
    ensures
        views(final(lines)@) == views(old(lines)@) + views(more@),
{
    let ghost start = views(lines@);
    let mut more = more;
    let ghost added = views(more@);
    lines.append(&mut more);
    assert(views(lines@) =~= start + added);
}

/// The lines that list what a catalog holds.
pub fn describe_catalog(l3repo: &L3Repo) -> (lines: Vec<String>)
    requires
        l3repo.wf(),
    ensures
        views(lines@) == overview_lines(*l3repo),
{
    let mut lines: Vec<String> = Vec::new();
    lines.push("Package sections:".to_owned());
    assert(views(lines@) =~= seq!["Package sections:"@]);
    push_item_lines(&mut lines, "\t", &l3repo.sections());
    let ghost one = views(lines@);
    lines.push("Package groups:".to_owned());
    assert(views(lines@) =~= one + seq!["Package groups:"@]);
    push_item_lines(&mut lines, "\t", &l3repo.groups.keys());
    let ghost two = views(lines@);
    lines.push("Package components:".to_owned());
    assert(views(lines@) =~= two + seq!["Package components:"@]);
    push_item_lines(&mut lines, "\t", &l3repo.components.keys());
    lines
}

/// The lines that describe a section.
pub fn describe_section(section: &L3Section) -> (lines: Vec<String>)
    ensures
        views(lines@) == section_lines(*section),
{
    let mut head = "Section ".to_owned();
    head.append(section.id.as_str());
    head.append(": ");
    head.append(section.title.as_str());
    head.append("[");
    head.append(section.name.as_str());
    head.append("]");
    let mut lines: Vec<String> = Vec::new();
    lines.push(head);
    assert(views(lines@) =~= seq![
        "Section "@ + section.id@ + ": "@ + section.title@ + "["@ + section.name@ + "]"@,
    ]);
    push_item_lines(&mut lines, "\tChild group: ", &section.groups);
    lines
}

/// The lines that describe a group.
pub fn describe_group(group: &L3Group) -> (lines: Vec<String>)
    ensures
        views(lines@) == group_lines(*group),
{
    let mut head = "Group ".to_owned();
    head.append(group.id.as_str());
    head.append(": ");
    head.append(group.name.as_str());
    head.append("[");
    head.append(group.installed_on.as_str());
    head.append("]");
    let mut about = "\tDescription: ".to_owned();
    about.append(group.description.as_str());
    let mut lines: Vec<String> = Vec::new();
    lines.push(head);
    lines.push(about);
    let ghost top = views(lines@);
    let ghost versions = group.versions@;
    proof {
        assert(top =~= seq![
            "Group "@ + group.id@ + ": "@ + group.name@ + "["@ + group.installed_on@ + "]"@,
            "\tDescription: "@ + group.description@,
        ]);
        assert(versions.take(0).flat_map(group_version_lines()) =~= Seq::empty());
        assert(top + versions.take(0).flat_map(group_version_lines()) =~= top);
    }
    let mut v: usize = 0;
    while v < group.versions.len()
        invariant
            v <= group.versions.len(),
            versions == group.versions@,
            views(lines@) == top + versions.take(v as int).flat_map(group_version_lines()),
        decreases group.versions.len() - v,
    {
        let version = &group.versions[v];
        let ghost before = views(lines@);
        let mut line = "\tVersion ".to_owned();
        line.append(version.version.as_str());
        line.append(" components:");
        lines.push(line);
        assert(views(lines@) =~= before + seq!["\tVersion "@ + version.version@ + " components:"@]);
        push_item_lines(&mut lines, "\t\t", &keys(&version.components));
        proof {
            versions.lemma_flat_map_take_append(group_version_lines(), v as int);
            assert(views(lines@) =~= top + versions.take(v as int + 1).flat_map(
                group_version_lines(),
            ));
        }
        v = v + 1;
    }
    assert(versions.take(v as int) =~= versions);
    lines
}

/// The file names of catalog files, in order.
fn file_names(files: &Vec<L3ComponentVersionDownloadFile>) -> (names: Vec<String>)
    ensures
        views(names@) == files@.map_values(file_name_of()),
{
    let mut names: Vec<String> = Vec::new();
    let mut i: usize = 0;
    while i < files.len()
        invariant
            i <= files.len(),
            names.len() == i,
            forall|j: int| 0 <= j < i ==> names@[j]@ == files@[j].file_name@,
        decreases files.len() - i,
    {
        names.push(files[i].file_name.clone());
        i = i + 1;
    }
    assert(views(names@) =~= files@.map_values(file_name_of()));
    names
}

/// The lines that describe a component.
pub fn describe_component(component: &L3Component) -> (lines: Vec<String>)
    ensures
        views(lines@) == component_lines(*component),
{
    let mut head = "Component ".to_owned();
    head.append(component.id.as_str());
    head.append(": ");
    head.append(component.name.as_str());
    head.append("[");
    head.append(component.comp_type.as_str());
    head.append("]");
    let mut about = "\tDescription: ".to_owned();
    about.append(component.description.as_str());
    let mut lines: Vec<String> = Vec::new();
    lines.push(head);
    lines.push(about);
    let ghost top = views(lines@);
    let ghost versions = component.versions@;
    proof {
        assert(top =~= seq![
            "Component "@ + component.id@ + ": "@ + component.name@ + "["@ + component.comp_type@
                + "]"@,
            "\tDescription: "@ + component.description@,
        ]);
        assert(versions.take(0).flat_map(component_version_lines()) =~= Seq::empty());
        assert(top + versions.take(0).flat_map(component_version_lines()) =~= top);
    }
    let mut v: usize = 0;
    while v < component.versions.len()
        invariant
            v <= component.versions.len(),
            versions == component.versions@,
            views(lines@) == top + versions.take(v as int).flat_map(component_version_lines()),
        decreases component.versions.len() - v,
    {
        let version = &component.versions[v];
        let ghost before = views(lines@);
        let mut line = "\tVersion ".to_owned();
        line.append(version.version.as_str());
        line.append(":");
        let mut size = "\t\tInstall size: ".to_owned();
        size.append(version.install_size_mb.as_str());
        size.append(" MB");
        lines.push(line);
        lines.push(size);
        assert(views(lines@) =~= before + seq![
            "\tVersion "@ + version.version@ + ":"@,
            "\t\tInstall size: "@ + version.install_size_mb@ + " MB"@,
        ]);
        push_item_lines(&mut lines, "\t\tSupported OS: ", &version.operating_systems);
        push_item_lines(&mut lines, "\t\tSupported HW: ", &version.target_ids);
        push_item_lines(&mut lines, "\t\tPackage ", &file_names(&version.download_files));
        proof {
            versions.lemma_flat_map_take_append(component_version_lines(), v as int);
            assert(views(lines@) =~= top + versions.take(v as int + 1).flat_map(
                component_version_lines(),
            ));
        }
        v = v + 1;
    }
    assert(versions.take(v as int) =~= versions);
    lines
}

/// The description of the section with a given identifier; it fails where
/// there is no such section.
pub open spec fn section_step(l3repo: L3Repo) -> spec_fn(Seq<char>) -> (Seq<Seq<char>>, bool) {
    |id: Seq<char>|
        if l3repo.section_ids().contains(id) {
            (
                section_lines(
                    l3repo.sections@[choose|i: int| is_first_at(l3repo.section_ids(), id, i)],
                ),
                false,
            )
        } else {
            (Seq::empty(), true)
        }
}

/// The description of the group with a given identifier; it fails where
/// there is no such group.
pub open spec fn group_step(l3repo: L3Repo) -> spec_fn(Seq<char>) -> (Seq<Seq<char>>, bool) {
    |id: Seq<char>|
        if l3repo.groups@.contains_key(id) {
            (group_lines(l3repo.groups@[id]), false)
        } else {
            (Seq::empty(), true)
        }
}

/// The description of the component with a given identifier; it fails
/// where there is no such component.
pub open spec fn component_step(l3repo: L3Repo) -> spec_fn(Seq<char>) -> (Seq<Seq<char>>, bool) {
    |id: Seq<char>|
        if l3repo.components@.contains_key(id) {
            (component_lines(l3repo.components@[id]), false)
        } else {
            (Seq::empty(), true)
        }
}

/// Why a description ended early: the identifier that names nothing.
pub enum ShowFailure {
    Section(Seq<char>),
    Group(Seq<char>),
    Component(Seq<char>),
}

/// What `show` gives for a request: the lines, and why they end early, if
/// they do.
///
/// A request that names nothing gets the list of what the catalog holds.
/// Then come the sections that the request names, in its order, then the
/// groups, then the components. The first identifier that names nothing
/// ends the description.
pub open spec fn shown(l3repo: L3Repo, action: Action) -> (Seq<Seq<char>>, Option<ShowFailure>) {
    let head = if action.sections()@.len() == 0 && action.groups()@.len() == 0
        && action.components()@.len() == 0 {
        overview_lines(l3repo)
    } else {
        Seq::empty()
    };
    let sections = collected(views(action.sections()@), section_step(l3repo));
    let groups = collected(views(action.groups()@), group_step(l3repo));
    let components = collected(views(action.components()@), component_step(l3repo));
    match sections.1 {
        Some(id) => (head + sections.0, Some(ShowFailure::Section(id))),
        None => match groups.1 {
            Some(id) => (head + sections.0 + groups.0, Some(ShowFailure::Group(id))),
            None => match components.1 {
                Some(id) => (
                    head + sections.0 + groups.0 + components.0,
                    Some(ShowFailure::Component(id)),
                ),
                None => (head + sections.0 + groups.0 + components.0, None),
            },
        },
    }
}

/// The reason that an error gives for the early end of a description.
pub open spec fn show_failure(failure: Option<Error>) -> Option<ShowFailure> {
    match failure {
        Some(Error::InvalidSection(id)) => Some(ShowFailure::Section(id@)),
        Some(Error::InvalidGroup(id)) => Some(ShowFailure::Group(id@)),
        Some(Error::InvalidComponent(id)) => Some(ShowFailure::Component(id@)),
        _ => None,
    }
}

/// What is to be printed for a request, and the failure that ends the
/// printing after those lines, if there is one.
#[derive(Debug, Clone, PartialEq, Eq)]
pub struct Shown {
    pub lines: Vec<String>,
    pub failure: Option<Error>,
}

/// Appends the descriptions of the sections `ids` to `lines`.
fn show_sections(l3repo: &L3Repo, ids: &Vec<String>, lines: &mut Vec<String>) -> (failure: Option<
    Error,
>)
    ensures
        views(final(lines)@) == views(old(lines)@) + collected(
            views(ids@),
            section_step(*l3repo),
        ).0,
        match failure {
            Some(Error::InvalidSection(id)) => collected(views(ids@), section_step(*l3repo)).1
                == Some(id@),
            Some(_) => false,
            None => collected(views(ids@), section_step(*l3repo)).1 is None,
        },
{
    let ghost all = views(ids@);
    let ghost step = section_step(*l3repo);
    let ghost start = views(lines@);
    let ghost mut done: Seq<Seq<char>> = Seq::empty();
    let mut k: usize = 0;
    proof {
        assert(all.skip(0) =~= all);
        assert(start + done =~= start);
        assert(done + collected(all, step).0 =~= collected(all, step).0);
    }
    while k < ids.len()
        invariant
            k <= ids.len(),
            all == views(ids@),
            step == section_step(*l3repo),
            start == views(old(lines)@),
            views(lines@) == start + done,
            collected(all, step).0 == done + collected(all.skip(k as int), step).0,
            collected(all, step).1 == collected(all.skip(k as int), step).1,
        decreases ids.len() - k,
    {
        proof {
            lemma_collected_step(all, step, k as int);
        }
        match l3repo.get_section(ids[k].as_str()) {
            Some(section) => {
                let more = describe_section(section);
                proof {
                    let at = choose|i: int| is_first_at(l3repo.section_ids(), all[k as int], i);
                    assert(l3repo.section_ids()[at] == all[k as int]);
                    let rest = collected(all.skip(k as int + 1), step).0;
                    assert(done + (views(more@) + rest) =~= (done + views(more@)) + rest);
                    assert(start + (done + views(more@)) =~= (start + done) + views(more@));
                    done = done + views(more@);
                }
                push_lines(lines, more);
            },
            None => {
                proof {
                    assert(done + Seq::<Seq<char>>::empty() =~= done);
                }
                return Some(Error::InvalidSection(ids[k].clone()));
            },
        }
        k = k + 1;
    }
    proof {
        assert(all.skip(k as int) =~= Seq::<Seq<char>>::empty());
        assert(done + Seq::<Seq<char>>::empty() =~= done);
    }
    None
}

/// Appends the descriptions of the groups `ids` to `lines`.
fn show_groups(l3repo: &L3Repo, ids: &Vec<String>, lines: &mut Vec<String>) -> (failure: Option<
    Error,
>)
    requires
        l3repo.wf(),
    ensures
        views(final(lines)@) == views(old(lines)@) + collected(views(ids@), group_step(*l3repo)).0,
        match failure {
            Some(Error::InvalidGroup(id)) => collected(views(ids@), group_step(*l3repo)).1
                == Some(id@),
            Some(_) => false,
            None => collected(views(ids@), group_step(*l3repo)).1 is None,
        },
{
    let ghost all = views(ids@);
    let ghost step = group_step(*l3repo);
    let ghost start = views(lines@);
    let ghost mut done: Seq<Seq<char>> = Seq::empty();
    let mut k: usize = 0;
    proof {
        assert(all.skip(0) =~= all);
        assert(start + done =~= start);
        assert(done + collected(all, step).0 =~= collected(all, step).0);
    }
    while k < ids.len()
        invariant
            k <= ids.len(),
            l3repo.wf(),
            all == views(ids@),
            step == group_step(*l3repo),
            start == views(old(lines)@),
            views(lines@) == start + done,
            collected(all, step).0 == done + collected(all.skip(k as int), step).0,
            collected(all, step).1 == collected(all.skip(k as int), step).1,
        decreases ids.len() - k,
    {
        proof {
            lemma_collected_step(all, step, k as int);
        }
        match l3repo.get_group(ids[k].as_str()) {
            Some(group) => {
                let more = describe_group(group);
                proof {
                    let rest = collected(all.skip(k as int + 1), step).0;
                    assert(done + (views(more@) + rest) =~= (done + views(more@)) + rest);
                    assert(start + (done + views(more@)) =~= (start + done) + views(more@));
                    done = done + views(more@);
                }
                push_lines(lines, more);
            },
            None => {
                proof {
                    assert(done + Seq::<Seq<char>>::empty() =~= done);
                }
                return Some(Error::InvalidGroup(ids[k].clone()));
            },
        }
        k = k + 1;
    }
    proof {
        assert(all.skip(k as int) =~= Seq::<Seq<char>>::empty());
        assert(done + Seq::<Seq<char>>::empty() =~= done);
    }
    None
}

/// Appends the descriptions of the components `ids` to `lines`.
fn show_components(l3repo: &L3Repo, ids: &Vec<String>, lines: &mut Vec<String>) -> (failure:
    Option<Error>)
    requires
        l3repo.wf(),
    ensures
        views(final(lines)@) == views(old(lines)@) + collected(
            views(ids@),
            component_step(*l3repo),
        ).0,
        match failure {
            Some(Error::InvalidComponent(id)) => collected(views(ids@), component_step(*l3repo)).1
                == Some(id@),
            Some(_) => false,
            None => collected(views(ids@), component_step(*l3repo)).1 is None,
        },
{
    let ghost all = views(ids@);
    let ghost step = component_step(*l3repo);
    let ghost start = views(lines@);
    let ghost mut done: Seq<Seq<char>> = Seq::empty();
    let mut k: usize = 0;
    proof {
        assert(all.skip(0) =~= all);
        assert(start + done =~= start);
        assert(done + collected(all, step).0 =~= collected(all, step).0);
    }
    while k < ids.len()
        invariant
            k <= ids.len(),
            l3repo.wf(),
            all == views(ids@),
            step == component_step(*l3repo),
            start == views(old(lines)@),
            views(lines@) == start + done,
            collected(all, step).0 == done + collected(all.skip(k as int), step).0,
            collected(all, step).1 == collected(all.skip(k as int), step).1,
        decreases ids.len() - k,
    {
        proof {
            lemma_collected_step(all, step, k as int);
        }
        match l3repo.get_component(ids[k].as_str()) {
            Some(component) => {
                let more = describe_component(component);
                proof {
                    let rest = collected(all.skip(k as int + 1), step).0;
                    assert(done + (views(more@) + rest) =~= (done + views(more@)) + rest);
                    assert(start + (done + views(more@)) =~= (start + done) + views(more@));
                    done = done + views(more@);
                }
                push_lines(lines, more);
            },
            None => {
                proof {
                    assert(done + Seq::<Seq<char>>::empty() =~= done);
                }
                return Some(Error::InvalidComponent(ids[k].clone()));
            },
        }
        k = k + 1;
    }
    proof {
        assert(all.skip(k as int) =~= Seq::<Seq<char>>::empty());
        assert(done + Seq::<Seq<char>>::empty() =~= done);
    }
    None
}

/// Describes what a request names: the lines to print, and the failure that
/// ends them where an identifier names nothing.
pub fn show(l3repo: &L3Repo, action_data: &Action) -> (out: Shown)
    requires
        l3repo.wf(),
    ensures
        views(out.lines@) == shown(*l3repo, *action_data).0,
        show_failure(out.failure) == shown(*l3repo, *action_data).1,
        out.failure is Some <==> shown(*l3repo, *action_data).1 is Some,
{
    let mut lines: Vec<String> = Vec::new();
    if action_data.get_sections().len() == 0 && action_data.get_groups().len() == 0
        && action_data.get_components().len() == 0 {
        lines = describe_catalog(l3repo);
    }
    let ghost head = views(lines@);
    assert(head =~= if action_data.sections()@.len() == 0 && action_data.groups()@.len() == 0
        && action_data.components()@.len() == 0 {
        overview_lines(*l3repo)
    } else {
        Seq::empty()
    });
    match show_sections(l3repo, action_data.get_sections(), &mut lines) {
        Some(e) => {
            return Shown { lines, failure: Some(e) };
        },
        None => {},
    }
    match show_groups(l3repo, action_data.get_groups(), &mut lines) {
        Some(e) => {
            return Shown { lines, failure: Some(e) };
        },
        None => {},
    }
    let failure = show_components(l3repo, action_data.get_components(), &mut lines);
    Shown { lines, failure }
}

} // verus!
