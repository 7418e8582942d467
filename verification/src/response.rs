//! From what the staleness tool found to the findings that are reported.

use crate::manifest::{Package, PackageView, package_views};
use vstd::prelude::*;
use vstd::string::StringExecFns;

verus! {

/// The category of a dependency.
#[derive(Clone, Copy, Debug, PartialEq, Eq, Structural)]
pub enum DependencyKind {
    Normal,
    Development,
    Build,
}

/// One dependency that the staleness tool found out of date.
#[derive(Clone, Debug)]
pub struct Dependency {
    /// The tool's name for the dependency.
    pub name: String,
    /// The version in use.
    pub project: String,
    /// The latest version that the declared constraints allow.
    pub compat: String,
    /// The latest version there is.
    pub latest: String,
    pub kind: DependencyKind,
}

/// What a [`Dependency`] holds, as mathematical values.
pub struct DependencyView {
    pub name: Seq<char>,
    pub project: Seq<char>,
    pub compat: Seq<char>,
    pub latest: Seq<char>,
    pub kind: DependencyKind,
}

impl View for Dependency {
    type V = DependencyView;

    open spec fn view(&self) -> DependencyView {
        DependencyView {
            name: self.name@,
            project: self.project@,
            compat: self.compat@,
            latest: self.latest@,
            kind: self.kind,
        }
    }
}

/// The views of `dependencies`, in order.
pub open spec fn dependency_views(dependencies: Seq<Dependency>) -> Seq<DependencyView> {
    Seq::new(dependencies.len(), |k: int| dependencies[k]@)
}

/// The staleness tool's report on one project.
#[derive(Clone, Debug)]
pub struct Outdated {
    pub crate_name: String,
    pub dependencies: Vec<Dependency>,
}

/// One finding, as it is reported.
#[derive(Clone, Debug)]
pub struct MuseResponse {
    /// The kind of finding.
    pub type_of: String,
    pub message: String,
    /// The file that the finding is about.
    pub file: String,
    /// The line in that file, or 0 where it is not known.
    pub line: u32,
}

/// What a [`MuseResponse`] holds, as mathematical values.
pub struct MuseResponseView {
    pub type_of: Seq<char>,
    pub message: Seq<char>,
    pub file: Seq<char>,
    pub line: nat,
}

impl View for MuseResponse {
    type V = MuseResponseView;

    open spec fn view(&self) -> MuseResponseView {
        MuseResponseView {
            type_of: self.type_of@,
            message: self.message@,
            file: self.file@,
            line: self.line as nat,
        }
    }
}

/// The views of `responses`, in order.
pub open spec fn response_views(responses: Seq<MuseResponse>) -> Seq<MuseResponseView> {
    Seq::new(responses.len(), |k: int| responses[k]@)
}

/// A declared package is the dependency's when both the name and the version
/// are the same, character for character.
pub open spec fn declares(package: PackageView, dependency: DependencyView) -> bool {
    package.name == dependency.name && package.version == dependency.project
}

/// The line of the last of `packages` that declares `dependency`, or 0 where
/// none does.
pub open spec fn line_number_of(dependency: DependencyView, packages: Seq<PackageView>) -> nat
    decreases packages.len(),
{
    if packages.len() == 0 {
        0
    } else if declares(packages.last(), dependency) {
        packages.last().line
    } else {
        line_number_of(dependency, packages.drop_last())
    }
}

/// The note on one dependency: its name, then the version in use and the one
/// it could have.
pub open spec fn message_of(dependency: DependencyView) -> Seq<char> {
    "### "@ + dependency.name + "\nVersion is at "@ + dependency.project
        + " but could be upgrade to "@ + dependency.latest
}

/// The finding on one dependency.
pub open spec fn finding_of(
    dependency: DependencyView,
    packages: Seq<PackageView>,
) -> MuseResponseView {
    MuseResponseView {
        type_of: "Out of date"@,
        message: message_of(dependency),
        file: "Cargo.toml"@,
        line: line_number_of(dependency, packages),
    }
}

/// The findings on `dependencies`, one for each and in their order.
pub open spec fn findings_of(
    dependencies: Seq<DependencyView>,
    packages: Seq<PackageView>,
) -> Seq<MuseResponseView> {
    Seq::new(dependencies.len(), |k: int| finding_of(dependencies[k], packages))
}

/// A dependency that none of the packages declares is located on line 0.
pub proof fn lemma_undeclared_is_on_line_zero(
    dependency: DependencyView,
    packages: Seq<PackageView>,
)
    requires
        forall|k: int| 0 <= k < packages.len() ==> !declares(packages[k], dependency),
    ensures
        line_number_of(dependency, packages) == 0,
        finding_of(dependency, packages).line == 0,
    decreases packages.len(),
{
    if packages.len() > 0 {
        lemma_undeclared_is_on_line_zero(dependency, packages.drop_last());
    }
}

/// Where several packages declare a dependency, the last of them gives the
/// line.
pub proof fn lemma_last_declaration_gives_the_line(
    dependency: DependencyView,
    packages: Seq<PackageView>,
    last: int,
)
    requires
        0 <= last < packages.len(),
        declares(packages[last], dependency),
        forall|k: int| last < k < packages.len() ==> !declares(packages[k], dependency),
    ensures
        line_number_of(dependency, packages) == packages[last].line,
        finding_of(dependency, packages).line == packages[last].line,
    decreases packages.len(),
{
    if last < packages.len() - 1 {
        lemma_last_declaration_gives_the_line(dependency, packages.drop_last(), last);
    }
}

/// There is one finding for each dependency, and the findings stand in the
/// order of the dependencies.
pub proof fn lemma_findings_keep_count_and_order(
    dependencies: Seq<DependencyView>,
    packages: Seq<PackageView>,
)
    ensures
        findings_of(dependencies, packages).len() == dependencies.len(),
        forall|k: int|
            0 <= k < dependencies.len() ==> #[trigger] findings_of(dependencies, packages)[k]
                == finding_of(dependencies[k], packages),
{
}

/// A finding says nothing of a dependency's kind nor of the version that its
/// constraints allow: dependencies that agree in name, version in use and
/// latest version have the same finding.
pub proof fn lemma_finding_ignores_kind(
    dependency: DependencyView,
    other: DependencyView,
    packages: Seq<PackageView>,
)
    requires
        dependency.name == other.name,
        dependency.project == other.project,
        dependency.latest == other.latest,
    ensures
        finding_of(dependency, packages) == finding_of(other, packages),
{
    lemma_line_number_is_by_name_and_version(dependency, other, packages);
}

/// The line of a dependency goes by its name and its version in use alone.
pub proof fn lemma_line_number_is_by_name_and_version(
    dependency: DependencyView,
    other: DependencyView,
    packages: Seq<PackageView>,
)
    requires
        dependency.name == other.name,
        dependency.project == other.project,
    ensures
        line_number_of(dependency, packages) == line_number_of(other, packages),
    decreases packages.len(),
{
    if packages.len() > 0 {
        lemma_line_number_is_by_name_and_version(dependency, other, packages.drop_last());
    }
}

/// The line on which the manifest declares `dependency`: that of the last
/// package with its name and version, or 0 where there is none.
pub fn find_line_number(dependency: &Dependency, packages: &Vec<Package>) -> (line: u32)
    ensures
        line == line_number_of(dependency@, package_views(packages@)),
{
    let ghost views = package_views(packages@);
    let mut line: u32 = 0;
    let mut k: usize = 0;
    while k < packages.len()
        invariant
            k <= packages.len(),
            views == package_views(packages@),
            line == line_number_of(dependency@, views.take(k as int)),
        decreases packages.len() - k,
    {
        assert(views.take(k + 1).drop_last() =~= views.take(k as int));
        let package = &packages[k];
        if dependency.name == package.name && dependency.project == package.version {
            line = package.line;
        }
        k += 1;
    }
    assert(views.take(k as int) =~= views);
    line
}

/// The note on `dependency`.
pub fn build_muse_message(dependency: &Dependency) -> (message: String)
    ensures
        message@ == message_of(dependency@),
{
    let mut message = String::from_str("### ");
    message.append(dependency.name.as_str());
    message.append("\nVersion is at ");
    message.append(dependency.project.as_str());
    message.append(" but could be upgrade to ");
    message.append(dependency.latest.as_str());
    message
}

/// The findings on what the tool reported, one for each dependency and in
/// the tool's order.
pub fn build_muse_response(outdated: Outdated, packages: Vec<Package>) -> (responses: Vec<
    MuseResponse,
>)
    ensures
        response_views(responses@) == findings_of(
            dependency_views(outdated.dependencies@),
            package_views(packages@),
        ),
{
    let mut responses: Vec<MuseResponse> = Vec::new();
    let mut k: usize = 0;
    while k < outdated.dependencies.len()
        invariant
            k <= outdated.dependencies.len(),
            responses.len() == k,
            forall|i: int|
                0 <= i < k ==> (#[trigger] responses[i])@ == finding_of(
                    outdated.dependencies[i]@,
                    package_views(packages@),
                ),
        decreases outdated.dependencies.len() - k,
    {
        let dependency = &outdated.dependencies[k];
        let response = MuseResponse {
            type_of: String::from_str("Out of date"),
            message: build_muse_message(dependency),
            file: String::from_str("Cargo.toml"),
            line: find_line_number(dependency, &packages),
        };
        responses.push(response);
        k += 1;
    }
    assert(response_views(responses@) =~= findings_of(
        dependency_views(outdated.dependencies@),
        package_views(packages@),
    ));
    responses
}

} // verus!
