use vstd::prelude::*;
use crate::metadata::{
    container_file, container_file_text, control_text, debian_control, rpm_spec,
    spec_file_text,
};
use crate::naming::{
    cli_tarball_file_name, cli_tarball_name, container_image_tag, container_tag, deb_file_name,
    deb_name, join, join_path, library_tarball_file_name, library_tarball_name, rpm_file_name,
    rpm_name, rpm_tool_output_file_name, rpm_tool_output_name,
};
use crate::target::{
    cli_file_name, debian_architecture, debian_architecture_for, dynamic_library_file_name,
    header_file_name, rpm_architecture, rpm_architecture_for, static_library_file_name,
    target_file_names, target_id, Target,
};

verus! {

/// The failures of a release, by kind.
#[derive(Clone, Copy, Debug, PartialEq, Eq, Structural)]
pub enum ReleaseError {
    /// An identifier names no known target.
    UnknownTarget,
    /// An expected built artifact is absent.
    InputMissing,
    /// The target has no architecture label for the packager asked for.
    UnsupportedTarget,
    /// A directory could not be created or removed, or a file copied or written.
    FilesystemError,
    /// A packaging tool exited non-zero or could not be launched.
    ExternalToolFailure,
    /// A packaging tool reported success but its artifact is not where it belongs.
    PackagingInvariantViolation,
}

/// The kinds of output a release produces.
#[derive(Clone, Copy, Debug, PartialEq, Eq, Structural)]
pub enum OutputKind {
    CliTarball,
    Deb,
    Rpm,
    Container,
    LibraryTarball,
}

/// One packaging step: an output kind for one target.
#[derive(Clone, Copy, Debug, PartialEq, Eq, Structural)]
pub struct Step {
    pub kind: OutputKind,
    pub target: Target,
}

/// One file to place in an archive: where it is read from, and its name in the archive.
#[derive(Clone, Debug)]
pub struct ArchiveEntry {
    pub source: String,
    pub name: String,
}

impl View for ArchiveEntry {
    type V = (Seq<char>, Seq<char>);

    open spec fn view(&self) -> (Seq<char>, Seq<char>) {
        (self.source@, self.name@)
    }
}

/// One unit of outside work that a packaging step performs.
#[derive(Clone, Debug)]
pub enum Action {
    /// Remove the directory if present, then create it, and its parents, empty.
    ResetDirectory { path: String },
    /// Create a directory and its parents.
    CreateDirectory { path: String },
    /// Copy a file, keeping its permissions.
    CopyFile { from: String, to: String },
    /// Write a file with the given text.
    WriteFile { path: String, contents: String },
    /// Write a gzip-compressed tar archive of the entries, in order, keeping file modes.
    Archive { entries: Vec<ArchiveEntry>, output: String },
    /// Run a program; a non-zero exit is a failure.
    RunTool { argv: Vec<String> },
    /// Fail unless the file exists.
    ExpectFile { path: String },
    /// Remove a directory recursively; its absence is no failure.
    RemoveDirectory { path: String },
    /// Remove a file; its absence is no failure.
    RemoveFile { path: String },
}

/// What an action is, over plain values.
pub enum ActionView {
    ResetDirectory { path: Seq<char> },
    CreateDirectory { path: Seq<char> },
    CopyFile { from: Seq<char>, to: Seq<char> },
    WriteFile { path: Seq<char>, contents: Seq<char> },
    Archive { entries: Seq<(Seq<char>, Seq<char>)>, output: Seq<char> },
    RunTool { argv: Seq<Seq<char>> },
    ExpectFile { path: Seq<char> },
    RemoveDirectory { path: Seq<char> },
    RemoveFile { path: Seq<char> },
}

pub open spec fn strings_view(v: Seq<String>) -> Seq<Seq<char>> {
    v.map_values(|s: String| s@)
}

pub open spec fn entries_view(v: Seq<ArchiveEntry>) -> Seq<(Seq<char>, Seq<char>)> {
    v.map_values(|e: ArchiveEntry| e@)
}

impl View for Action {
    type V = ActionView;

    open spec fn view(&self) -> ActionView {
        match self {
            Action::ResetDirectory { path } => ActionView::ResetDirectory { path: path@ },
            Action::CreateDirectory { path } => ActionView::CreateDirectory { path: path@ },
            Action::CopyFile { from, to } => ActionView::CopyFile { from: from@, to: to@ },
            Action::WriteFile { path, contents } => ActionView::WriteFile {
                path: path@,
                contents: contents@,
            },
            Action::Archive { entries, output } => ActionView::Archive {
                entries: entries_view(entries@),
                output: output@,
            },
            Action::RunTool { argv } => ActionView::RunTool { argv: strings_view(argv@) },
            Action::ExpectFile { path } => ActionView::ExpectFile { path: path@ },
            Action::RemoveDirectory { path } => ActionView::RemoveDirectory { path: path@ },
            Action::RemoveFile { path } => ActionView::RemoveFile { path: path@ },
        }
    }
}

pub open spec fn actions_view(v: Seq<Action>) -> Seq<ActionView> {
    v.map_values(|a: Action| a@)
}

/// Where a release reads and writes: `root/dist/<target>` holds the built artifacts,
/// `root/dist/release` receives the outputs.
pub open spec fn dist_dir(root: Seq<char>) -> Seq<char> {
    join(root, "dist"@)
}

pub open spec fn release_dir(root: Seq<char>) -> Seq<char> {
    join(dist_dir(root), "release"@)
}

pub open spec fn artifact_path(root: Seq<char>, t: Target, name: Seq<char>) -> Seq<char> {
    join(join(dist_dir(root), target_id(t)), name)
}

/// The staging directory of the Debian packager.
pub open spec fn deb_staging(root: Seq<char>) -> Seq<char> {
    join(dist_dir(root), "deb"@)
}

/// The staging directory of the RPM packager.
pub open spec fn rpm_staging(root: Seq<char>) -> Seq<char> {
    join(dist_dir(root), "rpm"@)
}

/// The build definition file of the container image.
pub open spec fn container_file_path(root: Seq<char>) -> Seq<char> {
    join(root, "Dockerfile"@)
}

/// The work of one step and the cleanup owed when it fails part-way.
pub struct StepPlan {
    pub actions: Vec<Action>,
    pub cleanup: Vec<Action>,
}

pub open spec fn cli_tarball_actions(root: Seq<char>, version: Seq<char>, t: Target) -> Seq<ActionView> {
    seq![
        ActionView::Archive {
            entries: seq![(artifact_path(root, t, cli_file_name(t)), cli_file_name(t))],
            output: join(release_dir(root), cli_tarball_name(version, t)),
        },
    ]
}

pub open spec fn library_tarball_actions(root: Seq<char>, version: Seq<char>, t: Target) -> Seq<ActionView> {
    seq![
        ActionView::Archive {
            entries: seq![
                (artifact_path(root, t, header_file_name(t)), header_file_name(t)),
                (artifact_path(root, t, dynamic_library_file_name(t)), dynamic_library_file_name(t)),
                (artifact_path(root, t, static_library_file_name(t)), static_library_file_name(t)),
            ],
            output: join(release_dir(root), library_tarball_name(version, t)),
        },
    ]
}

pub open spec fn deb_actions(root: Seq<char>, version: Seq<char>, t: Target, arch: Seq<char>) -> Seq<ActionView> {
    let staging = deb_staging(root);
    let bin = join(staging, "usr/bin"@);
    let debian = join(staging, "DEBIAN"@);
    seq![
        ActionView::ResetDirectory { path: staging },
        ActionView::CreateDirectory { path: bin },
        ActionView::CopyFile {
            from: artifact_path(root, t, cli_file_name(t)),
            to: join(bin, cli_file_name(t)),
        },
        ActionView::CreateDirectory { path: debian },
        ActionView::WriteFile { path: join(debian, "control"@), contents: control_text(arch, version) },
        ActionView::RunTool {
            argv: seq![
                "dpkg-deb"@,
                "--build"@,
                staging,
                join(release_dir(root), deb_name(version, arch)),
            ],
        },
        ActionView::RemoveDirectory { path: staging },
    ]
}

pub open spec fn rpm_tool_output_path(root: Seq<char>, version: Seq<char>, arch: Seq<char>) -> Seq<char> {
    join(join(join(rpm_staging(root), "RPMS"@), arch), rpm_tool_output_name(version, arch))
}

pub open spec fn rpm_actions(root: Seq<char>, version: Seq<char>, t: Target, arch: Seq<char>) -> Seq<ActionView> {
    let staging = rpm_staging(root);
    let spec_path = join(staging, "SPECS/tangram.spec"@);
    seq![
        ActionView::ResetDirectory { path: staging },
        ActionView::CreateDirectory { path: join(staging, "BUILD"@) },
        ActionView::CreateDirectory { path: join(staging, "BUILDROOT"@) },
        ActionView::CreateDirectory { path: join(staging, "RPMS"@) },
        ActionView::CreateDirectory { path: join(staging, "SOURCES"@) },
        ActionView::CreateDirectory { path: join(staging, "SPECS"@) },
        ActionView::CreateDirectory { path: join(staging, "SRPMS"@) },
        ActionView::Archive {
            entries: seq![
                (artifact_path(root, t, cli_file_name(t)), "tangram-"@ + version + "/tangram"@),
            ],
            output: join(staging, "SOURCES/tangram.tar.gz"@),
        },
        ActionView::WriteFile { path: spec_path, contents: spec_file_text(version) },
        ActionView::RunTool {
            argv: seq!["rpmbuild"@, "-D"@, "_topdir "@ + staging, "--target"@, arch, "-bb"@, spec_path],
        },
        ActionView::ExpectFile { path: rpm_tool_output_path(root, version, arch) },
        ActionView::CopyFile {
            from: rpm_tool_output_path(root, version, arch),
            to: join(release_dir(root), rpm_name(version, arch)),
        },
        ActionView::RemoveDirectory { path: staging },
    ]
}

pub open spec fn container_actions(root: Seq<char>, version: Seq<char>, t: Target) -> Seq<ActionView> {
    let binary = join(join("dist"@, target_id(t)), cli_file_name(t));
    seq![
        ActionView::WriteFile { path: container_file_path(root), contents: container_file_text(binary) },
        ActionView::RunTool { argv: seq!["podman"@, "build"@, "-t"@, container_tag(version), root] },
        ActionView::RemoveFile { path: container_file_path(root) },
    ]
}

/// The plan of a step, or the error that keeps it from being packaged.
pub open spec fn step_plan(root: Seq<char>, version: Seq<char>, step: Step) -> Result<(Seq<ActionView>, Seq<ActionView>), ReleaseError> {
    let t = step.target;
    match step.kind {
        OutputKind::CliTarball => Ok((cli_tarball_actions(root, version, t), seq![])),
        OutputKind::LibraryTarball => Ok((library_tarball_actions(root, version, t), seq![])),
        OutputKind::Deb => match debian_architecture(t) {
            Some(arch) => Ok((
                deb_actions(root, version, t, arch),
                seq![ActionView::RemoveDirectory { path: deb_staging(root) }],
            )),
            None => Err(ReleaseError::UnsupportedTarget),
        },
        OutputKind::Rpm => match rpm_architecture(t) {
            Some(arch) => Ok((
                rpm_actions(root, version, t, arch),
                seq![ActionView::RemoveDirectory { path: rpm_staging(root) }],
            )),
            None => Err(ReleaseError::UnsupportedTarget),
        },
        OutputKind::Container => Ok((
            container_actions(root, version, t),
            seq![ActionView::RemoveFile { path: container_file_path(root) }],
        )),
    }
}

impl StepPlan {
    pub open spec fn matches(&self, plan: (Seq<ActionView>, Seq<ActionView>)) -> bool {
        actions_view(self.actions@) == plan.0 && actions_view(self.cleanup@) == plan.1
    }
}

fn artifact(root: &str, t: Target, name: &str) -> (r: String)
    ensures
        r@ == artifact_path(root@, t, name@),
{
    let dist = join_path(root, "dist");
    let dir = join_path(dist.as_str(), t.as_str());
    join_path(dir.as_str(), name)
}

fn release(root: &str) -> (r: String)
    ensures
        r@ == release_dir(root@),
{
    let dist = join_path(root, "dist");
    join_path(dist.as_str(), "release")
}

/// Packs the target's command-line executable under its own name.
pub fn cli_tarball_plan(root: &str, version: &str, t: Target) -> (r: StepPlan)
    ensures
        r.matches((cli_tarball_actions(root@, version@, t), seq![])),
{
    let names = target_file_names(t);
    let cli = names.cli_file_name;
    let entry = ArchiveEntry { source: artifact(root, t, cli.as_str()), name: cli };
    let name = cli_tarball_file_name(version, t);
    let output = join_path(release(root).as_str(), name.as_str());
    let entries = vec![entry];
    let r = StepPlan { actions: vec![Action::Archive { entries, output }], cleanup: Vec::new() };
    assert(entries_view(entries@) =~= seq![(artifact_path(root@, t, cli_file_name(t)), cli_file_name(t))]);
    assert(actions_view(r.actions@) =~= cli_tarball_actions(root@, version@, t));
    assert(actions_view(r.cleanup@) =~= seq![]);
    r
}

/// Packs the target's header, dynamic library and static library, in that order.
pub fn library_tarball_plan(root: &str, version: &str, t: Target) -> (r: StepPlan)
    ensures
        r.matches((library_tarball_actions(root@, version@, t), seq![])),
{
    let names = target_file_names(t);
    let h = ArchiveEntry {
        source: artifact(root, t, names.header_file_name.as_str()),
        name: names.header_file_name,
    };
    let d = ArchiveEntry {
        source: artifact(root, t, names.dynamic_library_file_name.as_str()),
        name: names.dynamic_library_file_name,
    };
    let s = ArchiveEntry {
        source: artifact(root, t, names.static_library_file_name.as_str()),
        name: names.static_library_file_name,
    };
    let name = library_tarball_file_name(version, t);
    let output = join_path(release(root).as_str(), name.as_str());
    let entries = vec![h, d, s];
    let r = StepPlan { actions: vec![Action::Archive { entries, output }], cleanup: Vec::new() };
    assert(entries_view(entries@) =~= seq![
        (artifact_path(root@, t, header_file_name(t)), header_file_name(t)),
        (artifact_path(root@, t, dynamic_library_file_name(t)), dynamic_library_file_name(t)),
        (artifact_path(root@, t, static_library_file_name(t)), static_library_file_name(t)),
    ]);
    assert(actions_view(r.actions@) =~= library_tarball_actions(root@, version@, t));
    assert(actions_view(r.cleanup@) =~= seq![]);
    r
}

/// Stages the executable and a control file under a fresh directory, builds the package
/// into the release directory, and removes the staging directory.
pub fn deb_plan(root: &str, version: &str, t: Target) -> (r: Result<StepPlan, ReleaseError>)
    ensures
        match step_plan(root@, version@, Step { kind: OutputKind::Deb, target: t }) {
            Ok(p) => r is Ok && r->Ok_0.matches(p),
            Err(e) => r is Err && r->Err_0 == e,
        },
{
    let arch = match debian_architecture_for(t) {
        Ok(a) => a,
        Err(_) => return Err(ReleaseError::UnsupportedTarget),
    };
    let cli = target_file_names(t).cli_file_name;
    let dist = join_path(root, "dist");
    let staging = join_path(dist.as_str(), "deb");
    let bin = join_path(staging.as_str(), "usr/bin");
    let debian = join_path(staging.as_str(), "DEBIAN");
    let deb = deb_file_name(version, arch);
    let argv = vec![
        String::from_str("dpkg-deb"),
        String::from_str("--build"),
        staging.clone(),
        join_path(release(root).as_str(), deb.as_str()),
    ];
    let actions = vec![
        Action::ResetDirectory { path: staging.clone() },
        Action::CreateDirectory { path: bin.clone() },
        Action::CopyFile { from: artifact(root, t, cli.as_str()), to: join_path(bin.as_str(), cli.as_str()) },
        Action::CreateDirectory { path: debian.clone() },
        Action::WriteFile { path: join_path(debian.as_str(), "control"), contents: debian_control(arch, version) },
        Action::RunTool { argv },
        Action::RemoveDirectory { path: staging.clone() },
    ];
    let cleanup = vec![Action::RemoveDirectory { path: staging }];
    let r = StepPlan { actions, cleanup };
    assert(strings_view(argv@) =~= seq![
        "dpkg-deb"@,
        "--build"@,
        deb_staging(root@),
        join(release_dir(root@), deb_name(version@, arch@)),
    ]);
    assert(actions_view(r.actions@) =~= deb_actions(root@, version@, t, arch@));
    assert(actions_view(r.cleanup@) =~= seq![ActionView::RemoveDirectory { path: deb_staging(root@) }]);
    Ok(r)
}

/// Lays out an RPM build tree with a source tarball and a spec file, runs the RPM build
/// tool, checks that its package is where the tool's naming puts it, copies it into the
/// release directory and removes the build tree.
pub fn rpm_plan(root: &str, version: &str, t: Target) -> (r: Result<StepPlan, ReleaseError>)
    ensures
        match step_plan(root@, version@, Step { kind: OutputKind::Rpm, target: t }) {
            Ok(p) => r is Ok && r->Ok_0.matches(p),
            Err(e) => r is Err && r->Err_0 == e,
        },
{
    let arch = match rpm_architecture_for(t) {
        Ok(a) => a,
        Err(_) => return Err(ReleaseError::UnsupportedTarget),
    };
    let cli = target_file_names(t).cli_file_name;
    let dist = join_path(root, "dist");
    let staging = join_path(dist.as_str(), "rpm");
    let spec_path = join_path(staging.as_str(), "SPECS/tangram.spec");
    let mut in_tar = String::from_str("tangram-");
    in_tar.append(version);
    in_tar.append("/tangram");
    let entries = vec![ArchiveEntry { source: artifact(root, t, cli.as_str()), name: in_tar }];
    let mut topdir = String::from_str("_topdir ");
    topdir.append(staging.as_str());
    let argv = vec![
        String::from_str("rpmbuild"),
        String::from_str("-D"),
        topdir,
        String::from_str("--target"),
        String::from_str(arch),
        String::from_str("-bb"),
        spec_path.clone(),
    ];
    let rpms = join_path(staging.as_str(), "RPMS");
    let arch_dir = join_path(rpms.as_str(), arch);
    let built_name = rpm_tool_output_file_name(version, arch);
    let built = join_path(arch_dir.as_str(), built_name.as_str());
    let rpm = rpm_file_name(version, arch);
    let actions = vec![
        Action::ResetDirectory { path: staging.clone() },
        Action::CreateDirectory { path: join_path(staging.as_str(), "BUILD") },
        Action::CreateDirectory { path: join_path(staging.as_str(), "BUILDROOT") },
        Action::CreateDirectory { path: rpms },
        Action::CreateDirectory { path: join_path(staging.as_str(), "SOURCES") },
        Action::CreateDirectory { path: join_path(staging.as_str(), "SPECS") },
        Action::CreateDirectory { path: join_path(staging.as_str(), "SRPMS") },
        Action::Archive { entries, output: join_path(staging.as_str(), "SOURCES/tangram.tar.gz") },
        Action::WriteFile { path: spec_path, contents: rpm_spec(version) },
        Action::RunTool { argv },
        Action::ExpectFile { path: built.clone() },
        Action::CopyFile { from: built, to: join_path(release(root).as_str(), rpm.as_str()) },
        Action::RemoveDirectory { path: staging.clone() },
    ];
    let cleanup = vec![Action::RemoveDirectory { path: staging }];
    let r = StepPlan { actions, cleanup };
    assert(entries_view(entries@) =~= seq![
        (artifact_path(root@, t, cli_file_name(t)), "tangram-"@ + version@ + "/tangram"@),
    ]);
    assert(strings_view(argv@) =~= seq![
        "rpmbuild"@,
        "-D"@,
        "_topdir "@ + rpm_staging(root@),
        "--target"@,
        arch@,
        "-bb"@,
        join(rpm_staging(root@), "SPECS/tangram.spec"@),
    ]);
    assert(actions_view(r.actions@) =~= rpm_actions(root@, version@, t, arch@));
    assert(actions_view(r.cleanup@) =~= seq![ActionView::RemoveDirectory { path: rpm_staging(root@) }]);
    Ok(r)
}

/// Writes a build definition for the target's executable, builds and tags the image, and
/// removes the build definition.
pub fn container_plan(root: &str, version: &str, t: Target) -> (r: StepPlan)
    ensures
        r.matches((
            container_actions(root@, version@, t),
            seq![ActionView::RemoveFile { path: container_file_path(root@) }],
        )),
{
    let cli = target_file_names(t).cli_file_name;
    let dir = join_path("dist", t.as_str());
    let binary = join_path(dir.as_str(), cli.as_str());
    let file = join_path(root, "Dockerfile");
    let argv = vec![
        String::from_str("podman"),
        String::from_str("build"),
        String::from_str("-t"),
        container_image_tag(version),
        String::from_str(root),
    ];
    let actions = vec![
        Action::WriteFile { path: file.clone(), contents: container_file(binary.as_str()) },
        Action::RunTool { argv },
        Action::RemoveFile { path: file.clone() },
    ];
    let cleanup = vec![Action::RemoveFile { path: file }];
    let r = StepPlan { actions, cleanup };
    assert(strings_view(argv@) =~= seq!["podman"@, "build"@, "-t"@, container_tag(version@), root@]);
    assert(actions_view(r.actions@) =~= container_actions(root@, version@, t));
    assert(actions_view(r.cleanup@) =~= seq![ActionView::RemoveFile { path: container_file_path(root@) }]);
    r
}

/// The plan of one step of a release rooted at `root`.
pub fn plan_step(root: &str, version: &str, step: Step) -> (r: Result<StepPlan, ReleaseError>)
    ensures
        match step_plan(root@, version@, step) {
            Ok(p) => r is Ok && r->Ok_0.matches(p),
            Err(e) => r is Err && r->Err_0 == e,
        },
{
    match step.kind {
        OutputKind::CliTarball => Ok(cli_tarball_plan(root, version, step.target)),
        OutputKind::LibraryTarball => Ok(library_tarball_plan(root, version, step.target)),
        OutputKind::Deb => deb_plan(root, version, step.target),
        OutputKind::Rpm => rpm_plan(root, version, step.target),
        OutputKind::Container => Ok(container_plan(root, version, step.target)),
    }
}

/// A packager with a staging directory resets it before anything else, removes it as its
/// last action, and removes it when it fails part-way: a staging directory never outlives
/// its step.
pub proof fn lemma_staging_released(root: Seq<char>, version: Seq<char>, step: Step)
    requires
        step.kind == OutputKind::Deb || step.kind == OutputKind::Rpm,
        step_plan(root, version, step) is Ok,
    ensures
        ({
            let (actions, cleanup) = step_plan(root, version, step)->Ok_0;
            let staging = if step.kind == OutputKind::Deb {
                deb_staging(root)
            } else {
                rpm_staging(root)
            };
            &&& actions[0] == ActionView::ResetDirectory { path: staging }
            &&& actions.last() == ActionView::RemoveDirectory { path: staging }
            &&& cleanup == seq![ActionView::RemoveDirectory { path: staging }]
        }),
{
}

/// A packager that has no architecture label for its target plans no work at all.
pub proof fn lemma_unsupported_target_plans_nothing(root: Seq<char>, version: Seq<char>, t: Target)
    ensures
        debian_architecture(t) is None ==> step_plan(root, version, Step { kind: OutputKind::Deb, target: t })
            == Err::<(Seq<ActionView>, Seq<ActionView>), ReleaseError>(ReleaseError::UnsupportedTarget),
        rpm_architecture(t) is None ==> step_plan(root, version, Step { kind: OutputKind::Rpm, target: t })
            == Err::<(Seq<ActionView>, Seq<ActionView>), ReleaseError>(ReleaseError::UnsupportedTarget),
{
}

/// The file that a step writes into the release directory; the container image is no file.
pub open spec fn release_output_name(version: Seq<char>, step: Step) -> Option<Seq<char>> {
    let t = step.target;
    match step.kind {
        OutputKind::CliTarball => Some(cli_tarball_name(version, t)),
        OutputKind::LibraryTarball => Some(library_tarball_name(version, t)),
        OutputKind::Deb => match debian_architecture(t) {
            Some(arch) => Some(deb_name(version, arch)),
            None => None,
        },
        OutputKind::Rpm => match rpm_architecture(t) {
            Some(arch) => Some(rpm_name(version, arch)),
            None => None,
        },
        OutputKind::Container => None,
    }
}

proof fn lemma_target_id_lengths(a: Target, b: Target)
    requires
        a != b,
    ensures
        target_id(a).len() != target_id(b).len(),
{
    reveal_strlit("x86_64-unknown-linux-gnu");
    reveal_strlit("x86_64-unknown-linux-musl");
    reveal_strlit("x86_64-apple-darwin");
    reveal_strlit("aarch64-apple-darwin");
    reveal_strlit("x86_64-pc-windows-msvc");
    reveal_strlit("x86_64-pc-windows-gnu");
}

/// Two different steps of one release never write the same file into the release
/// directory.
pub proof fn lemma_release_outputs_distinct(version: Seq<char>, a: Step, b: Step)
    requires
        a != b,
        release_output_name(version, a) is Some,
        release_output_name(version, b) is Some,
    ensures
        release_output_name(version, a) != release_output_name(version, b),
{
    let na = release_output_name(version, a)->Some_0;
    let nb = release_output_name(version, b)->Some_0;
    reveal_strlit("tangram_cli_");
    reveal_strlit("libtangram_");
    reveal_strlit("tangram_");
    reveal_strlit(".tar.gz");
    reveal_strlit(".deb");
    reveal_strlit(".rpm");
    reveal_strlit("_");
    if a.kind == b.kind {
        if a.kind == OutputKind::CliTarball || a.kind == OutputKind::LibraryTarball {
            lemma_target_id_lengths(a.target, b.target);
            assert(na.len() != nb.len());
        }
    } else if a.kind == OutputKind::LibraryTarball || b.kind == OutputKind::LibraryTarball {
        assert(na[0] != nb[0]);
    } else {
        assert(na[na.len() - 1] != nb[nb.len() - 1]);
    }
}

} // verus!
