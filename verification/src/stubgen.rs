use vstd::prelude::*;
use vstd::string::StringExecFns;

verus! {

/// The command surface of the stub-generation tool. Each command carries
/// filesystem paths as plain strings; the thin driver around the library
/// parses the command line and performs the filesystem work.
#[derive(Debug, PartialEq)]
pub enum Command {
    Generate(GenerateArgs),
    Build(BuildArgs),
    AddStubDependency(AddStubDependencyArgs),
    Compose(ComposeArgs),
    InitializeWorkspace(InitializeWorkspaceArgs),
}

/// Arguments for generating a stub crate from a WIT root.
#[derive(Debug, PartialEq)]
pub struct GenerateArgs {
    pub source_wit_root: String,
    pub dest_crate_root: String,
    pub world: Option<String>,
    pub stub_crate_version: String,
    pub wasm_rpc_path_override: Option<String>,
}

/// Arguments for building a stub into a WASM component.
#[derive(Debug, PartialEq)]
pub struct BuildArgs {
    pub source_wit_root: String,
    pub dest_wasm: String,
    pub dest_wit_root: String,
    pub world: Option<String>,
    pub stub_crate_version: String,
    pub wasm_rpc_path_override: Option<String>,
}

/// Arguments for adding a generated stub as a dependency of another
/// component.
#[derive(Debug, PartialEq)]
pub struct AddStubDependencyArgs {
    pub stub_wit_root: String,
    pub dest_wit_root: String,
    pub overwrite: bool,
    pub update_cargo_toml: bool,
}

/// Arguments for composing a component with built stub components.
#[derive(Debug, PartialEq)]
pub struct ComposeArgs {
    pub source_wasm: String,
    pub stub_wasm: Vec<String>,
    pub dest_wasm: String,
}

/// Arguments for initializing a cargo-make workspace around generated
/// stubs.
#[derive(Debug, PartialEq)]
pub struct InitializeWorkspaceArgs {
    pub targets: Vec<String>,
    pub callers: Vec<String>,
    pub wasm_rpc_path_override: Option<String>,
}

/// Whether copying stub WIT files may proceed: every planned action must
/// have passed its verification against the destination, and one failure
/// blocks them all.
pub fn actions_may_proceed(verified: &Vec<bool>) -> (r: bool)
    ensures
        r == (forall|j: int| 0 <= j < verified@.len() ==> verified@[j]),
{
    let mut i: usize = 0;
    while i < verified.len()
        invariant
            0 <= i <= verified@.len(),
            forall|j: int| 0 <= j < i ==> verified@[j],
        decreases verified@.len() - i,
    {
        if !verified[i] {
            return false;
        }
        i = i + 1;
    }
    true
}

/// One planned copy step of adding a stub as a dependency of another
/// component.
#[derive(Debug, PartialEq)]
pub enum WitAction {
    /// Copy a whole dependency directory into the destination.
    CopyDepDir { source_dir: String },
    /// Copy the stub's main WIT file into a destination directory of the
    /// given name.
    CopyDepWit { source_wit: String, dir_name: String },
}

/// The ordered action plan of adding a stub as a dependency: one directory
/// copy per dependency directory of the stub's WIT root, in the given
/// order, then the stub's main WIT file copied into a directory named
/// after the stub package, its namespace and name joined by an underscore.
pub fn stub_dependency_actions(
    source_deps: &Vec<String>,
    main_wit: &String,
    package_namespace: &String,
    package_name: &String,
) -> (actions: Vec<WitAction>)
    ensures
        actions@.len() == source_deps@.len() + 1,
        forall|j: int|
            0 <= j < source_deps@.len() ==> (#[trigger] actions@[j] matches WitAction::CopyDepDir {
                source_dir } && source_dir@ == source_deps@[j]@),
        actions@.last() matches WitAction::CopyDepWit { source_wit, dir_name } && source_wit@
            == main_wit@ && dir_name@ == package_namespace@ + "_"@ + package_name@,
{
    let mut actions: Vec<WitAction> = Vec::new();
    let mut i: usize = 0;
    while i < source_deps.len()
        invariant
            0 <= i <= source_deps@.len(),
            actions@.len() == i,
            forall|j: int|
                0 <= j < i ==> (#[trigger] actions@[j] matches WitAction::CopyDepDir {
                    source_dir } && source_dir@ == source_deps@[j]@),
        decreases source_deps@.len() - i,
    {
        actions.push(WitAction::CopyDepDir { source_dir: source_deps[i].clone() });
        i = i + 1;
    }
    let mut dir_name = package_namespace.clone();
    dir_name.append("_");
    dir_name.append(package_name.as_str());
    actions.push(WitAction::CopyDepWit { source_wit: main_wit.clone(), dir_name });
    actions
}

/// What to do about the destination's manifest once a stub's WIT files have
/// been copied in as a dependency.
#[derive(Debug, PartialEq)]
pub enum CargoTomlAction {
    /// Add the copied dependencies to the component manifest.
    AddDependencies,
    /// Warn that the manifest has to be updated by hand.
    WarnManualUpdate,
    /// Leave the manifest alone.
    LeaveAlone,
    /// Fail: an update was requested but there is no component manifest.
    FailMissingManifest,
    /// Fail: an update was requested but the destination has no parent
    /// directory to hold a manifest.
    FailMissingParent,
}

/// The manifest policy of adding a stub dependency: an update only happens
/// when it was asked for and a component manifest is there to update; asking
/// for one that cannot happen is an error, and without the flag a present
/// manifest only draws a warning.
pub open spec fn cargo_toml_decision(
    parent_exists: bool,
    component_manifest_present: bool,
    update_cargo_toml: bool,
) -> CargoTomlAction {
    if parent_exists {
        if component_manifest_present {
            if update_cargo_toml {
                CargoTomlAction::AddDependencies
            } else {
                CargoTomlAction::WarnManualUpdate
            }
        } else {
            if update_cargo_toml {
                CargoTomlAction::FailMissingManifest
            } else {
                CargoTomlAction::LeaveAlone
            }
        }
    } else {
        if update_cargo_toml {
            CargoTomlAction::FailMissingParent
        } else {
            CargoTomlAction::LeaveAlone
        }
    }
}

/// Decides the manifest step of adding a stub dependency, from what the
/// driver found on disk: whether the destination WIT root has a parent
/// directory, whether that parent holds a cargo-component manifest, and
/// whether the caller asked for the manifest to be updated.
pub fn cargo_toml_action(
    parent_exists: bool,
    component_manifest_present: bool,
    update_cargo_toml: bool,
) -> (a: CargoTomlAction)
    ensures
        a == cargo_toml_decision(parent_exists, component_manifest_present, update_cargo_toml),
{
    if parent_exists {
        if component_manifest_present {
            if update_cargo_toml {
                CargoTomlAction::AddDependencies
            } else {
                CargoTomlAction::WarnManualUpdate
            }
        } else {
            if update_cargo_toml {
                CargoTomlAction::FailMissingManifest
            } else {
                CargoTomlAction::LeaveAlone
            }
        }
    } else {
        if update_cargo_toml {
            CargoTomlAction::FailMissingParent
        } else {
            CargoTomlAction::LeaveAlone
        }
    }
}

/// One step of the stub-generation pipeline, in the order the pipeline
/// runs them: gather the stub definition from the source WIT root, write
/// the stub WIT file, copy the dependent WIT files, resolve the result WIT
/// root, write the stub crate's manifest, and write the stub Rust source.
#[derive(Debug, Clone, Copy, PartialEq)]
pub enum GenerateStep {
    GatherDefinition,
    GenerateStubWit,
    CopyWitFiles,
    VerifyTargetWits,
    GenerateCargoToml,
    GenerateStubSource,
}

/// What the stub-generation pipeline does next: run a step, stop because
/// the named step failed, or finish.
#[derive(Debug, PartialEq)]
pub enum GenerateAction {
    Run(GenerateStep),
    Fail(GenerateStep),
    Done,
}

/// The next action of the stub-generation pipeline, given the step that
/// just finished (absent when the pipeline starts) and whether it failed:
/// the steps run in their fixed order, and the first failure ends the
/// pipeline under that step's name.
pub open spec fn next_generate_action(finished: Option<GenerateStep>, failed: bool)
    -> GenerateAction {
    match finished {
        None => GenerateAction::Run(GenerateStep::GatherDefinition),
        Some(step) => if failed {
            GenerateAction::Fail(step)
        } else {
            match step {
                GenerateStep::GatherDefinition => GenerateAction::Run(
                    GenerateStep::GenerateStubWit,
                ),
                GenerateStep::GenerateStubWit => GenerateAction::Run(GenerateStep::CopyWitFiles),
                GenerateStep::CopyWitFiles => GenerateAction::Run(GenerateStep::VerifyTargetWits),
                GenerateStep::VerifyTargetWits => GenerateAction::Run(
                    GenerateStep::GenerateCargoToml,
                ),
                GenerateStep::GenerateCargoToml => GenerateAction::Run(
                    GenerateStep::GenerateStubSource,
                ),
                GenerateStep::GenerateStubSource => GenerateAction::Done,
            }
        },
    }
}

/// The decision core of stub generation. The steps themselves are
/// filesystem and code-generation work that the driver around the library
/// performs; this function owns their order and the failure policy: given
/// the step that just finished and whether it failed, it decides what runs
/// next, and the first failure ends the pipeline under that step's name.
pub fn generate(finished: Option<GenerateStep>, failed: bool) -> (action: GenerateAction)
    ensures
        action == next_generate_action(finished, failed),
{
    match finished {
        None => GenerateAction::Run(GenerateStep::GatherDefinition),
        Some(step) => if failed {
            GenerateAction::Fail(step)
        } else {
            match step {
                GenerateStep::GatherDefinition => GenerateAction::Run(
                    GenerateStep::GenerateStubWit,
                ),
                GenerateStep::GenerateStubWit => GenerateAction::Run(GenerateStep::CopyWitFiles),
                GenerateStep::CopyWitFiles => GenerateAction::Run(GenerateStep::VerifyTargetWits),
                GenerateStep::VerifyTargetWits => GenerateAction::Run(
                    GenerateStep::GenerateCargoToml,
                ),
                GenerateStep::GenerateCargoToml => GenerateAction::Run(
                    GenerateStep::GenerateStubSource,
                ),
                GenerateStep::GenerateStubSource => GenerateAction::Done,
            }
        },
    }
}

/// The context line under which a failure of `step` is reported to the
/// user.
pub fn generate_context(step: GenerateStep) -> (msg: String)
    ensures
        step is GatherDefinition ==> msg@ == "Failed to gather information for the stub generator"@,
        step is GenerateStubWit ==> msg@ == "Failed to generate the stub wit file"@,
        step is CopyWitFiles ==> msg@ == "Failed to copy the dependent wit files"@,
        step is VerifyTargetWits ==> msg@ == "Failed to resolve the result WIT root"@,
        step is GenerateCargoToml ==> msg@ == "Failed to generate the Cargo.toml file"@,
        step is GenerateStubSource ==> msg@ == "Failed to generate the stub Rust source"@,
{
    match step {
        GenerateStep::GatherDefinition => String::from_str(
            "Failed to gather information for the stub generator",
        ),
        GenerateStep::GenerateStubWit => String::from_str("Failed to generate the stub wit file"),
        GenerateStep::CopyWitFiles => String::from_str("Failed to copy the dependent wit files"),
        GenerateStep::VerifyTargetWits => String::from_str("Failed to resolve the result WIT root"),
        GenerateStep::GenerateCargoToml => String::from_str(
            "Failed to generate the Cargo.toml file",
        ),
        GenerateStep::GenerateStubSource => String::from_str(
            "Failed to generate the stub Rust source",
        ),
    }
}

/// One step of building a stub into a WASM component, in the order the
/// pipeline runs them: the generation steps over a temporary crate root,
/// then compiling that crate, creating the target WASM file's parent
/// directory, copying the built WASM into place, creating the target WIT
/// root, and copying the generated WIT files into it.
#[derive(Debug, Clone, Copy, PartialEq)]
pub enum BuildStep {
    GatherDefinition,
    GenerateStubWit,
    CopyWitFiles,
    VerifyTargetWits,
    GenerateCargoToml,
    GenerateStubSource,
    Compile,
    CreateWasmParentDir,
    CopyWasmToDestination,
    CreateTargetWitRoot,
    CopyGeneratedWitFiles,
}

/// What the build pipeline does next: run a step, stop because the named
/// step failed, or finish.
#[derive(Debug, PartialEq)]
pub enum BuildAction {
    Run(BuildStep),
    Fail(BuildStep),
    Done,
}

/// The next action of the build pipeline, given the step that just
/// finished (absent when the pipeline starts) and whether it failed: the
/// steps run in their fixed order, and the first failure ends the pipeline
/// under that step's name.
pub open spec fn next_build_action(finished: Option<BuildStep>, failed: bool) -> BuildAction {
    match finished {
        None => BuildAction::Run(BuildStep::GatherDefinition),
        Some(step) => if failed {
            BuildAction::Fail(step)
        } else {
            match step {
                BuildStep::GatherDefinition => BuildAction::Run(BuildStep::GenerateStubWit),
                BuildStep::GenerateStubWit => BuildAction::Run(BuildStep::CopyWitFiles),
                BuildStep::CopyWitFiles => BuildAction::Run(BuildStep::VerifyTargetWits),
                BuildStep::VerifyTargetWits => BuildAction::Run(BuildStep::GenerateCargoToml),
                BuildStep::GenerateCargoToml => BuildAction::Run(BuildStep::GenerateStubSource),
                BuildStep::GenerateStubSource => BuildAction::Run(BuildStep::Compile),
                BuildStep::Compile => BuildAction::Run(BuildStep::CreateWasmParentDir),
                BuildStep::CreateWasmParentDir => BuildAction::Run(
                    BuildStep::CopyWasmToDestination,
                ),
                BuildStep::CopyWasmToDestination => BuildAction::Run(
                    BuildStep::CreateTargetWitRoot,
                ),
                BuildStep::CreateTargetWitRoot => BuildAction::Run(
                    BuildStep::CopyGeneratedWitFiles,
                ),
                BuildStep::CopyGeneratedWitFiles => BuildAction::Done,
            }
        },
    }
}

/// The decision core of building a stub. The steps themselves are
/// filesystem, compilation and code-generation work that the driver around
/// the library performs, waiting on the compiler where it must; this
/// function owns their order and the failure policy: given the step that
/// just finished and whether it failed, it decides what runs next, and the
/// first failure ends the pipeline under that step's name.
pub fn build(finished: Option<BuildStep>, failed: bool) -> (action: BuildAction)
    ensures
        action == next_build_action(finished, failed),
{
    match finished {
        None => BuildAction::Run(BuildStep::GatherDefinition),
        Some(step) => if failed {
            BuildAction::Fail(step)
        } else {
            match step {
                BuildStep::GatherDefinition => BuildAction::Run(BuildStep::GenerateStubWit),
                BuildStep::GenerateStubWit => BuildAction::Run(BuildStep::CopyWitFiles),
                BuildStep::CopyWitFiles => BuildAction::Run(BuildStep::VerifyTargetWits),
                BuildStep::VerifyTargetWits => BuildAction::Run(BuildStep::GenerateCargoToml),
                BuildStep::GenerateCargoToml => BuildAction::Run(BuildStep::GenerateStubSource),
                BuildStep::GenerateStubSource => BuildAction::Run(BuildStep::Compile),
                BuildStep::Compile => BuildAction::Run(BuildStep::CreateWasmParentDir),
                BuildStep::CreateWasmParentDir => BuildAction::Run(
                    BuildStep::CopyWasmToDestination,
                ),
                BuildStep::CopyWasmToDestination => BuildAction::Run(
                    BuildStep::CreateTargetWitRoot,
                ),
                BuildStep::CreateTargetWitRoot => BuildAction::Run(
                    BuildStep::CopyGeneratedWitFiles,
                ),
                BuildStep::CopyGeneratedWitFiles => BuildAction::Done,
            }
        },
    }
}

/// The context line under which a failure of a build step is reported to
/// the user.
pub fn build_context(step: BuildStep) -> (msg: String)
    ensures
        step is GatherDefinition ==> msg@ == "Failed to gather information for the stub generator"@,
        step is GenerateStubWit ==> msg@ == "Failed to generate the stub wit file"@,
        step is CopyWitFiles ==> msg@ == "Failed to copy the dependent wit files"@,
        step is VerifyTargetWits ==> msg@ == "Failed to resolve the result WIT root"@,
        step is GenerateCargoToml ==> msg@ == "Failed to generate the Cargo.toml file"@,
        step is GenerateStubSource ==> msg@ == "Failed to generate the stub Rust source"@,
        step is Compile ==> msg@ == "Failed to compile the generated stub"@,
        step is CreateWasmParentDir ==> msg@
            == "Failed to create parent directory of the target WASM file"@,
        step is CopyWasmToDestination ==> msg@
            == "Failed to copy the WASM file to the destination"@,
        step is CreateTargetWitRoot ==> msg@
            == "Failed to create the target WIT root directory"@,
        step is CopyGeneratedWitFiles ==> msg@
            == "Failed to copy the generated WIT files to the destination"@,
{
    match step {
        BuildStep::GatherDefinition => String::from_str(
            "Failed to gather information for the stub generator",
        ),
        BuildStep::GenerateStubWit => String::from_str("Failed to generate the stub wit file"),
        BuildStep::CopyWitFiles => String::from_str("Failed to copy the dependent wit files"),
        BuildStep::VerifyTargetWits => String::from_str("Failed to resolve the result WIT root"),
        BuildStep::GenerateCargoToml => String::from_str("Failed to generate the Cargo.toml file"),
        BuildStep::GenerateStubSource => String::from_str(
            "Failed to generate the stub Rust source",
        ),
        BuildStep::Compile => String::from_str("Failed to compile the generated stub"),
        BuildStep::CreateWasmParentDir => String::from_str(
            "Failed to create parent directory of the target WASM file",
        ),
        BuildStep::CopyWasmToDestination => String::from_str(
            "Failed to copy the WASM file to the destination",
        ),
        BuildStep::CreateTargetWitRoot => String::from_str(
            "Failed to create the target WIT root directory",
        ),
        BuildStep::CopyGeneratedWitFiles => String::from_str(
            "Failed to copy the generated WIT files to the destination",
        ),
    }
}

/// A failure while scanning a stub component for its exported instances.
#[derive(Debug, PartialEq)]
pub struct ComposeError {
    pub message: String,
}

/// The top-level exports of the component binary `bytes`, in the order the
/// analysis lists them, each as its exported instance name (absent for a
/// function export); or the reason decoding or analysing the binary fails.
/// It is a function of the bytes alone.
pub uninterp spec fn stub_export_names(bytes: Seq<u8>) -> Result<
    Seq<Option<Seq<char>>>,
    Seq<char>,
>;

/// The models of a sequence of optional names.
pub open spec fn option_strings_view(names: Seq<Option<String>>) -> Seq<Option<Seq<char>>> {
    Seq::new(
        names.len(),
        |i: int|
            match names[i] {
                Some(s) => Some(s@),
                None => None,
            },
    )
}

/// The models of a sequence of names.
pub open spec fn strings_view(names: Seq<String>) -> Seq<Seq<char>> {
    Seq::new(names.len(), |i: int| names[i]@)
}

/// Relies on golem_wasm_ast::analysis::wit_parser::WitAnalysisContext::new
/// and WitAnalysisContext::get_top_level_exports, and on the shape of
/// golem_wasm_ast::analysis::AnalysedExport (an export is a function or an
/// instance, and only an instance carries an instance name): decodes a
/// component binary, analyses it, and lists its top-level exports, each
/// converted to its instance name. Both calls are functions of the bytes
/// alone, and they share this wrapper because the analysis value between
/// them is opaque; either stage's failure reason is returned as the error.
#[verifier::external_body]
fn analyse_stub_exports(bytes: &Vec<u8>) -> (r: Result<Vec<Option<String>>, String>)
    ensures
        match r {
            Ok(names) => stub_export_names(bytes@) matches Ok(ens) && option_strings_view(
                names@,
            ) == ens,
            Err(m) => stub_export_names(bytes@) matches Err(reason) && m@ == reason,
        },
{
    let ctx = golem_wasm_ast::analysis::wit_parser::WitAnalysisContext::new(bytes.as_slice())
        .map_err(|err| err.reason)?;
    let exports = ctx.get_top_level_exports().map_err(|err| err.reason)?;
    Ok(
        exports.into_iter().map(
            |export| match export {
                golem_wasm_ast::analysis::AnalysedExport::Instance(instance) => Some(
                    instance.name,
                ),
                golem_wasm_ast::analysis::AnalysedExport::Function(_) => None,
            },
        ).collect(),
    )
}

/// The present names among `ens`, from position `i` on, in order.
pub open spec fn present_names(ens: Seq<Option<Seq<char>>>, i: int) -> Seq<Seq<char>>
    decreases ens.len() - i,
{
    if i < 0 || i >= ens.len() {
        Seq::empty()
    } else {
        match ens[i] {
            Some(n) => seq![n] + present_names(ens, i + 1),
            None => present_names(ens, i + 1),
        }
    }
}

/// What scanning one stub component yields: the names of its exported
/// instances, in export order, or the first failure reason of decoding or
/// analysing it. A function of the bytes alone.
pub open spec fn stub_scan(bytes: Seq<u8>) -> Result<Seq<Seq<char>>, Seq<char>> {
    match stub_export_names(bytes) {
        Ok(ens) => Ok(present_names(ens, 0)),
        Err(m) => Err(m),
    }
}

/// Pairs every exported instance name with the path of the stub component
/// that exports it: these are the dependency entries that composition
/// registers, in the order the names were found.
pub fn dependency_entries(names: &Vec<String>, path: &String) -> (pairs: Vec<(String, String)>)
    ensures
        pairs@.len() == names@.len(),
        forall|j: int|
            0 <= j < names@.len() ==> (#[trigger] pairs@[j]).0@ == names@[j]@ && pairs@[j].1@
                == path@,
{
    let mut pairs: Vec<(String, String)> = Vec::new();
    let mut i: usize = 0;
    while i < names.len()
        invariant
            0 <= i <= names@.len(),
            pairs@.len() == i,
            forall|j: int|
                0 <= j < i ==> (#[trigger] pairs@[j]).0@ == names@[j]@ && pairs@[j].1@ == path@,
        decreases names@.len() - i,
    {
        let name = names[i].clone();
        let p = path.clone();
        pairs.push((name, p));
        i = i + 1;
    }
    pairs
}

/// Scans one built stub component for the names of its exported instances:
/// decodes the bytes, analyses the component, and keeps exactly the
/// instance exports, in the order the analysis lists them; the result is
/// exactly what `stub_scan` says of the bytes, and a decode or analysis
/// failure is returned with its reason.
pub fn stub_instance_names(stub_bytes: &Vec<u8>) -> (r: Result<Vec<String>, ComposeError>)
    ensures
        match r {
            Ok(names) => stub_scan(stub_bytes@) matches Ok(ns) && strings_view(names@) == ns,
            Err(e) => stub_scan(stub_bytes@) matches Err(m) && e.message@ == m,
        },
{
    let export_names = match analyse_stub_exports(stub_bytes) {
        Ok(e) => e,
        Err(message) => {
            return Err(ComposeError { message });
        },
    };
    let ghost ens = option_strings_view(export_names@);
    let mut names: Vec<String> = Vec::new();
    let mut i: usize = 0;
    proof {
        assert(strings_view(names@) + present_names(ens, 0) =~= present_names(ens, 0));
    }
    while i < export_names.len()
        invariant
            0 <= i <= export_names@.len(),
            ens == option_strings_view(export_names@),
            ens.len() == export_names@.len(),
            strings_view(names@) + present_names(ens, i as int) == present_names(ens, 0),
        decreases export_names@.len() - i,
    {
        let ghost prev = names@;
        match &export_names[i] {
            Some(name) => {
                names.push(name.clone());
                proof {
                    assert(ens[i as int] == Some(names@.last()@));
                    assert(strings_view(names@) =~= strings_view(prev).push(names@.last()@));
                    assert(strings_view(names@) + present_names(ens, i + 1) =~= strings_view(
                        prev,
                    ) + present_names(ens, i as int));
                }
            },
            None => {
                proof {
                    assert(ens[i as int] is None);
                }
            },
        }
        i = i + 1;
    }
    proof {
        assert(present_names(ens, export_names@.len() as int) == Seq::<Seq<char>>::empty());
        assert(strings_view(names@) + Seq::<Seq<char>>::empty() =~= strings_view(names@));
    }
    Ok(names)
}

/// One dependency entry per name, every name of `names` paired with `path`.
pub open spec fn named_with(names: Seq<Seq<char>>, path: Seq<char>) -> Seq<(Seq<char>, Seq<char>)> {
    Seq::new(names.len(), |i: int| (names[i], path))
}

/// The models of a sequence of dependency entries.
pub open spec fn pairs_view(ps: Seq<(String, String)>) -> Seq<(Seq<char>, Seq<char>)> {
    Seq::new(ps.len(), |i: int| (ps[i].0@, ps[i].1@))
}

/// The dependency entries that composing with `stubs[i]`, `stubs[i + 1]`,
/// ... registers: one block per stub, in order, each block pairing the
/// stub's exported instance names with the stub's own path; or the first
/// failing stub's reason.
pub open spec fn dependency_blocks(stubs: Seq<(String, Vec<u8>)>, i: int) -> Result<
    Seq<(Seq<char>, Seq<char>)>,
    Seq<char>,
>
    decreases stubs.len() - i,
{
    if i < 0 || i >= stubs.len() {
        Ok(Seq::empty())
    } else {
        match stub_scan(stubs[i].1@) {
            Err(m) => Err(m),
            Ok(ns) => match dependency_blocks(stubs, i + 1) {
                Err(m) => Err(m),
                Ok(rest) => Ok(named_with(ns, stubs[i].0@) + rest),
            },
        }
    }
}

/// The dependency entries that composing a component with the given stubs
/// registers: exactly `dependency_blocks` of the stubs — for each stub, in
/// order, its exported instance names paired with the stub's own path — or
/// the first failing stub's reason.
pub fn compose_dependencies(stubs: &Vec<(String, Vec<u8>)>) -> (r: Result<
    Vec<(String, String)>,
    ComposeError,
>)
    ensures
        match r {
            Ok(pairs) => dependency_blocks(stubs@, 0) matches Ok(entries) && pairs_view(pairs@)
                == entries,
            Err(e) => dependency_blocks(stubs@, 0) matches Err(m) && e.message@ == m,
        },
{
    let mut all: Vec<(String, String)> = Vec::new();
    let mut i: usize = 0;
    proof {
        match dependency_blocks(stubs@, 0) {
            Ok(rest) => {
                assert(pairs_view(all@) + rest =~= rest);
            },
            Err(m) => {},
        }
    }
    while i < stubs.len()
        invariant
            0 <= i <= stubs@.len(),
            dependency_blocks(stubs@, 0) == match dependency_blocks(stubs@, i as int) {
                Ok(rest) => Ok(pairs_view(all@) + rest),
                Err(m) => Err::<Seq<(Seq<char>, Seq<char>)>, Seq<char>>(m),
            },
        decreases stubs@.len() - i,
    {
        let ghost pv0 = pairs_view(all@);
        let names = match stub_instance_names(&stubs[i].1) {
            Ok(names) => names,
            Err(e) => {
                return Err(e);
            },
        };
        let ghost ns = match stub_scan(stubs@[i as int].1@) {
            Ok(ns) => ns,
            Err(m) => Seq::empty(),
        };
        let path = &stubs[i].0;
        let pairs = dependency_entries(&names, path);
        proof {
            assert(pairs_view(all@) + pairs_view(pairs@).subrange(0, 0) =~= pv0);
        }
        let mut k: usize = 0;
        while k < pairs.len()
            invariant
                0 <= k <= pairs@.len(),
                pairs_view(all@) == pv0 + pairs_view(pairs@).subrange(0, k as int),
            decreases pairs@.len() - k,
        {
            let ghost before = all@;
            let entry = (pairs[k].0.clone(), pairs[k].1.clone());
            all.push(entry);
            k = k + 1;
            proof {
                assert(pairs_view(all@) =~= pairs_view(before).push(
                    (pairs@[k - 1].0@, pairs@[k - 1].1@),
                ));
                assert(pairs_view(all@) =~= pv0 + pairs_view(pairs@).subrange(0, k as int));
            }
        }
        proof {
            assert(strings_view(names@) == ns);
            assert(pairs_view(pairs@).subrange(0, pairs@.len() as int) =~= pairs_view(pairs@));
            assert(pairs_view(pairs@) =~= named_with(ns, stubs@[i as int].0@));
            match dependency_blocks(stubs@, i + 1) {
                Ok(rest) => {
                    assert(pairs_view(all@) + rest =~= pv0 + (named_with(
                        ns,
                        stubs@[i as int].0@,
                    ) + rest));
                },
                Err(m) => {},
            }
        }
        i = i + 1;
    }
    Ok(all)
}

} // verus!
