use wasm_rpc::actions_may_proceed;
use wasm_rpc::build;
use wasm_rpc::build_context;
use wasm_rpc::BuildAction;
use wasm_rpc::BuildStep;
use wasm_rpc::cargo_toml_action;
use wasm_rpc::compose_dependencies;
use wasm_rpc::generate;
use wasm_rpc::generate_context;
use wasm_rpc::GenerateAction;
use wasm_rpc::GenerateStep;
use wasm_rpc::dependency_entries;
use wasm_rpc::stub_dependency_actions;
use wasm_rpc::stub_instance_names;
use wasm_rpc::AddStubDependencyArgs;
use wasm_rpc::CargoTomlAction;
use wasm_rpc::Command;
use wasm_rpc::ComposeArgs;
use wasm_rpc::WitAction;

#[test]
fn dependency_entries_pair_names_with_path() {
    let names = vec!["ns:pkg/api".to_string(), "ns:pkg/extra".to_string()];
    let path = "target/stub.wasm".to_string();
    let pairs = dependency_entries(&names, &path);
    assert_eq!(
        pairs,
        vec![
            ("ns:pkg/api".to_string(), "target/stub.wasm".to_string()),
            ("ns:pkg/extra".to_string(), "target/stub.wasm".to_string()),
        ]
    );
}

#[test]
fn dependency_entries_empty() {
    let pairs = dependency_entries(&vec![], &"p".to_string());
    assert!(pairs.is_empty());
}

#[test]
fn stub_instance_names_rejects_garbage() {
    let garbage = vec![0u8, 1, 2, 3, 4, 5];
    let result = stub_instance_names(&garbage);
    assert!(result.is_err());
    assert!(!result.unwrap_err().message.is_empty());
}

#[test]
fn compose_dependencies_empty_is_ok() {
    let result = compose_dependencies(&vec![]);
    assert_eq!(result, Ok(vec![]));
}

#[test]
fn compose_dependencies_propagates_parse_failure() {
    let stubs = vec![("stub.wasm".to_string(), vec![0u8, 0, 0, 0])];
    assert!(compose_dependencies(&stubs).is_err());
}

#[test]
fn command_surface_carries_plain_paths() {
    let command = Command::Compose(ComposeArgs {
        source_wasm: "a.wasm".to_string(),
        stub_wasm: vec!["b.wasm".to_string()],
        dest_wasm: "out.wasm".to_string(),
    });
    match command {
        Command::Compose(args) => {
            assert_eq!(args.source_wasm, "a.wasm");
            assert_eq!(args.stub_wasm.len(), 1);
            assert_eq!(args.dest_wasm, "out.wasm");
        }
        _ => panic!("unexpected command"),
    }

    let add = AddStubDependencyArgs {
        stub_wit_root: "wit".to_string(),
        dest_wit_root: "dest".to_string(),
        overwrite: true,
        update_cargo_toml: false,
    };
    assert!(add.overwrite);
    assert!(!add.update_cargo_toml);
}

#[test]
fn generate_runs_steps_in_order() {
    let mut order: Vec<GenerateStep> = Vec::new();
    let mut action = generate(None, false);
    while let GenerateAction::Run(step) = action {
        order.push(step);
        action = generate(Some(step), false);
    }
    assert_eq!(action, GenerateAction::Done);
    assert_eq!(
        order,
        vec![
            GenerateStep::GatherDefinition,
            GenerateStep::GenerateStubWit,
            GenerateStep::CopyWitFiles,
            GenerateStep::VerifyTargetWits,
            GenerateStep::GenerateCargoToml,
            GenerateStep::GenerateStubSource,
        ]
    );
}

#[test]
fn generate_stops_on_first_failure() {
    assert_eq!(
        generate(Some(GenerateStep::CopyWitFiles), true),
        GenerateAction::Fail(GenerateStep::CopyWitFiles)
    );
    assert_eq!(
        generate_context(GenerateStep::CopyWitFiles),
        "Failed to copy the dependent wit files"
    );
    assert_eq!(
        generate_context(GenerateStep::GatherDefinition),
        "Failed to gather information for the stub generator"
    );
}

#[test]
fn actions_proceed_only_when_all_verified() {
    assert!(actions_may_proceed(&vec![]));
    assert!(actions_may_proceed(&vec![true, true, true]));
    assert!(!actions_may_proceed(&vec![true, false, true]));
    assert!(!actions_may_proceed(&vec![false]));
}

#[test]
fn cargo_toml_policy() {
    assert_eq!(
        cargo_toml_action(true, true, true),
        CargoTomlAction::AddDependencies
    );
    assert_eq!(
        cargo_toml_action(true, true, false),
        CargoTomlAction::WarnManualUpdate
    );
    assert_eq!(
        cargo_toml_action(true, false, true),
        CargoTomlAction::FailMissingManifest
    );
    assert_eq!(cargo_toml_action(true, false, false), CargoTomlAction::LeaveAlone);
    assert_eq!(
        cargo_toml_action(false, false, true),
        CargoTomlAction::FailMissingParent
    );
    assert_eq!(cargo_toml_action(false, false, false), CargoTomlAction::LeaveAlone);
}

#[test]
fn build_runs_steps_in_order() {
    let mut order: Vec<BuildStep> = Vec::new();
    let mut action = build(None, false);
    while let BuildAction::Run(step) = action {
        order.push(step);
        action = build(Some(step), false);
    }
    assert_eq!(action, BuildAction::Done);
    assert_eq!(
        order,
        vec![
            BuildStep::GatherDefinition,
            BuildStep::GenerateStubWit,
            BuildStep::CopyWitFiles,
            BuildStep::VerifyTargetWits,
            BuildStep::GenerateCargoToml,
            BuildStep::GenerateStubSource,
            BuildStep::Compile,
            BuildStep::CreateWasmParentDir,
            BuildStep::CopyWasmToDestination,
            BuildStep::CreateTargetWitRoot,
            BuildStep::CopyGeneratedWitFiles,
        ]
    );
}

#[test]
fn build_stops_on_first_failure() {
    assert_eq!(
        build(Some(BuildStep::Compile), true),
        BuildAction::Fail(BuildStep::Compile)
    );
    assert_eq!(
        build_context(BuildStep::Compile),
        "Failed to compile the generated stub"
    );
}

#[test]
fn stub_dependency_action_plan() {
    let deps = vec!["deps/wasm-rpc".to_string(), "deps/io".to_string()];
    let actions = stub_dependency_actions(
        &deps,
        &"stub-wit/_stub.wit".to_string(),
        &"ns".to_string(),
        &"pkg".to_string(),
    );
    assert_eq!(
        actions,
        vec![
            WitAction::CopyDepDir { source_dir: "deps/wasm-rpc".to_string() },
            WitAction::CopyDepDir { source_dir: "deps/io".to_string() },
            WitAction::CopyDepWit {
                source_wit: "stub-wit/_stub.wit".to_string(),
                dir_name: "ns_pkg".to_string(),
            },
        ]
    );
}

#[test]
fn stub_dependency_action_plan_without_deps() {
    let actions = stub_dependency_actions(
        &vec![],
        &"_stub.wit".to_string(),
        &"a".to_string(),
        &"b".to_string(),
    );
    assert_eq!(
        actions,
        vec![WitAction::CopyDepWit {
            source_wit: "_stub.wit".to_string(),
            dir_name: "a_b".to_string(),
        }]
    );
}
