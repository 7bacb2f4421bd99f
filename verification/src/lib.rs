//! Conversion between a recursive tree value (`Value`) and its flattened,
//! arena-style wire form (`WitValue`): an ordered sequence of nodes linked
//! by strictly forward positions, built top-down through a reserve-and-patch
//! builder, decoded back by bounds-checked reference following, and proved
//! to round-trip exactly. Around the codec stands the interface of the
//! stub-generation tool: its command surface, the decision cores of its
//! pipelines, and the scan of built stub components for their exported
//! instances.

mod builder;
mod decode;
mod encode;
mod laws;
mod node;
mod stubgen;
mod value;

pub use builder::takes_child;
pub use builder::takes_children;
pub use builder::with_child_view;
pub use builder::with_children_view;
pub use builder::WitValueBuilder;
pub use decode::dec;
pub use decode::error_describes;
pub use decode::first_fault;
pub use decode::first_fault_children;
pub use decode::first_payload_fault;
pub use decode::dec_children;
pub use decode::decode;
pub use decode::DecodeError;
pub use encode::child_index_seq;
pub use encode::enc;
pub use encode::enc_seq;
pub use encode::encode;
pub use encode::lemma_enc_len;
pub use encode::lemma_enc_seq_len;
pub use encode::lemma_node_count_pos;
pub use encode::lemma_prefix_plus_suffix;
pub use encode::node_count;
pub use encode::prefix_count;
pub use encode::seq_node_count;
pub use laws::lemma_dec_enc_embedded;
pub use laws::lemma_enc_forward;
pub use laws::lemma_encode_well_formed;
pub use laws::lemma_root_kind;
pub use laws::lemma_round_trip;
pub use laws::lemma_well_formed_decodes;
pub use laws::same_kind;
pub use node::child_positions;
pub use node::forward_refs_at;
pub use node::index_views;
pub use node::node_views;
pub use node::well_formed;
pub use node::NodeIndex;
pub use node::MAX_NESTING_DEPTH;
pub use node::WitNode;
pub use node::WitNodeView;
pub use node::WitValue;
pub use stubgen::actions_may_proceed;
pub use stubgen::build;
pub use stubgen::build_context;
pub use stubgen::next_build_action;
pub use stubgen::cargo_toml_action;
pub use stubgen::cargo_toml_decision;
pub use stubgen::compose_dependencies;
pub use stubgen::dependency_blocks;
pub use stubgen::named_with;
pub use stubgen::option_strings_view;
pub use stubgen::pairs_view;
pub use stubgen::present_names;
pub use stubgen::strings_view;
pub use stubgen::stub_dependency_actions;
pub use stubgen::stub_export_names;
pub use stubgen::stub_scan;
pub use stubgen::dependency_entries;
pub use stubgen::generate;
pub use stubgen::generate_context;
pub use stubgen::next_generate_action;
pub use stubgen::stub_instance_names;
pub use stubgen::AddStubDependencyArgs;
pub use stubgen::BuildAction;
pub use stubgen::BuildArgs;
pub use stubgen::BuildStep;
pub use stubgen::CargoTomlAction;
pub use stubgen::Command;
pub use stubgen::ComposeArgs;
pub use stubgen::ComposeError;
pub use stubgen::GenerateAction;
pub use stubgen::GenerateArgs;
pub use stubgen::GenerateStep;
pub use stubgen::InitializeWorkspaceArgs;
pub use stubgen::WitAction;
pub use value::lemma_models_from;
pub use value::Value;
pub use value::ValueView;
