//! Request routing and binary lifecycle for a code-search server that drives an
//! external AST pattern-matching executable.

pub mod archive;
pub mod ast_grep_tools;
pub mod benchmark_utils;
pub mod binary_manager;
pub mod catalog;
pub mod docs;
pub mod dynamic;
pub mod error;
pub mod evaluation_client;
pub mod json;
pub mod listing;
pub mod path_resolver;
pub mod paths;
pub mod prompts;
pub mod resource;
pub mod resources;
pub mod rule_validator;
pub mod scope_prompts;
pub mod search_tools;
pub mod simple_search;
pub mod snapshot_utils;
pub mod text;
pub mod tool_call;
pub mod tool_catalog;
pub mod yaml;
