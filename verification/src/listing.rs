//! The list of resources that the server offers.
//!
//! First come the documents that are always there, then how the catalog
//! stands, then the navigation resources and the examples of the catalog.
//! Where the navigation resources or the examples cannot be had, a resource
//! that says so stands in their place.

use crate::catalog::{
    load_catalog_resources, load_navigation_resources, loaded_catalog, loaded_navigation,
    get_catalog_status, source_view, status_summary,
};
use crate::resource::{
    described, extend_resources, push_resource, resource_views, ResourceInfo, ResourceView,
};
use vstd::prelude::*;

verus! {

/// The resources that are always there.
pub open spec fn static_resources() -> Seq<ResourceView> {
    seq![
        described(
            "ast-grep://discover"@,
            "\u{1F50D} Resource Discovery"@,
            "Complete guide to all available resources and how to use them"@,
            "text/markdown"@,
        ),
        described(
            "ast-grep://languages"@,
            "\u{1F4DA} Available Languages"@,
            "List of supported programming languages with example URIs for each"@,
            "text/markdown"@,
        ),
        described(
            "ast-grep://binary-path"@,
            "AST-Grep Binary Path"@,
            "Path to the ast-grep executable for direct CLI access"@,
            "text/plain"@,
        ),
        described(
            "ast-grep://cli-reference"@,
            "CLI Reference"@,
            "Complete ast-grep CLI documentation and command reference"@,
            "text/markdown"@,
        ),
        described(
            "ast-grep://rule-examples"@,
            "Rule Configuration Examples"@,
            "Examples of YAML rule configurations for common use cases"@,
            "text/yaml"@,
        ),
        described(
            "ast-grep://relational-patterns"@,
            "Relational Pattern Examples"@,
            "Examples of inside/has/follows relational rules for scope navigation"@,
            "text/yaml"@,
        ),
        described(
            "ast-grep://node-kinds"@,
            "Tree-sitter Node Kinds"@,
            "Tree-sitter node types by language for kind-based rules"@,
            "text/markdown"@,
        ),
        described(
            "ast-grep://cheatsheet/rules"@,
            "Rule Cheat Sheet"@,
            "Comprehensive cheat sheet covering Atomic, Relational, and Composite rules with examples"@,
            "text/markdown"@,
        ),
        described(
            "ast-grep://cheatsheet/yaml"@,
            "YAML Configuration Cheat Sheet"@,
            "Complete reference for ast-grep YAML configuration including linting, patching, and metadata"@,
            "text/markdown"@,
        ),
        described(
            "ast-grep://examples/javascript"@,
            "JavaScript Examples"@,
            "JavaScript/TypeScript pattern examples and rules"@,
            "text/markdown"@,
        ),
        described(
            "ast-grep://examples/python"@,
            "Python Examples"@,
            "Python pattern examples and rules"@,
            "text/markdown"@,
        ),
        described(
            "ast-grep://examples/rust"@,
            "Rust Examples"@,
            "Rust pattern examples and rules"@,
            "text/markdown"@,
        ),
        described(
            "ast-grep://examples/java"@,
            "Java Examples"@,
            "Java pattern examples and rules"@,
            "text/markdown"@,
        ),
        described(
            "ast-grep://examples/go"@,
            "Go Examples"@,
            "Go pattern examples and rules"@,
            "text/markdown"@,
        ),
    ]
}

/// The resources that are always there.
pub fn static_resource_list() -> (list: Vec<ResourceInfo>)
    ensures
        resource_views(list@) == static_resources(),
{
    let mut list: Vec<ResourceInfo> = Vec::new();
    list.push(
        ResourceInfo::fixed(
            "ast-grep://discover",
            "\u{1F50D} Resource Discovery",
            "Complete guide to all available resources and how to use them",
            "text/markdown",
        ),
    );
    list.push(
        ResourceInfo::fixed(
            "ast-grep://languages",
            "\u{1F4DA} Available Languages",
            "List of supported programming languages with example URIs for each",
            "text/markdown",
        ),
    );
    list.push(
        ResourceInfo::fixed(
            "ast-grep://binary-path",
            "AST-Grep Binary Path",
            "Path to the ast-grep executable for direct CLI access",
            "text/plain",
        ),
    );
    list.push(
        ResourceInfo::fixed(
            "ast-grep://cli-reference",
            "CLI Reference",
            "Complete ast-grep CLI documentation and command reference",
            "text/markdown",
        ),
    );
    list.push(
        ResourceInfo::fixed(
            "ast-grep://rule-examples",
            "Rule Configuration Examples",
            "Examples of YAML rule configurations for common use cases",
            "text/yaml",
        ),
    );
    list.push(
        ResourceInfo::fixed(
            "ast-grep://relational-patterns",
            "Relational Pattern Examples",
            "Examples of inside/has/follows relational rules for scope navigation",
            "text/yaml",
        ),
    );
    list.push(
        ResourceInfo::fixed(
            "ast-grep://node-kinds",
            "Tree-sitter Node Kinds",
            "Tree-sitter node types by language for kind-based rules",
            "text/markdown",
        ),
    );
    list.push(
        ResourceInfo::fixed(
            "ast-grep://cheatsheet/rules",
            "Rule Cheat Sheet",
            "Comprehensive cheat sheet covering Atomic, Relational, and Composite rules with examples",
            "text/markdown",
        ),
    );
    list.push(
        ResourceInfo::fixed(
            "ast-grep://cheatsheet/yaml",
            "YAML Configuration Cheat Sheet",
            "Complete reference for ast-grep YAML configuration including linting, patching, and metadata",
            "text/markdown",
        ),
    );
    list.push(
        ResourceInfo::fixed(
            "ast-grep://examples/javascript",
            "JavaScript Examples",
            "JavaScript/TypeScript pattern examples and rules",
            "text/markdown",
        ),
    );
    list.push(
        ResourceInfo::fixed(
            "ast-grep://examples/python",
            "Python Examples",
            "Python pattern examples and rules",
            "text/markdown",
        ),
    );
    list.push(
        ResourceInfo::fixed(
            "ast-grep://examples/rust",
            "Rust Examples",
            "Rust pattern examples and rules",
            "text/markdown",
        ),
    );
    list.push(
        ResourceInfo::fixed(
            "ast-grep://examples/java",
            "Java Examples",
            "Java pattern examples and rules",
            "text/markdown",
        ),
    );
    list.push(
        ResourceInfo::fixed(
            "ast-grep://examples/go",
            "Go Examples",
            "Go pattern examples and rules",
            "text/markdown",
        ),
    );
    assert(resource_views(list@) =~= static_resources());
    list
}

/// The address of the resource on how the catalog stands.
pub const STATUS_URI: &'static str = "ast-grep://catalog-status";

/// The name of the resource on how the catalog stands.
pub const STATUS_NAME: &'static str = "\u{1F4CA} Catalog Status";

/// The address of the resource that stands for missing navigation resources.
pub const NAVIGATION_ERROR_URI: &'static str = "ast-grep://navigation-error";

/// The name of the resource that stands for missing navigation resources.
pub const NAVIGATION_ERROR_NAME: &'static str = "\u{26A0}\u{FE0F} Navigation Error";

/// The address of the resource that stands for missing catalog resources.
pub const CATALOG_ERROR_URI: &'static str = "ast-grep://catalog-error";

/// The name of the resource that stands for missing catalog resources.
pub const CATALOG_ERROR_NAME: &'static str = "\u{26A0}\u{FE0F} Catalog Error";

/// The resource that says how the catalog stands.
pub open spec fn status_entry(source: Result<Seq<char>, Seq<char>>) -> ResourceView {
    described(
        STATUS_URI@,
        STATUS_NAME@,
        "Catalog loading status: "@ + status_summary(source),
        "text/markdown"@,
    )
}

/// The navigation resources, or the resource that says why there are none.
pub open spec fn navigation_part(source: Result<Seq<char>, Seq<char>>) -> Seq<ResourceView> {
    match loaded_navigation(source) {
        Ok(list) => list,
        Err(reason) => seq![
            described(
                NAVIGATION_ERROR_URI@,
                NAVIGATION_ERROR_NAME@,
                "Failed to load navigation resources: "@ + reason,
                "text/plain"@,
            ),
        ],
    }
}

/// The examples of the catalog, or the resource that says why there are
/// none.
pub open spec fn catalog_part(source: Result<Seq<char>, Seq<char>>) -> Seq<ResourceView> {
    match loaded_catalog(source) {
        Ok(list) => list,
        Err(reason) => seq![
            described(
                CATALOG_ERROR_URI@,
                CATALOG_ERROR_NAME@,
                "Failed to load catalog resources: "@ + reason,
                "text/plain"@,
            ),
        ],
    }
}

/// All resources of the server for a catalog given as text.
pub open spec fn listed_resources(source: Result<Seq<char>, Seq<char>>) -> Seq<ResourceView> {
    static_resources().push(status_entry(source)) + navigation_part(source) + catalog_part(source)
}

/// All resources of the server for a catalog given as text: `Ok` with the
/// text of the catalog, or `Err` with the reason why there is none.
pub fn list_resources(source: &Result<String, String>) -> (list: Vec<ResourceInfo>)
    ensures
        resource_views(list@) == listed_resources(source_view(*source)),
{
    let mut list = static_resource_list();
    let status = get_catalog_status(source);
    let mut description = "Catalog loading status: ".to_owned();
    description.append(status.summary.as_str());
    push_resource(
        &mut list,
        ResourceInfo::new(
            STATUS_URI.to_owned(),
            STATUS_NAME.to_owned(),
            description,
            "text/markdown",
        ),
    );
    match load_navigation_resources(source) {
        Ok(navigation) => {
            extend_resources(&mut list, navigation);
        },
        Err(reason) => {
            let mut description = "Failed to load navigation resources: ".to_owned();
            description.append(reason.as_str());
            let ghost before = resource_views(list@);
            let entry = ResourceInfo::new(
                NAVIGATION_ERROR_URI.to_owned(),
                NAVIGATION_ERROR_NAME.to_owned(),
                description,
                "text/plain",
            );
            push_resource(&mut list, entry);
            assert(before.push(entry@) =~= before + seq![entry@]);
        },
    }
    match load_catalog_resources(source) {
        Ok(examples) => {
            extend_resources(&mut list, examples);
        },
        Err(reason) => {
            let mut description = "Failed to load catalog resources: ".to_owned();
            description.append(reason.as_str());
            let ghost before = resource_views(list@);
            let entry = ResourceInfo::new(
                CATALOG_ERROR_URI.to_owned(),
                CATALOG_ERROR_NAME.to_owned(),
                description,
                "text/plain",
            );
            push_resource(&mut list, entry);
            assert(before.push(entry@) =~= before + seq![entry@]);
        },
    }
    list
}

/// The list of resources is never empty, and the documents that are always
/// there stand at its beginning, whatever the catalog holds.
pub proof fn lemma_static_resources_come_first(source: Result<Seq<char>, Seq<char>>, i: int)
    requires
        0 <= i < static_resources().len(),
    ensures
        listed_resources(source).len() > static_resources().len(),
        listed_resources(source)[i] == static_resources()[i],
        listed_resources(source)[static_resources().len() as int] == status_entry(source),
{
}

} // verus!
