//! What the server lists: resources and prompts.

use vstd::prelude::*;

verus! {

/// A resource as it is listed.
#[derive(Debug, Clone)]
pub struct ResourceInfo {
    pub uri: String,
    pub name: String,
    pub description: Option<String>,
    pub mime_type: Option<String>,
    /// The size of the content in bytes, where it is known.
    pub size: Option<u32>,
}

/// The mathematical value of a [`ResourceInfo`].
pub ghost struct ResourceView {
    pub uri: Seq<char>,
    pub name: Seq<char>,
    pub description: Option<Seq<char>>,
    pub mime_type: Option<Seq<char>>,
    pub size: Option<u32>,
}

/// An optional text by its view.
pub open spec fn text_view(text: Option<String>) -> Option<Seq<char>> {
    match text {
        Some(t) => Some(t@),
        None => None,
    }
}

impl View for ResourceInfo {
    type V = ResourceView;

    open spec fn view(&self) -> ResourceView {
        ResourceView {
            uri: self.uri@,
            name: self.name@,
            description: text_view(self.description),
            mime_type: text_view(self.mime_type),
            size: self.size,
        }
    }
}

/// The views of a vector of resources, item by item.
pub open spec fn resource_views(items: Seq<ResourceInfo>) -> Seq<ResourceView> {
    Seq::new(items.len(), |i: int| items[i]@)
}

/// A resource of unknown size with a description and a type.
pub open spec fn described(
    uri: Seq<char>,
    name: Seq<char>,
    description: Seq<char>,
    mime_type: Seq<char>,
) -> ResourceView {
    ResourceView {
        uri,
        name,
        description: Some(description),
        mime_type: Some(mime_type),
        size: None,
    }
}

impl ResourceInfo {
    /// A resource of unknown size with a description and a type.
    pub fn new(uri: String, name: String, description: String, mime_type: &str) -> (resource:
        ResourceInfo)
        ensures
            resource@ == described(uri@, name@, description@, mime_type@),
    {
        ResourceInfo {
            uri,
            name,
            description: Some(description),
            mime_type: Some(mime_type.to_owned()),
            size: None,
        }
    }

    /// A resource of unknown size whose address, name and description are
    /// fixed texts.
    pub fn fixed(uri: &str, name: &str, description: &str, mime_type: &str) -> (resource:
        ResourceInfo)
        ensures
            resource@ == described(uri@, name@, description@, mime_type@),
    {
        ResourceInfo::new(uri.to_owned(), name.to_owned(), description.to_owned(), mime_type)
    }

    /// A resource with nothing but an address and a name.
    pub fn bare(uri: String, name: &str) -> (resource: ResourceInfo)
        ensures
            resource@ == (ResourceView {
                uri: uri@,
                name: name@,
                description: None,
                mime_type: None,
                size: None,
            }),
    {
        ResourceInfo { uri, name: name.to_owned(), description: None, mime_type: None, size: None }
    }
}

/// Appends a resource to a list.
pub fn push_resource(list: &mut Vec<ResourceInfo>, resource: ResourceInfo)
    ensures
        resource_views(final(list)@) == resource_views(old(list)@).push(resource@),
{
    list.push(resource);
    assert(resource_views(list@) =~= resource_views(old(list)@).push(resource@));
}

/// Appends the resources of `more` to a list.
pub fn extend_resources(list: &mut Vec<ResourceInfo>, more: Vec<ResourceInfo>)
    ensures
        resource_views(final(list)@) == resource_views(old(list)@) + resource_views(more@),
{
    let mut more = more;
    let ghost before = resource_views(list@);
    let ghost added = resource_views(more@);
    list.append(&mut more);
    assert(resource_views(list@) =~= before + added);
}

/// An argument of a prompt.
#[derive(Debug, Clone)]
pub struct PromptArgumentInfo {
    pub name: String,
    pub description: Option<String>,
    pub required: Option<bool>,
}

/// A prompt as it is listed.
#[derive(Debug, Clone)]
pub struct PromptInfo {
    pub name: String,
    pub description: Option<String>,
    pub arguments: Option<Vec<PromptArgumentInfo>>,
}

/// The mathematical value of a [`PromptArgumentInfo`].
pub ghost struct PromptArgumentView {
    pub name: Seq<char>,
    pub description: Option<Seq<char>>,
    pub required: Option<bool>,
}

/// The mathematical value of a [`PromptInfo`].
pub ghost struct PromptView {
    pub name: Seq<char>,
    pub description: Option<Seq<char>>,
    pub arguments: Option<Seq<PromptArgumentView>>,
}

impl View for PromptArgumentInfo {
    type V = PromptArgumentView;

    open spec fn view(&self) -> PromptArgumentView {
        PromptArgumentView {
            name: self.name@,
            description: text_view(self.description),
            required: self.required,
        }
    }
}

/// The views of a vector of prompt arguments, item by item.
pub open spec fn argument_views(items: Seq<PromptArgumentInfo>) -> Seq<PromptArgumentView> {
    Seq::new(items.len(), |i: int| items[i]@)
}

impl View for PromptInfo {
    type V = PromptView;

    open spec fn view(&self) -> PromptView {
        PromptView {
            name: self.name@,
            description: text_view(self.description),
            arguments: match self.arguments {
                Some(arguments) => Some(argument_views(arguments@)),
                None => None,
            },
        }
    }
}

/// The views of a vector of prompts, item by item.
pub open spec fn prompt_views(items: Seq<PromptInfo>) -> Seq<PromptView> {
    Seq::new(items.len(), |i: int| items[i]@)
}

/// A required argument with a description.
pub open spec fn required_argument(name: Seq<char>, description: Seq<char>) -> PromptArgumentView {
    PromptArgumentView { name, description: Some(description), required: Some(true) }
}

impl PromptArgumentInfo {
    /// An argument with a description; `required` says whether it must be
    /// given.
    pub fn new(name: &str, description: &str, required: bool) -> (argument: PromptArgumentInfo)
        ensures
            argument@ == (PromptArgumentView {
                name: name@,
                description: Some(description@),
                required: Some(required),
            }),
    {
        PromptArgumentInfo {
            name: name.to_owned(),
            description: Some(description.to_owned()),
            required: Some(required),
        }
    }
}

impl PromptInfo {
    /// A prompt with a description and arguments.
    pub fn new(name: &str, description: &str, arguments: Vec<PromptArgumentInfo>) -> (prompt:
        PromptInfo)
        ensures
            prompt@ == (PromptView {
                name: name@,
                description: Some(description@),
                arguments: Some(argument_views(arguments@)),
            }),
    {
        PromptInfo {
            name: name.to_owned(),
            description: Some(description.to_owned()),
            arguments: Some(arguments),
        }
    }
}

} // verus!
