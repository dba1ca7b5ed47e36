//! Decoding the answer of `cargo metadata`.
//!
//! The answer is one JSON document. `serde_json` reads it; of the object it
//! holds, two members are required, both strings. Other members are passed
//! over.

use crate::artifact::option_text;
use crate::error::BuildError;
use crate::output::ProcessResult;
use vstd::prelude::*;

verus! {

/// Where a workspace lives and where its build output goes.
#[derive(Debug, PartialEq, Eq)]
pub struct Metadata {
    /// The directory that holds the output of all builds of the workspace.
    pub target_directory: String,
    /// The directory of the workspace's root manifest.
    pub workspace_root: String,
}

/// A [`Metadata`] as mathematical values.
pub struct MetadataView {
    pub target_directory: Seq<char>,
    pub workspace_root: Seq<char>,
}

impl View for Metadata {
    type V = MetadataView;

    open spec fn view(&self) -> MetadataView {
        MetadataView {
            target_directory: self.target_directory@,
            workspace_root: self.workspace_root@,
        }
    }
}

/// The view of decoded metadata, or the error as it is.
pub open spec fn decoded_view(decoded: Result<Metadata, BuildError>) -> Result<MetadataView, BuildError> {
    match decoded {
        Ok(metadata) => Ok(metadata@),
        Err(e) => Err(e),
    }
}

/// The metadata that two members of a document give: both are required.
pub open spec fn metadata_of_members(
    target_directory: Option<Seq<char>>,
    workspace_root: Option<Seq<char>>,
) -> Result<MetadataView, BuildError> {
    match (target_directory, workspace_root) {
        (Some(target_directory), Some(workspace_root)) => Ok(
            MetadataView { target_directory, workspace_root },
        ),
        _ => Err(BuildError::Metadata),
    }
}

/// The member `key` of an object, where the object has it as a string.
pub open spec fn member(members: Map<Seq<char>, Seq<char>>, key: Seq<char>) -> Option<Seq<char>> {
    if members.contains_key(key) {
        Some(members[key])
    } else {
        None
    }
}

/// The metadata that a document gives: `document` is `None` where the bytes
/// are no JSON object, else the members of the object that are strings.
pub open spec fn metadata_of(document: Option<Map<Seq<char>, Seq<char>>>) -> Result<
    MetadataView,
    BuildError,
> {
    match document {
        Some(members) => metadata_of_members(
            member(members, "target_directory"@),
            member(members, "workspace_root"@),
        ),
        None => Err(BuildError::Metadata),
    }
}

/// The error of `serde_json`; nothing is read from it.
#[verifier::external_type_specification]
#[verifier::external_body]
pub struct ExJsonError(serde_json::Error);

/// A JSON value of `serde_json`.
#[verifier::external_type_specification]
#[verifier::external_body]
pub struct ExJsonValue(serde_json::Value);

/// The map in which `serde_json` holds the members of a JSON object.
#[verifier::external_type_specification]
#[verifier::external_body]
#[verifier::reject_recursive_types(K)]
#[verifier::reject_recursive_types(V)]
pub struct ExJsonMap<K, V>(serde_json::Map<K, V>);

/// What `serde_json::from_slice` makes of `bytes` when asked for an object:
/// `None` where it fails, else the members of the object whose values are
/// strings, each under its key.
pub uninterp spec fn document_members(bytes: Seq<u8>) -> Option<Map<Seq<char>, Seq<char>>>;

/// The members of a decoded object whose values are strings, each under its
/// key.
pub uninterp spec fn text_members(object: serde_json::Map<String, serde_json::Value>) -> Map<
    Seq<char>,
    Seq<char>,
>;

/// Calls `serde_json::from_slice` for an object. It fails where the bytes
/// are not one JSON document or the document is not an object.
#[verifier::external_body]
fn parse_object(bytes: &[u8]) -> (parsed: Result<
    serde_json::Map<String, serde_json::Value>,
    serde_json::Error,
>)
    ensures
        match parsed {
            Ok(object) => document_members(bytes@) == Some(text_members(object)),
            Err(_) => document_members(bytes@) is None,
        },
{
    serde_json::from_slice(bytes)
}

/// Calls `serde_json::Map::get` and copies the string that is found. A key
/// that is absent, or whose value is no string, gives `None`.
#[verifier::external_body]
fn text_member(object: &serde_json::Map<String, serde_json::Value>, key: &str) -> (text: Option<
    String,
>)
    ensures
        option_text(text) == member(text_members(*object), key@),
{
    match object.get(key) {
        Some(serde_json::Value::String(text)) => Some(text.clone()),
        _ => None,
    }
}

/// Makes the metadata of the two members that were found in a document.
pub fn metadata_from_members(target_directory: Option<String>, workspace_root: Option<String>) -> (decoded:
    Result<Metadata, BuildError>)
    ensures
        decoded_view(decoded) == metadata_of_members(
            option_text(target_directory),
            option_text(workspace_root),
        ),
{
    match (target_directory, workspace_root) {
        (Some(target_directory), Some(workspace_root)) => Ok(
            Metadata { target_directory, workspace_root },
        ),
        _ => Err(BuildError::Metadata),
    }
}

/// Decodes the standard output of `cargo metadata`: the whole of it must be
/// one JSON object that has both members as strings.
pub fn decode_metadata(stdout: &[u8]) -> (decoded: Result<Metadata, BuildError>)
    ensures
        decoded_view(decoded) == metadata_of(document_members(stdout@)),
{
    match parse_object(stdout) {
        Ok(object) => {
            let target_directory = text_member(&object, "target_directory");
            let workspace_root = text_member(&object, "workspace_root");
            metadata_from_members(target_directory, workspace_root)
        },
        Err(_) => Err(BuildError::Metadata),
    }
}

/// The metadata of a query, given how the query ended: `None` where `cargo`
/// could not be started, else what it wrote. The exit status plays no part.
pub fn metadata(launched: Option<ProcessResult>) -> (decoded: Result<Metadata, BuildError>)
    ensures
        decoded_view(decoded) == match launched {
            Some(result) => metadata_of(document_members(result.stdout@)),
            None => Err(BuildError::Cargo),
        },
{
    match launched {
        Some(result) => decode_metadata(result.stdout.as_slice()),
        None => Err(BuildError::Cargo),
    }
}

} // verus!
