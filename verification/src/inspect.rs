//! The manifest inspector: read-only extraction of the task's declared
//! package name from its manifest document. The TOML parse itself is
//! performed by the `toml` crate; its outcome on a given document text is
//! named by uninterpreted spec functions, and everything that follows the
//! parse is verified against those names.

use vstd::prelude::*;

use crate::errors::ErrorModel;
use crate::errors::ImportError;

verus! {

/// Whether the TOML parser accepts the document.
pub uninterp spec fn manifest_parses(doc: Seq<char>) -> bool;

/// Whether the parsed document holds a `package.name` key.
pub uninterp spec fn manifest_has_package_name(doc: Seq<char>) -> bool;

/// The text of `package.name` when that key holds a string, `None` when it
/// holds some other kind of value.
pub uninterp spec fn manifest_package_name(doc: Seq<char>) -> Option<Seq<char>>;

/// What reading the package name out of a manifest document can yield.
pub enum PackageNameReading {
    Unparsable,
    Missing,
    NotText,
    Found(String),
}

/// Relies on `toml::from_str::<toml::Value>`, `toml::Value::get` and
/// `toml::Value::as_str`: whether a document parses, whether it holds a
/// `package.name` key, and that key's string value are functions of the
/// document text alone, here given the names `manifest_parses`,
/// `manifest_has_package_name` and `manifest_package_name`.
#[verifier::external_body]
fn read_package_name(doc: &str) -> (r: PackageNameReading)
    ensures
        (r is Unparsable) <==> !manifest_parses(doc@),
        (r is Missing) <==> (manifest_parses(doc@) && !manifest_has_package_name(doc@)),
        (r is NotText) <==> (manifest_parses(doc@) && manifest_has_package_name(doc@)
            && manifest_package_name(doc@) is None),
        (r is Found) <==> (manifest_parses(doc@) && manifest_has_package_name(doc@)
            && manifest_package_name(doc@) is Some),
        r matches PackageNameReading::Found(s) ==> manifest_package_name(doc@) == Some(s@),
{
    match toml::from_str::<toml::Value>(doc) {
        Err(_) => PackageNameReading::Unparsable,
        Ok(v) => match v.get("package") {
            None => PackageNameReading::Missing,
            Some(p) => match p.get("name") {
                None => PackageNameReading::Missing,
                Some(n) => match n.as_str() {
                    None => PackageNameReading::NotText,
                    Some(s) => PackageNameReading::Found(s.to_string()),
                },
            },
        },
    }
}

/// What inspecting a manifest document yields, stated over the named
/// outcomes of the TOML parse.
pub open spec fn spec_inspect_manifest(doc: Seq<char>) -> Result<Seq<char>, ErrorModel> {
    if !manifest_parses(doc) {
        Err(ErrorModel::ManifestParseError)
    } else if !manifest_has_package_name(doc) {
        Err(ErrorModel::MissingTaskName)
    } else if manifest_package_name(doc) is None {
        Err(ErrorModel::InvalidTaskName)
    } else {
        Ok(manifest_package_name(doc)->0)
    }
}

pub open spec fn inspect_result_model(r: Result<String, ImportError>) -> Result<
    Seq<char>,
    ErrorModel,
> {
    match r {
        Ok(s) => Ok(s@),
        Err(e) => Err(e@),
    }
}

/// Validate a task manifest document and extract its declared package
/// name: `Ok` exactly on documents that parse and declare `package.name`
/// as a string, and otherwise the error that names what was wrong.
pub fn inspect_manifest(doc: &str) -> (r: Result<String, ImportError>)
    ensures
        inspect_result_model(r) == spec_inspect_manifest(doc@),
{
    match read_package_name(doc) {
        PackageNameReading::Unparsable => Err(ImportError::ManifestParseError),
        PackageNameReading::Missing => Err(ImportError::MissingTaskName),
        PackageNameReading::NotText => Err(ImportError::InvalidTaskName),
        PackageNameReading::Found(name) => Ok(name),
    }
}

} // verus!
