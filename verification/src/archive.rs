//! Reading the members of release archives.
//!
//! An archive is asked two things: the names of its members in order, and
//! the content of the member at an index. Both are answered from the bytes of
//! the archive by the `zip`, `flate2` and `tar` crates.

use vstd::prelude::*;

verus! {

/// The names of the members of a ZIP archive, in the order of its directory;
/// for a member that cannot be opened, the message of the error. An archive
/// that cannot be read at all gives the message of that error.
pub uninterp spec fn zip_listing(bytes: Seq<u8>) -> Result<
    Seq<Result<Seq<char>, Seq<char>>>,
    Seq<char>,
>;

/// The content of the member at `index` of a ZIP archive, or the message of
/// the error that reading it gives.
pub uninterp spec fn zip_content(bytes: Seq<u8>, index: int) -> Result<Seq<u8>, Seq<char>>;

/// The paths of the entries of a gzip-compressed tar archive, in order; for
/// an entry whose header or path cannot be read, the message of the error.
pub uninterp spec fn tar_gz_listing(bytes: Seq<u8>) -> Result<
    Seq<Result<Seq<char>, Seq<char>>>,
    Seq<char>,
>;

/// The content of the entry at `index` of a gzip-compressed tar archive, or
/// the message of the error that reading it gives.
pub uninterp spec fn tar_gz_content(bytes: Seq<u8>, index: int) -> Result<Seq<u8>, Seq<char>>;

/// A name, or the message of an error, by its view.
pub open spec fn name_view(name: Result<String, String>) -> Result<Seq<char>, Seq<char>> {
    match name {
        Ok(n) => Ok(n@),
        Err(e) => Err(e@),
    }
}

/// A listing by its views.
pub open spec fn listing_view(listing: Result<Vec<Result<String, String>>, String>) -> Result<
    Seq<Result<Seq<char>, Seq<char>>>,
    Seq<char>,
> {
    match listing {
        Ok(names) => Ok(Seq::new(names@.len(), |i: int| name_view(names@[i]))),
        Err(e) => Err(e@),
    }
}

/// A content, or the message of an error, by its view.
pub open spec fn content_view(content: Result<Vec<u8>, String>) -> Result<Seq<u8>, Seq<char>> {
    match content {
        Ok(bytes) => Ok(bytes@),
        Err(e) => Err(e@),
    }
}

/// Lists a ZIP archive: opens it with `zip::ZipArchive::new` and takes, for
/// each index below `len()`, the name of what `by_index` gives. The contract
/// names the outcome [`zip_listing`].
#[verifier::external_body]
pub(crate) fn zip_names(bytes: &Vec<u8>) -> (r: Result<Vec<Result<String, String>>, String>)
    ensures
        listing_view(r) == zip_listing(bytes@),
{
    let mut archive = zip::ZipArchive::new(std::io::Cursor::new(bytes)).map_err(|e| e.to_string())?;
    let count = archive.len();
    let name_at = |i| archive.by_index(i).map(|f| f.name().to_owned()).map_err(|e| e.to_string());
    Ok((0..count).map(name_at).collect())
}

/// Reads the member at `index` of a ZIP archive to its end, through
/// `ZipArchive::by_index`. The contract names the outcome [`zip_content`].
#[verifier::external_body]
pub(crate) fn zip_read(bytes: &Vec<u8>, index: usize) -> (r: Result<Vec<u8>, String>)
    ensures
        content_view(r) == zip_content(bytes@, index as int),
{
    let mut archive = zip::ZipArchive::new(std::io::Cursor::new(bytes)).map_err(|e| e.to_string())?;
    let mut member = archive.by_index(index).map_err(|e| e.to_string())?;
    let mut content = Vec::new();
    std::io::copy(&mut member, &mut content).map_err(|e| e.to_string())?;
    Ok(content)
}

/// Lists a gzip-compressed tar archive: walks `tar::Archive::entries` over a
/// `flate2` decoder and takes the path of each entry, lossily as text. The
/// contract names the outcome [`tar_gz_listing`].
#[verifier::external_body]
pub(crate) fn tar_gz_names(bytes: &Vec<u8>) -> (r: Result<Vec<Result<String, String>>, String>)
    ensures
        listing_view(r) == tar_gz_listing(bytes@),
{
    let mut archive = tar::Archive::new(flate2::read::GzDecoder::new(std::io::Cursor::new(bytes)));
    let entries = archive.entries().map_err(|e| e.to_string())?;
    let path_of = |e: tar::Entry<_>| e.path().map(|p| p.to_string_lossy().into_owned());
    Ok(entries.map(|e| e.and_then(path_of).map_err(|e| e.to_string())).collect())
}

/// Reads the entry at `index` of a gzip-compressed tar archive to its end.
/// The contract names the outcome [`tar_gz_content`].
#[verifier::external_body]
pub(crate) fn tar_gz_read(bytes: &Vec<u8>, index: usize) -> (r: Result<Vec<u8>, String>)
    ensures
        content_view(r) == tar_gz_content(bytes@, index as int),
{
    let mut archive = tar::Archive::new(flate2::read::GzDecoder::new(std::io::Cursor::new(bytes)));
    let mut entries = archive.entries().map_err(|e| e.to_string())?;
    let missing = || Err(std::io::ErrorKind::NotFound.into());
    let mut entry = entries.nth(index).unwrap_or_else(missing).map_err(|e| e.to_string())?;
    let mut content = Vec::new();
    std::io::copy(&mut entry, &mut content).map_err(|e| e.to_string())?;
    Ok(content)
}

} // verus!
