//! The local-directory asset listing: one entry per file found under a
//! scanned directory, with its guessed media type and optional download
//! URL. Walking the directory and reading file sizes is the caller's
//! concern; the entry itself is built here.

use vstd::prelude::*;

use crate::text::joined_url;
use crate::text::join_url;

verus! {

/// One file of a local asset listing.
pub struct AssetEntry {
    pub filename: String,
    /// Path relative to the scanned directory.
    pub path: String,
    pub size: u64,
    pub mime_type: String,
    /// Where the file can be fetched from, when a base URL is configured.
    pub download_url: Option<String>,
}

/// Settings for generating an asset listing.
pub struct AssetListingConfig {
    pub base_url: Option<String>,
    /// Directory the listing file is written to.
    pub output_path: String,
}

/// What mime_guess derives from a path: the first matching media type for
/// its extension, or `application/octet-stream`.
pub uninterp spec fn mime_of(path: Seq<char>) -> Seq<char>;

/// Relies on mime_guess's `from_path` and `first_or_octet_stream`: the
/// media type is looked up from the path's extension in a static table, a
/// function of the path alone.
#[verifier::external_body]
fn guess_mime(path: &str) -> (r: String)
    ensures
        r@ == mime_of(path@),
{
    mime_guess::from_path(path).first_or_octet_stream().to_string()
}

impl AssetEntry {
    /// Builds the entry for a file observed at `rel_path` under the
    /// scanned directory, holding `size` bytes; the caller supplies what
    /// it read from the filesystem.
    pub fn from_parts(filename: String, rel_path: String, size: u64, config: &AssetListingConfig)
        -> (r: AssetEntry)
        ensures
            r.filename == filename,
            r.path == rel_path,
            r.size == size,
            r.mime_type@ == mime_of(rel_path@),
            match config.base_url {
                Some(b) => (r.download_url matches Some(u) && u@ == joined_url(b@, rel_path@)),
                None => r.download_url is None,
            },
    {
        let mime_type = guess_mime(rel_path.as_str());
        let download_url = match &config.base_url {
            Some(b) => Some(join_url(b.as_str(), rel_path.as_str())),
            None => None,
        };
        AssetEntry { filename, path: rel_path, size, mime_type, download_url }
    }
}

} // verus!
