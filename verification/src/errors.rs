//! The build's error vocabulary. Every failure aborts the whole run and
//! carries a human-readable message naming the offending path or page; the
//! exact message text is pinned down by `message_spec`.

use vstd::prelude::*;

verus! {

/// One fatal build error. The build never skips or retries: the first error
/// of any kind ends the run before the output directory is replaced.
#[derive(Debug)]
pub enum BuildError {
    /// A directory entry or its metadata could not be read during discovery.
    Discovery { detail: String },
    /// A source file's name stem matched no catalog entry.
    Classification { stem: String },
    /// Waiting on a conversion subprocess failed.
    ConversionWait { name: String, detail: String },
    /// A conversion subprocess exited with a non-zero status.
    ConversionExit { name: String },
    /// A conversion subprocess wrote output that is not valid UTF-8.
    ConversionEncoding { name: String },
    /// The asset directory held an entry that is not a regular file.
    AssetNotFile { path: String },
    /// An asset file has no extension to classify it by.
    AssetNoExtension { path: String },
    /// An asset file's extension is outside the allow-list.
    AssetDisallowed { path: String },
    /// A text asset's content is not valid UTF-8.
    AssetEncoding { path: String },
    /// The minifier rejected a text asset.
    AssetMinify { path: String, detail: String },
    /// Writing the output tree failed.
    Publish { path: String, detail: String },
}

impl BuildError {
    /// The exact message each error renders to.
    pub open spec fn message_spec(self) -> Seq<char> {
        match self {
            BuildError::Discovery { detail } => "Failed to read the source tree "@ + detail@,
            BuildError::Classification { stem } => "Found md file with an unmapped name "@
                + stem@,
            BuildError::ConversionWait { name, detail } => "Failed to wait for child process for "@
                + name@ + " "@ + detail@,
            BuildError::ConversionExit { name } => "Conversion subprocess exited with an error for "@
                + name@,
            BuildError::ConversionEncoding { name } => "Failed to convert highlighted html to a utf8 string for "@
                + name@,
            BuildError::AssetNotFile { path } => "Only regular files allowed in static dir, found something else at "@
                + path@,
            BuildError::AssetNoExtension { path } => "Found file without extension in static dir "@
                + path@,
            BuildError::AssetDisallowed { path } => "Only .js, .css, and jpg files allowed in static dir, found "@
                + path@,
            BuildError::AssetEncoding { path } => "Found non utf8 content in asset file "@
                + path@,
            BuildError::AssetMinify { path, detail } => "Failed to minify "@ + path@ + " "@
                + detail@,
            BuildError::Publish { path, detail } => "Failed to write "@ + path@ + " "@ + detail@,
        }
    }

    /// Renders the error to the message the failing process reports.
    pub fn message(&self) -> (r: String)
        ensures
            r@ == self.message_spec(),
    {
        match self {
            BuildError::Discovery { detail } => {
                let mut m = String::from_str("Failed to read the source tree ");
                m.append(detail.as_str());
                m
            },
            BuildError::Classification { stem } => {
                let mut m = String::from_str("Found md file with an unmapped name ");
                m.append(stem.as_str());
                m
            },
            BuildError::ConversionWait { name, detail } => {
                let mut m = String::from_str("Failed to wait for child process for ");
                m.append(name.as_str());
                m.append(" ");
                m.append(detail.as_str());
                m
            },
            BuildError::ConversionExit { name } => {
                let mut m = String::from_str("Conversion subprocess exited with an error for ");
                m.append(name.as_str());
                m
            },
            BuildError::ConversionEncoding { name } => {
                let mut m = String::from_str(
                    "Failed to convert highlighted html to a utf8 string for ",
                );
                m.append(name.as_str());
                m
            },
            BuildError::AssetNotFile { path } => {
                let mut m = String::from_str(
                    "Only regular files allowed in static dir, found something else at ",
                );
                m.append(path.as_str());
                m
            },
            BuildError::AssetNoExtension { path } => {
                let mut m = String::from_str("Found file without extension in static dir ");
                m.append(path.as_str());
                m
            },
            BuildError::AssetDisallowed { path } => {
                let mut m = String::from_str(
                    "Only .js, .css, and jpg files allowed in static dir, found ",
                );
                m.append(path.as_str());
                m
            },
            BuildError::AssetEncoding { path } => {
                let mut m = String::from_str("Found non utf8 content in asset file ");
                m.append(path.as_str());
                m
            },
            BuildError::AssetMinify { path, detail } => {
                let mut m = String::from_str("Failed to minify ");
                m.append(path.as_str());
                m.append(" ");
                m.append(detail.as_str());
                m
            },
            BuildError::Publish { path, detail } => {
                let mut m = String::from_str("Failed to write ");
                m.append(path.as_str());
                m.append(" ");
                m.append(detail.as_str());
                m
            },
        }
    }
}

} // verus!
