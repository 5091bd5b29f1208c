//! Static asset handling. The asset directory is flat and fail-closed: every
//! entry must be a regular file whose extension stands on the allow-list.
//! Stylesheets and scripts are minified, the one binary type is copied
//! byte-for-byte, anything else aborts the build.

use vstd::prelude::*;

use crate::errors::BuildError;
use crate::minify::{css_minify_of, js_minify_of, minify_css, minify_js};
use crate::text::{str_eq, utf8_to_string};

verus! {

/// Index of the last extension separator of a file name, or `-1`. A dot in
/// the leading position hides the name rather than separating an extension.
pub open spec fn last_dot(name: Seq<char>) -> int
    decreases name.len(),
{
    if name.len() <= 1 {
        -1
    } else if name[name.len() - 1] == '.' {
        name.len() - 1
    } else {
        last_dot(name.drop_last())
    }
}

/// The extension of a file name: what follows the last separator, if any.
pub open spec fn ext_of(name: Seq<char>) -> Option<Seq<char>> {
    if last_dot(name) < 0 {
        Option::None
    } else {
        Option::Some(name.subrange(last_dot(name) + 1, name.len() as int))
    }
}

/// A separator at `d`, with none later, is the last one.
proof fn lemma_last_dot_at(name: Seq<char>, d: int)
    requires
        1 <= d < name.len(),
        name[d] == '.',
        forall|k: int| d < k < name.len() ==> name[k] != '.',
    ensures
        last_dot(name) == d,
    decreases name.len(),
{
    if d == name.len() - 1 {
    } else {
        assert(name.drop_last() =~= name.subrange(0, name.len() - 1));
        lemma_last_dot_at(name.drop_last(), d);
    }
}

/// No separator beyond the leading position means no extension.
proof fn lemma_last_dot_none(name: Seq<char>)
    requires
        forall|k: int| 1 <= k < name.len() ==> name[k] != '.',
    ensures
        last_dot(name) == -1,
    decreases name.len(),
{
    if name.len() > 1 {
        assert(name.drop_last() =~= name.subrange(0, name.len() - 1));
        lemma_last_dot_none(name.drop_last());
    }
}

/// Extracts a file name's extension.
pub fn find_extension(name: &str) -> (r: Option<String>)
    ensures
        match r {
            Some(e) => ext_of(name@) == Option::Some(e@),
            None => ext_of(name@) is None,
        },
{
    let n = name.unicode_len();
    let mut k = n;
    while k > 1
        invariant
            n == name@.len(),
            k <= n,
            forall|j: int| k <= j < n ==> name@[j] != '.',
        decreases k,
    {
        if name.get_char(k - 1) == '.' {
            let e = name.substring_char(k, n);
            proof {
                lemma_last_dot_at(name@, k - 1);
            }
            return Some(String::from_str(e));
        }
        k -= 1;
    }
    proof {
        lemma_last_dot_none(name@);
    }
    None
}

/// What is to happen to one asset file, as its extension directs.
#[derive(Copy, Clone, Debug, PartialEq, Eq, Structural)]
pub enum AssetPlan {
    /// A stylesheet, minified before publication.
    MinifyCss,
    /// A script, minified before publication.
    MinifyJs,
    /// An opaque binary image, copied byte-for-byte.
    CopyBinary,
}

/// Classifies one asset directory entry against the extension allow-list.
/// Anything that is not a regular file, carries no extension, or falls
/// outside the list is a fatal error naming the entry.
pub fn plan_asset(name: &str, is_file: bool) -> (r: Result<AssetPlan, BuildError>)
    ensures
        !is_file ==> (r matches Err(BuildError::AssetNotFile { path: p }) && p@ == name@),
        is_file ==> match ext_of(name@) {
            Option::None => r matches Err(BuildError::AssetNoExtension { path: p }) && p@
                == name@,
            Option::Some(e) => {
                if e == "css"@ {
                    r == Result::<AssetPlan, BuildError>::Ok(AssetPlan::MinifyCss)
                } else if e == "js"@ {
                    r == Result::<AssetPlan, BuildError>::Ok(AssetPlan::MinifyJs)
                } else if e == "jpg"@ {
                    r == Result::<AssetPlan, BuildError>::Ok(AssetPlan::CopyBinary)
                } else {
                    r matches Err(BuildError::AssetDisallowed { path: p }) && p@ == name@
                }
            },
        },
{
    if !is_file {
        return Err(BuildError::AssetNotFile { path: String::from_str(name) });
    }
    match find_extension(name) {
        None => Err(BuildError::AssetNoExtension { path: String::from_str(name) }),
        Some(ext) => {
            if str_eq(ext.as_str(), "css") {
                Ok(AssetPlan::MinifyCss)
            } else if str_eq(ext.as_str(), "js") {
                Ok(AssetPlan::MinifyJs)
            } else if str_eq(ext.as_str(), "jpg") {
                Ok(AssetPlan::CopyBinary)
            } else {
                Err(BuildError::AssetDisallowed { path: String::from_str(name) })
            }
        },
    }
}

/// The published bytes of one asset: minified text, or the source bytes
/// untouched.
#[derive(Debug)]
pub enum AssetOutput {
    /// A minified text asset.
    Text(String),
    /// A binary asset, exactly the source bytes.
    Binary(Vec<u8>),
}

/// Processes one asset directory entry: classifies it, minifies text assets,
/// and passes binary assets through unchanged. Success is owed exactly where
/// the entry is a regular allow-listed file whose text content the minifier
/// accepts.
pub fn process_asset(name: &str, is_file: bool, content: Vec<u8>) -> (r: Result<
    AssetOutput,
    BuildError,
>)
    ensures
        !is_file ==> (r matches Err(BuildError::AssetNotFile { path: p }) && p@ == name@),
        is_file ==> match ext_of(name@) {
            Option::None => r matches Err(BuildError::AssetNoExtension { path: p }) && p@
                == name@,
            Option::Some(e) => if e == "css"@ || e == "js"@ {
                let minified = if e == "css"@ {
                    css_minify_of(vstd::utf8::decode_utf8(content@))
                } else {
                    js_minify_of(vstd::utf8::decode_utf8(content@))
                };
                if !vstd::utf8::valid_utf8(content@) {
                    r matches Err(BuildError::AssetEncoding { path: p }) && p@ == name@
                } else {
                    match minified {
                        Option::Some(m) => r matches Ok(AssetOutput::Text(t)) && t@ == m,
                        Option::None => r matches Err(
                            BuildError::AssetMinify { path: p, detail: _d },
                        ) && p@ == name@,
                    }
                }
            } else if e == "jpg"@ {
                r matches Ok(AssetOutput::Binary(b)) && b@ == content@
            } else {
                r matches Err(BuildError::AssetDisallowed { path: p }) && p@ == name@
            },
        },
{
    let plan = match plan_asset(name, is_file) {
        Err(e) => {
            return Err(e);
        },
        Ok(p) => p,
    };
    match plan {
        AssetPlan::CopyBinary => Ok(AssetOutput::Binary(content)),
        AssetPlan::MinifyCss => {
            match utf8_to_string(&content) {
                None => Err(BuildError::AssetEncoding { path: String::from_str(name) }),
                Some(text) => match minify_css(text.as_str()) {
                    Ok(m) => Ok(AssetOutput::Text(m)),
                    Err(detail) => Err(
                        BuildError::AssetMinify { path: String::from_str(name), detail },
                    ),
                },
            }
        },
        AssetPlan::MinifyJs => {
            match utf8_to_string(&content) {
                None => Err(BuildError::AssetEncoding { path: String::from_str(name) }),
                Some(text) => match minify_js(text.as_str()) {
                    Ok(m) => Ok(AssetOutput::Text(m)),
                    Err(detail) => Err(
                        BuildError::AssetMinify { path: String::from_str(name), detail },
                    ),
                },
            }
        },
    }
}

} // verus!
