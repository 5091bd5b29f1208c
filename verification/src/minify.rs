//! Minification of text assets and finished documents. The reductions
//! themselves come from the `minifier` crate; each call is wrapped once, and
//! its outcome — a pure function of the input text — is given a name that the
//! callers' contracts speak of.

use vstd::prelude::*;

verus! {

/// What `minifier::css::minify` makes of a stylesheet: its compact rendering,
/// or nothing where the tokenizer rejects the input.
pub uninterp spec fn css_minify_of(s: Seq<char>) -> Option<Seq<char>>;

/// What `minifier::js::minify` makes of a script: its compact rendering, or
/// nothing where the tokenizer rejects the input.
pub uninterp spec fn js_minify_of(s: Seq<char>) -> Option<Seq<char>>;

/// What `minifier::html::minify` makes of a document.
pub uninterp spec fn html_minify_of(s: Seq<char>) -> Seq<char>;

/// Relies on `minifier::css::minify`: it tokenizes the stylesheet and renders
/// it compactly, failing exactly on input the tokenizer rejects; the outcome
/// depends on the input characters alone.
#[verifier::external_body]
pub(crate) fn minify_css(src: &str) -> (r: Result<String, String>)
    ensures
        (r is Ok) == (css_minify_of(src@) is Some),
        r matches Ok(m) ==> Some(m@) == css_minify_of(src@),
{
    match minifier::css::minify(src) {
        Ok(m) => Ok(m.to_string()),
        Err(e) => Err(e.to_string()),
    }
}

/// Relies on `minifier::js::minify`: it tokenizes the script and renders it
/// compactly, failing exactly on input the tokenizer rejects; the outcome
/// depends on the input characters alone.
#[verifier::external_body]
pub(crate) fn minify_js(src: &str) -> (r: Result<String, String>)
    ensures
        (r is Ok) == (js_minify_of(src@) is Some),
        r matches Ok(m) ==> Some(m@) == js_minify_of(src@),
{
    match minifier::js::minify(src) {
        Ok(m) => Ok(m.to_string()),
        Err(e) => Err(e.to_string()),
    }
}

/// Relies on `minifier::html::minify`: it condenses the document's
/// whitespace and markup; the outcome depends on the input characters alone.
#[verifier::external_body]
pub(crate) fn minify_html(src: &str) -> (r: String)
    ensures
        r@ == html_minify_of(src@),
{
    minifier::html::minify(src)
}

} // verus!
