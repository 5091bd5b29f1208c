//! Page assembly: navigation policy, the fixed document template, the
//! per-page formatting of converted subprocess output, and the synthesized
//! `404.html` fallback with one redirect clause per catalog entry.

use vstd::prelude::*;

use crate::catalog::{
    locations, loc_link, loc_path, is_catalog, LocationInfo, HOME_IDX, HOME_LABEL, NAV_IDX,
    NAV_LABEL, NUM_LOCATIONS,
};
use crate::errors::BuildError;
use crate::strip::{strip_noise, strip_noise_spec};
use crate::text::utf8_to_string;

verus! {

/// Opening of the page template, up to the title.
pub const TPL_HEAD: &'static str = "\n<!DOCTYPE html>\n<html lang=\"en\" xmlns=\"http://www.w3.org/1999/html\">\n<head>\n    <meta charset=\"UTF-8\">\n    <base href=\"/\">\n    <link rel=\"stylesheet\" href=\"static/styles.css\">\n    <link rel=\"stylesheet\" href=\"static/github-markdown.css\">\n    <link rel=\"stylesheet\" href=\"static/starry_night.css\">\n    <title>";

/// Between the title and the navigation links.
pub const TPL_AFTER_TITLE: &'static str =
    "</title>\n</head>\n<body>\n<div id=\"menu\">\n";

/// Between the navigation links and the page content.
pub const TPL_AFTER_LINKS: &'static str =
    "\n</div>\n<div id=\"content\">\n<div class=\"markdown-body\">";

/// Closing of the page template, after the content.
pub const TPL_TAIL: &'static str = "</div>\n</div>\n</body>\n</html>\n    ";

/// Catalog indices a page's navigation menu links to: the home page points at
/// the table of contents, the table of contents points back home, and every
/// other page points at both.
pub open spec fn nav_targets(i: int) -> Seq<int> {
    if i == HOME_IDX {
        seq![NAV_IDX as int]
    } else if i == NAV_IDX {
        seq![HOME_IDX as int]
    } else {
        seq![HOME_IDX as int, NAV_IDX as int]
    }
}

/// The label a navigation link shows for target `t`.
pub open spec fn nav_label(t: int) -> Seq<char> {
    if t == HOME_IDX {
        HOME_LABEL@
    } else {
        NAV_LABEL@
    }
}

/// One rendered navigation link to catalog entry `t`.
pub open spec fn link_html(t: int) -> Seq<char> {
    "<a href="@ + loc_path(t) + " class=\"menu-item\">"@ + nav_label(t) + "</a>"@
}

/// The rendered navigation snippet: targets in order, nothing else.
pub open spec fn render_links(ts: Seq<int>) -> Seq<char>
    decreases ts.len(),
{
    if ts.len() == 0 {
        Seq::<char>::empty()
    } else {
        link_html(ts[0]) + render_links(ts.drop_first())
    }
}

/// Every page that is neither home nor the table of contents carries exactly
/// two navigation links; the home page and the table of contents carry
/// exactly one, each pointing at the other.
pub proof fn lemma_nav_link_counts(i: int)
    requires
        0 <= i < NUM_LOCATIONS,
    ensures
        i == HOME_IDX ==> nav_targets(i) == seq![NAV_IDX as int],
        i == NAV_IDX ==> nav_targets(i) == seq![HOME_IDX as int],
        i != HOME_IDX && i != NAV_IDX ==> nav_targets(i) == seq![
            HOME_IDX as int,
            NAV_IDX as int,
        ],
        nav_targets(i).len() == if i == HOME_IDX || i == NAV_IDX {
            1int
        } else {
            2int
        },
{
}

/// Builds one navigation link to entry `t` (home or the table of contents).
fn link_to(t: usize) -> (r: String)
    requires
        t == HOME_IDX || t == NAV_IDX,
    ensures
        r@ == link_html(t as int),
{
    let locs = locations();
    let mut r = String::from_str("<a href=");
    r.append(locs[t].path_name);
    r.append(" class=\"menu-item\">");
    if t == HOME_IDX {
        r.append(HOME_LABEL);
    } else {
        r.append(NAV_LABEL);
    }
    r.append("</a>");
    proof {
        assert(r@ =~= link_html(t as int));
    }
    r
}

/// Renders the navigation snippet of catalog entry `i`.
pub fn nav_links(i: usize) -> (r: String)
    requires
        i < NUM_LOCATIONS,
    ensures
        r@ == render_links(nav_targets(i as int)),
{
    if i == HOME_IDX {
        let r = link_to(NAV_IDX);
        proof {
            lemma_render_links_one(nav_targets(i as int), NAV_IDX as int);
        }
        r
    } else if i == NAV_IDX {
        let r = link_to(HOME_IDX);
        proof {
            lemma_render_links_one(nav_targets(i as int), HOME_IDX as int);
        }
        r
    } else {
        let mut r = link_to(HOME_IDX);
        let second = link_to(NAV_IDX);
        r.append(second.as_str());
        proof {
            let ts = nav_targets(i as int);
            lemma_render_links_one(ts.drop_first(), NAV_IDX as int);
            assert(render_links(ts) =~= link_html(ts[0]) + render_links(ts.drop_first()));
            assert(r@ =~= render_links(ts));
        }
        r
    }
}

/// Rendering a single-target list yields that target's link alone.
proof fn lemma_render_links_one(ts: Seq<int>, t: int)
    requires
        ts =~= seq![t],
    ensures
        render_links(ts) == link_html(t),
{
    assert(render_links(ts.drop_first()) =~= Seq::<char>::empty()) by {
        assert(ts.drop_first().len() == 0);
    }
    assert(render_links(ts) =~= link_html(t) + render_links(ts.drop_first()));
    assert(render_links(ts) =~= link_html(t));
}

/// The finished document of catalog entry `i` with the given title and body
/// content: the fixed template with the navigation snippet injected.
pub open spec fn page_doc_spec(i: int, name: Seq<char>, content: Seq<char>) -> Seq<char> {
    TPL_HEAD@ + name + TPL_AFTER_TITLE@ + render_links(nav_targets(i)) + TPL_AFTER_LINKS@
        + content + TPL_TAIL@
}

/// Offset at which the navigation snippet stands in a page document with
/// the given title.
pub open spec fn nav_offset(name: Seq<char>) -> int {
    TPL_HEAD@.len() + name.len() + TPL_AFTER_TITLE@.len() as int
}

/// The assembled page of entry `i` carries exactly its navigation snippet —
/// one link on the home and table-of-contents pages, two on every other —
/// at the snippet's place in the template.
pub proof fn lemma_page_carries_nav_snippet(i: int, name: Seq<char>, content: Seq<char>)
    requires
        0 <= i < NUM_LOCATIONS,
    ensures
        0 <= nav_offset(name),
        nav_offset(name) + render_links(nav_targets(i)).len() <= page_doc_spec(
            i,
            name,
            content,
        ).len(),
        page_doc_spec(i, name, content).subrange(
            nav_offset(name),
            nav_offset(name) + render_links(nav_targets(i)).len() as int,
        ) == render_links(nav_targets(i)),
{
    let doc = page_doc_spec(i, name, content);
    let off = nav_offset(name);
    let links = render_links(nav_targets(i));
    assert(doc.subrange(off, off + links.len() as int) =~= links);
}

/// Wraps a page's stripped content and navigation snippet in the document
/// template.
pub fn assemble_page(i: usize, name: &str, content: &str) -> (r: String)
    requires
        i < NUM_LOCATIONS,
    ensures
        r@ == page_doc_spec(i as int, name@, content@),
{
    let mut r = String::from_str(TPL_HEAD);
    r.append(name);
    r.append(TPL_AFTER_TITLE);
    let links = nav_links(i);
    r.append(links.as_str());
    r.append(TPL_AFTER_LINKS);
    r.append(content);
    r.append(TPL_TAIL);
    proof {
        assert(r@ =~= page_doc_spec(i as int, name@, content@));
    }
    r
}

/// Turns one conversion subprocess's outcome into the page's finished
/// document: a non-zero exit or ill-encoded output is fatal and names the
/// page; otherwise the output's noise prologue is stripped and the content
/// wrapped in the template.
pub fn format_page(i: usize, name: &str, exit_ok: bool, stdout: &Vec<u8>) -> (r: Result<
    String,
    BuildError,
>)
    requires
        i < NUM_LOCATIONS,
    ensures
        !exit_ok ==> (r matches Err(BuildError::ConversionExit { name: n }) && n@ == name@),
        exit_ok && !vstd::utf8::valid_utf8(stdout@) ==> (r matches Err(
            BuildError::ConversionEncoding { name: n },
        ) && n@ == name@),
        exit_ok && vstd::utf8::valid_utf8(stdout@) ==> (r matches Ok(doc) && doc@
            == page_doc_spec(
            i as int,
            name@,
            strip_noise_spec(vstd::utf8::decode_utf8(stdout@)),
        )),
{
    if !exit_ok {
        return Err(BuildError::ConversionExit { name: String::from_str(name) });
    }
    match utf8_to_string(stdout) {
        None => Err(BuildError::ConversionEncoding { name: String::from_str(name) }),
        Some(s) => {
            let stripped = strip_noise(s.as_str());
            Ok(assemble_page(i, name, stripped.as_str()))
        },
    }
}

/// Opening of the fallback page, up to its redirect script.
pub const FOF_HEAD: &'static str = "<!DOCTYPE html>\n        <html lang=\"en\" xmlns=\"http://www.w3.org/1999/html\">\n            <head>\n            <meta charset=\"UTF-8\">\n            <base href=\"/\">\n            <title>Not found</title>\n            <script>";

/// Closing of the fallback page, after its redirect script.
pub const FOF_TAIL: &'static str =
    "</script>\n            </head>\n        <body>\n        NOT FOUND\n        </body>\n        </html>\n        ";

/// Script pieces of one redirect clause.
pub const CLAUSE_A: &'static str = "if (window.location.pathname === \"";

pub const CLAUSE_B: &'static str = "\" || window.location.pathname === \"";

pub const CLAUSE_C: &'static str =
    "/\") { let next_url = window.location.protocol + \"//\" + window.location.host + \"";

pub const CLAUSE_D: &'static str = "\"; window.location.replace(next_url);}";

/// The redirect-check clause of catalog entry `i`: the browser's path is
/// compared against the entry's link name, with and without a trailing
/// slash, and on a match replaced by the entry's canonical path.
pub open spec fn redirect_clause(i: int) -> Seq<char> {
    CLAUSE_A@ + loc_link(i) + CLAUSE_B@ + loc_link(i) + CLAUSE_C@ + loc_path(i) + CLAUSE_D@
        + "\n"@
}

/// The redirect clauses of the first `n` catalog entries, in catalog order.
pub open spec fn clauses_to(n: int) -> Seq<char>
    decreases n,
{
    if n <= 0 {
        Seq::<char>::empty()
    } else {
        clauses_to(n - 1) + redirect_clause(n - 1)
    }
}

/// The finished fallback document.
pub open spec fn doc_404_spec() -> Seq<char> {
    FOF_HEAD@ + clauses_to(NUM_LOCATIONS as int) + FOF_TAIL@
}

/// Appends the redirect clause of entry `loc` to `script`.
fn push_clause(script: &mut String, loc: &LocationInfo, ghost_i: usize)
    requires
        ghost_i < NUM_LOCATIONS,
        loc.link_name@ == loc_link(ghost_i as int),
        loc.path_name@ == loc_path(ghost_i as int),
    ensures
        final(script)@ == old(script)@ + redirect_clause(ghost_i as int),
{
    script.append(CLAUSE_A);
    script.append(loc.link_name);
    script.append(CLAUSE_B);
    script.append(loc.link_name);
    script.append(CLAUSE_C);
    script.append(loc.path_name);
    script.append(CLAUSE_D);
    script.append("\n");
    proof {
        assert(script@ =~= old(script)@ + redirect_clause(ghost_i as int));
    }
}

/// Synthesizes the fallback page: one redirect clause per catalog entry,
/// wrapped in the fixed not-found document. A static host serves it for any
/// unmatched path; the script sends known link names to their canonical
/// routes.
pub fn create_404() -> (r: String)
    ensures
        r@ == doc_404_spec(),
{
    let locs = locations();
    let mut script = String::new();
    let mut i: usize = 0;
    while i < NUM_LOCATIONS
        invariant
            is_catalog(locs@),
            i <= NUM_LOCATIONS,
            script@ == clauses_to(i as int),
        decreases NUM_LOCATIONS - i,
    {
        push_clause(&mut script, &locs[i], i);
        i += 1;
    }
    let mut r = String::from_str(FOF_HEAD);
    r.append(script.as_str());
    r.append(FOF_TAIL);
    proof {
        assert(r@ =~= doc_404_spec());
    }
    r
}

/// Offset at which catalog entry `i`'s redirect clause stands in the
/// fallback document.
pub open spec fn clause_offset(i: int) -> int {
    FOF_HEAD@.len() + clauses_to(i).len() as int
}

/// Every catalog entry's redirect clause stands in the fallback document, at
/// its offset.
pub proof fn lemma_404_clause_present(i: int)
    requires
        0 <= i < NUM_LOCATIONS,
    ensures
        0 <= clause_offset(i),
        clause_offset(i) + redirect_clause(i).len() <= doc_404_spec().len(),
        doc_404_spec().subrange(clause_offset(i), clause_offset(i) + redirect_clause(i).len() as int)
            == redirect_clause(i),
{
    lemma_clause_in_clauses(i, NUM_LOCATIONS as int);
    let off0 = clauses_to(i).len() as int;
    let off = clause_offset(i);
    let len = redirect_clause(i).len() as int;
    assert(doc_404_spec().subrange(off, off + len) =~= clauses_to(NUM_LOCATIONS as int).subrange(
        off0,
        off0 + len,
    ));
}

/// Within the first `n` clauses, entry `i`'s clause stands right after the
/// first `i` clauses.
proof fn lemma_clause_in_clauses(i: int, n: int)
    requires
        0 <= i < n,
    ensures
        clauses_to(i).len() + redirect_clause(i).len() <= clauses_to(n).len(),
        clauses_to(n).subrange(
            clauses_to(i).len() as int,
            clauses_to(i).len() + redirect_clause(i).len() as int,
        ) == redirect_clause(i),
    decreases n,
{
    let off = clauses_to(i).len() as int;
    let len = redirect_clause(i).len() as int;
    if i == n - 1 {
        assert(clauses_to(n).subrange(off, off + len) =~= redirect_clause(i));
    } else {
        lemma_clause_in_clauses(i, n - 1);
        assert(clauses_to(n).subrange(off, off + len) =~= clauses_to(n - 1).subrange(
            off,
            off + len,
        ));
    }
}

} // verus!
