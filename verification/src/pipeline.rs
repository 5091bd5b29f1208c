//! The build pass: discovered pages are arranged by source path, each
//! conversion outcome is turned into a finished document (failing fast on
//! the first broken conversion), the fallback page is added, and every
//! document is minified for publication. The arrangement step is what makes
//! two builds over the same source tree byte-identical.

use vstd::prelude::*;
use vstd::relations::sorted_by;
use vstd::seq_lib::group_to_multiset_ensures;

use crate::assemble::{create_404, doc_404_spec, format_page, page_doc_spec};
use crate::catalog::{is_catalog, loc_link, locations, NUM_LOCATIONS};
use crate::errors::BuildError;
use crate::minify::{html_minify_of, minify_html};
use crate::strip::strip_noise_spec;
use crate::text::{
    lemma_lex_le_antisym, lemma_lex_le_refl, lemma_lex_le_total, lemma_lex_le_trans, lex_le,
    str_le,
};

verus! {

/// One discovered page as the assembler receives it: its catalog index, its
/// name stem, the source file path it came from (the ordering key), and the
/// outcome of its conversion subprocess.
pub struct PageInput {
    pub loc_idx: usize,
    pub name: String,
    pub md_file_path: String,
    pub exit_ok: bool,
    pub stdout: Vec<u8>,
}

/// Mathematical image of one `PageInput`.
pub struct PageInputView {
    pub loc_idx: int,
    pub name: Seq<char>,
    pub md_file_path: Seq<char>,
    pub exit_ok: bool,
    pub stdout: Seq<u8>,
}

impl View for PageInput {
    type V = PageInputView;

    open spec fn view(&self) -> PageInputView {
        PageInputView {
            loc_idx: self.loc_idx as int,
            name: self.name@,
            md_file_path: self.md_file_path@,
            exit_ok: self.exit_ok,
            stdout: self.stdout@,
        }
    }
}

/// The views of a sequence of page inputs.
pub open spec fn views(s: Seq<PageInput>) -> Seq<PageInputView> {
    s.map_values(|p: PageInput| p@)
}

/// Pages are ordered by their source file paths.
pub open spec fn page_le(a: PageInputView, b: PageInputView) -> bool {
    lex_le(a.md_file_path, b.md_file_path)
}

/// The page ordering as a relation value.
pub open spec fn page_order() -> spec_fn(PageInputView, PageInputView) -> bool {
    |a: PageInputView, b: PageInputView| page_le(a, b)
}

/// No two pages come from the same source path. A filesystem walk can never
/// hand out one path twice, so every real discovery satisfies this.
pub open spec fn distinct_paths(s: Seq<PageInputView>) -> bool {
    forall|i: int, j: int|
        #![trigger s[i], s[j]]
        0 <= i < s.len() && 0 <= j < s.len() && i != j ==> s[i].md_file_path != s[j].md_file_path
}

/// A page's conversion succeeded: exit status zero and UTF-8 output.
pub open spec fn page_ok(pv: PageInputView) -> bool {
    pv.exit_ok && vstd::utf8::valid_utf8(pv.stdout)
}

/// The error the assembler reports for a failed conversion.
pub open spec fn conv_error_for(e: BuildError, pv: PageInputView) -> bool {
    if !pv.exit_ok {
        e matches BuildError::ConversionExit { name } && name@ == pv.name
    } else {
        e matches BuildError::ConversionEncoding { name } && name@ == pv.name
    }
}

/// One artifact bound for the output root: file name and document text.
#[derive(Debug)]
pub struct Artifact {
    pub path: String,
    pub content: String,
}

/// Mathematical image of one `Artifact`.
pub struct ArtifactView {
    pub path: Seq<char>,
    pub content: Seq<char>,
}

impl View for Artifact {
    type V = ArtifactView;

    open spec fn view(&self) -> ArtifactView {
        ArtifactView { path: self.path@, content: self.content@ }
    }
}

/// The views of a sequence of artifacts.
pub open spec fn art_views(s: Seq<Artifact>) -> Seq<ArtifactView> {
    s.map_values(|a: Artifact| a@)
}

/// The artifact of one successfully converted page: its catalog link name
/// with the document suffix, and the assembled document.
pub open spec fn page_artifact_spec(pv: PageInputView) -> ArtifactView {
    ArtifactView {
        path: loc_link(pv.loc_idx) + ".html"@,
        content: page_doc_spec(
            pv.loc_idx,
            pv.name,
            strip_noise_spec(vstd::utf8::decode_utf8(pv.stdout)),
        ),
    }
}

/// Everything the build produces for the output root, in order: the
/// fallback page first, then one document per page in the given order.
pub open spec fn artifacts_spec(sp: Seq<PageInputView>) -> Seq<ArtifactView> {
    seq![ArtifactView { path: "404.html"@, content: doc_404_spec() }] + sp.map_values(
        |pv: PageInputView| page_artifact_spec(pv),
    )
}

/// `sp` holds exactly the pages of `s`, arranged by source path.
pub open spec fn sorted_arrangement(s: Seq<PageInputView>, sp: Seq<PageInputView>) -> bool {
    sp.to_multiset() == s.to_multiset() && sorted_by(sp, page_order())
}

/// Inserting an element at a position that respects the existing order
/// keeps the sequence sorted.
proof fn lemma_sorted_insert(v: Seq<PageInputView>, j: int, x: PageInputView)
    requires
        sorted_by(v, page_order()),
        0 <= j <= v.len(),
        forall|k: int| 0 <= k < j ==> page_le(#[trigger] v[k], x),
        j < v.len() ==> !page_le(v[j], x),
    ensures
        sorted_by(v.insert(j, x), page_order()),
{
    if j < v.len() {
        lemma_lex_le_total(v[j].md_file_path, x.md_file_path);
    }
    assert forall|k: int| j <= k < v.len() implies page_le(x, #[trigger] v[k]) by {
        if k > j {
            assert(page_order()(v[j], v[k]));
            lemma_lex_le_trans(x.md_file_path, v[j].md_file_path, v[k].md_file_path);
        }
    }
    let t = v.insert(j, x);
    assert forall|a: int, b: int| 0 <= a < b < t.len() implies #[trigger] page_order()(
        t[a],
        t[b],
    ) by {
        if b < j {
            assert(page_order()(v[a], v[b]));
        } else if a > j {
            assert(page_order()(v[a - 1], v[b - 1]));
        } else if a < j && b == j {
            assert(page_le(v[a], x));
        } else if a == j && b > j {
            assert(page_le(x, v[b - 1]));
        } else if a < j && b > j {
            assert(page_order()(v[a], v[b - 1]));
        }
    }
}

/// A sequence's multiset gains exactly the inserted element.
proof fn lemma_to_multiset_insert(s: Seq<PageInputView>, j: int, x: PageInputView)
    requires
        0 <= j <= s.len(),
    ensures
        s.insert(j, x).to_multiset() =~= s.to_multiset().insert(x),
{
    broadcast use group_to_multiset_ensures;

    let t = s.insert(j, x);
    assert(t.remove(j) =~= s);
    assert(t.remove(j).to_multiset() =~= t.to_multiset().remove(t[j]));
    assert(t[j] == x);
    assert(t.contains(x)) by {
        assert(t[j] == x);
    }
    assert(t.to_multiset().count(x) > 0);
    assert(t.to_multiset().remove(x).insert(x) =~= t.to_multiset());
    assert(s.to_multiset().insert(x) =~= t.to_multiset());
}

/// Every element of `t` also stands somewhere in `s` when the two hold the
/// same multiset.
proof fn lemma_elem_of_multiset(s: Seq<PageInputView>, t: Seq<PageInputView>, k: int)
    requires
        s.to_multiset() == t.to_multiset(),
        0 <= k < t.len(),
    ensures
        exists|i: int| 0 <= i < s.len() && s[i] == t[k],
{
    broadcast use group_to_multiset_ensures;

    assert(t.contains(t[k]));
    assert(t.to_multiset().count(t[k]) > 0);
    assert(s.to_multiset().count(t[k]) > 0);
    assert(s.contains(t[k]));
}

/// Arranges the discovered pages by source path.
fn sort_pages(pages: Vec<PageInput>) -> (r: Vec<PageInput>)
    ensures
        sorted_arrangement(views(pages@), views(r@)),
{
    let ghost all = views(pages@);
    let mut rest = pages;
    let mut out: Vec<PageInput> = Vec::new();
    proof {
        broadcast use group_to_multiset_ensures;
        broadcast use vstd::multiset::group_multiset_axioms;

        assert(views(out@).to_multiset().len() == 0);
        assert(views(out@).to_multiset().add(views(rest@).to_multiset()) =~= views(
            rest@,
        ).to_multiset());
        assert(views(rest@) =~= all);
    }
    while rest.len() > 0
        invariant
            sorted_by(views(out@), page_order()),
            views(out@).to_multiset().add(views(rest@).to_multiset()) == all.to_multiset(),
        decreases rest.len(),
    {
        let ghost rest_before = views(rest@);
        let p = rest.pop().unwrap();
        proof {
            broadcast use group_to_multiset_ensures;

            assert(views(rest@).push(p@) =~= rest_before);
            assert(views(rest@).push(p@).to_multiset() =~= views(rest@).to_multiset().insert(p@));
        }
        let mut j: usize = 0;
        while j < out.len() && str_le(out[j].md_file_path.as_str(), p.md_file_path.as_str())
            invariant
                j <= out.len(),
                forall|k: int| 0 <= k < j ==> page_le(#[trigger] views(out@)[k], p@),
            decreases out.len() - j,
        {
            j += 1;
        }
        let ghost out_before = views(out@);
        proof {
            lemma_sorted_insert(out_before, j as int, p@);
            lemma_to_multiset_insert(out_before, j as int, p@);
        }
        out.insert(j, p);
        proof {
            broadcast use group_to_multiset_ensures;
            broadcast use vstd::multiset::group_multiset_axioms;

            assert(views(out@) =~= out_before.insert(j as int, p@));
            assert(views(out@).to_multiset().add(views(rest@).to_multiset()) =~= all.to_multiset());
        }
    }
    proof {
        broadcast use group_to_multiset_ensures;

        assert(views(rest@).to_multiset().len() == 0);
        assert(views(out@).to_multiset() =~= views(out@).to_multiset().add(
            views(rest@).to_multiset(),
        ));
    }
    out
}

/// Builds every artifact of the site from the discovered pages: the pages
/// are arranged by source path, the fallback page is synthesized, and each
/// conversion outcome is formatted in order. The first failed conversion
/// aborts the whole build with that page's error; success is owed exactly
/// when every conversion exited cleanly with UTF-8 output.
pub fn build_site(pages: Vec<PageInput>) -> (r: Result<Vec<Artifact>, BuildError>)
    requires
        forall|k: int|
            0 <= k < views(pages@).len() ==> (#[trigger] views(pages@)[k]).loc_idx
                < NUM_LOCATIONS,
    ensures
        exists|sp: Seq<PageInputView>|
            #[trigger] sorted_arrangement(views(pages@), sp) && (match r {
                Ok(arts) => (forall|k: int| 0 <= k < sp.len() ==> page_ok(#[trigger] sp[k]))
                    && art_views(arts@) == artifacts_spec(sp),
                Err(e) => exists|k: int|
                    0 <= k < sp.len() && !page_ok(#[trigger] sp[k]) && (forall|j: int|
                        0 <= j < k ==> page_ok(sp[j])) && conv_error_for(e, sp[k]),
            }),
{
    let ghost orig = views(pages@);
    proof {
        assert(orig == views(pages@));
    }
    let sorted = sort_pages(pages);
    let ghost sp = views(sorted@);
    proof {
        assert forall|k: int| 0 <= k < sp.len() implies (#[trigger] sp[k]).loc_idx
            < NUM_LOCATIONS by {
            lemma_elem_of_multiset(orig, sp, k);
        }
    }
    let locs = locations();
    let mut arts: Vec<Artifact> = Vec::new();
    arts.push(Artifact { path: String::from_str("404.html"), content: create_404() });
    proof {
        assert(art_views(arts@) =~= artifacts_spec(sp.take(0)));
    }
    let mut k: usize = 0;
    while k < sorted.len()
        invariant
            is_catalog(locs@),
            sp == views(sorted@),
            sp.len() == sorted.len(),
            k <= sorted.len(),
            forall|i: int| 0 <= i < sp.len() ==> (#[trigger] sp[i]).loc_idx < NUM_LOCATIONS,
            forall|j: int| 0 <= j < k ==> page_ok(#[trigger] sp[j]),
            art_views(arts@) == artifacts_spec(sp.take(k as int)),
            sorted_arrangement(orig, sp),
            orig == views(pages@),
        decreases sorted.len() - k,
    {
        let p = &sorted[k];
        proof {
            assert(sp[k as int] == sorted@[k as int]@);
        }
        match format_page(p.loc_idx, p.name.as_str(), p.exit_ok, &p.stdout) {
            Err(e) => {
                proof {
                    assert(sorted_arrangement(views(pages@), sp));
                    assert(!page_ok(sp[k as int]));
                    assert(conv_error_for(e, sp[k as int]));
                }
                return Err(e);
            },
            Ok(doc) => {
                let mut path = String::from_str(locs[p.loc_idx].link_name);
                path.append(".html");
                let ghost arts_before = arts@;
                let ghost newv = ArtifactView { path: path@, content: doc@ };
                proof {
                    assert(newv == page_artifact_spec(sp[k as int])) by {
                        assert(path@ =~= loc_link(sp[k as int].loc_idx) + ".html"@);
                    }
                }
                arts.push(Artifact { path, content: doc });
                proof {
                    assert(art_views(arts@) =~= art_views(arts_before).push(newv));
                    assert(sp.take(k as int + 1) =~= sp.take(k as int).push(sp[k as int]));
                    assert(sp.take(k as int + 1).map_values(
                        |pv: PageInputView| page_artifact_spec(pv),
                    ) =~= sp.take(k as int).map_values(|pv: PageInputView| page_artifact_spec(pv))
                        .push(page_artifact_spec(sp[k as int])));
                    assert(art_views(arts@) =~= artifacts_spec(sp.take(k as int + 1)));
                }
            },
        }
        k += 1;
    }
    proof {
        assert(sp.take(sp.len() as int) =~= sp);
        assert(sorted_arrangement(views(pages@), sp));
    }
    Ok(arts)
}

/// Minifies every finished document, the final pass before the output
/// directory is written.
pub fn minify_artifacts(arts: Vec<Artifact>) -> (r: Vec<Artifact>)
    ensures
        r@.len() == arts@.len(),
        forall|k: int|
            0 <= k < arts@.len() ==> (#[trigger] r@[k])@.path == arts@[k]@.path && r@[k]@.content
                == html_minify_of(arts@[k]@.content),
{
    let mut out: Vec<Artifact> = Vec::new();
    let mut k: usize = 0;
    while k < arts.len()
        invariant
            k <= arts.len(),
            out@.len() == k,
            forall|i: int|
                0 <= i < k ==> (#[trigger] out@[i])@.path == arts@[i]@.path && out@[i]@.content
                    == html_minify_of(arts@[i]@.content),
        decreases arts.len() - k,
    {
        let m = minify_html(arts[k].content.as_str());
        out.push(Artifact { path: arts[k].path.clone(), content: m });
        k += 1;
    }
    out
}

/// Two sorted arrangements of the same pages are identical, provided no two
/// pages share a source path.
proof fn lemma_sorted_pages_unique(x: Seq<PageInputView>, y: Seq<PageInputView>)
    requires
        sorted_by(x, page_order()),
        sorted_by(y, page_order()),
        x.to_multiset() == y.to_multiset(),
        distinct_paths(x),
    ensures
        x == y,
    decreases x.len(),
{
    broadcast use group_to_multiset_ensures;

    assert(x.len() == x.to_multiset().len());
    assert(y.len() == y.to_multiset().len());
    assert(x.len() == y.len());
    if x.len() > 0 {
        lemma_elem_of_multiset(x, y, 0);
        let i = choose|i: int| 0 <= i < x.len() && x[i] == y[0];
        lemma_elem_of_multiset(y, x, 0);
        let m = choose|m: int| 0 <= m < y.len() && y[m] == x[0];
        if i > 0 {
            assert(page_order()(x[0], x[i]));
        } else {
            lemma_lex_le_refl(x[0].md_file_path);
        }
        if m > 0 {
            assert(page_order()(y[0], y[m]));
        } else {
            lemma_lex_le_refl(y[0].md_file_path);
        }
        assert(lex_le(x[0].md_file_path, y[0].md_file_path));
        assert(lex_le(y[0].md_file_path, x[0].md_file_path));
        lemma_lex_le_antisym(x[0].md_file_path, y[0].md_file_path);
        assert(x[i].md_file_path == x[0].md_file_path);
        assert(i == 0);
        assert(x[0] == y[0]);
        let xt = x.drop_first();
        let yt = y.drop_first();
        assert(x.remove(0) =~= xt);
        assert(y.remove(0) =~= yt);
        assert(xt.to_multiset() =~= x.to_multiset().remove(x[0]));
        assert(yt.to_multiset() =~= y.to_multiset().remove(y[0]));
        assert(xt.to_multiset() == yt.to_multiset());
        assert(sorted_by(xt, page_order())) by {
            assert forall|a: int, b: int| 0 <= a < b < xt.len() implies #[trigger] page_order()(
                xt[a],
                xt[b],
            ) by {
                assert(page_order()(x[a + 1], x[b + 1]));
            }
        }
        assert(sorted_by(yt, page_order())) by {
            assert forall|a: int, b: int| 0 <= a < b < yt.len() implies #[trigger] page_order()(
                yt[a],
                yt[b],
            ) by {
                assert(page_order()(y[a + 1], y[b + 1]));
            }
        }
        assert(distinct_paths(xt)) by {
            assert forall|a: int, b: int|
                0 <= a < xt.len() && 0 <= b < xt.len() && a != b implies (#[trigger] xt[a]).md_file_path
                != (#[trigger] xt[b]).md_file_path by {
                assert(x[a + 1].md_file_path != x[b + 1].md_file_path);
            }
        }
        lemma_sorted_pages_unique(xt, yt);
        assert forall|n: int| 0 <= n < x.len() implies x[n] == y[n] by {
            if n > 0 {
                assert(x[n] == xt[n - 1]);
                assert(y[n] == yt[n - 1]);
            }
        }
        assert(x =~= y);
    } else {
        assert(x =~= y);
    }
}

/// Distinctness of source paths carries over to any rearrangement.
proof fn lemma_distinct_transfer(s: Seq<PageInputView>, t: Seq<PageInputView>)
    requires
        s.to_multiset() == t.to_multiset(),
        distinct_paths(s),
    ensures
        distinct_paths(t),
    decreases t.len(),
{
    broadcast use group_to_multiset_ensures;

    if t.len() > 0 {
        lemma_elem_of_multiset(s, t, 0);
        let k = choose|k: int| 0 <= k < s.len() && s[k] == t[0];
        let srest = s.remove(k);
        let trest = t.drop_first();
        assert(t.remove(0) =~= trest);
        assert(srest.to_multiset() =~= s.to_multiset().remove(s[k]));
        assert(trest.to_multiset() =~= t.to_multiset().remove(t[0]));
        assert(srest.to_multiset() == trest.to_multiset());
        assert(distinct_paths(srest)) by {
            assert forall|a: int, b: int|
                0 <= a < srest.len() && 0 <= b < srest.len() && a != b implies (
            #[trigger] srest[a]).md_file_path != (#[trigger] srest[b]).md_file_path by {
                let a0 = if a < k {
                    a
                } else {
                    a + 1
                };
                let b0 = if b < k {
                    b
                } else {
                    b + 1
                };
                assert(s[a0].md_file_path != s[b0].md_file_path);
            }
        }
        lemma_distinct_transfer(srest, trest);
        assert forall|a: int, b: int|
            0 <= a < t.len() && 0 <= b < t.len() && a != b implies (#[trigger] t[a]).md_file_path
            != (#[trigger] t[b]).md_file_path by {
            if a > 0 && b > 0 {
                assert(trest[a - 1].md_file_path != trest[b - 1].md_file_path);
            } else {
                let n0 = if a == 0 {
                    b
                } else {
                    a
                };
                assert(t[n0] == trest[n0 - 1]);
                lemma_elem_of_multiset(srest, trest, n0 - 1);
                let j = choose|j: int| 0 <= j < srest.len() && srest[j] == trest[n0 - 1];
                let j0 = if j < k {
                    j
                } else {
                    j + 1
                };
                assert(s[j0] == trest[n0 - 1]);
                assert(s[k].md_file_path != s[j0].md_file_path);
            }
        }
    }
}

/// Determinism of the build: two runs over the same set of discovered pages
/// — whatever order the tree walk produced them in — arrange the pages
/// identically and therefore emit identical artifact lists, byte for byte.
pub proof fn lemma_build_deterministic(
    a: Seq<PageInputView>,
    b: Seq<PageInputView>,
    sa: Seq<PageInputView>,
    sb: Seq<PageInputView>,
)
    requires
        a.to_multiset() == b.to_multiset(),
        distinct_paths(a),
        sorted_arrangement(a, sa),
        sorted_arrangement(b, sb),
    ensures
        sa == sb,
        artifacts_spec(sa) == artifacts_spec(sb),
{
    lemma_distinct_transfer(a, sa);
    lemma_sorted_pages_unique(sa, sb);
}

} // verus!
