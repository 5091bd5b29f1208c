//! The fixed page catalog: every page the site can contain, with its route
//! path, its markdown source key and its output link name. Discovery matches
//! source files against this catalog and aborts on anything it does not name.

use vstd::prelude::*;

use crate::text::str_eq;

verus! {

/// Number of entries in the page catalog.
pub const NUM_LOCATIONS: usize = 10;

/// Catalog index of the home page.
pub const HOME_IDX: usize = 0;

/// Catalog index of the navigation (table of contents) page.
pub const NAV_IDX: usize = 1;

/// Label of the navigation link that leads home.
pub const HOME_LABEL: &'static str = "Home";

/// Label of the navigation link that leads to the table of contents.
pub const NAV_LABEL: &'static str = "Table of contents";

/// One catalog entry: route path, markdown source key, output link name.
#[derive(Copy, Clone, Debug)]
pub struct LocationInfo {
    pub path_name: &'static str,
    pub md_name: &'static str,
    pub link_name: &'static str,
}

impl LocationInfo {
    /// Builds a catalog entry from its three components.
    pub fn new(path_name: &'static str, tag_name: &'static str, link_name: &'static str) -> (r:
        Self)
        ensures
            r.path_name@ == path_name@,
            r.md_name@ == tag_name@,
            r.link_name@ == link_name@,
    {
        Self { path_name, md_name: tag_name, link_name }
    }
}

/// Route path of catalog entry `i`.
pub open spec fn loc_path(i: int) -> Seq<char> {
    if i == 0 {
        "/"@
    } else if i == 1 {
        "/table-of-contents.html"@
    } else if i == 2 {
        "/meta.html"@
    } else if i == 3 {
        "/pgwm03.html"@
    } else if i == 4 {
        "/boot.html"@
    } else if i == 5 {
        "/pgwm04.html"@
    } else if i == 6 {
        "/threads.html"@
    } else if i == 7 {
        "/static-pie.html"@
    } else if i == 8 {
        "/kbd-smp.html"@
    } else {
        "/test.html"@
    }
}

/// Markdown source key (name stem) of catalog entry `i`.
pub open spec fn loc_md(i: int) -> Seq<char> {
    if i == 0 {
        "Home"@
    } else if i == 1 {
        "Nav"@
    } else if i == 2 {
        "Meta"@
    } else if i == 3 {
        "Pgwm03"@
    } else if i == 4 {
        "Boot"@
    } else if i == 5 {
        "Pgwm04"@
    } else if i == 6 {
        "Threads"@
    } else if i == 7 {
        "StaticPie"@
    } else if i == 8 {
        "KbdSmp"@
    } else {
        "Test"@
    }
}

/// Output link name of catalog entry `i`.
pub open spec fn loc_link(i: int) -> Seq<char> {
    if i == 0 {
        "index"@
    } else if i == 1 {
        "table-of-contents"@
    } else if i == 2 {
        "meta"@
    } else if i == 3 {
        "pgwm03"@
    } else if i == 4 {
        "boot"@
    } else if i == 5 {
        "pgwm04"@
    } else if i == 6 {
        "threads"@
    } else if i == 7 {
        "static-pie"@
    } else if i == 8 {
        "kbd-smp"@
    } else {
        "test"@
    }
}

/// A vector holds exactly the catalog, entry by entry.
pub open spec fn is_catalog(s: Seq<LocationInfo>) -> bool {
    &&& s.len() == NUM_LOCATIONS
    &&& forall|i: int|
        0 <= i < s.len() ==> (#[trigger] s[i]).path_name@ == loc_path(i) && s[i].md_name@ == loc_md(
            i,
        ) && s[i].link_name@ == loc_link(i)
}

/// The page catalog, in its fixed order: home first, then the table of
/// contents, then the write-ups.
pub fn locations() -> (r: Vec<LocationInfo>)
    ensures
        is_catalog(r@),
{
    let mut r: Vec<LocationInfo> = Vec::new();
    r.push(LocationInfo::new("/", "Home", "index"));
    r.push(LocationInfo::new("/table-of-contents.html", "Nav", "table-of-contents"));
    r.push(LocationInfo::new("/meta.html", "Meta", "meta"));
    r.push(LocationInfo::new("/pgwm03.html", "Pgwm03", "pgwm03"));
    r.push(LocationInfo::new("/boot.html", "Boot", "boot"));
    r.push(LocationInfo::new("/pgwm04.html", "Pgwm04", "pgwm04"));
    r.push(LocationInfo::new("/threads.html", "Threads", "threads"));
    r.push(LocationInfo::new("/static-pie.html", "StaticPie", "static-pie"));
    r.push(LocationInfo::new("/kbd-smp.html", "KbdSmp", "kbd-smp"));
    r.push(LocationInfo::new("/test.html", "Test", "test"));
    r
}

/// Looks a source file's name stem up in the catalog, returning the index of
/// the first (and, the keys being unique, only) entry whose markdown key
/// equals the stem.
pub fn find_location(stem: &str) -> (r: Option<usize>)
    ensures
        match r {
            Some(i) => i < NUM_LOCATIONS && loc_md(i as int) == stem@ && forall|j: int|
                0 <= j < i ==> loc_md(j) != stem@,
            None => forall|j: int| 0 <= j < NUM_LOCATIONS ==> loc_md(j) != stem@,
        },
{
    let locs = locations();
    let mut i: usize = 0;
    while i < NUM_LOCATIONS
        invariant
            is_catalog(locs@),
            i <= NUM_LOCATIONS,
            forall|j: int| 0 <= j < i ==> loc_md(j) != stem@,
        decreases NUM_LOCATIONS - i,
    {
        if str_eq(locs[i].md_name, stem) {
            return Some(i);
        }
        i += 1;
    }
    None
}

/// The catalog's source keys are pairwise distinct: no stem can match two
/// entries, so classification is unambiguous.
pub proof fn lemma_md_keys_unique()
    ensures
        forall|i: int, j: int|
            #![trigger loc_md(i), loc_md(j)]
            0 <= i < NUM_LOCATIONS && 0 <= j < NUM_LOCATIONS && i != j ==> loc_md(i) != loc_md(j),
{
    reveal_strlit("Home");
    reveal_strlit("Nav");
    reveal_strlit("Meta");
    reveal_strlit("Pgwm03");
    reveal_strlit("Boot");
    reveal_strlit("Pgwm04");
    reveal_strlit("Threads");
    reveal_strlit("StaticPie");
    reveal_strlit("KbdSmp");
    reveal_strlit("Test");
    assert("Home"@.len() == 4 && "Home"@[0] == 'H');
    assert("Nav"@.len() == 3);
    assert("Meta"@.len() == 4 && "Meta"@[0] == 'M');
    assert("Pgwm03"@.len() == 6 && "Pgwm03"@[5] == '3');
    assert("Boot"@.len() == 4 && "Boot"@[0] == 'B');
    assert("Pgwm04"@.len() == 6 && "Pgwm04"@[5] == '4');
    assert("Threads"@.len() == 7 && "Threads"@[0] == 'T');
    assert("StaticPie"@.len() == 9);
    assert("KbdSmp"@.len() == 6 && "KbdSmp"@[0] == 'K');
    assert("Test"@.len() == 4 && "Test"@[0] == 'T');
}

} // verus!
