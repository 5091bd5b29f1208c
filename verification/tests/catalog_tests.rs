use sitegen::catalog::{find_location, locations, LocationInfo, HOME_IDX, NAV_IDX, NUM_LOCATIONS};
use sitegen::discover::{classify_source, source_stem};
use sitegen::errors::BuildError;

#[test]
fn catalog_has_every_page() {
    let locs = locations();
    assert_eq!(locs.len(), NUM_LOCATIONS);
    assert_eq!(locs[HOME_IDX].path_name, "/");
    assert_eq!(locs[HOME_IDX].md_name, "Home");
    assert_eq!(locs[HOME_IDX].link_name, "index");
    assert_eq!(locs[NAV_IDX].path_name, "/table-of-contents.html");
    assert_eq!(locs[NAV_IDX].md_name, "Nav");
    assert_eq!(locs[NAV_IDX].link_name, "table-of-contents");
    assert_eq!(locs[7].path_name, "/static-pie.html");
    assert_eq!(locs[7].md_name, "StaticPie");
    assert_eq!(locs[7].link_name, "static-pie");
    assert_eq!(locs[9].md_name, "Test");
}

#[test]
fn location_info_new_keeps_fields() {
    let info = LocationInfo::new("/meta.html", "Meta", "meta");
    assert_eq!(info.path_name, "/meta.html");
    assert_eq!(info.md_name, "Meta");
    assert_eq!(info.link_name, "meta");
}

#[test]
fn catalog_keys_are_unique() {
    let locs = locations();
    for i in 0..locs.len() {
        for j in 0..locs.len() {
            if i != j {
                assert_ne!(locs[i].md_name, locs[j].md_name);
            }
        }
    }
}

#[test]
fn find_location_hits_each_key() {
    assert_eq!(find_location("Home"), Some(0));
    assert_eq!(find_location("Nav"), Some(1));
    assert_eq!(find_location("Pgwm03"), Some(3));
    assert_eq!(find_location("KbdSmp"), Some(8));
    assert_eq!(find_location("Test"), Some(9));
}

#[test]
fn find_location_rejects_unknown_stem() {
    assert_eq!(find_location("unknown"), None);
    assert_eq!(find_location(""), None);
    assert_eq!(find_location("home"), None);
}

#[test]
fn source_stem_cuts_at_first_separator() {
    assert_eq!(source_stem("Pgwm03.md"), "Pgwm03");
    assert_eq!(source_stem("Test.tar.gz"), "Test");
    assert_eq!(source_stem("NoExtension"), "NoExtension");
    assert_eq!(source_stem(""), "");
}

#[test]
fn classify_source_accepts_known_page() {
    assert!(matches!(classify_source("Boot.md"), Ok(4)));
    assert!(matches!(classify_source("StaticPie.md"), Ok(7)));
}

#[test]
fn classify_source_rejects_unknown_file() {
    let err = classify_source("unknown.md").unwrap_err();
    match &err {
        BuildError::Classification { stem } => assert_eq!(stem, "unknown"),
        other => panic!("wrong error: {:?}", other),
    }
    let msg = err.message();
    assert!(msg.contains("unknown"));
    assert!(msg.contains("unmapped name"));
}
