use sitegen::assemble::{assemble_page, create_404, format_page, nav_links};
use sitegen::catalog::{locations, HOME_IDX, NAV_IDX, NUM_LOCATIONS};
use sitegen::errors::BuildError;

#[test]
fn home_links_only_to_nav() {
    let links = nav_links(HOME_IDX);
    assert_eq!(
        links,
        "<a href=/table-of-contents.html class=\"menu-item\">Table of contents</a>"
    );
    assert_eq!(links.matches("<a ").count(), 1);
}

#[test]
fn nav_links_only_to_home() {
    let links = nav_links(NAV_IDX);
    assert_eq!(links, "<a href=/ class=\"menu-item\">Home</a>");
    assert_eq!(links.matches("<a ").count(), 1);
}

#[test]
fn other_pages_link_to_both() {
    for i in 2..NUM_LOCATIONS {
        let links = nav_links(i);
        assert_eq!(links.matches("<a ").count(), 2);
        assert!(links.contains("<a href=/ class=\"menu-item\">Home</a>"));
        assert!(links.contains(
            "<a href=/table-of-contents.html class=\"menu-item\">Table of contents</a>"
        ));
    }
}

#[test]
fn assembled_page_wraps_content_in_template() {
    let doc = assemble_page(3, "Pgwm03", "<h1>hi</h1>\n");
    assert!(doc.starts_with("\n<!DOCTYPE html>"));
    assert!(doc.contains("<title>Pgwm03</title>"));
    assert!(doc.contains("<link rel=\"stylesheet\" href=\"static/styles.css\">"));
    assert!(doc.contains("<link rel=\"stylesheet\" href=\"static/github-markdown.css\">"));
    assert!(doc.contains("<link rel=\"stylesheet\" href=\"static/starry_night.css\">"));
    assert!(doc.contains("<div class=\"markdown-body\"><h1>hi</h1>\n</div>"));
    assert!(doc.ends_with("</html>\n    "));
}

#[test]
fn format_page_strips_and_wraps() {
    let doc = format_page(3, "Pgwm03", true, &b"\n>noise\n<h1>hi</h1>\n".to_vec()).unwrap();
    assert!(doc.contains("<div class=\"markdown-body\"><h1>hi</h1>\n</div>"));
    assert!(!doc.contains(">noise"));
    assert_eq!(doc.matches("<a ").count(), 2);
}

#[test]
fn format_page_fails_on_bad_exit() {
    let err = format_page(3, "Pgwm03", false, &b"fine output".to_vec()).unwrap_err();
    match &err {
        BuildError::ConversionExit { name } => assert_eq!(name, "Pgwm03"),
        other => panic!("wrong error: {:?}", other),
    }
    assert!(err.message().contains("Pgwm03"));
}

#[test]
fn format_page_fails_on_bad_encoding() {
    let err = format_page(9, "Test", true, &vec![0xff, 0xfe, 0x00]).unwrap_err();
    match &err {
        BuildError::ConversionEncoding { name } => assert_eq!(name, "Test"),
        other => panic!("wrong error: {:?}", other),
    }
    assert!(err.message().contains("Test"));
}

#[test]
fn fallback_page_covers_every_entry() {
    let fof = create_404();
    assert_eq!(
        fof.matches("if (window.location.pathname").count(),
        NUM_LOCATIONS
    );
    for loc in locations() {
        let clause = format!(
            "if (window.location.pathname === \"{}\" || window.location.pathname === \"{}/\")",
            loc.link_name, loc.link_name
        );
        assert!(fof.contains(&clause));
        let redirect = format!(
            "window.location.host + \"{}\"; window.location.replace(next_url);",
            loc.path_name
        );
        assert!(fof.contains(&redirect));
    }
    assert!(fof.contains("<title>Not found</title>"));
    assert!(fof.contains("NOT FOUND"));
}
