use sitegen::errors::BuildError;
use sitegen::pipeline::{build_site, minify_artifacts, PageInput};

fn page(loc_idx: usize, name: &str, path: &str, exit_ok: bool, stdout: &str) -> PageInput {
    PageInput {
        loc_idx,
        name: name.to_string(),
        md_file_path: path.to_string(),
        exit_ok,
        stdout: stdout.as_bytes().to_vec(),
    }
}

#[test]
fn build_orders_pages_and_prepends_fallback() {
    let pages = vec![
        page(9, "Test", "pages/projects/Test.md", true, "<p>t</p>\n"),
        page(3, "Pgwm03", "pages/projects/Pgwm03.md", true, "<p>p</p>\n"),
    ];
    let arts = build_site(pages).unwrap();
    assert_eq!(arts.len(), 3);
    assert_eq!(arts[0].path, "404.html");
    assert_eq!(arts[1].path, "pgwm03.html");
    assert_eq!(arts[2].path, "test.html");
    assert!(arts[1].content.contains("<title>Pgwm03</title>"));
    assert!(arts[2].content.contains("<div class=\"markdown-body\"><p>t</p>\n</div>"));
}

#[test]
fn build_is_deterministic_across_discovery_orders() {
    let one = vec![
        page(9, "Test", "pages/projects/Test.md", true, ">n\n<p>t</p>\n"),
        page(3, "Pgwm03", "pages/projects/Pgwm03.md", true, "<p>p</p>\n"),
        page(0, "Home", "pages/Home.md", true, "<p>h</p>\n"),
    ];
    let two = vec![
        page(0, "Home", "pages/Home.md", true, "<p>h</p>\n"),
        page(3, "Pgwm03", "pages/projects/Pgwm03.md", true, "<p>p</p>\n"),
        page(9, "Test", "pages/projects/Test.md", true, ">n\n<p>t</p>\n"),
    ];
    let a = build_site(one).unwrap();
    let b = build_site(two).unwrap();
    assert_eq!(a.len(), b.len());
    for (x, y) in a.iter().zip(b.iter()) {
        assert_eq!(x.path, y.path);
        assert_eq!(x.content, y.content);
    }
}

#[test]
fn one_failed_conversion_aborts_the_whole_build() {
    let pages = vec![
        page(0, "Home", "pages/Home.md", true, "<p>h</p>\n"),
        page(9, "Test", "pages/projects/Test.md", false, ""),
    ];
    let err = build_site(pages).unwrap_err();
    match &err {
        BuildError::ConversionExit { name } => assert_eq!(name, "Test"),
        other => panic!("wrong error: {:?}", other),
    }
    assert!(err.message().contains("Test"));
}

#[test]
fn bad_encoding_aborts_the_whole_build() {
    let pages = vec![PageInput {
        loc_idx: 2,
        name: "Meta".to_string(),
        md_file_path: "pages/Meta.md".to_string(),
        exit_ok: true,
        stdout: vec![0xff, 0xfe],
    }];
    let err = build_site(pages).unwrap_err();
    assert!(matches!(err, BuildError::ConversionEncoding { .. }));
    assert!(err.message().contains("Meta"));
}

#[test]
fn empty_discovery_still_yields_the_fallback() {
    let arts = build_site(Vec::new()).unwrap();
    assert_eq!(arts.len(), 1);
    assert_eq!(arts[0].path, "404.html");
    assert!(arts[0].content.contains("NOT FOUND"));
}

#[test]
fn publication_minifies_every_document() {
    let pages = vec![page(0, "Home", "pages/Home.md", true, "<p>Some   text</p>\n")];
    let arts = build_site(pages).unwrap();
    let minified = minify_artifacts(arts);
    assert_eq!(minified.len(), 2);
    assert_eq!(minified[0].path, "404.html");
    assert_eq!(minified[1].path, "index.html");
    let full = build_site(vec![page(0, "Home", "pages/Home.md", true, "<p>Some   text</p>\n")])
        .unwrap();
    assert_ne!(minified[1].content, full[1].content);
    assert!(minified[1].content.len() < full[1].content.len());
    assert!(minified[1].content.contains("Some text"));
}

#[test]
fn two_minification_runs_agree() {
    let pages = vec![page(5, "Pgwm04", "pages/Pgwm04.md", true, "<p>x</p>\n")];
    let a = minify_artifacts(build_site(pages).unwrap());
    let pages = vec![page(5, "Pgwm04", "pages/Pgwm04.md", true, "<p>x</p>\n")];
    let b = minify_artifacts(build_site(pages).unwrap());
    for (x, y) in a.iter().zip(b.iter()) {
        assert_eq!(x.path, y.path);
        assert_eq!(x.content, y.content);
    }
}
