use sitegen::assets::{find_extension, plan_asset, process_asset, AssetOutput, AssetPlan};
use sitegen::errors::BuildError;

#[test]
fn extensions_follow_the_last_separator() {
    assert_eq!(find_extension("styles.css"), Some("css".to_string()));
    assert_eq!(find_extension("app.min.js"), Some("js".to_string()));
    assert_eq!(find_extension("archive."), Some("".to_string()));
    assert_eq!(find_extension("README"), None);
    assert_eq!(find_extension(".hidden"), None);
    assert_eq!(find_extension(""), None);
}

#[test]
fn plan_follows_the_allow_list() {
    assert!(matches!(plan_asset("styles.css", true), Ok(AssetPlan::MinifyCss)));
    assert!(matches!(plan_asset("app.js", true), Ok(AssetPlan::MinifyJs)));
    assert!(matches!(plan_asset("logo.jpg", true), Ok(AssetPlan::CopyBinary)));
}

#[test]
fn disallowed_extension_names_the_file() {
    let err = plan_asset("logo.png", true).unwrap_err();
    match &err {
        BuildError::AssetDisallowed { path } => assert_eq!(path, "logo.png"),
        other => panic!("wrong error: {:?}", other),
    }
    let msg = err.message();
    assert!(msg.contains("logo.png"));
    assert!(msg.contains("Only .js, .css, and jpg files"));
}

#[test]
fn non_file_entry_is_fatal() {
    let err = plan_asset("nested", false).unwrap_err();
    match &err {
        BuildError::AssetNotFile { path } => assert_eq!(path, "nested"),
        other => panic!("wrong error: {:?}", other),
    }
    assert!(err.message().contains("nested"));
}

#[test]
fn missing_extension_is_fatal() {
    let err = plan_asset("README", true).unwrap_err();
    assert!(matches!(err, BuildError::AssetDisallowed { .. }) == false);
    match &err {
        BuildError::AssetNoExtension { path } => assert_eq!(path, "README"),
        other => panic!("wrong error: {:?}", other),
    }
}

#[test]
fn stylesheet_is_minified() {
    let css = "\n    .foo > p {\n        color: red;\n    }";
    let out = process_asset("styles.css", true, css.as_bytes().to_vec()).unwrap();
    match out {
        AssetOutput::Text(t) => assert_eq!(t, ".foo>p{color:red;}"),
        other => panic!("wrong output: {:?}", other),
    }
}

#[test]
fn script_is_minified() {
    let js = "\n    function forEach(data, func) {\n       for (var i = 0; i < data.length; ++i) {\n           func(data[i]);\n       }\n    }";
    let out = process_asset("app.js", true, js.as_bytes().to_vec()).unwrap();
    match out {
        AssetOutput::Text(t) => assert_eq!(
            t,
            "function forEach(data,func){for(var i=0;i<data.length;++i){func(data[i]);}}"
        ),
        other => panic!("wrong output: {:?}", other),
    }
}

#[test]
fn binary_asset_is_copied_byte_for_byte() {
    let bytes = vec![0xff, 0xd8, 0xff, 0xe0, 0x00, 0x10, 0x4a, 0x46];
    let out = process_asset("logo.jpg", true, bytes.clone()).unwrap();
    match out {
        AssetOutput::Binary(b) => assert_eq!(b, bytes),
        other => panic!("wrong output: {:?}", other),
    }
}

#[test]
fn text_asset_with_bad_encoding_is_fatal() {
    let err = process_asset("styles.css", true, vec![0xff, 0xfe]).unwrap_err();
    match &err {
        BuildError::AssetEncoding { path } => assert_eq!(path, "styles.css"),
        other => panic!("wrong error: {:?}", other),
    }
}
