use sitegen::assets::process_asset;
use sitegen::errors::BuildError;

#[test]
fn rejected_stylesheet_is_a_minify_error() {
    let err = process_asset("styles.css", true, b".a{color:red}/* unclosed".to_vec())
        .unwrap_err();
    match &err {
        BuildError::AssetMinify { path, .. } => assert_eq!(path, "styles.css"),
        other => panic!("wrong error: {:?}", other),
    }
    let msg = err.message();
    assert!(msg.starts_with("Failed to minify styles.css"));
}

#[test]
fn discovery_error_message_names_the_detail() {
    let err = BuildError::Discovery { detail: "pages/broken entry".to_string() };
    assert_eq!(
        err.message(),
        "Failed to read the source tree pages/broken entry"
    );
}

#[test]
fn publish_error_message_names_the_path() {
    let err = BuildError::Publish {
        path: "dist/index.html".to_string(),
        detail: "disk full".to_string(),
    };
    assert_eq!(err.message(), "Failed to write dist/index.html disk full");
}

#[test]
fn wait_error_message_names_the_page() {
    let err = BuildError::ConversionWait {
        name: "Boot".to_string(),
        detail: "interrupted".to_string(),
    };
    assert_eq!(
        err.message(),
        "Failed to wait for child process for Boot interrupted"
    );
}

#[test]
fn classification_error_message_matches_the_build_log() {
    let err = BuildError::Classification { stem: "unknown".to_string() };
    assert_eq!(err.message(), "Found md file with an unmapped name unknown");
}
