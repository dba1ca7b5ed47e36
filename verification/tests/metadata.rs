use cargo_cdylib::{
    decode_metadata, metadata, metadata_from_members, BuildError, Metadata, ProcessResult,
};

fn expect(target_directory: &str, workspace_root: &str) -> Result<Metadata, BuildError> {
    Ok(Metadata {
        target_directory: target_directory.to_string(),
        workspace_root: workspace_root.to_string(),
    })
}

#[test]
fn metadata_decodes_the_two_fields() {
    let doc = br#"{"target_directory":"/x/target","workspace_root":"/x"}"#;
    assert_eq!(decode_metadata(doc), expect("/x/target", "/x"));
}

#[test]
fn metadata_ignores_unknown_fields() {
    let doc = br#"{"packages":[],"target_directory":"/x/target","version":1,"workspace_root":"/x","resolve":null}"#;
    assert_eq!(decode_metadata(doc), expect("/x/target", "/x"));
}

#[test]
fn metadata_fields_are_told_apart_by_name() {
    let doc = br#"{"workspace_root":"/w","target_directory":"/t"}"#;
    assert_eq!(decode_metadata(doc), expect("/t", "/w"));
}

#[test]
fn metadata_accepts_whitespace_around_the_document() {
    let doc = b"  {\n \"target_directory\" : \"t\",\n \"workspace_root\" : \"w\"\n}\n";
    assert_eq!(decode_metadata(doc), expect("t", "w"));
}

#[test]
fn metadata_unescapes_strings() {
    let doc = br#"{"target_directory":"C:\\x\\target","workspace_root":"C:\\x"}"#;
    assert_eq!(decode_metadata(doc), expect("C:\\x\\target", "C:\\x"));
}

#[test]
fn metadata_without_workspace_root_fails() {
    let doc = br#"{"target_directory":"/x/target"}"#;
    assert_eq!(decode_metadata(doc), Err(BuildError::Metadata));
}

#[test]
fn metadata_without_target_directory_fails() {
    let doc = br#"{"workspace_root":"/x"}"#;
    assert_eq!(decode_metadata(doc), Err(BuildError::Metadata));
}

#[test]
fn metadata_with_a_field_that_is_no_string_fails() {
    let doc = br#"{"target_directory":1,"workspace_root":"/x"}"#;
    assert_eq!(decode_metadata(doc), Err(BuildError::Metadata));
    let doc = br#"{"target_directory":"/x/target","workspace_root":null}"#;
    assert_eq!(decode_metadata(doc), Err(BuildError::Metadata));
}

#[test]
fn metadata_that_is_no_json_fails() {
    assert_eq!(decode_metadata(b"error: no manifest"), Err(BuildError::Metadata));
    assert_eq!(decode_metadata(b""), Err(BuildError::Metadata));
}

#[test]
fn metadata_that_is_no_object_fails() {
    assert_eq!(decode_metadata(br#"["/x/target","/x"]"#), Err(BuildError::Metadata));
    assert_eq!(decode_metadata(b"null"), Err(BuildError::Metadata));
    assert_eq!(decode_metadata(br#""/x""#), Err(BuildError::Metadata));
}

#[test]
fn metadata_with_text_behind_the_document_fails() {
    let doc = br#"{"target_directory":"/x/target","workspace_root":"/x"} {}"#;
    assert_eq!(decode_metadata(doc), Err(BuildError::Metadata));
}

#[test]
fn metadata_that_is_cut_short_fails() {
    let doc = br#"{"target_directory":"/x/target","workspace_root":"/x""#;
    assert_eq!(decode_metadata(doc), Err(BuildError::Metadata));
}

#[test]
fn metadata_of_a_query_that_did_not_start() {
    assert_eq!(metadata(None), Err(BuildError::Cargo));
}

#[test]
fn metadata_of_a_query_that_ran() {
    let stdout = br#"{"target_directory":"/x/target","workspace_root":"/x"}"#.to_vec();
    let result = ProcessResult { success: true, stdout };
    assert_eq!(metadata(Some(result)), expect("/x/target", "/x"));
}

#[test]
fn metadata_takes_no_notice_of_the_exit_status() {
    let stdout = br#"{"target_directory":"/x/target","workspace_root":"/x"}"#.to_vec();
    let result = ProcessResult { success: false, stdout };
    assert_eq!(metadata(Some(result)), expect("/x/target", "/x"));
}

#[test]
fn metadata_of_a_query_that_wrote_nothing() {
    let result = ProcessResult { success: false, stdout: Vec::new() };
    assert_eq!(metadata(Some(result)), Err(BuildError::Metadata));
}

#[test]
fn metadata_from_members_needs_both() {
    let t = || Some("/t".to_string());
    let w = || Some("/w".to_string());
    assert_eq!(metadata_from_members(t(), w()), expect("/t", "/w"));
    assert_eq!(metadata_from_members(None, w()), Err(BuildError::Metadata));
    assert_eq!(metadata_from_members(t(), None), Err(BuildError::Metadata));
    assert_eq!(metadata_from_members(None, None), Err(BuildError::Metadata));
}
