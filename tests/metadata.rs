use firebase_wasm::storage::{CustomMetadata, UploadMetadataOptions};

fn pairs(m: &CustomMetadata) -> Vec<(String, String)> {
    m.entries().clone()
}

#[test]
fn custom_metadata_is_added() {
    let o = UploadMetadataOptions::new()
        .add_custom_metadata("owner".to_string(), "ada".to_string())
        .add_custom_metadata("team".to_string(), "core".to_string());
    assert_eq!(
        pairs(&o.custom_metadata),
        vec![
            ("owner".to_string(), "ada".to_string()),
            ("team".to_string(), "core".to_string())
        ]
    );
    assert!(o.cache_control.is_none());
}

#[test]
fn custom_metadata_key_is_replaced() {
    let mut o = UploadMetadataOptions::new();
    o.content_type = Some("image/png".to_string());
    let o = o
        .add_custom_metadata("owner".to_string(), "ada".to_string())
        .add_custom_metadata("team".to_string(), "core".to_string())
        .add_custom_metadata("owner".to_string(), "grace".to_string());
    assert_eq!(
        pairs(&o.custom_metadata),
        vec![
            ("owner".to_string(), "grace".to_string()),
            ("team".to_string(), "core".to_string())
        ]
    );
    assert_eq!(o.content_type.as_deref(), Some("image/png"));
    assert!(CustomMetadata::new().entries().is_empty());
}
