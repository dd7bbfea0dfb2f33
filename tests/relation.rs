use rorm::model::ModelColumn;
use rorm::relation::parse_relation;
use rorm::value::{ToValue, Value};

#[test]
fn optional_relation() {
    let r = parse_relation(&"Option< Profile >".to_string(), "id".to_string(), "user_id".to_string());
    assert_eq!(r.ty, "Profile");
    assert!(!r.is_vec);
    assert!(!r.is_not_null);
    assert_eq!(r.self_col, "id");
    assert_eq!(r.ref_col, "user_id");
}

#[test]
fn vec_relation() {
    let r = parse_relation(&"Vec<Post>".to_string(), "id".to_string(), "author".to_string());
    assert_eq!(r.ty, "Post");
    assert!(r.is_vec);
    assert!(r.is_not_null);
}

#[test]
fn plain_relation() {
    let r = parse_relation(&"crate :: User".to_string(), "uid".to_string(), "id".to_string());
    assert_eq!(r.ty, "crate::User");
    assert!(!r.is_vec);
    assert!(r.is_not_null);
}

#[test]
fn model_column_starts_unset() {
    let c: ModelColumn<u32> = ModelColumn::default();
    assert!(!c.is_set());
    assert_eq!(c.into_option(), None);
    let c = ModelColumn::Assigned(3u32);
    assert!(c.is_set());
    assert_eq!(c.into_option(), Some(3));
}

#[test]
fn model_column_values() {
    assert_eq!(ModelColumn::<u8>::NotSet.to_value(), Value::Null);
    assert_eq!(ModelColumn::Assigned(5i64).to_value(), Value::I64(5));
}
