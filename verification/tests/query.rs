use mqtt_core::query::{default_page_size, MeasurementQuery, Pagination};

fn query_with(columns: Vec<Vec<u8>>) -> MeasurementQuery {
    MeasurementQuery {
        pagination: Pagination { after: None, page_size: default_page_size() },
        columns,
    }
}

#[test]
fn default_page_size_is_ten() {
    assert_eq!(default_page_size(), 10);
}

#[test]
fn all_allowed_columns_are_sane() {
    let q = query_with(vec![
        b"sensor_id".to_vec(),
        b"topic".to_vec(),
        b"timestamp".to_vec(),
        b"temperature".to_vec(),
        b"humidity".to_vec(),
        b"pressure".to_vec(),
    ]);
    assert!(q.are_columns_sane());
}

#[test]
fn empty_column_list_is_sane() {
    assert!(query_with(vec![]).are_columns_sane());
}

#[test]
fn unknown_column_is_rejected() {
    let q = query_with(vec![b"temperature".to_vec(), b"password".to_vec()]);
    assert!(!q.are_columns_sane());
    let q = query_with(vec![b"temperature; drop table sensor_readings".to_vec()]);
    assert!(!q.are_columns_sane());
}
