use fluent_plots::Dataset;
use fluent_plots::DatasetError;

fn text_cells(items: &[Option<&str>]) -> Vec<Option<String>> {
    items.iter().map(|o| o.map(|s| s.to_string())).collect()
}

#[test]
fn empty_dataset_has_no_rows() {
    let ds = Dataset::new();
    assert_eq!(ds.row_count(), 0);
}

#[test]
fn row_count_follows_first_column() {
    let ds = Dataset::new()
        .with_text_column("a".to_string(), text_cells(&[Some("x"), Some("y"), None]))
        .unwrap();
    assert_eq!(ds.row_count(), 3);
}

#[test]
fn duplicate_column_rejected() {
    let r = Dataset::new()
        .with_text_column("a".to_string(), text_cells(&[Some("x")]))
        .unwrap()
        .with_number_column("a".to_string(), text_cells(&[Some("1")]));
    assert!(matches!(r, Err(DatasetError::DuplicateColumn)));
}

#[test]
fn shape_mismatch_rejected() {
    let r = Dataset::new()
        .with_text_column("a".to_string(), text_cells(&[Some("x"), Some("y")]))
        .unwrap()
        .with_number_column("b".to_string(), text_cells(&[Some("1")]));
    assert!(matches!(r, Err(DatasetError::ShapeMismatch)));
}

#[test]
fn zero_row_columns_accepted() {
    let ds = Dataset::new()
        .with_text_column("a".to_string(), Vec::new())
        .unwrap()
        .with_number_column("b".to_string(), Vec::new())
        .unwrap();
    assert_eq!(ds.row_count(), 0);
}
