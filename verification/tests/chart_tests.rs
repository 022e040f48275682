use fluent_plots::barchart;
use fluent_plots::linechart;
use fluent_plots::scatterplot;
use fluent_plots::Chart;
use fluent_plots::ChartError;
use fluent_plots::ChartType;
use fluent_plots::Dataset;

fn cells_of(items: &[Option<&str>]) -> Vec<Option<String>> {
    items.iter().map(|o| o.map(|s| s.to_string())).collect()
}

fn sales_dataset() -> Dataset {
    Dataset::new()
        .with_text_column(
            "product".to_string(),
            cells_of(&[Some("A"), Some("B"), Some("C")]),
        )
        .unwrap()
        .with_number_column(
            "sales".to_string(),
            cells_of(&[Some("10"), None, Some("30")]),
        )
        .unwrap()
}

fn sales_chart() -> Chart {
    barchart(sales_dataset()).x("product").y("sales")
}

#[test]
fn bar_scenario_extracts_labels_and_values() {
    let d = sales_chart().describe_interactive().unwrap();
    assert_eq!(d.labels, vec!["A".to_string(), "B".to_string(), "C".to_string()]);
    assert_eq!(d.values, vec!["10".to_string(), "0".to_string(), "30".to_string()]);
    assert!(matches!(d.kind, ChartType::Bar));
    assert_eq!(d.title, "fluent-plots chart".to_string());
}

#[test]
fn row_correspondence_lengths() {
    let d = sales_chart().describe_interactive().unwrap();
    assert_eq!(d.labels.len(), 3);
    assert_eq!(d.values.len(), 3);
}

#[test]
fn missing_label_yields_empty_text() {
    let ds = Dataset::new()
        .with_text_column("k".to_string(), cells_of(&[Some("a"), None, Some("c")]))
        .unwrap()
        .with_number_column("v".to_string(), cells_of(&[Some("1"), Some("2"), Some("3")]))
        .unwrap();
    let d = linechart(ds).x("k").y("v").describe_interactive().unwrap();
    assert_eq!(d.labels, vec!["a".to_string(), "".to_string(), "c".to_string()]);
}

#[test]
fn missing_value_yields_zero() {
    let ds = Dataset::new()
        .with_text_column("k".to_string(), cells_of(&[Some("a"), Some("b")]))
        .unwrap()
        .with_number_column("v".to_string(), cells_of(&[None, Some("2.5")]))
        .unwrap();
    let d = linechart(ds).x("k").y("v").describe_interactive().unwrap();
    assert_eq!(d.values, vec!["0".to_string(), "2.5".to_string()]);
}

#[test]
fn kind_tag_follows_factory() {
    let b = barchart(sales_dataset()).x("product").y("sales");
    let l = linechart(sales_dataset()).x("product").y("sales");
    let s = scatterplot(sales_dataset()).x("product").y("sales");
    assert!(matches!(b.describe_interactive().unwrap().kind, ChartType::Bar));
    assert!(matches!(l.describe_interactive().unwrap().kind, ChartType::Line));
    assert!(matches!(s.describe_interactive().unwrap().kind, ChartType::Scatter));
    let bj = b.describe_interactive().unwrap().to_json().unwrap();
    let lj = l.describe_interactive().unwrap().to_json().unwrap();
    let sj = s.describe_interactive().unwrap().to_json().unwrap();
    assert!(bj.contains("\"type\":\"bar\""));
    assert!(lj.contains("\"type\":\"line\""));
    assert!(sj.contains("\"type\":\"scatter\""));
}

#[test]
fn missing_x_column_reported() {
    let r = barchart(sales_dataset()).x("nope").y("sales").describe_interactive();
    match r {
        Err(ChartError::ColumnNotFound(n)) => assert_eq!(n, "nope".to_string()),
        other => panic!("expected ColumnNotFound, got {:?}", other),
    }
}

#[test]
fn missing_y_column_reported() {
    let r = barchart(sales_dataset())
        .x("product")
        .y("nonexistent_col")
        .describe_interactive();
    match r {
        Err(ChartError::ColumnNotFound(n)) => assert_eq!(n, "nonexistent_col".to_string()),
        other => panic!("expected ColumnNotFound, got {:?}", other),
    }
}

#[test]
fn empty_selectors_report_missing_column() {
    let r = barchart(sales_dataset()).describe_interactive();
    match r {
        Err(ChartError::ColumnNotFound(n)) => assert_eq!(n, "".to_string()),
        other => panic!("expected ColumnNotFound, got {:?}", other),
    }
}

#[test]
fn numeric_x_column_is_type_error() {
    let r = barchart(sales_dataset()).x("sales").y("sales").describe_interactive();
    match r {
        Err(ChartError::TypeCoercion(n)) => assert_eq!(n, "sales".to_string()),
        other => panic!("expected TypeCoercion, got {:?}", other),
    }
}

#[test]
fn text_y_column_coerces_per_cell() {
    let ds = Dataset::new()
        .with_text_column(
            "k".to_string(),
            cells_of(&[Some("a"), Some("b"), Some("c")]),
        )
        .unwrap()
        .with_text_column(
            "v".to_string(),
            cells_of(&[Some("10"), Some("abc"), None]),
        )
        .unwrap();
    let d = barchart(ds).x("k").y("v").describe_interactive().unwrap();
    assert_eq!(d.values, vec!["10".to_string(), "0".to_string(), "0".to_string()]);
}

#[test]
fn describe_twice_identical() {
    let c = sales_chart();
    let d1 = c.describe_interactive().unwrap();
    let d2 = c.describe_interactive().unwrap();
    assert_eq!(d1, d2);
}
