use fluent_plots::barchart;
use fluent_plots::scatterplot;
use fluent_plots::Chart;
use fluent_plots::ChartError;
use fluent_plots::Dataset;

fn render_cells(items: &[Option<&str>]) -> Vec<Option<String>> {
    items.iter().map(|o| o.map(|s| s.to_string())).collect()
}

fn render_sales_chart() -> Chart {
    let ds = Dataset::new()
        .with_text_column(
            "product".to_string(),
            render_cells(&[Some("A"), Some("B"), Some("C")]),
        )
        .unwrap()
        .with_number_column(
            "sales".to_string(),
            render_cells(&[Some("10"), None, Some("30")]),
        )
        .unwrap();
    barchart(ds).x("product").y("sales")
}

const EXPECTED_JSON: &str = "{\"title\":{\"text\":\"fluent-plots chart\"},\
\"xAxis\":{\"type\":\"category\",\"data\":[\"A\",\"B\",\"C\"]},\
\"yAxis\":{\"type\":\"value\"},\
\"series\":[{\"type\":\"bar\",\"data\":[10,0,30]}]}";

#[test]
fn json_exact_for_bar_scenario() {
    let d = render_sales_chart().describe_interactive().unwrap();
    let json = d.to_json().unwrap();
    assert_eq!(json, EXPECTED_JSON.to_string());
}

#[test]
fn html_wraps_json_in_template() {
    let html = render_sales_chart().to_interactive_html().unwrap();
    let prefix = "<!DOCTYPE html>\n<html>\n<head>\n<meta charset=\"utf-8\" />\n\
<title>Fluent-Plots Chart</title>\n\
<script src=\"https://cdn.jsdelivr.net/npm/echarts@5.5.0/dist/echarts.min.js\"></script>\n\
</head>\n<body>\n<div id=\"main\" style=\"width: 800px;height:600px;\"></div>\n\
<script type=\"text/javascript\">\nvar myChart = echarts.init(document.getElementById('main'));\n\
var option = ";
    let suffix = ";\nmyChart.setOption(option);\n</script>\n</body>\n</html>\n";
    let expected = format!("{}{}{}", prefix, EXPECTED_JSON, suffix);
    assert_eq!(html, expected);
}

#[test]
fn html_twice_identical() {
    let c = render_sales_chart();
    let h1 = c.to_interactive_html().unwrap();
    let h2 = c.to_interactive_html().unwrap();
    assert_eq!(h1, h2);
}

#[test]
fn labels_are_json_escaped() {
    let ds = Dataset::new()
        .with_text_column(
            "k".to_string(),
            render_cells(&[Some("a\"b\\c\nd"), Some("e\tf")]),
        )
        .unwrap()
        .with_number_column("v".to_string(), render_cells(&[Some("1"), Some("2")]))
        .unwrap();
    let d = scatterplot(ds).x("k").y("v").describe_interactive().unwrap();
    let json = d.to_json().unwrap();
    assert!(json.contains("\"data\":[\"a\\\"b\\\\c\\nd\",\"e\\tf\"]"));
    assert!(json.contains("\"type\":\"scatter\""));
}

#[test]
fn non_numeric_stored_value_fails_serialization() {
    let ds = Dataset::new()
        .with_text_column("k".to_string(), render_cells(&[Some("a")]))
        .unwrap()
        .with_number_column("v".to_string(), render_cells(&[Some("NaN")]))
        .unwrap();
    let r = barchart(ds).x("k").y("v").to_interactive_html();
    match r {
        Err(ChartError::Serialization(t)) => assert_eq!(t, "NaN".to_string()),
        other => panic!("expected Serialization, got {:?}", other),
    }
}

#[test]
fn control_character_label_fails_serialization() {
    let ds = Dataset::new()
        .with_text_column("k".to_string(), render_cells(&[Some("bad\u{1}label")]))
        .unwrap()
        .with_number_column("v".to_string(), render_cells(&[Some("1")]))
        .unwrap();
    let r = barchart(ds).x("k").y("v").to_interactive_html();
    match r {
        Err(ChartError::Serialization(t)) => assert_eq!(t, "bad\u{1}label".to_string()),
        other => panic!("expected Serialization, got {:?}", other),
    }
}

#[test]
fn zero_rows_give_empty_arrays() {
    let ds = Dataset::new()
        .with_text_column("k".to_string(), Vec::new())
        .unwrap()
        .with_number_column("v".to_string(), Vec::new())
        .unwrap();
    let d = barchart(ds).x("k").y("v").describe_interactive().unwrap();
    let json = d.to_json().unwrap();
    assert!(json.contains("\"data\":[]"));
    assert!(json.ends_with("\"data\":[]}]}"));
}
