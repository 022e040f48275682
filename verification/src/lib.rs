//! A fluent chart-building library: a tabular dataset of named columns is
//! paired with a chart kind and two column selectors, validated, and turned
//! into a renderer-agnostic series description or a self-contained
//! interactive HTML page.

pub mod chart;
pub mod dataset;
pub mod render;
pub mod text;

pub use chart::Chart;
pub use chart::ChartError;
pub use chart::ChartType;
pub use chart::SeriesDescription;
pub use chart::barchart;
pub use chart::linechart;
pub use chart::scatterplot;
pub use dataset::ColumnKind;
pub use dataset::Dataset;
pub use dataset::DatasetError;
pub use text::is_numeric_literal;
