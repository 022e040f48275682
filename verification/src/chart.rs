//! The chart adapter: a dataset, a chart kind and two column selectors,
//! validated on request and turned into a kind-tagged series description.

use vstd::prelude::*;
use vstd::string::StringExecFns;

use crate::dataset::ColumnKind;
use crate::dataset::ColumnModel;
use crate::dataset::Dataset;
use crate::dataset::lemma_find_from;
use crate::dataset::rows_consistent;
use crate::dataset::spec_find;
use crate::dataset::spec_rows;
use crate::dataset::spec_x_label;
use crate::dataset::spec_x_labels;
use crate::dataset::spec_y_value;
use crate::dataset::spec_y_values;

verus! {

/// The kind of chart a series is rendered as.
#[derive(Clone, Copy, PartialEq, Eq, Structural, Debug)]
pub enum ChartType {
    Bar,
    Line,
    Scatter,
}

/// Failure of building a chart description or a rendered artifact.
#[derive(Clone, PartialEq, Eq, Debug)]
pub enum ChartError {
    /// The named column is absent from the dataset.
    ColumnNotFound(String),
    /// The named column's type cannot serve the axis it was chosen for.
    TypeCoercion(String),
    /// The carried text cannot be embedded in the serialized form.
    Serialization(String),
    /// The rendering backend could not produce its output artifact.
    Render(String),
}

/// The mathematical model of a chart failure.
pub enum ErrorModel {
    ColumnNotFound(Seq<char>),
    TypeCoercion(Seq<char>),
    Serialization(Seq<char>),
    Render(Seq<char>),
}

impl View for ChartError {
    type V = ErrorModel;

    open spec fn view(&self) -> ErrorModel {
        match self {
            ChartError::ColumnNotFound(n) => ErrorModel::ColumnNotFound(n@),
            ChartError::TypeCoercion(n) => ErrorModel::TypeCoercion(n@),
            ChartError::Serialization(t) => ErrorModel::Serialization(t@),
            ChartError::Render(t) => ErrorModel::Render(t@),
        }
    }
}

/// A renderer-agnostic chart description: a title, the ordered axis labels,
/// and one series of value texts tagged with the chart kind. Row `i` of the
/// dataset yields `labels[i]` and `values[i]`.
#[derive(Clone, PartialEq, Eq, Debug)]
pub struct SeriesDescription {
    pub title: String,
    pub labels: Vec<String>,
    pub kind: ChartType,
    pub values: Vec<String>,
}

/// The mathematical model of a series description.
#[verifier::ext_equal]
pub struct DescriptionModel {
    pub title: Seq<char>,
    pub labels: Seq<Seq<char>>,
    pub kind: ChartType,
    pub values: Seq<Seq<char>>,
}

impl View for SeriesDescription {
    type V = DescriptionModel;

    open spec fn view(&self) -> DescriptionModel {
        DescriptionModel {
            title: self.title@,
            labels: self.labels.deep_view(),
            kind: self.kind,
            values: self.values.deep_view(),
        }
    }
}

/// The title every description carries.
pub open spec fn spec_title() -> Seq<char> {
    "fluent-plots chart"@
}

/// The mathematical model of a chart: its kind, the dataset's columns, and
/// the two selected column names.
#[verifier::ext_equal]
pub struct ChartModel {
    pub kind: ChartType,
    pub cols: Seq<ColumnModel>,
    pub x: Seq<char>,
    pub y: Seq<char>,
}

/// What describing a chart yields: the description of the selected columns,
/// or the first failure found. The x selector is checked before the y
/// selector; a present x column must be a text column, while a value column
/// of either kind is accepted for y (text cells that are not numeric
/// literals coerce to zero).
pub open spec fn spec_describe(m: ChartModel) -> Result<DescriptionModel, ErrorModel> {
    let xi = spec_find(m.cols, m.x);
    if xi == -1 {
        Result::Err(ErrorModel::ColumnNotFound(m.x))
    } else if m.cols[xi].kind != ColumnKind::Text {
        Result::Err(ErrorModel::TypeCoercion(m.x))
    } else {
        let yi = spec_find(m.cols, m.y);
        if yi == -1 {
            Result::Err(ErrorModel::ColumnNotFound(m.y))
        } else {
            Result::Ok(
                DescriptionModel {
                    title: spec_title(),
                    labels: spec_x_labels(m.cols[xi].cells),
                    kind: m.kind,
                    values: spec_y_values(m.cols[yi]),
                },
            )
        }
    }
}

/// A chart under construction: a dataset, a fixed kind, and the two column
/// selectors, both empty until chosen.
pub struct Chart {
    chart_type: ChartType,
    dataframe: Dataset,
    x_column: String,
    y_column: String,
}

impl View for Chart {
    type V = ChartModel;

    closed spec fn view(&self) -> ChartModel {
        ChartModel {
            kind: self.chart_type,
            cols: self.dataframe@,
            x: self.x_column@,
            y: self.y_column@,
        }
    }
}

fn make_chart(chart_type: ChartType, dataframe: Dataset) -> (c: Chart)
    ensures
        c@ == (ChartModel {
            kind: chart_type,
            cols: dataframe@,
            x: Seq::<char>::empty(),
            y: Seq::<char>::empty(),
        }),
{
    Chart { chart_type, dataframe, x_column: String::new(), y_column: String::new() }
}

/// A bar chart over the dataset, with no columns selected yet.
pub fn barchart(dataframe: Dataset) -> (c: Chart)
    ensures
        c@ == (ChartModel {
            kind: ChartType::Bar,
            cols: dataframe@,
            x: Seq::<char>::empty(),
            y: Seq::<char>::empty(),
        }),
{
    make_chart(ChartType::Bar, dataframe)
}

/// A line chart over the dataset, with no columns selected yet.
pub fn linechart(dataframe: Dataset) -> (c: Chart)
    ensures
        c@ == (ChartModel {
            kind: ChartType::Line,
            cols: dataframe@,
            x: Seq::<char>::empty(),
            y: Seq::<char>::empty(),
        }),
{
    make_chart(ChartType::Line, dataframe)
}

/// A scatter plot over the dataset, with no columns selected yet.
pub fn scatterplot(dataframe: Dataset) -> (c: Chart)
    ensures
        c@ == (ChartModel {
            kind: ChartType::Scatter,
            cols: dataframe@,
            x: Seq::<char>::empty(),
            y: Seq::<char>::empty(),
        }),
{
    make_chart(ChartType::Scatter, dataframe)
}

impl Chart {
    /// Selects the label column; everything else is kept.
    pub fn x(self, column_name: &str) -> (r: Self)
        ensures
            r@ == (ChartModel { x: column_name@, ..self@ }),
    {
        let Chart { chart_type, dataframe, x_column: _, y_column } = self;
        Chart { chart_type, dataframe, x_column: column_name.to_owned(), y_column }
    }

    /// Selects the value column; everything else is kept.
    pub fn y(self, column_name: &str) -> (r: Self)
        ensures
            r@ == (ChartModel { y: column_name@, ..self@ }),
    {
        let Chart { chart_type, dataframe, x_column, y_column: _ } = self;
        Chart { chart_type, dataframe, x_column, y_column: column_name.to_owned() }
    }

    /// The selected label column name.
    pub fn x_column(&self) -> (r: &String)
        ensures
            r@ == self@.x,
    {
        &self.x_column
    }

    /// The selected value column name.
    pub fn y_column(&self) -> (r: &String)
        ensures
            r@ == self@.y,
    {
        &self.y_column
    }

    /// Validates the two selected columns and extracts the kind-tagged
    /// series description, row for row: label row `i` and value row `i`
    /// derive from dataset row `i`, and both sequences have the dataset's
    /// row count.
    pub fn describe_interactive(&self) -> (r: Result<SeriesDescription, ChartError>)
        ensures
            match r {
                Result::Ok(d) => spec_describe(self@) == Result::<DescriptionModel, ErrorModel>::Ok(
                    d@,
                ),
                Result::Err(e) => spec_describe(self@) == Result::<
                    DescriptionModel,
                    ErrorModel,
                >::Err(e@),
            },
            r matches Result::Ok(d) ==> d@.labels.len() == spec_rows(self@.cols) && d@.values.len()
                == spec_rows(self@.cols),
    {
        proof {
            use_type_invariant(&self.dataframe);
            lemma_find_from(self@.cols, self@.x, 0);
            lemma_find_from(self@.cols, self@.y, 0);
        }
        let xi: usize = match self.dataframe.find_column(&self.x_column) {
            Option::Some(i) => i,
            Option::None => {
                return Result::Err(ChartError::ColumnNotFound(self.x_column.clone()));
            },
        };
        if !self.dataframe.column_is_text(xi) {
            return Result::Err(ChartError::TypeCoercion(self.x_column.clone()));
        }
        let yi: usize = match self.dataframe.find_column(&self.y_column) {
            Option::Some(i) => i,
            Option::None => {
                return Result::Err(ChartError::ColumnNotFound(self.y_column.clone()));
            },
        };
        let labels: Vec<String> = self.dataframe.extract_labels(xi);
        let values: Vec<String> = self.dataframe.extract_values(yi);
        let title: String = String::from_str("fluent-plots chart");
        let d = SeriesDescription { title, labels, kind: self.chart_type, values };
        proof {
            assert(d@ =~= spec_describe(self@)->Ok_0);
        }
        Result::Ok(d)
    }
}

/// Kind tagging: whenever describing succeeds, the description carries the
/// chart's own kind, whatever the dataset holds. The factories fix that kind
/// and the column selectors keep it.
pub proof fn lemma_kind_tagging(m: ChartModel)
    ensures
        spec_describe(m) matches Result::Ok(d) ==> d.kind == m.kind,
{
}

/// Row correspondence: whenever describing a well-shaped dataset succeeds,
/// labels and values both have the dataset's row count, and position `i` of
/// each derives from the cells of row `i`.
pub proof fn lemma_row_correspondence(m: ChartModel)
    requires
        rows_consistent(m.cols),
    ensures
        spec_describe(m) matches Result::Ok(d) ==> {
            let xi = spec_find(m.cols, m.x);
            let yi = spec_find(m.cols, m.y);
            &&& d.labels.len() == spec_rows(m.cols)
            &&& d.values.len() == spec_rows(m.cols)
            &&& forall|i: int|
                0 <= i < spec_rows(m.cols) ==> #[trigger] d.labels[i] == spec_x_label(
                    m.cols[xi].cells[i],
                ) && d.values[i] == spec_y_value(m.cols[yi].kind, m.cols[yi].cells[i])
        },
{
    lemma_find_from(m.cols, m.x, 0);
    lemma_find_from(m.cols, m.y, 0);
}

/// Missing-value substitution: a missing label cell yields the empty text,
/// and a missing value cell yields zero, whatever the column's kind.
pub proof fn lemma_missing_value_substitution(kind: ColumnKind)
    ensures
        spec_x_label(Option::None) == Seq::<char>::empty(),
        spec_y_value(kind, Option::None) == crate::dataset::zero_text(),
{
}

/// Column-not-found: an absent x selector fails with that name before
/// anything else is looked at, and an absent y selector fails with that name
/// once the x column is present and text-typed.
pub proof fn lemma_column_not_found(m: ChartModel)
    ensures
        spec_find(m.cols, m.x) == -1 ==> spec_describe(m) == Result::<
            DescriptionModel,
            ErrorModel,
        >::Err(ErrorModel::ColumnNotFound(m.x)),
        spec_find(m.cols, m.x) != -1 && m.cols[spec_find(m.cols, m.x)].kind == ColumnKind::Text
            && spec_find(m.cols, m.y) == -1 ==> spec_describe(m) == Result::<
            DescriptionModel,
            ErrorModel,
        >::Err(ErrorModel::ColumnNotFound(m.y)),
{
}

/// Idempotence: the description is a function of the chart's state alone,
/// so describing the same unchanged chart twice yields the same outcome.
pub proof fn lemma_describe_idempotent(m1: ChartModel, m2: ChartModel)
    requires
        m1 == m2,
    ensures
        spec_describe(m1) == spec_describe(m2),
{
}

} // verus!
