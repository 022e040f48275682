//! Serialization of a series description: the chart-option JSON object and
//! the self-contained HTML page that feeds it to the embedded charting
//! engine. The exact field names and their order are what that engine
//! expects, so they are pinned character for character.

use vstd::prelude::*;
use vstd::string::StringExecFns;

use crate::chart::Chart;
use crate::chart::ChartError;
use crate::chart::ChartType;
use crate::chart::DescriptionModel;
use crate::chart::ErrorModel;
use crate::chart::SeriesDescription;
use crate::chart::spec_describe;
use crate::text::append_json_escaped;
use crate::text::escapable_text;
use crate::text::escaped;
use crate::text::is_number_text;
use crate::text::is_numeric_literal;

verus! {

/// The series tag the charting engine selects rendering behavior by.
pub open spec fn kind_tag(k: ChartType) -> Seq<char> {
    match k {
        ChartType::Bar => "bar"@,
        ChartType::Line => "line"@,
        ChartType::Scatter => "scatter"@,
    }
}

/// A JSON string: the escaped text between double quotes.
pub open spec fn json_string(s: Seq<char>) -> Seq<char> {
    seq!['"'] + escaped(s) + seq!['"']
}

/// The elements joined by commas, in order.
pub open spec fn comma_joined(elems: Seq<Seq<char>>) -> Seq<char>
    decreases elems.len(),
{
    if elems.len() == 0 {
        Seq::empty()
    } else if elems.len() == 1 {
        elems[0]
    } else {
        comma_joined(elems.drop_last()) + seq![','] + elems.last()
    }
}

/// The chart-option JSON object of a description: a title, a categorical
/// x axis carrying the labels, a value y axis, and one kind-tagged series
/// carrying the value texts as numbers.
pub open spec fn spec_option_json(m: DescriptionModel) -> Seq<char> {
    "{\"title\":{\"text\":\""@ + escaped(m.title) + "\"},\"xAxis\":{\"type\":\"category\",\"data\":["@
        + comma_joined(m.labels.map_values(|l: Seq<char>| json_string(l)))
        + "]},\"yAxis\":{\"type\":\"value\"},\"series\":[{\"type\":\""@ + kind_tag(m.kind)
        + "\",\"data\":["@ + comma_joined(m.values) + "]}]}"@
}

/// The description can be serialized: every label and the title carry only
/// characters a JSON string can hold, and every value is a decimal numeric
/// literal.
pub open spec fn spec_serializable(m: DescriptionModel) -> bool {
    escapable_text(m.title) && (forall|i: int|
        0 <= i < m.labels.len() ==> escapable_text(#[trigger] m.labels[i])) && (forall|i: int|
        0 <= i < m.values.len() ==> is_number_text(#[trigger] m.values[i]))
}

/// `t` is one of the texts of `m` that cannot be serialized.
pub open spec fn spec_offender(m: DescriptionModel, t: Seq<char>) -> bool {
    (t == m.title && !escapable_text(t)) || (exists|i: int|
        0 <= i < m.labels.len() && t == #[trigger] m.labels[i] && !escapable_text(t)) || (exists|
        i: int,
    | 0 <= i < m.values.len() && t == #[trigger] m.values[i] && !is_number_text(t))
}

/// Everything of the page before the chart-option object.
pub open spec fn html_prefix() -> Seq<char> {
    "<!DOCTYPE html>\n<html>\n<head>\n<meta charset=\"utf-8\" />\n<title>Fluent-Plots Chart</title>\n<script src=\"https://cdn.jsdelivr.net/npm/echarts@5.5.0/dist/echarts.min.js\"></script>\n</head>\n<body>\n<div id=\"main\" style=\"width: 800px;height:600px;\"></div>\n<script type=\"text/javascript\">\nvar myChart = echarts.init(document.getElementById('main'));\nvar option = "@
}

/// Everything of the page after the chart-option object.
pub open spec fn html_suffix() -> Seq<char> {
    ";\nmyChart.setOption(option);\n</script>\n</body>\n</html>\n"@
}

/// The complete page: the chart-option object embedded in the fixed
/// template.
pub open spec fn spec_html(m: DescriptionModel) -> Seq<char> {
    html_prefix() + spec_option_json(m) + html_suffix()
}

impl SeriesDescription {
    /// Serializes the description as the chart-option JSON object, or
    /// reports the first text that cannot be carried: a title or label with
    /// a bare control character, or a value that is not a decimal numeric
    /// literal.
    pub fn to_json(&self) -> (r: Result<String, ChartError>)
        ensures
            match r {
                Result::Ok(s) => spec_serializable(self@) && s@ == spec_option_json(self@),
                Result::Err(e) => !spec_serializable(self@) && (e@ matches ErrorModel::Serialization(
                    t,
                ) && spec_offender(self@, t)),
            },
    {
        let mut out: String = String::new();
        out.append("{\"title\":{\"text\":\"");
        if !append_json_escaped(&mut out, self.title.as_str()) {
            return Result::Err(ChartError::Serialization(self.title.clone()));
        }
        out.append("\"},\"xAxis\":{\"type\":\"category\",\"data\":[");
        let ghost label_elems = self@.labels.map_values(|l: Seq<char>| json_string(l));
        let ghost base1 = out@;
        let n: usize = self.labels.len();
        let mut i: usize = 0;
        while i < n
            invariant
                i <= n,
                n == self@.labels.len(),
                label_elems == self@.labels.map_values(|l: Seq<char>| json_string(l)),
                out@ == base1 + comma_joined(label_elems.subrange(0, i as int)),
                forall|j: int| 0 <= j < i ==> escapable_text(#[trigger] self@.labels[j]),
            decreases n - i,
        {
            let ghost prev = label_elems.subrange(0, i as int);
            if i > 0 {
                out.append(",");
                proof {
                    reveal_strlit(",");
                    assert(","@ =~= seq![',']);
                }
            }
            out.append("\"");
            if !append_json_escaped(&mut out, self.labels[i].as_str()) {
                proof {
                    assert(self@.labels[i as int] == self.labels@[i as int]@);
                    assert(!escapable_text(self@.labels[i as int]));
                    assert(spec_offender(self@, self@.labels[i as int]));
                    assert(!spec_serializable(self@));
                }
                return Result::Err(ChartError::Serialization(self.labels[i].clone()));
            }
            out.append("\"");
            proof {
                reveal_strlit("\"");
                assert("\""@ =~= seq!['"']);
                assert(label_elems[i as int] == json_string(self@.labels[i as int]));
                assert(label_elems.subrange(0, i as int + 1).drop_last() =~= prev);
                assert(label_elems.subrange(0, i as int + 1).last() == label_elems[i as int]);
                assert(out@ =~= base1 + comma_joined(label_elems.subrange(0, i as int + 1)));
            }
            i += 1;
        }
        proof {
            assert(label_elems.subrange(0, n as int) =~= label_elems);
        }
        out.append("]},\"yAxis\":{\"type\":\"value\"},\"series\":[{\"type\":\"");
        let tag: &str = match self.kind {
            ChartType::Bar => "bar",
            ChartType::Line => "line",
            ChartType::Scatter => "scatter",
        };
        out.append(tag);
        out.append("\",\"data\":[");
        let ghost base2 = out@;
        let m: usize = self.values.len();
        let mut k: usize = 0;
        while k < m
            invariant
                k <= m,
                m == self@.values.len(),
                out@ == base2 + comma_joined(self@.values.subrange(0, k as int)),
                forall|j: int| 0 <= j < k ==> is_number_text(#[trigger] self@.values[j]),
            decreases m - k,
        {
            let ghost prev = self@.values.subrange(0, k as int);
            if !is_numeric_literal(self.values[k].as_str()) {
                proof {
                    assert(self@.values[k as int] == self.values@[k as int]@);
                    assert(!is_number_text(self@.values[k as int]));
                    assert(spec_offender(self@, self@.values[k as int]));
                    assert(!spec_serializable(self@));
                }
                return Result::Err(ChartError::Serialization(self.values[k].clone()));
            }
            if k > 0 {
                out.append(",");
                proof {
                    reveal_strlit(",");
                    assert(","@ =~= seq![',']);
                }
            }
            out.append(self.values[k].as_str());
            proof {
                assert(self@.values.subrange(0, k as int + 1).drop_last() =~= prev);
                assert(self@.values.subrange(0, k as int + 1).last() == self@.values[k as int]);
                assert(out@ =~= base2 + comma_joined(self@.values.subrange(0, k as int + 1)));
            }
            k += 1;
        }
        proof {
            assert(self@.values.subrange(0, m as int) =~= self@.values);
        }
        out.append("]}]}");
        proof {
            assert(out@ =~= spec_option_json(self@));
        }
        Result::Ok(out)
    }
}

impl Chart {
    /// Describes the chart and embeds the serialized description in the
    /// fixed page template. Fails exactly as `describe_interactive` does,
    /// and further with a serialization failure when the description cannot
    /// be carried in the JSON form.
    pub fn to_interactive_html(&self) -> (r: Result<String, ChartError>)
        ensures
            match spec_describe(self@) {
                Result::Err(m) => r matches Result::Err(e) && e@ == m,
                Result::Ok(d) => match r {
                    Result::Ok(s) => spec_serializable(d) && s@ == spec_html(d),
                    Result::Err(e) => !spec_serializable(d) && (e@ matches ErrorModel::Serialization(
                        t,
                    ) && spec_offender(d, t)),
                },
            },
    {
        let desc: SeriesDescription = match self.describe_interactive() {
            Result::Ok(d) => d,
            Result::Err(e) => {
                return Result::Err(e);
            },
        };
        let json: String = match desc.to_json() {
            Result::Ok(j) => j,
            Result::Err(e) => {
                return Result::Err(e);
            },
        };
        let mut out: String = String::new();
        out.append(
            "<!DOCTYPE html>\n<html>\n<head>\n<meta charset=\"utf-8\" />\n<title>Fluent-Plots Chart</title>\n<script src=\"https://cdn.jsdelivr.net/npm/echarts@5.5.0/dist/echarts.min.js\"></script>\n</head>\n<body>\n<div id=\"main\" style=\"width: 800px;height:600px;\"></div>\n<script type=\"text/javascript\">\nvar myChart = echarts.init(document.getElementById('main'));\nvar option = ",
        );
        out.append(json.as_str());
        out.append(";\nmyChart.setOption(option);\n</script>\n</body>\n</html>\n");
        Result::Ok(out)
    }
}

} // verus!
