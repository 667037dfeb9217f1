//! The answer of the server to a query, as a typed value. Its mathematical
//! value is the JSON value that it is written as.

use crate::json::{
    absent, array_of, array_view, as_real_text, distinct_keys, item_view, lemma_field_wf,
    member_view, number_as_real, number_clone, number_text, object_view, opt_member, Json,
    JsonValue, ObjectBuilder,
};
use crate::names::{names_distinct, stamp};
use vstd::prelude::*;
use vstd::string::*;

verus! {

/// One sample: a time, and the value at that time as a text.
pub type Sample = (serde_json::Number, String);

/// One series of a result: its labels, and its sample or samples.
#[derive(Debug)]
pub struct PrometheusResult {
    pub metric: Vec<(String, String)>,
    pub value: Option<Sample>,
    pub values: Option<Vec<Sample>>,
}

/// Prometheus data
#[derive(Debug)]
pub struct PrometheusData {
    pub result_type: String,
    pub result: Vec<PrometheusResult>,
}

/// Prometheus query result
#[derive(Debug)]
pub struct PrometheusQueryResult {
    pub status: String,
    pub data: PrometheusData,
}

/// The JSON form of a sample: the time and the value, in an array.
pub open spec fn sample_json(s: Sample) -> JsonValue {
    JsonValue::Array(seq![JsonValue::Number(number_text(s.0)), JsonValue::Text(s.1@)])
}

/// The JSON forms of a list of samples.
pub open spec fn samples_json(samples: Seq<Sample>) -> Seq<JsonValue> {
    Seq::new(samples.len(), |i: int| sample_json(samples[i]))
}

/// The JSON members for a list of labels.
pub open spec fn labels_json(labels: Seq<(String, String)>) -> Seq<(Seq<char>, JsonValue)> {
    Seq::new(labels.len(), |i: int| (labels[i].0@, JsonValue::Text(labels[i].1@)))
}

impl View for PrometheusResult {
    type V = JsonValue;

    open spec fn view(&self) -> JsonValue {
        JsonValue::Object(
            seq![("metric"@, JsonValue::Object(labels_json(self.metric@)))] + opt_member(
                "value"@,
                match self.value {
                    Some(s) => Some(sample_json(s)),
                    None => None,
                },
            ) + opt_member(
                "values"@,
                match self.values {
                    Some(samples) => Some(JsonValue::Array(samples_json(samples@))),
                    None => None,
                },
            ),
        )
    }
}

/// The JSON forms of a list of series.
pub open spec fn results_json(results: Seq<PrometheusResult>) -> Seq<JsonValue> {
    Seq::new(results.len(), |i: int| results[i]@)
}

impl View for PrometheusData {
    type V = JsonValue;

    open spec fn view(&self) -> JsonValue {
        JsonValue::Object(
            seq![
                ("resultType"@, JsonValue::Text(self.result_type@)),
                ("result"@, JsonValue::Array(results_json(self.result@))),
            ],
        )
    }
}

impl View for PrometheusQueryResult {
    type V = JsonValue;

    open spec fn view(&self) -> JsonValue {
        JsonValue::Object(seq![("status"@, JsonValue::Text(self.status@)), ("data"@, self.data@)])
    }
}

/// The normal form of a sample in an answer: an array of a number and a
/// text, the number read as a floating-point number. `None` where the value
/// is no such array.
pub open spec fn decode_sample(v: JsonValue) -> Option<JsonValue> {
    match v {
        JsonValue::Array(items) => if items.len() == 2 {
            match (items[0], items[1]) {
                (JsonValue::Number(t), JsonValue::Text(s)) => Some(
                    JsonValue::Array(seq![JsonValue::Number(as_real_text(t)), JsonValue::Text(s)]),
                ),
                _ => None,
            }
        } else {
            None
        },
        _ => None,
    }
}

/// The normal forms of a list of samples; `None` where one of them is no
/// sample.
pub open spec fn decode_sample_list(items: Seq<JsonValue>) -> Option<Seq<JsonValue>>
    decreases items.len(),
{
    if items.len() == 0 {
        Some(Seq::empty())
    } else {
        match (decode_sample_list(items.drop_last()), decode_sample(items.last())) {
            (Some(rest), Some(s)) => Some(rest.push(s)),
            _ => None,
        }
    }
}

/// The normal form of an array of samples.
pub open spec fn decode_samples(v: JsonValue) -> Option<JsonValue> {
    match v {
        JsonValue::Array(items) => match decode_sample_list(items) {
            Some(samples) => Some(JsonValue::Array(samples)),
            None => None,
        },
        _ => None,
    }
}

/// Whether every member is a text.
pub open spec fn all_text(fields: Seq<(Seq<char>, JsonValue)>) -> bool {
    forall|i: int| 0 <= i < fields.len() ==> (#[trigger] fields[i]).1 is Text
}

/// What an optional member decodes to: nothing where it is missing or
/// `null`, and otherwise what `decoded` says, which is `None` where the
/// member has the wrong shape.
pub open spec fn optional(member: Option<JsonValue>, decoded: Option<JsonValue>) -> Option<
    Option<JsonValue>,
> {
    match member {
        None => Some(None),
        Some(JsonValue::Null) => Some(None),
        Some(_) => match decoded {
            Some(d) => Some(Some(d)),
            None => None,
        },
    }
}

/// The sample of a series, where it has one.
pub open spec fn decode_value(v: JsonValue) -> Option<Option<JsonValue>> {
    optional(
        v.field("value"@),
        match v.field("value"@) {
            Some(m) => decode_sample(m),
            None => None,
        },
    )
}

/// The samples of a series, where it has them.
pub open spec fn decode_values(v: JsonValue) -> Option<Option<JsonValue>> {
    optional(
        v.field("values"@),
        match v.field("values"@) {
            Some(m) => decode_samples(m),
            None => None,
        },
    )
}

/// The normal form of one series of an answer: its labels, which must all
/// be texts, and its sample or samples where it has them. Other members are
/// dropped.
pub open spec fn decode_series(v: JsonValue) -> Option<JsonValue> {
    match (v.field("metric"@), decode_value(v), decode_values(v)) {
        (Some(JsonValue::Object(labels)), Some(value), Some(values)) => if all_text(labels) {
            Some(
                JsonValue::Object(
                    seq![("metric"@, JsonValue::Object(labels))] + opt_member("value"@, value)
                        + opt_member("values"@, values),
                ),
            )
        } else {
            None
        },
        _ => None,
    }
}

/// The normal forms of a list of series; `None` where one of them is no
/// series.
pub open spec fn decode_series_list(items: Seq<JsonValue>) -> Option<Seq<JsonValue>>
    decreases items.len(),
{
    if items.len() == 0 {
        Some(Seq::empty())
    } else {
        match (decode_series_list(items.drop_last()), decode_series(items.last())) {
            (Some(rest), Some(s)) => Some(rest.push(s)),
            _ => None,
        }
    }
}

/// The normal form of the `data` of an answer.
pub open spec fn decode_data(v: JsonValue) -> Option<JsonValue> {
    match (v.text_field("resultType"@), v.field("result"@)) {
        (Some(kind), Some(JsonValue::Array(items))) => match decode_series_list(items) {
            Some(series) => Some(
                JsonValue::Object(
                    seq![
                        ("resultType"@, JsonValue::Text(kind)),
                        ("result"@, JsonValue::Array(series)),
                    ],
                ),
            ),
            None => None,
        },
        _ => None,
    }
}

/// The normal form of an answer to a query: `status` and `data` with what
/// this server reads of them. `None` where the answer has another shape.
pub open spec fn decode_query(v: JsonValue) -> Option<JsonValue> {
    match (v.text_field("status"@), v.field("data"@)) {
        (Some(status), Some(data)) => match decode_data(data) {
            Some(d) => Some(JsonValue::Object(seq![("status"@, JsonValue::Text(status)), ("data"@, d)])),
            None => None,
        },
        _ => None,
    }
}

/// Reads one sample.
fn read_sample(v: &Json) -> (r: Option<Sample>)
    ensures
        match r {
            Some(s) => decode_sample(v@) == Some(sample_json(s)),
            None => decode_sample(v@) is None,
        },
{
    let items = match v.as_array() {
        Some(items) => items,
        None => {
            return None;
        },
    };
    if items.len() != 2 {
        return None;
    }
    assert(array_view(items@)[0] == item_view(items@, 0));
    assert(array_view(items@)[1] == item_view(items@, 1));
    match (items[0].as_number(), items[1].as_str()) {
        (Some(n), Some(s)) => {
            let sample = (number_as_real(n), String::from_str(s));
            assert(sample_json(sample)->Array_0 =~= seq![
                JsonValue::Number(as_real_text(number_text(*n))),
                JsonValue::Text(s@),
            ]);
            Some(sample)
        },
        _ => None,
    }
}

/// Reads an array of samples.
fn read_samples(v: &Json) -> (r: Option<Vec<Sample>>)
    ensures
        match r {
            Some(samples) => decode_samples(v@) == Some(JsonValue::Array(samples_json(samples@))),
            None => decode_samples(v@) is None,
        },
{
    let items = match v.as_array() {
        Some(items) => items,
        None => {
            return None;
        },
    };
    let ghost all = array_view(items@);
    let mut out: Vec<Sample> = Vec::new();
    let mut i: usize = 0;
    assert(all.take(0) =~= Seq::empty());
    assert(samples_json(out@) =~= Seq::empty());
    while i < items.len()
        invariant
            i <= items.len(),
            all == array_view(items@),
            v@ == JsonValue::Array(all),
            decode_sample_list(all.take(i as int)) == Some(samples_json(out@)),
        decreases items.len() - i,
    {
        let ghost before = out@;
        assert(all.take(i + 1).drop_last() =~= all.take(i as int));
        assert(all.take(i + 1).last() == item_view(items@, i as int));
        match read_sample(&items[i]) {
            Some(s) => {
                out.push(s);
                assert(samples_json(out@) =~= samples_json(before).push(sample_json(s)));
            },
            None => {
                proof {
                    lemma_sample_list_fails(all, i as int + 1);
                }
                return None;
            },
        }
        i = i + 1;
    }
    assert(all.take(i as int) =~= all);
    Some(out)
}

/// Where a prefix of a list of samples does not decode, the list does not.
proof fn lemma_sample_list_fails(items: Seq<JsonValue>, k: int)
    requires
        0 <= k <= items.len(),
        decode_sample_list(items.take(k)) is None,
    ensures
        decode_sample_list(items) is None,
    decreases items.len() - k,
{
    if k == items.len() {
        assert(items.take(k) =~= items);
    } else {
        assert(items.take(k + 1).drop_last() =~= items.take(k));
        lemma_sample_list_fails(items, k + 1);
    }
}

/// Where a prefix of a list of series does not decode, the list does not.
proof fn lemma_series_list_fails(items: Seq<JsonValue>, k: int)
    requires
        0 <= k <= items.len(),
        decode_series_list(items.take(k)) is None,
    ensures
        decode_series_list(items) is None,
    decreases items.len() - k,
{
    if k == items.len() {
        assert(items.take(k) =~= items);
    } else {
        assert(items.take(k + 1).drop_last() =~= items.take(k));
        lemma_series_list_fails(items, k + 1);
    }
}

/// Reads the labels of a series: an object of texts.
fn read_labels(v: &Json) -> (r: Option<Vec<(String, String)>>)
    ensures
        match r {
            Some(labels) => v@ == JsonValue::Object(labels_json(labels@)),
            None => !(v@ matches JsonValue::Object(fields) && all_text(fields)),
        },
{
    let fields = match v.as_object() {
        Some(fields) => fields,
        None => {
            return None;
        },
    };
    let ghost all = object_view(fields@);
    let mut out: Vec<(String, String)> = Vec::new();
    let mut i: usize = 0;
    while i < fields.len()
        invariant
            i <= fields.len(),
            all == object_view(fields@),
            v@ == JsonValue::Object(all),
            out.len() == i,
            forall|j: int|
                0 <= j < i ==> all[j] == ((#[trigger] out@[j]).0@, JsonValue::Text(out@[j].1@)),
        decreases fields.len() - i,
    {
        assert(all[i as int] == member_view(fields@, i as int));
        match fields[i].1.as_str() {
            Some(s) => {
                out.push((fields[i].0.clone(), String::from_str(s)));
            },
            None => {
                assert(!(all[i as int].1 is Text));
                return None;
            },
        }
        i = i + 1;
    }
    assert(all =~= labels_json(out@));
    Some(out)
}

impl PrometheusResult {
    /// Whether no two labels have the same name.
    pub open spec fn wf(&self) -> bool {
        distinct_keys(labels_json(self.metric@))
    }

    /// Tells whether no two labels have the same name.
    pub fn is_wf(&self) -> (r: bool)
        ensures
            r == self.wf(),
    {
        let r = names_distinct(&self.metric);
        proof {
            let views = labels_json(self.metric@);
            if r {
                assert forall|i: int, j: int| 0 <= i < j < views.len() implies (
                #[trigger] views[i]).0 != (#[trigger] views[j]).0 by {
                    assert(self.metric@[i].0@ != self.metric@[j].0@);
                }
            } else if distinct_keys(views) {
                assert forall|i: int, j: int| 0 <= i < j < self.metric@.len() implies (
                #[trigger] self.metric@[i]).0@ != (#[trigger] self.metric@[j]).0@ by {
                    assert(views[i].0 != views[j].0);
                }
            }
        }
        r
    }

    /// Reads one series of an answer.
    pub fn from_json(v: &Json) -> (r: Option<Self>)
        requires
            v.wf(),
        ensures
            match r {
                Some(series) => decode_series(v@) == Some(series@) && series.wf(),
                None => decode_series(v@) is None,
            },
    {
        let metric = match v.get("metric") {
            Some(m) => match read_labels(m) {
                Some(labels) => labels,
                None => {
                    return None;
                },
            },
            None => {
                return None;
            },
        };
        let value = match v.get("value") {
            Some(m) => if m.is_null() {
                None
            } else {
                match read_sample(m) {
                    Some(s) => Some(s),
                    None => {
                        return None;
                    },
                }
            },
            None => None,
        };
        let values = match v.get("values") {
            Some(m) => if m.is_null() {
                None
            } else {
                match read_samples(m) {
                    Some(s) => Some(s),
                    None => {
                        return None;
                    },
                }
            },
            None => None,
        };
        proof {
            lemma_field_wf(v@, "metric"@);
        }
        Some(PrometheusResult { metric, value, values })
    }

    /// The JSON value that this is written as.
    pub fn to_json(&self) -> (json: Json)
        requires
            self.wf(),
        ensures
            json@ == self@,
            json.wf(),
    {
        proof {
            reveal_strlit("metric");
            reveal_strlit("value");
            reveal_strlit("values");
            let _ = stamp("metric"@);
            let _ = stamp("value"@);
            let _ = stamp("values"@);
        }
        let mut labels = ObjectBuilder::new();
        let mut i: usize = 0;
        while i < self.metric.len()
            invariant
                i <= self.metric.len(),
                self.wf(),
                labels.wf(),
                labels@ == labels_json(self.metric@).take(i as int),
            decreases self.metric.len() - i,
        {
            let ghost all = labels_json(self.metric@);
            assert(absent(labels@, self.metric@[i as int].0@)) by {
                assert forall|j: int| 0 <= j < labels@.len() implies (#[trigger] labels@[j]).0
                    != self.metric@[i as int].0@ by {
                    assert(labels@[j] == all[j]);
                    assert(all[j].0 != all[i as int].0);
                }
            }
            labels.put(self.metric[i].0.as_str(), Json::Text(self.metric[i].1.clone()));
            assert(labels@ =~= all.take(i + 1));
            i = i + 1;
        }
        assert(labels@ =~= labels_json(self.metric@));
        let mut b = ObjectBuilder::new();
        b.put("metric", labels.finish());
        let value = match &self.value {
            Some(s) => Some(sample_to_json(s)),
            None => None,
        };
        b.put_opt("value", value);
        let values = match &self.values {
            Some(samples) => Some(samples_to_json(samples)),
            None => None,
        };
        b.put_opt("values", values);
        assert(b@ =~= self@->Object_0);
        b.finish()
    }
}

/// Writes one sample.
fn sample_to_json(s: &Sample) -> (json: Json)
    ensures
        json@ == sample_json(*s),
        json.wf(),
{
    let mut items: Vec<Json> = Vec::new();
    items.push(Json::Number(number_clone(&s.0)));
    items.push(Json::Text(s.1.clone()));
    let json = array_of(items);
    assert(array_view(items@) =~= sample_json(*s)->Array_0) by {
        assert(array_view(items@)[0] == item_view(items@, 0));
        assert(array_view(items@)[1] == item_view(items@, 1));
    }
    json
}

/// Writes a list of samples.
fn samples_to_json(samples: &Vec<Sample>) -> (json: Json)
    ensures
        json@ == JsonValue::Array(samples_json(samples@)),
        json.wf(),
{
    let mut items: Vec<Json> = Vec::new();
    let mut i: usize = 0;
    while i < samples.len()
        invariant
            i <= samples.len(),
            items.len() == i,
            forall|j: int| 0 <= j < i ==> (#[trigger] items[j])@ == sample_json(samples@[j]),
            forall|j: int| 0 <= j < i ==> (#[trigger] items[j]).wf(),
        decreases samples.len() - i,
    {
        items.push(sample_to_json(&samples[i]));
        i = i + 1;
    }
    let json = array_of(items);
    assert(array_view(items@) =~= samples_json(samples@)) by {
        assert forall|j: int| 0 <= j < items@.len() implies array_view(items@)[j]
            == samples_json(samples@)[j] by {
            assert(array_view(items@)[j] == item_view(items@, j));
        }
    }
    json
}

impl PrometheusData {
    /// Whether every series is well formed.
    pub open spec fn wf(&self) -> bool {
        forall|i: int| 0 <= i < self.result@.len() ==> (#[trigger] self.result@[i]).wf()
    }

    /// Tells whether every series is well formed.
    pub fn is_wf(&self) -> (r: bool)
        ensures
            r == self.wf(),
    {
        let mut i: usize = 0;
        while i < self.result.len()
            invariant
                i <= self.result.len(),
                forall|j: int| 0 <= j < i ==> (#[trigger] self.result@[j]).wf(),
            decreases self.result.len() - i,
        {
            if !self.result[i].is_wf() {
                return false;
            }
            i = i + 1;
        }
        true
    }

    /// Reads the `data` of an answer.
    pub fn from_json(v: &Json) -> (r: Option<Self>)
        requires
            v.wf(),
        ensures
            match r {
                Some(data) => decode_data(v@) == Some(data@) && data.wf(),
                None => decode_data(v@) is None,
            },
    {
        let result_type = match v.get_str("resultType") {
            Some(s) => String::from_str(s),
            None => {
                return None;
            },
        };
        let entries = match v.get("result") {
            Some(m) => m,
            None => {
                return None;
            },
        };
        let items = match entries.as_array() {
            Some(items) => items,
            None => {
                return None;
            },
        };
        proof {
            lemma_field_wf(v@, "result"@);
        }
        let ghost all = array_view(items@);
        let mut result: Vec<PrometheusResult> = Vec::new();
        let mut i: usize = 0;
        assert(all.take(0) =~= Seq::empty());
        assert(results_json(result@) =~= Seq::empty());
        while i < items.len()
            invariant
                i <= items.len(),
                all == array_view(items@),
                JsonValue::Array(all).wf(),
                v@.field("result"@) == Some(JsonValue::Array(all)),
                decode_series_list(all.take(i as int)) == Some(results_json(result@)),
                forall|j: int| 0 <= j < result@.len() ==> (#[trigger] result@[j]).wf(),
            decreases items.len() - i,
        {
            let ghost before = result@;
            assert(all.take(i + 1).drop_last() =~= all.take(i as int));
            assert(all.take(i + 1).last() == item_view(items@, i as int));
            assert(all[i as int].wf()) by {
                assert(JsonValue::Array(all).wf());
            }
            match PrometheusResult::from_json(&items[i]) {
                Some(series) => {
                    result.push(series);
                    assert(results_json(result@) =~= results_json(before).push(series@));
                },
                None => {
                    proof {
                        lemma_series_list_fails(all, i as int + 1);
                    }
                    return None;
                },
            }
            i = i + 1;
        }
        assert(all.take(i as int) =~= all);
        Some(PrometheusData { result_type, result })
    }

    /// The JSON value that this is written as.
    pub fn to_json(&self) -> (json: Json)
        requires
            self.wf(),
        ensures
            json@ == self@,
            json.wf(),
    {
        proof {
            reveal_strlit("resultType");
            reveal_strlit("result");
            let _ = stamp("resultType"@);
            let _ = stamp("result"@);
        }
        let mut items: Vec<Json> = Vec::new();
        let mut i: usize = 0;
        while i < self.result.len()
            invariant
                i <= self.result.len(),
                self.wf(),
                items.len() == i,
                forall|j: int| 0 <= j < i ==> (#[trigger] items[j])@ == self.result@[j]@,
                forall|j: int| 0 <= j < i ==> (#[trigger] items[j]).wf(),
            decreases self.result.len() - i,
        {
            items.push(self.result[i].to_json());
            i = i + 1;
        }
        let result = array_of(items);
        assert(array_view(items@) =~= results_json(self.result@)) by {
            assert forall|j: int| 0 <= j < items@.len() implies array_view(items@)[j]
                == results_json(self.result@)[j] by {
                assert(array_view(items@)[j] == item_view(items@, j));
            }
        }
        let mut b = ObjectBuilder::new();
        b.put("resultType", Json::Text(self.result_type.clone()));
        b.put("result", result);
        assert(b@ =~= self@->Object_0);
        b.finish()
    }
}

impl PrometheusQueryResult {
    /// Whether every series is well formed.
    pub open spec fn wf(&self) -> bool {
        self.data.wf()
    }

    /// Tells whether every series is well formed.
    pub fn is_wf(&self) -> (r: bool)
        ensures
            r == self.wf(),
    {
        self.data.is_wf()
    }

    /// Reads an answer to a query. `None` where it does not have the shape
    /// of one.
    pub fn from_json(v: &Json) -> (r: Option<Self>)
        requires
            v.wf(),
        ensures
            match r {
                Some(q) => decode_query(v@) == Some(q@) && q.wf(),
                None => decode_query(v@) is None,
            },
    {
        let status = match v.get_str("status") {
            Some(s) => String::from_str(s),
            None => {
                return None;
            },
        };
        let data = match v.get("data") {
            Some(m) => {
                proof {
                    lemma_field_wf(v@, "data"@);
                }
                match PrometheusData::from_json(m) {
                    Some(data) => data,
                    None => {
                        return None;
                    },
                }
            },
            None => {
                return None;
            },
        };
        Some(PrometheusQueryResult { status, data })
    }

    /// The JSON value that this is written as.
    pub fn to_json(&self) -> (json: Json)
        requires
            self.wf(),
        ensures
            json@ == self@,
            json.wf(),
    {
        proof {
            reveal_strlit("status");
            reveal_strlit("data");
            let _ = stamp("status"@);
            let _ = stamp("data"@);
        }
        let mut b = ObjectBuilder::new();
        b.put("status", Json::Text(self.status.clone()));
        b.put("data", self.data.to_json());
        assert(b@ =~= self@->Object_0);
        b.finish()
    }
}

} // verus!
