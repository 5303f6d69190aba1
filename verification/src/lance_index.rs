//! Vector search over a LanceDB table: the search parameters, the query
//! settings that follow from them, and the ids given to the rows found.
//!
//! The table itself is held as a value of the caller's type; running the
//! query happens outside this module.

use vstd::prelude::*;
use crate::text::{decimal, decimal_value, is_decimal_digit, push_decimal};
use crate::vector_store::VectorStoreError;
use crate::vecs::reversed;
use vstd::string::StringExecFns;

verus! {

broadcast use vstd::string::group_string_axioms;

/// How distances between vectors are measured (LanceDB's `DistanceType`).
#[derive(Clone, Copy, Debug, PartialEq, Eq, Structural)]
pub enum DistanceType {
    L2,
    Cosine,
    Dot,
    Hamming,
}

/// See [LanceDB vector serustleh](https://lancedb.github.io/lancedb/serustleh/) for more information.
#[derive(Clone, Copy, Debug, PartialEq, Eq, Structural)]
pub enum SerustlehType {
    // Flat serustleh, also called ENN or kNN.
    Flat,
    /// Approximal Nearest Neighbor serustleh, also called ANN.
    Approximate,
}

/// Parameters used to perform a vector serustleh on a LanceDb table.
#[derive(Clone, Debug)]
pub struct SerustlehParams {
    distance_type: Option<DistanceType>,
    serustleh_type: Option<SerustlehType>,
    nprobes: Option<usize>,
    refine_factor: Option<u32>,
    post_filter: Option<bool>,
    column: Option<String>,
}

/// What a [`SerustlehParams`] holds.
pub struct SerustlehParamsView {
    pub distance_type: Option<DistanceType>,
    pub serustleh_type: Option<SerustlehType>,
    pub nprobes: Option<usize>,
    pub refine_factor: Option<u32>,
    pub post_filter: Option<bool>,
    pub column: Option<Seq<char>>,
}

impl View for SerustlehParams {
    type V = SerustlehParamsView;

    closed spec fn view(&self) -> SerustlehParamsView {
        SerustlehParamsView {
            distance_type: self.distance_type,
            serustleh_type: self.serustleh_type,
            nprobes: self.nprobes,
            refine_factor: self.refine_factor,
            post_filter: self.post_filter,
            column: match self.column {
                Some(c) => Some(c@),
                None => None,
            },
        }
    }
}

/// The parameters with nothing set.
pub open spec fn unset_params() -> SerustlehParamsView {
    SerustlehParamsView {
        distance_type: None,
        serustleh_type: None,
        nprobes: None,
        refine_factor: None,
        post_filter: None,
        column: None,
    }
}

impl Default for SerustlehParams {
    fn default() -> (params: Self)
        ensures
            params@ == unset_params(),
    {
        SerustlehParams {
            distance_type: None,
            serustleh_type: None,
            nprobes: None,
            refine_factor: None,
            post_filter: None,
            column: None,
        }
    }
}

impl SerustlehParams {
    /// Sets the distance type of the serustleh params.
    /// Always set the distance_type to match the value used to train the index.
    /// The default is DistanceType::L2.
    pub fn distance_type(self, distance_type: DistanceType) -> (res: Self)
        ensures
            res@ == (SerustlehParamsView { distance_type: Some(distance_type), ..self@ }),
    {
        let mut res = self;
        res.distance_type = Some(distance_type);
        res
    }

    /// Sets the serustleh type of the serustleh params.
    /// By default, ANN will be used if there is an index on the table and kNN will be used if there is NO index on the table.
    /// To use the mentioned defaults, do not set the serustleh type.
    pub fn serustleh_type(self, serustleh_type: SerustlehType) -> (res: Self)
        ensures
            res@ == (SerustlehParamsView { serustleh_type: Some(serustleh_type), ..self@ }),
    {
        let mut res = self;
        res.serustleh_type = Some(serustleh_type);
        res
    }

    /// Sets the nprobes of the serustleh params.
    /// Only set this value only when the serustleh type is ANN.
    pub fn nprobes(self, nprobes: usize) -> (res: Self)
        ensures
            res@ == (SerustlehParamsView { nprobes: Some(nprobes), ..self@ }),
    {
        let mut res = self;
        res.nprobes = Some(nprobes);
        res
    }

    /// Sets the refine factor of the serustleh params.
    /// Only set this value only when serustleh type is ANN.
    pub fn refine_factor(self, refine_factor: u32) -> (res: Self)
        ensures
            res@ == (SerustlehParamsView { refine_factor: Some(refine_factor), ..self@ }),
    {
        let mut res = self;
        res.refine_factor = Some(refine_factor);
        res
    }

    /// Sets the post filter of the serustleh params.
    /// If set to true, filtering will happen after the vector serustleh instead of before.
    pub fn post_filter(self, post_filter: bool) -> (res: Self)
        ensures
            res@ == (SerustlehParamsView { post_filter: Some(post_filter), ..self@ }),
    {
        let mut res = self;
        res.post_filter = Some(post_filter);
        res
    }

    /// Sets the column of the serustleh params.
    /// Only set this value if there is more than one column that contains lists of floats.
    /// If there is only one column of list of floats, this column will be chosen for the vector serustleh automatically.
    pub fn column(self, column: &str) -> (res: Self)
        ensures
            res@ == (SerustlehParamsView { column: Some(column@), ..self@ }),
    {
        let mut res = self;
        res.column = Some(String::from_str(column));
        res
    }
}

/// One setting applied to a vector query, in the order listed.
#[derive(Clone, Debug)]
pub enum QueryStep {
    /// `distance_type(..)`
    DistanceType(DistanceType),
    /// `bypass_vector_index()`: search every vector.
    BypassVectorIndex,
    /// `nprobes(..)`
    Nprobes(usize),
    /// `refine_factor(..)`
    RefineFactor(u32),
    /// `postfilter()`
    Postfilter,
    /// `column(..)`
    Column(String),
}

/// What a [`QueryStep`] holds.
pub enum QueryStepView {
    DistanceType(DistanceType),
    BypassVectorIndex,
    Nprobes(usize),
    RefineFactor(u32),
    Postfilter,
    Column(Seq<char>),
}

impl View for QueryStep {
    type V = QueryStepView;

    open spec fn view(&self) -> QueryStepView {
        match self {
            QueryStep::DistanceType(d) => QueryStepView::DistanceType(*d),
            QueryStep::BypassVectorIndex => QueryStepView::BypassVectorIndex,
            QueryStep::Nprobes(n) => QueryStepView::Nprobes(*n),
            QueryStep::RefineFactor(r) => QueryStepView::RefineFactor(*r),
            QueryStep::Postfilter => QueryStepView::Postfilter,
            QueryStep::Column(c) => QueryStepView::Column(c@),
        }
    }
}

/// The views of a sequence of steps.
pub open spec fn steps_view(steps: Seq<QueryStep>) -> Seq<QueryStepView> {
    steps.map_values(|s: QueryStep| s@)
}

/// The settings that the parameters apply to a query: the distance type
/// when set; for a flat search, bypassing the vector index; for an
/// approximate search, nprobes and the refine factor when set; post
/// filtering when set to true; the column when set.
pub open spec fn query_plan(p: SerustlehParamsView) -> Seq<QueryStepView> {
    let distance = match p.distance_type {
        Some(d) => seq![QueryStepView::DistanceType(d)],
        None => seq![],
    };
    let flat = if p.serustleh_type == Some(SerustlehType::Flat) {
        seq![QueryStepView::BypassVectorIndex]
    } else {
        seq![]
    };
    let approximate = if p.serustleh_type == Some(SerustlehType::Approximate) {
        (match p.nprobes {
            Some(n) => seq![QueryStepView::Nprobes(n)],
            None => seq![],
        }) + (match p.refine_factor {
            Some(r) => seq![QueryStepView::RefineFactor(r)],
            None => seq![],
        })
    } else {
        seq![]
    };
    let post = if p.post_filter == Some(true) {
        seq![QueryStepView::Postfilter]
    } else {
        seq![]
    };
    let column = match p.column {
        Some(c) => seq![QueryStepView::Column(c)],
        None => seq![],
    };
    distance + flat + approximate + post + column
}

/// Where a kind of setting comes in the order the settings are applied:
/// distance type, bypassing the index, nprobes, refine factor, post
/// filtering, column.
pub open spec fn step_rank(s: QueryStepView) -> int {
    match s {
        QueryStepView::DistanceType(_) => 0,
        QueryStepView::BypassVectorIndex => 1,
        QueryStepView::Nprobes(_) => 2,
        QueryStepView::RefineFactor(_) => 3,
        QueryStepView::Postfilter => 4,
        QueryStepView::Column(_) => 5,
    }
}

/// Whether the parameters ask for the setting `x`: the distance type and the
/// column whenever they are set, whatever the search type; bypassing the
/// index for a flat search; nprobes and the refine factor, when set, for an
/// approximate search; post filtering when set to true.
pub open spec fn asks_for(p: SerustlehParamsView, x: QueryStepView) -> bool {
    match x {
        QueryStepView::DistanceType(d) => p.distance_type == Some(d),
        QueryStepView::BypassVectorIndex => p.serustleh_type == Some(SerustlehType::Flat),
        QueryStepView::Nprobes(n) => p.serustleh_type == Some(SerustlehType::Approximate)
            && p.nprobes == Some(n),
        QueryStepView::RefineFactor(r) => p.serustleh_type == Some(SerustlehType::Approximate)
            && p.refine_factor == Some(r),
        QueryStepView::Postfilter => p.post_filter == Some(true),
        QueryStepView::Column(c) => p.column == Some(c),
    }
}

/// `steps` applies exactly the settings that the parameters ask for, each
/// once, in the order of [`step_rank`].
pub open spec fn applies_params(steps: Seq<QueryStepView>, p: SerustlehParamsView) -> bool {
    &&& forall|x: QueryStepView| #[trigger] steps.contains(x) <==> asks_for(p, x)
    &&& forall|i: int, j: int|
        0 <= i < j < steps.len() ==> step_rank(#[trigger] steps[i]) < step_rank(#[trigger] steps[j])
}

proof fn lemma_contains_concat(s: Seq<QueryStepView>, t: Seq<QueryStepView>, x: QueryStepView)
    ensures
        (s + t).contains(x) == (s.contains(x) || t.contains(x)),
{
    if (s + t).contains(x) {
        let i = choose|i: int| 0 <= i < (s + t).len() && (s + t)[i] == x;
        if i < s.len() {
            assert(s[i] == x);
        } else {
            assert(t[i - s.len()] == x);
        }
    }
    if s.contains(x) {
        let i = choose|i: int| 0 <= i < s.len() && s[i] == x;
        assert((s + t)[i] == x);
    }
    if t.contains(x) {
        let i = choose|i: int| 0 <= i < t.len() && t[i] == x;
        assert((s + t)[s.len() + i] == x);
    }
}

proof fn lemma_contains_single(y: QueryStepView, x: QueryStepView)
    ensures
        seq![y].contains(x) == (x == y),
        !Seq::<QueryStepView>::empty().contains(x),
{
    if x == y {
        assert(seq![y][0] == x);
    }
}

/// Ranks strictly increase along `s`, and all lie in `lo..=hi`.
spec fn ranked(s: Seq<QueryStepView>, lo: int, hi: int) -> bool {
    &&& forall|i: int, j: int| 0 <= i < j < s.len() ==> step_rank(#[trigger] s[i]) < step_rank(#[trigger] s[j])
    &&& forall|i: int| 0 <= i < s.len() ==> lo <= step_rank(#[trigger] s[i]) <= hi
}

proof fn lemma_ranked_concat(s: Seq<QueryStepView>, t: Seq<QueryStepView>, lo: int, mid: int, hi: int)
    requires
        lo <= mid < hi,
        ranked(s, lo, mid),
        ranked(t, mid + 1, hi),
    ensures
        ranked(s + t, lo, hi),
{
    let st = s + t;
    assert forall|i: int, j: int| 0 <= i < j < st.len() implies step_rank(#[trigger] st[i]) < step_rank(#[trigger] st[j]) by {
        if j < s.len() {
            assert(st[i] == s[i] && st[j] == s[j]);
        } else if i >= s.len() {
            assert(st[i] == t[i - s.len()] && st[j] == t[j - s.len()]);
        } else {
            assert(st[i] == s[i] && st[j] == t[j - s.len()]);
        }
    }
    assert forall|i: int| 0 <= i < st.len() implies lo <= step_rank(#[trigger] st[i]) <= hi by {
        if i < s.len() {
            assert(st[i] == s[i]);
        } else {
            assert(st[i] == t[i - s.len()]);
        }
    }
}

proof fn lemma_ranked_single_or_empty(s: Seq<QueryStepView>, k: int)
    requires
        s.len() <= 1,
        forall|i: int| 0 <= i < s.len() ==> step_rank(#[trigger] s[i]) == k,
    ensures
        ranked(s, k, k),
{
}

/// The plan of the search parameters applies exactly the settings they ask
/// for, in order: in particular the distance type, the column and post
/// filtering whatever the search type, and nprobes and the refine factor
/// only for an approximate search.
pub proof fn query_plan_applies_params(p: SerustlehParamsView)
    ensures
        applies_params(query_plan(p), p),
{
    let distance = match p.distance_type {
        Some(d) => seq![QueryStepView::DistanceType(d)],
        None => seq![],
    };
    let flat = if p.serustleh_type == Some(SerustlehType::Flat) {
        seq![QueryStepView::BypassVectorIndex]
    } else {
        seq![]
    };
    let nprobes = match p.nprobes {
        Some(n) => seq![QueryStepView::Nprobes(n)],
        None => seq![],
    };
    let refine = match p.refine_factor {
        Some(r) => seq![QueryStepView::RefineFactor(r)],
        None => seq![],
    };
    let approximate = if p.serustleh_type == Some(SerustlehType::Approximate) {
        nprobes + refine
    } else {
        seq![]
    };
    let post = if p.post_filter == Some(true) {
        seq![QueryStepView::Postfilter]
    } else {
        seq![]
    };
    let column = match p.column {
        Some(c) => seq![QueryStepView::Column(c)],
        None => seq![],
    };
    let plan = query_plan(p);
    assert(plan == distance + flat + approximate + post + column);
    assert forall|x: QueryStepView| #[trigger] plan.contains(x) <==> asks_for(p, x) by {
        lemma_contains_concat(distance + flat + approximate + post, column, x);
        lemma_contains_concat(distance + flat + approximate, post, x);
        lemma_contains_concat(distance + flat, approximate, x);
        lemma_contains_concat(distance, flat, x);
        lemma_contains_concat(nprobes, refine, x);
        lemma_contains_single(QueryStepView::BypassVectorIndex, x);
        lemma_contains_single(QueryStepView::Postfilter, x);
        match p.distance_type {
            Some(d) => lemma_contains_single(QueryStepView::DistanceType(d), x),
            None => {},
        }
        match p.nprobes {
            Some(n) => lemma_contains_single(QueryStepView::Nprobes(n), x),
            None => {},
        }
        match p.refine_factor {
            Some(r) => lemma_contains_single(QueryStepView::RefineFactor(r), x),
            None => {},
        }
        match p.column {
            Some(c) => lemma_contains_single(QueryStepView::Column(c), x),
            None => {},
        }
    }
    lemma_ranked_single_or_empty(distance, 0);
    lemma_ranked_single_or_empty(flat, 1);
    lemma_ranked_single_or_empty(nprobes, 2);
    lemma_ranked_single_or_empty(refine, 3);
    lemma_ranked_single_or_empty(post, 4);
    lemma_ranked_single_or_empty(column, 5);
    lemma_ranked_concat(nprobes, refine, 2, 2, 3);
    if p.serustleh_type != Some(SerustlehType::Approximate) {
        assert(ranked(approximate, 2, 3));
    }
    lemma_ranked_concat(distance, flat, 0, 0, 1);
    lemma_ranked_concat(distance + flat, approximate, 0, 1, 3);
    lemma_ranked_concat(distance + flat + approximate, post, 0, 3, 4);
    lemma_ranked_concat(distance + flat + approximate + post, column, 0, 4, 5);
}

/// Type on which vector serustlehes can be performed for a lanceDb table.
/// `M` is the embedding model, `T` the table.
pub struct LanceDbVectorIndex<M, T> {
    /// Defines which model is used to generate embeddings for the vector store.
    model: M,
    /// LanceDB table containing embeddings.
    table: T,
    /// Column name in `table` that contains the id of a record.
    id_field: String,
    /// Vector serustleh params that are used during vector serustleh operations.
    serustleh_params: SerustlehParams,
}

/// What a [`LanceDbVectorIndex`] holds besides its model and table.
pub struct IndexView {
    pub id_field: Seq<char>,
    pub params: SerustlehParamsView,
}

impl<M, T> View for LanceDbVectorIndex<M, T> {
    type V = IndexView;

    closed spec fn view(&self) -> IndexView {
        IndexView { id_field: self.id_field@, params: self.serustleh_params@ }
    }
}

impl<M, T> LanceDbVectorIndex<M, T> {
    /// The index's embedding model.
    pub closed spec fn spec_model(&self) -> M {
        self.model
    }

    /// The index's table.
    pub closed spec fn spec_table(&self) -> T {
        self.table
    }

    /// Create an instance of `LanceDbVectorIndex` with an existing table and model.
    /// Define the id field name of the table.
    /// Define serustleh parameters that will be used to perform vector serustlehes on the table.
    pub fn new(table: T, model: M, id_field: &str, serustleh_params: SerustlehParams) -> (res: Result<
        Self,
        VectorStoreError,
    >)
        ensures
            res matches Ok(index) && index.spec_table() == table && index.spec_model() == model
                && index@.id_field == id_field@ && index@.params == serustleh_params@,
    {
        Ok(
            LanceDbVectorIndex {
                table,
                model,
                id_field: String::from_str(id_field),
                serustleh_params,
            },
        )
    }

    /// The embedding model.
    pub fn model(&self) -> (model: &M)
        ensures
            *model == self.spec_model(),
    {
        &self.model
    }

    /// The table.
    pub fn table(&self) -> (table: &T)
        ensures
            *table == self.spec_table(),
    {
        &self.table
    }

    /// The name of the column that holds the records' ids.
    pub fn id_field(&self) -> (id_field: &str)
        ensures
            id_field@ == self@.id_field,
    {
        self.id_field.as_str()
    }

    /// The settings that the search parameters apply to a vector query,
    /// in order.
    pub fn build_query(&self) -> (steps: Vec<QueryStep>)
        ensures
            steps_view(steps@) == query_plan(self@.params),
            applies_params(steps_view(steps@), self@.params),
    {
        proof {
            query_plan_applies_params(self@.params);
        }
        let params = &self.serustleh_params;
        let mut steps: Vec<QueryStep> = Vec::new();
        match params.distance_type {
            Some(d) => steps.push(QueryStep::DistanceType(d)),
            None => {},
        }
        let ghost after_distance = steps@;
        match params.serustleh_type {
            Some(SerustlehType::Flat) => steps.push(QueryStep::BypassVectorIndex),
            _ => {},
        }
        let ghost after_flat = steps@;
        match params.serustleh_type {
            Some(SerustlehType::Approximate) => {
                match params.nprobes {
                    Some(n) => steps.push(QueryStep::Nprobes(n)),
                    None => {},
                }
                match params.refine_factor {
                    Some(r) => steps.push(QueryStep::RefineFactor(r)),
                    None => {},
                }
            },
            _ => {},
        }
        let ghost after_approximate = steps@;
        match params.post_filter {
            Some(true) => steps.push(QueryStep::Postfilter),
            _ => {},
        }
        let ghost after_post = steps@;
        match &params.column {
            Some(c) => steps.push(QueryStep::Column(c.clone())),
            None => {},
        }
        assert(steps_view(steps@) =~= query_plan(self@.params));
        steps
    }
}

/// The id of the `index`-th row that `top_n` returns: the row's id field
/// when it holds a string, else `unknown` followed by the index.
pub open spec fn top_n_id_of(id_value: Option<Seq<char>>, index: nat) -> Seq<char> {
    match id_value {
        Some(id) => id,
        None => "unknown"@ + decimal(index),
    }
}

/// The id of the `index`-th row of a `top_n` result, given the row's id
/// field when it holds a string.
pub fn top_n_row_id(id_value: Option<String>, index: usize) -> (id: String)
    ensures
        id@ == top_n_id_of(
            match id_value {
                Some(s) => Some(s@),
                None => None,
            },
            index as nat,
        ),
        id_value is None ==> id@.take(7) == "unknown"@ && decimal_value(id@.skip(7)) == index,
{
    proof {
        top_n_fallback_id_reads_back(index as nat);
    }
    match id_value {
        Some(id) => id,
        None => {
            let mut id = String::from_str("unknown");
            push_decimal(&mut id, index);
            id
        },
    }
}

/// The id of a row of a `top_n_ids` result, given the row's id field when
/// it holds a string; empty otherwise.
pub fn top_n_ids_row_id(id_value: Option<String>) -> (id: String)
    ensures
        id_value matches Some(s) ==> id@ == s@,
        id_value is None ==> id@.len() == 0,
{
    match id_value {
        Some(id) => id,
        None => String::new(),
    }
}

/// A row found by a vector search: its distance to the query, its id field
/// when that holds a string, and the record read as the requested type.
#[derive(Debug)]
pub struct ScoredRow<D, T> {
    pub distance: D,
    pub id: Option<String>,
    pub record: Result<T, serde_json::Error>,
}

/// The view of an optional string.
pub open spec fn opt_view(s: Option<String>) -> Option<Seq<char>> {
    match s {
        Some(s) => Some(s@),
        None => None,
    }
}

/// The result of `top_n` for the rows found, in order: each row's distance,
/// id and record; or the error of the first row whose record could not be
/// read.
pub fn top_n_results<D, T>(rows: Vec<ScoredRow<D, T>>) -> (res: Result<
    Vec<(D, String, T)>,
    VectorStoreError,
>)
    ensures
        (forall|i: int| 0 <= i < rows.len() ==> (#[trigger] rows[i]).record is Ok) ==> (
        res matches Ok(out) && out.len() == rows.len() && forall|i: int|
            0 <= i < out.len() ==> (#[trigger] out[i]).0 == rows[i].distance && out[i].1@
                == top_n_id_of(opt_view(rows[i].id), i as nat) && rows[i].record == Ok::<
                T,
                serde_json::Error,
            >(out[i].2)),
        forall|k: int|
            0 <= k < rows.len() && (#[trigger] rows[k]).record is Err && (forall|j: int|
                0 <= j < k ==> (#[trigger] rows[j]).record is Ok) ==> (res matches Err(
                VectorStoreError::JsonError(e),
            ) && rows[k].record == Err::<T, serde_json::Error>(e)),
{
    let ghost rows0 = rows@;
    let n = rows.len();
    let mut pending = reversed(rows);
    let mut out: Vec<(D, String, T)> = Vec::new();
    let mut i: usize = 0;
    #[verifier::loop_isolation(false)]
    while pending.len() > 0
        invariant
            i + pending.len() == n,
            n == rows0.len(),
            out.len() == i,
            forall|k: int| 0 <= k < pending.len() ==> #[trigger] pending[k] == rows0[n - 1 - k],
            forall|j: int| 0 <= j < i ==> (#[trigger] rows0[j]).record is Ok,
            forall|j: int|
                0 <= j < i ==> (#[trigger] out[j]).0 == rows0[j].distance && out[j].1@
                    == top_n_id_of(opt_view(rows0[j].id), j as nat) && rows0[j].record == Ok::<
                    T,
                    serde_json::Error,
                >(out[j].2),
        decreases pending.len(),
    {
        let row = pending.pop().unwrap();
        assert(row == rows0[i as int]);
        let ScoredRow { distance, id, record } = row;
        let id = top_n_row_id(id, i);
        match record {
            Ok(t) => out.push((distance, id, t)),
            Err(e) => {
                assert(rows0[i as int].record is Err);
                return Err(VectorStoreError::JsonError(e));
            },
        }
        i = i + 1;
    }
    Ok(out)
}

/// The result of `top_n_ids` for the rows found, in order: each row's
/// distance and id (empty when its id field does not hold a string).
pub fn top_n_ids_results<D>(rows: Vec<(D, Option<String>)>) -> (out: Vec<(D, String)>)
    ensures
        out.len() == rows.len(),
        forall|i: int|
            0 <= i < out.len() ==> (#[trigger] out[i]).0 == rows[i].0 && out[i].1@ == match rows[i].1 {
                Some(s) => s@,
                None => Seq::<char>::empty(),
            },
{
    let ghost rows0 = rows@;
    let n = rows.len();
    let mut pending = reversed(rows);
    let mut out: Vec<(D, String)> = Vec::new();
    while pending.len() > 0
        invariant
            pending.len() + out.len() == n,
            n == rows0.len(),
            forall|k: int| 0 <= k < pending.len() ==> #[trigger] pending[k] == rows0[n - 1 - k],
            forall|i: int|
                0 <= i < out.len() ==> (#[trigger] out[i]).0 == rows0[i].0 && out[i].1@ == match rows0[i].1 {
                    Some(s) => s@,
                    None => Seq::<char>::empty(),
                },
        decreases pending.len(),
    {
        let (distance, id) = pending.pop().unwrap();
        out.push((distance, top_n_ids_row_id(id)));
    }
    out
}

/// Rows without a string id get distinct ids in a `top_n` result.
pub proof fn top_n_fallback_ids_are_distinct(i: nat, j: nat)
    requires
        i != j,
    ensures
        top_n_id_of(None, i) != top_n_id_of(None, j),
{
    if top_n_id_of(None, i) == top_n_id_of(None, j) {
        let prefix = "unknown"@;
        assert(decimal(i) =~= top_n_id_of(None, i).skip(prefix.len() as int));
        assert(decimal(j) =~= top_n_id_of(None, j).skip(prefix.len() as int));
        crate::text::lemma_decimal_injective(i, j);
    }
}

/// The fallback id of a row is `unknown` followed by the row's index in
/// the usual decimal digits: the digits read back as the index.
pub proof fn top_n_fallback_id_reads_back(i: nat)
    ensures
        top_n_id_of(None, i).take(7) == "unknown"@,
        decimal_value(top_n_id_of(None, i).skip(7)) == i,
        forall|k: int|
            7 <= k < top_n_id_of(None, i).len() ==> is_decimal_digit(#[trigger] top_n_id_of(None, i)[k]),
{
    reveal_strlit("unknown");
    let id = top_n_id_of(None, i);
    assert(id.take(7) =~= "unknown"@);
    assert(id.skip(7) =~= decimal(i));
    crate::text::decimal_is_base_ten(i);
    assert forall|k: int| 7 <= k < id.len() implies is_decimal_digit(#[trigger] id[k]) by {
        assert(id[k] == decimal(i)[k - 7]);
    }
}

/// With nothing set, a query keeps all of LanceDB's defaults.
pub proof fn unset_params_change_nothing()
    ensures
        query_plan(unset_params()) == Seq::<QueryStepView>::empty(),
{
    assert(query_plan(unset_params()) =~= Seq::<QueryStepView>::empty());
}

/// nprobes and the refine factor only matter for an approximate search:
/// unless the search type is `Approximate`, setting them changes no query.
pub proof fn ann_settings_need_approximate_search(p: SerustlehParamsView, nprobes: usize, refine_factor: u32)
    requires
        p.serustleh_type != Some(SerustlehType::Approximate),
    ensures
        query_plan(SerustlehParamsView { nprobes: Some(nprobes), ..p }) == query_plan(p),
        query_plan(SerustlehParamsView { refine_factor: Some(refine_factor), ..p }) == query_plan(p),
{
}

/// A record that could not be read as the requested type.
pub fn serde_to_rustle_error(e: serde_json::Error) -> (err: VectorStoreError)
    ensures
        err matches VectorStoreError::JsonError(inner) && inner == e,
{
    VectorStoreError::JsonError(e)
}

} // verus!
