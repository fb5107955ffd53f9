//! The example programs as call lists, and the step rule that runs them.
//!
//! Each example is a fixed list of calls against the service. The caller
//! performs the calls in order and reports whether each worked; the step rule
//! says which call comes next, and stops at the first failure.

use vstd::prelude::*;
use vstd::string::StringExecFns;
use crate::statements::{area_query, area_query_text, remove_table_statement, remove_table_text};

verus! {

/// Where an address lies: a street number with a staircase, or a village number.
#[derive(Clone, Debug, PartialEq, Eq)]
pub enum Designator {
    Street { number: usize, stair_case: String },
    Village { number: usize },
}

/// A [`Designator`] with its text as characters.
pub enum DesignatorView {
    Street { number: usize, stair_case: Seq<char> },
    Village { number: usize },
}

impl View for Designator {
    type V = DesignatorView;

    open spec fn view(&self) -> DesignatorView {
        match self {
            Designator::Street { number, stair_case } => DesignatorView::Street {
                number: *number,
                stair_case: stair_case@,
            },
            Designator::Village { number } => DesignatorView::Village { number: *number },
        }
    }
}

/// One call of an example against the service.
#[derive(Clone, Debug, PartialEq, Eq)]
pub enum ExampleCall {
    /// Create a record holding an address in `table`.
    CreateAddress { table: String, designator: Designator },
    /// Create a record holding the text `data` in `table`.
    CreateParent { table: String, data: String },
    /// Select every record of `table`.
    Select { table: String },
    /// Run the statement `text`.
    Query { text: String },
}

/// An [`ExampleCall`] with its texts as characters.
pub enum CallView {
    CreateAddress { table: Seq<char>, designator: DesignatorView },
    CreateParent { table: Seq<char>, data: Seq<char> },
    Select { table: Seq<char> },
    Query { text: Seq<char> },
}

impl View for ExampleCall {
    type V = CallView;

    open spec fn view(&self) -> CallView {
        match self {
            ExampleCall::CreateAddress { table, designator } => CallView::CreateAddress {
                table: table@,
                designator: designator@,
            },
            ExampleCall::CreateParent { table, data } => CallView::CreateParent {
                table: table@,
                data: data@,
            },
            ExampleCall::Select { table } => CallView::Select { table: table@ },
            ExampleCall::Query { text } => CallView::Query { text: text@ },
        }
    }
}

/// The calls of a list, as views.
pub open spec fn calls_view(v: Seq<ExampleCall>) -> Seq<CallView> {
    v.map_values(|c: ExampleCall| c@)
}

/// Two addresses go into `address`, are read back, and the table is removed.
pub open spec fn enum_example_spec() -> Seq<CallView> {
    seq![
        CallView::CreateAddress {
            table: "address"@,
            designator: DesignatorView::Street { number: 10, stair_case: "UV"@ },
        },
        CallView::CreateAddress {
            table: "address"@,
            designator: DesignatorView::Village { number: 15 },
        },
        CallView::Select { table: "address"@ },
        CallView::Query { text: remove_table_text("address"@) },
    ]
}

/// One record with the text `test` goes into `parent_struct`, is read back,
/// and the table is removed.
pub open spec fn insert_generic_struct_spec() -> Seq<CallView> {
    seq![
        CallView::CreateParent { table: "parent_struct"@, data: "test"@ },
        CallView::Select { table: "parent_struct"@ },
        CallView::Query { text: remove_table_text("parent_struct"@) },
    ]
}

/// Two records with empty text go into `parent_struct`, are read back, and
/// the table is removed.
pub open spec fn insert_vec_spec() -> Seq<CallView> {
    seq![
        CallView::CreateParent { table: "parent_struct"@, data: Seq::empty() },
        CallView::CreateParent { table: "parent_struct"@, data: Seq::empty() },
        CallView::Select { table: "parent_struct"@ },
        CallView::Query { text: remove_table_text("parent_struct"@) },
    ]
}

/// The area of the GeoJSON geometry `g` is queried.
pub open spec fn recognize_geo_spec(g: Seq<char>) -> Seq<CallView> {
    seq![CallView::Query { text: area_query_text(g) }]
}

/// The calls of the example that stores enum payloads.
pub fn enum_example_calls() -> (r: Vec<ExampleCall>)
    ensures
        calls_view(r@) == enum_example_spec(),
{
    let mut r: Vec<ExampleCall> = Vec::new();
    r.push(ExampleCall::CreateAddress {
        table: String::from_str("address"),
        designator: Designator::Street { number: 10, stair_case: String::from_str("UV") },
    });
    r.push(ExampleCall::CreateAddress {
        table: String::from_str("address"),
        designator: Designator::Village { number: 15 },
    });
    r.push(ExampleCall::Select { table: String::from_str("address") });
    r.push(ExampleCall::Query { text: remove_table_statement("address") });
    assert(calls_view(r@) =~= enum_example_spec());
    r
}

/// The calls of the example that stores a generic struct.
pub fn insert_generic_struct_calls() -> (r: Vec<ExampleCall>)
    ensures
        calls_view(r@) == insert_generic_struct_spec(),
{
    let mut r: Vec<ExampleCall> = Vec::new();
    r.push(ExampleCall::CreateParent {
        table: String::from_str("parent_struct"),
        data: String::from_str("test"),
    });
    r.push(ExampleCall::Select { table: String::from_str("parent_struct") });
    r.push(ExampleCall::Query { text: remove_table_statement("parent_struct") });
    assert(calls_view(r@) =~= insert_generic_struct_spec());
    r
}

/// The calls of the example that stores a list of default records.
pub fn insert_vec_calls() -> (r: Vec<ExampleCall>)
    ensures
        calls_view(r@) == insert_vec_spec(),
{
    let mut r: Vec<ExampleCall> = Vec::new();
    let mut i: usize = 0;
    while i < 2
        invariant
            i <= 2,
            r@.len() == i,
            forall|j: int|
                0 <= j < i ==> r@[j]@ == (CallView::CreateParent {
                    table: "parent_struct"@,
                    data: Seq::<char>::empty(),
                }),
        decreases 2 - i,
    {
        r.push(ExampleCall::CreateParent {
            table: String::from_str("parent_struct"),
            data: String::new(),
        });
        i = i + 1;
    }
    r.push(ExampleCall::Select { table: String::from_str("parent_struct") });
    r.push(ExampleCall::Query { text: remove_table_statement("parent_struct") });
    assert(calls_view(r@) =~= insert_vec_spec());
    r
}

/// The calls of the example that queries the area of the geometry `geometry`,
/// given as GeoJSON text.
pub fn recognize_geo_calls(geometry: &str) -> (r: Vec<ExampleCall>)
    ensures
        calls_view(r@) == recognize_geo_spec(geometry@),
{
    let mut r: Vec<ExampleCall> = Vec::new();
    r.push(ExampleCall::Query { text: area_query(geometry) });
    assert(calls_view(r@) =~= recognize_geo_spec(geometry@));
    r
}

/// How a run of calls goes on after one call.
#[derive(Clone, Copy, Debug, PartialEq, Eq, Structural)]
pub enum Progress {
    /// Perform the call at this index next.
    Next(usize),
    /// Every call worked; the example is done.
    Done,
    /// The call failed; the example stops and surfaces its error.
    Stopped,
}

/// How a run of `len` calls goes on after call `step` reported `ok`.
pub open spec fn progress_of(len: int, step: int, ok: bool) -> Progress {
    if !ok {
        Progress::Stopped
    } else if step + 1 < len {
        Progress::Next((step + 1) as usize)
    } else {
        Progress::Done
    }
}

/// Says how a run of `len` calls goes on after call `step` reported `ok`.
pub fn example_progress(len: usize, step: usize, ok: bool) -> (r: Progress)
    ensures
        r == progress_of(len as int, step as int, ok),
{
    if !ok {
        Progress::Stopped
    } else if step < len && len - step > 1 {
        Progress::Next(step + 1)
    } else {
        Progress::Done
    }
}

/// The index of the call after call `step` of `len` calls, if it reported
/// `ok` and was not the last; `None` when the run ends, done or stopped.
pub fn example_next(len: usize, step: usize, ok: bool) -> (r: Option<usize>)
    ensures
        r == (if ok && step + 1 < len {
            Some((step + 1) as usize)
        } else {
            None::<usize>
        }),
{
    match example_progress(len, step, ok) {
        Progress::Next(n) => Some(n),
        _ => None,
    }
}

/// The number of calls performed from call `step` on, out of `len`, when
/// call `i` reports `oks[i]`.
pub open spec fn calls_made(len: int, oks: Seq<bool>, step: int) -> int
    decreases len - step,
{
    if step < 0 || step >= len || step >= oks.len() {
        0
    } else if progress_of(len, step, oks[step]) is Next {
        1 + calls_made(len, oks, step + 1)
    } else {
        1
    }
}

/// How a run that starts at call `step` ends.
pub open spec fn run_end(len: int, oks: Seq<bool>, step: int) -> Progress
    decreases len - step,
{
    if step < 0 || step >= len || step >= oks.len() {
        Progress::Done
    } else if progress_of(len, step, oks[step]) is Next {
        run_end(len, oks, step + 1)
    } else {
        progress_of(len, step, oks[step])
    }
}

proof fn lemma_stops_from(len: int, oks: Seq<bool>, k: int, s: int)
    requires
        0 <= s <= k < len,
        oks.len() == len,
        forall|i: int| 0 <= i < k ==> oks[i],
        !oks[k],
    ensures
        calls_made(len, oks, s) == k + 1 - s,
        run_end(len, oks, s) == Progress::Stopped,
    decreases k - s,
{
    if s < k {
        lemma_stops_from(len, oks, k, s + 1);
    }
}

/// A run stops at its first failed call: the calls up to and including it
/// are performed, none after it, and the run ends stopped.
pub proof fn lemma_stops_at_first_failure(len: int, oks: Seq<bool>, k: int)
    requires
        0 <= k < len,
        oks.len() == len,
        forall|i: int| 0 <= i < k ==> oks[i],
        !oks[k],
    ensures
        calls_made(len, oks, 0) == k + 1,
        run_end(len, oks, 0) == Progress::Stopped,
{
    lemma_stops_from(len, oks, k, 0);
}

proof fn lemma_completes_from(len: int, oks: Seq<bool>, s: int)
    requires
        0 <= s < len,
        oks.len() == len,
        forall|i: int| 0 <= i < len ==> oks[i],
    ensures
        calls_made(len, oks, s) == len - s,
        run_end(len, oks, s) == Progress::Done,
    decreases len - s,
{
    if s + 1 < len {
        lemma_completes_from(len, oks, s + 1);
    }
}

/// A run in which every call works performs every call, in order, and ends done.
pub proof fn lemma_completes_when_all_work(len: int, oks: Seq<bool>)
    requires
        0 < len,
        oks.len() == len,
        forall|i: int| 0 <= i < len ==> oks[i],
    ensures
        calls_made(len, oks, 0) == len,
        run_end(len, oks, 0) == Progress::Done,
{
    lemma_completes_from(len, oks, 0);
}

} // verus!
