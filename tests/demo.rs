use scoped_db::demo::{
    enum_example_calls, example_next, example_progress, insert_generic_struct_calls,
    insert_vec_calls, recognize_geo_calls, Designator, ExampleCall, Progress,
};

fn table(t: &str) -> String {
    t.to_string()
}

#[test]
fn enum_example_lists_its_calls() {
    assert_eq!(
        enum_example_calls(),
        vec![
            ExampleCall::CreateAddress {
                table: table("address"),
                designator: Designator::Street { number: 10, stair_case: "UV".to_string() },
            },
            ExampleCall::CreateAddress {
                table: table("address"),
                designator: Designator::Village { number: 15 },
            },
            ExampleCall::Select { table: table("address") },
            ExampleCall::Query { text: "REMOVE TABLE address".to_string() },
        ]
    );
}

#[test]
fn insert_generic_struct_lists_its_calls() {
    assert_eq!(
        insert_generic_struct_calls(),
        vec![
            ExampleCall::CreateParent { table: table("parent_struct"), data: "test".to_string() },
            ExampleCall::Select { table: table("parent_struct") },
            ExampleCall::Query { text: "REMOVE TABLE parent_struct".to_string() },
        ]
    );
}

#[test]
fn insert_vec_lists_its_calls() {
    assert_eq!(
        insert_vec_calls(),
        vec![
            ExampleCall::CreateParent { table: table("parent_struct"), data: String::new() },
            ExampleCall::CreateParent { table: table("parent_struct"), data: String::new() },
            ExampleCall::Select { table: table("parent_struct") },
            ExampleCall::Query { text: "REMOVE TABLE parent_struct".to_string() },
        ]
    );
}

#[test]
fn recognize_geo_queries_the_area() {
    let g = r#"{"type":"Polygon","coordinates":[[[0.0,0.0],[1.0,1.0],[1.0,0.0],[0.0,0.0]]]}"#;
    assert_eq!(
        recognize_geo_calls(g),
        vec![ExampleCall::Query { text: format!("SELECT * FROM geo::area({})", g) }]
    );
}

#[test]
fn progress_goes_on_finishes_and_stops() {
    assert_eq!(example_progress(4, 0, true), Progress::Next(1));
    assert_eq!(example_progress(4, 2, true), Progress::Next(3));
    assert_eq!(example_progress(4, 3, true), Progress::Done);
    assert_eq!(example_progress(4, 1, false), Progress::Stopped);
    assert_eq!(example_progress(1, 0, true), Progress::Done);
    assert_eq!(example_progress(usize::MAX, usize::MAX, true), Progress::Done);
}

#[test]
fn next_index_or_none() {
    assert_eq!(example_next(4, 0, true), Some(1));
    assert_eq!(example_next(4, 3, true), None);
    assert_eq!(example_next(4, 1, false), None);
    assert_eq!(example_next(usize::MAX, usize::MAX - 1, true), None);
}

/// Runs a list of `len` calls whose outcomes are `oks`, the way a caller does,
/// and returns how many calls were performed and how the run ended.
fn drive(len: usize, oks: &[bool]) -> (usize, Progress) {
    let mut step = 0;
    let mut made = 0;
    loop {
        made += 1;
        match example_progress(len, step, oks[step]) {
            Progress::Next(n) => step = n,
            end => return (made, end),
        }
    }
}

#[test]
fn run_stops_at_first_failure() {
    assert_eq!(drive(4, &[true, false, true, true]), (2, Progress::Stopped));
    assert_eq!(drive(4, &[false, true, true, true]), (1, Progress::Stopped));
    assert_eq!(drive(4, &[true, true, true, false]), (4, Progress::Stopped));
}

#[test]
fn run_performs_every_call_when_all_work() {
    assert_eq!(drive(4, &[true; 4]), (4, Progress::Done));
    assert_eq!(drive(1, &[true]), (1, Progress::Done));
}
