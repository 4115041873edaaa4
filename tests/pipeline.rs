use pt2itp::pipeline::{batch_ranges, compare, dedupe_syn, link_windows};
use pt2itp::{Context, Link, Name, Names, Tokens};

fn en_context() -> Context {
    Context::with_tokens(String::from("us"), None, Tokens::generate(vec![String::from("en")]).unwrap())
}

#[test]
fn compare_finds_duplicate() {
    let c = en_context();
    let address = Names::new(vec![Name::new("Main Street", 0, None, &c)], &c);
    let near1 = Names::new(vec![Name::new("Elm Street", 0, None, &c)], &c);
    let near2 = Names::new(vec![Name::new("Main St", 0, None, &c)], &c);
    assert_eq!(compare(Link::new(0, &address), vec![Link::new(7, &near1), Link::new(9, &near2)]), Some(9));
}

#[test]
fn compare_new_address() {
    let c = en_context();
    let address = Names::new(vec![Name::new("Main Street", 0, None, &c)], &c);
    assert_eq!(compare(Link::new(0, &address), Vec::new()), None);
    let near = Names::new(vec![Name::new("Main Avenue", 0, None, &c)], &c);
    assert_eq!(compare(Link::new(0, &address), vec![Link::new(3, &near)]), None);
}

#[test]
fn dedupe_syn_displays() {
    let c = en_context();
    let names = vec![
        Name::new("Main St", 1, None, &c),
        Name::new("Main Street", 2, None, &c),
        Name::new("", 9, None, &c),
        Name::new("Elm Street", 1, None, &c),
    ];
    assert_eq!(dedupe_syn(names), vec![String::from("Main Street"), String::from("Elm Street")]);
    assert_eq!(dedupe_syn(Vec::new()), Vec::<String>::new());
}

#[test]
fn windows_cover_all_ids() {
    assert_eq!(link_windows(10, 3), vec![(0, 4), (5, 7), (8, 10)]);
    assert_eq!(link_windows(7, 1), vec![(0, 7)]);
    let w = link_windows(100_003, 8);
    assert_eq!(w[0].0, 0);
    assert_eq!(w[7].1, 100_003);
    for k in 0..7 {
        assert_eq!(w[k].1 + 1, w[k + 1].0);
    }
}

#[test]
fn batches_step_through_window() {
    assert_eq!(batch_ranges(0, 12000), vec![(0, 5000), (5001, 10001), (10002, 15002)]);
    assert_eq!(batch_ranges(5, 5), Vec::<(i64, i64)>::new());
}
