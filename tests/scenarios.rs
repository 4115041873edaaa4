use pt2itp::linker::{is_numbered, is_routish};
use pt2itp::similarity::{check_substring, distance, is_abbrev, pattern_match};
use pt2itp::{
    capitalize, diacritics, linker, normalize_number, Agreement, Context, Link, LinkResult, Name, Names,
    NumberError, Source, TokenType, Tokenized, Tokens,
};

fn en_context() -> Context {
    Context::with_tokens(String::from("us"), None, Tokens::generate(vec![String::from("en")]).unwrap())
}

fn link_one(context: &Context, primary: &str, candidates: &[&str], strict: bool) -> Option<LinkResult> {
    let a_name = Names::new(vec![Name::new(primary, 0, None, context)], context);
    let b_names: Vec<Names> = candidates
        .iter()
        .map(|c| Names::new(vec![Name::new(c, 0, None, context)], context))
        .collect();
    let a = Link::new(1, &a_name);
    let b: Vec<Link> = b_names.iter().enumerate().map(|(i, n)| Link::new(i as i64 + 2, n)).collect();
    linker(a, b, strict)
}

#[test]
fn linker_exact_main_street() {
    let c = en_context();
    assert_eq!(link_one(&c, "Main Street", &["Main Street"], false), Some(LinkResult::new(2, 10000)));
}

#[test]
fn linker_saint_and_street() {
    let c = en_context();
    assert_eq!(link_one(&c, "Saint Peter Street", &["St Peter St"], false), Some(LinkResult::new(2, 10000)));
}

#[test]
fn linker_numbered_gate() {
    let c = en_context();
    assert_eq!(link_one(&c, "11th Street West", &["21st Street West"], false), None);
}

#[test]
fn linker_permissive_cardinal_bonus() {
    let c = en_context();
    assert_eq!(
        link_one(&c, "N Umpqua St", &["Umpqua Street", "South Umpqua Street"], false),
        Some(LinkResult::new(2, 10000))
    );
}

#[test]
fn linker_cardinal_mismatch() {
    let c = en_context();
    // The cardinal gate applies in strict mode.
    assert_eq!(link_one(&c, "S Street NW", &["S Street NE"], true), None);
    // Outside strict mode the pair is scored: every token is typed, so the
    // bag overlap decides: 2 of 3 tokens shared, d = 2/3, 100 - 100 * (4/3) / 14.
    assert_eq!(link_one(&c, "S Street NW", &["S Street NE"], false), Some(LinkResult::new(2, 9048)));
}

#[test]
fn linker_strict_way_mismatch() {
    let c = en_context();
    assert_eq!(link_one(&c, "Main Street", &["Main Ave"], true), None);
}

#[test]
fn linker_no_candidates() {
    let c = en_context();
    assert_eq!(link_one(&c, "Main Street", &[], false), None);
}

#[test]
fn linker_exact_beats_nearer_candidate() {
    let c = en_context();
    assert_eq!(
        link_one(&c, "Main Street", &["Maine Street", "Main Street"], false),
        Some(LinkResult::new(3, 10000))
    );
}

#[test]
fn linker_closer_candidate_scores_higher() {
    let c = en_context();
    let near = link_one(&c, "Lincoln Street", &["Lincon Street"], false).unwrap();
    let far = link_one(&c, "Lincoln Street", &["Lincxx Street"], false);
    match far {
        Some(f) => assert!(near.score >= f.score),
        None => assert!(near.score > 7000),
    }
}

#[test]
fn linker_never_returns_seventy_or_less() {
    let c = en_context();
    for cand in ["Lincoln Street", "Lincon Street", "Lancaster Road", "Elm Street", "Oak Ave"] {
        if let Some(r) = link_one(&c, "Lincoln Street", &[cand], false) {
            assert!(r.score > 7000);
            assert!(r.score <= 10000);
        }
    }
}

#[test]
fn linker_exact_score_formula() {
    // "main st" against "mian st": both tokenless forms non-empty.
    // lev("main st", "mian st") = 2, lev("main", "mian") = 2, d = 0.25 * 2 + 0.75 * 2 = 2,
    // score = 100 - 100 * 4 / 14 = 71.43
    let c = Context::with_tokens(
        String::from("us"),
        None,
        Tokens::new(
            vec![(String::from("street"), pt2itp::ParsedToken::new(String::from("st"), Some(TokenType::Way)))],
            Vec::new(),
            Vec::new(),
        ),
    );
    assert_eq!(link_one(&c, "main street", &["mian street"], false), Some(LinkResult::new(2, 7143)));
}

#[test]
fn tokenize_ignores_case() {
    let c = en_context();
    let a = c.tokens.process(&String::from("MAIN STREET NORTHWEST"), &String::from("US"));
    let b = c.tokens.process(&String::from("main street northwest"), &String::from("US"));
    assert_eq!(a, b);
}

#[test]
fn tokenize_final_sigma_differs_from_its_capital() {
    // Lowercasing the capital gives the medial form, so case is ignored only
    // between texts with the same lowercase form.
    let t = Tokens::new(Vec::new(), Vec::new(), Vec::new());
    let small = t.process(&String::from("ς"), &String::from(""));
    let capital = t.process(&String::from("ς".to_uppercase()), &String::from(""));
    assert_eq!(small, vec![Tokenized::new(String::from("ς"), None)]);
    assert_eq!(capital, vec![Tokenized::new(String::from("σ"), None)]);
}

#[test]
fn fold_is_idempotent_on_examples() {
    for s in ["Fußball", "hŒllœ", "Iлｔèｒｎåｔïｏｎɑｌíƶａｔï߀ԉ", "plain ascii", "京都市"] {
        let once = diacritics(&String::from(s));
        assert_eq!(diacritics(&once), once);
    }
    assert_eq!(diacritics(&String::from("Fußball")), String::from("Fussball"));
}

#[test]
fn names_normalize_twice() {
    let c = en_context();
    let mut names = Names::new(
        vec![
            Name::new("Main Street", 0, Some(Source::Address), &c),
            Name::new("  ", 5, None, &c),
            Name::new("Main St", 3, Some(Source::Network), &c),
            Name::new("Elm Street", 3, None, &c),
            Name::new("main street", 1, None, &c),
        ],
        &c,
    );
    names.empty();
    names.sort();
    names.dedupe();
    let displays: Vec<String> = names.names.iter().map(|n| n.display.clone()).collect();
    assert_eq!(displays, vec![String::from("Elm Street"), String::from("Main St")]);
    let once = names.clone();
    names.empty();
    names.sort();
    names.dedupe();
    assert_eq!(names, once);
}

#[test]
fn names_concat_and_diff() {
    let c = en_context();
    let mut a = Names::new(vec![Name::new("Main Street", 0, None, &c)], &c);
    let b = Names::new(vec![Name::new("Main St", 0, None, &c)], &c);
    let d = Names::new(vec![Name::new("Elm Street", 0, None, &c)], &c);
    assert!(!a.has_diff(&b));
    assert!(a.has_diff(&d));
    a.concat(d);
    assert_eq!(a.names.len(), 2);
    assert!(!a.has_diff(&b));
}

#[test]
fn name_strings() {
    let c = en_context();
    let n = Name::new("N Main Street", 0, None, &c);
    assert_eq!(n.tokenized_string(), String::from("n main st"));
    assert_eq!(n.tokenless_string(), String::from("main"));
    assert_eq!(n.remove_type_string(Some(TokenType::Cardinal)), String::from("main st"));
    assert!(n.has_type(Some(TokenType::Way)));
    assert!(!n.has_type(Some(TokenType::Number)));
}

#[test]
fn numbered_and_routish() {
    let c = en_context();
    assert_eq!(is_numbered(&Name::new("11th Street", 0, None, &c)), Some(String::from("11th")));
    assert_eq!(is_numbered(&Name::new("Main Street", 0, None, &c)), None);
    assert_eq!(is_routish(&Name::new("rt 1", 0, None, &c)), Some(String::from("1")));
    assert_eq!(is_routish(&Name::new("Main Street", 0, None, &c)), None);
}

#[test]
fn similarity_primitives() {
    assert!(pattern_match("ntra", "nuestra"));
    assert!(!pattern_match("nrta", "nuestra"));
    let kitten: Vec<char> = "kitten".chars().collect();
    let sitting: Vec<char> = "sitting".chars().collect();
    assert_eq!(distance(&kitten, &sitting), 3);
    let list = vec![String::from("angelo"), String::from("silvio"), String::from("novaro")];
    assert_eq!(is_abbrev(&String::from("a"), &list), (true, vec![String::from("silvio"), String::from("novaro")]));
    assert_eq!(is_abbrev(&String::from("x"), &list), (false, list.clone()));
    assert!(check_substring(
        vec![String::from("a"), String::from("s"), String::from("novaro")],
        list.clone()
    ));
    assert!(!check_substring(vec![String::from("q"), String::from("novaro")], list));
}

#[test]
fn tokens_generate_unknown_language() {
    assert!(Tokens::generate(vec![String::from("zz")]).is_none());
}

#[test]
fn tokens_phrase_table_used() {
    let t = Tokens::generate(vec![String::from("es")]).unwrap();
    assert!(t.multi_tokens.iter().any(|(k, _)| k == "gran via"));
    assert!(!t.tokens.iter().any(|(k, _)| k.contains(' ')));
}

#[test]
fn st_rule_only_for_us() {
    let t = Tokens::new(Vec::new(), Vec::new(), Vec::new());
    assert_eq!(
        t.process(&String::from("main st"), &String::from("US")),
        vec![Tokenized::new(String::from("main"), None), Tokenized::new(String::from("st"), Some(TokenType::Way))]
    );
    assert_eq!(
        t.process(&String::from("main st"), &String::from("CA")),
        vec![Tokenized::new(String::from("main"), None), Tokenized::new(String::from("st"), None)]
    );
}

#[test]
fn number_normalization() {
    assert_eq!(normalize_number(&String::from("100 A")), Ok(String::from("100a")));
    assert_eq!(normalize_number(&String::from("100 1/2")), Ok(String::from("100")));
    assert_eq!(normalize_number(&String::from("12-34a")), Ok(String::from("12-34a")));
    assert_eq!(normalize_number(&String::from("12N34")), Ok(String::from("12n34")));
    assert_eq!(normalize_number(&String::from("N12W34")), Ok(String::from("n12w34")));
    assert_eq!(normalize_number(&String::from("12к3с4")), Ok(String::from("12к3с4")));
    assert_eq!(normalize_number(&String::from("main")), Err(NumberError::Unsupported));
    assert_eq!(normalize_number(&String::from("")), Err(NumberError::Unsupported));
    assert_eq!(normalize_number(&String::from("12к")), Err(NumberError::Unsupported));
    assert_eq!(normalize_number(&String::from("12345678901")), Err(NumberError::TooLong));
    // The limit counts characters: ten characters, eleven bytes.
    assert_eq!(normalize_number(&String::from("12345678к1")), Ok(String::from("12345678к1")));
    assert_eq!(normalize_number(&String::from("123456789к1")), Err(NumberError::TooLong));
}

#[test]
fn capitalize_words() {
    let us = Context::new(String::from("us"), None);
    let de = Context::new(String::from("de"), None);
    assert_eq!(capitalize("of", 2, &us), String::from("of"));
    assert_eq!(capitalize("of", 1, &us), String::from("Of"));
    assert_eq!(capitalize("dc", 3, &us), String::from("DC"));
    assert_eq!(capitalize("du", 2, &de), String::from("du"));
    assert_eq!(capitalize("ärger", 1, &de), String::from("Ärger"));
}

#[test]
fn context_without_region() {
    let c = Context::new(String::from("ca"), None);
    assert_eq!(c.country, String::from("CA"));
    assert_eq!(c.region_code(), None);
    assert_eq!(c.region_name(), None);
    let c = Context::new(String::from("fr"), Some(String::from("idf")));
    assert_eq!(c.region_code(), Some(String::from("FR-IDF")));
    assert_eq!(c.region_name(), None);
}

#[test]
fn agreement_repeated_source_listed_once() {
    let sources = vec![String::from("a"), String::from("b"), String::from("a")];
    let mut agreement = Agreement::new(sources, 10);
    let names: Vec<String> = agreement.get_results().iter().map(|(s, _)| s.clone()).collect();
    assert_eq!(names, vec![String::from("a"), String::from("b")]);
    agreement.process_points(&vec![String::from("a")], &Vec::new());
    assert_eq!(agreement.get_results()[0].1.hit_count, 1);
    assert_eq!(agreement.get_results()[1].1.hit_count, 0);
}

#[test]
fn linker_weighted_distance_example() {
    // A candidate one edit closer on the whole name can still score lower,
    // because the name without way tokens weighs three quarters.
    let c = Context::with_tokens(
        String::from("us"),
        None,
        Tokens::new(
            vec![
                (String::from("st"), pt2itp::ParsedToken::new(String::from("st"), Some(TokenType::Way))),
                (String::from("rd"), pt2itp::ParsedToken::new(String::from("rd"), Some(TokenType::Way))),
            ],
            Vec::new(),
            Vec::new(),
        ),
    );
    assert_eq!(link_one(&c, "ab st", &["ab rd"], false), Some(LinkResult::new(2, 9000)));
    assert_eq!(link_one(&c, "ab st", &["ax st"], false), Some(LinkResult::new(2, 8000)));
}

#[test]
fn agreement_counts_bounded() {
    let sources = vec![String::from("a"), String::from("b"), String::from("c"), String::from("d")];
    let mut agreement = Agreement::new(sources, 10);
    agreement.process_points(
        &vec![String::from("a"), String::from("b"), String::from("c")],
        &vec![(0, 1, true), (2, 3, false)],
    );
    agreement.process_points(&vec![String::from("a"), String::from("d")], &vec![(0, 1, true)]);
    agreement.process_points(&vec![String::from("b"), String::from("c"), String::from("d")], &vec![(1, 2, true), (0, 3, true)]);
    assert_eq!(agreement.sample_count, 3);
    let r: Vec<(u32, u32)> = agreement.get_results().iter().map(|(_, x)| (x.agreement_count, x.hit_count)).collect();
    assert_eq!(r, vec![(1, 2), (2, 2), (1, 2), (1, 2)]);
    for (_, x) in agreement.get_results() {
        assert!(x.agreement_count <= x.hit_count);
        assert!(x.hit_count <= agreement.sample_count);
    }
}
