use aquila::flow::{get_flow_identifier, Flow};
use aquila::key::{
    compose_event_pattern, compose_flow_identifier, is_key_of_flow, is_matching_key,
    split_segments,
};
use aquila::text::{chars_of, decimal_string, same_chars, string_of};

fn s(text: &str) -> String {
    text.to_string()
}

fn flow(flow_type: &str, slug: &str, project_id: i64, flow_id: i64) -> Flow {
    Flow {
        flow_id,
        project_id,
        flow_type: s(flow_type),
        project_slug: s(slug),
        definition: vec![],
    }
}

#[test]
fn wildcard_pattern_matches_stored_key() {
    let key = s("click.myslug.42.7");
    assert!(is_matching_key(&s("click.*.42.*"), &key));
    assert!(!is_matching_key(&s("view.*.42.*"), &key));
    assert!(!is_matching_key(&s("click.*.43.*"), &key));
}

#[test]
fn pattern_without_wildcard_matches_only_itself() {
    assert!(is_matching_key(&s("a.b.c"), &s("a.b.c")));
    assert!(!is_matching_key(&s("a.b.c"), &s("a.b.d")));
    assert!(!is_matching_key(&s("a.b.c"), &s("a.x.c")));
}

#[test]
fn segment_counts_must_match() {
    assert!(!is_matching_key(&s("click.*"), &s("click.a.b")));
    assert!(!is_matching_key(&s("a.b.c"), &s("a.b")));
    assert!(!is_matching_key(&s("*"), &s("a.b")));
    assert!(is_matching_key(&s("*"), &s("a")));
    assert!(is_matching_key(&s("*.*"), &s("a.b")));
}

#[test]
fn wildcard_matches_one_segment_even_an_empty_one() {
    assert!(is_matching_key(&s("a.*.b"), &s("a..b")));
    assert!(is_matching_key(&s("*"), &s("")));
    assert!(!is_matching_key(&s("a.*"), &s("a")));
    assert!(is_matching_key(&s("a.*"), &s("a.")));
}

#[test]
fn wildcard_is_a_whole_segment() {
    assert!(!is_matching_key(&s("cl*.x"), &s("click.x")));
    assert!(is_matching_key(&s("cl*.x"), &s("cl*.x")));
    assert!(!is_matching_key(&s("**"), &s("a")));
}

#[test]
fn key_of_a_flow_goes_by_the_flow_id_segment() {
    assert!(is_key_of_flow(&s("t1.slugA.1.5"), 5));
    assert!(is_key_of_flow(&s("t2.slugB.1.5"), 5));
    assert!(!is_key_of_flow(&s("t1.slugA.1.6"), 5));
    assert!(!is_key_of_flow(&s("t1.slugA.5.6"), 5));
    assert!(!is_key_of_flow(&s("5.slugA.1.6"), 5));
    assert!(!is_key_of_flow(&s("t1.5.1.6"), 5));
    assert!(!is_key_of_flow(&s("t1.slugA.1.55"), 5));
    assert!(!is_key_of_flow(&s("t1.slugA.1.05"), 5));
    assert!(!is_key_of_flow(&s("t1.slugA.1.-5"), 5));
    assert!(is_key_of_flow(&s("t1.slugA.1.-5"), -5));
    assert!(is_key_of_flow(&s("...0"), 0));
}

#[test]
fn key_of_a_flow_has_four_segments() {
    assert!(!is_key_of_flow(&s("5"), 5));
    assert!(!is_key_of_flow(&s("1.5"), 5));
    assert!(!is_key_of_flow(&s("slugA.1.5"), 5));
    assert!(!is_key_of_flow(&s("a.t1.slugA.1.5"), 5));
    assert!(!is_key_of_flow(&s(""), 0));
}

#[test]
fn flow_identifier_is_the_key_of_its_own_flow_id() {
    let key = get_flow_identifier(&flow("click", "myslug", 42, 7));
    assert!(is_key_of_flow(&key, 7));
    assert!(!is_key_of_flow(&key, 42));
    assert!(!is_key_of_flow(&key, 8));
    let lowest = get_flow_identifier(&flow("t", "s", i64::MAX, i64::MIN));
    assert!(is_key_of_flow(&lowest, i64::MIN));
    assert!(!is_key_of_flow(&lowest, i64::MAX));
}

#[test]
fn split_segments_cuts_at_each_separator() {
    let parts = split_segments("click.myslug.42.7");
    let texts: Vec<String> = parts.iter().map(|p| p.iter().collect()).collect();
    assert_eq!(texts, vec![s("click"), s("myslug"), s("42"), s("7")]);
    assert_eq!(split_segments("").len(), 1);
    assert_eq!(split_segments("a").len(), 1);
    assert_eq!(split_segments(".").len(), 2);
    assert_eq!(split_segments("a..b").len(), 3);
    assert_eq!(split_segments("a..b")[1].len(), 0);
}

#[test]
fn flow_identifier_has_four_segments() {
    assert_eq!(get_flow_identifier(&flow("click", "myslug", 42, 7)), "click.myslug.42.7");
    assert_eq!(get_flow_identifier(&flow("t1", "slugA", 1, 5)), "t1.slugA.1.5");
    assert_eq!(get_flow_identifier(&flow("", "", 0, 0)), "..0.0");
    assert_eq!(get_flow_identifier(&flow("rest", "p", -3, -12)), "rest.p.-3.-12");
    assert_eq!(compose_flow_identifier(&s("a"), &s("b"), 10, 200), "a.b.10.200");
}

#[test]
fn flow_identifier_is_found_by_its_event_pattern() {
    let key = get_flow_identifier(&flow("click", "myslug", 42, 7));
    assert!(is_matching_key(&compose_event_pattern(&s("click"), 42), &key));
    assert!(!is_matching_key(&compose_event_pattern(&s("click"), 43), &key));
    assert!(!is_matching_key(&compose_event_pattern(&s("view"), 42), &key));
    assert!(is_matching_key(&compose_event_pattern(&s("*"), 42), &key));
}

#[test]
fn patterns_are_composed_as_written() {
    assert_eq!(compose_event_pattern(&s("click"), 42), "click.*.42.*");
    assert_eq!(compose_event_pattern(&s("cron"), -1), "cron.*.-1.*");
}

#[test]
fn decimal_string_agrees_with_the_standard_form() {
    let samples: Vec<i64> = vec![
        0,
        1,
        7,
        9,
        10,
        11,
        42,
        99,
        100,
        101,
        12345,
        -1,
        -9,
        -10,
        -42,
        1_000_000_007,
        i64::MAX,
        i64::MIN,
        i64::MIN + 1,
        i64::MAX - 1,
    ];
    for n in samples {
        assert_eq!(decimal_string(n), format!("{}", n));
    }
    assert_eq!(decimal_string(i64::MAX), "9223372036854775807");
    assert_eq!(decimal_string(i64::MIN), "-9223372036854775808");
    assert_eq!(decimal_string(0), "0");
    assert_eq!(decimal_string(-7), "-7");
    assert_eq!(decimal_string(1000), "1000");
}

#[test]
fn characters_round_trip() {
    let text = "click.ä.42";
    let chars = chars_of(text);
    assert_eq!(chars.len(), 10);
    assert_eq!(chars[6], 'ä');
    assert_eq!(string_of(&chars), text);
    assert!(same_chars(&chars, &chars_of(text)));
    assert!(!same_chars(&chars, &chars_of("click.a.42")));
    assert!(!same_chars(&chars, &chars_of("click")));
    assert_eq!(string_of(&vec![]), "");
}
