use kelly::Action;
use kelly::Command;
use kelly::Event;
use kelly::Frac;
use kelly::ParamKind;
use kelly::ReplState;
use kelly::classify;
use kelly::tokenize;

fn toks(words: &[&str]) -> Vec<Vec<u8>> {
    words.iter().map(|w| w.as_bytes().to_vec()).collect()
}

#[test]
fn tokenize_splits_on_whitespace() {
    assert_eq!(tokenize(b"p 0.5"), toks(&["p", "0.5"]));
    assert_eq!(tokenize(b"  k\t2.5  "), toks(&["k", "2.5"]));
    assert_eq!(tokenize(b"1.0"), toks(&["1.0"]));
    assert_eq!(tokenize(b"a b c"), toks(&["a", "b", "c"]));
}

#[test]
fn tokenize_blank_line_has_no_tokens() {
    assert_eq!(tokenize(b""), toks(&[]));
    assert_eq!(tokenize(b"   \t \r\n"), toks(&[]));
}

#[test]
fn tokenized_line_through_classify() {
    match classify(&tokenize(b"  p  0.25 ")) {
        Command::Assign(which, v) => {
            assert_eq!(which, ParamKind::Prob);
            assert_eq!(v, b"0.25".to_vec());
        },
        _ => panic!("`p VALUE` must reassign the probability"),
    }
}

#[test]
fn classify_single_token_is_bound_query() {
    match classify(&toks(&["0.5"])) {
        Command::Bound(v) => assert_eq!(v, b"0.5".to_vec()),
        _ => panic!("a lone token must query a bound"),
    }
}

#[test]
fn classify_p_assignment() {
    match classify(&toks(&["p", "0.6"])) {
        Command::Assign(which, v) => {
            assert_eq!(which, ParamKind::Prob);
            assert_eq!(v, b"0.6".to_vec());
        },
        _ => panic!("`p VALUE` must reassign the probability"),
    }
}

#[test]
fn classify_k_assignment() {
    match classify(&toks(&["k", "2"])) {
        Command::Assign(which, v) => {
            assert_eq!(which, ParamKind::Ratio);
            assert_eq!(v, b"2".to_vec());
        },
        _ => panic!("`k VALUE` must reassign the ratio"),
    }
}

#[test]
fn classify_unknown_name_is_skipped() {
    assert!(matches!(classify(&toks(&["q", "2"])), Command::Skip));
}

#[test]
fn classify_empty_line_is_skipped() {
    assert!(matches!(classify(&toks(&[])), Command::Skip));
}

#[test]
fn classify_three_tokens_are_skipped() {
    assert!(matches!(classify(&toks(&["p", "0.5", "extra"])), Command::Skip));
}

#[test]
fn step_reassigns_probability() {
    let mut st = ReplState::init(Frac::new(3, 4), Frac::new(1, 1));
    let a = st.step(Event::SetProb(Frac::new(1, 2)));
    assert!(matches!(a, Action::ShowParams));
    assert_eq!(st.p, Frac::new(1, 2));
    assert_eq!(st.k, Frac::new(1, 1));
}

#[test]
fn step_reassigns_ratio() {
    let mut st = ReplState::init(Frac::new(3, 4), Frac::new(1, 1));
    let a = st.step(Event::SetRatio(Frac::new(2, 1)));
    assert!(matches!(a, Action::ShowParams));
    assert_eq!(st.k, Frac::new(2, 1));
    assert_eq!(st.p, Frac::new(3, 4));
}

#[test]
fn step_query_reads_but_never_writes() {
    let mut st = ReplState::init(Frac::new(1, 2), Frac::new(1, 1));
    let a = st.step(Event::Query(Frac::new(1, 1)));
    match a {
        Action::ShowStake(s) => {
            // Zero edge: the optimal stake is zero.
            assert_eq!(s.num, 0);
            assert_eq!(s.den, 4294967296);
        },
        _ => panic!("a query must yield a stake"),
    }
    assert_eq!(st, ReplState::init(Frac::new(1, 2), Frac::new(1, 1)));
}

#[test]
fn step_malformed_is_silent() {
    let mut st = ReplState::init(Frac::new(3, 4), Frac::new(1, 1));
    let a = st.step(Event::Malformed);
    assert!(matches!(a, Action::Silent));
    assert_eq!(st, ReplState::init(Frac::new(3, 4), Frac::new(1, 1)));
}
