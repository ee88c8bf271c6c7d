//! Candidate extraction: maximal base-58 runs of address length.

use call_parser::extract::extract_candidates;
use call_parser::extract::MAX_ADDRESS_LEN;
use call_parser::extract::MIN_ADDRESS_LEN;

const ADDR: &str = "9VffBiow5r5YQzgK56rirEWpu45gZGrDWzm9JUt6zL9G";

#[test]
fn extracts_example_address() {
    let text = format!("buy {} now", ADDR);
    let found = extract_candidates(text.as_bytes());
    assert_eq!(found.len(), 1);
    assert_eq!(found[0].text, ADDR);
    assert_eq!(found[0].start, 4);
}

#[test]
fn address_alone_is_extracted() {
    let found = extract_candidates(ADDR.as_bytes());
    assert_eq!(found.len(), 1);
    assert_eq!(found[0].text, ADDR);
    assert_eq!(found[0].start, 0);
}

#[test]
fn boundary_thirty_one_is_too_short() {
    let run = "A".repeat(31);
    assert_eq!(extract_candidates(run.as_bytes()).len(), 0);
}

#[test]
fn boundary_thirty_two_is_extracted() {
    let run = "A".repeat(32);
    let found = extract_candidates(run.as_bytes());
    assert_eq!(found.len(), 1);
    assert_eq!(found[0].text, run);
}

#[test]
fn boundary_forty_four_is_extracted() {
    let run = "A".repeat(44);
    let found = extract_candidates(run.as_bytes());
    assert_eq!(found.len(), 1);
    assert_eq!(found[0].text, run);
}

#[test]
fn boundary_forty_five_is_never_a_candidate() {
    let run = "A".repeat(45);
    assert_eq!(extract_candidates(run.as_bytes()).len(), 0);
}

#[test]
fn address_length_constants() {
    assert_eq!(MIN_ADDRESS_LEN, 32);
    assert_eq!(MAX_ADDRESS_LEN, 44);
}

#[test]
fn candidates_come_in_text_order() {
    let a = "B".repeat(33);
    let b = "c".repeat(40);
    let text = format!("first {} then {} end", a, b);
    let found = extract_candidates(text.as_bytes());
    assert_eq!(found.len(), 2);
    assert_eq!(found[0].text, a);
    assert_eq!(found[1].text, b);
    assert!(found[0].start < found[1].start);
}

#[test]
fn duplicates_are_kept() {
    let a = "D".repeat(35);
    let text = format!("{} and {}", a, a);
    let found = extract_candidates(text.as_bytes());
    assert_eq!(found.len(), 2);
    assert_eq!(found[0].text, found[1].text);
}

#[test]
fn excluded_letters_break_runs() {
    // 0, O, I and l are outside the alphabet: each splits a long run
    // into two that are too short
    let text = format!("{}O{}", "x".repeat(20), "y".repeat(20));
    assert_eq!(extract_candidates(text.as_bytes()).len(), 0);
    let text2 = format!("{}0{}", "x".repeat(32), "y".repeat(32));
    let found = extract_candidates(text2.as_bytes());
    assert_eq!(found.len(), 2);
}

#[test]
fn plain_words_yield_nothing() {
    assert_eq!(extract_candidates(b"hello there, nothing here").len(), 0);
    assert_eq!(extract_candidates(b"").len(), 0);
}

#[test]
fn overlong_run_hides_embedded_address() {
    // an address glued into a longer base-58 run is not extracted
    let text = format!("x{}", ADDR);
    assert_eq!(extract_candidates(text.as_bytes()).len(), 0);
}
