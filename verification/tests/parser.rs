use fermi_notifier::error::{AppError, ErrorKind};
use fermi_notifier::gemini::{
    parse_estimation, FermiEstimation, PROBLEM_MARKER, SEPARATOR_MARKER, SOLUTION_MARKER,
};

fn estimation(problem: &str, solution: &str) -> FermiEstimation {
    FermiEstimation { problem: problem.to_string(), solution: solution.to_string() }
}

fn parse_error(detail: &str) -> AppError {
    AppError::ParseError(detail.to_string())
}

#[test]
fn markers_are_the_agreed_words() {
    assert_eq!(PROBLEM_MARKER, "**Problem:**");
    assert_eq!(SOLUTION_MARKER, "**Solution:**");
    assert_eq!(SEPARATOR_MARKER, "---SOLUTION_SEPARATOR---");
}

#[test]
fn parses_the_plain_form() {
    let r = parse_estimation("**Problem:** P ---SOLUTION_SEPARATOR--- **Solution:** S");
    assert_eq!(r, Ok(estimation("P", "S")));
}

#[test]
fn parses_the_golf_ball_text() {
    let raw = "**Problem:** How many golf balls fit in a bus?\n---SOLUTION_SEPARATOR---\n**Solution:** Step 1... Answer: ~500000";
    assert_eq!(
        parse_estimation(raw),
        Ok(estimation("How many golf balls fit in a bus?", "Step 1... Answer: ~500000"))
    );
}

#[test]
fn parses_without_any_whitespace() {
    let r = parse_estimation("**Problem:**a---SOLUTION_SEPARATOR---**Solution:**b");
    assert_eq!(r, Ok(estimation("a", "b")));
}

#[test]
fn trims_around_the_parts_and_behind_the_markers() {
    let raw = " \n\t**Problem:**  \n many\nlines here \n\n ---SOLUTION_SEPARATOR--- \r\n **Solution:**\u{00A0} 1. one\n2. two \u{3000}\n";
    assert_eq!(parse_estimation(raw), Ok(estimation("many\nlines here", "1. one\n2. two")));
}

#[test]
fn keeps_text_of_many_bytes_per_character() {
    let raw = "**Problem:** Wie viele Brötchen 🥖?---SOLUTION_SEPARATOR---**Solution:** ≈ 10⁶";
    assert_eq!(parse_estimation(raw), Ok(estimation("Wie viele Brötchen 🥖?", "≈ 10⁶")));
}

#[test]
fn keeps_markers_that_come_again_inside_a_half() {
    let raw = "**Problem:** **Problem:** x ---SOLUTION_SEPARATOR--- **Solution:** see **Solution:**";
    assert_eq!(parse_estimation(raw), Ok(estimation("**Problem:** x", "see **Solution:**")));
}

#[test]
fn rejects_text_without_separator() {
    let r = parse_estimation("**Problem:** P **Solution:** S");
    assert_eq!(r, Err(parse_error("expected 2 parts, found 1")));
}

#[test]
fn rejects_empty_text() {
    assert_eq!(parse_estimation(""), Err(parse_error("expected 2 parts, found 1")));
}

#[test]
fn rejects_text_with_two_separators() {
    let raw = "**Problem:** P ---SOLUTION_SEPARATOR--- **Solution:** S ---SOLUTION_SEPARATOR--- more";
    assert_eq!(parse_estimation(raw), Err(parse_error("expected 2 parts, found 3")));
}

#[test]
fn counts_many_separators() {
    let mut raw = String::from("**Problem:** P");
    for _ in 0..11 {
        raw.push_str(SEPARATOR_MARKER);
    }
    assert_eq!(parse_estimation(&raw), Err(parse_error("expected 2 parts, found 12")));
}

#[test]
fn overlapping_separators_count_once() {
    let raw = "**Problem:** P ---SOLUTION_SEPARATOR---SOLUTION_SEPARATOR--- **Solution:** S";
    let parts: Vec<&str> = raw.split(SEPARATOR_MARKER).collect();
    assert_eq!(parts.len(), 2);
    assert_eq!(parse_estimation(raw), Err(parse_error("missing expected marker(s)")));
}

#[test]
fn rejects_missing_problem_marker() {
    let r = parse_estimation("P ---SOLUTION_SEPARATOR--- **Solution:** S");
    assert_eq!(r, Err(parse_error("missing expected marker(s)")));
}

#[test]
fn rejects_missing_solution_marker() {
    let r = parse_estimation("**Problem:** P ---SOLUTION_SEPARATOR--- S");
    assert_eq!(r, Err(parse_error("missing expected marker(s)")));
}

#[test]
fn rejects_text_before_the_problem_marker() {
    let r = parse_estimation("Sure! **Problem:** P ---SOLUTION_SEPARATOR--- **Solution:** S");
    assert_eq!(r, Err(parse_error("missing expected marker(s)")));
}

#[test]
fn rejects_markers_in_the_wrong_halves() {
    let r = parse_estimation("**Solution:** S ---SOLUTION_SEPARATOR--- **Problem:** P");
    assert_eq!(r, Err(parse_error("missing expected marker(s)")));
}

#[test]
fn rejects_marker_in_other_case() {
    let r = parse_estimation("**problem:** P ---SOLUTION_SEPARATOR--- **Solution:** S");
    assert_eq!(r, Err(parse_error("missing expected marker(s)")));
}

#[test]
fn rejects_problem_that_is_only_its_marker() {
    let r = parse_estimation("**Problem:** ---SOLUTION_SEPARATOR--- **Solution:** S");
    assert_eq!(r, Err(parse_error("parsed problem or solution empty")));
}

#[test]
fn rejects_solution_that_is_only_its_marker() {
    let r = parse_estimation("**Problem:** P ---SOLUTION_SEPARATOR--- **Solution:**  \n ");
    assert_eq!(r, Err(parse_error("parsed problem or solution empty")));
}

#[test]
fn rejects_two_bare_markers() {
    let r = parse_estimation("**Problem:**---SOLUTION_SEPARATOR---**Solution:**");
    assert_eq!(r, Err(parse_error("parsed problem or solution empty")));
}

#[test]
fn rejects_bare_separator() {
    let r = parse_estimation("---SOLUTION_SEPARATOR---");
    assert_eq!(r, Err(parse_error("missing expected marker(s)")));
}

#[test]
fn parse_failures_are_of_the_parsing_kind() {
    for raw in ["", "x", "**Problem:** ---SOLUTION_SEPARATOR--- **Solution:**"] {
        match parse_estimation(raw) {
            Err(e) => assert_eq!(e.kind(), ErrorKind::ParseError),
            Ok(e) => panic!("parsed {:?}", e),
        }
    }
}

#[test]
fn round_trip_over_many_halves() {
    let halves = ["a", "x y", "line\nline", "-", "--- ---", "ÄÖ", "1+1=2", "**bold**"];
    let paddings = ["", " ", "\n", " \t\r\n"];
    for p in halves {
        for s in halves {
            for pad in paddings {
                let raw = format!(
                    "{pad}{}{pad}{p}{pad}{}{pad}{}{pad}{s}{pad}",
                    PROBLEM_MARKER, SEPARATOR_MARKER, SOLUTION_MARKER
                );
                assert_eq!(parse_estimation(&raw), Ok(estimation(p, s)), "{:?}", raw);
            }
        }
    }
}

#[test]
fn parsed_halves_are_trimmed_and_not_empty() {
    let raw = "**Problem:** \n p \n ---SOLUTION_SEPARATOR--- **Solution:** \n s \n";
    let e = parse_estimation(raw).unwrap();
    assert!(!e.problem.is_empty() && !e.solution.is_empty());
    assert_eq!(e.problem, e.problem.trim());
    assert_eq!(e.solution, e.solution.trim());
}
