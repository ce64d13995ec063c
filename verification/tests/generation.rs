use fermi_notifier::config::Config;
use fermi_notifier::error::AppError;
use fermi_notifier::gemini::{
    create_prompt, create_request, generate_fermi_problem_and_solution, parse_estimation,
    request_failure, request_url, Candidate, FermiEstimation, GeminiResponse, ResponseContent,
    ResponsePart, GEMINI_API_URL, MAX_OUTPUT_TOKENS, TEMPERATURE_TENTHS,
};
use fermi_notifier::status::HttpStatus;

fn candidate(texts: &[&str]) -> Candidate {
    Candidate {
        content: ResponseContent {
            parts: texts.iter().map(|t| ResponsePart { text: t.to_string() }).collect(),
        },
    }
}

fn no_text() -> AppError {
    AppError::GeminiApi("no text content in response".to_string())
}

#[test]
fn prompt_is_the_fixed_instruction() {
    let expected = "Generate a unique and interesting Fermi estimation problem suitable for a quick mental challenge. Ensure it's a different type of problem than common examples like piano tuners or jellybeans. Provide the problem statement clearly, starting exactly with \"**Problem:**\". Then, insert a line containing only \"---SOLUTION_SEPARATOR---\". Finally, provide a brief, step-by-step estimation outlining the assumptions and calculation, and state the final approximate answer, starting exactly with \"**Solution:**\". Do not include any text before the **Problem:** or after the solution ends.";
    assert_eq!(create_prompt(), expected);
}

#[test]
fn answer_that_follows_the_prompt_to_the_letter_parses() {
    let answer = "**Problem:**\nHow many?\n---SOLUTION_SEPARATOR---\n**Solution:**\nAbout ten.";
    assert_eq!(
        parse_estimation(answer),
        Ok(FermiEstimation { problem: "How many?".to_string(), solution: "About ten.".to_string() })
    );
}

#[test]
fn request_holds_the_prompt_once_and_the_fixed_settings() {
    let r = create_request();
    assert_eq!(r.contents.len(), 1);
    assert_eq!(r.contents[0].parts.len(), 1);
    assert_eq!(r.contents[0].parts[0].text, create_prompt());
    assert_eq!(r.generation_config.max_output_tokens, 5000);
    assert_eq!(r.generation_config.temperature_tenths, 18);
    assert_eq!(MAX_OUTPUT_TOKENS, 5000);
    assert_eq!(TEMPERATURE_TENTHS, 18);
    assert_eq!(TEMPERATURE_TENTHS as f32 / 10.0, 1.8_f32);
}

#[test]
fn request_goes_to_the_service_with_the_key_as_query() {
    let config =
        Config { gemini_api_key: "abc123".to_string(), ntfy_topic: "t".to_string(), port: 1 };
    assert_eq!(
        request_url(&config),
        "https://generativelanguage.googleapis.com/v1beta/models/gemini-2.0-flash:generateContent?key=abc123"
    );
    assert_eq!(request_url(&config), format!("{}?key={}", GEMINI_API_URL, "abc123"));
}

#[test]
fn refused_request_tells_status_and_body() {
    let status = HttpStatus::from_u16(500).unwrap();
    assert_eq!(
        request_failure(&status, &Some("{\"error\":1}".to_string())),
        AppError::GeminiApi(
            "API request failed with status 500 Internal Server Error: {\"error\":1}".to_string()
        )
    );
    assert_eq!(
        request_failure(&status, &None),
        AppError::GeminiApi(
            "API request failed with status 500 Internal Server Error: Failed to read error body"
                .to_string()
        )
    );
}

#[test]
fn answer_without_candidates_has_no_text() {
    let r = generate_fermi_problem_and_solution(&GeminiResponse { candidates: vec![] });
    assert_eq!(r, Err(no_text()));
}

#[test]
fn answer_whose_first_candidate_is_empty_has_no_text() {
    let response = GeminiResponse {
        candidates: vec![
            candidate(&[]),
            candidate(&["**Problem:** P ---SOLUTION_SEPARATOR--- **Solution:** S"]),
        ],
    };
    assert_eq!(generate_fermi_problem_and_solution(&response), Err(no_text()));
}

#[test]
fn first_text_of_first_candidate_is_read() {
    let response = GeminiResponse {
        candidates: vec![
            candidate(&[
                "\n **Problem:** first ---SOLUTION_SEPARATOR--- **Solution:** one \n",
                "**Problem:** second ---SOLUTION_SEPARATOR--- **Solution:** two",
            ]),
            candidate(&["**Problem:** third ---SOLUTION_SEPARATOR--- **Solution:** three"]),
        ],
    };
    assert_eq!(
        generate_fermi_problem_and_solution(&response),
        Ok(FermiEstimation { problem: "first".to_string(), solution: "one".to_string() })
    );
}

#[test]
fn parse_failure_of_the_answer_comes_through_unchanged() {
    let response = GeminiResponse { candidates: vec![candidate(&["no markers here"])] };
    assert_eq!(
        generate_fermi_problem_and_solution(&response),
        Err(AppError::ParseError("expected 2 parts, found 1".to_string()))
    );
    let blank = GeminiResponse { candidates: vec![candidate(&["  "])] };
    assert_eq!(
        generate_fermi_problem_and_solution(&blank),
        Err(AppError::ParseError("expected 2 parts, found 1".to_string()))
    );
}
