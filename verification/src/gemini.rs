//! The generation service: what is asked of it, and how its answer is read.

use crate::config::Config;
use crate::error::{AppError, AppResult, ErrorKind, Failure};
use crate::status::{body_read, refusal, refusal_text, status_display, HttpStatus};
use crate::text::{
    blank, chars_of, decimal, decimal_string, has_prefix, lemma_blank_trims_empty,
    lemma_first_occurrence_from, lemma_split_len, lemma_split_once, lemma_split_twice,
    lemma_trim_bounds, lemma_trim_idempotent, lemma_trim_is, occurs_at, pieces, range_has_prefix,
    slice, split, split_ranges, trim, trim_range, trimmed, whitespace,
};
use vstd::prelude::*;

verus! {

/// The address of the generation service.
pub const GEMINI_API_URL: &'static str =
    "https://generativelanguage.googleapis.com/v1beta/models/gemini-2.0-flash:generateContent";

/// The most that the service may write, in tokens.
pub const MAX_OUTPUT_TOKENS: u32 = 5000;

/// The sampling temperature in tenths, on a scale from 0 to 20: high, for
/// novelty rather than repeatable answers.
pub const TEMPERATURE_TENTHS: u32 = 18;

/// The word that opens the problem.
pub const PROBLEM_MARKER: &'static str = "**Problem:**";

/// The word that opens the solution.
pub const SOLUTION_MARKER: &'static str = "**Solution:**";

/// The line that parts the problem from the solution.
pub const SEPARATOR_MARKER: &'static str = "---SOLUTION_SEPARATOR---";

/// The characters of `PROBLEM_MARKER`.
pub open spec fn problem_marker() -> Seq<char> {
    PROBLEM_MARKER@
}

/// The characters of `SOLUTION_MARKER`.
pub open spec fn solution_marker() -> Seq<char> {
    SOLUTION_MARKER@
}

/// The characters of `SEPARATOR_MARKER`.
pub open spec fn separator() -> Seq<char> {
    SEPARATOR_MARKER@
}

/// An estimation puzzle: a problem and its worked solution.
#[derive(Debug, Clone, PartialEq, Eq)]
pub struct FermiEstimation {
    pub problem: String,
    pub solution: String,
}

/// The mathematical value of a `FermiEstimation`.
pub struct Estimation {
    pub problem: Seq<char>,
    pub solution: Seq<char>,
}

impl View for FermiEstimation {
    type V = Estimation;

    open spec fn view(&self) -> Estimation {
        Estimation { problem: self.problem@, solution: self.solution@ }
    }
}

impl Estimation {
    /// Both halves are trimmed and neither is empty.
    pub open spec fn well_formed(self) -> bool {
        &&& self.problem.len() > 0
        &&& self.solution.len() > 0
        &&& trim(self.problem) == self.problem
        &&& trim(self.solution) == self.solution
    }
}

/// The failure of a text that does not split into two parts but into `n`.
pub open spec fn wrong_part_count(n: nat) -> Failure {
    Failure { kind: ErrorKind::ParseError, detail: "expected 2 parts, found "@ + decimal(n) }
}

/// The failure of a text in which a part does not open with its marker.
pub open spec fn missing_marker() -> Failure {
    Failure { kind: ErrorKind::ParseError, detail: "missing expected marker(s)"@ }
}

/// The failure of a text in which nothing follows a marker.
pub open spec fn empty_half() -> Failure {
    Failure { kind: ErrorKind::ParseError, detail: "parsed problem or solution empty"@ }
}

/// What a generated text holds: split on the separator into exactly two
/// parts, each trimmed and opening with its marker, the marker taken off and
/// the rest trimmed again and not empty.
pub open spec fn parse(raw: Seq<char>) -> Result<Estimation, Failure> {
    let parts = split(raw, separator());
    if parts.len() != 2 {
        Err(wrong_part_count(parts.len()))
    } else {
        let first = trim(parts[0]);
        let second = trim(parts[1]);
        if !has_prefix(first, problem_marker()) || !has_prefix(second, solution_marker()) {
            Err(missing_marker())
        } else {
            let problem = trim(first.skip(problem_marker().len() as int));
            let solution = trim(second.skip(solution_marker().len() as int));
            if problem.len() == 0 || solution.len() == 0 {
                Err(empty_half())
            } else {
                Ok(Estimation { problem, solution })
            }
        }
    }
}

/// The value of a result of parsing.
pub open spec fn parsed(r: AppResult<FermiEstimation>) -> Result<Estimation, Failure> {
    match r {
        Ok(e) => Ok(e@),
        Err(e) => Err(e@),
    }
}

/// Reads a generated text as a problem and a solution.
pub fn parse_estimation(raw: &str) -> (r: AppResult<FermiEstimation>)
    ensures
        parsed(r) == parse(raw@),
        r matches Ok(e) ==> e@.well_formed(),
        split(raw@, separator()).len() != 2 ==> r is Err && r->Err_0@ == wrong_part_count(
            split(raw@, separator()).len(),
        ),
{
    let chars = chars_of(raw);
    let sep = chars_of(SEPARATOR_MARKER);
    let problem_mark = chars_of(PROBLEM_MARKER);
    let solution_mark = chars_of(SOLUTION_MARKER);
    proof {
        reveal_strlit("---SOLUTION_SEPARATOR---");
        reveal_strlit("**Problem:**");
        reveal_strlit("**Solution:**");
    }
    let ranges = split_ranges(&chars, &sep);
    let ghost parts = split(raw@, separator());
    assert(parts.len() == ranges.len());
    if ranges.len() != 2 {
        let detail = "expected 2 parts, found ".to_owned().concat(
            decimal_string(ranges.len()).as_str(),
        );
        return Err(AppError::ParseError(detail));
    }
    let (lo0, hi0) = ranges[0];
    let (lo1, hi1) = ranges[1];
    assert(parts[0] == chars@.subrange(lo0 as int, hi0 as int)) by {
        assert(pieces(chars@, ranges@)[0] == parts[0]);
    }
    assert(parts[1] == chars@.subrange(lo1 as int, hi1 as int)) by {
        assert(pieces(chars@, ranges@)[1] == parts[1]);
    }
    let (a0, b0) = trim_range(&chars, lo0, hi0);
    let (a1, b1) = trim_range(&chars, lo1, hi1);
    if !range_has_prefix(&chars, a0, b0, &problem_mark) || !range_has_prefix(
        &chars,
        a1,
        b1,
        &solution_mark,
    ) {
        return Err(AppError::ParseError("missing expected marker(s)".to_owned()));
    }
    let p0: usize = a0 + problem_mark.len();
    let s0: usize = a1 + solution_mark.len();
    assert(chars@.subrange(a0 as int, b0 as int).skip(problem_mark.len() as int) =~= chars@.subrange(
        p0 as int,
        b0 as int,
    ));
    assert(chars@.subrange(a1 as int, b1 as int).skip(solution_mark.len() as int)
        =~= chars@.subrange(s0 as int, b1 as int));
    let (c0, d0) = trim_range(&chars, p0, b0);
    let (c1, d1) = trim_range(&chars, s0, b1);
    if c0 == d0 || c1 == d1 {
        return Err(AppError::ParseError("parsed problem or solution empty".to_owned()));
    }
    proof {
        lemma_trim_idempotent(chars@.subrange(p0 as int, b0 as int));
        lemma_trim_idempotent(chars@.subrange(s0 as int, b1 as int));
    }
    Ok(FermiEstimation { problem: slice(raw, c0, d0), solution: slice(raw, c1, d1) })
}

/// The text that opens with the problem marker and `p`, goes on with the
/// separator, and ends with the solution marker and `s`.
pub open spec fn composed(p: Seq<char>, s: Seq<char>) -> Seq<char> {
    problem_marker() + p + separator() + solution_marker() + s
}

/// Whether the separator occurs in `composed(p, s)` only where it was put.
pub open spec fn separated_once(p: Seq<char>, s: Seq<char>) -> bool {
    forall|i: int|
        occurs_at(composed(p, s), separator(), i) ==> i == problem_marker().len() + p.len()
}

/// Behind a marker that opens with a character that is not whitespace, a
/// text that is not blank keeps the marker when trimmed, and what follows the
/// marker trims to what the text alone trims to.
proof fn lemma_marked_half(marker: Seq<char>, t: Seq<char>)
    requires
        marker.len() > 0,
        !whitespace(marker[0]),
        trim(t).len() > 0,
    ensures
        has_prefix(trim(marker + t), marker),
        trim(trim(marker + t).skip(marker.len() as int)) == trim(t),
{
    let (a, b) = lemma_trim_bounds(t);
    let whole = marker + t;
    let n = marker.len() as int;
    assert(whole.take(0) =~= Seq::<char>::empty());
    assert(whole.skip(n + b) =~= t.skip(b));
    lemma_trim_is(whole, 0, n + b);
    let kept = whole.subrange(0, n + b);
    assert(kept.take(n) =~= marker);
    assert(kept.skip(n) =~= t.take(b));
    assert(t.take(b).take(a) =~= t.take(a));
    assert(t.take(b).skip(b) =~= Seq::<char>::empty());
    lemma_trim_is(t.take(b), a, b);
    assert(t.take(b).subrange(a, b) =~= t.subrange(a, b));
}

/// A composed text in which the separator occurs only where it was put, and
/// in which neither `p` nor `s` is blank, parses to `p` and `s`, trimmed.
pub proof fn law_round_trip(p: Seq<char>, s: Seq<char>)
    requires
        trim(p).len() > 0,
        trim(s).len() > 0,
        separated_once(p, s),
    ensures
        parse(composed(p, s)) == Ok::<Estimation, Failure>(
            Estimation { problem: trim(p), solution: trim(s) },
        ),
{
    reveal_strlit("---SOLUTION_SEPARATOR---");
    reveal_strlit("**Problem:**");
    reveal_strlit("**Solution:**");
    let first = problem_marker() + p;
    let second = solution_marker() + s;
    assert(composed(p, s) =~= first + separator() + second);
    lemma_split_once(first, second, separator());
    lemma_marked_half(problem_marker(), p);
    lemma_marked_half(solution_marker(), s);
}

/// Whether `s` holds no hyphen.
pub open spec fn no_hyphen(s: Seq<char>) -> bool {
    forall|i: int| 0 <= i < s.len() ==> #[trigger] s[i] != '-'
}

/// In a composed text the hyphens of the separator are the only ones, where
/// the halves hold none.
proof fn lemma_hyphen_in_separator(p: Seq<char>, s: Seq<char>, j: int)
    requires
        no_hyphen(p),
        no_hyphen(s),
        0 <= j < composed(p, s).len(),
        composed(p, s)[j] == '-',
    ensures
        problem_marker().len() + p.len() <= j < problem_marker().len() + p.len()
            + separator().len(),
{
    reveal_strlit("---SOLUTION_SEPARATOR---");
    reveal_strlit("**Problem:**");
    reveal_strlit("**Solution:**");
    let k = problem_marker().len() + p.len();
    if j < problem_marker().len() {
        assert(composed(p, s)[j] == problem_marker()[j]);
    } else if j < k {
        assert(composed(p, s)[j] == p[j - problem_marker().len()]);
    } else if j < k + separator().len() {
    } else if j < k + separator().len() + solution_marker().len() {
        assert(composed(p, s)[j] == solution_marker()[j - k - separator().len()]);
    } else {
        assert(composed(p, s)[j] == s[j - k - separator().len() - solution_marker().len()]);
    }
}

/// In a composed text whose halves hold no hyphen, the separator occurs
/// only where it was put.
pub proof fn lemma_separated_without_hyphen(p: Seq<char>, s: Seq<char>)
    requires
        no_hyphen(p),
        no_hyphen(s),
    ensures
        separated_once(p, s),
{
    reveal_strlit("---SOLUTION_SEPARATOR---");
    let text = composed(p, s);
    let k = problem_marker().len() + p.len();
    assert forall|i: int| occurs_at(text, separator(), i) implies i == k by {
        let found = text.subrange(i, i + separator().len());
        assert(found[0] == '-');
        assert(found[23] == '-');
        lemma_hyphen_in_separator(p, s, i);
        lemma_hyphen_in_separator(p, s, i + 23);
    }
}

/// A text in which the separator does not occur is refused as one part.
pub proof fn law_no_separator(raw: Seq<char>)
    requires
        forall|i: int| !occurs_at(raw, separator(), i),
    ensures
        parse(raw) == Err::<Estimation, Failure>(wrong_part_count(1)),
{
    reveal_strlit("---SOLUTION_SEPARATOR---");
    lemma_first_occurrence_from(raw, separator(), 0);
    lemma_split_len(raw, separator());
}

/// A text in which the separator occurs twice without overlap is refused
/// for its number of parts, which is three or more.
pub proof fn law_many_separators(raw: Seq<char>, i: int, j: int)
    requires
        occurs_at(raw, separator(), i),
        occurs_at(raw, separator(), j),
        i + separator().len() <= j,
    ensures
        split(raw, separator()).len() >= 3,
        parse(raw) == Err::<Estimation, Failure>(
            wrong_part_count(split(raw, separator()).len()),
        ),
{
    reveal_strlit("---SOLUTION_SEPARATOR---");
    lemma_split_twice(raw, separator(), i, j);
}

/// A text of two parts is refused where, trimmed, the first does not open
/// with the problem marker or the second does not open with the solution
/// marker, whatever else the parts hold.
pub proof fn law_marker_required(a: Seq<char>, b: Seq<char>)
    requires
        forall|i: int| occurs_at(a + separator() + b, separator(), i) ==> i == a.len(),
        !has_prefix(trim(a), problem_marker()) || !has_prefix(trim(b), solution_marker()),
    ensures
        parse(a + separator() + b) == Err::<Estimation, Failure>(missing_marker()),
{
    reveal_strlit("---SOLUTION_SEPARATOR---");
    lemma_split_once(a, b, separator());
}

/// A text of two parts that open with their markers is refused where
/// nothing but whitespace follows one of the markers.
pub proof fn law_marker_alone(a: Seq<char>, b: Seq<char>)
    requires
        forall|i: int| occurs_at(a + separator() + b, separator(), i) ==> i == a.len(),
        has_prefix(trim(a), problem_marker()),
        has_prefix(trim(b), solution_marker()),
        blank(trim(a).skip(problem_marker().len() as int)) || blank(
            trim(b).skip(solution_marker().len() as int),
        ),
    ensures
        parse(a + separator() + b) == Err::<Estimation, Failure>(empty_half()),
{
    reveal_strlit("---SOLUTION_SEPARATOR---");
    lemma_split_once(a, b, separator());
    lemma_blank_trims_empty(trim(a).skip(problem_marker().len() as int));
    lemma_blank_trims_empty(trim(b).skip(solution_marker().len() as int));
}

/// One piece of text in what is asked.
#[derive(Debug, Clone, PartialEq, Eq)]
pub struct Part {
    pub text: String,
}

/// A message made of pieces of text.
#[derive(Debug, Clone, PartialEq, Eq)]
pub struct Content {
    pub parts: Vec<Part>,
}

/// How the service is to generate.
#[derive(Debug, Clone, Copy, PartialEq, Eq)]
pub struct GenerationConfig {
    /// The most that the service may write, in tokens.
    pub max_output_tokens: u32,
    /// The sampling temperature in tenths.
    pub temperature_tenths: u32,
}

/// What is asked of the generation service.
#[derive(Debug, Clone, PartialEq, Eq)]
pub struct GeminiRequest {
    pub contents: Vec<Content>,
    pub generation_config: GenerationConfig,
}

/// The mathematical value of a `GeminiRequest`: the texts of its messages,
/// piece by piece, and the two settings.
pub struct Asked {
    pub contents: Seq<Seq<Seq<char>>>,
    pub max_output_tokens: u32,
    pub temperature_tenths: u32,
}

impl View for Part {
    type V = Seq<char>;

    open spec fn view(&self) -> Seq<char> {
        self.text@
    }
}

impl View for Content {
    type V = Seq<Seq<char>>;

    open spec fn view(&self) -> Seq<Seq<char>> {
        self.parts@.map_values(|p: Part| p@)
    }
}

impl View for GeminiRequest {
    type V = Asked;

    open spec fn view(&self) -> Asked {
        Asked {
            contents: self.contents@.map_values(|c: Content| c@),
            max_output_tokens: self.generation_config.max_output_tokens,
            temperature_tenths: self.generation_config.temperature_tenths,
        }
    }
}

/// One piece of text in an answer.
#[derive(Debug, Clone, PartialEq, Eq)]
pub struct ResponsePart {
    pub text: String,
}

/// The pieces of text of one candidate.
#[derive(Debug, Clone, PartialEq, Eq)]
pub struct ResponseContent {
    pub parts: Vec<ResponsePart>,
}

/// One answer that the service proposes.
#[derive(Debug, Clone, PartialEq, Eq)]
pub struct Candidate {
    pub content: ResponseContent,
}

/// What the generation service answers.
#[derive(Debug, Clone, PartialEq, Eq)]
pub struct GeminiResponse {
    pub candidates: Vec<Candidate>,
}

impl View for ResponsePart {
    type V = Seq<char>;

    open spec fn view(&self) -> Seq<char> {
        self.text@
    }
}

impl View for Candidate {
    type V = Seq<Seq<char>>;

    open spec fn view(&self) -> Seq<Seq<char>> {
        self.content.parts@.map_values(|p: ResponsePart| p@)
    }
}

impl View for GeminiResponse {
    type V = Seq<Seq<Seq<char>>>;

    open spec fn view(&self) -> Seq<Seq<Seq<char>>> {
        self.candidates@.map_values(|c: Candidate| c@)
    }
}

/// The instruction sent to the generation service. It names the two markers
/// and the separator by which the answer is read.
pub open spec fn prompt() -> Seq<char> {
    "Generate a unique and interesting Fermi estimation problem suitable for a quick mental challenge. Ensure it's a different type of problem than common examples like piano tuners or jellybeans. Provide the problem statement clearly, starting exactly with \""@
        + problem_marker() + "\". Then, insert a line containing only \""@ + separator()
        + "\". Finally, provide a brief, step-by-step estimation outlining the assumptions and calculation, and state the final approximate answer, starting exactly with \""@
        + solution_marker() + "\". Do not include any text before the "@ + problem_marker()
        + " or after the solution ends."@
}

/// The instruction sent to the generation service.
pub fn create_prompt() -> (r: String)
    ensures
        r@ == prompt(),
{
    let mut text =
        "Generate a unique and interesting Fermi estimation problem suitable for a quick mental challenge. Ensure it's a different type of problem than common examples like piano tuners or jellybeans. Provide the problem statement clearly, starting exactly with \"".to_owned();
    text.append(PROBLEM_MARKER);
    text.append("\". Then, insert a line containing only \"");
    text.append(SEPARATOR_MARKER);
    text.append(
        "\". Finally, provide a brief, step-by-step estimation outlining the assumptions and calculation, and state the final approximate answer, starting exactly with \"",
    );
    text.append(SOLUTION_MARKER);
    text.append("\". Do not include any text before the ");
    text.append(PROBLEM_MARKER);
    text.append(" or after the solution ends.");
    text
}

/// What is asked: one message of one piece, the prompt, with the fixed
/// limit on the output and the fixed temperature.
pub open spec fn asked() -> Asked {
    Asked {
        contents: seq![seq![prompt()]],
        max_output_tokens: MAX_OUTPUT_TOKENS,
        temperature_tenths: TEMPERATURE_TENTHS,
    }
}

/// What is asked of the generation service.
pub fn create_request() -> (r: GeminiRequest)
    ensures
        r@ == asked(),
{
    let mut parts: Vec<Part> = Vec::new();
    parts.push(Part { text: create_prompt() });
    let mut contents: Vec<Content> = Vec::new();
    let content = Content { parts };
    assert(content@ =~= seq![prompt()]);
    contents.push(content);
    let r = GeminiRequest {
        contents,
        generation_config: GenerationConfig {
            max_output_tokens: MAX_OUTPUT_TOKENS,
            temperature_tenths: TEMPERATURE_TENTHS,
        },
    };
    assert(r@.contents =~= seq![seq![prompt()]]);
    r
}

/// The address to which a request goes: that of the service, with the
/// credential `key` as a query parameter.
pub open spec fn request_address(key: Seq<char>) -> Seq<char> {
    GEMINI_API_URL@ + "?key="@ + key
}

/// The address to which a request goes.
pub fn request_url(config: &Config) -> (r: String)
    ensures
        r@ == request_address(config@.gemini_api_key),
{
    let mut url = GEMINI_API_URL.to_owned();
    url.append("?key=");
    url.append(config.gemini_api_key.as_str());
    url
}

/// The failure of a request that the service answered with the status
/// numbered `code` and with `body`.
pub open spec fn request_refused(code: u16, body: Option<Seq<char>>) -> Failure {
    Failure {
        kind: ErrorKind::GeminiApi,
        detail: refusal("API request failed with status "@, status_display(code), body),
    }
}

/// The failure of a request that the service answered without success.
pub fn request_failure(status: &HttpStatus, body: &Option<String>) -> (e: AppError)
    ensures
        e@ == request_refused(status.code(), body_read(*body)),
{
    let described = status.describe();
    AppError::GeminiApi(refusal_text("API request failed with status ", described.as_str(), body))
}

/// The failure of an answer that holds no text.
pub open spec fn no_text() -> Failure {
    Failure { kind: ErrorKind::GeminiApi, detail: "no text content in response"@ }
}

/// The first piece of text of the first candidate, where there is one.
pub open spec fn first_text(response: Seq<Seq<Seq<char>>>) -> Option<Seq<char>> {
    if response.len() > 0 && response[0].len() > 0 {
        Some(response[0][0])
    } else {
        None
    }
}

/// What an answer holds: its first text, trimmed and parsed.
pub open spec fn generated(response: Seq<Seq<Seq<char>>>) -> Result<Estimation, Failure> {
    match first_text(response) {
        Some(text) => parse(trim(text)),
        None => Err(no_text()),
    }
}

/// Reads the answer of the generation service as a problem and a solution.
pub fn generate_fermi_problem_and_solution(response: &GeminiResponse) -> (r: AppResult<
    FermiEstimation,
>)
    ensures
        parsed(r) == generated(response@),
        r matches Ok(e) ==> e@.well_formed(),
        first_text(response@) is None ==> r is Err && r->Err_0@ == no_text(),
{
    if response.candidates.len() == 0 {
        return Err(AppError::GeminiApi("no text content in response".to_owned()));
    }
    let candidate = &response.candidates[0];
    if candidate.content.parts.len() == 0 {
        return Err(AppError::GeminiApi("no text content in response".to_owned()));
    }
    let text = trimmed(candidate.content.parts[0].text.as_str());
    parse_estimation(text.as_str())
}

} // verus!
