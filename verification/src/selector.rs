//! Validation of candidate session names at the interactive prompt.
//!
//! The application displays the live sessions, reads one line at a time,
//! and hands each line to [`selector_step`]; an invalid line means
//! re-prompt, a valid one becomes the [`LaunchRequest`] for the launch
//! stage. Only a validated request can reach that stage, since
//! [`LaunchRequest`] has no other constructor.
use vstd::prelude::*;

use crate::LaunchError;

verus! {

/// The Unicode white-space characters.
pub open spec fn is_whitespace_char(c: char) -> bool {
    c == '\u{0009}' || c == '\u{000A}' || c == '\u{000B}' || c == '\u{000C}' || c == '\u{000D}'
        || c == '\u{0020}' || c == '\u{0085}' || c == '\u{00A0}' || c == '\u{1680}' || (
    '\u{2000}' <= c && c <= '\u{200A}') || c == '\u{2028}' || c == '\u{2029}' || c == '\u{202F}'
        || c == '\u{205F}' || c == '\u{3000}'
}

/// Decides whether one character is white space.
pub fn char_is_whitespace(c: char) -> (r: bool)
    ensures
        r == is_whitespace_char(c),
{
    c == '\u{0009}' || c == '\u{000A}' || c == '\u{000B}' || c == '\u{000C}' || c == '\u{000D}'
        || c == '\u{0020}' || c == '\u{0085}' || c == '\u{00A0}' || c == '\u{1680}' || (
    '\u{2000}' <= c && c <= '\u{200A}') || c == '\u{2028}' || c == '\u{2029}' || c == '\u{202F}'
        || c == '\u{205F}' || c == '\u{3000}'
}

/// A valid session name is non-empty and contains no white-space character.
pub open spec fn valid_session_name(s: Seq<char>) -> bool {
    s.len() > 0 && forall|i: int| 0 <= i < s.len() ==> !is_whitespace_char(s[i])
}

/// Decides whether a candidate session name is valid: non-empty and free of
/// white space.
pub fn validate_session_name(name: &str) -> (r: bool)
    ensures
        r == valid_session_name(name@),
{
    let n = name.unicode_len();
    if n == 0 {
        return false;
    }
    let mut i: usize = 0;
    while i < n
        invariant
            n == name@.len(),
            i <= n,
            forall|j: int| 0 <= j < i ==> !is_whitespace_char(name@[j]),
        decreases n - i,
    {
        if char_is_whitespace(name.get_char(i)) {
            return false;
        }
        i = i + 1;
    }
    true
}

/// A session name that passed validation: non-empty, free of white space.
/// This is the only form in which a name reaches the launch stage.
pub struct LaunchRequest {
    name: String,
}

impl View for LaunchRequest {
    type V = Seq<char>;

    closed spec fn view(&self) -> Seq<char> {
        self.name@
    }
}

impl LaunchRequest {
    /// Every request holds a valid session name; the constructor
    /// establishes this and nothing can unmake it.
    pub closed spec fn wf(&self) -> bool {
        valid_session_name(self.name@)
    }

    /// Validates a candidate name into a launch request, or rejects an
    /// empty or white-space-containing one.
    pub fn new(name: String) -> (r: Result<LaunchRequest, LaunchError>)
        ensures
            r is Ok <==> valid_session_name(name@),
            r is Ok ==> r->Ok_0@ == name@ && r->Ok_0.wf(),
            r is Err ==> r == Err::<LaunchRequest, LaunchError>(LaunchError::InvalidInput),
    {
        if validate_session_name(name.as_str()) {
            Ok(LaunchRequest { name })
        } else {
            Err(LaunchError::InvalidInput)
        }
    }

    /// The validated session name.
    pub fn name(&self) -> (r: &String)
        ensures
            r@ == self@,
    {
        &self.name
    }

    /// A launch request's name is always valid.
    pub proof fn lemma_wf(&self)
        requires
            self.wf(),
        ensures
            valid_session_name(self@),
    {
    }
}

/// One round of the interactive selection loop.
///
/// The first input line that is non-empty and free of white space is
/// accepted verbatim as the chosen or new session name; any other line is
/// rejected as invalid input, upon which the loop re-prompts. No existence
/// check happens here: name collision or creation is resolved downstream.
pub fn selector_step(input: String) -> (r: Result<LaunchRequest, LaunchError>)
    ensures
        r is Ok <==> valid_session_name(input@),
        r is Ok ==> r->Ok_0@ == input@ && r->Ok_0.wf(),
        r is Err ==> r == Err::<LaunchRequest, LaunchError>(LaunchError::InvalidInput),
{
    LaunchRequest::new(input)
}

} // verus!
