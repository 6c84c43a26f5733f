//! Six-character attendance codes and the bounded retry rule for issuing
//! one that no stored event or meeting already uses.
use vstd::prelude::*;
use rand::distributions::DistString;

verus! {

/// Number of characters in an attendance code.
pub const CODE_LEN: usize = 6;

/// Candidates drawn before issuance gives up.
pub const MAX_CODE_ATTEMPTS: u32 = 64;

pub open spec fn is_ascii_upper(c: char) -> bool {
    'A' as u32 <= c as u32 <= 'Z' as u32
}

pub open spec fn is_ascii_lower(c: char) -> bool {
    'a' as u32 <= c as u32 <= 'z' as u32
}

pub open spec fn is_ascii_digit(c: char) -> bool {
    '0' as u32 <= c as u32 <= '9' as u32
}

/// A character of the alphabet that codes are drawn from, before folding.
pub open spec fn is_ascii_alnum(c: char) -> bool {
    is_ascii_upper(c) || is_ascii_lower(c) || is_ascii_digit(c)
}

/// A character that may stand in an attendance code.
pub open spec fn is_code_char(c: char) -> bool {
    is_ascii_lower(c) || is_ascii_digit(c)
}

/// `d` is `c` folded to ASCII lower case.
pub open spec fn ascii_folds_to(c: char, d: char) -> bool {
    if is_ascii_upper(c) {
        d as u32 == c as u32 + 32
    } else {
        d == c
    }
}

/// Exactly `CODE_LEN` lowercase letters and digits.
pub open spec fn is_valid_code(s: Seq<char>) -> bool {
    &&& s.len() == CODE_LEN
    &&& forall|i: int| 0 <= i < s.len() ==> is_code_char(#[trigger] s[i])
}

/// Relies on rand's Alphanumeric::sample_string over thread_rng: `len`
/// characters, each drawn from A-Z, a-z and 0-9.
#[verifier::external_body]
fn sample_alphanumeric(len: usize) -> (r: String)
    ensures
        r@.len() == len,
        forall|i: int| 0 <= i < len ==> is_ascii_alnum(#[trigger] r@[i]),
{
    rand::distributions::Alphanumeric.sample_string(&mut rand::thread_rng(), len)
}

/// Relies on str::to_ascii_lowercase: 'A'..='Z' become 'a'..='z', every
/// other character is kept.
#[verifier::external_body]
fn ascii_lowercase(s: &str) -> (r: String)
    ensures
        r@.len() == s@.len(),
        forall|i: int| 0 <= i < s@.len() ==> ascii_folds_to(s@[i], #[trigger] r@[i]),
{
    s.to_ascii_lowercase()
}

/// The attendance code made from a draw of `CODE_LEN` alphanumeric
/// characters: the same characters in order, capitals folded to lower case.
pub fn code_from_draw(raw: &str) -> (r: String)
    requires
        raw@.len() == CODE_LEN,
        forall|i: int| 0 <= i < raw@.len() ==> is_ascii_alnum(#[trigger] raw@[i]),
    ensures
        r@.len() == raw@.len(),
        forall|i: int| 0 <= i < raw@.len() ==> ascii_folds_to(raw@[i], #[trigger] r@[i]),
        is_valid_code(r@),
{
    let r = ascii_lowercase(raw);
    assert forall|i: int| 0 <= i < r@.len() implies is_code_char(#[trigger] r@[i]) by {
        assert(is_ascii_alnum(raw@[i]));
        assert(ascii_folds_to(raw@[i], r@[i]));
    }
    r
}

/// Draws a random attendance code.
pub fn gen_code() -> (r: String)
    ensures
        is_valid_code(r@),
{
    let raw = sample_alphanumeric(CODE_LEN);
    code_from_draw(raw.as_str())
}

/// Issuance gave up after `MAX_CODE_ATTEMPTS` candidates that were all taken.
#[derive(Debug, Clone, Copy, PartialEq, Eq, Structural)]
pub enum IssueError {
    ExhaustedRetries,
}

/// What the caller does after a candidate has been looked up.
#[derive(Debug)]
pub enum IssueStep {
    /// Hand out this code: the lookup found no record holding it.
    Issue(String),
    /// Draw a new candidate and look it up.
    Retry,
    /// Stop: every allowed candidate was taken.
    Exhausted,
}

impl IssueStep {
    /// The outcome of issuance once this step is final, if it is.
    pub fn outcome(self) -> (r: Option<Result<String, IssueError>>)
        ensures
            self is Retry <==> r is None,
            self is Exhausted <==> r == Some(Err::<String, IssueError>(IssueError::ExhaustedRetries)),
            forall|c: String| self == IssueStep::Issue(c) <==> r == Some(Ok::<String, IssueError>(c)),
    {
        match self {
            IssueStep::Issue(c) => Some(Ok(c)),
            IssueStep::Retry => None,
            IssueStep::Exhausted => Some(Err(IssueError::ExhaustedRetries)),
        }
    }
}

/// The retry rule for issuing a unique code: one candidate per attempt, at
/// most `MAX_CODE_ATTEMPTS` attempts.
pub struct CodeIssuer {
    attempts: u32,
}

impl CodeIssuer {
    pub closed spec fn spec_attempts(&self) -> nat {
        self.attempts as nat
    }

    /// Attempts are never counted past the limit.
    pub open spec fn wf(&self) -> bool {
        self.spec_attempts() <= MAX_CODE_ATTEMPTS
    }

    /// Whether the issuer may still look up another candidate.
    pub open spec fn spec_can_try(&self) -> bool {
        self.spec_attempts() < MAX_CODE_ATTEMPTS
    }

    pub fn new() -> (r: CodeIssuer)
        ensures
            r.wf(),
            r.spec_attempts() == 0,
    {
        CodeIssuer { attempts: 0 }
    }

    /// Candidates looked up so far.
    pub fn attempts(&self) -> (r: u32)
        ensures
            r == self.spec_attempts(),
    {
        self.attempts
    }

    pub fn can_try(&self) -> (r: bool)
        ensures
            r == self.spec_can_try(),
    {
        self.attempts < MAX_CODE_ATTEMPTS
    }

    /// Records the lookup of `candidate`; `taken` tells whether an event or a
    /// meeting already holds it. An untaken candidate is issued as it is; a
    /// taken one asks for a retry until the attempts run out.
    pub fn on_lookup(&mut self, candidate: String, taken: bool) -> (r: IssueStep)
        requires
            old(self).wf(),
            old(self).spec_can_try(),
        ensures
            final(self).wf(),
            final(self).spec_attempts() == old(self).spec_attempts() + 1,
            r is Issue <==> !taken,
            r matches IssueStep::Issue(c) ==> c@ == candidate@,
            r is Retry <==> taken && final(self).spec_can_try(),
            r is Exhausted <==> taken && !final(self).spec_can_try(),
    {
        self.attempts = self.attempts + 1;
        if !taken {
            IssueStep::Issue(candidate)
        } else if self.attempts < MAX_CODE_ATTEMPTS {
            IssueStep::Retry
        } else {
            IssueStep::Exhausted
        }
    }
}

} // verus!
