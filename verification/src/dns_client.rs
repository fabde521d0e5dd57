//! The rule that a query carries exactly one question.

use crate::text::{decimal, decimal_of};
use vstd::prelude::*;
use vstd::string::*;

verus! {

/// A question section that does not hold exactly one question; `len` is the
/// number of questions that it holds.
#[derive(Debug, Clone, Copy, PartialEq, Eq, Structural)]
pub struct ArraySizeError {
    pub len: usize,
}

impl ArraySizeError {
    pub fn new(len: usize) -> (r: ArraySizeError)
        ensures
            r.len == len,
    {
        ArraySizeError { len: len }
    }

    /// The text shown for this error: `wrong size for array: <len>`, the
    /// length in decimal notation.
    pub fn message(&self) -> (r: String)
        ensures
            r@ == "wrong size for array: "@ + decimal_of(self.len as nat),
    {
        String::from_str("wrong size for array: ").concat(decimal(self.len).as_str())
    }
}

/// One question of a DNS message: the name in its dotted form, and the
/// numbers of its type and class.
#[derive(Debug, Clone)]
pub struct ParsedQuestion {
    pub qname: String,
    pub qtype: u16,
    pub qclass: u16,
}

/// Mathematical model of [`ParsedQuestion`].
pub ghost struct QuestionShape {
    pub qname: Seq<char>,
    pub qtype: u16,
    pub qclass: u16,
}

impl View for ParsedQuestion {
    type V = QuestionShape;

    open spec fn view(&self) -> QuestionShape {
        QuestionShape { qname: self.qname@, qtype: self.qtype, qclass: self.qclass }
    }
}

impl ParsedQuestion {
    pub fn new(qname: String, qtype: u16, qclass: u16) -> (r: ParsedQuestion)
        ensures
            r@ == (QuestionShape { qname: qname@, qtype: qtype, qclass: qclass }),
    {
        ParsedQuestion { qname: qname, qtype: qtype, qclass: qclass }
    }
}

/// Why a query is not forwarded.
#[derive(Debug, Clone)]
pub enum QueryError {
    /// The bytes are not a DNS message whose question section can be read.
    Malformed,
    /// The question section does not hold exactly one question.
    QuestionCount(ArraySizeError),
}

/// The models of a list of questions, in order.
pub open spec fn shapes_of(questions: Seq<ParsedQuestion>) -> Seq<QuestionShape> {
    questions.map_values(|q: ParsedQuestion| q@)
}

/// The questions that `domain` reads from the question section of a DNS
/// message, or `None` where it cannot read the message.
pub uninterp spec fn parsed_questions(message: Seq<u8>) -> Option<Seq<QuestionShape>>;

/// Calls `domain::base::Message::from_octets` and collects the items of
/// `Message::question`. Trusted: the result is what `parsed_questions` names;
/// `None` comes where the message is too short for a header or where a
/// question cannot be read.
#[verifier::external_body]
fn read_questions(request: &[u8]) -> (r: Option<Vec<ParsedQuestion>>)
    ensures
        match r {
            Some(questions) => parsed_questions(request@) == Some(shapes_of(questions@)),
            None => parsed_questions(request@) is None,
        },
{
    let message = domain::base::Message::from_octets(request).ok()?;
    let questions = message.question().collect::<Result<Vec<_>, _>>().ok()?;
    Some(
        questions.iter().map(
            |q| ParsedQuestion::new(q.qname().to_string(), q.qtype().to_int(), q.qclass().to_int()),
        ).collect(),
    )
}

/// The one question of a question section, where it holds exactly one.
pub fn single_question(questions: Vec<ParsedQuestion>) -> (r: Result<
    ParsedQuestion,
    ArraySizeError,
>)
    ensures
        questions@.len() == 1 ==> r == Ok::<ParsedQuestion, ArraySizeError>(questions@[0]),
        questions@.len() != 1 ==> r == Err::<ParsedQuestion, ArraySizeError>(
            ArraySizeError { len: questions@.len() as usize },
        ),
{
    let n = questions.len();
    if n != 1 {
        return Err(ArraySizeError::new(n));
    }
    let mut rest = questions;
    match rest.pop() {
        Some(question) => Ok(question),
        None => vstd::pervasive::unreached(),
    }
}

/// What checking a query gives, from what was read of its question section.
pub open spec fn checked(read: Option<Seq<QuestionShape>>) -> Result<QuestionShape, QueryError> {
    match read {
        None => Err(QueryError::Malformed),
        Some(questions) => if questions.len() == 1 {
            Ok(questions[0])
        } else {
            Err(QueryError::QuestionCount(ArraySizeError { len: questions.len() as usize }))
        },
    }
}

/// Whether `r` is the outcome `expected` of checking a query.
pub open spec fn check_is(
    r: Result<ParsedQuestion, QueryError>,
    expected: Result<QuestionShape, QueryError>,
) -> bool {
    match expected {
        Ok(question) => r matches Ok(q) && q@ == question,
        Err(e) => r == Err::<ParsedQuestion, QueryError>(e),
    }
}

/// Checks what was read of a query's question section: the message must have
/// been readable, and must hold exactly one question.
pub fn check_questions(read: Option<Vec<ParsedQuestion>>) -> (r: Result<
    ParsedQuestion,
    QueryError,
>)
    ensures
        check_is(
            r,
            checked(
                match read {
                    Some(questions) => Some(shapes_of(questions@)),
                    None => None,
                },
            ),
        ),
{
    match read {
        None => Err(QueryError::Malformed),
        Some(questions) => {
            match single_question(questions) {
                Ok(question) => Ok(question),
                Err(e) => Err(QueryError::QuestionCount(e)),
            }
        },
    }
}

/// Reads the question section of a query and checks it: the question that
/// is to be forwarded, or why the query is not forwarded.
pub fn check_query(request: &[u8]) -> (r: Result<ParsedQuestion, QueryError>)
    ensures
        check_is(r, checked(parsed_questions(request@))),
{
    check_questions(read_questions(request))
}

} // verus!
