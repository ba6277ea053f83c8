//! How the library asks for work that it cannot do itself.
//!
//! A function that needs a program run, or a file looked for, takes the
//! replies it has had so far and returns a [`Step`]: either the next
//! [`Request`], or the end of the matter. The caller carries out each request,
//! adds the [`Reply`] to the list and calls again.

use crate::error::ErrorView;
use crate::error::ExtractorError;
use vstd::prelude::*;
use vstd::string::StringExecFns;

verus! {

/// Work for the caller.
#[derive(Debug, PartialEq, Eq)]
pub enum Request {
    /// Print these lines.
    Print(Vec<String>),
    /// Say whether this file exists, seen from the working directory.
    Probe(String),
    /// Run a program of the target system with these arguments, without
    /// input, and collect what it writes to its standard output.
    Run { program: String, args: Vec<String> },
}

/// What came of a [`Request`].
#[derive(Debug, PartialEq, Eq)]
pub enum Reply {
    /// The lines were printed.
    Printed,
    /// The file exists.
    Present,
    /// The file does not exist; the field names the working directory.
    Missing(String),
    /// The program ran and wrote this.
    Output(String),
    /// The program could not be started, or what it wrote is not text; the
    /// field says why.
    Failed(String),
}

/// What happens next.
#[derive(Debug, PartialEq, Eq)]
pub enum Step<T> {
    /// The caller is asked for something.
    Ask(Request),
    /// Nothing more is needed.
    Done(Result<T, ExtractorError>),
}

/// A [`Request`] with every text as its characters.
pub enum RequestView {
    Print(Seq<Seq<char>>),
    Probe(Seq<char>),
    Run { program: Seq<char>, args: Seq<Seq<char>> },
}

/// A [`Reply`] with every text as its characters.
pub enum ReplyView {
    Printed,
    Present,
    Missing(Seq<char>),
    Output(Seq<char>),
    Failed(Seq<char>),
}

/// A [`Step`] by the views of what it holds.
pub enum StepView<V> {
    Ask(RequestView),
    Done(Result<V, ErrorView>),
}

/// The texts of a list, each as its characters.
pub open spec fn texts(list: Seq<String>) -> Seq<Seq<char>> {
    Seq::new(list.len(), |i: int| list[i]@)
}

impl View for Request {
    type V = RequestView;

    open spec fn view(&self) -> RequestView {
        match *self {
            Request::Print(lines) => RequestView::Print(texts(lines@)),
            Request::Probe(file) => RequestView::Probe(file@),
            Request::Run { program, args } => RequestView::Run {
                program: program@,
                args: texts(args@),
            },
        }
    }
}

impl View for Reply {
    type V = ReplyView;

    open spec fn view(&self) -> ReplyView {
        match *self {
            Reply::Printed => ReplyView::Printed,
            Reply::Present => ReplyView::Present,
            Reply::Missing(dir) => ReplyView::Missing(dir@),
            Reply::Output(text) => ReplyView::Output(text@),
            Reply::Failed(reason) => ReplyView::Failed(reason@),
        }
    }
}

impl<T: View> View for Step<T> {
    type V = StepView<T::V>;

    open spec fn view(&self) -> StepView<T::V> {
        match *self {
            Step::Ask(request) => StepView::Ask(request@),
            Step::Done(Ok(value)) => StepView::Done(Ok(value@)),
            Step::Done(Err(e)) => StepView::Done(Err(e@)),
        }
    }
}

/// The replies of a list, each by its view.
pub open spec fn replies_view(replies: Seq<Reply>) -> Seq<ReplyView> {
    Seq::new(replies.len(), |i: int| replies[i]@)
}

/// What is said of a reply that does not answer the request before it.
pub const UNEXPECTED_REPLY: &'static str = "a reply does not answer the request that was made";

/// The text of the reply at `index`, where it is an output.
pub open spec fn output_at(replies: Seq<ReplyView>, index: int) -> Option<Seq<char>> {
    if 0 <= index < replies.len() {
        match replies[index] {
            ReplyView::Output(text) => Some(text),
            _ => None,
        }
    } else {
        None
    }
}

/// Why a reply to the request to run a program gives no output: the program
/// could not be run, or the reply is of another kind. `None` for an output.
pub open spec fn reply_failure(reply: ReplyView) -> Option<ErrorView> {
    match reply {
        ReplyView::Output(_) => None,
        ReplyView::Failed(reason) => Some(ErrorView::HelperExecutionFailed(reason)),
        _ => Some(ErrorView::AssertionFailed(UNEXPECTED_REPLY@)),
    }
}

/// The end of an exchange in which a reply does not answer the request
/// before it.
pub fn unexpected_reply<T>() -> (step: Step<T>)
    ensures
        step matches Step::Done(Err(e)) && e@ == ErrorView::AssertionFailed(UNEXPECTED_REPLY@),
{
    Step::Done(Err(ExtractorError::assertion_failed(String::from_str(UNEXPECTED_REPLY))))
}

/// The end of an exchange in which a program could not be run.
pub fn command_failed<T>(reason: &String) -> (step: Step<T>)
    ensures
        step matches Step::Done(Err(e)) && e@ == ErrorView::HelperExecutionFailed(reason@),
{
    Step::Done(Err(ExtractorError::HelperExecutionFailed(reason.clone())))
}

/// The request to run `program` with `args`.
pub fn ask_run<T>(program: &str, args: Vec<String>) -> (step: Step<T>)
    ensures
        step matches Step::Ask(request) && request@ == (RequestView::Run {
            program: program@,
            args: texts(args@),
        }),
{
    Step::Ask(Request::Run { program: String::from_str(program), args })
}

} // verus!
