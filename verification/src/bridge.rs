//! The bridge to the git executable, without the spawning: which arguments
//! each request is run with, and how what the process left behind is read.

use vstd::prelude::*;
use vstd::utf8::{decode_utf8, valid_utf8};

verus! {

/// One run of git that the session can ask for.
#[derive(Debug, Clone, PartialEq, Eq)]
pub enum Request {
    /// The name of the current branch.
    Branch,
    /// The status report.
    Status,
    /// Stage a path.
    Stage(String),
    /// Take a path out of the index.
    Unstage(String),
    /// Throw away the worktree changes of a path.
    Discard(String),
    /// Commit the index with a message.
    Commit(String),
}

/// A request, as the contracts see it.
pub enum RequestView {
    Branch,
    Status,
    Stage(Seq<char>),
    Unstage(Seq<char>),
    Discard(Seq<char>),
    Commit(Seq<char>),
}

impl RequestView {
    /// The arguments that git is run with.
    pub open spec fn args(self) -> Seq<Seq<char>> {
        match self {
            RequestView::Branch => seq!["branch"@, "--show-current"@],
            RequestView::Status => seq!["status"@, "--porcelain=v1"@],
            RequestView::Stage(path) => seq!["add"@, path],
            RequestView::Unstage(path) => seq!["restore"@, "--staged"@, path],
            RequestView::Discard(path) => seq!["restore"@, path],
            RequestView::Commit(_) => seq!["commit"@, "-F"@, "-"@],
        }
    }

    /// What is written to the standard input of git: the message of a
    /// commit, as it is.
    pub open spec fn input(self) -> Option<Seq<char>> {
        match self {
            RequestView::Commit(message) => Some(message),
            _ => None,
        }
    }

    /// Whether the request may be run: a commit needs a message.
    pub open spec fn runnable(self) -> bool {
        !(self matches RequestView::Commit(message) && message.len() == 0)
    }
}

impl View for Request {
    type V = RequestView;

    open spec fn view(&self) -> RequestView {
        match self {
            Request::Branch => RequestView::Branch,
            Request::Status => RequestView::Status,
            Request::Stage(path) => RequestView::Stage(path@),
            Request::Unstage(path) => RequestView::Unstage(path@),
            Request::Discard(path) => RequestView::Discard(path@),
            Request::Commit(message) => RequestView::Commit(message@),
        }
    }
}

/// The words of the report on a commit without a message.
pub open spec fn no_message() -> Seq<char> {
    "empty commit message"@
}

impl Request {
    /// The arguments to run git with.
    pub fn args(&self) -> (v: Vec<String>)
        ensures
            v.deep_view() == self@.args(),
    {
        let mut v: Vec<String> = Vec::new();
        match self {
            Request::Branch => {
                v.push("branch".to_owned());
                v.push("--show-current".to_owned());
            },
            Request::Status => {
                v.push("status".to_owned());
                v.push("--porcelain=v1".to_owned());
            },
            Request::Stage(path) => {
                v.push("add".to_owned());
                v.push(path.clone());
            },
            Request::Unstage(path) => {
                v.push("restore".to_owned());
                v.push("--staged".to_owned());
                v.push(path.clone());
            },
            Request::Discard(path) => {
                v.push("restore".to_owned());
                v.push(path.clone());
            },
            Request::Commit(_) => {
                v.push("commit".to_owned());
                v.push("-F".to_owned());
                v.push("-".to_owned());
            },
        }
        assert(v.deep_view() =~= self@.args());
        v
    }

    /// What to write to the standard input of git, if anything.
    pub fn input(&self) -> (text: Option<&str>)
        ensures
            match text {
                Some(t) => self@.input() == Some(t@),
                None => self@.input() is None,
            },
    {
        match self {
            Request::Commit(message) => Some(message.as_str()),
            _ => None,
        }
    }

    /// Refuses a commit without a message, before git is run.
    pub fn check(&self) -> (r: Result<(), String>)
        ensures
            r is Ok <==> self@.runnable(),
            r matches Err(e) ==> e@ == no_message(),
    {
        match self {
            Request::Commit(message) => {
                if message.as_str().is_empty() {
                    Err("empty commit message".to_owned())
                } else {
                    Ok(())
                }
            },
            _ => Ok(()),
        }
    }
}

/// The error that `String::from_utf8` returns, `std::string::FromUtf8Error`.
/// It is only passed on: nothing is claimed of what it holds.
#[verifier::external_type_specification]
#[verifier::external_body]
pub struct ExFromUtf8Error(std::string::FromUtf8Error);

/// What a lossy reading makes of a sequence of bytes: the text that
/// `String::from_utf8_lossy` returns for them.
pub uninterp spec fn lossy_text(bytes: Seq<u8>) -> Seq<char>;

/// Reads bytes as UTF-8.
///
/// Trusted: `String::from_utf8` of the standard library, which is documented
/// to return the string whose bytes are the given ones where they are valid
/// UTF-8, and an error where they are not. The contract claims that much:
/// success exactly on valid UTF-8, and then the characters that the bytes
/// encode.
#[verifier::external_body]
fn from_utf8(bytes: Vec<u8>) -> (r: Result<String, std::string::FromUtf8Error>)
    ensures
        r is Ok <==> valid_utf8(bytes@),
        r matches Ok(s) ==> s@ == decode_utf8(bytes@),
{
    String::from_utf8(bytes)
}

/// Reads bytes as UTF-8, with a replacement character for what is not.
///
/// Trusted: `String::from_utf8_lossy` of the standard library, which is
/// documented to return the text unchanged where the bytes are valid UTF-8.
/// The contract claims that, and gives what is returned otherwise a name
/// without saying what it is.
#[verifier::external_body]
fn from_utf8_lossy(bytes: &Vec<u8>) -> (s: String)
    ensures
        s@ == lossy_text(bytes@),
        valid_utf8(bytes@) ==> s@ == decode_utf8(bytes@),
{
    String::from_utf8_lossy(bytes).into_owned()
}

/// What a finished run of git left behind.
#[derive(Debug, Clone, PartialEq, Eq)]
pub struct Output {
    /// Whether the exit code was 0.
    pub success: bool,
    /// The bytes of the standard output.
    pub stdout: Vec<u8>,
    /// The bytes of the standard error.
    pub stderr: Vec<u8>,
}

impl Output {
    /// The run gave a text: it succeeded and its output is valid UTF-8.
    pub open spec fn readable(self) -> bool {
        self.success && valid_utf8(self.stdout@)
    }

    /// The text of a run that succeeded, or the failure of one that did not.
    /// A run that succeeded with an output that is not UTF-8 is a failure
    /// too. The failure of a run that did not succeed is its standard error,
    /// read lossily: as it is where it is valid UTF-8.
    pub fn text(self) -> (r: Result<String, String>)
        ensures
            r is Ok <==> self.readable(),
            r matches Ok(s) ==> s@ == decode_utf8(self.stdout@),
            r matches Err(e) ==> !self.success ==> e@ == lossy_text(self.stderr@),
            r matches Err(e) ==> !self.success && valid_utf8(self.stderr@) ==> e@ == decode_utf8(
                self.stderr@,
            ),
    {
        if self.success {
            match from_utf8(self.stdout) {
                Ok(s) => Ok(s),
                Err(e) => Err(e.to_string()),
            }
        } else {
            Err(from_utf8_lossy(&self.stderr))
        }
    }
}

} // verus!
