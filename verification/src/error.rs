//! What can go wrong, and how a failure is told to the user in one line.

use vstd::prelude::*;
use vstd::string::StringExecFns;
use crate::cargo::{Project, Subcommand};

verus! {

/// The kinds of failure, each with its cause.
#[derive(Clone, Debug)]
pub enum Error {
    /// The file system or the operating system refused something.
    Io { cause: String },
    /// A configuration file was read but does not have the expected shape.
    Parse { cause: String },
    /// The build tool ran in a project and did not end with status zero.
    /// `code` is absent when the tool ended without an exit status.
    Tool { subcommand: Subcommand, project: Project, code: Option<i32> },
}

/// An [`Error`] as a mathematical value.
pub enum ErrorView {
    Io { cause: Seq<char> },
    Parse { cause: Seq<char> },
    Tool { subcommand: Subcommand, project: Project, code: Option<i32> },
}

impl View for Error {
    type V = ErrorView;

    open spec fn view(&self) -> ErrorView {
        match *self {
            Error::Io { cause } => ErrorView::Io { cause: cause@ },
            Error::Parse { cause } => ErrorView::Parse { cause: cause@ },
            Error::Tool { subcommand, project, code } => ErrorView::Tool {
                subcommand,
                project,
                code,
            },
        }
    }
}

/// An error together with the operation that met it and the file or
/// directory it was working on. This is what the user gets to see.
#[derive(Clone, Debug)]
pub struct Reportable {
    pub error: Error,
    /// A few words naming the operation that failed.
    pub label: String,
    /// The path of the file or directory concerned.
    pub subject: String,
}

/// A [`Reportable`] as a mathematical value.
pub struct ReportableView {
    pub error: ErrorView,
    pub label: Seq<char>,
    pub subject: Seq<char>,
}

impl View for Reportable {
    type V = ReportableView;

    open spec fn view(&self) -> ReportableView {
        ReportableView { error: self.error@, label: self.label@, subject: self.subject@ }
    }
}

/// The character for one decimal digit.
pub open spec fn digit(d: nat) -> Seq<char>
    recommends
        d < 10,
{
    if d == 0 {
        "0"@
    } else if d == 1 {
        "1"@
    } else if d == 2 {
        "2"@
    } else if d == 3 {
        "3"@
    } else if d == 4 {
        "4"@
    } else if d == 5 {
        "5"@
    } else if d == 6 {
        "6"@
    } else if d == 7 {
        "7"@
    } else if d == 8 {
        "8"@
    } else {
        "9"@
    }
}

/// A natural number in decimal, without leading zeros.
pub open spec fn decimal(n: nat) -> Seq<char>
    decreases n,
{
    if n < 10 {
        digit(n)
    } else {
        decimal(n / 10) + digit(n % 10)
    }
}

/// An integer in decimal, with a minus sign when it is negative.
pub open spec fn signed_decimal(n: int) -> Seq<char> {
    if n < 0 {
        "-"@ + decimal((-n) as nat)
    } else {
        decimal(n as nat)
    }
}

fn digit_str(d: u64) -> (word: &'static str)
    requires
        d < 10,
    ensures
        word@ == digit(d as nat),
{
    match d {
        0 => "0",
        1 => "1",
        2 => "2",
        3 => "3",
        4 => "4",
        5 => "5",
        6 => "6",
        7 => "7",
        8 => "8",
        _ => "9",
    }
}

fn push_decimal(out: &mut String, n: u64)
    ensures
        final(out)@ == old(out)@ + decimal(n as nat),
    decreases n,
{
    if n >= 10 {
        push_decimal(out, n / 10);
    }
    out.append(digit_str(n % 10));
}

fn push_signed(out: &mut String, n: i32)
    ensures
        final(out)@ == old(out)@ + signed_decimal(n as int),
{
    let wide: i64 = n as i64;
    if wide < 0 {
        out.append("-");
        push_decimal(out, (-wide) as u64);
    } else {
        push_decimal(out, wide as u64);
    }
}

impl ErrorView {
    /// The failure in words, without the operation or the path.
    pub open spec fn describe(self) -> Seq<char> {
        match self {
            ErrorView::Io { cause } => "I/O failure: "@ + cause,
            ErrorView::Parse { cause } => "parse failure: "@ + cause,
            ErrorView::Tool { subcommand, project, code } => {
                let head = "cargo "@ + subcommand.spec_name() + " failed for "@
                    + project.spec_name();
                match code {
                    Some(n) => head + " with exit status "@ + signed_decimal(n as int),
                    None => head + " without an exit status"@,
                }
            },
        }
    }
}

impl ReportableView {
    /// The line shown to the user: the label, then the subject in quotes,
    /// a colon, and the failure in words.
    pub open spec fn message(self) -> Seq<char> {
        self.label + " '"@ + self.subject + "': "@ + self.error.describe()
    }
}

impl Error {
    /// The failure in words, without the operation or the path.
    pub fn describe(&self) -> (text: String)
        ensures
            text@ == self@.describe(),
    {
        match self {
            Error::Io { cause } => {
                let mut text = String::from_str("I/O failure: ");
                text.append(cause.as_str());
                text
            },
            Error::Parse { cause } => {
                let mut text = String::from_str("parse failure: ");
                text.append(cause.as_str());
                text
            },
            Error::Tool { subcommand, project, code } => {
                let mut text = String::from_str("cargo ");
                text.append(subcommand.name());
                text.append(" failed for ");
                text.append(project.name());
                match code {
                    Some(n) => {
                        text.append(" with exit status ");
                        push_signed(&mut text, *n);
                    },
                    None => {
                        text.append(" without an exit status");
                    },
                }
                text
            },
        }
    }

    /// Attaches the operation and the path it worked on to the error.
    pub fn file_context(self, label: &str, path: &str) -> (report: Reportable)
        ensures
            report.error == self,
            report@ == (ReportableView { error: self@, label: label@, subject: path@ }),
    {
        Reportable { error: self, label: String::from_str(label), subject: String::from_str(path) }
    }
}

impl Reportable {
    /// The line shown to the user.
    pub fn message(&self) -> (line: String)
        ensures
            line@ == self@.message(),
    {
        let mut line = self.label.clone();
        line.append(" '");
        line.append(self.subject.as_str());
        line.append("': ");
        let words = self.error.describe();
        line.append(words.as_str());
        line
    }
}

} // verus!
