//! Error reports, as far as their texts are read.
//!
//! An error that refuses to be displayed is no failure here. What an error's own code does besides
//! answering, such as to panic while it is displayed, is beyond what is stated.

use std::fmt::Write;
use color_eyre::Report;
use vstd::prelude::*;

verus! {

/// An error with the chain of its causes. It is carried as it is.
#[verifier::external_type_specification]
#[verifier::external_body]
pub struct ExReport(color_eyre::Report);

/// The texts of the errors that a report holds: the error itself, then its cause, and so on, as far
/// as a `usize` can count them. An error that refuses to be displayed has none.
pub uninterp spec fn report_chain(report: Report) -> Seq<Option<Seq<char>>>;

/// What a report displays of itself on one line; `None` where it refuses to be displayed.
pub uninterp spec fn report_text(report: Report) -> Option<Seq<char>>;

/// A text as the user sees it: an error that refuses to be displayed shows nothing.
pub open spec fn shown(text: Option<Seq<char>>) -> Seq<char> {
    match text {
        Some(text) => text,
        None => Seq::empty(),
    }
}

/// The texts of the errors that a report holds, as the user sees them.
pub open spec fn shown_chain(report: Report) -> Seq<Seq<char>> {
    report_chain(report).map_values(|text: Option<Seq<char>>| shown(text))
}

/// The text of a report, as the user sees it.
pub open spec fn shown_text(report: Report) -> Seq<char> {
    shown(report_text(report))
}

/// The text of one of the errors that `Report::chain` walks, the error itself being the first, as
/// `write!` gives it: `Some(None)` where the error refuses to be displayed, and `None` behind the
/// last. The walk goes no further than that error, and no other is displayed.
#[verifier::external_body]
fn cause_text(report: &Report, index: usize) -> (r: Option<Option<String>>)
    requires
        index < usize::MAX,
    ensures
        match r {
            Some(text) => {
                &&& index < report_chain(*report).len() <= usize::MAX
                &&& crate::text::opt_text(text) == report_chain(*report)[index as int]
            },
            None => report_chain(*report).len() <= index,
        },
{
    let mut text = String::new();
    match report.chain().nth(index) {
        Some(cause) => match write!(text, "{}", cause) {
            Ok(()) => Some(Some(text)),
            Err(_) => Some(None),
        },
        None => None,
    }
}

/// The `Display` of a report, as `write!` gives it; `None` where it refuses to be displayed.
#[verifier::external_body]
fn display_text(report: &Report) -> (r: Option<String>)
    ensures
        crate::text::opt_text(r) == report_text(*report),
{
    let mut text = String::new();
    match write!(text, "{}", report) {
        Ok(()) => Some(text),
        Err(_) => None,
    }
}

/// A report made of a message alone by `Report::msg`: its chain holds that message and nothing
/// else. What it displays is left unsaid, since the handler installed for reports may override it.
#[verifier::external_body]
pub(crate) fn report_of(message: String) -> (r: Report)
    ensures
        report_chain(r) == seq![Some(message@)],
{
    Report::msg(message)
}

/// The text of one of the errors that a report holds, as the user sees it; `None` behind the last.
pub(crate) fn show_cause(report: &Report, index: usize) -> (r: Option<String>)
    requires
        index < usize::MAX,
    ensures
        match r {
            Some(text) => {
                &&& index < shown_chain(*report).len() <= usize::MAX
                &&& text@ == shown_chain(*report)[index as int]
            },
            None => shown_chain(*report).len() <= index,
        },
{
    match cause_text(report, index) {
        Some(Some(text)) => Some(text),
        Some(None) => {
            let nothing: String = String::new();
            assert(nothing@ =~= Seq::<char>::empty());
            Some(nothing)
        },
        None => None,
    }
}

/// The text of a report, as the user sees it.
pub(crate) fn show_report(report: &Report) -> (r: String)
    ensures
        r@ == shown_text(*report),
{
    match display_text(report) {
        Some(text) => text,
        None => {
            let nothing: String = String::new();
            assert(nothing@ =~= Seq::<char>::empty());
            nothing
        },
    }
}

} // verus!
