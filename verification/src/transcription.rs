//! Transcription results as reported to the user interface, and their
//! extraction from the recognition service's result document.

use vstd::prelude::*;
use crate::json::{JsonValue, json_get, json_str, json_bool, json_array};
use crate::text::owned;

verus! {

/// One update of a transcription: a piece of recognised text, or the final
/// status of the session (`completed`, `failed` with an error, `cancelled`).
#[derive(Debug, Clone)]
pub struct TranscriptionResult {
    pub text: String,
    pub is_final: bool,
    pub status: Option<String>,
    pub error: Option<String>,
}

/// The content of a [`TranscriptionResult`].
pub struct ResultView {
    pub text: Seq<char>,
    pub is_final: bool,
    pub status: Option<Seq<char>>,
    pub error: Option<Seq<char>>,
}

pub open spec fn opt_text(s: Option<String>) -> Option<Seq<char>> {
    match s {
        Some(x) => Some(x@),
        None => None,
    }
}

impl View for TranscriptionResult {
    type V = ResultView;

    open spec fn view(&self) -> ResultView {
        ResultView {
            text: self.text@,
            is_final: self.is_final,
            status: opt_text(self.status),
            error: opt_text(self.error),
        }
    }
}

/// A text update.
pub open spec fn text_view(text: Seq<char>, is_final: bool) -> ResultView {
    ResultView { text, is_final, status: None, error: None }
}

/// A final status update with no text.
pub open spec fn status_view(status: Seq<char>, error: Option<Seq<char>>) -> ResultView {
    ResultView { text: Seq::empty(), is_final: true, status: Some(status), error }
}

pub open spec fn completed_view() -> ResultView {
    status_view("completed"@, None)
}

pub open spec fn failed_view(error: Seq<char>) -> ResultView {
    status_view("failed"@, Some(error))
}

pub open spec fn cancelled_view() -> ResultView {
    status_view("cancelled"@, None)
}

/// The text update carried by one element of a result document's `results`
/// array: present when the element has a string member `text`; final unless
/// the element says `"is_interim": true` or has no boolean `is_interim`.
pub open spec fn result_entry(item: JsonValue) -> Option<ResultView> {
    match json_get(item, "text"@) {
        Some(t) => match json_str(t) {
            Some(text) => {
                let interim = match json_get(item, "is_interim"@) {
                    Some(f) => match json_bool(f) {
                        Some(b) => b,
                        None => true,
                    },
                    None => true,
                };
                Some(text_view(text, !interim))
            },
            None => None,
        },
        None => None,
    }
}

/// Text updates of a list of result elements, in order, skipping elements
/// without text.
pub open spec fn entries_view(items: Seq<JsonValue>) -> Seq<ResultView>
    decreases items.len(),
{
    if items.len() == 0 {
        seq![]
    } else {
        entries_view(items.drop_last()) + match result_entry(items.last()) {
            Some(r) => seq![r],
            None => seq![],
        }
    }
}

/// Text updates of a result document: those of its `results` array, or none
/// when it has no such array.
pub open spec fn document_results(doc: JsonValue) -> Seq<ResultView> {
    match json_get(doc, "results"@) {
        Some(r) => match json_array(r) {
            Some(items) => entries_view(items),
            None => seq![],
        },
        None => seq![],
    }
}

pub open spec fn views_of(results: Seq<TranscriptionResult>) -> Seq<ResultView> {
    results.map_values(|r: TranscriptionResult| r@)
}

impl TranscriptionResult {
    /// A text update.
    pub fn text(text: String, is_final: bool) -> (r: Self)
        ensures
            r@ == text_view(text@, is_final),
    {
        TranscriptionResult { text, is_final, status: None, error: None }
    }

    /// The session ended normally.
    pub fn completed() -> (r: Self)
        ensures
            r@ == completed_view(),
    {
        TranscriptionResult {
            text: String::new(),
            is_final: true,
            status: Some(owned("completed")),
            error: None,
        }
    }

    /// The session ended with `error`.
    pub fn failed(error: String) -> (r: Self)
        ensures
            r@ == failed_view(error@),
    {
        TranscriptionResult {
            text: String::new(),
            is_final: true,
            status: Some(owned("failed")),
            error: Some(error),
        }
    }

    /// The session was cancelled by the user.
    pub fn cancelled() -> (r: Self)
        ensures
            r@ == cancelled_view(),
    {
        TranscriptionResult {
            text: String::new(),
            is_final: true,
            status: Some(owned("cancelled")),
            error: None,
        }
    }
}

/// The text update of one element of a `results` array, if it has text.
pub fn result_from_entry(item: &JsonValue) -> (r: Option<TranscriptionResult>)
    ensures
        match r {
            Some(x) => result_entry(*item) == Some(x@),
            None => result_entry(*item) is None,
        },
{
    match item.get("text") {
        Some(t) => match t.as_str() {
            Some(text) => {
                let interim = match item.get("is_interim") {
                    Some(f) => match f.as_bool() {
                        Some(b) => b,
                        None => true,
                    },
                    None => true,
                };
                Some(TranscriptionResult::text(owned(text), !interim))
            },
            None => None,
        },
        None => None,
    }
}

/// The text updates of a result document, in order.
pub fn results_from_document(doc: &JsonValue) -> (r: Vec<TranscriptionResult>)
    ensures
        views_of(r@) == document_results(*doc),
{
    let mut out: Vec<TranscriptionResult> = Vec::new();
    match doc.get("results") {
        Some(list) => match list.as_array() {
            Some(items) => {
                let n = items.len();
                for i in 0..n
                    invariant
                        n == items@.len(),
                        views_of(out@) == entries_view(items@.take(i as int)),
                {
                    let ghost before = out@;
                    match result_from_entry(&items[i]) {
                        Some(x) => {
                            out.push(x);
                        },
                        None => {},
                    }
                    proof {
                        let t = items@.take(i + 1);
                        assert(t.drop_last() == items@.take(i as int));
                        assert(t.last() == items@[i as int]);
                        assert(views_of(out@) =~= entries_view(t));
                    }
                }
                assert(items@.take(n as int) == items@);
            },
            None => {},
        },
        None => {},
    }
    out
}

} // verus!
