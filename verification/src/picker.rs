//! The interactive picker: what it is asked to show, and what its answer
//! means.

use vstd::prelude::*;

verus! {

/// One of the two streams that a terminal program writes to.
#[derive(Clone, Copy, Debug, PartialEq, Eq)]
pub enum Stream {
    /// The primary output stream, which scripts consume.
    Output,
    /// The error and status stream, which the user watches.
    Status,
}

/// What a single-select prompt is asked to show.
#[derive(Debug, PartialEq, Eq)]
pub struct PickRequest {
    /// The labels to choose from, in display order.
    pub items: Vec<String>,
    /// The text shown above the labels.
    pub prompt: String,
    /// The index of the label that is highlighted at first.
    pub default: usize,
    /// The stream on which the prompt is drawn.
    pub stream: Stream,
}

/// The outcome of a prompt.
#[derive(Debug, PartialEq, Eq)]
pub enum Selection {
    /// The user chose the session of this name.
    Chosen { name: String },
    /// The user left the prompt without choosing.
    Cancelled,
}

/// Mathematical model of a [`PickRequest`].
pub ghost struct PickRequestView {
    pub items: Seq<Seq<char>>,
    pub prompt: Seq<char>,
    pub default: usize,
    pub stream: Stream,
}

/// Mathematical model of a [`Selection`].
pub ghost enum SelectionView {
    Chosen { name: Seq<char> },
    Cancelled,
}

impl View for PickRequest {
    type V = PickRequestView;

    open spec fn view(&self) -> PickRequestView {
        PickRequestView {
            items: self.items.deep_view(),
            prompt: self.prompt@,
            default: self.default,
            stream: self.stream,
        }
    }
}

impl View for Selection {
    type V = SelectionView;

    open spec fn view(&self) -> SelectionView {
        match self {
            Selection::Chosen { name } => SelectionView::Chosen { name: name@ },
            Selection::Cancelled => SelectionView::Cancelled,
        }
    }
}

/// The prompt shown above the session names.
pub open spec fn session_prompt() -> Seq<char> {
    "Select a session"@
}

/// The request that offers `names` for selection: the names as they are, in
/// their order, with the first one highlighted, drawn on the status stream so
/// that the output stream stays clean.
pub open spec fn selection_request(names: Seq<Seq<char>>) -> PickRequestView {
    PickRequestView {
        items: names,
        prompt: session_prompt(),
        default: 0,
        stream: Stream::Status,
    }
}

/// What a prompt's answer means: an index stands for the name at that index,
/// no index for a cancellation.
pub open spec fn selected(names: Seq<Seq<char>>, choice: Option<usize>) -> SelectionView {
    match choice {
        Some(index) => SelectionView::Chosen { name: names[index as int] },
        None => SelectionView::Cancelled,
    }
}

/// A copy of `names`.
pub fn copy_names(names: &Vec<String>) -> (copy: Vec<String>)
    ensures
        copy.deep_view() == names.deep_view(),
{
    let mut copy: Vec<String> = Vec::new();
    let mut i: usize = 0;
    while i < names.len()
        invariant
            i <= names.len(),
            copy.len() == i,
            forall|k: int| 0 <= k < i ==> copy[k]@ == names[k]@,
        decreases names.len() - i,
    {
        copy.push(names[i].clone());
        i += 1;
    }
    assert(copy.deep_view() =~= names.deep_view());
    copy
}

/// Builds the prompt that offers `names` for selection. A prompt needs
/// something to offer.
pub fn pick_request(names: Vec<String>) -> (request: PickRequest)
    requires
        names.len() > 0,
    ensures
        request@ == selection_request(names.deep_view()),
        request.default < request.items.len(),
{
    PickRequest {
        items: names,
        prompt: "Select a session".to_owned(),
        default: 0,
        stream: Stream::Status,
    }
}

/// Reads the answer of a prompt that offered `names`.
pub fn resolve_selection(names: &Vec<String>, choice: Option<usize>) -> (selection: Selection)
    requires
        choice matches Some(index) ==> index < names.len(),
    ensures
        selection@ == selected(names.deep_view(), choice),
        selection matches Selection::Chosen { name } ==> names.deep_view().contains(name@),
        selection is Cancelled <==> choice is None,
{
    match choice {
        Some(index) => {
            let name = names[index].clone();
            assert(names.deep_view()[index as int] == name@);
            Selection::Chosen { name }
        },
        None => Selection::Cancelled,
    }
}

/// An answer within the list selects one of the listed names or nothing:
/// never a name that was not offered.
pub proof fn selection_is_offered_or_cancelled(names: Seq<Seq<char>>, choice: Option<usize>)
    requires
        names.len() > 0,
        choice matches Some(index) ==> index < names.len(),
    ensures
        match selected(names, choice) {
            SelectionView::Chosen { name } => names.contains(name),
            SelectionView::Cancelled => choice is None,
        },
{
}

} // verus!
