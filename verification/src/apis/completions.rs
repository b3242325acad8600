//! The typed response shared by the text capabilities, and its reading
//! from a document.

use crate::json::{
    field_in, items_in, json_as_items, json_as_natural, json_as_text, json_field, json_is_null,
    natural_in, null_in, text_in,
};
use crate::openai::text_of;
use crate::requests::{ApiResult, Error, ErrorView, Json};
use vstd::prelude::*;
use vstd::string::*;

verus! {

/// One alternative that the service offers.
#[derive(Debug)]
pub struct Choice {
    pub text: Option<String>,
    pub index: u64,
}

pub struct ChoiceView {
    pub text: Option<Seq<char>>,
    pub index: u64,
}

impl View for Choice {
    type V = ChoiceView;

    open spec fn view(&self) -> ChoiceView {
        ChoiceView { text: text_of(self.text), index: self.index }
    }
}

/// The response of a completion or an edit.
#[derive(Debug)]
pub struct Completion {
    pub id: Option<String>,
    pub created: u64,
    pub choices: Vec<Choice>,
}

pub struct CompletionView {
    pub id: Option<Seq<char>>,
    pub created: u64,
    pub choices: Seq<ChoiceView>,
}

impl View for Completion {
    type V = CompletionView;

    open spec fn view(&self) -> CompletionView {
        CompletionView {
            id: text_of(self.id),
            created: self.created,
            choices: Seq::new(self.choices@.len(), |i: int| self.choices@[i]@),
        }
    }
}

/// The message of the error for a document of another shape.
pub open spec fn spec_shape_message() -> Seq<char> {
    "response does not match the expected shape"@
}

/// An optional text under `key`: absent or `null` is no text, a string is
/// that text, anything else does not fit (the outer `None`).
pub open spec fn spec_optional_text(document: Json, key: Seq<char>) -> Option<Option<Seq<char>>> {
    match json_field(document, key) {
        None => Some(None),
        Some(found) => if json_is_null(found) {
            Some(None)
        } else {
            match json_as_text(found) {
                Some(text) => Some(Some(text)),
                None => None,
            }
        },
    }
}

/// A required count under `key`.
pub open spec fn spec_required_natural(document: Json, key: Seq<char>) -> Option<u64> {
    match json_field(document, key) {
        Some(found) => json_as_natural(found),
        None => None,
    }
}

/// The choice that a document stands for, if it has the shape of one.
pub open spec fn spec_choice(document: Json) -> Option<ChoiceView> {
    match (spec_optional_text(document, "text"@), spec_required_natural(document, "index"@)) {
        (Some(text), Some(index)) => Some(ChoiceView { text, index }),
        _ => None,
    }
}

/// The choices that a list of documents stands for: all of them, in
/// order, or nothing if one does not fit.
pub open spec fn spec_choices(items: Seq<Json>) -> Option<Seq<ChoiceView>> {
    if forall|i: int| 0 <= i < items.len() ==> (#[trigger] spec_choice(items[i])) is Some {
        Some(Seq::new(items.len(), |i: int| spec_choice(items[i]).unwrap()))
    } else {
        None
    }
}

/// The required list of choices under `choices`.
pub open spec fn spec_required_choices(document: Json) -> Option<Seq<ChoiceView>> {
    match json_field(document, "choices"@) {
        Some(found) => match json_as_items(found) {
            Some(items) => spec_choices(items),
            None => None,
        },
        None => None,
    }
}

/// The completion that a document stands for, if it has the shape of one:
/// `created` and `choices` are required, `id` is optional.
pub open spec fn spec_completion(document: Json) -> Option<CompletionView> {
    match (
        spec_optional_text(document, "id"@),
        spec_required_natural(document, "created"@),
        spec_required_choices(document),
    ) {
        (Some(id), Some(created), Some(choices)) => Some(CompletionView { id, created, choices }),
        _ => None,
    }
}

/// A typed result with both sides taken by their views.
pub open spec fn completion_view(r: ApiResult<Completion>) -> Result<CompletionView, ErrorView> {
    match r {
        Ok(completion) => Ok(completion@),
        Err(e) => Err(e@),
    }
}

/// What reading a document as a completion gives: the completion, or the
/// error that says the shape is wrong.
pub open spec fn spec_typed(document: Json) -> Result<CompletionView, ErrorView> {
    match spec_completion(document) {
        Some(completion) => Ok(completion),
        None => Err(ErrorView::RequestError(spec_shape_message())),
    }
}

/// A document that lacks `created` or `choices` is not read as a
/// completion: the result is the error of the wrong shape.
pub proof fn lemma_missing_required_field_is_an_error(document: Json)
    requires
        json_field(document, "created"@) is None || json_field(document, "choices"@) is None,
    ensures
        spec_typed(document) == Err::<CompletionView, ErrorView>(
            ErrorView::RequestError(spec_shape_message()),
        ),
{
}

/// A document of the documented shape is read without error, and as the
/// values it holds: an `id` that is absent, `null` or a string, a count
/// under `created`, and under `choices` a list of which every item has the
/// shape of a choice.
pub proof fn lemma_documented_shape_is_read(document: Json, created: u64, items: Seq<Json>)
    requires
        spec_optional_text(document, "id"@) is Some,
        json_field(document, "created"@) is Some,
        json_as_natural(json_field(document, "created"@).unwrap()) == Some(created),
        json_field(document, "choices"@) is Some,
        json_as_items(json_field(document, "choices"@).unwrap()) == Some(items),
        forall|i: int| 0 <= i < items.len() ==> (#[trigger] spec_choice(items[i])) is Some,
    ensures
        spec_typed(document) is Ok,
        spec_typed(document)->Ok_0.created == created,
        spec_typed(document)->Ok_0.id == spec_optional_text(document, "id"@).unwrap(),
        spec_typed(document)->Ok_0.choices.len() == items.len(),
        forall|i: int|
            0 <= i < items.len() ==> spec_typed(document)->Ok_0.choices[i] == (
                #[trigger] spec_choice(items[i])).unwrap(),
{
}

fn optional_text(document: &Json, key: &str) -> (r: Option<Option<String>>)
    ensures
        r is Some <==> spec_optional_text(*document, key@) is Some,
        r is Some ==> text_of(r.unwrap()) == spec_optional_text(*document, key@).unwrap(),
{
    match field_in(document, key) {
        None => Some(None),
        Some(found) => {
            if null_in(found) {
                Some(None)
            } else {
                match text_in(found) {
                    Some(text) => Some(Some(String::from_str(text))),
                    None => None,
                }
            }
        },
    }
}

fn required_natural(document: &Json, key: &str) -> (r: Option<u64>)
    ensures
        r == spec_required_natural(*document, key@),
{
    match field_in(document, key) {
        Some(found) => natural_in(found),
        None => None,
    }
}

impl Choice {
    /// Reads one choice; `None` where the document has another shape.
    pub fn from_json(document: &Json) -> (r: Option<Choice>)
        ensures
            r is Some <==> spec_choice(*document) is Some,
            r is Some ==> r.unwrap()@ == spec_choice(*document).unwrap(),
    {
        let text = optional_text(document, "text");
        let index = required_natural(document, "index");
        match (text, index) {
            (Some(text), Some(index)) => Some(Choice { text, index }),
            _ => None,
        }
    }
}

fn required_choices(document: &Json) -> (r: Option<Vec<Choice>>)
    ensures
        r is Some <==> spec_required_choices(*document) is Some,
        r is Some ==> Seq::new(r.unwrap()@.len(), |i: int| r.unwrap()@[i]@)
            == spec_required_choices(*document).unwrap(),
{
    let found = match field_in(document, "choices") {
        Some(found) => found,
        None => {
            return None;
        },
    };
    let items = match items_in(found) {
        Some(items) => items,
        None => {
            return None;
        },
    };
    let mut choices: Vec<Choice> = Vec::new();
    let mut i: usize = 0;
    while i < items.len()
        invariant
            json_field(*document, "choices"@) == Some(*found),
            json_as_items(*found) == Some(items@),
            i <= items@.len(),
            choices@.len() == i,
            forall|k: int|
                0 <= k < i ==> (#[trigger] spec_choice(items@[k])) == Some(choices@[k]@),
        decreases items@.len() - i,
    {
        match Choice::from_json(&items[i]) {
            Some(choice) => {
                choices.push(choice);
            },
            None => {
                assert(spec_choice(items@[i as int]) is None);
                return None;
            },
        }
        i += 1;
    }
    assert(Seq::new(choices@.len(), |i: int| choices@[i]@) =~= spec_choices(items@).unwrap());
    Some(choices)
}

impl Completion {
    /// Reads a completion from a document. A document of another shape is
    /// an error of its own, never a default value.
    pub fn from_json(document: &Json) -> (r: ApiResult<Completion>)
        ensures
            completion_view(r) == spec_typed(*document),
    {
        let id = optional_text(document, "id");
        let created = required_natural(document, "created");
        let choices = required_choices(document);
        match (id, created, choices) {
            (Some(id), Some(created), Some(choices)) => Ok(Completion { id, created, choices }),
            _ => Err(
                Error::RequestError(String::from_str("response does not match the expected shape")),
            ),
        }
    }
}

} // verus!
