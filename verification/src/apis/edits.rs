//! Edit creation: given an input and an instruction, the service returns an
//! edited version of the input.

use crate::apis::completions::{completion_view, spec_typed, Completion, CompletionView};
use crate::apis::EDIT_CREATE;
use crate::json::{
    entry_of, integer_value, json_field, json_integer, json_number, json_object, json_text,
    new_object, number_value, object_value, put_field, text_value,
};
use crate::openai::OpenAI;
use crate::requests::{
    receive, spec_receive, spec_request, ApiResult, ErrorView, Json, Method, Reply, ReplyView,
    Request,
};
use vstd::prelude::*;

verus! {

/// The body of an edit-creation call. A number that may have a fraction is
/// held as a JSON number.
#[derive(Debug)]
pub struct EditBody {
    pub model: String,
    pub instruction: String,
    pub input: Option<String>,
    pub n: Option<i32>,
    pub temperature: Option<serde_json::Number>,
    pub top_p: Option<serde_json::Number>,
}

/// `fields` with `key` bound to `value` where there is one, and unchanged
/// where there is none.
pub open spec fn with_optional(
    fields: Map<Seq<char>, Json>,
    key: Seq<char>,
    value: Option<Json>,
) -> Map<Seq<char>, Json> {
    match value {
        Some(v) => fields.insert(key, v),
        None => fields,
    }
}

pub open spec fn optional_text(text: Option<String>) -> Option<Json> {
    match text {
        Some(t) => Some(json_text(t@)),
        None => None,
    }
}

pub open spec fn optional_integer(n: Option<i32>) -> Option<Json> {
    match n {
        Some(n) => Some(json_integer(n as int)),
        None => None,
    }
}

pub open spec fn optional_number(n: Option<serde_json::Number>) -> Option<Json> {
    match n {
        Some(n) => Some(json_number(n)),
        None => None,
    }
}

impl EditBody {
    /// The entries of the serialized body: the two required fields always,
    /// each optional field only where it is set.
    pub open spec fn spec_fields(self) -> Map<Seq<char>, Json> {
        let required = Map::<Seq<char>, Json>::empty().insert(
            "model"@,
            json_text(self.model@),
        ).insert("instruction"@, json_text(self.instruction@));
        let with_input = with_optional(required, "input"@, optional_text(self.input));
        let with_n = with_optional(with_input, "n"@, optional_integer(self.n));
        let with_temperature = with_optional(
            with_n,
            "temperature"@,
            optional_number(self.temperature),
        );
        with_optional(with_temperature, "top_p"@, optional_number(self.top_p))
    }

    /// Serializes the body as a JSON object. A lookup in the result finds
    /// the entries of `spec_fields` and nothing else, so an unset field is
    /// not there at all.
    pub fn to_json(&self) -> (r: Json)
        ensures
            r == json_object(self.spec_fields()),
            forall|key: Seq<char>| #[trigger]
                json_field(r, key) == entry_of(self.spec_fields(), key),
            self.input is None ==> json_field(r, "input"@) is None,
            self.n is None ==> json_field(r, "n"@) is None,
            self.temperature is None ==> json_field(r, "temperature"@) is None,
            self.top_p is None ==> json_field(r, "top_p"@) is None,
    {
        proof {
            lemma_unset_fields_are_omitted(*self);
        }
        let mut object = new_object();
        put_field(&mut object, "model", text_value(self.model.as_str()));
        put_field(&mut object, "instruction", text_value(self.instruction.as_str()));
        match &self.input {
            Some(input) => put_field(&mut object, "input", text_value(input.as_str())),
            None => {},
        }
        match self.n {
            Some(n) => put_field(&mut object, "n", integer_value(n)),
            None => {},
        }
        match &self.temperature {
            Some(t) => put_field(&mut object, "temperature", number_value(t)),
            None => {},
        }
        match &self.top_p {
            Some(p) => put_field(&mut object, "top_p", number_value(p)),
            None => {},
        }
        object_value(object)
    }
}

/// The six keys are pairwise different.
pub proof fn lemma_keys_differ()
    ensures
        "model"@ != "instruction"@,
        "model"@ != "input"@,
        "model"@ != "n"@,
        "model"@ != "temperature"@,
        "model"@ != "top_p"@,
        "instruction"@ != "input"@,
        "instruction"@ != "n"@,
        "instruction"@ != "temperature"@,
        "instruction"@ != "top_p"@,
        "input"@ != "n"@,
        "input"@ != "temperature"@,
        "input"@ != "top_p"@,
        "n"@ != "temperature"@,
        "n"@ != "top_p"@,
        "temperature"@ != "top_p"@,
{
    reveal_strlit("model");
    reveal_strlit("instruction");
    reveal_strlit("input");
    reveal_strlit("n");
    reveal_strlit("temperature");
    reveal_strlit("top_p");
    assert("model"@[0] == 'm');
    assert("instruction"@[0] == 'i');
    assert("input"@[0] == 'i');
    assert("temperature"@[0] == 't');
    assert("top_p"@[0] == 't');
    assert("instruction"@.len() == 11);
    assert("temperature"@.len() == 11);
    assert("input"@.len() == 5);
    assert("top_p"@.len() == 5);
}

/// A serialized body holds the key of an optional field exactly when the
/// field is set: an unset field is left out, never written as `null`. The
/// two required keys are always there, and there is no other key.
pub proof fn lemma_unset_fields_are_omitted(body: EditBody)
    ensures
        body.spec_fields().dom().contains("model"@),
        body.spec_fields().dom().contains("instruction"@),
        body.spec_fields().dom().contains("input"@) <==> body.input is Some,
        body.spec_fields().dom().contains("n"@) <==> body.n is Some,
        body.spec_fields().dom().contains("temperature"@) <==> body.temperature is Some,
        body.spec_fields().dom().contains("top_p"@) <==> body.top_p is Some,
        forall|key: Seq<char>| #[trigger]
            body.spec_fields().dom().contains(key) ==> key == "model"@ || key == "instruction"@
                || key == "input"@ || key == "n"@ || key == "temperature"@ || key == "top_p"@,
{
    lemma_keys_differ();
}

/// Every field that is set stands in the serialized body under its key,
/// with its own value.
pub proof fn lemma_set_fields_are_kept(body: EditBody)
    ensures
        body.spec_fields()["model"@] == json_text(body.model@),
        body.spec_fields()["instruction"@] == json_text(body.instruction@),
        body.input is Some ==> body.spec_fields()["input"@] == json_text(body.input.unwrap()@),
        body.n is Some ==> body.spec_fields()["n"@] == json_integer(body.n.unwrap() as int),
        body.temperature is Some ==> body.spec_fields()["temperature"@] == json_number(
            body.temperature.unwrap(),
        ),
        body.top_p is Some ==> body.spec_fields()["top_p"@] == json_number(body.top_p.unwrap()),
{
    lemma_keys_differ();
}

/// What an edit-creation call returns for a reply: the error of the
/// transport as it is, else the document read as a completion.
pub open spec fn spec_edit_response(reply: ReplyView) -> Result<CompletionView, ErrorView> {
    match spec_receive(reply) {
        Ok(document) => spec_typed(document),
        Err(e) => Err(e),
    }
}

/// Concludes an edit-creation call from what came back.
pub fn edit_response(reply: Reply) -> (r: ApiResult<Completion>)
    ensures
        completion_view(r) == spec_edit_response(reply@),
{
    match receive(reply) {
        Ok(document) => Completion::from_json(&document),
        Err(e) => Err(e),
    }
}

impl OpenAI {
    /// The request that creates an edit.
    pub fn edit_request(&self, body: &EditBody) -> (r: Request)
        ensures
            r@ == spec_request(
                self@,
                Method::Post,
                EDIT_CREATE@,
                Some(json_object(body.spec_fields())),
            ),
    {
        self.post_request(EDIT_CREATE, body.to_json())
    }
}

} // verus!
