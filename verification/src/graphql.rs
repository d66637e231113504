//! The queries of the service, each a function of the model it is given.
//!
//! The model lives with the caller, who guards it as needed and lends it to
//! one query at a time: `None` while no model is loaded, `Some` from the first
//! initialization on.

use crate::model::{chosen_multiplier, TestModel, DEFAULT_MULTIPLIER};
use crate::posts::{all_valid, catalog, catalog_posts, checked_listing, listing_view, Posts};
use crate::reply::{Part, PartView, Reply};
use vstd::prelude::*;
use vstd::utf8::{encode_utf8, is_ascii_chars, is_ascii_chars_encode_utf8};

verus! {

/// The number of bytes that a text takes in UTF-8.
pub open spec fn byte_length(text: Seq<char>) -> usize {
    encode_utf8(text).len() as usize
}

/// In text made of ASCII characters alone every character takes one byte, so
/// the length in bytes is the number of characters.
pub proof fn byte_length_of_ascii(text: Seq<char>)
    requires
        is_ascii_chars(text),
        text.len() <= usize::MAX,
    ensures
        byte_length(text) == text.len(),
{
    is_ascii_chars_encode_utf8(text);
}

/// The model after an initialization: loaded with the chosen multiplier,
/// whatever it was before.
pub open spec fn initialized(before: Option<TestModel>, multiplier: Option<u64>) -> Option<
    TestModel,
> {
    Some(TestModel { multiplier: chosen_multiplier(multiplier) })
}

/// The reply to an initialization.
pub open spec fn initialization_reply(multiplier: Option<u64>) -> Seq<PartView> {
    seq![
        PartView::Text("Model initialized with multiplier: "@),
        PartView::Multiplier(chosen_multiplier(multiplier)),
    ]
}

/// The reply to a question about the model's state.
pub open spec fn status_reply(model: Option<TestModel>) -> Seq<PartView> {
    match model {
        Some(loaded) => seq![
            PartView::Text("Model is loaded with multiplier: "@),
            PartView::Multiplier(loaded.multiplier),
        ],
        None => seq![PartView::Text("Model is not loaded"@)],
    }
}

/// The reply to a request for a prediction on `input`.
pub open spec fn prediction_reply(model: Option<TestModel>, input: Seq<char>) -> Seq<PartView> {
    match model {
        Some(loaded) => seq![
            PartView::Text("Input: '"@),
            PartView::Text(input),
            PartView::Text("' (length: "@),
            PartView::Length(byte_length(input)),
            PartView::Text("), Prediction: "@),
            PartView::Product { length: byte_length(input), multiplier: loaded.multiplier },
        ],
        None => seq![PartView::Text("Model not loaded. Please initialize the model first."@)],
    }
}

/// The root of the queries.
pub struct QueryRoot;

impl QueryRoot {
    /// Lists the posts of the catalog, after checking each of them. The
    /// catalog is valid, so the listing always succeeds.
    pub fn posts(&self) -> (res: Result<Vec<Posts>, String>)
        ensures
            res matches Ok(listing) && listing_view(listing@) == catalog(),
    {
        let listing = catalog_posts();
        assert(all_valid(listing@)) by {
            assert(listing_view(listing@).len() == 2);
            assert(listing_view(listing@)[0] == listing@[0]@);
            assert(listing_view(listing@)[1] == listing@[1]@);
        }
        checked_listing(listing)
    }

    /// Asks the model for a prediction on `input`. A loaded model answers
    /// with the input, its length in bytes, and the product of that length
    /// and the model's multiplier; without a model the reply says so.
    pub fn predict(&self, model: &Option<TestModel>, input: String) -> (reply: Reply)
        ensures
            reply@ == prediction_reply(*model, input@),
    {
        let mut parts: Vec<Part> = Vec::new();
        match model {
            Some(loaded) => {
                let length = input.as_str().len();
                parts.push(Part::Text("Input: '".to_owned()));
                parts.push(Part::Text(input));
                parts.push(Part::Text("' (length: ".to_owned()));
                parts.push(Part::Length(length));
                parts.push(Part::Text("), Prediction: ".to_owned()));
                parts.push(Part::Product { length, multiplier: loaded.multiplier });
            },
            None => {
                parts.push(
                    Part::Text("Model not loaded. Please initialize the model first.".to_owned()),
                );
            },
        }
        let reply = Reply { parts };
        assert(reply@ =~= prediction_reply(*model, input@));
        reply
    }

    /// Loads a model with the given multiplier, or with the default where
    /// none is given, in place of whatever was there, and confirms it.
    pub fn initialize_model(
        &self,
        model: &mut Option<TestModel>,
        multiplier: Option<u64>,
    ) -> (reply: Reply)
        ensures
            *final(model) == initialized(*old(model), multiplier),
            reply@ == initialization_reply(multiplier),
    {
        let chosen = match multiplier {
            Some(bits) => bits,
            None => DEFAULT_MULTIPLIER,
        };
        *model = Some(TestModel::new(chosen));
        let mut parts: Vec<Part> = Vec::new();
        parts.push(Part::Text("Model initialized with multiplier: ".to_owned()));
        parts.push(Part::Multiplier(chosen));
        let reply = Reply { parts };
        assert(reply@ =~= initialization_reply(multiplier));
        reply
    }

    /// Reports whether a model is loaded, and with which multiplier.
    pub fn model_status(&self, model: &Option<TestModel>) -> (reply: Reply)
        ensures
            reply@ == status_reply(*model),
    {
        let mut parts: Vec<Part> = Vec::new();
        match model {
            Some(loaded) => {
                parts.push(Part::Text("Model is loaded with multiplier: ".to_owned()));
                parts.push(Part::Multiplier(loaded.multiplier));
            },
            None => {
                parts.push(Part::Text("Model is not loaded".to_owned()));
            },
        }
        let reply = Reply { parts };
        assert(reply@ =~= status_reply(*model));
        reply
    }
}

/// Loads the default model in place of whatever was there, and returns the
/// line that announces it.
pub fn load_model(model: &mut Option<TestModel>) -> (line: String)
    ensures
        *final(model) == initialized(*old(model), None),
        line@ == "Default model loaded with multiplier 2.5"@,
{
    *model = Some(TestModel::new(DEFAULT_MULTIPLIER));
    "Default model loaded with multiplier 2.5".to_owned()
}

/// After an initialization the model is loaded, and both the state report and
/// every prediction show the multiplier that was chosen, whatever the model
/// was before.
pub proof fn initialization_takes_effect(
    before: Option<TestModel>,
    multiplier: Option<u64>,
    input: Seq<char>,
)
    ensures
        status_reply(initialized(before, multiplier)) == seq![
            PartView::Text("Model is loaded with multiplier: "@),
            PartView::Multiplier(chosen_multiplier(multiplier)),
        ],
        prediction_reply(initialized(before, multiplier), input)[5] == (PartView::Product {
            length: byte_length(input),
            multiplier: chosen_multiplier(multiplier),
        }),
{
}

/// A second initialization overwrites the first: afterwards the state report
/// and every prediction are those of a model that was only ever given the
/// second multiplier.
pub proof fn reinitialization_overwrites(
    before: Option<TestModel>,
    first: Option<u64>,
    second: Option<u64>,
    input: Seq<char>,
)
    ensures
        initialized(initialized(before, first), second) == Some(
            TestModel { multiplier: chosen_multiplier(second) },
        ),
        status_reply(initialized(initialized(before, first), second)) == status_reply(
            initialized(None, second),
        ),
        prediction_reply(initialized(initialized(before, first), second), input)
            == prediction_reply(initialized(None, second), input),
{
}

} // verus!
