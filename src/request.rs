//! The generation request, built step by step from a prompt, and the JSON
//! body that carries it to the service.

use vstd::prelude::*;

use crate::json::{fields_view, object, quote, quoted, write_object};
use crate::params::{ImageModel, ImageOrientation, ImageSize, ImageSteps};

verus! {

/// What a request holds, as mathematical values.
pub ghost struct RequestView {
    pub prompt: Seq<char>,
    pub negative: Option<Seq<char>>,
    pub steps: ImageSteps,
    pub model: ImageModel,
    pub size: ImageSize,
    pub orientation: ImageOrientation,
}

/// The parameters of one image to generate. Every enumerated field holds a
/// value of its closed set by construction, so any request can be sent.
#[derive(Debug)]
pub struct ImageRequest {
    prompt: String,
    negative: Option<String>,
    steps: ImageSteps,
    model: ImageModel,
    size: ImageSize,
    orientation: ImageOrientation,
}

impl View for ImageRequest {
    type V = RequestView;

    closed spec fn view(&self) -> RequestView {
        RequestView {
            prompt: self.prompt@,
            negative: match self.negative {
                Some(n) => Some(n@),
                None => None,
            },
            steps: self.steps,
            model: self.model,
            size: self.size,
            orientation: self.orientation,
        }
    }
}

/// A request for `prompt` with every other field at its default: no negative
/// prompt, fifty steps, the beauty-realism model, small, landscape.
pub open spec fn default_request(prompt: Seq<char>) -> RequestView {
    RequestView {
        prompt,
        negative: None,
        steps: ImageSteps::Fifty,
        model: ImageModel::BeautyRealism,
        size: ImageSize::Small,
        orientation: ImageOrientation::Landscape,
    }
}

/// The members of the request body, in order: the prompt, the negative
/// prompt only where there is one, then steps as a number and model, size
/// and orientation as strings.
pub open spec fn request_fields(v: RequestView) -> Seq<(Seq<char>, Seq<char>)> {
    seq![("prompt"@, quoted(v.prompt))] + match v.negative {
        Some(n) => seq![("negative"@, quoted(n))],
        None => Seq::empty(),
    } + seq![
        ("steps"@, v.steps.wire()),
        ("model"@, quoted(v.model.wire())),
        ("size"@, quoted(v.size.wire())),
        ("orientation"@, quoted(v.orientation.wire())),
    ]
}

/// The JSON body that submits the request.
pub open spec fn request_json(v: RequestView) -> Seq<char> {
    object(request_fields(v))
}

impl ImageRequest {
    pub fn new(prompt: String) -> (r: ImageRequest)
        ensures
            r@ == default_request(prompt@),
    {
        ImageRequest {
            prompt,
            negative: None,
            steps: ImageSteps::Fifty,
            model: ImageModel::BeautyRealism,
            size: ImageSize::Small,
            orientation: ImageOrientation::Landscape,
        }
    }

    pub fn update_negative_prompt(self, prompt: String) -> (r: ImageRequest)
        ensures
            r@ == (RequestView { negative: Some(prompt@), ..self@ }),
    {
        ImageRequest { negative: Some(prompt), ..self }
    }

    pub fn update_steps(self, steps: ImageSteps) -> (r: ImageRequest)
        ensures
            r@ == (RequestView { steps, ..self@ }),
    {
        ImageRequest { steps, ..self }
    }

    pub fn update_model(self, model: ImageModel) -> (r: ImageRequest)
        ensures
            r@ == (RequestView { model, ..self@ }),
    {
        ImageRequest { model, ..self }
    }

    pub fn update_size(self, size: ImageSize) -> (r: ImageRequest)
        ensures
            r@ == (RequestView { size, ..self@ }),
    {
        ImageRequest { size, ..self }
    }

    pub fn update_orientation(self, orientation: ImageOrientation) -> (r: ImageRequest)
        ensures
            r@ == (RequestView { orientation, ..self@ }),
    {
        ImageRequest { orientation, ..self }
    }

    pub fn prompt(&self) -> (r: &str)
        ensures
            r@ == self@.prompt,
    {
        self.prompt.as_str()
    }

    pub fn negative_prompt(&self) -> (r: Option<&str>)
        ensures
            r matches Some(n) ==> self@.negative == Some(n@),
            r is None ==> self@.negative is None,
    {
        match &self.negative {
            Some(n) => Some(n.as_str()),
            None => None,
        }
    }

    pub fn steps(&self) -> (r: ImageSteps)
        ensures
            r == self@.steps,
    {
        self.steps
    }

    pub fn model(&self) -> (r: ImageModel)
        ensures
            r == self@.model,
    {
        self.model
    }

    pub fn size(&self) -> (r: ImageSize)
        ensures
            r == self@.size,
    {
        self.size
    }

    pub fn orientation(&self) -> (r: ImageOrientation)
        ensures
            r == self@.orientation,
    {
        self.orientation
    }

    /// The JSON body that submits this request.
    pub fn to_json(&self) -> (r: String)
        ensures
            r@ == request_json(self@),
    {
        let mut fields: Vec<(String, String)> = Vec::new();
        fields.push(("prompt".to_owned(), quote(self.prompt.as_str())));
        match &self.negative {
            Some(n) => {
                fields.push(("negative".to_owned(), quote(n.as_str())));
            },
            None => {},
        }
        fields.push(("steps".to_owned(), self.steps.to_string()));
        fields.push(("model".to_owned(), quote(self.model.as_str())));
        fields.push(("size".to_owned(), quote(self.size.as_str())));
        fields.push(("orientation".to_owned(), quote(self.orientation.as_str())));
        let r = write_object(&fields);
        assert(fields_view(fields@) =~= request_fields(self@));
        r
    }
}

/// The negative prompt appears among the body's keys exactly when the
/// request has one, and then with that prompt as its value; a request fresh
/// from its prompt has none, and setting one makes it appear.
pub proof fn lemma_negative_key(v: RequestView, prompt: Seq<char>, negative: Seq<char>)
    ensures
        (exists|i: int|
            0 <= i < request_fields(v).len() && #[trigger] request_fields(v)[i].0 == "negative"@)
            <==> v.negative is Some,
        v.negative matches Some(n) ==> request_fields(v).contains(("negative"@, quoted(n))),
        !(exists|i: int|
            0 <= i < request_fields(default_request(prompt)).len()
                && #[trigger] request_fields(default_request(prompt))[i].0 == "negative"@),
        request_fields(RequestView { negative: Some(negative), ..v }).contains(
            ("negative"@, quoted(negative)),
        ),
{
    let w = RequestView { negative: Some(negative), ..v };
    assert(request_fields(w)[1] == ("negative"@, quoted(negative)));
    if let Some(n) = v.negative {
        assert(request_fields(v).len() == 6);
        assert(request_fields(v)[1] == ("negative"@, quoted(n)));
        assert(request_fields(v)[1].0 == "negative"@);
    } else {
        lemma_no_negative_key(v);
    }
    lemma_no_negative_key(default_request(prompt));
}

proof fn lemma_no_negative_key(v: RequestView)
    requires
        v.negative is None,
    ensures
        forall|i: int|
            0 <= i < request_fields(v).len() ==> #[trigger] request_fields(v)[i].0 != "negative"@,
{
    reveal_strlit("negative");
    reveal_strlit("prompt");
    reveal_strlit("steps");
    reveal_strlit("model");
    reveal_strlit("size");
    reveal_strlit("orientation");
    let f = request_fields(v);
    assert(f.len() == 5);
    assert(f[0].0 == "prompt"@);
    assert(f[1].0 == "steps"@);
    assert(f[2].0 == "model"@);
    assert(f[3].0 == "size"@);
    assert(f[4].0 == "orientation"@);
}

} // verus!
