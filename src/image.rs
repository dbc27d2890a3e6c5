//! The job token that the service hands out for a request, and the finished
//! image that it returns for a token.

use vstd::prelude::*;

use crate::error::DiffusionError;
use crate::json::{fields_view, object, quote, quoted, write_object};
use crate::params::{
    model_named, size_named, steps_of_value, ImageModel, ImageSize, ImageSteps,
};

verus! {

/// The opaque token that identifies one submitted request.
#[derive(Debug, Clone)]
pub struct ImageToken {
    token: String,
}

impl View for ImageToken {
    type V = Seq<char>;

    closed spec fn view(&self) -> Seq<char> {
        self.token@
    }
}

/// The body that carries a token: an object whose one member is the token.
pub open spec fn token_json(token: Seq<char>) -> Seq<char> {
    object(seq![("token"@, quoted(token))])
}

impl ImageToken {
    /// The token that the service returned.
    pub fn new(token: String) -> (r: ImageToken)
        ensures
            r@ == token@,
    {
        ImageToken { token }
    }

    pub fn as_str(&self) -> (r: &str)
        ensures
            r@ == self@,
    {
        self.token.as_str()
    }

    /// The JSON body that asks for the status of this token.
    pub fn to_json(&self) -> (r: String)
        ensures
            r@ == token_json(self@),
    {
        let mut fields: Vec<(String, String)> = Vec::new();
        fields.push(("token".to_owned(), quote(self.token.as_str())));
        let r = write_object(&fields);
        assert(fields_view(fields@) =~= seq![("token"@, quoted(self@))]);
        r
    }
}

/// A finished image as the service describes it. The time stamps are kept as
/// the service wrote them; `raw` holds `<prefix>,<base64 data>`.
#[derive(Debug, Clone)]
pub struct DiffusionImage {
    pub id: u64,
    pub steps: ImageSteps,
    pub size: ImageSize,
    pub model: ImageModel,
    pub credits_used: u64,
    pub created_at: String,
    pub updated_at: String,
    pub raw: String,
}

impl DiffusionImage {
    /// The image described by the service's values, with steps, size and
    /// model read from their wire forms. The first of them, in that order,
    /// that is not a valid wire value gives its parameter's error.
    pub fn from_wire(
        id: u64,
        steps: u16,
        size: &str,
        model: &str,
        credits_used: u64,
        created_at: String,
        updated_at: String,
        raw: String,
    ) -> (r: Result<DiffusionImage, DiffusionError>)
        ensures
            steps_of_value(steps) is None ==> r == Err::<DiffusionImage, DiffusionError>(
                DiffusionError::InvalidStepAmount,
            ),
            steps_of_value(steps) is Some && size_named(size@) is None ==> r == Err::<
                DiffusionImage,
                DiffusionError,
            >(DiffusionError::InvalidSize),
            steps_of_value(steps) is Some && size_named(size@) is Some && model_named(model@) is None
                ==> r == Err::<DiffusionImage, DiffusionError>(DiffusionError::InvalidModel),
            r is Ok <==> (steps_of_value(steps) is Some && size_named(size@) is Some && model_named(
                model@,
            ) is Some),
            r matches Ok(img) ==> img.id == id && Some(img.steps) == steps_of_value(steps) && Some(
                img.size,
            ) == size_named(size@) && Some(img.model) == model_named(model@) && img.credits_used
                == credits_used && img.created_at == created_at && img.updated_at == updated_at
                && img.raw == raw,
    {
        let steps = match ImageSteps::from_value(steps) {
            Ok(s) => s,
            Err(e) => return Err(e),
        };
        let size = match ImageSize::from_name(size) {
            Ok(s) => s,
            Err(e) => return Err(e),
        };
        let model = match ImageModel::from_name(model) {
            Ok(m) => m,
            Err(e) => return Err(e),
        };
        Ok(DiffusionImage { id, steps, size, model, credits_used, created_at, updated_at, raw })
    }
}

} // verus!
