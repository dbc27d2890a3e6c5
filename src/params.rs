//! The four enumerated generation parameters, each with its wire form and a
//! parse from the raw value that a user supplies.

use vstd::prelude::*;

use crate::error::DiffusionError;
use crate::text::same_text;

verus! {

/// The number of diffusion steps; on the wire it is the plain number.
#[derive(Debug, Clone, Copy, PartialEq, Eq, Structural)]
pub enum ImageSteps {
    Fifty,
    OneHundred,
    OneHundredFifty,
    TwoHundred,
}

/// The step count that the wire value `v` stands for, if any.
pub open spec fn steps_of_value(v: u16) -> Option<ImageSteps> {
    if v == 50 {
        Some(ImageSteps::Fifty)
    } else if v == 100 {
        Some(ImageSteps::OneHundred)
    } else if v == 150 {
        Some(ImageSteps::OneHundredFifty)
    } else if v == 200 {
        Some(ImageSteps::TwoHundred)
    } else {
        None
    }
}

impl ImageSteps {
    /// The number sent on the wire.
    pub open spec fn spec_value(self) -> u16 {
        match self {
            ImageSteps::Fifty => 50,
            ImageSteps::OneHundred => 100,
            ImageSteps::OneHundredFifty => 150,
            ImageSteps::TwoHundred => 200,
        }
    }

    /// The decimal digits of the number, which is also how it is displayed.
    pub open spec fn wire(self) -> Seq<char> {
        match self {
            ImageSteps::Fifty => "50"@,
            ImageSteps::OneHundred => "100"@,
            ImageSteps::OneHundredFifty => "150"@,
            ImageSteps::TwoHundred => "200"@,
        }
    }

    pub fn value(&self) -> (r: u16)
        ensures
            r == self.spec_value(),
    {
        match self {
            ImageSteps::Fifty => 50,
            ImageSteps::OneHundred => 100,
            ImageSteps::OneHundredFifty => 150,
            ImageSteps::TwoHundred => 200,
        }
    }

    pub fn as_str(&self) -> (r: &'static str)
        ensures
            r@ == self.wire(),
    {
        match self {
            ImageSteps::Fifty => "50",
            ImageSteps::OneHundred => "100",
            ImageSteps::OneHundredFifty => "150",
            ImageSteps::TwoHundred => "200",
        }
    }

    pub fn to_string(&self) -> (r: String)
        ensures
            r@ == self.wire(),
    {
        self.as_str().to_owned()
    }

    /// The step count for a raw number, or `InvalidStepAmount`.
    pub fn from_value(value: u16) -> (r: Result<ImageSteps, DiffusionError>)
        ensures
            r == match steps_of_value(value) {
                Some(s) => Ok::<ImageSteps, DiffusionError>(s),
                None => Err(DiffusionError::InvalidStepAmount),
            },
    {
        match value {
            50 => Ok(ImageSteps::Fifty),
            100 => Ok(ImageSteps::OneHundred),
            150 => Ok(ImageSteps::OneHundredFifty),
            200 => Ok(ImageSteps::TwoHundred),
            _ => Err(DiffusionError::InvalidStepAmount),
        }
    }
}

impl TryFrom<u16> for ImageSteps {
    type Error = DiffusionError;

    fn try_from(value: u16) -> Result<ImageSteps, DiffusionError> {
        ImageSteps::from_value(value)
    }
}

impl vstd::std_specs::convert::TryFromSpecImpl<u16> for ImageSteps {
    open spec fn obeys_try_from_spec() -> bool {
        true
    }

    open spec fn try_from_spec(v: u16) -> Result<ImageSteps, DiffusionError> {
        match steps_of_value(v) {
            Some(s) => Ok(s),
            None => Err(DiffusionError::InvalidStepAmount),
        }
    }
}

/// The image model.
#[derive(Debug, Clone, Copy, PartialEq, Eq, Structural)]
pub enum ImageModel {
    BeautyRealism,
    AestheticRealism,
    AnimeRealism,
    AnalogRealism,
    DreamReality,
    StableDiffusion,
    ToonAnimated,
    FantasyAnimated,
}

/// The model whose wire name is `s`, if any.
pub open spec fn model_named(s: Seq<char>) -> Option<ImageModel> {
    if s == "beauty_realism"@ {
        Some(ImageModel::BeautyRealism)
    } else if s == "aesthetic_realism"@ {
        Some(ImageModel::AestheticRealism)
    } else if s == "anime_realism"@ {
        Some(ImageModel::AnimeRealism)
    } else if s == "analog_realism"@ {
        Some(ImageModel::AnalogRealism)
    } else if s == "dream_reality"@ {
        Some(ImageModel::DreamReality)
    } else if s == "stable_diffusion"@ {
        Some(ImageModel::StableDiffusion)
    } else if s == "toon_animated"@ {
        Some(ImageModel::ToonAnimated)
    } else if s == "fantasy_animated"@ {
        Some(ImageModel::FantasyAnimated)
    } else {
        None
    }
}

impl ImageModel {
    /// The name sent on the wire, which is also how it is displayed.
    pub open spec fn wire(self) -> Seq<char> {
        match self {
            ImageModel::BeautyRealism => "beauty_realism"@,
            ImageModel::AestheticRealism => "aesthetic_realism"@,
            ImageModel::AnimeRealism => "anime_realism"@,
            ImageModel::AnalogRealism => "analog_realism"@,
            ImageModel::DreamReality => "dream_reality"@,
            ImageModel::StableDiffusion => "stable_diffusion"@,
            ImageModel::ToonAnimated => "toon_animated"@,
            ImageModel::FantasyAnimated => "fantasy_animated"@,
        }
    }

    pub fn as_str(&self) -> (r: &'static str)
        ensures
            r@ == self.wire(),
    {
        match self {
            ImageModel::BeautyRealism => "beauty_realism",
            ImageModel::AestheticRealism => "aesthetic_realism",
            ImageModel::AnimeRealism => "anime_realism",
            ImageModel::AnalogRealism => "analog_realism",
            ImageModel::DreamReality => "dream_reality",
            ImageModel::StableDiffusion => "stable_diffusion",
            ImageModel::ToonAnimated => "toon_animated",
            ImageModel::FantasyAnimated => "fantasy_animated",
        }
    }

    pub fn to_string(&self) -> (r: String)
        ensures
            r@ == self.wire(),
    {
        self.as_str().to_owned()
    }

    /// The model for a raw name, or `InvalidModel`.
    pub fn from_name(name: &str) -> (r: Result<ImageModel, DiffusionError>)
        ensures
            r == match model_named(name@) {
                Some(m) => Ok::<ImageModel, DiffusionError>(m),
                None => Err(DiffusionError::InvalidModel),
            },
    {
        if same_text(name, "beauty_realism") {
            Ok(ImageModel::BeautyRealism)
        } else if same_text(name, "aesthetic_realism") {
            Ok(ImageModel::AestheticRealism)
        } else if same_text(name, "anime_realism") {
            Ok(ImageModel::AnimeRealism)
        } else if same_text(name, "analog_realism") {
            Ok(ImageModel::AnalogRealism)
        } else if same_text(name, "dream_reality") {
            Ok(ImageModel::DreamReality)
        } else if same_text(name, "stable_diffusion") {
            Ok(ImageModel::StableDiffusion)
        } else if same_text(name, "toon_animated") {
            Ok(ImageModel::ToonAnimated)
        } else if same_text(name, "fantasy_animated") {
            Ok(ImageModel::FantasyAnimated)
        } else {
            Err(DiffusionError::InvalidModel)
        }
    }
}

impl TryFrom<String> for ImageModel {
    type Error = DiffusionError;

    fn try_from(value: String) -> Result<ImageModel, DiffusionError> {
        ImageModel::from_name(value.as_str())
    }
}

impl vstd::std_specs::convert::TryFromSpecImpl<String> for ImageModel {
    open spec fn obeys_try_from_spec() -> bool {
        true
    }

    open spec fn try_from_spec(v: String) -> Result<ImageModel, DiffusionError> {
        match model_named(v@) {
            Some(x) => Ok(x),
            None => Err(DiffusionError::InvalidModel),
        }
    }
}

/// The image size.
#[derive(Debug, Clone, Copy, PartialEq, Eq, Structural)]
pub enum ImageSize {
    Small,
    Medium,
    Large,
}

/// The size whose wire name is `s`, if any.
pub open spec fn size_named(s: Seq<char>) -> Option<ImageSize> {
    if s == "small"@ {
        Some(ImageSize::Small)
    } else if s == "medium"@ {
        Some(ImageSize::Medium)
    } else if s == "large"@ {
        Some(ImageSize::Large)
    } else {
        None
    }
}

impl ImageSize {
    /// The name sent on the wire, which is also how it is displayed.
    pub open spec fn wire(self) -> Seq<char> {
        match self {
            ImageSize::Small => "small"@,
            ImageSize::Medium => "medium"@,
            ImageSize::Large => "large"@,
        }
    }

    pub fn as_str(&self) -> (r: &'static str)
        ensures
            r@ == self.wire(),
    {
        match self {
            ImageSize::Small => "small",
            ImageSize::Medium => "medium",
            ImageSize::Large => "large",
        }
    }

    pub fn to_string(&self) -> (r: String)
        ensures
            r@ == self.wire(),
    {
        self.as_str().to_owned()
    }

    /// The size for a raw name, or `InvalidSize`.
    pub fn from_name(name: &str) -> (r: Result<ImageSize, DiffusionError>)
        ensures
            r == match size_named(name@) {
                Some(s) => Ok::<ImageSize, DiffusionError>(s),
                None => Err(DiffusionError::InvalidSize),
            },
    {
        if same_text(name, "small") {
            Ok(ImageSize::Small)
        } else if same_text(name, "medium") {
            Ok(ImageSize::Medium)
        } else if same_text(name, "large") {
            Ok(ImageSize::Large)
        } else {
            Err(DiffusionError::InvalidSize)
        }
    }
}

impl TryFrom<String> for ImageSize {
    type Error = DiffusionError;

    fn try_from(value: String) -> Result<ImageSize, DiffusionError> {
        ImageSize::from_name(value.as_str())
    }
}

impl vstd::std_specs::convert::TryFromSpecImpl<String> for ImageSize {
    open spec fn obeys_try_from_spec() -> bool {
        true
    }

    open spec fn try_from_spec(v: String) -> Result<ImageSize, DiffusionError> {
        match size_named(v@) {
            Some(x) => Ok(x),
            None => Err(DiffusionError::InvalidSize),
        }
    }
}

/// The image orientation.
#[derive(Debug, Clone, Copy, PartialEq, Eq, Structural)]
pub enum ImageOrientation {
    Square,
    Landscape,
    Portrait,
}

/// The orientation whose wire name is `s`, if any.
pub open spec fn orientation_named(s: Seq<char>) -> Option<ImageOrientation> {
    if s == "square"@ {
        Some(ImageOrientation::Square)
    } else if s == "landscape"@ {
        Some(ImageOrientation::Landscape)
    } else if s == "portrait"@ {
        Some(ImageOrientation::Portrait)
    } else {
        None
    }
}

impl ImageOrientation {
    /// The name sent on the wire, which is also how it is displayed.
    pub open spec fn wire(self) -> Seq<char> {
        match self {
            ImageOrientation::Square => "square"@,
            ImageOrientation::Landscape => "landscape"@,
            ImageOrientation::Portrait => "portrait"@,
        }
    }

    pub fn as_str(&self) -> (r: &'static str)
        ensures
            r@ == self.wire(),
    {
        match self {
            ImageOrientation::Square => "square",
            ImageOrientation::Landscape => "landscape",
            ImageOrientation::Portrait => "portrait",
        }
    }

    pub fn to_string(&self) -> (r: String)
        ensures
            r@ == self.wire(),
    {
        self.as_str().to_owned()
    }

    /// The orientation for a raw name, or `InvalidOrientation`.
    pub fn from_name(name: &str) -> (r: Result<ImageOrientation, DiffusionError>)
        ensures
            r == match orientation_named(name@) {
                Some(o) => Ok::<ImageOrientation, DiffusionError>(o),
                None => Err(DiffusionError::InvalidOrientation),
            },
    {
        if same_text(name, "square") {
            Ok(ImageOrientation::Square)
        } else if same_text(name, "landscape") {
            Ok(ImageOrientation::Landscape)
        } else if same_text(name, "portrait") {
            Ok(ImageOrientation::Portrait)
        } else {
            Err(DiffusionError::InvalidOrientation)
        }
    }
}

impl TryFrom<String> for ImageOrientation {
    type Error = DiffusionError;

    fn try_from(value: String) -> Result<ImageOrientation, DiffusionError> {
        ImageOrientation::from_name(value.as_str())
    }
}

impl vstd::std_specs::convert::TryFromSpecImpl<String> for ImageOrientation {
    open spec fn obeys_try_from_spec() -> bool {
        true
    }

    open spec fn try_from_spec(v: String) -> Result<ImageOrientation, DiffusionError> {
        match orientation_named(v@) {
            Some(x) => Ok(x),
            None => Err(DiffusionError::InvalidOrientation),
        }
    }
}

/// A step count's number parses back to that step count, a number that parses
/// is the wire number of what it parses to, and a number that is the wire
/// number of no step count does not parse.
pub proof fn lemma_steps_round_trip(s: ImageSteps, v: u16)
    ensures
        steps_of_value(s.spec_value()) == Some(s),
        steps_of_value(v) matches Some(t) ==> t.spec_value() == v,
        (forall|t: ImageSteps| t.spec_value() != v) ==> steps_of_value(v) is None,
{
    if steps_of_value(v) is Some {
        let t = steps_of_value(v)->0;
        assert(t.spec_value() == v);
    }
}

/// A model's wire name parses back to that model, a name that parses is the
/// wire name of what it parses to, and any other name does not parse.
pub proof fn lemma_model_round_trip(m: ImageModel, s: Seq<char>)
    ensures
        model_named(m.wire()) == Some(m),
        model_named(s) matches Some(n) ==> n.wire() == s,
        (forall|n: ImageModel| n.wire() != s) ==> model_named(s) is None,
{
    reveal_strlit("beauty_realism");
    reveal_strlit("aesthetic_realism");
    reveal_strlit("anime_realism");
    reveal_strlit("analog_realism");
    reveal_strlit("dream_reality");
    reveal_strlit("stable_diffusion");
    reveal_strlit("toon_animated");
    reveal_strlit("fantasy_animated");
    assert("beauty_realism"@.len() != "aesthetic_realism"@.len());
    assert("beauty_realism"@.len() != "anime_realism"@.len());
    assert("beauty_realism"@[0] != "analog_realism"@[0]);
    assert("beauty_realism"@.len() != "dream_reality"@.len());
    assert("beauty_realism"@.len() != "stable_diffusion"@.len());
    assert("beauty_realism"@.len() != "toon_animated"@.len());
    assert("beauty_realism"@.len() != "fantasy_animated"@.len());
    assert("aesthetic_realism"@.len() != "anime_realism"@.len());
    assert("aesthetic_realism"@.len() != "analog_realism"@.len());
    assert("aesthetic_realism"@.len() != "dream_reality"@.len());
    assert("aesthetic_realism"@.len() != "stable_diffusion"@.len());
    assert("aesthetic_realism"@.len() != "toon_animated"@.len());
    assert("aesthetic_realism"@.len() != "fantasy_animated"@.len());
    assert("anime_realism"@.len() != "analog_realism"@.len());
    assert("anime_realism"@[0] != "dream_reality"@[0]);
    assert("anime_realism"@.len() != "stable_diffusion"@.len());
    assert("anime_realism"@[0] != "toon_animated"@[0]);
    assert("anime_realism"@.len() != "fantasy_animated"@.len());
    assert("analog_realism"@.len() != "dream_reality"@.len());
    assert("analog_realism"@.len() != "stable_diffusion"@.len());
    assert("analog_realism"@.len() != "toon_animated"@.len());
    assert("analog_realism"@.len() != "fantasy_animated"@.len());
    assert("dream_reality"@.len() != "stable_diffusion"@.len());
    assert("dream_reality"@[0] != "toon_animated"@[0]);
    assert("dream_reality"@.len() != "fantasy_animated"@.len());
    assert("stable_diffusion"@.len() != "toon_animated"@.len());
    assert("stable_diffusion"@[0] != "fantasy_animated"@[0]);
    assert("toon_animated"@.len() != "fantasy_animated"@.len());
    if model_named(s) is Some {
        let n = model_named(s)->0;
        assert(n.wire() == s);
    }
}

/// A size's wire name parses back to that size, a name that parses is the
/// wire name of what it parses to, and any other name does not parse.
pub proof fn lemma_size_round_trip(z: ImageSize, s: Seq<char>)
    ensures
        size_named(z.wire()) == Some(z),
        size_named(s) matches Some(n) ==> n.wire() == s,
        (forall|n: ImageSize| n.wire() != s) ==> size_named(s) is None,
{
    reveal_strlit("small");
    reveal_strlit("medium");
    reveal_strlit("large");
    assert("small"@.len() != "medium"@.len());
    assert("small"@[0] != "large"@[0]);
    assert("medium"@.len() != "large"@.len());
    if size_named(s) is Some {
        let n = size_named(s)->0;
        assert(n.wire() == s);
    }
}

/// An orientation's wire name parses back to that orientation, a name that
/// parses is the wire name of what it parses to, and any other name does not
/// parse.
pub proof fn lemma_orientation_round_trip(o: ImageOrientation, s: Seq<char>)
    ensures
        orientation_named(o.wire()) == Some(o),
        orientation_named(s) matches Some(n) ==> n.wire() == s,
        (forall|n: ImageOrientation| n.wire() != s) ==> orientation_named(s) is None,
{
    reveal_strlit("square");
    reveal_strlit("landscape");
    reveal_strlit("portrait");
    assert("square"@.len() != "landscape"@.len());
    assert("square"@.len() != "portrait"@.len());
    assert("landscape"@.len() != "portrait"@.len());
    if orientation_named(s) is Some {
        let n = orientation_named(s)->0;
        assert(n.wire() == s);
    }
}

} // verus!
