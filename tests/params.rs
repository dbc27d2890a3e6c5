use diffusion_to::{DiffusionError, ImageModel, ImageOrientation, ImageSize, ImageSteps};

#[test]
fn steps_round_trip_every_wire_value() {
    for v in [50u16, 100, 150, 200] {
        let s = ImageSteps::from_value(v).unwrap();
        assert_eq!(s.value(), v);
        assert_eq!(s.to_string(), v.to_string());
    }
    assert_eq!(ImageSteps::from_value(150).unwrap(), ImageSteps::OneHundredFifty);
}

#[test]
fn steps_reject_values_outside_the_set() {
    for v in [0u16, 49, 51, 99, 250, u16::MAX] {
        assert!(matches!(ImageSteps::from_value(v), Err(DiffusionError::InvalidStepAmount)));
    }
}

#[test]
fn steps_display_digits() {
    assert_eq!(ImageSteps::Fifty.to_string(), "50");
    assert_eq!(ImageSteps::TwoHundred.as_str(), "200");
}

#[test]
fn model_round_trip_every_wire_value() {
    let names = [
        "beauty_realism",
        "aesthetic_realism",
        "anime_realism",
        "analog_realism",
        "dream_reality",
        "stable_diffusion",
        "toon_animated",
        "fantasy_animated",
    ];
    for name in names {
        let m = ImageModel::from_name(name).unwrap();
        assert_eq!(m.to_string(), name);
        assert_eq!(m.as_str(), name);
    }
    assert_eq!(ImageModel::from_name("toon_animated").unwrap(), ImageModel::ToonAnimated);
}

#[test]
fn model_rejects_unknown_names() {
    for name in ["", "BeautyRealism", "beauty realism", "beauty_realism ", "stable"] {
        assert!(matches!(ImageModel::from_name(name), Err(DiffusionError::InvalidModel)));
    }
}

#[test]
fn size_round_trip_and_rejects() {
    for name in ["small", "medium", "large"] {
        assert_eq!(ImageSize::from_name(name).unwrap().to_string(), name);
    }
    assert_eq!(ImageSize::from_name("large").unwrap(), ImageSize::Large);
    assert!(matches!(ImageSize::from_name("huge"), Err(DiffusionError::InvalidSize)));
    assert!(matches!(ImageSize::from_name("Small"), Err(DiffusionError::InvalidSize)));
}

#[test]
fn orientation_round_trip_and_rejects() {
    for name in ["square", "landscape", "portrait"] {
        assert_eq!(ImageOrientation::from_name(name).unwrap().to_string(), name);
    }
    assert_eq!(ImageOrientation::from_name("portrait").unwrap(), ImageOrientation::Portrait);
    assert!(matches!(
        ImageOrientation::from_name("circle"),
        Err(DiffusionError::InvalidOrientation)
    ));
}

#[test]
fn conversions_from_raw_values() {
    assert_eq!(ImageSteps::try_from(200u16).unwrap(), ImageSteps::TwoHundred);
    assert!(matches!(ImageSteps::try_from(7u16), Err(DiffusionError::InvalidStepAmount)));
    let m: ImageModel = "stable_diffusion".to_string().try_into().unwrap();
    assert_eq!(m, ImageModel::StableDiffusion);
    assert!(matches!(ImageModel::try_from("nope".to_string()), Err(DiffusionError::InvalidModel)));
    assert_eq!(ImageSize::try_from("medium".to_string()).unwrap(), ImageSize::Medium);
    assert!(matches!(ImageSize::try_from("tiny".to_string()), Err(DiffusionError::InvalidSize)));
    assert_eq!(
        ImageOrientation::try_from("square".to_string()).unwrap(),
        ImageOrientation::Square
    );
    assert!(matches!(
        ImageOrientation::try_from("round".to_string()),
        Err(DiffusionError::InvalidOrientation)
    ));
}
