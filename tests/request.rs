use diffusion_to::{ImageModel, ImageOrientation, ImageRequest, ImageSize, ImageSteps, ImageToken};

fn parse(text: &str) -> serde_json::Value {
    serde_json::from_str(text).unwrap()
}

#[test]
fn new_request_has_the_defaults() {
    let r = ImageRequest::new("a cat".to_string());
    assert_eq!(r.prompt(), "a cat");
    assert_eq!(r.negative_prompt(), None);
    assert_eq!(r.steps(), ImageSteps::Fifty);
    assert_eq!(r.model(), ImageModel::BeautyRealism);
    assert_eq!(r.size(), ImageSize::Small);
    assert_eq!(r.orientation(), ImageOrientation::Landscape);
}

#[test]
fn default_request_body_is_exact() {
    let r = ImageRequest::new("a cat".to_string());
    assert_eq!(
        r.to_json(),
        "{\"prompt\":\"a cat\",\"steps\":50,\"model\":\"beauty_realism\",\"size\":\"small\",\"orientation\":\"landscape\"}"
    );
}

#[test]
fn body_without_negative_prompt_has_no_negative_key() {
    let r = ImageRequest::new("a cat".to_string());
    let v = parse(&r.to_json());
    let obj = v.as_object().unwrap();
    assert!(!obj.contains_key("negative"));
    assert_eq!(obj.len(), 5);
}

#[test]
fn body_with_negative_prompt_has_negative_key() {
    let r = ImageRequest::new("a cat".to_string()).update_negative_prompt("dogs".to_string());
    assert_eq!(r.negative_prompt(), Some("dogs"));
    let v = parse(&r.to_json());
    assert_eq!(v["negative"], serde_json::Value::String("dogs".to_string()));
    assert_eq!(v.as_object().unwrap().len(), 6);
}

#[test]
fn each_update_replaces_one_field() {
    let r = ImageRequest::new("p".to_string())
        .update_steps(ImageSteps::TwoHundred)
        .update_model(ImageModel::DreamReality)
        .update_size(ImageSize::Large)
        .update_orientation(ImageOrientation::Portrait);
    assert_eq!(r.prompt(), "p");
    assert_eq!(r.negative_prompt(), None);
    assert_eq!(r.steps(), ImageSteps::TwoHundred);
    assert_eq!(r.model(), ImageModel::DreamReality);
    assert_eq!(r.size(), ImageSize::Large);
    assert_eq!(r.orientation(), ImageOrientation::Portrait);
    let v = parse(&r.to_json());
    assert_eq!(v["steps"].as_u64(), Some(200));
    assert_eq!(v["model"], "dream_reality");
    assert_eq!(v["size"], "large");
    assert_eq!(v["orientation"], "portrait");
}

#[test]
fn prompt_text_is_escaped() {
    let prompt = "say \"hi\"\\ now\n\ttab\u{1}\u{8}\u{c}\r caf\u{e9} \u{1F600}";
    let r = ImageRequest::new(prompt.to_string()).update_negative_prompt("\u{1f}".to_string());
    let text = r.to_json();
    assert!(text.contains("\\u0001"));
    assert!(text.contains("\\u001f"));
    let v = parse(&text);
    assert_eq!(v["prompt"], prompt);
    assert_eq!(v["negative"], "\u{1f}");
}

#[test]
fn token_body_is_exact() {
    let t = ImageToken::new("abc123".to_string());
    assert_eq!(t.as_str(), "abc123");
    assert_eq!(t.to_json(), "{\"token\":\"abc123\"}");
    assert_eq!(t.clone().as_str(), "abc123");
}
