use diffusion_to::{
    authorization_value, next_poll_step, status_outcome, DiffusionClient, DiffusionError,
    DiffusionImage, ImageModel,
    ImageSize, ImageSteps, PollStep, POLL_INTERVAL_MS,
};

fn sample_image() -> DiffusionImage {
    DiffusionImage::from_wire(
        7,
        100,
        "medium",
        "anime_realism",
        3,
        "2024-01-01".to_string(),
        "2024-01-02".to_string(),
        "data:image/png;base64,QUJD".to_string(),
    )
    .unwrap()
}

#[test]
fn status_no_content_is_not_ready() {
    assert!(matches!(status_outcome(204), Err(DiffusionError::ImageStatusNotReady)));
}

#[test]
fn status_created_holds_the_image() {
    assert!(matches!(status_outcome(201), Ok(())));
}

#[test]
fn status_other_codes_are_unexpected() {
    assert!(matches!(status_outcome(500), Err(DiffusionError::UnknownHttpError(500))));
    assert!(matches!(status_outcome(200), Err(DiffusionError::UnknownHttpError(200))));
    assert!(matches!(status_outcome(404), Err(DiffusionError::UnknownHttpError(404))));
}

#[test]
fn image_from_wire_values() {
    let img = sample_image();
    assert_eq!(img.id, 7);
    assert_eq!(img.steps, ImageSteps::OneHundred);
    assert_eq!(img.size, ImageSize::Medium);
    assert_eq!(img.model, ImageModel::AnimeRealism);
    assert_eq!(img.credits_used, 3);
    assert_eq!(img.created_at, "2024-01-01");
    assert_eq!(img.updated_at, "2024-01-02");
    assert_eq!(img.raw, "data:image/png;base64,QUJD");
}

#[test]
fn image_from_wire_rejects_bad_values() {
    let s = || String::new();
    assert!(matches!(
        DiffusionImage::from_wire(1, 75, "huge", "x", 0, s(), s(), s()),
        Err(DiffusionError::InvalidStepAmount)
    ));
    assert!(matches!(
        DiffusionImage::from_wire(1, 50, "huge", "x", 0, s(), s(), s()),
        Err(DiffusionError::InvalidSize)
    ));
    assert!(matches!(
        DiffusionImage::from_wire(1, 50, "small", "x", 0, s(), s(), s()),
        Err(DiffusionError::InvalidModel)
    ));
}

#[test]
fn ready_image_ends_polling() {
    match next_poll_step(Ok(sample_image()), Some(0), 1_000_000) {
        PollStep::Finished(Ok(img)) => assert_eq!(img.id, 7),
        other => panic!("unexpected step {:?}", other),
    }
}

#[test]
fn zero_deadline_times_out_at_once() {
    for elapsed in [0u64, 1, 5000] {
        let step = next_poll_step(Err(DiffusionError::ImageStatusNotReady), Some(0), elapsed);
        assert!(matches!(step, PollStep::Finished(Err(DiffusionError::TimeExpired))));
    }
}

#[test]
fn failures_before_deadline_wait_five_seconds() {
    let step = next_poll_step(Err(DiffusionError::UnknownHttpError(500)), Some(10_000), 9_999);
    assert!(matches!(step, PollStep::Sleep(5000)));
    let step = next_poll_step(Err(DiffusionError::ImageStatusNotReady), None, u64::MAX);
    assert!(matches!(step, PollStep::Sleep(POLL_INTERVAL_MS)));
}

#[test]
fn never_ready_endpoint_with_deadline_stops() {
    // A clock that only moves by the waits the loop asks for.
    let mut elapsed: u64 = 0;
    let mut checks = 0;
    loop {
        checks += 1;
        match next_poll_step(Err(DiffusionError::ImageStatusNotReady), Some(12_000), elapsed) {
            PollStep::Sleep(ms) => elapsed += ms,
            PollStep::Finished(r) => {
                assert!(matches!(r, Err(DiffusionError::TimeExpired)));
                break;
            }
        }
        assert!(checks < 100);
    }
    assert_eq!(checks, 4);
    assert_eq!(elapsed, 15_000);
}

#[test]
fn client_accepts_a_plain_key() {
    assert!(DiffusionClient::new("abc-key".to_string()).is_ok());
}

#[test]
fn client_rejects_a_key_with_control_characters() {
    assert!(matches!(
        DiffusionClient::new("bad\nkey".to_string()),
        Err(DiffusionError::InvalidHeader(_))
    ));
    assert!(matches!(
        DiffusionClient::new("bad\u{7f}key".to_string()),
        Err(DiffusionError::InvalidHeader(_))
    ));
}

#[test]
fn authorization_is_bearer_then_key() {
    assert_eq!(authorization_value("abc-key"), "Bearer abc-key");
    assert_eq!(authorization_value(""), "Bearer ");
}
