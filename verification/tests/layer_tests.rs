use response_cache::count_char::{count_chars, CountChar, CountCharLayer};
use response_cache::log_layer::{classify_status, status_label, Log, LogLayer, StatusClass};

#[test]
fn count_chars_exact_values() {
    let bytes: Vec<u8> = b"fluffy offer".to_vec();
    assert_eq!(count_chars(&bytes, Some('f')), 5);
    assert_eq!(count_chars(&bytes, Some('z')), 0);
    assert_eq!(count_chars(&bytes, None), 0);
}

#[test]
fn count_chars_empty_payload() {
    let bytes: Vec<u8> = Vec::new();
    assert_eq!(count_chars(&bytes, Some('f')), 0);
    assert_eq!(count_chars(&bytes, None), 0);
}

#[test]
fn count_chars_multibyte_char_matches_nothing() {
    // A character beyond one byte can never equal a single byte's value.
    let bytes: Vec<u8> = vec![0xE2u8, 0x82, 0xAC];
    assert_eq!(count_chars(&bytes, Some('\u{20AC}')), 0);
}

#[test]
fn count_chars_counts_every_occurrence() {
    let bytes: Vec<u8> = vec![b'a'; 300];
    assert_eq!(count_chars(&bytes, Some('a')), 300);
}

#[test]
fn classify_status_ranges() {
    assert_eq!(classify_status(100), StatusClass::Informational);
    assert_eq!(classify_status(199), StatusClass::Informational);
    assert_eq!(classify_status(200), StatusClass::Success);
    assert_eq!(classify_status(299), StatusClass::Success);
    assert_eq!(classify_status(300), StatusClass::Redirection);
    assert_eq!(classify_status(399), StatusClass::Redirection);
    assert_eq!(classify_status(400), StatusClass::ClientError);
    assert_eq!(classify_status(404), StatusClass::ClientError);
    assert_eq!(classify_status(500), StatusClass::ServerError);
    assert_eq!(classify_status(599), StatusClass::ServerError);
    assert_eq!(classify_status(99), StatusClass::Internal);
    assert_eq!(classify_status(600), StatusClass::Internal);
    assert_eq!(classify_status(0), StatusClass::Internal);
}

#[test]
fn status_labels() {
    assert_eq!(status_label(StatusClass::Success), "SUCCESS");
    assert_eq!(status_label(StatusClass::Informational), "INFORMATION");
    assert_eq!(status_label(StatusClass::Redirection), "REDIRECTION");
    assert_eq!(status_label(StatusClass::ClientError), "CLIENT ERROR");
    assert_eq!(status_label(StatusClass::ServerError), "SERVER ERROR");
    assert_eq!(status_label(StatusClass::Internal), "INTERNAL ERROR");
}

#[test]
fn layers_wrap_their_inner_handler() {
    let counting: CountChar<&str> = CountCharLayer::new('f').layer("handler");
    assert_eq!(counting.inner, "handler");
    assert_eq!(counting.c, 'f');
    let logging: Log<&str> = LogLayer.layer("handler");
    assert_eq!(logging.inner, "handler");
}
