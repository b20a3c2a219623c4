use konnektoren_vc::certificate_data::{CertificateData, Timestamp};
use konnektoren_vc::error::{IssuerError, OfferError};
use konnektoren_vc::qr::{
    encode_offer, image_to_png, qr_to_image, qr_to_string, QR_PADDING, QR_SCALE,
};
use konnektoren_vc::services::certificate_service::CertificateService;
use konnektoren_vc::storage::memory_storage::MemoryStorage;
use qrcodegen::{QrCode, QrCodeEcc};

const URL: &str = "openid-credential-offer://?credential_offer=%7B%22grants%22%3A%7B%22urn%3Aietf%3Aparams%3Aoauth%3Agrant-type%3Apre-authorized_code%22%3A%7B%22pre-authorized_code%22%3A%22abc%22%7D%7D%7D";

fn expected_text(qr: &QrCode) -> String {
    let mut text = String::new();
    for y in 0..qr.size() {
        for x in 0..qr.size() {
            text.push(if qr.get_module(x, y) { '\u{2588}' } else { ' ' });
        }
        text.push('\n');
    }
    text
}

#[test]
fn qr_text_has_one_line_per_row() {
    let qr = encode_offer("HELLO").expect("a short text");
    let reference = QrCode::encode_text("HELLO", QrCodeEcc::Medium).expect("a short text");
    assert!(qr == reference);
    let text = qr_to_string(&qr);
    assert_eq!(text, expected_text(&reference));
    assert_eq!(text.lines().count(), 21);
    assert!(text.lines().all(|line| line.chars().count() == 21));
    assert!(text.starts_with("\u{2588}\u{2588}\u{2588}\u{2588}\u{2588}\u{2588}\u{2588} "));
    assert!(text.ends_with('\n'));
}

#[test]
fn qr_text_of_a_longer_offer_matches_the_code() {
    let qr = encode_offer(URL).expect("an offer");
    assert!(qr.size() > 21);
    assert_eq!(qr_to_string(&qr), expected_text(&qr));
}

#[test]
fn qr_image_scales_modules_and_pads_with_white() {
    let qr = encode_offer("HELLO").expect("a short text");
    let png = image_to_png(&qr_to_image(&qr)).expect("a picture that fits a PNG");
    assert_eq!(&png[..8], b"\x89PNG\r\n\x1a\n");
    let picture = image::load_from_memory(&png).expect("a PNG file").to_rgb8();
    let side = 21 * QR_SCALE + 2 * QR_PADDING;
    assert_eq!(side, 290);
    assert_eq!(picture.width(), side);
    assert_eq!(picture.height(), side);
    assert_eq!(picture.as_raw().len(), (side * side * 3) as usize);
    for y in 0..side {
        for x in 0..side {
            let inside = x >= 40 && y >= 40 && x < 250 && y < 250;
            let dark = inside && qr.get_module(((x - 40) / 10) as i32, ((y - 40) / 10) as i32);
            let expected = if dark { 0u8 } else { 255u8 };
            assert_eq!(picture.get_pixel(x, y).0, [expected; 3], "pixel ({x}, {y})");
        }
    }
    assert_eq!(picture.get_pixel(40, 40).0, [0, 0, 0]);
    assert_eq!(picture.get_pixel(0, 0).0, [255, 255, 255]);
    assert_eq!(picture.get_pixel(39, 40).0, [255, 255, 255]);
    assert_eq!(picture.get_pixel(109, 40).0, [0, 0, 0]);
    assert_eq!(picture.get_pixel(110, 40).0, [255, 255, 255]);
}

#[test]
fn qr_image_of_a_larger_code_is_larger() {
    let qr = encode_offer(URL).expect("an offer");
    let png = image_to_png(&qr_to_image(&qr)).expect("a picture that fits a PNG");
    let picture = image::load_from_memory(&png).expect("a PNG file").to_rgb8();
    let side = qr.size() as u32 * 10 + 80;
    assert_eq!((picture.width(), picture.height()), (side, side));
    let last = side - 41;
    let dark = qr.get_module(qr.size() - 1, qr.size() - 1);
    assert_eq!(picture.get_pixel(last, last).0, [if dark { 0 } else { 255 }; 3]);
    assert_eq!(picture.get_pixel(side - 1, side - 1).0, [255, 255, 255]);
}

#[test]
fn text_too_long_for_a_qr_code_is_refused() {
    let long = "x".repeat(8000);
    assert!(encode_offer(&long).is_none());
    let mut storage = MemoryStorage::new();
    let record = CertificateData {
        game_path_name: "Intro".to_string(),
        total_challenges: 10,
        solved_challenges: 8,
        performance_percentage: 80,
        profile_name: "Alice".to_string(),
        date: Timestamp::from_unix(0, 0).expect("the epoch"),
    };
    let service = CertificateService::new("https://issuer.example/".to_string());
    let url = format!("{URL}&pad={long}");
    assert_eq!(
        service.generate_qr_code(&mut storage, &url, &record),
        Err(IssuerError::Offer(OfferError::TooLongForQr))
    );
    assert_eq!(storage.get_certificate_id_by_pre_authorized_code("abc"), None);
}

#[test]
fn qr_code_of_an_offer_is_its_url_and_records_the_certificate() {
    let mut storage = MemoryStorage::new();
    let record = CertificateData {
        game_path_name: "Intro".to_string(),
        total_challenges: 10,
        solved_challenges: 8,
        performance_percentage: 80,
        profile_name: "Alice".to_string(),
        date: Timestamp::from_unix(0, 0).expect("the epoch"),
    };
    let service = CertificateService::new("https://issuer.example/".to_string());
    let text = service.generate_qr_code(&mut storage, URL, &record).expect("a usable offer");
    let reference = QrCode::encode_text(URL, QrCodeEcc::Medium).expect("an offer");
    assert_eq!(text, expected_text(&reference));
    let id = storage.get_certificate_id_by_pre_authorized_code("abc").expect("bound");
    assert_eq!(storage.get_certificate(&id).expect("stored").game_path_name, "Intro");
}
