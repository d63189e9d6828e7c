use base64::Engine;
use capster::convert_handler::{convert_image, parse_target, ConvertError, ConvertOutput, ConvertParams, ImageKind};
use capster::qr_handler::{generate_qr, generate_qr_checked, parse_ec_level, EcLevel, QrError, QrOutput, QrRequest, QR_MAX_SIZE};

const PNG_SIGNATURE: [u8; 8] = [0x89, b'P', b'N', b'G', 0x0d, 0x0a, 0x1a, 0x0a];

fn small_png() -> Vec<u8> {
    let img = image::RgbImage::from_pixel(4, 3, image::Rgb([10, 200, 30]));
    let mut buf = std::io::Cursor::new(Vec::new());
    image::DynamicImage::ImageRgb8(img).write_to(&mut buf, image::ImageFormat::Png).unwrap();
    buf.into_inner()
}

fn params(target: Option<&str>, output: Option<&str>) -> ConvertParams {
    ConvertParams { target: target.map(String::from), output: output.map(String::from) }
}

#[test]
fn targets() {
    assert!(parse_target("png") == Some(ImageKind::Png));
    assert!(parse_target("jpg") == Some(ImageKind::Jpeg));
    assert!(parse_target("jpeg") == Some(ImageKind::Jpeg));
    assert!(parse_target("webp") == Some(ImageKind::WebP));
    assert!(parse_target("gif").is_none());
    assert!(parse_target("PNG").is_none());
}

#[test]
fn convert_refusals_in_order() {
    let r = convert_image(&params(Some("gif"), None), None);
    assert_eq!(r.err(), Some(ConvertError::MissingFile));
    let r = convert_image(&params(Some("gif"), None), Some(vec![1, 2, 3]));
    assert_eq!(r.err(), Some(ConvertError::InvalidImage));
    let r = convert_image(&params(Some("gif"), None), Some(small_png()));
    assert_eq!(r.err(), Some(ConvertError::UnsupportedFormat));
    assert_eq!(ConvertError::UnsupportedFormat.status(), 400);
    assert_eq!(ConvertError::ConvertFailed.status(), 500);
}

#[test]
fn convert_to_jpeg_bytes() {
    match convert_image(&params(Some("jpg"), None), Some(small_png())) {
        Ok(ConvertOutput::Binary { content_type, bytes }) => {
            assert_eq!(content_type, "image/jpeg");
            assert_eq!(&bytes[..2], &[0xff, 0xd8]);
        }
        _ => panic!("expected jpeg bytes"),
    }
}

#[test]
fn convert_defaults_to_png_bytes() {
    match convert_image(&params(None, None), Some(small_png())) {
        Ok(ConvertOutput::Binary { content_type, bytes }) => {
            assert_eq!(content_type, "image/png");
            assert_eq!(&bytes[..8], &PNG_SIGNATURE);
        }
        _ => panic!("expected png bytes"),
    }
}

#[test]
fn convert_to_base64_json() {
    match convert_image(&params(Some("webp"), Some("base64")), Some(small_png())) {
        Ok(ConvertOutput::Json(r)) => {
            assert_eq!(r.format, "webp");
            assert_eq!(r.content_type, "image/webp");
            let prefix = "data:image/webp;base64,";
            assert!(r.data.starts_with(prefix));
            let bytes = base64::engine::general_purpose::STANDARD.decode(&r.data[prefix.len()..]).unwrap();
            assert_eq!(&bytes[..4], b"RIFF");
            assert_eq!(&bytes[8..12], b"WEBP");
        }
        _ => panic!("expected json"),
    }
}

fn qr(text: &str, ec: Option<&str>, size: Option<u32>, format: Option<&str>) -> QrRequest {
    QrRequest {
        text: String::from(text),
        ec_level: ec.map(String::from),
        size,
        format: format.map(String::from),
    }
}

#[test]
fn ec_levels() {
    assert_eq!(parse_ec_level(&Some(String::from("L"))), EcLevel::L);
    assert_eq!(parse_ec_level(&Some(String::from("M"))), EcLevel::M);
    assert_eq!(parse_ec_level(&Some(String::from("Q"))), EcLevel::Q);
    assert_eq!(parse_ec_level(&Some(String::from("H"))), EcLevel::H);
    assert_eq!(parse_ec_level(&Some(String::from("x"))), EcLevel::M);
    assert_eq!(parse_ec_level(&None), EcLevel::M);
}

#[test]
fn qr_refusals() {
    assert_eq!(generate_qr(&qr("", None, None, Some("bmp"))).err(), Some(QrError::EmptyText));
    let long = "a".repeat(8000);
    assert_eq!(generate_qr(&qr(&long, Some("H"), None, Some("bmp"))).err(), Some(QrError::GenerateFailed));
    assert_eq!(generate_qr(&qr("hello", None, None, Some("bmp"))).err(), Some(QrError::UnsupportedFormat));
}

#[test]
fn qr_png() {
    match generate_qr(&qr("hello", None, Some(100), None)) {
        Ok(out) => {
            assert_eq!(out.content_type(), "image/png");
            match out {
                QrOutput::Png(bytes) => {
                    assert_eq!(&bytes[..8], &PNG_SIGNATURE);
                    let img = image::load_from_memory(&bytes).unwrap();
                    assert!(img.width() >= 100);
                }
                _ => panic!("expected png"),
            }
        }
        Err(_) => panic!("expected png"),
    }
}

#[test]
fn qr_base64_png() {
    match generate_qr(&qr("hello", Some("Q"), None, Some("base64_png"))) {
        Ok(QrOutput::Base64Png(s)) => {
            let prefix = "data:image/png;base64,";
            assert!(s.starts_with(prefix));
            let bytes = base64::engine::general_purpose::STANDARD.decode(&s[prefix.len()..]).unwrap();
            assert_eq!(&bytes[..8], &PNG_SIGNATURE);
            let img = image::load_from_memory(&bytes).unwrap();
            assert!(img.width() >= 256);
        }
        _ => panic!("expected base64 png"),
    }
}

#[test]
fn qr_svg() {
    match generate_qr(&qr("hello", Some("L"), Some(10), Some("svg"))) {
        Ok(out) => {
            assert_eq!(out.content_type(), "image/svg+xml");
            match out {
                QrOutput::Svg(s) => {
                    assert!(s.contains("<svg"));
                    assert!(s.contains("#000000"));
                    assert!(s.contains("#ffffff"));
                }
                _ => panic!("expected svg"),
            }
        }
        Err(_) => panic!("expected svg"),
    }
}

#[test]
fn qr_size_limit() {
    assert!(generate_qr_checked(&qr("hello", None, Some(QR_MAX_SIZE + 1), None)).is_none());
    assert!(generate_qr_checked(&qr("hello", None, Some(QR_MAX_SIZE + 1), Some("base64_png"))).is_none());
    match generate_qr_checked(&qr("", None, Some(QR_MAX_SIZE + 1), None)) {
        Some(Err(e)) => assert_eq!(e, QrError::EmptyText),
        _ => panic!("expected an empty-text refusal"),
    }
    match generate_qr_checked(&qr("hello", None, Some(QR_MAX_SIZE + 1), Some("svg"))) {
        Some(Ok(QrOutput::Svg(s))) => assert!(s.contains("<svg")),
        _ => panic!("expected svg"),
    }
    let long = "a".repeat(8000);
    match generate_qr_checked(&qr(&long, None, Some(QR_MAX_SIZE + 1), None)) {
        Some(Err(e)) => assert_eq!(e, QrError::GenerateFailed),
        _ => panic!("expected a generation refusal"),
    }
    match generate_qr_checked(&qr("hi", None, Some(64), None)) {
        Some(Ok(QrOutput::Png(bytes))) => assert_eq!(&bytes[..8], &PNG_SIGNATURE),
        _ => panic!("expected png"),
    }
}

#[test]
fn refusal_texts() {
    assert_eq!(QrError::EmptyText.status(), 400);
    assert_eq!(QrError::EncodeFailed.status(), 500);
    assert_eq!(QrError::EmptyText.message(), "Query param `text` cannot be empty");
    assert_eq!(QrError::UnsupportedFormat.message(), "Unsupported format: use png, svg, or base64_png");
    assert_eq!(ConvertError::MissingFile.message(), "Missing file field");
    assert_eq!(ConvertError::ConvertFailed.message(), "Convert failed");
}

#[test]
fn jpg_and_jpeg_give_the_same_bytes() {
    let a = convert_image(&params(Some("jpg"), None), Some(small_png()));
    let b = convert_image(&params(Some("jpeg"), None), Some(small_png()));
    match (a, b) {
        (Ok(ConvertOutput::Binary { content_type: c, bytes: x }), Ok(ConvertOutput::Binary { content_type: d, bytes: y })) => {
            assert_eq!(c, d);
            assert_eq!(x, y);
        }
        _ => panic!("expected bytes"),
    }
}

#[test]
fn base64_reply_encodes_the_binary_reply() {
    let raw = match convert_image(&params(Some("png"), None), Some(small_png())) {
        Ok(ConvertOutput::Binary { bytes, .. }) => bytes,
        _ => panic!("expected bytes"),
    };
    match convert_image(&params(Some("png"), Some("base64")), Some(small_png())) {
        Ok(ConvertOutput::Json(r)) => {
            let expected = format!("data:image/png;base64,{}", base64::engine::general_purpose::STANDARD.encode(&raw));
            assert_eq!(r.data, expected);
        }
        _ => panic!("expected json"),
    }
}

#[test]
fn equal_qr_requests_get_equal_replies() {
    let a = generate_qr(&qr("same text", Some("Q"), Some(120), None));
    let b = generate_qr(&qr("same text", Some("Q"), Some(120), None));
    match (a, b) {
        (Ok(QrOutput::Png(x)), Ok(QrOutput::Png(y))) => {
            assert_eq!(x, y);
            let w = u32::from_be_bytes([x[16], x[17], x[18], x[19]]);
            let h = u32::from_be_bytes([x[20], x[21], x[22], x[23]]);
            assert_eq!(w, h);
            assert!(w >= 120);
            assert_eq!((x[24], x[25]), (8, 0));
            match generate_qr(&qr("same text", Some("Q"), Some(120), Some("base64_png"))) {
                Ok(QrOutput::Base64Png(s)) => assert_eq!(
                    s,
                    format!("data:image/png;base64,{}", base64::engine::general_purpose::STANDARD.encode(&x))
                ),
                _ => panic!("expected base64 png"),
            }
        }
        _ => panic!("expected png"),
    }
    let s1 = generate_qr(&qr("same text", None, None, Some("svg")));
    let s2 = generate_qr(&qr("same text", None, None, Some("svg")));
    match (s1, s2) {
        (Ok(QrOutput::Svg(x)), Ok(QrOutput::Svg(y))) => assert_eq!(x, y),
        _ => panic!("expected svg"),
    }
}

#[test]
fn converts_gif_and_bmp_uploads() {
    for format in [image::ImageFormat::Gif, image::ImageFormat::Bmp, image::ImageFormat::Tiff] {
        let img = image::RgbImage::from_pixel(5, 4, image::Rgb([200, 10, 10]));
        let mut buf = std::io::Cursor::new(Vec::new());
        image::DynamicImage::ImageRgb8(img).write_to(&mut buf, format).unwrap();
        match convert_image(&params(Some("png"), None), Some(buf.into_inner())) {
            Ok(ConvertOutput::Binary { bytes, .. }) => {
                let back = image::load_from_memory(&bytes).unwrap();
                assert_eq!((back.width(), back.height()), (5, 4));
            }
            _ => panic!("expected png bytes"),
        }
    }
}
