use vision_chat::api::ContentItem;
use vision_chat::encoder::{
    data_url, decode_data_url, encode, encode_bytes, encode_url, frame_image, is_remote_source,
    ImageSource,
};
use vision_chat::error::ChatError;

const PNG: [u8; 8] = [0x89, b'P', b'N', b'G', 0x0D, 0x0A, 0x1A, 0x0A];

fn url(item: &ContentItem) -> String {
    match item {
        ContentItem::ImageUrl { image_url } => image_url.url.clone(),
        ContentItem::Text { .. } => panic!("expected an image"),
    }
}

#[test]
fn png_round_trips_through_data_url() {
    let mut bytes = PNG.to_vec();
    bytes.extend_from_slice(&[0, 0, 0, 13, b'I', b'H', b'D', b'R', 255, 7]);
    let item = encode_bytes(&bytes).unwrap();
    let u = url(&item);
    assert!(u.starts_with("data:image/png;base64,"));
    let (mime, back) = decode_data_url(&u).unwrap();
    assert_eq!(mime, "image/png");
    assert_eq!(back, bytes);
}

#[test]
fn jpeg_is_sniffed_by_content() {
    let bytes = vec![0xFF, 0xD8, 0xFF, 0xE0, 0, 16, b'J', b'F', b'I', b'F'];
    let item = encode(&ImageSource::Raw(bytes.clone())).unwrap();
    let u = url(&item);
    assert!(u.starts_with("data:image/jpeg;base64,"));
    assert_eq!(decode_data_url(&u).unwrap().1, bytes);
}

#[test]
fn urls_pass_through_unchanged() {
    assert!(is_remote_source("http://a"));
    assert!(is_remote_source("https://a/b.png"));
    assert!(!is_remote_source("http:/a"));
    assert!(!is_remote_source("ht"));
    assert!(!is_remote_source("./http://a"));
    let item = encode(&ImageSource::Remote("https://a/b.png".to_string())).unwrap();
    assert_eq!(url(&item), "https://a/b.png");
    assert_eq!(url(&encode_url("http://x")), "http://x");
}

#[test]
fn encode_errors() {
    let r = encode(&ImageSource::File(Err("denied".to_string())));
    assert!(matches!(r, Err(ChatError::Io(ref m)) if m == "denied"));
    let r = encode(&ImageSource::File(Ok(b"plain words".to_vec())));
    assert!(matches!(r, Err(ChatError::UnknownFileType)));
}

#[test]
fn framing_of_a_sniffed_type() {
    assert_eq!(data_url("image/gif", "R0lG"), "data:image/gif;base64,R0lG");
    let item = frame_image(Some("image/webp".to_string()), "AAAA").unwrap();
    assert_eq!(url(&item), "data:image/webp;base64,AAAA");
    assert!(matches!(frame_image(None, "AAAA"), Err(ChatError::UnknownFileType)));
}

#[test]
fn decode_rejects_other_shapes() {
    assert_eq!(decode_data_url("data:image/png;base64,aGk=").unwrap().1, b"hi".to_vec());
    assert!(decode_data_url("https://a/b.png").is_none());
    assert!(decode_data_url("data:image/png,aGk=").is_none());
    assert!(decode_data_url("data:image/png;utf8,aGk=").is_none());
    assert!(decode_data_url("data:image/png;base64,!!").is_none());
}
