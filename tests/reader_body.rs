use spiderfire_runtime::body::{BodyError, BodySource, FetchBody, FetchBodyInner, FetchBodyKind};
use spiderfire_runtime::reader::FileReaderSync;
use spiderfire_runtime::scheme::{data_fetch, Blob};
use spiderfire_runtime::url::parse_url;
use spiderfire_runtime::size::format_size;

fn blob(bytes: &[u8], kind: Option<&str>) -> Blob {
    Blob { bytes: bytes.to_vec(), kind: kind.map(|k| k.to_string()) }
}

fn bytes_of(body: &FetchBody) -> Vec<u8> {
    match &body.body {
        FetchBodyInner::Bytes(b) => b.clone(),
        _ => panic!("no bytes"),
    }
}

#[test]
fn data_url_of_typed_blob() {
    let reader = FileReaderSync::constructor();
    assert_eq!(reader.read_as_data_url(&blob(b"hello", Some("text/plain"))), "data:text/plain;base64,aGVsbG8=");
    assert_eq!(reader.read_as_data_url(&blob(b"hi", None)), "data:base64,aGk=");
}

#[test]
fn binary_string_maps_bytes_to_chars() {
    let reader = FileReaderSync::constructor();
    assert_eq!(reader.read_as_binary_string(&blob(&[0x41, 0xE9, 0xFF], None)), "A\u{e9}\u{ff}");
    assert_eq!(reader.read_as_array_buffer(&blob(&[1, 2], None)), vec![1, 2]);
}

#[test]
fn text_uses_label_then_charset_then_utf8() {
    let reader = FileReaderSync::constructor();
    let latin = blob(&[0x63, 0x61, 0x66, 0xE9], Some("text/plain;charset=windows-1252"));
    assert_eq!(reader.read_as_text(&latin, Some("latin1".to_string())), "caf\u{e9}");
    assert_eq!(reader.read_as_text(&latin, Some("no-such-label".to_string())), "caf\u{e9}");
    assert_eq!(reader.read_as_text(&latin, None), "caf\u{fffd}");
    let utf8 = blob("caf\u{e9}".as_bytes(), None);
    assert_eq!(reader.read_as_text(&utf8, None), "caf\u{e9}");
}

#[test]
fn bodies_from_sources() {
    let b = FetchBody::from_source(BodySource::String("h\u{e9}".to_string())).unwrap();
    assert_eq!(bytes_of(&b), "h\u{e9}".as_bytes());
    assert!(matches!(b.kind, Some(FetchBodyKind::String)));
    let b = FetchBody::from_source(BodySource::SearchParams(vec![
        ("a".to_string(), "1 2".to_string()),
        ("b&".to_string(), "=".to_string()),
    ]))
    .unwrap();
    assert_eq!(bytes_of(&b), b"a=1+2&b%26=%3D");
    assert!(matches!(b.kind, Some(FetchBodyKind::URLSearchParams)));
    let b = FetchBody::from_source(BodySource::Blob(blob(b"x", Some("image/png")))).unwrap();
    assert!(matches!(b.kind, Some(FetchBodyKind::Blob(ref m)) if m == "image/png"));
    let b = FetchBody::from_source(BodySource::Buffer(vec![9])).unwrap();
    assert!(b.kind.is_none());
    assert_eq!(FetchBody::from_source(BodySource::Other).unwrap_err(), BodyError::ExpectedValidBody);
}

#[test]
fn sizes_in_binary_units() {
    assert_eq!(format_size(17), "17 B");
    assert_eq!(format_size(1024), "1 KiB");
    assert_eq!(format_size(1536), "1 KiB, 512 B");
    assert_eq!(format_size(3 * 1024 * 1024), "3 MiB");
    assert_eq!(format_size(5 * 1024 * 1024 * 1024 + 7 * 1024 * 1024), "5 GiB, 7 MiB");
    assert_eq!(format_size(1u64 << 50), "1 PiB");
}

#[test]
fn data_url_round_trip() {
    let href = "data:text/plain;base64,aGVsbG8gd29ybGQ=";
    let response = data_fetch(parse_url(href, None).unwrap());
    let body = bytes_of(&response.body);
    let kind = response.headers.get_all("content-type");
    assert_eq!(kind, vec!["text/plain".to_string()]);
    let again = FileReaderSync::constructor().read_as_data_url(&Blob { bytes: body, kind: Some(kind[0].clone()) });
    assert_eq!(again, href);
}
