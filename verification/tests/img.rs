use mistralai_client::v1::img::Img;

#[test]
fn with_detail_sets_detail_keeps_url() {
    let img = Img::from_url("https://example.com/cat.png").with_detail("high".to_string());
    assert_eq!(img.detail, Some("high".to_string()));
    assert_eq!(img.url, "https://example.com/cat.png");
    let img = img.with_detail("low".to_string());
    assert_eq!(img.detail, Some("low".to_string()));
}

#[test]
fn from_url_normalizes() {
    let img = Img::from_url("https://example.com");
    assert_eq!(img.url, "https://example.com/");
    assert_eq!(img.detail, None);
    let img = Img::from_url("HTTPS://Example.COM/a/../b.png");
    assert_eq!(img.url, "https://example.com/b.png");
}

#[test]
fn try_from_url_rejects_invalid() {
    assert!(Img::try_from_url("not a url").is_none());
    assert!(Img::try_from_url("").is_none());
    let img = Img::try_from_url("https://upload.wikimedia.org/x.jpg").unwrap();
    assert_eq!(img.url, "https://upload.wikimedia.org/x.jpg");
}

#[test]
fn from_file_builds_data_url() {
    let img = Img::from_file("./img.png", b"hello");
    assert_eq!(img.url, "data:image/png;base64,aGVsbG8=");
    assert_eq!(img.detail, None);
    let img = Img::from_file("photo.JPG", &[0xff, 0xd8, 0xff]);
    assert_eq!(img.url, "data:image/jpeg;base64,/9j/");
    let img = Img::from_file("empty.gif", &[]);
    assert_eq!(img.url, "data:image/gif;base64,");
}

#[test]
fn try_from_file_unknown_extension() {
    assert!(Img::try_from_file("noextension", b"x").is_none());
    assert!(Img::try_from_file("file.unknownext", b"x").is_none());
    let img = Img::try_from_file("a.webp", b"ab").unwrap();
    assert_eq!(img.url, "data:image/webp;base64,YWI=");
}
