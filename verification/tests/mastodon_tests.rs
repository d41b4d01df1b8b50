use spin_apps::mastodon::{
    bearer, media_upload_request, media_upload_url, multipart_content_type, rating_stars,
    status_text, statuses_url,
};

#[test]
fn endpoints_are_exact() {
    assert_eq!(media_upload_url("mstdn.social"), "https://mstdn.social/api/v2/media");
    assert_eq!(statuses_url("mstdn.social"), "https://mstdn.social/api/v1/statuses");
}

#[test]
fn headers_are_exact() {
    assert_eq!(bearer("tok"), "Bearer tok");
    assert_eq!(multipart_content_type("abc"), "multipart/form-data; boundary=abc");
}

#[test]
fn stars_follow_the_rating() {
    assert_eq!(rating_stars(0, false), "");
    assert_eq!(rating_stars(0, true), "\u{2606}");
    assert_eq!(rating_stars(4, false), "\u{2605}\u{2605}\u{2605}\u{2605}");
    assert_eq!(rating_stars(3, true), "\u{2605}\u{2605}\u{2605}\u{2606}");
}

#[test]
fn status_text_is_exact() {
    assert_eq!(
        status_text("Cafe X", "1 Main St", "\u{2605}\u{2605}", "1.5", "2.25", "PID"),
        "Cafe X\n1 Main St\n\u{2605}\u{2605}\nhttps://www.google.com/maps/search/?api=1&query=1.5,2.25&query_place_id=PID\n#coffee #cafe"
    );
}

#[test]
fn media_upload_carries_the_picture() {
    let image: Vec<u8> = vec![0xff, 0xd8, 0xff, 0xe0, 1, 2, 3];
    let up = media_upload_request("example.org", "tok", &image);
    assert_eq!(up.url, "https://example.org/api/v2/media");
    assert_eq!(up.authorization, "Bearer tok");
    assert_eq!(up.boundary.len(), 16);
    assert!(up.boundary.chars().all(|c| c.is_ascii_alphanumeric()));
    assert_eq!(up.content_type, format!("multipart/form-data; boundary={}", up.boundary));
    let b = &up.boundary;
    let mut expected: Vec<u8> = format!(
        "\r\n--{b}\r\nContent-Disposition: form-data; name=\"foo\"\r\n\r\nbar\
         \r\n--{b}\r\nContent-Disposition: form-data; name=\"file\"; filename=\"file\"\r\nContent-Type: image/jpeg\r\n\r\n"
    )
    .into_bytes();
    expected.extend_from_slice(&image);
    expected.extend_from_slice(format!("\r\n--{b}--").as_bytes());
    assert_eq!(up.body, expected);
}

#[test]
fn each_upload_draws_its_own_boundary() {
    let a = media_upload_request("h", "t", &[1]);
    let b = media_upload_request("h", "t", &[1]);
    assert_ne!(a.boundary, b.boundary);
}
