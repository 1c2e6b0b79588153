use base64::engine::general_purpose::STANDARD;
use base64::Engine;
use des::cipher::generic_array::GenericArray;
use des::cipher::{BlockEncrypt, KeyInit};
use des::Des;
use hqaudio_api::crypto::{
    create_download_links, create_image_links, decrypt_media_bytes, decrypt_media_url, DownloadLink,
};

const SAMPLE: &str = "iPPGVzyogeiPwpro65A0eUaQggN+8+J4LZ3AJQNq3T7xWSofYfNw/Q==";

fn link(quality: &str, url: &str) -> DownloadLink {
    DownloadLink { quality: quality.to_string(), url: url.to_string() }
}

#[test]
fn decrypts_a_media_url() {
    assert_eq!(
        decrypt_media_url(SAMPLE),
        Ok("http://aac.saavncdn.com/123/abc_96.mp4".to_string())
    );
}

#[test]
fn decryption_ignores_surrounding_white_space() {
    let padded = format!("  {}\n\t", SAMPLE);
    assert_eq!(
        decrypt_media_url(&padded),
        Ok("http://aac.saavncdn.com/123/abc_96.mp4".to_string())
    );
}

#[test]
fn empty_media_url_decrypts_to_empty() {
    assert_eq!(decrypt_media_url(""), Ok(String::new()));
}

#[test]
fn unpadded_block_is_kept_whole() {
    assert_eq!(decrypt_media_url("1AtV+mdw5CM="), Ok("abcdefgh".to_string()));
}

#[test]
fn invalid_base64_is_reported() {
    let err = decrypt_media_url("not base64!").unwrap_err();
    assert!(err.starts_with("Base64 decode error: "));
}

#[test]
fn partial_block_is_reported() {
    assert_eq!(
        decrypt_media_url("AAAAAAA="),
        Err("Encrypted data length must be a multiple of 8 bytes".to_string())
    );
}

#[test]
fn non_utf8_plaintext_is_reported() {
    let err = decrypt_media_url("Qg8RB/F6AZg=").unwrap_err();
    assert!(err.starts_with("UTF-8 conversion error: "));
}

#[test]
fn download_links_cover_every_quality() {
    let links = create_download_links(SAMPLE);
    assert_eq!(
        links,
        vec![
            link("12kbps", "http://aac.saavncdn.com/123/abc_12.mp4"),
            link("48kbps", "http://aac.saavncdn.com/123/abc_48.mp4"),
            link("96kbps", "http://aac.saavncdn.com/123/abc_96.mp4"),
            link("160kbps", "http://aac.saavncdn.com/123/abc_160.mp4"),
            link("320kbps", "http://aac.saavncdn.com/123/abc_320.mp4"),
        ]
    );
}

#[test]
fn download_links_replace_every_marker() {
    let links = create_download_links("mEc5bR96E3QYFOzGrFvJ/w==");
    assert_eq!(links[0], link("12kbps", "x_12y_12"));
    assert_eq!(links[4], link("320kbps", "x_320y_320"));
}

#[test]
fn download_links_keep_url_without_marker() {
    let links = create_download_links("ID2ieOjCrwdZENEJmV3zZsIfNh6OWntn0eZ3FTgpJlYYFOzGrFvJ/w==");
    assert_eq!(links.len(), 5);
    for l in &links {
        assert_eq!(l.url, "https://example.com/song_160.mp4");
    }
    assert_eq!(links[3].quality, "160kbps");
}

#[test]
fn no_download_links_for_bad_or_empty_input() {
    assert!(create_download_links("").is_empty());
    assert!(create_download_links("not base64!").is_empty());
    assert!(create_download_links("AAAAAAA=").is_empty());
}

#[test]
fn image_links_are_secured_and_resized() {
    let links = create_image_links("http://c.saavncdn.com/1/cover-150x150.jpg");
    assert_eq!(
        links,
        vec![
            link("50x50", "https://c.saavncdn.com/1/cover-50x50.jpg"),
            link("150x150", "https://c.saavncdn.com/1/cover-150x150.jpg"),
            link("500x500", "https://c.saavncdn.com/1/cover-500x500.jpg"),
        ]
    );
}

#[test]
fn image_links_from_small_cover() {
    let links = create_image_links("https://c.saavncdn.com/1/cover-50x50.jpg");
    assert_eq!(links[2], link("500x500", "https://c.saavncdn.com/1/cover-500x500.jpg"));
}

#[test]
fn image_links_without_size_marker() {
    let links = create_image_links("https://c.saavncdn.com/1/cover.jpg");
    assert_eq!(links.len(), 3);
    assert_eq!(links[1], link("150x150", "https://c.saavncdn.com/1/cover.jpg"));
}

#[test]
fn no_image_links_for_empty_url() {
    assert!(create_image_links("").is_empty());
}

#[test]
fn only_the_first_scheme_is_secured() {
    let links = create_image_links("http://a/http://b");
    assert_eq!(links[0].url, "https://a/http://b");
}

fn encrypt_media_url(url: &str) -> String {
    let mut bytes = url.as_bytes().to_vec();
    let k = 8 - bytes.len() % 8;
    bytes.extend(std::iter::repeat(k as u8).take(k));
    let des = Des::new(GenericArray::from_slice(b"38346591"));
    for chunk in bytes.chunks_exact_mut(8) {
        des.encrypt_block(GenericArray::from_mut_slice(chunk));
    }
    STANDARD.encode(&bytes)
}

#[test]
fn decryption_undoes_encryption() {
    for url in ["", "a", "abcdefg", "abcdefgh", "https://aac.saavncdn.com/9/Été_96.mp4"] {
        let encrypted = encrypt_media_url(url);
        assert_eq!(decrypt_media_url(&encrypted), Ok(url.to_string()));
    }
}

#[test]
fn decrypted_bytes_lose_at_most_their_padding() {
    let decoded = STANDARD.decode(SAMPLE).unwrap();
    let url = decrypt_media_bytes(&decoded).unwrap();
    assert_eq!(url, "http://aac.saavncdn.com/123/abc_96.mp4");
    assert!(url.len() <= decoded.len() && decoded.len() - 8 <= url.len());
    assert_eq!(decrypt_media_bytes(&vec![1, 2, 3]), Err("Encrypted data length must be a multiple of 8 bytes".to_string()));
    assert_eq!(decrypt_media_bytes(&vec![]), Ok(String::new()));
    let bad = STANDARD.decode("Qg8RB/F6AZg=").unwrap();
    assert!(decrypt_media_bytes(&bad).unwrap_err().starts_with("UTF-8 conversion error: "));
}

#[test]
fn image_links_ignore_the_scheme() {
    for rest in ["c.saavncdn.com/1/cover-150x150.jpg", "c/50x50.png", "plain", "http://x"] {
        let plain = create_image_links(&format!("http://{}", rest));
        let secure = create_image_links(&format!("https://{}", rest));
        assert_eq!(plain, secure);
        assert!(plain.iter().all(|l| l.url.starts_with("https://") && !l.url.starts_with("http://")));
    }
}
