//! Decryption of the upstream's encrypted media URLs (base64, then DES in
//! ECB mode with a fixed key, then PKCS#7 padding removal) and the
//! derivation of download and image links in the offered qualities.

use vstd::prelude::*;
use vstd::string::StringExecFns;
use vstd::utf8::*;

use base64::engine::general_purpose::STANDARD;
use base64::Engine;
use des::cipher::generic_array::GenericArray;
use des::cipher::BlockDecrypt;
use des::cipher::KeyInit;
use des::Des;

use crate::text::{
    lemma_find_from, lemma_replace_by_itself, lemma_replace_keeps_head, occurs_at, contains, has_prefix, has_substring, replace_all, replace_first, replaced_all, replaced_first,
    starts_with, trim, trimmed,
};

verus! {

/// A link to a media file in one quality.
#[derive(Debug, Clone, PartialEq, Eq)]
pub struct DownloadLink {
    pub quality: String,
    pub url: String,
}

/// What base64's `STANDARD` engine decodes `input` to (`None`: it rejects it).
pub uninterp spec fn base64_standard_decode(input: Seq<u8>) -> Option<Seq<u8>>;

/// What DES, keyed with `key`, decrypts the 8-byte `block` to.
pub uninterp spec fn des_block_decryption(key: Seq<u8>, block: Seq<u8>) -> Seq<u8>;

/// Calls `Engine::decode` of base64's `STANDARD` engine (standard alphabet,
/// padding required). The contract names the result: `Ok` with the decoded
/// bytes exactly when the name gives `Some` of them, `Err` when it gives
/// `None`. The text of the error (the `Display` of `base64::DecodeError`)
/// is left unsaid.
#[verifier::external_body]
fn base64_decode(input: &[u8]) -> (r: Result<Vec<u8>, String>)
    ensures
        match r {
            Ok(bytes) => base64_standard_decode(input@) == Some(bytes@),
            Err(_) => base64_standard_decode(input@) is None,
        },
{
    STANDARD.decode(input).map_err(|e| e.to_string())
}

/// Builds a `des::Des` from the 8-byte `key` (`KeyInit::new`) and decrypts
/// one 8-byte block with it (`BlockDecrypt::decrypt_block`). The contract
/// names the 8 bytes that come out; the cipher's block type is 8 bytes long.
#[verifier::external_body]
fn des_decrypt_block(key: &[u8], block: &[u8]) -> (out: Vec<u8>)
    requires
        key@.len() == 8,
        block@.len() == 8,
    ensures
        out@ == des_block_decryption(key@, block@),
        out@.len() == 8,
{
    let cipher = Des::new(GenericArray::from_slice(key));
    let mut buf = GenericArray::clone_from_slice(block);
    cipher.decrypt_block(&mut buf);
    buf.to_vec()
}

/// Calls `String::from_utf8`: `Ok` with the decoded characters exactly when
/// the bytes are well-formed UTF-8. The text of the error (the `Display` of
/// `FromUtf8Error`) is left unsaid.
#[verifier::external_body]
fn utf8_string(bytes: Vec<u8>) -> (r: Result<String, String>)
    ensures
        match r {
            Ok(s) => valid_utf8(bytes@) && s@ == decode_utf8(bytes@),
            Err(_) => !valid_utf8(bytes@),
        },
{
    String::from_utf8(bytes).map_err(|e| e.to_string())
}

/// The DES key of the media URLs: the ASCII digits `38346591`.
pub open spec fn media_key() -> Seq<u8> {
    seq![0x33u8, 0x38u8, 0x33u8, 0x34u8, 0x36u8, 0x35u8, 0x39u8, 0x31u8]
}

/// DES in ECB mode: each whole 8-byte block decrypted in place; a shorter
/// remainder is left as it is.
pub open spec fn des_ecb_decryption(key: Seq<u8>, data: Seq<u8>) -> Seq<u8>
    decreases data.len(),
{
    if data.len() < 8 {
        data
    } else {
        des_block_decryption(key, data.take(8)) + des_ecb_decryption(key, data.skip(8))
    }
}

/// `d` without its PKCS#7 padding: when its last byte `p` is between 1 and
/// 8 and its last `p` bytes all equal `p`, they are removed; otherwise `d`
/// is left as it is.
pub open spec fn pkcs7_stripped(d: Seq<u8>) -> Seq<u8> {
    if d.len() > 0 && 1 <= d.last() <= 8 && d.last() <= d.len() && forall|i: int|
        d.len() - d.last() <= i < d.len() ==> d[i] == d.last() {
        d.take(d.len() - d.last())
    } else {
        d
    }
}

/// The bytes that a media URL encrypts, given what its base64 decodes to.
pub open spec fn media_plaintext(decoded: Seq<u8>) -> Seq<u8> {
    pkcs7_stripped(des_ecb_decryption(media_key(), decoded))
}

/// What the base64 text of an encrypted media URL decodes to.
pub open spec fn media_ciphertext(encrypted: Seq<char>) -> Option<Seq<u8>> {
    base64_standard_decode(encode_utf8(trimmed(encrypted)))
}

/// The decrypted URL, or `None` where decryption fails.
pub open spec fn decrypted_media_url(encrypted: Seq<char>) -> Option<Seq<char>> {
    if encrypted.len() == 0 {
        Some(Seq::empty())
    } else {
        match media_ciphertext(encrypted) {
            None => None,
            Some(bytes) => if bytes.len() % 8 != 0 || !valid_utf8(media_plaintext(bytes)) {
                None
            } else {
                Some(decode_utf8(media_plaintext(bytes)))
            },
        }
    }
}

/// DES-ECB decryption of `data` with `key`.
fn des_ecb_decrypt(key: &Vec<u8>, data: &Vec<u8>) -> (out: Vec<u8>)
    requires
        key@.len() == 8,
    ensures
        out@ == des_ecb_decryption(key@, data@),
        out@.len() == data@.len(),
{
    let n = data.len();
    let mut out: Vec<u8> = Vec::new();
    let mut i: usize = 0;
    assert(data@.skip(0) =~= data@);
    while 8 <= n - i
        invariant
            n == data@.len(),
            i <= n,
            out@.len() == i,
            key@.len() == 8,
            des_ecb_decryption(key@, data@) == out@ + des_ecb_decryption(
                key@,
                data@.skip(i as int),
            ),
        decreases n - i,
    {
        let ghost before = out@;
        let mut block: Vec<u8> = Vec::new();
        let mut j: usize = 0;
        while j < 8
            invariant
                n == data@.len(),
                i + 8 <= n,
                j <= 8,
                block@ == data@.subrange(i as int, i + j),
            decreases 8 - j,
        {
            block.push(data[i + j]);
            j = j + 1;
            assert(block@ =~= data@.subrange(i as int, i + j));
        }
        let mut plain = des_decrypt_block(key.as_slice(), block.as_slice());
        assert(data@.skip(i as int).take(8) =~= block@);
        assert(data@.skip(i as int).skip(8) =~= data@.skip(i + 8));
        out.append(&mut plain);
        assert(before + (des_block_decryption(key@, block@) + des_ecb_decryption(
            key@,
            data@.skip(i + 8),
        )) =~= out@ + des_ecb_decryption(key@, data@.skip(i + 8)));
        i = i + 8;
    }
    let ghost before = out@;
    let mut j: usize = i;
    while j < n
        invariant
            n == data@.len(),
            i <= j <= n,
            out@.len() == j,
            out@ == before + data@.subrange(i as int, j as int),
        decreases n - j,
    {
        out.push(data[j]);
        j = j + 1;
        assert(out@ =~= before + data@.subrange(i as int, j as int));
    }
    assert(data@.skip(i as int) =~= data@.subrange(i as int, n as int));
    out
}

/// Removes PKCS#7 padding from `d`.
fn strip_pkcs7(d: &mut Vec<u8>)
    requires
        old(d)@.len() % 8 == 0,
    ensures
        final(d)@ == pkcs7_stripped(old(d)@),
{
    let n = d.len();
    if n > 0 {
        let last = d[n - 1];
        let p = last as usize;
        if p > 0 && p <= 8 {
            assert(n >= 8);
            let mut is_padding = true;
            let mut k: usize = n - p;
            while k < n
                invariant
                    n == d@.len(),
                    d@.len() > 0,
                    last == d@.last(),
                    p == last,
                    n - p <= k <= n,
                    p <= n,
                    is_padding == (forall|i: int| n - p <= i < k ==> d@[i] == last),
                decreases n - k,
            {
                if d[k] != last {
                    is_padding = false;
                }
                k = k + 1;
            }
            if is_padding {
                d.truncate(n - p);
            }
        }
    }
}

/// `d` with PKCS#7 padding added: `k` bytes of value `k`, where `k` (1 to
/// 8) brings the length to a whole number of 8-byte blocks.
pub open spec fn pkcs7_padded(d: Seq<u8>) -> Seq<u8> {
    let k = (8 - d.len() % 8) as u8;
    d + Seq::new(k as nat, |i: int| k)
}

/// Decrypts what the base64 of an encrypted media URL decodes to: DES-ECB
/// with the fixed media key, PKCS#7 padding removed, UTF-8. The text has
/// the bytes' length less at most 8 bytes of padding.
pub fn decrypt_media_bytes(decoded: &Vec<u8>) -> (r: Result<String, String>)
    ensures
        match r {
            Ok(url) => {
                &&& decoded@.len() % 8 == 0
                &&& valid_utf8(media_plaintext(decoded@))
                &&& url@ == decode_utf8(media_plaintext(decoded@))
                &&& encode_utf8(url@) == media_plaintext(decoded@)
                &&& decoded@.len() - 8 <= encode_utf8(url@).len() <= decoded@.len()
            },
            Err(message) => if decoded@.len() % 8 != 0 {
                message@ == "Encrypted data length must be a multiple of 8 bytes"@
            } else {
                &&& !valid_utf8(media_plaintext(decoded@))
                &&& has_prefix(message@, "UTF-8 conversion error: "@)
            },
        },
{
    if decoded.len() % 8 != 0 {
        return Err("Encrypted data length must be a multiple of 8 bytes".to_owned());
    }
    let key: Vec<u8> = vec![0x33u8, 0x38u8, 0x33u8, 0x34u8, 0x36u8, 0x35u8, 0x39u8, 0x31u8];
    assert(key@ =~= media_key());
    let mut decrypted_bytes = des_ecb_decrypt(&key, decoded);
    let ghost full = decrypted_bytes@;
    strip_pkcs7(&mut decrypted_bytes);
    assert(full.len() - 8 <= pkcs7_stripped(full).len() <= full.len());
    let ghost plain = decrypted_bytes@;
    match utf8_string(decrypted_bytes) {
        Ok(s) => {
            proof {
                decode_utf8_encode_utf8(plain);
            }
            Ok(s)
        },
        Err(e) => {
            let mut message = "UTF-8 conversion error: ".to_owned();
            message.append(e.as_str());
            assert(message@.take("UTF-8 conversion error: "@.len() as int)
                =~= "UTF-8 conversion error: "@);
            Err(message)
        },
    }
}

/// Decrypts an encrypted media URL: base64 (standard alphabet) of the
/// trimmed text, then `decrypt_media_bytes`. An empty input gives an empty
/// URL.
pub fn decrypt_media_url(encrypted_url: &str) -> (r: Result<String, String>)
    ensures
        match r {
            Ok(url) => {
                &&& decrypted_media_url(encrypted_url@) == Some(url@)
                &&& encrypted_url@.len() == 0 ==> url@.len() == 0
                &&& encrypted_url@.len() > 0 ==> (media_ciphertext(encrypted_url@) matches Some(
                    bytes,
                ) && bytes.len() - 8 <= encode_utf8(url@).len() <= bytes.len())
            },
            Err(message) => decrypted_media_url(encrypted_url@) is None && (
            media_ciphertext(encrypted_url@) is None ==> has_prefix(
                message@,
                "Base64 decode error: "@,
            )) && (match media_ciphertext(encrypted_url@) {
                Some(bytes) => if bytes.len() % 8 != 0 {
                    message@ == "Encrypted data length must be a multiple of 8 bytes"@
                } else {
                    has_prefix(message@, "UTF-8 conversion error: "@)
                },
                None => true,
            }),
        },
{
    if encrypted_url.unicode_len() == 0 {
        return Ok(String::new());
    }
    let trimmed_url = trim(encrypted_url);
    let encrypted_bytes = match base64_decode(trimmed_url.as_str().as_bytes()) {
        Ok(bytes) => bytes,
        Err(e) => {
            let mut message = "Base64 decode error: ".to_owned();
            message.append(e.as_str());
            assert(message@.take("Base64 decode error: "@.len() as int)
                =~= "Base64 decode error: "@);
            return Err(message);
        },
    };
    decrypt_media_bytes(&encrypted_bytes)
}

/// The file-name suffixes and bit rates of the offered download qualities.
pub open spec fn download_qualities() -> Seq<(Seq<char>, Seq<char>)> {
    seq![
        ("_12"@, "12kbps"@),
        ("_48"@, "48kbps"@),
        ("_96"@, "96kbps"@),
        ("_160"@, "160kbps"@),
        ("_320"@, "320kbps"@),
    ]
}

/// The URL of a decrypted media URL in the quality with file-name suffix
/// `suffix`: its `_96` marks replaced by `suffix`, or the URL unchanged
/// where it has none.
pub open spec fn download_url_in_quality(decrypted: Seq<char>, suffix: Seq<char>) -> Seq<char> {
    if has_substring(decrypted, "_96"@) {
        replaced_all(decrypted, "_96"@, suffix)
    } else {
        decrypted
    }
}

/// The download links of an encrypted media URL.
pub open spec fn download_links_of(encrypted: Seq<char>, links: Seq<DownloadLink>) -> bool {
    match decrypted_media_url(encrypted) {
        Some(url) if url.len() > 0 => {
            &&& links.len() == download_qualities().len()
            &&& forall|i: int|
                0 <= i < links.len() ==> {
                    &&& (#[trigger] links[i]).quality@ == download_qualities()[i].1
                    &&& links[i].url@ == download_url_in_quality(url, download_qualities()[i].0)
                }
        },
        _ => links.len() == 0,
    }
}

/// One download link of `decrypted` in the quality of `suffix`.
fn download_link(decrypted: &String, suffix: &str, bitrate: &str) -> (link: DownloadLink)
    requires
        suffix@.len() > 0,
    ensures
        link.quality@ == bitrate@,
        link.url@ == download_url_in_quality(decrypted@, suffix@),
{
    proof {
        reveal_strlit("_96");
    }
    let url = if contains(decrypted.as_str(), "_96") {
        replace_all(decrypted.as_str(), "_96", suffix)
    } else {
        decrypted.clone()
    };
    DownloadLink { quality: bitrate.to_owned(), url }
}

/// The download links, one per offered quality, of an encrypted media URL;
/// none where it does not decrypt or decrypts to an empty URL.
pub fn create_download_links(encrypted_url: &str) -> (links: Vec<DownloadLink>)
    ensures
        download_links_of(encrypted_url@, links@),
{
    let decrypted = match decrypt_media_url(encrypted_url) {
        Ok(url) => url,
        Err(_) => return Vec::new(),
    };
    if decrypted.as_str().unicode_len() == 0 {
        return Vec::new();
    }
    proof {
        reveal_strlit("_12");
        reveal_strlit("_48");
        reveal_strlit("_96");
        reveal_strlit("_160");
        reveal_strlit("_320");
    }
    let mut links: Vec<DownloadLink> = Vec::new();
    links.push(download_link(&decrypted, "_12", "12kbps"));
    links.push(download_link(&decrypted, "_48", "48kbps"));
    links.push(download_link(&decrypted, "_96", "96kbps"));
    links.push(download_link(&decrypted, "_160", "160kbps"));
    links.push(download_link(&decrypted, "_320", "320kbps"));
    assert forall|i: int| 0 <= i < links@.len() implies {
        &&& (#[trigger] links@[i]).quality@ == download_qualities()[i].1
        &&& links@[i].url@ == download_url_in_quality(decrypted@, download_qualities()[i].0)
    } by {}
    links
}

/// The sizes of the offered cover images.
pub open spec fn image_qualities() -> Seq<Seq<char>> {
    seq!["50x50"@, "150x150"@, "500x500"@]
}

/// `url` with an `http://` scheme turned into `https://`.
pub open spec fn secured_url(url: Seq<char>) -> Seq<char> {
    if has_prefix(url, "http://"@) {
        replaced_first(url, "http://"@, "https://"@)
    } else {
        url
    }
}

/// The URL of the image at `url` in the size `quality`: its `150x150`
/// marks, or else its `50x50` marks, replaced by `quality`.
pub open spec fn image_url_in_quality(secure: Seq<char>, quality: Seq<char>) -> Seq<char> {
    if has_substring(secure, "150x150"@) {
        replaced_all(secure, "150x150"@, quality)
    } else if has_substring(secure, "50x50"@) {
        replaced_all(secure, "50x50"@, quality)
    } else {
        secure
    }
}

/// The image links of an image URL.
pub open spec fn image_links_of(url: Seq<char>, links: Seq<DownloadLink>) -> bool {
    if url.len() == 0 {
        links.len() == 0
    } else {
        &&& links.len() == image_qualities().len()
        &&& forall|i: int|
            0 <= i < links.len() ==> {
                &&& (#[trigger] links[i]).quality@ == image_qualities()[i]
                &&& links[i].url@ == image_url_in_quality(secured_url(url), image_qualities()[i])
            }
    }
}

/// One image link of `secure` in the size `quality`.
fn image_link(secure: &String, quality: &str) -> (link: DownloadLink)
    ensures
        link.quality@ == quality@,
        link.url@ == image_url_in_quality(secure@, quality@),
{
    proof {
        reveal_strlit("150x150");
        reveal_strlit("50x50");
    }
    let url = if contains(secure.as_str(), "150x150") {
        replace_all(secure.as_str(), "150x150", quality)
    } else if contains(secure.as_str(), "50x50") {
        replace_all(secure.as_str(), "50x50", quality)
    } else {
        secure.clone()
    };
    DownloadLink { quality: quality.to_owned(), url }
}

/// The links of an image in the three offered sizes, on `https`; none for
/// an empty URL.
pub fn create_image_links(url: &str) -> (links: Vec<DownloadLink>)
    ensures
        image_links_of(url@, links@),
{
    if url.unicode_len() == 0 {
        return Vec::new();
    }
    let secure_url = if starts_with(url, "http://") {
        replace_first(url, "http://", "https://")
    } else {
        url.to_owned()
    };
    let mut links: Vec<DownloadLink> = Vec::new();
    links.push(image_link(&secure_url, "50x50"));
    links.push(image_link(&secure_url, "150x150"));
    links.push(image_link(&secure_url, "500x500"));
    assert forall|i: int| 0 <= i < links@.len() implies {
        &&& (#[trigger] links@[i]).quality@ == image_qualities()[i]
        &&& links@[i].url@ == image_url_in_quality(secured_url(url@), image_qualities()[i])
    } by {}
    links
}

/// The 96 kbps download link is the decrypted URL itself.
pub proof fn law_96kbps_link_is_decrypted_url(encrypted: Seq<char>, links: Seq<DownloadLink>)
    requires
        download_links_of(encrypted, links),
        decrypted_media_url(encrypted) matches Some(url) && url.len() > 0,
    ensures
        links[2].quality@ == "96kbps"@,
        links[2].url@ == decrypted_media_url(encrypted).unwrap(),
{
    let url = decrypted_media_url(encrypted).unwrap();
    lemma_replace_by_itself(url, "_96"@);
}

/// The 150x150 image link of a URL that names that size is the URL itself,
/// on `https`.
pub proof fn law_150_image_is_secured_url(url: Seq<char>, links: Seq<DownloadLink>)
    requires
        image_links_of(url, links),
        url.len() > 0,
        has_substring(secured_url(url), "150x150"@),
    ensures
        links[1].url@ == secured_url(url),
{
    lemma_replace_by_itself(secured_url(url), "150x150"@);
}

/// Removing PKCS#7 padding undoes adding it: `k` (1 to 8) bytes of value
/// `k` after any data.
pub proof fn law_pkcs7_padding_removed(data: Seq<u8>, k: u8)
    requires
        1 <= k <= 8,
    ensures
        pkcs7_stripped(data + Seq::new(k as nat, |i: int| k)) == data,
{
    let padded = data + Seq::new(k as nat, |i: int| k);
    assert(padded.last() == k);
    assert(padded.take(padded.len() - k) =~= data);
}

/// Decryption undoes encryption: where the base64 of a non-empty encrypted
/// URL decodes to whole DES blocks that the media key decrypts to the
/// PKCS#7-padded UTF-8 of `url`, the URL decrypts to `url`.
pub proof fn law_decrypt_round_trip(encrypted: Seq<char>, cipher: Seq<u8>, url: Seq<char>)
    requires
        encrypted.len() > 0,
        media_ciphertext(encrypted) == Some(cipher),
        cipher.len() % 8 == 0,
        des_ecb_decryption(media_key(), cipher) == pkcs7_padded(encode_utf8(url)),
    ensures
        decrypted_media_url(encrypted) == Some(url),
{
    let bytes = encode_utf8(url);
    let k = (8 - bytes.len() % 8) as u8;
    law_pkcs7_padding_removed(bytes, k);
    assert(media_plaintext(cipher) == bytes);
    encode_utf8_valid_utf8(url);
    encode_utf8_decode_utf8(url);
}

/// The `http://` form of an image URL gives the same links as its
/// `https://` form, and no link is left on `http://`.
pub proof fn law_image_links_ignore_scheme(
    rest: Seq<char>,
    plain: Seq<DownloadLink>,
    secure: Seq<DownloadLink>,
)
    requires
        image_links_of("http://"@ + rest, plain),
        image_links_of("https://"@ + rest, secure),
    ensures
        plain.len() == secure.len(),
        forall|i: int|
            0 <= i < plain.len() ==> (#[trigger] plain[i]).url@ == secure[i].url@
                && plain[i].quality@ == secure[i].quality@,
        forall|i: int|
            0 <= i < plain.len() ==> has_prefix((#[trigger] plain[i]).url@, "https://"@)
                && !has_prefix(plain[i].url@, "http://"@),
        forall|i: int|
            0 <= i < secure.len() ==> !has_prefix((#[trigger] secure[i]).url@, "http://"@),
{
    reveal_strlit("http://");
    reveal_strlit("https://");
    reveal_strlit("150x150");
    reveal_strlit("50x50");
    let http = "http://"@ + rest;
    let https = "https://"@ + rest;
    assert(http.len() > 0 && https.len() > 0);
    assert(has_prefix(http, "http://"@)) by {
        assert(http.take(7) =~= "http://"@);
    }
    lemma_find_from(http, "http://"@, 0);
    assert(occurs_at(http, "http://"@, 0)) by {
        assert(http.subrange(0, 7) =~= "http://"@);
    }
    assert(secured_url(http) =~= https);
    assert(!has_prefix(https, "http://"@)) by {
        assert(https.take(7)[4] != "http://"@[4]);
    }
    assert(secured_url(https) == https);
    assert forall|q: Seq<char>| #![auto] has_prefix(image_url_in_quality(https, q), "https://"@)
        && !has_prefix(image_url_in_quality(https, q), "http://"@) by {
        let head = "https://"@;
        let u = image_url_in_quality(https, q);
        if has_substring(https, "150x150"@) {
            lemma_replace_keeps_head(head, rest, "150x150"@, q);
        } else if has_substring(https, "50x50"@) {
            lemma_replace_keeps_head(head, rest, "50x50"@, q);
        }
        assert(u.take(8) =~= head);
        assert(u.take(7)[4] != "http://"@[4]);
    }
}

} // verus!
