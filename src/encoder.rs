//! Turning an image source into a content item: remote URLs pass through,
//! bytes are sniffed for their MIME type and framed as a base64 `data:` URI.
use vstd::prelude::*;
use base64::Engine;
use crate::api::{ContentItem, ContentView, ImageUrl};
use crate::error::ChatError;

verus! {

/// The MIME type that the magic number at the start of `b` announces, if any.
pub uninterp spec fn sniffed_mime(b: Seq<u8>) -> Option<Seq<char>>;

/// The standard base64 text (with padding) of `b`.
pub uninterp spec fn base64_of(b: Seq<u8>) -> Seq<char>;

/// The bytes that standard base64 text `t` stands for, if it is valid.
pub uninterp spec fn base64_decoded(t: Seq<char>) -> Option<Seq<u8>>;

/// Relies on infer::get with infer::Type::mime_type: the MIME type of the
/// first matcher of infer's built-in table that accepts the bytes. Every MIME
/// type of that table is free of `;`.
#[verifier::external_body]
fn sniff_mime(bytes: &[u8]) -> (r: Option<String>)
    ensures
        match r {
            Some(m) => sniffed_mime(bytes@) == Some(m@) && !m@.contains(';'),
            None => sniffed_mime(bytes@).is_none(),
        },
{
    infer::get(bytes).map(|t| t.mime_type().to_string())
}

/// Relies on base64's `general_purpose::STANDARD.encode`: the padded standard
/// base64 text of the bytes, which `STANDARD.decode` turns back into them.
/// It panics when the encoded length overflows `usize` or the output buffer
/// exceeds `isize::MAX` bytes; the bound rules both out.
#[verifier::external_body]
fn base64_encode(bytes: &[u8]) -> (r: String)
    requires
        bytes@.len() <= usize::MAX / 4,
    ensures
        r@ == base64_of(bytes@),
        base64_decoded(r@) == Some(bytes@),
{
    base64::engine::general_purpose::STANDARD.encode(bytes)
}

/// Relies on base64's `general_purpose::STANDARD.decode`: the bytes of valid
/// padded standard base64 text, or an error.
#[verifier::external_body]
fn base64_decode(text: &str) -> (r: Option<Vec<u8>>)
    ensures
        match r {
            Some(v) => base64_decoded(text@) == Some(v@),
            None => base64_decoded(text@).is_none(),
        },
{
    base64::engine::general_purpose::STANDARD.decode(text).ok()
}

/// `data:`
pub open spec fn data_prefix() -> Seq<char> {
    seq!['d', 'a', 't', 'a', ':']
}

/// `;base64,`
pub open spec fn base64_marker() -> Seq<char> {
    seq![';', 'b', 'a', 's', 'e', '6', '4', ',']
}

/// `data:<mime>;base64,<payload>`
pub open spec fn data_url_text(mime: Seq<char>, payload: Seq<char>) -> Seq<char> {
    data_prefix() + mime + base64_marker() + payload
}

/// `http://`
pub open spec fn http_prefix() -> Seq<char> {
    seq!['h', 't', 't', 'p', ':', '/', '/']
}

/// `https://`
pub open spec fn https_prefix() -> Seq<char> {
    seq!['h', 't', 't', 'p', 's', ':', '/', '/']
}

/// Whether `s` begins with `p`.
pub open spec fn starts_with(s: Seq<char>, p: Seq<char>) -> bool {
    p.len() <= s.len() && s.subrange(0, p.len() as int) == p
}

/// Whether a source names a remote image rather than a local file.
pub open spec fn is_remote(s: Seq<char>) -> bool {
    starts_with(s, http_prefix()) || starts_with(s, https_prefix())
}

/// The `data:` URI of a byte buffer, if its type can be sniffed.
pub open spec fn bytes_url(b: Seq<u8>) -> Option<Seq<char>> {
    match sniffed_mime(b) {
        Some(m) => Some(data_url_text(m, base64_of(b))),
        None => None,
    }
}

/// The MIME type and the bytes that a `data:` URI carries, where it has the
/// shape `data:<mime>;base64,<payload>` with no `;` in `<mime>` and a valid
/// base64 payload.
pub open spec fn data_url_decoded(u: Seq<char>) -> Option<(Seq<char>, Seq<u8>)> {
    if exists|m: Seq<char>, p: Seq<char>| !m.contains(';') && u == #[trigger] data_url_text(m, p) {
        let (m, p) = choose|m: Seq<char>, p: Seq<char>|
            !m.contains(';') && u == #[trigger] data_url_text(m, p);
        match base64_decoded(p) {
            Some(b) => Some((m, b)),
            None => None,
        }
    } else {
        None
    }
}

/// A `data:` URI splits in one way only: the MIME type ends at the first `;`.
pub proof fn lemma_data_url_unique(m1: Seq<char>, p1: Seq<char>, m2: Seq<char>, p2: Seq<char>)
    requires
        !m1.contains(';'),
        !m2.contains(';'),
        data_url_text(m1, p1) == data_url_text(m2, p2),
    ensures
        m1 == m2,
        p1 == p2,
{
    let u = data_url_text(m1, p1);
    assert(u == data_url_text(m2, p2));
    assert(u[5 + m1.len() as int] == ';');
    assert(u[5 + m2.len() as int] == ';');
    if m1.len() < m2.len() {
        assert(m2[m1.len() as int] == u[5 + m1.len() as int]);
        assert(m2.contains(';'));
    } else if m2.len() < m1.len() {
        assert(m1[m2.len() as int] == u[5 + m2.len() as int]);
        assert(m1.contains(';'));
    }
    assert(m1 =~= u.subrange(5, 5 + m1.len() as int));
    assert(m2 =~= u.subrange(5, 5 + m2.len() as int));
    assert(p1 =~= u.subrange(13 + m1.len() as int, u.len() as int));
    assert(p2 =~= u.subrange(13 + m2.len() as int, u.len() as int));
}

/// The `data:` URI of a buffer decodes back to its sniffed type and to the
/// buffer itself.
pub proof fn lemma_data_url_round_trip(m: Seq<char>, b: Seq<u8>, p: Seq<char>)
    requires
        !m.contains(';'),
        base64_decoded(p) == Some(b),
    ensures
        data_url_decoded(data_url_text(m, p)) == Some((m, b)),
{
    let u = data_url_text(m, p);
    assert(!m.contains(';') && u == data_url_text(m, p));
    let (m2, p2) = choose|m2: Seq<char>, p2: Seq<char>|
        !m2.contains(';') && u == #[trigger] data_url_text(m2, p2);
    lemma_data_url_unique(m, p, m2, p2);
}


/// For bytes of a known kind, `r` is an image whose URI decodes back to that
/// kind and to the bytes themselves.
pub open spec fn decodes_back(b: Seq<u8>, r: Result<ContentItem, ChatError>) -> bool {
    match sniffed_mime(b) {
        Some(m) => r matches Ok(item) && item@ matches ContentView::Image(u)
            && data_url_decoded(u) == Some((m, b)),
        None => r is Err,
    }
}

/// Whether `p` occurs in `s` at char position `at`.
pub open spec fn occurs_at(s: Seq<char>, p: Seq<char>, at: int) -> bool {
    0 <= at && at + p.len() <= s.len() && s.subrange(at, at + p.len()) == p
}

/// Whether `p` occurs in `s` starting at char position `at`.
pub(crate) fn has_at(s: &str, p: &str, at: usize) -> (r: bool)
    ensures
        r == occurs_at(s@, p@, at as int),
{
    let n = s.unicode_len();
    let k = p.unicode_len();
    if at > n || k > n - at {
        return false;
    }
    let mut j: usize = 0;
    while j < k
        invariant
            n == s@.len(),
            k == p@.len(),
            at + k <= n,
            j <= k,
            forall|t: int| 0 <= t < j ==> s@[at + t] == p@[t],
        decreases k - j,
    {
        if s.get_char(at + j) != p.get_char(j) {
            assert(s@.subrange(at as int, at + k)[j as int] != p@[j as int]);
            return false;
        }
        j = j + 1;
    }
    assert(s@.subrange(at as int, at + k) =~= p@);
    true
}

/// Whether a source names a remote image: it begins with `http://` or `https://`.
pub fn is_remote_source(source: &str) -> (r: bool)
    ensures
        r == is_remote(source@),
{
    proof {
        reveal_strlit("http://");
        reveal_strlit("https://");
    }
    let http = has_at(source, "http://", 0);
    let https = has_at(source, "https://", 0);
    assert("http://"@ =~= http_prefix());
    assert("https://"@ =~= https_prefix());
    http || https
}

/// The text `data:<mime>;base64,<payload>`.
pub fn data_url(mime: &str, payload: &str) -> (r: String)
    ensures
        r@ == data_url_text(mime@, payload@),
{
    proof {
        reveal_strlit("data:");
        reveal_strlit(";base64,");
    }
    let mut url = String::from_str("data:");
    url.append(mime);
    url.append(";base64,");
    url.append(payload);
    assert(url@ =~= data_url_text(mime@, payload@));
    url
}

/// An image content item that refers to `url`.
pub fn image_item(url: String) -> (r: ContentItem)
    ensures
        r@ == ContentView::Image(url@),
{
    ContentItem::ImageUrl { image_url: ImageUrl { url } }
}

/// A text content item.
pub fn text_item(text: &str) -> (r: ContentItem)
    ensures
        r@ == ContentView::Text(text@),
{
    ContentItem::Text { text: String::from_str(text) }
}

/// A remote image, passed through verbatim.
pub fn encode_url(url: &str) -> (r: ContentItem)
    ensures
        r@ == ContentView::Image(url@),
{
    image_item(String::from_str(url))
}

/// Frames a sniffed MIME type and a base64 payload as an image item; with no
/// MIME type the bytes are of an unknown kind.
pub fn frame_image(mime: Option<String>, payload: &str) -> (r: Result<ContentItem, ChatError>)
    ensures
        match mime {
            Some(m) => r matches Ok(item) && item@ == ContentView::Image(data_url_text(m@, payload@)),
            None => r matches Err(ChatError::UnknownFileType),
        },
{
    match mime {
        Some(m) => Ok(image_item(data_url(m.as_str(), payload))),
        None => Err(ChatError::UnknownFileType),
    }
}

/// Encodes the bytes of an image as a `data:` URI item. The URI names the
/// sniffed MIME type and decodes back to exactly these bytes.
pub fn encode_bytes(bytes: &[u8]) -> (r: Result<ContentItem, ChatError>)
    requires
        bytes@.len() <= usize::MAX / 4,
    ensures
        match bytes_url(bytes@) {
            Some(u) => r matches Ok(item) && item@ == ContentView::Image(u),
            None => r matches Err(ChatError::UnknownFileType),
        },
        decodes_back(bytes@, r),
{
    let mime = sniff_mime(bytes);
    match mime {
        None => Err(ChatError::UnknownFileType),
        Some(m) => {
            let payload = base64_encode(bytes);
            proof {
                lemma_data_url_round_trip(m@, bytes@, payload@);
            }
            frame_image(Some(m), payload.as_str())
        },
    }
}


/// Where an image comes from. A local file is given by the outcome of
/// reading it: its bytes, or the reason the read failed.
pub enum ImageSource {
    Remote(String),
    File(Result<Vec<u8>, String>),
    Raw(Vec<u8>),
}

impl ImageSource {
    /// Whether the bytes that the source holds, if any, can be encoded.
    pub open spec fn fits(&self) -> bool {
        match self {
            ImageSource::File(Ok(b)) => b@.len() <= usize::MAX / 4,
            ImageSource::Raw(b) => b@.len() <= usize::MAX / 4,
            _ => true,
        }
    }

    /// The bytes that the source holds, for a file read or a raw buffer.
    pub open spec fn bytes(&self) -> Option<Seq<u8>> {
        match self {
            ImageSource::File(Ok(b)) => Some(b@),
            ImageSource::Raw(b) => Some(b@),
            _ => None,
        }
    }
}

/// Whether `r` is what encoding `source` yields: the URL itself for a remote
/// image; for a failed read, that failure; for bytes, their `data:` URI, or
/// `UnknownFileType` when their kind cannot be sniffed.
pub open spec fn encodes(source: &ImageSource, r: Result<ContentItem, ChatError>) -> bool {
    match source {
        ImageSource::Remote(u) => r matches Ok(item) && item@ == ContentView::Image(u@),
        ImageSource::File(Err(e)) => r matches Err(ChatError::Io(m)) && m@ == e@,
        _ => match bytes_url(source.bytes().unwrap()) {
            Some(u) => r matches Ok(item) && item@ == ContentView::Image(u),
            None => r matches Err(ChatError::UnknownFileType),
        },
    }
}

/// Turns an image source into a content item.
pub fn encode(source: &ImageSource) -> (r: Result<ContentItem, ChatError>)
    requires
        source.fits(),
    ensures
        encodes(source, r),
        source.bytes() matches Some(b) ==> decodes_back(b, r),
{
    match source {
        ImageSource::Remote(u) => Ok(encode_url(u.as_str())),
        ImageSource::File(Err(e)) => Err(ChatError::Io(String::from_str(e.as_str()))),
        ImageSource::File(Ok(b)) => encode_bytes(b.as_slice()),
        ImageSource::Raw(b) => encode_bytes(b.as_slice()),
    }
}

/// Reads the MIME type and the bytes back out of a `data:` URI.
pub fn decode_data_url(url: &str) -> (r: Option<(String, Vec<u8>)>)
    ensures
        match data_url_decoded(url@) {
            Some((m, b)) => r matches Some((m2, b2)) && m2@ == m && b2@ == b,
            None => r is None,
        },
{
    proof {
        reveal_strlit("data:");
        reveal_strlit(";base64,");
    }
    assert("data:"@ =~= data_prefix());
    assert(";base64,"@ =~= base64_marker());
    let ghost u = url@;
    let n = url.unicode_len();
    if !has_at(url, "data:", 0) {
        proof {
            if exists|m: Seq<char>, p: Seq<char>| !m.contains(';') && u == #[trigger] data_url_text(m, p) {
                let (m, p) = choose|m: Seq<char>, p: Seq<char>|
                    !m.contains(';') && u == #[trigger] data_url_text(m, p);
                assert(u.subrange(0, 5) =~= data_prefix());
            }
        }
        return None;
    }
    let mut i: usize = 5;
    while i < n && url.get_char(i) != ';'
        invariant
            n == u.len(),
            u == url@,
            5 <= i <= n,
            forall|j: int| 5 <= j < i ==> u[j] != ';',
        decreases n - i,
    {
        i = i + 1;
    }
    // Any split of the URI ends its MIME type at the first `;` after `data:`.
    proof {
        if exists|m: Seq<char>, p: Seq<char>| !m.contains(';') && u == #[trigger] data_url_text(m, p) {
            let (m, p) = choose|m: Seq<char>, p: Seq<char>|
                !m.contains(';') && u == #[trigger] data_url_text(m, p);
            assert(u[5 + m.len() as int] == ';');
            if i < 5 + m.len() {
                assert(m[i - 5] == u[i as int]);
                assert(m.contains(';'));
            }
            assert(i == 5 + m.len());
            assert(u.subrange(i as int, i + 8) =~= base64_marker());
        }
    }
    if i == n || !has_at(url, ";base64,", i) {
        return None;
    }
    let mime = url.substring_char(5, i);
    let payload = url.substring_char(i + 8, n);
    proof {
        assert(!mime@.contains(';')) by {
            if mime@.contains(';') {
                let k = choose|k: int| 0 <= k < mime@.len() && mime@[k] == ';';
                assert(u[5 + k] == ';');
            }
        }
        assert(u =~= data_url_text(mime@, payload@));
        let (m, p) = choose|m: Seq<char>, p: Seq<char>|
            !m.contains(';') && u == #[trigger] data_url_text(m, p);
        lemma_data_url_unique(mime@, payload@, m, p);
    }
    match base64_decode(payload) {
        Some(b) => Some((String::from_str(mime), b)),
        None => None,
    }
}

} // verus!
