use crate::v1::text::concat2;
use base64::Engine;
use vstd::prelude::*;

verus! {

/// An image that a chat message can carry: its URL, which may be a `data:`
/// URL that holds the image itself, and an optional level of detail.
#[derive(Clone, Debug)]
pub struct Img {
    pub detail: Option<String>,
    pub url: String,
}

/// The text of a URL as the `url` crate's parser (`reqwest::Url`) writes it
/// back after parsing `text`, or `None` where it does not parse.
pub uninterp spec fn normalized_url(text: Seq<char>) -> Option<Seq<char>>;

/// The first MIME type that `mime_guess` finds for a path, from its extension.
pub uninterp spec fn guessed_mime(path: Seq<char>) -> Option<Seq<char>>;

/// The letter of the standard base64 alphabet (RFC 4648) for a 6-bit value:
/// `A`-`Z`, `a`-`z`, `0`-`9`, `+`, `/`.
pub open spec fn base64_letter(v: int) -> char {
    if v < 26 {
        (65 + v) as char
    } else if v < 52 {
        (97 + v - 26) as char
    } else if v < 62 {
        (48 + v - 52) as char
    } else if v == 62 {
        '+'
    } else {
        '/'
    }
}

/// The standard, padded base64 encoding of some bytes: each group of three
/// bytes becomes four letters of six bits each, and a last group of one or
/// two bytes becomes two or three letters followed by `=` padding to four.
pub open spec fn base64_standard(bytes: Seq<u8>) -> Seq<char>
    decreases bytes.len(),
{
    if bytes.len() == 0 {
        Seq::empty()
    } else if bytes.len() == 1 {
        let b0 = bytes[0] as int;
        seq![base64_letter(b0 / 4), base64_letter((b0 % 4) * 16), '=', '=']
    } else if bytes.len() == 2 {
        let b0 = bytes[0] as int;
        let b1 = bytes[1] as int;
        seq![
            base64_letter(b0 / 4),
            base64_letter((b0 % 4) * 16 + b1 / 16),
            base64_letter((b1 % 16) * 4),
            '=',
        ]
    } else {
        let b0 = bytes[0] as int;
        let b1 = bytes[1] as int;
        let b2 = bytes[2] as int;
        seq![
            base64_letter(b0 / 4),
            base64_letter((b0 % 4) * 16 + b1 / 16),
            base64_letter((b1 % 16) * 4 + b2 / 64),
            base64_letter(b2 % 64),
        ] + base64_standard(bytes.skip(3))
    }
}

/// `reqwest::Url::parse`, then the URL's `Display`: the contract claims that
/// the result is `Some` exactly where the text parses, and that it is the
/// named normal form of the text.
#[verifier::external_body]
fn parse_url(text: &str) -> (r: Option<String>)
    ensures
        match r {
            Some(u) => normalized_url(text@) == Some(u@),
            None => normalized_url(text@) is None,
        },
{
    match reqwest::Url::parse(text) {
        Ok(url) => Some(url.to_string()),
        Err(_) => None,
    }
}

/// `mime_guess::from_path(path).first()`, written out with `Display`: the
/// contract claims that the result is the named first guess for the path.
#[verifier::external_body]
fn guess_mime(path: &str) -> (r: Option<String>)
    ensures
        match r {
            Some(m) => guessed_mime(path@) == Some(m@),
            None => guessed_mime(path@) is None,
        },
{
    match mime_guess::from_path(path).first() {
        Some(mime) => Some(mime.to_string()),
        None => None,
    }
}

/// `base64::engine::general_purpose::STANDARD.encode`: the contract claims
/// that the result is the standard, padded base64 encoding of the bytes. The `requires` keeps
/// out the inputs whose encoded length overflows `usize`, on which it panics.
#[verifier::external_body]
fn encode_base64(bytes: &[u8]) -> (r: String)
    requires
        bytes@.len() / 3 * 4 + 4 <= usize::MAX,
    ensures
        r@ == base64_standard(bytes@),
{
    base64::engine::general_purpose::STANDARD.encode(bytes)
}

/// The `data:` URL that holds bytes of the given MIME type.
pub open spec fn data_url(mime: Seq<char>, contents: Seq<u8>) -> Seq<char> {
    "data:"@ + mime + ";base64,"@ + base64_standard(contents)
}

impl Img {
    /// The same image, with the given level of detail.
    pub fn with_detail(self, detail: String) -> (r: Self)
        ensures
            r.detail == Some(detail),
            r.url == self.url,
    {
        Self { detail: Some(detail), ..self }
    }

    /// The image at a URL. The URL is stored as the parser writes it back.
    pub fn from_url(url: &str) -> (r: Self)
        requires
            normalized_url(url@) is Some,
        ensures
            r.url@ == normalized_url(url@)->0,
            r.detail is None,
    {
        match parse_url(url) {
            Some(u) => Self { url: u, detail: None },
            None => Self { url: String::new(), detail: None },
        }
    }

    /// The image at a URL, or `None` where the URL does not parse.
    pub fn try_from_url(url: &str) -> (r: Option<Self>)
        ensures
            match r {
                Some(img) => normalized_url(url@) is Some && img.url@ == normalized_url(url@)->0
                    && img.detail is None,
                None => normalized_url(url@) is None,
            },
    {
        match parse_url(url) {
            Some(_) => Some(Self::from_url(url)),
            None => None,
        }
    }

    /// The image held in a file, given the file's path and its contents: a
    /// `data:` URL of the MIME type that the path's extension gives, with the
    /// contents in base64.
    pub fn from_file(path: &str, contents: &[u8]) -> (r: Self)
        requires
            guessed_mime(path@) is Some,
            contents@.len() / 3 * 4 + 4 <= usize::MAX,
        ensures
            r.url@ == data_url(guessed_mime(path@)->0, contents@),
            r.detail is None,
    {
        let mime = match guess_mime(path) {
            Some(m) => m,
            None => String::new(),
        };
        let encoded = encode_base64(contents);
        let mut url = concat2("data:", mime.as_str());
        url.append(";base64,");
        url.append(encoded.as_str());
        proof {
            assert(url@ == data_url(guessed_mime(path@)->0, contents@));
        }
        Self { url, detail: None }
    }

    /// The image held in a file, or `None` where no MIME type is known for
    /// the path's extension.
    pub fn try_from_file(path: &str, contents: &[u8]) -> (r: Option<Self>)
        requires
            contents@.len() / 3 * 4 + 4 <= usize::MAX,
        ensures
            match r {
                Some(img) => guessed_mime(path@) is Some && img.url@ == data_url(
                    guessed_mime(path@)->0,
                    contents@,
                ) && img.detail is None,
                None => guessed_mime(path@) is None,
            },
    {
        match guess_mime(path) {
            Some(_) => Some(Self::from_file(path, contents)),
            None => None,
        }
    }
}

} // verus!
