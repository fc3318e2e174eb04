//! Images attached to a Capture or a message: size limits, encoding and file signatures.

use vstd::prelude::*;
use base64::Engine;
use crate::text::text_eq;

verus! {

/// What the standard (padded) Base64 engine decodes from a text, if it is valid Base64.
pub uninterp spec fn base64_standard_decode(text: Seq<char>) -> Option<Seq<u8>>;

/// Decodes standard Base64.
///
/// Trusted: calls `base64::engine::general_purpose::STANDARD.decode` (the `Engine`
/// trait's `decode`), which returns the decoded bytes, or an error for text that is not
/// valid padded Base64; the result depends on the text alone.
#[verifier::external_body]
fn decode_standard(data: &str) -> (r: Option<Vec<u8>>)
    ensures
        match r {
            Some(bytes) => base64_standard_decode(data@) == Some(bytes@),
            None => base64_standard_decode(data@) is None,
        },
{
    base64::engine::general_purpose::STANDARD.decode(data).ok()
}

/// The largest encoded image text accepted, in bytes.
pub const MAX_ENCODED_BYTES: usize = 14000000;

/// The largest decoded image accepted, in bytes.
pub const MAX_IMAGE_BYTES: usize = 10485760;

/// Whether `bytes` begins with `prefix`.
pub open spec fn starts_with(bytes: Seq<u8>, prefix: Seq<u8>) -> bool {
    prefix.len() <= bytes.len() && bytes.subrange(0, prefix.len() as int) == prefix
}

/// Whether decoded bytes carry the file signature of the declared media type.
pub open spec fn signature_matches(media: Seq<char>, b: Seq<u8>) -> bool {
    if media == "image/png"@ {
        starts_with(b, seq![0x89u8, 0x50u8, 0x4eu8, 0x47u8, 0x0du8, 0x0au8, 0x1au8, 0x0au8])
    } else if media == "image/jpeg"@ {
        starts_with(b, seq![0xffu8, 0xd8u8, 0xffu8])
    } else if media == "image/gif"@ {
        starts_with(b, seq![0x47u8, 0x49u8, 0x46u8, 0x38u8, 0x37u8, 0x61u8]) || starts_with(
            b,
            seq![0x47u8, 0x49u8, 0x46u8, 0x38u8, 0x39u8, 0x61u8],
        )
    } else if media == "image/webp"@ {
        starts_with(b, seq![0x52u8, 0x49u8, 0x46u8, 0x46u8]) && b.len() >= 12 && b.subrange(8, 12)
            == seq![0x57u8, 0x45u8, 0x42u8, 0x50u8]
    } else {
        false
    }
}

fn bytes_start_with(bytes: &[u8], prefix: &[u8]) -> (r: bool)
    ensures
        r == starts_with(bytes@, prefix@),
{
    if prefix.len() > bytes.len() {
        return false;
    }
    let mut i: usize = 0;
    while i < prefix.len()
        invariant
            prefix@.len() <= bytes@.len(),
            i <= prefix@.len(),
            forall|k: int| 0 <= k < i ==> bytes@[k] == prefix@[k],
        decreases prefix@.len() - i,
    {
        if bytes[i] != prefix[i] {
            proof {
                assert(bytes@.subrange(0, prefix@.len() as int)[i as int] != prefix@[i as int]);
            }
            return false;
        }
        i = i + 1;
    }
    proof {
        assert(bytes@.subrange(0, prefix@.len() as int) =~= prefix@);
    }
    true
}

/// Checks an image's file signature against its declared media type.
pub fn signature_ok(media: &str, bytes: &[u8]) -> (r: bool)
    ensures
        r == signature_matches(media@, bytes@),
{
    if text_eq(media, "image/png") {
        let sig: [u8; 8] = [0x89, 0x50, 0x4e, 0x47, 0x0d, 0x0a, 0x1a, 0x0a];
        proof {
            assert(sig@ =~= seq![0x89u8, 0x50u8, 0x4eu8, 0x47u8, 0x0du8, 0x0au8, 0x1au8, 0x0au8]);
        }
        bytes_start_with(bytes, &sig)
    } else if text_eq(media, "image/jpeg") {
        let sig: [u8; 3] = [0xff, 0xd8, 0xff];
        proof {
            assert(sig@ =~= seq![0xffu8, 0xd8u8, 0xffu8]);
        }
        bytes_start_with(bytes, &sig)
    } else if text_eq(media, "image/gif") {
        let a: [u8; 6] = [0x47, 0x49, 0x46, 0x38, 0x37, 0x61];
        let b: [u8; 6] = [0x47, 0x49, 0x46, 0x38, 0x39, 0x61];
        proof {
            assert(a@ =~= seq![0x47u8, 0x49u8, 0x46u8, 0x38u8, 0x37u8, 0x61u8]);
            assert(b@ =~= seq![0x47u8, 0x49u8, 0x46u8, 0x38u8, 0x39u8, 0x61u8]);
        }
        bytes_start_with(bytes, &a) || bytes_start_with(bytes, &b)
    } else if text_eq(media, "image/webp") {
        let riff: [u8; 4] = [0x52, 0x49, 0x46, 0x46];
        proof {
            assert(riff@ =~= seq![0x52u8, 0x49u8, 0x46u8, 0x46u8]);
        }
        if !bytes_start_with(bytes, &riff) || bytes.len() < 12 {
            return false;
        }
        let ok = bytes[8] == 0x57 && bytes[9] == 0x45 && bytes[10] == 0x42 && bytes[11] == 0x50;
        proof {
            let w = bytes@.subrange(8, 12);
            if ok {
                assert(w =~= seq![0x57u8, 0x45u8, 0x42u8, 0x50u8]);
            } else {
                assert(w[0] == bytes@[8] && w[1] == bytes@[9] && w[2] == bytes@[10] && w[3] == bytes@[11]);
            }
        }
        ok
    } else {
        false
    }
}

/// The refusal, if any, of a decoded image: its signature must match its media type and
/// it must fit the size limit.
pub open spec fn decoded_image_check(media: Seq<char>, decoded: Option<Seq<u8>>) -> Option<Seq<char>> {
    match decoded {
        None => Some("invalid_input: invalid image encoding"@),
        Some(b) => if !signature_matches(media, b) || b.len() > MAX_IMAGE_BYTES {
            Some("invalid_input: use a PNG, JPEG, GIF or WebP image up to 10 MB"@)
        } else {
            None
        },
    }
}

/// Checks a decoded image; `decoded` is None when the text was not valid Base64.
pub fn check_decoded_image(media: &str, decoded: Option<&[u8]>) -> (r: Result<(), String>)
    ensures
        match decoded_image_check(
            media@,
            match decoded {
                Some(b) => Some(b@),
                None => None,
            },
        ) {
            None => r is Ok,
            Some(m) => r matches Err(e) && e@ == m,
        },
{
    match decoded {
        None => Err("invalid_input: invalid image encoding".to_owned()),
        Some(b) => {
            if !signature_ok(media, b) || b.len() > MAX_IMAGE_BYTES {
                Err("invalid_input: use a PNG, JPEG, GIF or WebP image up to 10 MB".to_owned())
            } else {
                Ok(())
            }
        },
    }
}

/// An image as a request carries it; absent fields are None.
#[derive(Debug, Clone)]
pub struct ImageInput {
    pub name: Option<String>,
    pub media_type: Option<String>,
    pub data: Option<String>,
}

/// An accepted image, ready to be stored.
#[derive(Debug, Clone)]
pub struct ValidImage {
    pub name: String,
    pub media_type: String,
    pub data: String,
}

/// A text field, or the empty text when absent.
pub open spec fn or_empty(o: Option<String>) -> Seq<char> {
    match o {
        Some(s) => s@,
        None => Seq::empty(),
    }
}

/// The outcome of validating one image.
pub open spec fn image_outcome(image: ImageInput) -> Result<(Seq<char>, Seq<char>, Seq<char>), Seq<char>> {
    let media = or_empty(image.media_type);
    let data = or_empty(image.data);
    if crate::text::utf8(data).len() > MAX_ENCODED_BYTES {
        Err("invalid_input: image exceeds 10 MB"@)
    } else {
        match decoded_image_check(media, base64_standard_decode(data)) {
            Some(m) => Err(m),
            None => Ok(
                (
                    match image.name {
                        Some(n) => n@,
                        None => "image"@,
                    },
                    media,
                    data,
                ),
            ),
        }
    }
}

fn text_or_empty(o: &Option<String>) -> (r: &str)
    ensures
        r@ == or_empty(*o),
{
    proof {
        reveal_strlit("");
    }
    match o {
        Some(s) => s.as_str(),
        None => "",
    }
}

/// Validates one attached image: the encoded text must be at most 14 MB, valid Base64, a
/// PNG, JPEG, GIF or WebP by its file signature, and at most 10 MiB decoded.
pub fn validate_image(image: &ImageInput) -> (r: Result<ValidImage, String>)
    ensures
        match image_outcome(*image) {
            Ok((name, media, data)) => r matches Ok(v) && v.name@ == name && v.media_type@ == media
                && v.data@ == data,
            Err(m) => r matches Err(e) && e@ == m,
        },
{
    let media = text_or_empty(&image.media_type);
    let data = text_or_empty(&image.data);
    if data.as_bytes().len() > MAX_ENCODED_BYTES {
        return Err("invalid_input: image exceeds 10 MB".to_owned());
    }
    let decoded = decode_standard(data);
    let checked = match &decoded {
        Some(b) => check_decoded_image(media, Some(b.as_slice())),
        None => check_decoded_image(media, None),
    };
    match checked {
        Err(e) => Err(e),
        Ok(()) => Ok(
            ValidImage {
                name: match &image.name {
                    Some(n) => n.clone(),
                    None => "image".to_owned(),
                },
                media_type: media.to_owned(),
                data: data.to_owned(),
            },
        ),
    }
}

/// The view of an accepted image.
pub open spec fn image_view(v: ValidImage) -> (Seq<char>, Seq<char>, Seq<char>) {
    (v.name@, v.media_type@, v.data@)
}

/// The outcome of validating a list of images: the first refusal, in order, or all of
/// them accepted. A null entry is not an image.
pub open spec fn list_outcome(items: Seq<Option<ImageInput>>) -> Result<Seq<(Seq<char>, Seq<char>, Seq<char>)>, Seq<char>>
    decreases items.len(),
{
    if items.len() == 0 {
        Ok(Seq::empty())
    } else {
        match items[0] {
            None => Err("invalid_input: image must be an object"@),
            Some(i) => match image_outcome(i) {
                Err(m) => Err(m),
                Ok(v) => match list_outcome(items.drop_first()) {
                    Ok(vs) => Ok(seq![v] + vs),
                    Err(m) => Err(m),
                },
            },
        }
    }
}

/// Accepted images before the rest, or the rest's refusal.
pub open spec fn prepend(done: Seq<(Seq<char>, Seq<char>, Seq<char>)>, rest: Result<Seq<(Seq<char>, Seq<char>, Seq<char>)>, Seq<char>>) -> Result<Seq<(Seq<char>, Seq<char>, Seq<char>)>, Seq<char>> {
    match rest {
        Ok(vs) => Ok(done + vs),
        Err(m) => Err(m),
    }
}

/// The `images` field of a request.
#[derive(Debug, Clone)]
pub enum ImagesField {
    /// Absent or null: the single `image` field is used instead.
    Absent,
    /// Present but not a list.
    NotArray,
    /// A list; null entries are None.
    List(Vec<Option<ImageInput>>),
}

/// Validates every image of a request. The list form takes precedence; a request with
/// only the single-image field keeps working.
pub fn validate_all(images: &ImagesField, single: Option<&ImageInput>) -> (r: Result<Vec<ValidImage>, String>)
    ensures
        match images {
            ImagesField::NotArray => r matches Err(e) && e@ == "invalid_input: images must be an array"@,
            ImagesField::Absent => match single {
                None => r matches Ok(v) && v@.len() == 0,
                Some(i) => match image_outcome(*i) {
                    Ok(view) => r matches Ok(v) && v@.len() == 1 && image_view(v@[0]) == view,
                    Err(m) => r matches Err(e) && e@ == m,
                },
            },
            ImagesField::List(items) => match list_outcome(items@) {
                Ok(views) => r matches Ok(v) && v@.len() == views.len() && forall|k: int|
                    0 <= k < views.len() ==> image_view(#[trigger] v@[k]) == views[k],
                Err(m) => r matches Err(e) && e@ == m,
            },
        },
{
    match images {
        ImagesField::NotArray => Err("invalid_input: images must be an array".to_owned()),
        ImagesField::Absent => {
            let mut out: Vec<ValidImage> = Vec::new();
            match single {
                None => {},
                Some(i) => {
                    match validate_image(i) {
                        Ok(v) => out.push(v),
                        Err(e) => {
                            return Err(e);
                        },
                    }
                },
            }
            Ok(out)
        },
        ImagesField::List(items) => {
            let mut out: Vec<ValidImage> = Vec::new();
            let mut i: usize = 0;
            proof {
                assert(items@.skip(0) =~= items@);
                assert(Seq::<(Seq<char>, Seq<char>, Seq<char>)>::empty() + Seq::empty() =~= Seq::<(Seq<char>, Seq<char>, Seq<char>)>::empty());
            }
            while i < items.len()
                invariant
                    *images == ImagesField::List(*items),
                    i <= items@.len(),
                    out@.len() == i,
                    list_outcome(items@) == prepend(
                        Seq::new(i as nat, |k: int| image_view(out@[k])),
                        list_outcome(items@.skip(i as int)),
                    ),
                decreases items@.len() - i,
            {
                let ghost done = Seq::new(i as nat, |k: int| image_view(out@[k]));
                proof {
                    assert(items@.skip(i as int).drop_first() =~= items@.skip(i as int + 1));
                    assert(items@.skip(i as int)[0] == items@[i as int]);
                }
                match &items[i] {
                    None => {
                        proof {
                            assert(list_outcome(items@.skip(i as int)) == Err::<Seq<(Seq<char>, Seq<char>, Seq<char>)>, Seq<char>>("invalid_input: image must be an object"@));
                        }
                        return Err("invalid_input: image must be an object".to_owned());
                    },
                    Some(image) => {
                        let v = match validate_image(image) {
                            Ok(v) => v,
                            Err(e) => {
                                proof {
                                    assert(list_outcome(items@.skip(i as int)) == Err::<Seq<(Seq<char>, Seq<char>, Seq<char>)>, Seq<char>>(e@));
                                }
                                return Err(e);
                            },
                        };
                        out.push(v);
                        proof {
                            let now = Seq::new(i as nat + 1, |k: int| image_view(out@[k]));
                            assert(now =~= done + seq![image_view(out@[i as int])]);
                            match list_outcome(items@.skip(i as int + 1)) {
                                Ok(vs) => {
                                    assert(done + (seq![image_view(out@[i as int])] + vs) =~= now + vs);
                                },
                                Err(_) => {},
                            }
                        }
                    },
                }
                i = i + 1;
            }
            proof {
                assert(items@.skip(i as int) =~= Seq::<Option<ImageInput>>::empty());
                let views = Seq::new(i as nat, |k: int| image_view(out@[k]));
                assert(views + Seq::empty() =~= views);
            }
            Ok(out)
        },
    }
}

} // verus!
