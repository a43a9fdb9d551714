//! File attachments: PDF text, image description requests and video keyframe extraction.

use vstd::prelude::*;

use crate::channels::encoding::{b64_standard_encode, b64_standard_encoding};
use crate::error::BeaconError;
use crate::media::{normalize_mime_type, vision_mime};
use crate::text::{concat, concat3, decimal, str_eq, u64_to_string, views, joined, join_strings};

verus! {

/// Check whether an attachment is a PDF based on its MIME type.
pub fn is_pdf_attachment(mime_type: &str) -> (b: bool)
    ensures
        b == (mime_type@ == "application/pdf"@),
{
    str_eq(mime_type, "application/pdf")
}

/// The outcome of extracting a PDF's text, given what the extractor returned: its
/// text, or an attachment error carrying the extractor's message. The extraction
/// itself (`pdf_extract::extract_text_from_mem`, which can panic on malformed bytes)
/// is made by the caller.
pub fn pdf_text_result(extracted: Result<String, String>) -> (r: Result<String, BeaconError>)
    ensures
        match extracted {
            Ok(t) => r is Ok && (r->Ok_0)@ == t@,
            Err(e) => r is Err && r->Err_0 is Attachment && r->Err_0.spec_message()
                == "PDF extraction failed: "@ + e@,
        },
{
    match extracted {
        Ok(t) => Ok(t),
        Err(e) => {
            proof {
                reveal_strlit("PDF extraction failed: ");
            }
            Err(BeaconError::Attachment(concat("PDF extraction failed: ", e.as_str())))
        },
    }
}

/// Token budget of an image description.
pub const MAX_VISION_TOKENS: u32 = 300;

/// The instruction sent with every image.
pub const VISION_PROMPT: &'static str = "Describe this image concisely in 1-2 sentences. Focus on the main subject and any text visible.";

/// A direct image-description request: one user message holding the image, then the prompt.
#[derive(Debug, Clone)]
pub struct VisionRequest {
    /// Model to ask
    pub model: String,
    /// Token budget
    pub max_tokens: u32,
    /// MIME type the image is sent as
    pub media_type: String,
    /// The image, base64-encoded
    pub data: String,
    /// The instruction that follows the image
    pub prompt: String,
}

/// Build the direct request that describes an image.
pub fn vision_request(model: &str, image_data: &[u8], mime_type: &str) -> (r: VisionRequest)
    requires
        image_data@.len() <= usize::MAX / 2,
    ensures
        r.model@ == model@,
        r.max_tokens == MAX_VISION_TOKENS,
        r.media_type@ == vision_mime(mime_type@),
        r.data@ == b64_standard_encoding(image_data@),
        r.prompt@ == VISION_PROMPT@,
{
    VisionRequest {
        model: String::from_str(model),
        max_tokens: MAX_VISION_TOKENS,
        media_type: String::from_str(normalize_mime_type(mime_type)),
        data: b64_standard_encode(image_data),
        prompt: String::from_str(VISION_PROMPT),
    }
}

/// The data URL of an image: `data:{media type};base64,{data}`.
pub fn image_data_url(image_data: &[u8], mime_type: &str) -> (r: String)
    requires
        image_data@.len() <= usize::MAX / 2,
    ensures
        r@ == "data:"@ + vision_mime(mime_type@) + ";base64,"@ + b64_standard_encoding(image_data@),
{
    let data = b64_standard_encode(image_data);
    let head = concat3("data:", normalize_mime_type(mime_type), ";base64,");
    concat(head.as_str(), data.as_str())
}

/// A vision client needs an API key.
pub fn check_vision_key(api_key: &str) -> (r: Result<(), BeaconError>)
    ensures
        r is Ok <==> api_key@.len() > 0,
        r is Err ==> r->Err_0 is Config && r->Err_0.spec_message() == "Anthropic API key required for vision"@,
{
    if api_key.is_empty() {
        Err(BeaconError::Config(String::from_str("Anthropic API key required for vision")))
    } else {
        Ok(())
    }
}

/// The texts that are present, in order.
pub open spec fn present_texts(parts: Seq<Option<String>>) -> Seq<Seq<char>>
    decreases parts.len(),
{
    if parts.len() == 0 {
        Seq::empty()
    } else {
        let rest = present_texts(parts.drop_last());
        match parts.last() {
            Some(t) => rest.push(t@),
            None => rest,
        }
    }
}

/// The description from the text parts of a reply: the present ones joined by a space;
/// an empty description is an error.
pub fn description_from_parts(parts: Vec<Option<String>>) -> (r: Result<String, BeaconError>)
    ensures
        ({
            let d = joined(present_texts(parts@), " "@);
            if d.len() == 0 {
                r is Err && r->Err_0 is Vision && r->Err_0.spec_message() == "Empty response from vision API"@
            } else {
                r is Ok && (r->Ok_0)@ == d
            }
        }),
{
    let mut texts: Vec<String> = Vec::new();
    let mut i: usize = 0;
    while i < parts.len()
        invariant
            i <= parts@.len(),
            views(texts@) == present_texts(parts@.take(i as int)),
        decreases parts@.len() - i,
    {
        proof {
            assert(parts@.take(i + 1).drop_last() =~= parts@.take(i as int));
        }
        match &parts[i] {
            Some(t) => {
                texts.push(t.clone());
                proof {
                    assert(views(texts@) =~= present_texts(parts@.take(i as int)).push(t@));
                }
            },
            None => {},
        }
        i = i + 1;
    }
    proof {
        assert(parts@.take(parts@.len() as int) =~= parts@);
    }
    let d = join_strings(&texts, " ");
    if d.as_str().is_empty() {
        Err(BeaconError::Vision(String::from_str("Empty response from vision API")))
    } else {
        Ok(d)
    }
}

/// The error for a vision API answer that was not a success.
pub fn vision_api_error(status: &str, body: &str) -> (e: BeaconError)
    ensures
        e is Vision,
        e.spec_message() == "API error "@ + status@ + ": "@ + body@,
{
    let head = concat3("API error ", status, ": ");
    BeaconError::Vision(concat(head.as_str(), body))
}

/// Decimal text of `n`, zero-padded to at least three digits.
pub open spec fn pad3(n: nat) -> Seq<char> {
    let d = decimal(n);
    if d.len() == 1 {
        "00"@ + d
    } else if d.len() == 2 {
        "0"@ + d
    } else {
        d
    }
}

proof fn lemma_decimal_len(n: nat)
    ensures
        decimal(n).len() >= 1,
        n < 10 ==> decimal(n).len() == 1,
        10 <= n < 100 ==> decimal(n).len() == 2,
        n >= 100 ==> decimal(n).len() >= 3,
    decreases n,
{
    if n >= 10 {
        lemma_decimal_len(n / 10);
    }
}

/// The name of the `i`-th extracted frame: `frame_{i:03}.jpg`.
pub fn frame_file_name(i: u32) -> (r: String)
    ensures
        r@ == "frame_"@ + pad3(i as nat) + ".jpg"@,
{
    let d = u64_to_string(i as u64);
    proof {
        lemma_decimal_len(i as nat);
        reveal_strlit("00");
        reveal_strlit("0");
    }
    let padded = if i < 10 {
        concat("00", d.as_str())
    } else if i < 100 {
        concat("0", d.as_str())
    } else {
        d
    };
    concat3("frame_", padded.as_str(), ".jpg")
}

/// The ffmpeg arguments that extract up to `max_frames` I-frames of `input` as JPEG
/// files named by `output_pattern`.
pub open spec fn keyframe_args(input: Seq<char>, max_frames: u32, output_pattern: Seq<char>) -> Seq<
    Seq<char>,
> {
    seq![
        "-i"@,
        input,
        "-vf"@,
        "select=eq(pict_type\\,I)"@,
        "-frames:v"@,
        decimal(max_frames as nat),
        "-vsync"@,
        "vfr"@,
        "-q:v"@,
        "2"@,
        output_pattern,
        "-y"@,
        "-loglevel"@,
        "error"@,
    ]
}

/// Build the ffmpeg command line for keyframe extraction.
pub fn keyframe_command(input: &str, max_frames: u32, output_pattern: &str) -> (r: Vec<String>)
    ensures
        views(r@) == keyframe_args(input@, max_frames, output_pattern@),
{
    let mut v: Vec<String> = Vec::new();
    v.push(String::from_str("-i"));
    v.push(String::from_str(input));
    v.push(String::from_str("-vf"));
    v.push(String::from_str("select=eq(pict_type\\,I)"));
    v.push(String::from_str("-frames:v"));
    v.push(u64_to_string(max_frames as u64));
    v.push(String::from_str("-vsync"));
    v.push(String::from_str("vfr"));
    v.push(String::from_str("-q:v"));
    v.push(String::from_str("2"));
    v.push(String::from_str(output_pattern));
    v.push(String::from_str("-y"));
    v.push(String::from_str("-loglevel"));
    v.push(String::from_str("error"));
    proof {
        assert(views(v@) =~= keyframe_args(input@, max_frames, output_pattern@));
    }
    v
}

/// A copy of some bytes.
fn copy_bytes(b: &Vec<u8>) -> (r: Vec<u8>)
    ensures
        r@ == b@,
{
    let mut out: Vec<u8> = Vec::new();
    let mut i: usize = 0;
    while i < b.len()
        invariant
            i <= b@.len(),
            out@ == b@.take(i as int),
        decreases b@.len() - i,
    {
        out.push(b[i]);
        proof {
            assert(b@.take(i + 1) =~= b@.take(i as int).push(b@[i as int]));
        }
        i = i + 1;
    }
    proof {
        assert(b@.take(b@.len() as int) =~= b@);
    }
    out
}

/// A read frame file is the frame: it was read and is not empty.
pub open spec fn frame_read_as(read: Option<Vec<u8>>, frame: Vec<u8>) -> bool {
    read matches Some(b) && b@ == frame@ && b@.len() > 0
}

/// The keyframes of an ffmpeg run, given whether it succeeded and what reading the
/// frame files `frame_001.jpg`, `frame_002.jpg`, ... gave (`None` when a file could not
/// be read): none after a failed run; otherwise the frames read, in order, up to the
/// first file that is missing or empty.
pub fn keyframes_read(exit_success: bool, reads: Vec<Option<Vec<u8>>>) -> (r: Vec<Vec<u8>>)
    ensures
        !exit_success ==> r@.len() == 0,
        exit_success ==> {
            &&& r@.len() <= reads@.len()
            &&& forall|i: int| 0 <= i < r@.len() ==> frame_read_as(reads@[i], #[trigger] r@[i])
            &&& r@.len() < reads@.len() ==> !(exists|f: Vec<u8>| frame_read_as(reads@[r@.len() as int], f))
        },
{
    let mut frames: Vec<Vec<u8>> = Vec::new();
    if !exit_success {
        return frames;
    }
    let mut i: usize = 0;
    while i < reads.len()
        invariant
            exit_success,
            i <= reads@.len(),
            frames@.len() == i,
            forall|k: int| 0 <= k < i ==> frame_read_as(reads@[k], #[trigger] frames@[k]),
        decreases reads@.len() - i,
    {
        let cur = &reads[i];
        proof {
            assert(*cur == reads@[i as int]);
        }
        match cur {
            Some(b) => {
                if b.len() == 0 {
                    return frames;
                }
                let c = copy_bytes(b);
                let ghost before = frames@;
                frames.push(c);
                proof {
                    assert(frame_read_as(reads@[i as int], frames@[i as int]));
                    assert forall|k: int| 0 <= k < i + 1 implies frame_read_as(reads@[k], #[trigger] frames@[k]) by {
                        if k < i {
                            assert(frames@[k] == before[k]);
                        }
                    }
                }
            },
            None => {
                return frames;
            },
        }
        i = i + 1;
    }
    frames
}

} // verus!
