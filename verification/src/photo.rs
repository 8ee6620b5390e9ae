//! Photos on their way to the chat: reading the size that the image tool
//! reports, and deciding whether a picture goes out as it is or is made
//! smaller first.
use vstd::prelude::*;
use vstd::string::*;
use vstd::utf8::*;

use crate::bot_config::{
    IMG_RESIZE_QUALITY, IMG_RESIZE_TARGET, TG_IMG_FILE_SIZE_LIMIT, TG_IMG_SIZE_LIMIT,
};
use crate::error::Error;
use crate::text::{
    charsOf, decimal, findChar, index_of, parseDecimal, parsed_decimal, u32ToString, utf8Text,
};

verus! {

/// The width and height that a size report of the form `WxH` tells: the
/// text before the first `x` and the text between it and the next `x`, or
/// the end, each read as a number of 32 bits.
pub open spec fn magick_size(s: Seq<char>) -> Option<(u32, u32)> {
    let cut = index_of(s, 'x', 0);
    if cut >= s.len() {
        None
    } else {
        let end = index_of(s, 'x', cut + 1);
        match (
            parsed_decimal(s.subrange(0, cut), u32::MAX as nat),
            parsed_decimal(s.subrange(cut + 1, end), u32::MAX as nat),
        ) {
            (Some(w), Some(h)) => Some((w as u32, h as u32)),
            _ => None,
        }
    }
}

/// What reading a size report answers: the size, or an error that quotes
/// the report.
pub open spec fn size_answer(report: Seq<char>, r: Result<(u32, u32), Error>) -> bool {
    match magick_size(report) {
        Some(size) => r == Ok::<(u32, u32), Error>(size),
        None => r matches Err(e) && e is RuntimeError && e.message()
            == "Invalid magick size string: "@ + report,
    }
}

/// The width and height in a size report of the form `WxH`.
pub fn parseMagickSizeOutput(output: &str) -> (r: Result<(u32, u32), Error>)
    ensures
        size_answer(output@, r),
{
    let chars = charsOf(output);
    let cut = findChar(&chars, 'x', 0);
    if cut < chars.len() {
        let end = findChar(&chars, 'x', cut + 1);
        let width = parseDecimal(&chars, 0, cut, u32::MAX as u64);
        let height = parseDecimal(&chars, cut + 1, end, u32::MAX as u64);
        match (width, height) {
            (Some(w), Some(h)) => {
                return Ok((w as u32, h as u32));
            },
            _ => {},
        }
    }
    Err(Error::RuntimeError(String::from_str("Invalid magick size string: ").concat(output)))
}

/// The command that asks the image tool for the size of the picture at
/// `uri`.
pub fn imageSizeCommand(uri: &str) -> (command: Vec<String>)
    ensures
        command@.len() == 6,
        command@[0]@ == "magick"@,
        command@[1]@ == "identify"@,
        command@[2]@ == "-ping"@,
        command@[3]@ == "-format"@,
        command@[4]@ == "%wx%h"@,
        command@[5]@ == uri@,
{
    let mut command: Vec<String> = Vec::new();
    command.push(String::from_str("magick"));
    command.push(String::from_str("identify"));
    command.push(String::from_str("-ping"));
    command.push(String::from_str("-format"));
    command.push(String::from_str("%wx%h"));
    command.push(String::from_str(uri));
    command
}

/// The size of a picture, from what the image tool printed for
/// `imageSizeCommand`.
pub fn getImageSize(output_raw: &[u8]) -> (r: Result<(u32, u32), Error>)
    ensures
        if valid_utf8(output_raw@) {
            size_answer(decode_utf8(output_raw@), r)
        } else {
            r matches Err(e) && e is RuntimeError && e.message() == "Invalid magick output"@
        },
{
    match utf8Text(output_raw) {
        Some(output) => parseMagickSizeOutput(output),
        None => Err(Error::RuntimeError(String::from_str("Invalid magick output"))),
    }
}

/// The command that fetches `uri` into the file `to_file`.
pub fn downloadFile(uri: &str, to_file: &str) -> (command: Vec<String>)
    ensures
        command@.len() == 5,
        command@[0]@ == "curl"@,
        command@[1]@ == "--silent"@,
        command@[2]@ == "-o"@,
        command@[3]@ == to_file@,
        command@[4]@ == uri@,
{
    let mut command: Vec<String> = Vec::new();
    command.push(String::from_str("curl"));
    command.push(String::from_str("--silent"));
    command.push(String::from_str("-o"));
    command.push(String::from_str(to_file));
    command.push(String::from_str(uri));
    command
}

/// Information of a file on the web.
pub struct UriFileInfo {
    /// The file size, in bytes.
    pub size: u64,
    /// The name of the local file, where the file had to be fetched to
    /// learn its size.
    pub filename: Option<String>,
}

/// The file size that a `Content-Length` header tells, the file not having
/// been fetched: the header's value read as a number of 64 bits.
pub fn sizeFromHeader(size_str: &str) -> (r: Result<UriFileInfo, Error>)
    ensures
        match parsed_decimal(size_str@, u64::MAX as nat) {
            Some(n) => r matches Ok(info) && info.size == n && info.filename is None,
            None => r matches Err(e) && e is RuntimeError && e.message()
                == "Invalid size from header: "@ + size_str@,
        },
{
    let chars = charsOf(size_str);
    assert(chars@.subrange(0, chars@.len() as int) =~= chars@);
    match parseDecimal(&chars, 0, chars.len(), u64::MAX) {
        Some(size) => Ok(UriFileInfo { size, filename: None }),
        None => Err(
            Error::RuntimeError(String::from_str("Invalid size from header: ").concat(size_str)),
        ),
    }
}

/// How a picture goes out.
#[derive(Debug, Clone, Copy, PartialEq, Eq, Structural)]
pub enum PhotoPlan {
    /// As it is: the platform fetches it from its address.
    SendUri,
    /// Made smaller first, from the local file that is there already, and
    /// then uploaded.
    ResizeLocal,
    /// Fetched, made smaller, and then uploaded.
    FetchAndResize,
}

/// A picture goes out as it is when both sides are under the platform's
/// limit for a side and the file is under its limit for a file.
pub open spec fn fits(size: (u32, u32), file_size: u64) -> bool {
    size.0 < TG_IMG_SIZE_LIMIT && size.1 < TG_IMG_SIZE_LIMIT && file_size
        < TG_IMG_FILE_SIZE_LIMIT
}

/// How the picture with the given size and file goes out.
pub fn photoPlan(size: (u32, u32), file_info: &UriFileInfo) -> (plan: PhotoPlan)
    ensures
        plan == if fits(size, file_info.size) {
            PhotoPlan::SendUri
        } else if file_info.filename is Some {
            PhotoPlan::ResizeLocal
        } else {
            PhotoPlan::FetchAndResize
        },
{
    if size.0 < TG_IMG_SIZE_LIMIT && size.1 < TG_IMG_SIZE_LIMIT && file_info.size
        < TG_IMG_FILE_SIZE_LIMIT {
        PhotoPlan::SendUri
    } else if file_info.filename.is_some() {
        PhotoPlan::ResizeLocal
    } else {
        PhotoPlan::FetchAndResize
    }
}

/// The command that makes the picture in `img_orig` smaller and writes it
/// to `img_resized`: the longest side `IMG_RESIZE_TARGET` pixels, the
/// quality `IMG_RESIZE_QUALITY`, with at most 100 MiB of memory.
pub fn resizeCommand(img_orig: &str, img_resized: &str) -> (command: Vec<String>)
    ensures
        command@.len() == 11,
        command@[0]@ == "magick"@,
        command@[1]@ == "convert"@,
        command@[2]@ == img_orig@,
        command@[3]@ == "-limit"@,
        command@[4]@ == "memory"@,
        command@[5]@ == "100MiB"@,
        command@[6]@ == "-resize"@,
        command@[7]@ == decimal(IMG_RESIZE_TARGET as nat) + "x"@ + decimal(IMG_RESIZE_TARGET as nat),
        command@[8]@ == "-quality"@,
        command@[9]@ == decimal(IMG_RESIZE_QUALITY as nat),
        command@[10]@ == img_resized@,
{
    let mut command: Vec<String> = Vec::new();
    command.push(String::from_str("magick"));
    command.push(String::from_str("convert"));
    command.push(String::from_str(img_orig));
    command.push(String::from_str("-limit"));
    command.push(String::from_str("memory"));
    command.push(String::from_str("100MiB"));
    command.push(String::from_str("-resize"));
    command.push(
        u32ToString(IMG_RESIZE_TARGET).concat("x").concat(
            u32ToString(IMG_RESIZE_TARGET).as_str(),
        ),
    );
    command.push(String::from_str("-quality"));
    command.push(u32ToString(IMG_RESIZE_QUALITY));
    command.push(String::from_str(img_resized));
    command
}

} // verus!
