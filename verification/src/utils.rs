//! The MIME types of the file kinds that the service takes.

use vstd::prelude::*;

use crate::text::text_eq;

verus! {

/// The MIME type that a file extension stands for, `None` for an extension
/// that is not supported. Extensions are compared as they are written, in
/// lower case.
pub open spec fn mime_of(extension: Seq<char>) -> Option<Seq<char>> {
    if extension == "pdf"@ {
        Some("application/pdf"@)
    } else if extension == "png"@ {
        Some("image/png"@)
    } else if extension == "jpg"@ || extension == "jpeg"@ {
        Some("image/jpeg"@)
    } else if extension == "mp3"@ {
        Some("audio/mpeg"@)
    } else if extension == "wav"@ {
        Some("audio/wav"@)
    } else if extension == "mp4"@ {
        Some("video/mp4"@)
    } else if extension == "mov"@ {
        Some("video/quicktime"@)
    } else if extension == "mpeg"@ || extension == "mpg"@ || extension == "mpegps"@ {
        Some("video/mpeg"@)
    } else if extension == "avi"@ {
        Some("video/x-msvideo"@)
    } else if extension == "wmv"@ {
        Some("video/x-ms-wmv"@)
    } else if extension == "flv"@ {
        Some("video/x-flv"@)
    } else if extension == "txt"@ {
        Some("text/plain"@)
    } else {
        None
    }
}

/// The MIME type of a file, given the extension of its path if it has one.
pub open spec fn mime_type_of(extension: Option<Seq<char>>) -> Option<Seq<char>> {
    match extension {
        Some(name) => mime_of(name),
        None => None,
    }
}

fn lookup(extension: &str) -> (mime: Option<&'static str>)
    ensures
        match mime {
            Some(name) => mime_of(extension@) == Some(name@),
            None => mime_of(extension@) is None,
        },
{
    if text_eq(extension, "pdf") {
        Some("application/pdf")
    } else if text_eq(extension, "png") {
        Some("image/png")
    } else if text_eq(extension, "jpg") || text_eq(extension, "jpeg") {
        Some("image/jpeg")
    } else if text_eq(extension, "mp3") {
        Some("audio/mpeg")
    } else if text_eq(extension, "wav") {
        Some("audio/wav")
    } else if text_eq(extension, "mp4") {
        Some("video/mp4")
    } else if text_eq(extension, "mov") {
        Some("video/quicktime")
    } else if text_eq(extension, "mpeg") || text_eq(extension, "mpg") || text_eq(
        extension,
        "mpegps",
    ) {
        Some("video/mpeg")
    } else if text_eq(extension, "avi") {
        Some("video/x-msvideo")
    } else if text_eq(extension, "wmv") {
        Some("video/x-ms-wmv")
    } else if text_eq(extension, "flv") {
        Some("video/x-flv")
    } else if text_eq(extension, "txt") {
        Some("text/plain")
    } else {
        None
    }
}

/// The MIME type of a file, given the extension of its path if it has one:
/// `None` for a path without extension and for an extension that is not
/// supported.
pub fn get_mime_type(extension: Option<&str>) -> (mime: Option<String>)
    ensures
        mime.deep_view() == mime_type_of(extension.deep_view()),
{
    match extension {
        Some(name) => match lookup(name) {
            Some(mime) => Some(mime.to_owned()),
            None => None,
        },
        None => None,
    }
}

} // verus!
