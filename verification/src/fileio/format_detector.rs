//! Detection of the audio format from the first bytes of a file and from
//! the extension of its name.

use crate::error::{FileIoError, VortexError};
use vstd::prelude::*;
use vstd::string::StringExecFns;

verus! {

/// The audio formats that the core knows.
#[derive(Debug, Clone, Copy, PartialEq, Eq, Structural)]
pub enum AudioFormat {
    Wav,
    Flac,
    Mp3,
    Aac,
    Ogg,
    Opus,
    DsdDsf,
    DsdDff,
    Alac,
    Ape,
    WavPack,
    Unknown,
}

/// Detector of audio formats.
pub struct FormatDetector;

/// `bytes` holds the four bytes `a`, `b`, `c`, `d` from index `at` on.
pub open spec fn tag_at(bytes: Seq<u8>, at: int, a: u8, b: u8, c: u8, d: u8) -> bool {
    at + 4 <= bytes.len() && bytes[at] == a && bytes[at + 1] == b && bytes[at + 2] == c
        && bytes[at + 3] == d
}

/// The format that the magic number at the start of `bytes` tells of.
///
/// `RIFF` with `WAVE` at byte 8 is WAV; `fLaC` is FLAC; `ID3`, or a byte
/// 0xFF followed by one whose three highest bits are set, is MP3; `OggS` is
/// Ogg; `DSD ` is DSF; `FRM8` is DFF; `MAC ` is APE. The first that fits
/// counts, and `Unknown` where none does.
pub open spec fn format_by_magic(bytes: Seq<u8>) -> AudioFormat {
    if bytes.len() >= 12 && tag_at(bytes, 0, 0x52, 0x49, 0x46, 0x46) && tag_at(
        bytes,
        8,
        0x57,
        0x41,
        0x56,
        0x45,
    ) {
        AudioFormat::Wav
    } else if tag_at(bytes, 0, 0x66, 0x4c, 0x61, 0x43) {
        AudioFormat::Flac
    } else if bytes.len() >= 3 && bytes[0] == 0x49 && bytes[1] == 0x44 && bytes[2] == 0x33 {
        AudioFormat::Mp3
    } else if bytes.len() >= 2 && bytes[0] == 0xff && (bytes[1] & 0xe0) == 0xe0 {
        AudioFormat::Mp3
    } else if tag_at(bytes, 0, 0x4f, 0x67, 0x67, 0x53) {
        AudioFormat::Ogg
    } else if tag_at(bytes, 0, 0x44, 0x53, 0x44, 0x20) {
        AudioFormat::DsdDsf
    } else if tag_at(bytes, 0, 0x46, 0x52, 0x4d, 0x38) {
        AudioFormat::DsdDff
    } else if tag_at(bytes, 0, 0x4d, 0x41, 0x43, 0x20) {
        AudioFormat::Ape
    } else {
        AudioFormat::Unknown
    }
}

/// The index of the last `c` in `text`, or -1 where there is none.
pub open spec fn last_index_of(text: Seq<char>, c: char) -> int
    decreases text.len(),
{
    if text.len() == 0 {
        -1
    } else if text.last() == c {
        text.len() - 1
    } else {
        last_index_of(text.drop_last(), c)
    }
}

/// The name of the file that `path` leads to: what follows the last `/`.
pub open spec fn file_name_of(path: Seq<char>) -> Seq<char> {
    path.skip(last_index_of(path, '/') + 1)
}

/// The extension of the file that `path` leads to: what follows the last dot
/// of the file name, if there is a dot and it is not the first character of
/// the name. The name `..` has none.
pub open spec fn extension_of(path: Seq<char>) -> Option<Seq<char>> {
    let name = file_name_of(path);
    let dot = last_index_of(name, '.');
    if dot <= 0 || name == seq!['.', '.'] {
        None
    } else {
        Some(name.skip(dot + 1))
    }
}

/// What `str::to_lowercase` makes of a text.
pub uninterp spec fn lowercase_of(text: Seq<char>) -> Seq<char>;

/// `str::to_lowercase`: the text with every character in lower case, by the
/// rules of Unicode.
#[verifier::external_body]
pub(crate) fn to_lowercase(text: &str) -> (lower: String)
    ensures
        lower@ == lowercase_of(text@),
{
    text.to_lowercase()
}

/// The format that the lower-case extension `ext` stands for.
pub open spec fn format_by_extension(ext: Seq<char>) -> Option<AudioFormat> {
    if ext == "wav"@ || ext == "wave"@ {
        Some(AudioFormat::Wav)
    } else if ext == "flac"@ {
        Some(AudioFormat::Flac)
    } else if ext == "mp3"@ {
        Some(AudioFormat::Mp3)
    } else if ext == "aac"@ || ext == "m4a"@ {
        Some(AudioFormat::Aac)
    } else if ext == "ogg"@ {
        Some(AudioFormat::Ogg)
    } else if ext == "opus"@ {
        Some(AudioFormat::Opus)
    } else if ext == "dsf"@ {
        Some(AudioFormat::DsdDsf)
    } else if ext == "dff"@ {
        Some(AudioFormat::DsdDff)
    } else if ext == "alac"@ {
        Some(AudioFormat::Alac)
    } else if ext == "ape"@ {
        Some(AudioFormat::Ape)
    } else if ext == "wv"@ {
        Some(AudioFormat::WavPack)
    } else {
        None
    }
}

/// Whether `text` and `word` are the same text.
fn is_word(text: &String, word: &str) -> (same: bool)
    ensures
        same == (text@ == word@),
{
    let other = String::from_str(word);
    *text == other
}

/// The index of the last `c` in `text`, or `None` where there is none.
fn find_last(text: &str, c: char) -> (found: Option<usize>)
    ensures
        match found {
            Some(i) => last_index_of(text@, c) == i && i < text@.len(),
            None => last_index_of(text@, c) == -1,
        },
{
    let mut i: usize = text.unicode_len();
    assert(text@.take(i as int) =~= text@);
    while i > 0
        invariant
            i <= text@.len(),
            last_index_of(text@, c) == last_index_of(text@.take(i as int), c),
        decreases i,
    {
        assert(text@.take(i as int).drop_last() =~= text@.take(i - 1));
        if text.get_char(i - 1) == c {
            return Some(i - 1);
        }
        i -= 1;
    }
    None
}

/// The extension of the file that `path` leads to.
pub fn extension(path: &str) -> (ext: Option<&str>)
    ensures
        match ext {
            Some(e) => extension_of(path@) == Some(e@),
            None => extension_of(path@) is None,
        },
{
    let len = path.unicode_len();
    let start = match find_last(path, '/') {
        Some(i) => i + 1,
        None => 0,
    };
    let name = path.substring_char(start, len);
    assert(name@ =~= file_name_of(path@));
    let name_len = name.unicode_len();
    match find_last(name, '.') {
        Some(dot) => {
            if dot == 0 {
                return None;
            }
            if name_len == 2 && name.get_char(0) == '.' && name.get_char(1) == '.' {
                assert(name@ =~= seq!['.', '.']);
                return None;
            }
            let ext = name.substring_char(dot + 1, name_len);
            assert(ext@ =~= name@.skip(dot + 1));
            Some(ext)
        },
        None => None,
    }
}

impl FormatDetector {
    /// The format that the magic number at the start of `bytes` tells of.
    pub fn detect_by_magic(bytes: &[u8]) -> (format: AudioFormat)
        ensures
            format == format_by_magic(bytes@),
    {
        let n = bytes.len();
        if n >= 12 && bytes[0] == 0x52 && bytes[1] == 0x49 && bytes[2] == 0x46 && bytes[3] == 0x46
            && bytes[8] == 0x57 && bytes[9] == 0x41 && bytes[10] == 0x56 && bytes[11] == 0x45 {
            return AudioFormat::Wav;
        }
        if n >= 4 && bytes[0] == 0x66 && bytes[1] == 0x4c && bytes[2] == 0x61 && bytes[3] == 0x43 {
            return AudioFormat::Flac;
        }
        if n >= 3 && bytes[0] == 0x49 && bytes[1] == 0x44 && bytes[2] == 0x33 {
            return AudioFormat::Mp3;
        }
        if n >= 2 && bytes[0] == 0xff && (bytes[1] & 0xe0) == 0xe0 {
            return AudioFormat::Mp3;
        }
        if n >= 4 && bytes[0] == 0x4f && bytes[1] == 0x67 && bytes[2] == 0x67 && bytes[3] == 0x53 {
            return AudioFormat::Ogg;
        }
        if n >= 4 && bytes[0] == 0x44 && bytes[1] == 0x53 && bytes[2] == 0x44 && bytes[3] == 0x20 {
            return AudioFormat::DsdDsf;
        }
        if n >= 4 && bytes[0] == 0x46 && bytes[1] == 0x52 && bytes[2] == 0x4d && bytes[3] == 0x38 {
            return AudioFormat::DsdDff;
        }
        if n >= 4 && bytes[0] == 0x4d && bytes[1] == 0x41 && bytes[2] == 0x43 && bytes[3] == 0x20 {
            return AudioFormat::Ape;
        }
        AudioFormat::Unknown
    }

    /// The format that the extension of `path` stands for, whatever its case.
    /// A path without extension and an extension that stands for no format
    /// are refused as unsupported.
    pub fn detect_by_extension(path: &str) -> (r: Result<AudioFormat, VortexError>)
        ensures
            match extension_of(path@) {
                None => r matches Err(
                    VortexError::FileIo(FileIoError::UnsupportedFormat { format, path: p }),
                ) && format@ == "No file extension"@ && p@ == path@,
                Some(ext) => match format_by_extension(lowercase_of(ext)) {
                    Some(f) => r == Ok::<AudioFormat, VortexError>(f),
                    None => r matches Err(
                        VortexError::FileIo(FileIoError::UnsupportedFormat { format, path: p }),
                    ) && format@ == lowercase_of(ext) && p@ == path@,
                },
            },
    {
        let ext = match extension(path) {
            Some(e) => to_lowercase(e),
            None => {
                return Err(
                    VortexError::FileIo(
                        FileIoError::UnsupportedFormat {
                            format: String::from_str("No file extension"),
                            path: String::from_str(path),
                        },
                    ),
                );
            },
        };
        match Self::format_for_extension(ext.as_str()) {
            Some(format) => Ok(format),
            None => Err(
                VortexError::FileIo(
                    FileIoError::UnsupportedFormat { format: ext, path: String::from_str(path) },
                ),
            ),
        }
    }

    /// The format that the lower-case extension `ext` stands for, if it
    /// stands for one.
    pub fn format_for_extension(ext: &str) -> (format: Option<AudioFormat>)
        ensures
            format == format_by_extension(ext@),
    {
        let ext = String::from_str(ext);
        if is_word(&ext, "wav") || is_word(&ext, "wave") {
            Some(AudioFormat::Wav)
        } else if is_word(&ext, "flac") {
            Some(AudioFormat::Flac)
        } else if is_word(&ext, "mp3") {
            Some(AudioFormat::Mp3)
        } else if is_word(&ext, "aac") || is_word(&ext, "m4a") {
            Some(AudioFormat::Aac)
        } else if is_word(&ext, "ogg") {
            Some(AudioFormat::Ogg)
        } else if is_word(&ext, "opus") {
            Some(AudioFormat::Opus)
        } else if is_word(&ext, "dsf") {
            Some(AudioFormat::DsdDsf)
        } else if is_word(&ext, "dff") {
            Some(AudioFormat::DsdDff)
        } else if is_word(&ext, "alac") {
            Some(AudioFormat::Alac)
        } else if is_word(&ext, "ape") {
            Some(AudioFormat::Ape)
        } else if is_word(&ext, "wv") {
            Some(AudioFormat::WavPack)
        } else {
            None
        }
    }

    /// The format of a file whose first bytes are `magic` and whose path is
    /// `path`: what the magic number tells, and what the extension tells
    /// where the magic number tells nothing.
    pub fn detect_format(magic: &[u8], path: &str) -> (r: Result<AudioFormat, VortexError>)
        ensures
            format_by_magic(magic@) != AudioFormat::Unknown ==> r == Ok::<
                AudioFormat,
                VortexError,
            >(format_by_magic(magic@)),
            format_by_magic(magic@) == AudioFormat::Unknown ==> match extension_of(path@) {
                None => r is Err,
                Some(ext) => match format_by_extension(lowercase_of(ext)) {
                    Some(f) => r == Ok::<AudioFormat, VortexError>(f),
                    None => r is Err,
                },
            },
    {
        let format = Self::detect_by_magic(magic);
        if format != AudioFormat::Unknown {
            return Ok(format);
        }
        Self::detect_by_extension(path)
    }
}

} // verus!
