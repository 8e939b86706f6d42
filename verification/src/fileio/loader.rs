//! The formats that the loader decodes.

use crate::fileio::format_detector::AudioFormat;
use vstd::prelude::*;

verus! {

/// Loader of audio files. Decoding belongs to the host; the loader knows
/// which formats can be decoded.
pub struct AudioFileLoader {
    supported_formats: Vec<AudioFormat>,
}

/// The formats that the loader decodes.
pub open spec fn is_decodable(format: AudioFormat) -> bool {
    format == AudioFormat::Wav || format == AudioFormat::Flac || format == AudioFormat::Mp3
        || format == AudioFormat::Aac || format == AudioFormat::DsdDsf || format
        == AudioFormat::DsdDff || format == AudioFormat::Alac || format == AudioFormat::Ape
}

impl AudioFileLoader {
    pub closed spec fn spec_supported(&self) -> Seq<AudioFormat> {
        self.supported_formats@
    }

    /// The list holds the decodable formats and no other.
    pub open spec fn wf(&self) -> bool {
        forall|format: AudioFormat|
            self.spec_supported().contains(format) <==> is_decodable(format)
    }

    pub fn new() -> (loader: Self)
        ensures
            loader.wf(),
    {
        let supported_formats = vec![
            AudioFormat::Wav,
            AudioFormat::Flac,
            AudioFormat::Mp3,
            AudioFormat::Aac,
            AudioFormat::DsdDsf,
            AudioFormat::DsdDff,
            AudioFormat::Alac,
            AudioFormat::Ape,
        ];
        proof {
            let s = supported_formats@;
            assert(s[0] == AudioFormat::Wav && s[1] == AudioFormat::Flac && s[2]
                == AudioFormat::Mp3 && s[3] == AudioFormat::Aac && s[4] == AudioFormat::DsdDsf
                && s[5] == AudioFormat::DsdDff && s[6] == AudioFormat::Alac && s[7]
                == AudioFormat::Ape);
        }
        AudioFileLoader { supported_formats }
    }

    /// Whether the loader decodes `format`.
    pub fn is_format_supported(&self, format: &AudioFormat) -> (supported: bool)
        ensures
            supported == self.spec_supported().contains(*format),
            self.wf() ==> supported == is_decodable(*format),
    {
        let mut i: usize = 0;
        while i < self.supported_formats.len()
            invariant
                i <= self.supported_formats@.len(),
                forall|k: int| 0 <= k < i ==> self.supported_formats@[k] != *format,
            decreases self.supported_formats@.len() - i,
        {
            if self.supported_formats[i] == *format {
                return true;
            }
            i += 1;
        }
        false
    }
}

} // verus!
