//! What voice input reports to its user.

use vstd::prelude::*;
use vstd::string::*;

verus! {

/// A report of the voice input.
#[derive(Debug, PartialEq, Eq)]
pub enum VoiceOutput {
    Transcript(String),
    PartialTranscript(String),
    Status(String),
    /// The level of the microphone, as the bits of two single-precision numbers.
    MicSample { rms_bits: u32, peak_bits: u32 },
    Light([u8; 3]),
}

/// A report, in mathematical terms.
pub enum OutputView {
    Transcript(Seq<char>),
    PartialTranscript(Seq<char>),
    Status(Seq<char>),
    MicSample { rms_bits: u32, peak_bits: u32 },
    Light([u8; 3]),
}

impl View for VoiceOutput {
    type V = OutputView;

    open spec fn view(&self) -> OutputView {
        match self {
            VoiceOutput::Transcript(text) => OutputView::Transcript(text@),
            VoiceOutput::PartialTranscript(text) => OutputView::PartialTranscript(text@),
            VoiceOutput::Status(text) => OutputView::Status(text@),
            VoiceOutput::MicSample { rms_bits, peak_bits } => OutputView::MicSample {
                rms_bits: *rms_bits,
                peak_bits: *peak_bits,
            },
            VoiceOutput::Light(rgb) => OutputView::Light(*rgb),
        }
    }
}

/// A list of reports.
pub open spec fn outputs_view(outputs: Seq<VoiceOutput>) -> Seq<OutputView> {
    outputs.map_values(|output: VoiceOutput| output@)
}

/// The one report that there is, if there is one.
pub open spec fn optional_output(output: Option<VoiceOutput>) -> Option<OutputView> {
    match output {
        Some(output) => Some(output@),
        None => None,
    }
}

/// The list of an optional report.
pub open spec fn as_list(output: Option<OutputView>) -> Seq<OutputView> {
    match output {
        Some(output) => seq![output],
        None => Seq::empty(),
    }
}

} // verus!
