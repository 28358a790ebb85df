//! The decisions of the speech endpoints: reading the multipart form, sizing
//! the mel spectrogram, when to detect the language, how failures are
//! answered, and how decoded segments become the response.
use vstd::prelude::*;
use vstd::string::StringExecFns;
use vstd::utf8::{decode_utf8, valid_utf8};

verus! {

/// The model name a form is read with when it names none.
pub const DEFAULT_AUDIO_MODEL: &'static str = "decode_whispers-1";

/// Name of the mel filter bank in a speech model's repository.
pub const MEL_FILTERS_FILE: &'static str = "mel_filters.safetensors";

/// Seed of the speech decoder's sampler.
pub const AUDIO_DECODER_SEED: u64 = 299792458;

/// Granularity of the timestamps a transcription may carry.
#[derive(Clone, Copy, Debug, PartialEq, Eq, Structural)]
pub enum TimestampGranularity {
    Word,
    Segment,
}

/// A transcription in the plain JSON format.
#[derive(Clone, Debug)]
pub struct CreateTranscriptionResponseJson {
    pub text: String,
}

/// A translation in the plain JSON format.
#[derive(Clone, Debug)]
pub struct CreateTranslationResponseJson {
    pub text: String,
}

/// What the speech decoder is asked to do.
#[derive(Clone, Copy, Debug, PartialEq, Eq, Structural)]
pub enum DecodeTask {
    Transcribe,
    Translate,
}

/// The step of a speech request that failed.
#[derive(Clone, Copy, Debug, PartialEq, Eq, Structural)]
pub enum AudioFailure {
    /// The temporary file for the upload could not be created.
    TempFile,
    /// The next multipart field could not be read.
    MultipartRead,
    /// A field's contents could not be read.
    FieldRead,
    /// The upload could not be written to the temporary file.
    FileWrite,
    /// The `model` field is not UTF-8.
    ModelNotUtf8,
    /// The upload is not audio that can be decoded.
    AudioDecode,
    /// The mel spectrogram could not be made a tensor.
    MelTensor,
    /// Language detection failed.
    LanguageDetection,
    /// The decoder could not be built.
    DecoderInit,
    /// Decoding failed.
    Decoding,
}

/// The HTTP status each failure is answered with.
pub open spec fn spec_status_code(f: AudioFailure) -> u16 {
    match f {
        AudioFailure::ModelNotUtf8 => 400,
        AudioFailure::AudioDecode => 400,
        _ => 500,
    }
}

/// The text put before the failure's own message.
pub open spec fn spec_message_prefix(f: AudioFailure, task: DecodeTask) -> Seq<char> {
    match f {
        AudioFailure::TempFile => "Failed to create temporary file: "@,
        AudioFailure::MultipartRead => ""@,
        AudioFailure::FieldRead => ""@,
        AudioFailure::FileWrite => "Failed to write to temporary file: "@,
        AudioFailure::ModelNotUtf8 => ""@,
        AudioFailure::AudioDecode => "Failed to decode audio: "@,
        AudioFailure::MelTensor => "Failed to create mel tensor: "@,
        AudioFailure::LanguageDetection => "Failed to detect language: "@,
        AudioFailure::DecoderInit => "Failed to create decoder: "@,
        AudioFailure::Decoding => match task {
            DecodeTask::Transcribe => "Failed to transcribe audio: "@,
            DecodeTask::Translate => "Failed to run translation: "@,
        },
    }
}

/// Failures while reading the form are answered with a JSON `error` object;
/// later ones with plain text.
pub open spec fn spec_json_body(f: AudioFailure) -> bool {
    match f {
        AudioFailure::TempFile => true,
        AudioFailure::MultipartRead => true,
        AudioFailure::FieldRead => true,
        AudioFailure::FileWrite => true,
        AudioFailure::ModelNotUtf8 => true,
        _ => false,
    }
}

impl AudioFailure {
    /// The HTTP status: 400 for a bad `model` field or undecodable audio,
    /// 500 for everything else.
    pub fn status_code(&self) -> (res: u16)
        ensures
            res == spec_status_code(*self),
    {
        match self {
            AudioFailure::ModelNotUtf8 => 400,
            AudioFailure::AudioDecode => 400,
            _ => 500,
        }
    }

    /// The text put before the failure's own message.
    pub fn message_prefix(&self, task: DecodeTask) -> (res: &'static str)
        ensures
            res@ == spec_message_prefix(*self, task),
    {
        match self {
            AudioFailure::TempFile => "Failed to create temporary file: ",
            AudioFailure::MultipartRead => "",
            AudioFailure::FieldRead => "",
            AudioFailure::FileWrite => "Failed to write to temporary file: ",
            AudioFailure::ModelNotUtf8 => "",
            AudioFailure::AudioDecode => "Failed to decode audio: ",
            AudioFailure::MelTensor => "Failed to create mel tensor: ",
            AudioFailure::LanguageDetection => "Failed to detect language: ",
            AudioFailure::DecoderInit => "Failed to create decoder: ",
            AudioFailure::Decoding => match task {
                DecodeTask::Transcribe => "Failed to transcribe audio: ",
                DecodeTask::Translate => "Failed to run translation: ",
            },
        }
    }

    /// Whether the answer is a JSON `error` object rather than plain text.
    pub fn json_body(&self) -> (res: bool)
        ensures
            res == spec_json_body(*self),
    {
        match self {
            AudioFailure::TempFile => true,
            AudioFailure::MultipartRead => true,
            AudioFailure::FieldRead => true,
            AudioFailure::FileWrite => true,
            AudioFailure::ModelNotUtf8 => true,
            _ => false,
        }
    }
}

/// A failed speech request: the failing step and the underlying message.
#[derive(Clone, Debug)]
pub struct AudioError {
    pub failure: AudioFailure,
    pub detail: String,
}

impl AudioError {
    /// The answer's status code.
    pub fn status_code(&self) -> (res: u16)
        ensures
            res == spec_status_code(self.failure),
    {
        self.failure.status_code()
    }

    /// The answer's text: the step's prefix, then the underlying message.
    pub fn message(&self, task: DecodeTask) -> (res: String)
        ensures
            res@ == spec_message_prefix(self.failure, task) + self.detail@,
    {
        let mut text = self.failure.message_prefix(task).to_owned();
        text.append(self.detail.as_str());
        text
    }
}

/// A speech request is answered 400 exactly when the client sent something
/// unusable (a `model` field that is not UTF-8, or audio that cannot be
/// decoded); every other failure is answered 500.
pub proof fn lemma_client_failures(f: AudioFailure)
    ensures
        spec_status_code(f) == 400 <==> (f == AudioFailure::ModelNotUtf8 || f
            == AudioFailure::AudioDecode),
        spec_status_code(f) == 400 || spec_status_code(f) == 500,
{
}

/// How a multipart field is treated, by its name.
#[derive(Clone, Copy, Debug, PartialEq, Eq, Structural)]
pub enum FieldKind {
    /// A field without a name is skipped without reading it.
    Unnamed,
    /// `file`: the audio upload.
    File,
    /// `model`: the model name.
    Model,
    /// Any other field is read and ignored.
    Other,
}

/// Classifies a field by its name.
pub fn classify_field(name: Option<String>) -> (res: FieldKind)
    ensures
        res == match name {
            None => FieldKind::Unnamed,
            Some(n) => if n@ == "file"@ {
                FieldKind::File
            } else if n@ == "model"@ {
                FieldKind::Model
            } else {
                FieldKind::Other
            },
        },
{
    match name {
        None => FieldKind::Unnamed,
        Some(n) => {
            if n == "file".to_owned() {
                FieldKind::File
            } else if n == "model".to_owned() {
                FieldKind::Model
            } else {
                FieldKind::Other
            }
        },
    }
}

/// What to do with a field that was read.
#[derive(Clone, Debug)]
pub enum FieldAction {
    /// Append these bytes to the upload's temporary file.
    WriteToFile(Vec<u8>),
    /// Nothing further (the field was taken into the form, or ignored).
    Done,
}

/// The text of the error `std::string::String::from_utf8` reports for
/// `bytes` (where it stops being UTF-8, and why).
pub uninterp spec fn utf8_error_text(bytes: Seq<u8>) -> Seq<char>;

/// `std::string::String::from_utf8`: `Ok` exactly when the bytes are valid
/// UTF-8, and then the decoded text; otherwise the error's text, which is
/// named, not spelled out.
#[verifier::external_body]
fn string_from_utf8(bytes: Vec<u8>) -> (res: Result<String, String>)
    ensures
        res is Ok <==> valid_utf8(bytes@),
        res matches Ok(s) ==> s@ == decode_utf8(bytes@),
        res matches Err(m) ==> m@ == utf8_error_text(bytes@),
{
    match String::from_utf8(bytes) {
        Ok(s) => Ok(s),
        Err(e) => Err(e.to_string()),
    }
}

/// The state of reading a speech request's multipart form.
#[derive(Clone, Debug)]
pub struct MultipartForm {
    pub model: String,
}

impl MultipartForm {
    /// A form not yet read: the model name is `decode_whispers-1`.
    pub fn new() -> (res: Self)
        ensures
            res.model@ == DEFAULT_AUDIO_MODEL@,
    {
        MultipartForm { model: DEFAULT_AUDIO_MODEL.to_owned() }
    }

    /// Takes in one read field: `file` contents go to the temporary file,
    /// `model` contents become the model name (an error when they are not
    /// UTF-8), anything else is ignored.
    pub fn accept_field(&mut self, kind: FieldKind, data: Vec<u8>) -> (res: Result<FieldAction, AudioError>)
        ensures
            match kind {
                FieldKind::File => {
                    &&& res matches Ok(FieldAction::WriteToFile(d))
                    &&& d@ == data@
                    &&& final(self).model@ == old(self).model@
                },
                FieldKind::Model => if valid_utf8(data@) {
                    &&& res matches Ok(FieldAction::Done)
                    &&& final(self).model@ == decode_utf8(data@)
                } else {
                    &&& res matches Err(e)
                    &&& e.failure == AudioFailure::ModelNotUtf8
                    &&& e.detail@ == utf8_error_text(data@)
                    &&& final(self).model@ == old(self).model@
                },
                _ => {
                    &&& res matches Ok(FieldAction::Done)
                    &&& final(self).model@ == old(self).model@
                },
            },
    {
        match kind {
            FieldKind::File => Ok(FieldAction::WriteToFile(data)),
            FieldKind::Model => {
                match string_from_utf8(data) {
                    Ok(s) => {
                        self.model = s;
                        Ok(FieldAction::Done)
                    },
                    Err(detail) => Err(AudioError { failure: AudioFailure::ModelNotUtf8, detail }),
                }
            },
            FieldKind::Other => Ok(FieldAction::Done),
            FieldKind::Unnamed => Ok(FieldAction::Done),
        }
    }
}

/// Number of frames of a flat mel spectrogram of `mel_len` values with
/// `num_mel_bins` bins per frame.
pub fn mel_frame_count(mel_len: usize, num_mel_bins: usize) -> (res: usize)
    requires
        num_mel_bins > 0,
    ensures
        res == mel_len / num_mel_bins,
{
    mel_len / num_mel_bins
}

/// Whether the spoken language is detected before decoding: always for a
/// translation; for a transcription only when the form's model name is empty.
pub fn needs_language_detection(task: DecodeTask, model_name: &str) -> (res: bool)
    ensures
        res == match task {
            DecodeTask::Transcribe => model_name@.len() == 0,
            DecodeTask::Translate => true,
        },
{
    match task {
        DecodeTask::Transcribe => model_name.is_empty(),
        DecodeTask::Translate => true,
    }
}

/// The texts one after the other.
pub open spec fn concat_texts(texts: Seq<String>) -> Seq<char>
    decreases texts.len(),
{
    if texts.len() == 0 {
        Seq::empty()
    } else {
        concat_texts(texts.drop_last()) + texts.last()@
    }
}

/// Joining is plain concatenation: no segments give the empty text, and one
/// more segment appends its whole text, whatever the segments before it were
/// (a repeated segment is kept), so the length is the sum of the lengths.
pub proof fn lemma_concat_texts_appends(texts: Seq<String>, s: String)
    ensures
        concat_texts(Seq::<String>::empty()) == Seq::<char>::empty(),
        concat_texts(texts.push(s)) == concat_texts(texts) + s@,
        concat_texts(texts.push(s)).len() == concat_texts(texts).len() + s@.len(),
{
    assert(texts.push(s).drop_last() =~= texts);
}

/// Joins the texts of the decoded segments, in order, with nothing between.
pub fn join_segment_texts(texts: &Vec<String>) -> (res: String)
    ensures
        res@ == concat_texts(texts@),
{
    let mut res = String::new();
    let mut i: usize = 0;
    while i < texts.len()
        invariant
            0 <= i <= texts@.len(),
            res@ == concat_texts(texts@.take(i as int)),
        decreases texts@.len() - i,
    {
        assert(texts@.take(i + 1).drop_last() =~= texts@.take(i as int));
        res.append(texts[i].as_str());
        i = i + 1;
    }
    assert(texts@.take(texts@.len() as int) =~= texts@);
    res
}

/// A transcription's answer: the decoded segments' texts joined.
pub fn transcription_response(texts: &Vec<String>) -> (res: CreateTranscriptionResponseJson)
    ensures
        res.text@ == concat_texts(texts@),
{
    CreateTranscriptionResponseJson { text: join_segment_texts(texts) }
}

/// A translation's answer: the decoded segments' texts joined.
pub fn translation_response(texts: &Vec<String>) -> (res: CreateTranslationResponseJson)
    ensures
        res.text@ == concat_texts(texts@),
{
    CreateTranslationResponseJson { text: join_segment_texts(texts) }
}

} // verus!
