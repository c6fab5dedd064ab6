//! Saving: the save formats (container, bit depth, dither) and how an imported or recovered
//! document picks one, the sidecar's format description, Save/Save As's ordered pre-flight
//! checklist with its one-save-at-a-time gate, and the notices a finished save posts.

use vstd::prelude::*;

use crate::error::{is_error_with, is_plain_error, IpcError, IpcErrorCode};
use crate::text::{decimal, decimal_string, str_eq};

verus! {

/// A saved file's sample format.
#[derive(Debug, Clone, Copy, PartialEq, Eq, Structural)]
pub enum BitDepth {
    Bit16,
    Bit24,
    Bit32Float,
}

/// Whether a 16/24-bit save is dithered (TPDF, the default) or plainly rounded.
#[derive(Debug, Clone, Copy, PartialEq, Eq, Structural)]
pub enum SaveDitherPref {
    Tpdf,
    NoDither,
}

impl SaveDitherPref {
    /// The default: TPDF dither.
    pub fn default_pref() -> (d: SaveDitherPref)
        ensures
            d == SaveDitherPref::Tpdf,
    {
        SaveDitherPref::Tpdf
    }
}

/// The container Save/Save As writes.
#[derive(Debug, Clone, Copy, PartialEq, Eq, Structural)]
pub enum SaveContainer {
    Wav,
    Flac,
}

/// FLAC's two sample formats.
#[derive(Debug, Clone, Copy, PartialEq, Eq, Structural)]
pub enum FlacBitDepth {
    Int16,
    Int24,
}

/// The FLAC format a save at `bits` writes: 16-bit stays 16, anything else is 24.
pub fn flac_bits(bits: BitDepth) -> (f: FlacBitDepth)
    ensures
        f == (if bits == BitDepth::Bit16 { FlacBitDepth::Int16 } else { FlacBitDepth::Int24 }),
{
    match bits {
        BitDepth::Bit16 => FlacBitDepth::Int16,
        _ => FlacBitDepth::Int24,
    }
}

/// The tag a saved format is journaled under.
pub open spec fn format_tag_text(container: SaveContainer, bits: BitDepth) -> Seq<char> {
    match container {
        SaveContainer::Wav => match bits {
            BitDepth::Bit16 => "wav16"@,
            BitDepth::Bit24 => "wav24"@,
            BitDepth::Bit32Float => "wav32f"@,
        },
        SaveContainer::Flac => match bits {
            BitDepth::Bit16 => "flac16"@,
            _ => "flac24"@,
        },
    }
}

/// `wav16`/`wav24`/`wav32f`/`flac16`/`flac24` for a save in `container` at `bits` (FLAC has no
/// float format: any non-16-bit FLAC save is 24-bit).
pub fn format_tag(container: SaveContainer, bits: BitDepth) -> (s: &'static str)
    ensures
        s@ == format_tag_text(container, bits),
{
    match (container, bits) {
        (SaveContainer::Wav, BitDepth::Bit16) => "wav16",
        (SaveContainer::Wav, BitDepth::Bit24) => "wav24",
        (SaveContainer::Wav, BitDepth::Bit32Float) => "wav32f",
        (SaveContainer::Flac, BitDepth::Bit16) => "flac16",
        (SaveContainer::Flac, _) => "flac24",
    }
}

/// The format a journaled tag names, if it is one of the five.
pub open spec fn format_of_tag(tag: Seq<char>) -> Option<(SaveContainer, BitDepth)> {
    if tag == "wav16"@ {
        Some((SaveContainer::Wav, BitDepth::Bit16))
    } else if tag == "wav24"@ {
        Some((SaveContainer::Wav, BitDepth::Bit24))
    } else if tag == "wav32f"@ {
        Some((SaveContainer::Wav, BitDepth::Bit32Float))
    } else if tag == "flac16"@ {
        Some((SaveContainer::Flac, BitDepth::Bit16))
    } else if tag == "flac24"@ {
        Some((SaveContainer::Flac, BitDepth::Bit24))
    } else {
        None
    }
}

/// The format a journaled tag names, if it is one of the five.
pub fn save_format_from_tag(tag: &str) -> (r: Option<(SaveContainer, BitDepth)>)
    ensures
        r == format_of_tag(tag@),
{
    if str_eq(tag, "wav16") {
        Some((SaveContainer::Wav, BitDepth::Bit16))
    } else if str_eq(tag, "wav24") {
        Some((SaveContainer::Wav, BitDepth::Bit24))
    } else if str_eq(tag, "wav32f") {
        Some((SaveContainer::Wav, BitDepth::Bit32Float))
    } else if str_eq(tag, "flac16") {
        Some((SaveContainer::Flac, BitDepth::Bit16))
    } else if str_eq(tag, "flac24") {
        Some((SaveContainer::Flac, BitDepth::Bit24))
    } else {
        None
    }
}

/// The bit depth a save in `container` at `bits` actually writes.
pub open spec fn written_bits(container: SaveContainer, bits: BitDepth) -> BitDepth {
    if container == SaveContainer::Flac && bits == BitDepth::Bit32Float {
        BitDepth::Bit24
    } else {
        bits
    }
}

/// A journaled tag reads back as the format that was saved.
pub proof fn lemma_format_tag_round_trip(container: SaveContainer, bits: BitDepth)
    ensures
        format_of_tag(format_tag_text(container, bits)) == Some((container, written_bits(container, bits))),
{
    reveal_strlit("wav16");
    reveal_strlit("wav24");
    reveal_strlit("wav32f");
    reveal_strlit("flac16");
    reveal_strlit("flac24");
    assert("wav24"@[3] != "wav16"@[3]);
    assert("wav32f"@[3] != "wav16"@[3] && "wav32f"@[3] != "wav24"@[3]);
    assert("flac16"@[0] != "wav16"@[0] && "flac16"@[0] != "wav24"@[0] && "flac16"@[0] != "wav32f"@[0]);
    assert("flac24"@[0] != "wav16"@[0] && "flac24"@[0] != "wav24"@[0] && "flac24"@[0] != "wav32f"@[0]);
    assert("flac24"@[4] != "flac16"@[4]);
}

/// The sidecar names the depth a save actually writes: `pcm16` exactly for a 16-bit save,
/// `f32` exactly for a float WAV, `pcm24` for a 24-bit save and for a float FLAC (written at
/// 24 bits); the container is the one saved to, and a float save is never dithered.
pub proof fn lemma_sidecar_names_the_written_depth(container: SaveContainer, bits: BitDepth, dither: SaveDitherPref)
    ensures
        ({
            let (c, f, d) = save_format_text(container, bits, dither);
            &&& (f == "pcm16"@) == (bits == BitDepth::Bit16)
            &&& (f == "f32"@) == (container == SaveContainer::Wav && bits == BitDepth::Bit32Float)
            &&& (f == "pcm24"@) == (bits == BitDepth::Bit24 || (container == SaveContainer::Flac && bits
                == BitDepth::Bit32Float))
            &&& (c == "flac"@) == (container == SaveContainer::Flac)
            &&& (c == "wav"@) == (container == SaveContainer::Wav)
            &&& bits == BitDepth::Bit32Float ==> d == "none"@
        }),
{
    reveal_strlit("pcm16");
    reveal_strlit("pcm24");
    reveal_strlit("f32");
    reveal_strlit("flac");
    reveal_strlit("wav");
    reveal_strlit("none");
    assert("pcm16"@[3] != "pcm24"@[3]);
    assert("f32"@[0] != "pcm16"@[0] && "f32"@[0] != "pcm24"@[0]);
    assert("flac"@[0] != "wav"@[0]);
}

/// What a probe of a file to import says about its format.
#[derive(Debug, Clone, PartialEq, Eq)]
pub struct ProbeFormat {
    /// The container's short name (`wave`, `flac`, `mp3`, `isomp4`, `ogg`, ...).
    pub container: String,
    /// The codec's short name (`pcm_s16le`, `pcm_u8`, `flac`, `aac`, ...).
    pub codec: String,
    /// The source's bits per sample, when the container states it.
    pub bits_per_sample: Option<u32>,
}

/// The save format an imported document keeps, and whether it differs from the source's
/// (a mapped format gets a notice at open).
pub open spec fn import_save_format(container: Seq<char>, codec: Seq<char>, bits: Option<u32>) -> (
    SaveContainer,
    BitDepth,
    bool,
) {
    if container == "wave"@ {
        if codec == "pcm_s16le"@ || codec == "pcm_s16be"@ {
            (SaveContainer::Wav, BitDepth::Bit16, false)
        } else if codec == "pcm_s24le"@ || codec == "pcm_s24be"@ {
            (SaveContainer::Wav, BitDepth::Bit24, false)
        } else if codec == "pcm_f32le"@ || codec == "pcm_f32be"@ {
            (SaveContainer::Wav, BitDepth::Bit32Float, false)
        } else if codec == "pcm_u8"@ || codec == "pcm_alaw"@ || codec == "pcm_mulaw"@ {
            (SaveContainer::Wav, BitDepth::Bit16, true)
        } else if codec == "pcm_s32le"@ || codec == "pcm_s32be"@ || codec == "pcm_f64le"@ || codec
            == "pcm_f64be"@ {
            (SaveContainer::Wav, BitDepth::Bit32Float, true)
        } else {
            (SaveContainer::Wav, BitDepth::Bit24, true)
        }
    } else if container == "flac"@ {
        match bits {
            Some(b) => if b <= 16 {
                (SaveContainer::Flac, BitDepth::Bit16, false)
            } else if b <= 24 {
                (SaveContainer::Flac, BitDepth::Bit24, false)
            } else {
                (SaveContainer::Flac, BitDepth::Bit24, true)
            },
            None => (SaveContainer::Flac, BitDepth::Bit24, false),
        }
    } else {
        (SaveContainer::Wav, BitDepth::Bit24, false)
    }
}

/// The save format (container, bit depth) an imported document keeps, and whether that's a
/// mapped format: WAV keeps its PCM depth (8-bit, A-law and µ-law become 16-bit; 32-bit int and
/// 64-bit float become 32-bit float; anything else 24-bit, all mapped), FLAC stays FLAC (up to
/// 16 → 16, up to 24 → 24, deeper → 24 mapped), MP3/M4A/Ogg save as WAV 24-bit.
pub fn save_format_for_import(probe: &ProbeFormat) -> (r: (SaveContainer, BitDepth, bool))
    ensures
        r == import_save_format(probe.container@, probe.codec@, probe.bits_per_sample),
{
    let container = probe.container.as_str();
    let codec = probe.codec.as_str();
    if str_eq(container, "wave") {
        if str_eq(codec, "pcm_s16le") || str_eq(codec, "pcm_s16be") {
            (SaveContainer::Wav, BitDepth::Bit16, false)
        } else if str_eq(codec, "pcm_s24le") || str_eq(codec, "pcm_s24be") {
            (SaveContainer::Wav, BitDepth::Bit24, false)
        } else if str_eq(codec, "pcm_f32le") || str_eq(codec, "pcm_f32be") {
            (SaveContainer::Wav, BitDepth::Bit32Float, false)
        } else if str_eq(codec, "pcm_u8") || str_eq(codec, "pcm_alaw") || str_eq(codec, "pcm_mulaw") {
            (SaveContainer::Wav, BitDepth::Bit16, true)
        } else if str_eq(codec, "pcm_s32le") || str_eq(codec, "pcm_s32be") || str_eq(codec, "pcm_f64le")
            || str_eq(codec, "pcm_f64be") {
            (SaveContainer::Wav, BitDepth::Bit32Float, true)
        } else {
            (SaveContainer::Wav, BitDepth::Bit24, true)
        }
    } else if str_eq(container, "flac") {
        match probe.bits_per_sample {
            Some(b) => {
                if b <= 16 {
                    (SaveContainer::Flac, BitDepth::Bit16, false)
                } else if b <= 24 {
                    (SaveContainer::Flac, BitDepth::Bit24, false)
                } else {
                    (SaveContainer::Flac, BitDepth::Bit24, true)
                }
            },
            None => (SaveContainer::Flac, BitDepth::Bit24, false),
        }
    } else {
        (SaveContainer::Wav, BitDepth::Bit24, false)
    }
}

/// The two descriptions "This ‹from› file will be saved as ‹to›" needs.
pub open spec fn mapped_notice_text(codec: Seq<char>, bits: Option<u32>, to: BitDepth) -> (Seq<char>, Seq<char>) {
    let from = if codec == "pcm_u8"@ {
        "8-bit"@
    } else if codec == "pcm_alaw"@ {
        "A-law"@
    } else if codec == "pcm_mulaw"@ {
        "µ-law"@
    } else if codec == "pcm_s32le"@ || codec == "pcm_s32be"@ {
        "32-bit int"@
    } else if codec == "pcm_f64le"@ || codec == "pcm_f64be"@ {
        "64-bit float"@
    } else if bits.is_some() && bits.unwrap() > 24 {
        "25-32-bit"@
    } else {
        "unusual"@
    };
    let to_text = match to {
        BitDepth::Bit16 => "16-bit"@,
        BitDepth::Bit24 => "24-bit"@,
        BitDepth::Bit32Float => "32-bit float"@,
    };
    (from, to_text)
}

/// The `from`/`to` descriptions of the format-mapped notice for a source probed as `probe`
/// saved at `to`.
pub fn format_mapped_notice_params(probe: &ProbeFormat, to: BitDepth) -> (r: (&'static str, &'static str))
    ensures
        (r.0@, r.1@) == mapped_notice_text(probe.codec@, probe.bits_per_sample, to),
{
    let codec = probe.codec.as_str();
    let from = if str_eq(codec, "pcm_u8") {
        "8-bit"
    } else if str_eq(codec, "pcm_alaw") {
        "A-law"
    } else if str_eq(codec, "pcm_mulaw") {
        "µ-law"
    } else if str_eq(codec, "pcm_s32le") || str_eq(codec, "pcm_s32be") {
        "32-bit int"
    } else if str_eq(codec, "pcm_f64le") || str_eq(codec, "pcm_f64be") {
        "64-bit float"
    } else {
        match probe.bits_per_sample {
            Some(b) if b > 24 => "25-32-bit",
            _ => "unusual",
        }
    };
    let to_text = match to {
        BitDepth::Bit16 => "16-bit",
        BitDepth::Bit24 => "24-bit",
        BitDepth::Bit32Float => "32-bit float",
    };
    (from, to_text)
}

/// The save format a recovered document keeps: its last save's (by journaled tag), else the
/// source file's as an import would pick it (when the source still exists and probes), else
/// WAV 24-bit.
pub open spec fn recovery_save_format(saved_tag: Option<Seq<char>>, source: Option<ProbeFormat>) -> (
    SaveContainer,
    BitDepth,
) {
    if saved_tag.is_some() && format_of_tag(saved_tag.unwrap()).is_some() {
        format_of_tag(saved_tag.unwrap()).unwrap()
    } else {
        match source {
            Some(p) => {
                let f = import_save_format(p.container@, p.codec@, p.bits_per_sample);
                (f.0, f.1)
            },
            None => (SaveContainer::Wav, BitDepth::Bit24),
        }
    }
}

/// The last save's journaled format wins on recovery: whenever the saved tag is one of the
/// five, the recovered document keeps exactly the format the tag names, whatever the source
/// file is; an unknown tag counts as none.
pub proof fn lemma_saved_format_wins_on_recovery(tag: Seq<char>, source: Option<ProbeFormat>)
    ensures
        tag == "wav16"@ ==> recovery_save_format(Some(tag), source) == (SaveContainer::Wav, BitDepth::Bit16),
        tag == "wav24"@ ==> recovery_save_format(Some(tag), source) == (SaveContainer::Wav, BitDepth::Bit24),
        tag == "wav32f"@ ==> recovery_save_format(Some(tag), source) == (
            SaveContainer::Wav,
            BitDepth::Bit32Float,
        ),
        tag == "flac16"@ ==> recovery_save_format(Some(tag), source) == (SaveContainer::Flac, BitDepth::Bit16),
        tag == "flac24"@ ==> recovery_save_format(Some(tag), source) == (SaveContainer::Flac, BitDepth::Bit24),
        format_of_tag(tag).is_none() ==> recovery_save_format(Some(tag), source) == recovery_save_format(
            None,
            source,
        ),
        recovery_save_format(None, None) == (SaveContainer::Wav, BitDepth::Bit24),
{
    reveal_strlit("wav16");
    reveal_strlit("wav24");
    reveal_strlit("wav32f");
    reveal_strlit("flac16");
    reveal_strlit("flac24");
    assert("wav24"@[3] != "wav16"@[3]);
    assert("wav32f"@[3] != "wav16"@[3] && "wav32f"@[3] != "wav24"@[3]);
    assert("flac16"@[0] != "wav16"@[0] && "flac16"@[0] != "wav24"@[0] && "flac16"@[0] != "wav32f"@[0]);
    assert("flac24"@[0] != "wav16"@[0] && "flac24"@[0] != "wav24"@[0] && "flac24"@[0] != "wav32f"@[0]);
    assert("flac24"@[4] != "flac16"@[4]);
}

/// The save format a recovered document keeps. `saved_tag`: the last save's journaled format
/// tag; `source`: the probe of the file the document was imported from, when it still exists and probes.
pub fn save_format_for_recovery(saved_tag: Option<&str>, source: Option<&ProbeFormat>) -> (r: (
    SaveContainer,
    BitDepth,
))
    ensures
        r == recovery_save_format(
            match saved_tag {
                Some(t) => Some(t@),
                None => None,
            },
            match source {
                Some(p) => Some(*p),
                None => None,
            },
        ),
{
    if let Some(tag) = saved_tag {
        if let Some(f) = save_format_from_tag(tag) {
            return f;
        }
    }
    match source {
        Some(p) => {
            let (c, b, _mapped) = save_format_for_import(p);
            (c, b)
        },
        None => (SaveContainer::Wav, BitDepth::Bit24),
    }
}

/// The save format as the sidecar records it.
#[derive(Debug, Clone, PartialEq, Eq)]
pub struct SaveFormatModel {
    pub container: String,
    pub sample_format: String,
    pub dither: String,
}

/// The sidecar's `container`/`sample_format`/`dither` for a save: a float target never
/// dithers, whatever `dither` says; FLAC is 16- or 24-bit.
pub open spec fn save_format_text(container: SaveContainer, bits: BitDepth, dither: SaveDitherPref) -> (
    Seq<char>,
    Seq<char>,
    Seq<char>,
) {
    let c = match container {
        SaveContainer::Wav => "wav"@,
        SaveContainer::Flac => "flac"@,
    };
    let f = match written_bits(container, bits) {
        BitDepth::Bit16 => "pcm16"@,
        BitDepth::Bit24 => "pcm24"@,
        BitDepth::Bit32Float => "f32"@,
    };
    let d = if bits == BitDepth::Bit32Float {
        "none"@
    } else {
        match dither {
            SaveDitherPref::Tpdf => "tpdf"@,
            SaveDitherPref::NoDither => "none"@,
        }
    };
    (c, f, d)
}

/// The sidecar's description of a save in `container` at `bits` with `dither`.
pub fn save_format_model(container: SaveContainer, bits: BitDepth, dither: SaveDitherPref) -> (m:
    SaveFormatModel)
    ensures
        (m.container@, m.sample_format@, m.dither@) == save_format_text(container, bits, dither),
{
    let (c, f) = match (container, bits) {
        (SaveContainer::Wav, BitDepth::Bit16) => ("wav", "pcm16"),
        (SaveContainer::Wav, BitDepth::Bit24) => ("wav", "pcm24"),
        (SaveContainer::Wav, BitDepth::Bit32Float) => ("wav", "f32"),
        (SaveContainer::Flac, BitDepth::Bit16) => ("flac", "pcm16"),
        (SaveContainer::Flac, _) => ("flac", "pcm24"),
    };
    let d = match bits {
        BitDepth::Bit32Float => "none",
        _ => match dither {
            SaveDitherPref::Tpdf => "tpdf",
            SaveDitherPref::NoDither => "none",
        },
    };
    SaveFormatModel { container: c.to_owned(), sample_format: f.to_owned(), dither: d.to_owned() }
}

/// Bytes per sample at `bits`, uncompressed.
pub open spec fn bytes_per_sample(bits: BitDepth) -> nat {
    match bits {
        BitDepth::Bit16 => 2,
        BitDepth::Bit24 => 3,
        BitDepth::Bit32Float => 4,
    }
}

/// A conservative size estimate of a save: the uncompressed bytes at `bits` (FLAC is never
/// larger in practice), saturating at the largest `u64`.
pub fn estimated_save_output_bytes(len_samples: u64, bits: BitDepth) -> (n: u64)
    ensures
        n == (if len_samples * bytes_per_sample(bits) <= u64::MAX {
            len_samples * bytes_per_sample(bits)
        } else {
            u64::MAX as int
        }),
{
    let per: u64 = match bits {
        BitDepth::Bit16 => 2,
        BitDepth::Bit24 => 3,
        BitDepth::Bit32Float => 4,
    };
    match len_samples.checked_mul(per) {
        Some(n) => n,
        None => u64::MAX,
    }
}

/// The free space a save must leave beyond its estimated size.
pub const SAVE_FREE_SPACE_MARGIN_BYTES: u64 = 67108864;

/// No document is open.
pub fn no_document() -> (e: IpcError)
    ensures
        is_plain_error(e, IpcErrorCode::NotFound, "error.document.none"@),
{
    IpcError::new(IpcErrorCode::NotFound, "error.document.none")
}

/// Save of a never-saved document (the UI routes it to Save As).
pub fn untitled() -> (e: IpcError)
    ensures
        is_plain_error(e, IpcErrorCode::InvalidArgument, "error.document.untitled"@),
{
    IpcError::new(IpcErrorCode::InvalidArgument, "error.document.untitled")
}

/// A Save/Save As job is already running.
pub fn save_in_progress_error() -> (e: IpcError)
    ensures
        is_plain_error(e, IpcErrorCode::Busy, "error.save.in_progress"@),
{
    IpcError::new(IpcErrorCode::Busy, "error.save.in_progress")
}

/// The file `name` is already open (and locked) in another instance; the UI offers "Open
/// Anyway".
pub fn already_open_error(name: &str) -> (e: IpcError)
    ensures
        is_error_with(e, IpcErrorCode::NeedsConfirmation, "dialog.already_open"@, "name"@, name@),
{
    IpcError::new(IpcErrorCode::NeedsConfirmation, "dialog.already_open").with_param("name", name)
}

/// The bound file `name` changed size or time on disk since it was opened or last saved; the UI
/// offers "Overwrite".
pub fn changed_on_disk_error(name: &str) -> (e: IpcError)
    ensures
        is_error_with(e, IpcErrorCode::NeedsConfirmation, "dialog.changed_on_disk"@, "name"@, name@),
{
    IpcError::new(IpcErrorCode::NeedsConfirmation, "dialog.changed_on_disk").with_param("name", name)
}

/// The folder of `name` can't be written to at all.
pub fn permission_error(name: &str) -> (e: IpcError)
    ensures
        is_error_with(e, IpcErrorCode::Io, "error.save.permission"@, "name"@, name@),
{
    IpcError::new(IpcErrorCode::Io, "error.save.permission").with_param("name", name)
}

/// FLAC has no 32-bit float format.
pub fn invalid_flac_bit_depth() -> (e: IpcError)
    ensures
        is_plain_error(e, IpcErrorCode::InvalidArgument, "error.save.flac_needs_int_bits"@),
{
    IpcError::new(IpcErrorCode::InvalidArgument, "error.save.flac_needs_int_bits")
}

/// Too long for a WAV file in this format.
pub fn too_large_for_wav_error() -> (e: IpcError)
    ensures
        is_plain_error(e, IpcErrorCode::InvalidArgument, "error.save.too_large_for_wav"@),
{
    IpcError::new(IpcErrorCode::InvalidArgument, "error.save.too_large_for_wav")
}

/// The target volume can't hold the file.
pub fn disk_full_preflight_error() -> (e: IpcError)
    ensures
        is_plain_error(e, IpcErrorCode::Io, "error.save.disk_full"@),
{
    IpcError::new(IpcErrorCode::Io, "error.save.disk_full")
}

/// Saving over the multichannel source `name` replaces it with a mono file; the UI asks first.
pub fn multichannel_confirmation_error(name: &str) -> (e: IpcError)
    ensures
        is_error_with(e, IpcErrorCode::NeedsConfirmation, "dialog.multichannel_source"@, "name"@, name@),
{
    IpcError::new(IpcErrorCode::NeedsConfirmation, "dialog.multichannel_source").with_param(
        "name",
        name,
    )
}

/// What an exact overs scan found: how many samples exceed full scale, and the peak (already
/// formatted to two decimals, in dBFS).
#[derive(Debug, Clone, PartialEq, Eq)]
pub struct OversFound {
    pub count: u64,
    pub peak_dbfs: String,
}

/// `count` samples are above 0 dBFS and would be clipped; the UI offers "Clip and save".
pub fn clip_confirmation_error(overs: &OversFound) -> (e: IpcError)
    ensures
        e.code == IpcErrorCode::NeedsConfirmation,
        e.key@ == "dialog.overs"@,
        e.params@ == Map::<Seq<char>, Seq<char>>::empty().insert("count"@, decimal(overs.count as nat)).insert(
            "peak_dbfs"@,
            overs.peak_dbfs@,
        ),
{
    let count = decimal_string(overs.count);
    IpcError::new(IpcErrorCode::NeedsConfirmation, "dialog.overs").with_param(
        "count",
        count.as_str(),
    ).with_param("peak_dbfs", overs.peak_dbfs.as_str())
}

/// A save-write failure's cause, as far as the error message keys tell causes apart.
#[derive(Debug, Clone, Copy, PartialEq, Eq, Structural)]
pub enum SaveIoFailure {
    /// The FLAC verify-before-rename pass found a mismatch.
    FlacVerifyFailed,
    /// The disk or quota is full, or the file grew too large for the filesystem.
    DiskFull,
    /// Anything else.
    Other,
}

/// The i18n key of a save-write failure.
pub open spec fn save_io_key(cause: SaveIoFailure) -> Seq<char> {
    match cause {
        SaveIoFailure::FlacVerifyFailed => "error.save.verify_failed"@,
        SaveIoFailure::DiskFull => "error.save.disk_full"@,
        SaveIoFailure::Other => "error.save.io"@,
    }
}

/// A save-write failure: its own key for a verify mismatch and a full disk, `error.save.io`
/// otherwise, with the failure's text as `message`.
pub fn io_save_error(cause: SaveIoFailure, message: &str) -> (e: IpcError)
    ensures
        is_error_with(e, IpcErrorCode::Io, save_io_key(cause), "message"@, message@),
{
    let key = match cause {
        SaveIoFailure::FlacVerifyFailed => "error.save.verify_failed",
        SaveIoFailure::DiskFull => "error.save.disk_full",
        SaveIoFailure::Other => "error.save.io",
    };
    IpcError::new(IpcErrorCode::Io, key).with_param("message", message)
}

/// The kinds of I/O failure the save path tells apart.
#[derive(Debug, Clone, Copy, PartialEq, Eq, Structural)]
pub enum IoFailureKind {
    StorageFull,
    QuotaExceeded,
    FileTooLarge,
    NotFound,
    PermissionDenied,
    Other,
}

/// `std::io::Error::kind`, read as one of the kinds the save path tells apart (every other
/// kind is `Other`). Nothing is claimed of which kind an error has: an I/O error's kind comes
/// from the operating system.
#[verifier::external_body]
fn io_failure_kind(e: &std::io::Error) -> IoFailureKind {
    match e.kind() {
        std::io::ErrorKind::StorageFull => IoFailureKind::StorageFull,
        std::io::ErrorKind::QuotaExceeded => IoFailureKind::QuotaExceeded,
        std::io::ErrorKind::FileTooLarge => IoFailureKind::FileTooLarge,
        std::io::ErrorKind::NotFound => IoFailureKind::NotFound,
        std::io::ErrorKind::PermissionDenied => IoFailureKind::PermissionDenied,
        _ => IoFailureKind::Other,
    }
}

/// A full disk: out of space, over quota, or the file grew too large for the filesystem.
pub open spec fn disk_full_kind(k: IoFailureKind) -> bool {
    k == IoFailureKind::StorageFull || k == IoFailureKind::QuotaExceeded || k
        == IoFailureKind::FileTooLarge
}

/// Whether an I/O failure of kind `k` means the disk is full.
pub fn is_disk_full_kind(k: IoFailureKind) -> (r: bool)
    ensures
        r == disk_full_kind(k),
{
    k == IoFailureKind::StorageFull || k == IoFailureKind::QuotaExceeded || k == IoFailureKind::FileTooLarge
}

/// Whether `e` means the disk is full (see [`disk_full_kind`]); its kind comes from the system.
pub fn is_disk_full_io_error(e: &std::io::Error) -> (r: bool) {
    is_disk_full_kind(io_failure_kind(e))
}

/// What Save/Save As's pre-flight needs to know of the open document.
#[derive(Debug, Clone, PartialEq, Eq)]
pub struct SaveDocFacts {
    /// The bound file's name; `None` for a never-saved document.
    pub file_name: Option<String>,
    pub len_samples: u64,
    pub save_container: SaveContainer,
    pub save_bits: BitDepth,
    /// The source's channel count (1 for a mono source or a recording).
    pub source_channels: u16,
    /// The multichannel warning was already shown for this document.
    pub multichannel_warned: bool,
}

/// Save (to the bound file, in the bound format) or Save As (to a chosen file and format).
#[derive(Debug, Clone, PartialEq, Eq)]
pub enum SaveRequest {
    /// `overwrite` skips the changed-on-disk confirmation.
    Save { overwrite: bool },
    SaveAs { file_name: String, container: SaveContainer, bits: BitDepth },
}

/// The cheap file-system facts of the target, gathered before the pre-flight runs.
#[derive(Debug, Clone, Copy, PartialEq, Eq)]
pub struct SaveProbes {
    /// The bound file's size or time differs from what was recorded at open/last save.
    pub changed_on_disk: bool,
    /// A throwaway file could be created in the target folder (only a permission refusal
    /// counts as not writable).
    pub folder_writable: bool,
    /// Free bytes on the target volume, `None` when that could not be read (never blocks).
    pub free_bytes: Option<u64>,
    /// The document at the target bit depth exceeds the WAV format's size limit.
    pub wav_too_large: bool,
}

/// Why a Save/Save As is refused before any byte is written, in checklist order.
#[derive(Debug, Clone, Copy, PartialEq, Eq, Structural)]
pub enum SaveRefusal {
    FlacNeedsIntBits,
    InProgress,
    NoDocument,
    Untitled,
    ChangedOnDisk,
    Permission,
    DiskFull,
    TooLargeForWav,
    Overs,
    Multichannel,
}

/// The container and bit depth a request writes.
pub open spec fn target_format(doc: SaveDocFacts, request: SaveRequest) -> (SaveContainer, BitDepth) {
    match request {
        SaveRequest::Save { .. } => (doc.save_container, doc.save_bits),
        SaveRequest::SaveAs { container, bits, .. } => (container, bits),
    }
}

/// Whether the free space can't hold the estimated file plus the margin.
pub open spec fn lacks_space(free: Option<u64>, len_samples: u64, bits: BitDepth) -> bool {
    let est = if len_samples * bytes_per_sample(bits) <= u64::MAX {
        len_samples * bytes_per_sample(bits)
    } else {
        u64::MAX as int
    };
    let needed = if est + SAVE_FREE_SPACE_MARGIN_BYTES <= u64::MAX {
        est + SAVE_FREE_SPACE_MARGIN_BYTES
    } else {
        u64::MAX as int
    };
    let have = match free {
        Some(f) => f as int,
        None => u64::MAX as int,
    };
    have < needed
}

/// Whether the exact overs scan runs: not when the user already chose "Clip and save", and
/// never for a float target (float keeps overs).
pub open spec fn overs_scan_applies(bits: BitDepth, confirm_clip: bool) -> bool {
    !confirm_clip && bits != BitDepth::Bit32Float
}

/// The first refusal of the pre-flight checklist, `None` when the save may start:
/// FLAC + float (Save As only), a save already running, no document, untitled (Save only),
/// changed on disk (Save without `overwrite`), unwritable folder, not enough space, too large
/// for WAV, overs found by the scan, and the once-per-document multichannel warning.
pub open spec fn save_refusal(
    running: bool,
    doc: Option<SaveDocFacts>,
    request: SaveRequest,
    probes: SaveProbes,
    confirm_clip: bool,
    confirm_multichannel: bool,
    overs_found: bool,
) -> Option<SaveRefusal> {
    let flac_float = match request {
        SaveRequest::SaveAs { container, bits, .. } => container == SaveContainer::Flac && bits
            == BitDepth::Bit32Float,
        SaveRequest::Save { .. } => false,
    };
    if flac_float {
        Some(SaveRefusal::FlacNeedsIntBits)
    } else if running {
        Some(SaveRefusal::InProgress)
    } else if doc.is_none() {
        Some(SaveRefusal::NoDocument)
    } else {
        let d = doc.unwrap();
        let (container, bits) = target_format(d, request);
        if request is Save && d.file_name.is_none() {
            Some(SaveRefusal::Untitled)
        } else if request matches SaveRequest::Save { overwrite } && !overwrite && probes.changed_on_disk {
            Some(SaveRefusal::ChangedOnDisk)
        } else if !probes.folder_writable {
            Some(SaveRefusal::Permission)
        } else if lacks_space(probes.free_bytes, d.len_samples, bits) {
            Some(SaveRefusal::DiskFull)
        } else if container == SaveContainer::Wav && probes.wav_too_large {
            Some(SaveRefusal::TooLargeForWav)
        } else if overs_scan_applies(bits, confirm_clip) && overs_found {
            Some(SaveRefusal::Overs)
        } else if !confirm_multichannel && d.source_channels > 1 && !d.multichannel_warned {
            Some(SaveRefusal::Multichannel)
        } else {
            None
        }
    }
}

/// The target file's name: the bound file for Save, the chosen one for Save As.
pub open spec fn target_name(doc: SaveDocFacts, request: SaveRequest) -> Seq<char> {
    match request {
        SaveRequest::Save { .. } => match doc.file_name {
            Some(n) => n@,
            None => Seq::empty(),
        },
        SaveRequest::SaveAs { file_name, .. } => file_name@,
    }
}

/// The error a refusal is reported as (`name` is the target file's name).
pub open spec fn refusal_error(r: SaveRefusal, e: IpcError, name: Seq<char>, overs: Option<OversFound>) -> bool {
    match r {
        SaveRefusal::FlacNeedsIntBits => is_plain_error(e, IpcErrorCode::InvalidArgument, "error.save.flac_needs_int_bits"@),
        SaveRefusal::InProgress => is_plain_error(e, IpcErrorCode::Busy, "error.save.in_progress"@),
        SaveRefusal::NoDocument => is_plain_error(e, IpcErrorCode::NotFound, "error.document.none"@),
        SaveRefusal::Untitled => is_plain_error(e, IpcErrorCode::InvalidArgument, "error.document.untitled"@),
        SaveRefusal::ChangedOnDisk => is_error_with(e, IpcErrorCode::NeedsConfirmation, "dialog.changed_on_disk"@, "name"@, name),
        SaveRefusal::Permission => is_error_with(e, IpcErrorCode::Io, "error.save.permission"@, "name"@, name),
        SaveRefusal::DiskFull => is_plain_error(e, IpcErrorCode::Io, "error.save.disk_full"@),
        SaveRefusal::TooLargeForWav => is_plain_error(e, IpcErrorCode::InvalidArgument, "error.save.too_large_for_wav"@),
        SaveRefusal::Overs => e.code == IpcErrorCode::NeedsConfirmation && e.key@ == "dialog.overs"@
            && overs.is_some() && e.params@ == Map::<Seq<char>, Seq<char>>::empty().insert(
            "count"@,
            decimal(overs.unwrap().count as nat),
        ).insert("peak_dbfs"@, overs.unwrap().peak_dbfs@),
        SaveRefusal::Multichannel => is_error_with(e, IpcErrorCode::NeedsConfirmation, "dialog.multichannel_source"@, "name"@, name),
    }
}

/// Whether the exact overs scan has to run before [`SaveGate::begin`] for this request.
pub fn overs_scan_needed(bits: BitDepth, confirm_clip: bool) -> (r: bool)
    ensures
        r == overs_scan_applies(bits, confirm_clip),
{
    !confirm_clip && bits != BitDepth::Bit32Float
}

/// A 32-bit float save keeps samples above full scale: the overs scan never runs for a float
/// target, and a Save or Save As whose target is float is never refused as clipping, so what
/// the scan would have found changes nothing.
pub proof fn lemma_float_saves_never_clip(
    running: bool,
    doc: SaveDocFacts,
    request: SaveRequest,
    probes: SaveProbes,
    confirm_clip: bool,
    confirm_multichannel: bool,
    overs_found: bool,
)
    requires
        target_format(doc, request).1 == BitDepth::Bit32Float,
    ensures
        !overs_scan_applies(BitDepth::Bit32Float, confirm_clip),
        save_refusal(running, Some(doc), request, probes, confirm_clip, confirm_multichannel, overs_found)
            != Some(SaveRefusal::Overs),
        save_refusal(running, Some(doc), request, probes, confirm_clip, confirm_multichannel, true)
            == save_refusal(running, Some(doc), request, probes, confirm_clip, confirm_multichannel, false),
{
}

/// For a 16- or 24-bit target the scan runs unless the user already chose to clip, and
/// overs it found refuse the save when every earlier check passed.
pub proof fn lemma_integer_saves_ask_before_clipping(
    doc: SaveDocFacts,
    request: SaveRequest,
    probes: SaveProbes,
    confirm_multichannel: bool,
)
    requires
        target_format(doc, request).1 != BitDepth::Bit32Float,
        save_refusal(false, Some(doc), request, probes, false, confirm_multichannel, false).is_none(),
    ensures
        overs_scan_applies(target_format(doc, request).1, false),
        save_refusal(false, Some(doc), request, probes, false, confirm_multichannel, true)
            == Some(SaveRefusal::Overs),
        save_refusal(false, Some(doc), request, probes, true, confirm_multichannel, true).is_none(),
{
}

/// Lets one Save/Save As write at a time; editing and playback continue meanwhile, so this
/// gates nothing else.
#[derive(Debug)]
pub struct SaveGate {
    running: bool,
}

impl SaveGate {
    /// Whether a save is writing.
    pub closed spec fn is_running_spec(&self) -> bool {
        self.running
    }

    /// No save running.
    pub fn new() -> (g: SaveGate)
        ensures
            !g.is_running_spec(),
    {
        SaveGate { running: false }
    }

    /// Whether a save is writing.
    pub fn is_running(&self) -> (r: bool)
        ensures
            r == self.is_running_spec(),
    {
        self.running
    }

    /// The pre-flight of a Save/Save As: refuses with the first failing check of the ordered
    /// checklist (see [`save_refusal`]) and changes nothing then; otherwise marks a save as
    /// running. `overs`: what the exact scan found, when [`overs_scan_needed`] asked for it and
    /// it found samples above full scale.
    pub fn begin(
        &mut self,
        doc: Option<&SaveDocFacts>,
        request: &SaveRequest,
        probes: &SaveProbes,
        confirm_clip: bool,
        confirm_multichannel: bool,
        overs: Option<&OversFound>,
    ) -> (r: Result<(), IpcError>)
        ensures
            ({
                let refusal = save_refusal(
                    old(self).is_running_spec(),
                    match doc {
                        Some(d) => Some(*d),
                        None => None,
                    },
                    *request,
                    *probes,
                    confirm_clip,
                    confirm_multichannel,
                    overs.is_some(),
                );
                &&& r.is_ok() == refusal.is_none()
                &&& r.is_ok() ==> final(self).is_running_spec()
                &&& r.is_err() ==> final(self).is_running_spec() == old(self).is_running_spec()
                &&& r.is_err() ==> refusal_error(
                    refusal.unwrap(),
                    r->Err_0,
                    match doc {
                        Some(d) => target_name(*d, *request),
                        None => Seq::empty(),
                    },
                    match overs {
                        Some(o) => Some(*o),
                        None => None,
                    },
                )
            }),
    {
        if let SaveRequest::SaveAs { container, bits, .. } = request {
            if *container == SaveContainer::Flac && *bits == BitDepth::Bit32Float {
                return Err(invalid_flac_bit_depth());
            }
        }
        if self.running {
            return Err(save_in_progress_error());
        }
        let d = match doc {
            Some(d) => d,
            None => return Err(no_document()),
        };
        let (container, bits, name): (SaveContainer, BitDepth, &str) = match request {
            SaveRequest::Save { overwrite } => {
                let name = match &d.file_name {
                    Some(n) => n.as_str(),
                    None => return Err(untitled()),
                };
                if !*overwrite && probes.changed_on_disk {
                    return Err(changed_on_disk_error(name));
                }
                (d.save_container, d.save_bits, name)
            },
            SaveRequest::SaveAs { file_name, container, bits } => (*container, *bits, file_name.as_str()),
        };
        if !probes.folder_writable {
            return Err(permission_error(name));
        }
        let est = estimated_save_output_bytes(d.len_samples, bits);
        let needed = match est.checked_add(SAVE_FREE_SPACE_MARGIN_BYTES) {
            Some(n) => n,
            None => u64::MAX,
        };
        let have = match probes.free_bytes {
            Some(f) => f,
            None => u64::MAX,
        };
        if have < needed {
            return Err(disk_full_preflight_error());
        }
        if container == SaveContainer::Wav && probes.wav_too_large {
            return Err(too_large_for_wav_error());
        }
        if overs_scan_needed(bits, confirm_clip) {
            if let Some(o) = overs {
                return Err(clip_confirmation_error(o));
            }
        }
        if !confirm_multichannel && d.source_channels > 1 && !d.multichannel_warned {
            return Err(multichannel_confirmation_error(name));
        }
        self.running = true;
        Ok(())
    }

    /// The save's write finished (done, failed or cancelled): another save may start.
    pub fn finish(&mut self)
        ensures
            !final(self).is_running_spec(),
    {
        self.running = false;
    }
}

/// Once the running save finished, the next Save or Save As is never refused as "in progress".
pub proof fn lemma_finished_save_frees_the_gate(
    doc: Option<SaveDocFacts>,
    request: SaveRequest,
    probes: SaveProbes,
    confirm_clip: bool,
    confirm_multichannel: bool,
    overs_found: bool,
)
    ensures
        save_refusal(false, doc, request, probes, confirm_clip, confirm_multichannel, overs_found)
            != Some(SaveRefusal::InProgress),
{
}

/// While a save is writing, a second Save or Save As is refused with `error.save.in_progress`
/// (or, for a FLAC + float Save As, its own format error, which is checked first).
pub proof fn lemma_second_save_refused(
    doc: Option<SaveDocFacts>,
    request: SaveRequest,
    probes: SaveProbes,
    confirm_clip: bool,
    confirm_multichannel: bool,
    overs_found: bool,
)
    ensures
        save_refusal(true, doc, request, probes, confirm_clip, confirm_multichannel, overs_found)
            == Some(SaveRefusal::InProgress) || save_refusal(
            true,
            doc,
            request,
            probes,
            confirm_clip,
            confirm_multichannel,
            overs_found,
        ) == Some(SaveRefusal::FlacNeedsIntBits),
{
}

/// A save-related notice for the command layer to post: an i18n key and its placeholder
/// values.
#[derive(Debug, Clone, PartialEq, Eq)]
pub struct SidecarNoticeInfo {
    pub key: &'static str,
    pub params: Vec<(&'static str, String)>,
}

/// The notice's placeholder pairs as plain character sequences.
pub open spec fn notice_pairs(info: SidecarNoticeInfo) -> Seq<(Seq<char>, Seq<char>)> {
    info.params@.map_values(|p: (&'static str, String)| (p.0@, p.1@))
}

/// What a save must know to decide whether the audio file is rewritten (a full save) or only
/// the sidecar.
#[derive(Debug, Clone, Copy, PartialEq, Eq)]
pub struct SaveBaseline {
    /// The audio revision the file on disk was last written at.
    pub last_saved_audio_rev: u64,
    /// The bound format.
    pub save_container: SaveContainer,
    pub save_bits: BitDepth,
    pub save_dither: SaveDitherPref,
}

/// Whether a save rewrites the audio: always for Save As (`force_full`), or when the audio
/// changed since the last save, the markers differ from the ones the file holds, the format
/// changed, or the file is missing. Otherwise only the sidecar is written.
pub fn needs_full_save(
    force_full: bool,
    audio_rev: u64,
    markers_changed: bool,
    baseline: &SaveBaseline,
    container: SaveContainer,
    bits: BitDepth,
    dither: SaveDitherPref,
    file_missing: bool,
) -> (r: bool)
    ensures
        r == (force_full || audio_rev != baseline.last_saved_audio_rev || markers_changed || bits
            != baseline.save_bits || container != baseline.save_container || dither
            != baseline.save_dither || file_missing),
{
    force_full || audio_rev != baseline.last_saved_audio_rev || markers_changed || bits
        != baseline.save_bits || container != baseline.save_container || dither
        != baseline.save_dither || file_missing
}

/// The notices a finished save write posts: when the sidecar was written, "markers are not
/// stored in FLAC" for a FLAC save with markers; when it failed, the sidecar-failed notice
/// (its FLAC variant for a FLAC save).
pub fn save_write_notices(
    container: SaveContainer,
    sidecar_written: bool,
    marker_count: u64,
    file_name: &str,
) -> (v: Vec<SidecarNoticeInfo>)
    ensures
        sidecar_written && container == SaveContainer::Flac && marker_count > 0 ==> v@.len() == 1
            && v@[0].key@ == "notice.save.markers_not_in_flac"@ && notice_pairs(v@[0]) == seq![
            ("name"@, file_name@),
            ("count"@, decimal(marker_count as nat)),
        ],
        sidecar_written && !(container == SaveContainer::Flac && marker_count > 0) ==> v@.len() == 0,
        !sidecar_written ==> v@.len() == 1 && v@[0].key@ == (if container == SaveContainer::Flac {
            "notice.save.sidecar_failed.flac"@
        } else {
            "notice.save.sidecar_failed"@
        }) && notice_pairs(v@[0]) == seq![("name"@, file_name@)],
{
    let mut v: Vec<SidecarNoticeInfo> = Vec::new();
    if sidecar_written {
        if container == SaveContainer::Flac && marker_count > 0 {
            let mut params: Vec<(&'static str, String)> = Vec::new();
            params.push(("name", file_name.to_owned()));
            params.push(("count", decimal_string(marker_count)));
            proof {
                assert(params@.map_values(|p: (&'static str, String)| (p.0@, p.1@)) =~= seq![
                    ("name"@, file_name@),
                    ("count"@, decimal(marker_count as nat)),
                ]);
            }
            v.push(SidecarNoticeInfo { key: "notice.save.markers_not_in_flac", params });
        }
    } else {
        let key = match container {
            SaveContainer::Flac => "notice.save.sidecar_failed.flac",
            SaveContainer::Wav => "notice.save.sidecar_failed",
        };
        let mut params: Vec<(&'static str, String)> = Vec::new();
        params.push(("name", file_name.to_owned()));
        proof {
            assert(params@.map_values(|p: (&'static str, String)| (p.0@, p.1@)) =~= seq![
                ("name"@, file_name@),
            ]);
        }
        v.push(SidecarNoticeInfo { key, params });
    }
    v
}

/// The sidecar bookkeeping a document keeps between saves (`M`: the marker items the audio
/// file and sidecar last received).
#[derive(Debug, Clone, PartialEq, Eq)]
pub struct SidecarBookkeeping<M> {
    /// The saved file's fingerprint.
    pub audio_crc32: u32,
    /// The bound file's size and modification time as last recorded.
    pub file_size_bytes: u64,
    pub file_mtime_unix_ms: u64,
    /// The audio revision the file was last written at.
    pub last_saved_audio_rev: u64,
    /// The sidecar on disk needs a backup before its next overwrite.
    pub needs_backup: bool,
    /// The markers the last successful sidecar write stored.
    pub last_written_markers: M,
    /// The persisted-content digest as of the last successful sidecar write.
    pub persisted_digest: u32,
}

/// What a finished save write reports.
#[derive(Debug, Clone, PartialEq, Eq)]
pub struct SaveWriteOutcome {
    pub audio_crc32: u32,
    /// `(size, mtime)` of the written file, `None` when it could not be read back.
    pub file_facts: Option<(u64, u64)>,
    pub sidecar_written: bool,
    /// Only meaningful when `sidecar_written`.
    pub persisted_digest: u32,
}

/// The bookkeeping after a save of the revision `audio_rev` with markers `markers`: the
/// fingerprint, file facts (0s when unreadable) and saved revision always move on; the sidecar
/// baseline (backup flag, markers, digest) only when the sidecar was written — otherwise the
/// next save retries it.
pub open spec fn bookkeeping_after_save<M>(
    b: SidecarBookkeeping<M>,
    audio_rev: u64,
    markers: M,
    o: SaveWriteOutcome,
) -> SidecarBookkeeping<M> {
    SidecarBookkeeping {
        audio_crc32: o.audio_crc32,
        file_size_bytes: match o.file_facts {
            Some(f) => f.0,
            None => 0,
        },
        file_mtime_unix_ms: match o.file_facts {
            Some(f) => f.1,
            None => 0,
        },
        last_saved_audio_rev: audio_rev,
        needs_backup: if o.sidecar_written { false } else { b.needs_backup },
        last_written_markers: if o.sidecar_written { markers } else { b.last_written_markers },
        persisted_digest: if o.sidecar_written { o.persisted_digest } else { b.persisted_digest },
    }
}

/// Records a finished save write in the bookkeeping (see [`bookkeeping_after_save`]).
pub fn apply_write_outcome<M>(b: SidecarBookkeeping<M>, audio_rev: u64, markers: M, o: &SaveWriteOutcome) -> (r:
    SidecarBookkeeping<M>)
    ensures
        r == bookkeeping_after_save(b, audio_rev, markers, *o),
{
    let (size, mtime) = match o.file_facts {
        Some(f) => f,
        None => (0, 0),
    };
    let SidecarBookkeeping {
        needs_backup,
        last_written_markers,
        persisted_digest,
        ..
    } = b;
    if o.sidecar_written {
        SidecarBookkeeping {
            audio_crc32: o.audio_crc32,
            file_size_bytes: size,
            file_mtime_unix_ms: mtime,
            last_saved_audio_rev: audio_rev,
            needs_backup: false,
            last_written_markers: markers,
            persisted_digest: o.persisted_digest,
        }
    } else {
        SidecarBookkeeping {
            audio_crc32: o.audio_crc32,
            file_size_bytes: size,
            file_mtime_unix_ms: mtime,
            last_saved_audio_rev: audio_rev,
            needs_backup,
            last_written_markers,
            persisted_digest,
        }
    }
}

/// A finished save is recorded only against the document it read: when that document was
/// closed or replaced while the write ran, the file stays correct but there is no document to
/// record it against.
pub fn check_save_target(doc_open: bool, same_session: bool) -> (r: Result<(), IpcError>)
    ensures
        r.is_ok() == (doc_open && same_session),
        r.is_err() ==> is_plain_error(r->Err_0, IpcErrorCode::NotFound, "error.document.none"@),
{
    if doc_open && same_session {
        Ok(())
    } else {
        Err(no_document())
    }
}

/// The once-per-document facts a finished save updates.
#[derive(Debug, Clone, Copy, PartialEq, Eq)]
pub struct SavedDocState {
    /// The source carried metadata a save drops.
    pub had_foreign_metadata: bool,
    /// The metadata-dropped notice was already shown for this document.
    pub metadata_notice_shown: bool,
    /// The multichannel warning was already shown for this document.
    pub multichannel_warned: bool,
    /// Opened by crash recovery and not saved since.
    pub recovered: bool,
}

/// The once-per-document facts after a successful save.
pub open spec fn after_recorded_save(s: SavedDocState) -> SavedDocState {
    SavedDocState {
        had_foreign_metadata: s.had_foreign_metadata,
        metadata_notice_shown: s.metadata_notice_shown || s.had_foreign_metadata,
        multichannel_warned: true,
        recovered: false,
    }
}

/// Whether recording a save of a document in state `s` posts the metadata-dropped notice.
pub open spec fn posts_metadata_notice(s: SavedDocState) -> bool {
    s.had_foreign_metadata && !s.metadata_notice_shown
}

/// Records a successful save of the document in `state` to the file `file_name`: the first
/// save of a source with foreign metadata posts "metadata dropped" (once per document), later
/// saves never warn about the multichannel source again, and the document is no longer
/// "recovered".
pub fn record_save(state: &mut SavedDocState, file_name: &str) -> (n: Option<SidecarNoticeInfo>)
    ensures
        n.is_some() == posts_metadata_notice(*old(state)),
        *final(state) == after_recorded_save(*old(state)),
        n.is_some() ==> n.unwrap().key@ == "notice.save.metadata_dropped"@ && notice_pairs(n.unwrap())
            == seq![("name"@, file_name@)],
{
    let mut notice = None;
    if state.had_foreign_metadata && !state.metadata_notice_shown {
        state.metadata_notice_shown = true;
        let mut params: Vec<(&'static str, String)> = Vec::new();
        params.push(("name", file_name.to_owned()));
        proof {
            assert(params@.map_values(|p: (&'static str, String)| (p.0@, p.1@)) =~= seq![
                ("name"@, file_name@),
            ]);
        }
        notice = Some(SidecarNoticeInfo { key: "notice.save.metadata_dropped", params });
    }
    state.multichannel_warned = true;
    state.recovered = false;
    notice
}

/// Once a save has been recorded for a document, its next save never asks the multichannel
/// confirmation again (the warning is shown at most once per document).
pub proof fn lemma_multichannel_warning_once(
    state: SavedDocState,
    doc: SaveDocFacts,
    request: SaveRequest,
    probes: SaveProbes,
    confirm_clip: bool,
    confirm_multichannel: bool,
    overs_found: bool,
)
    requires
        doc.multichannel_warned == after_recorded_save(state).multichannel_warned,
    ensures
        save_refusal(false, Some(doc), request, probes, confirm_clip, confirm_multichannel, overs_found)
            != Some(SaveRefusal::Multichannel),
{
}

/// The metadata-dropped notice is posted at most once per document: once a save has been
/// recorded, recording another posts nothing.
pub proof fn lemma_metadata_notice_once(state: SavedDocState)
    ensures
        !posts_metadata_notice(after_recorded_save(state)),
{
}

} // verus!
