//! Tier-B drop-in persona libraries: the entries a TOML drop-in extends the
//! built-in WebGL GPU, audio device, font, voice and fingerprint-target sets
//! with, their fail-closed validation (the first bad entry rejects the whole
//! load), and the load errors.
//!
//! Reading the file and parsing the TOML happen at the caller; this module
//! validates the parsed entries and renders the errors.
use vstd::prelude::*;
use crate::text::{
    chars_of, contains, dec, debug_str, leak_string, lower, lower_chars, push_dec, push_str,
    str_debug, str_eq, string_from_chars, trim, trim_chars, contains_str,
};
use crate::tls_targets::{
    builtin_targets, fingerprint_targets, target_fields_error,
    FingerprintTarget, TargetView,
};

verus! {

/// Upper bound on a Tier-B TOML drop-in (64 KiB).
pub const MAX_TIER_B_TOML_BYTES: u64 = 65536;

/// Whether a Tier-B file of `bytes` bytes is within the size cap (a larger
/// file is refused before it is read).
pub fn within_size_cap(bytes: u64) -> (r: bool)
    ensures
        r == (bytes <= MAX_TIER_B_TOML_BYTES),
{
    bytes <= MAX_TIER_B_TOML_BYTES
}

/// The four fail-closed outcomes of loading an index-keyed library.
pub enum LoadErrorView {
    Read(Seq<char>),
    TooLarge { path: Seq<char>, bytes: u64 },
    Parse(Seq<char>),
    Invalid { index: nat, reason: Seq<char> },
}

/// `tier-b <tag>: ...` for each outcome.
pub open spec fn load_error_message(tag: Seq<char>, e: LoadErrorView) -> Seq<char> {
    match e {
        LoadErrorView::Read(m) => "tier-b "@ + tag + ": read failed: "@ + m,
        LoadErrorView::TooLarge { path, bytes } => "tier-b "@ + tag + ": "@ + path + " is "@ + dec(
            bytes as nat,
        ) + " bytes, over the 65536-byte cap"@,
        LoadErrorView::Parse(m) => "tier-b "@ + tag + ": TOML parse failed: "@ + m,
        LoadErrorView::Invalid { index, reason } => "tier-b "@ + tag + ": entry #"@ + dec(index)
            + " invalid: "@ + reason,
    }
}

fn render_load_error(tag: &str, e: &LoadErrorParts) -> (s: String)
    ensures
        s@ == load_error_message(tag@, e.view()),
{
    let mut out: Vec<char> = Vec::new();
    push_str(&mut out, "tier-b ");
    push_str(&mut out, tag);
    match e {
        LoadErrorParts::Read(m) => {
            push_str(&mut out, ": read failed: ");
            push_str(&mut out, m.as_str());
        },
        LoadErrorParts::TooLarge { path, bytes } => {
            push_str(&mut out, ": ");
            push_str(&mut out, path.as_str());
            push_str(&mut out, " is ");
            push_dec(&mut out, *bytes);
            push_str(&mut out, " bytes, over the 65536-byte cap");
        },
        LoadErrorParts::Parse(m) => {
            push_str(&mut out, ": TOML parse failed: ");
            push_str(&mut out, m.as_str());
        },
        LoadErrorParts::Invalid { index, reason } => {
            push_str(&mut out, ": entry #");
            push_dec(&mut out, *index as u64);
            push_str(&mut out, " invalid: ");
            push_str(&mut out, reason.as_str());
        },
    }
    string_from_chars(out.as_slice())
}

/// The shared shape of the index-keyed load errors.
enum LoadErrorParts<'a> {
    Read(&'a String),
    TooLarge { path: &'a String, bytes: u64 },
    Parse(&'a String),
    Invalid { index: usize, reason: &'a String },
}

impl<'a> LoadErrorParts<'a> {
    spec fn view(&self) -> LoadErrorView {
        match self {
            LoadErrorParts::Read(m) => LoadErrorView::Read(m@),
            LoadErrorParts::TooLarge { path, bytes } => LoadErrorView::TooLarge {
                path: path@,
                bytes: *bytes,
            },
            LoadErrorParts::Parse(m) => LoadErrorView::Parse(m@),
            LoadErrorParts::Invalid { index, reason } => LoadErrorView::Invalid {
                index: *index as nat,
                reason: reason@,
            },
        }
    }
}

// ───────────────────────── WebGL GPUs ─────────────────────────

/// One measured WebGL GPU persona.
#[derive(Debug, Clone, PartialEq, Eq)]
pub struct WebGlGpuPersona {
    /// `UNMASKED_VENDOR_WEBGL` value.
    pub vendor: &'static str,
    /// `UNMASKED_RENDERER_WEBGL` value.
    pub renderer: &'static str,
}

/// Canonical vendor families in the WebGL GPU persona library.
#[derive(Debug, Clone, Copy, PartialEq, Eq, Hash, Structural)]
pub enum WebGlGpuFamily {
    /// Intel integrated GPUs.
    Intel,
    /// NVIDIA discrete GPUs.
    Nvidia,
    /// AMD discrete GPUs.
    Amd,
    /// Apple GPUs.
    Apple,
    /// Qualcomm Adreno mobile GPUs.
    Qualcomm,
    /// Mesa open-source stack (Linux).
    Mesa,
    /// Brave browser (masks the real adapter).
    Brave,
    /// Legacy Microsoft / IE11.
    Microsoft,
    /// Vendor string not matching any known family.
    Other,
}

pub open spec fn apple_platform(p: Seq<char>) -> bool {
    p == "MacIntel"@ || p == "iPhone"@ || p == "iPad"@
}

impl WebGlGpuFamily {
    /// Whether this GPU family can physically exist on the given platform:
    /// Apple GPUs only on Apple platforms, every other family only elsewhere.
    pub fn coherent_with_platform(self, platform: &str) -> (r: bool)
        ensures
            r == if self is Apple {
                apple_platform(platform@)
            } else {
                !apple_platform(platform@)
            },
    {
        let apple = str_eq(platform, "MacIntel") || str_eq(platform, "iPhone") || str_eq(
            platform,
            "iPad",
        );
        match self {
            WebGlGpuFamily::Apple => apple,
            _ => !apple,
        }
    }
}

/// The family a vendor string names (by case-insensitive substring, in
/// priority order).
pub open spec fn vendor_family_spec(vendor: Seq<char>) -> WebGlGpuFamily {
    let l = lower(vendor);
    if contains(l, "intel"@) {
        WebGlGpuFamily::Intel
    } else if contains(l, "nvidia"@) {
        WebGlGpuFamily::Nvidia
    } else if contains(l, "amd"@) || contains(l, "radeon"@) {
        WebGlGpuFamily::Amd
    } else if contains(l, "apple"@) {
        WebGlGpuFamily::Apple
    } else if contains(l, "qualcomm"@) || contains(l, "adreno"@) {
        WebGlGpuFamily::Qualcomm
    } else if contains(l, "mesa"@) {
        WebGlGpuFamily::Mesa
    } else if contains(l, "brave"@) {
        WebGlGpuFamily::Brave
    } else if contains(l, "microsoft"@) {
        WebGlGpuFamily::Microsoft
    } else {
        WebGlGpuFamily::Other
    }
}

/// Classify a vendor string into a canonical family.
pub fn webgl_gpu_vendor_family(vendor: &str) -> (f: WebGlGpuFamily)
    ensures
        f == vendor_family_spec(vendor@),
{
    let l = lower_chars(&chars_of(vendor));
    let ls = string_from_chars(l.as_slice());
    let s = ls.as_str();
    if contains_str(s, "intel") {
        WebGlGpuFamily::Intel
    } else if contains_str(s, "nvidia") {
        WebGlGpuFamily::Nvidia
    } else if contains_str(s, "amd") || contains_str(s, "radeon") {
        WebGlGpuFamily::Amd
    } else if contains_str(s, "apple") {
        WebGlGpuFamily::Apple
    } else if contains_str(s, "qualcomm") || contains_str(s, "adreno") {
        WebGlGpuFamily::Qualcomm
    } else if contains_str(s, "mesa") {
        WebGlGpuFamily::Mesa
    } else if contains_str(s, "brave") {
        WebGlGpuFamily::Brave
    } else if contains_str(s, "microsoft") {
        WebGlGpuFamily::Microsoft
    } else {
        WebGlGpuFamily::Other
    }
}

/// Error loading a Tier-B WebGL GPU persona library.
#[derive(Debug)]
pub enum WebGlGpuLoadError {
    /// The file could not be read.
    Read(String),
    /// The file exceeds the size cap.
    TooLarge {
        /// The offending path.
        path: String,
        /// Actual size in bytes.
        bytes: u64,
    },
    /// The TOML did not parse.
    Parse(String),
    /// A GPU entry was malformed (one-based index and reason).
    Invalid {
        /// One-based entry index in the file.
        index: usize,
        /// Why it was rejected.
        reason: String,
    },
}

impl View for WebGlGpuLoadError {
    type V = LoadErrorView;

    open spec fn view(&self) -> LoadErrorView {
        match self {
            WebGlGpuLoadError::Read(m) => LoadErrorView::Read(m@),
            WebGlGpuLoadError::TooLarge { path, bytes } => LoadErrorView::TooLarge {
                path: path@,
                bytes: *bytes,
            },
            WebGlGpuLoadError::Parse(m) => LoadErrorView::Parse(m@),
            WebGlGpuLoadError::Invalid { index, reason } => LoadErrorView::Invalid {
                index: *index as nat,
                reason: reason@,
            },
        }
    }
}

impl WebGlGpuLoadError {
    /// Human-readable description of the error.
    pub fn message(&self) -> (s: String)
        ensures
            s@ == load_error_message("webgl-gpu"@, self@),
    {
        let parts = match self {
            WebGlGpuLoadError::Read(m) => LoadErrorParts::Read(m),
            WebGlGpuLoadError::TooLarge { path, bytes } => LoadErrorParts::TooLarge {
                path,
                bytes: *bytes,
            },
            WebGlGpuLoadError::Parse(m) => LoadErrorParts::Parse(m),
            WebGlGpuLoadError::Invalid { index, reason } => LoadErrorParts::Invalid {
                index: *index,
                reason,
            },
        };
        render_load_error("webgl-gpu", &parts)
    }
}

/// Why one parsed GPU entry is rejected, if it is: empty vendor or renderer
/// (after trimming), or an unknown vendor family.
pub open spec fn gpu_entry_error(vendor: Seq<char>, renderer: Seq<char>) -> Option<Seq<char>> {
    let v = trim(vendor);
    let r = trim(renderer);
    if v.len() == 0 {
        Some("empty vendor"@)
    } else if r.len() == 0 {
        Some("empty renderer"@)
    } else if vendor_family_spec(v) is Other {
        Some("unknown GPU vendor family for vendor "@ + str_debug(v))
    } else {
        None
    }
}

/// Validate parsed `[[gpu]]` entries (vendor, renderer) in file order: the
/// trimmed personas, or the first malformed entry (one-based) with its
/// reason (see [`gpu_entry_error`]).
pub fn webgl_gpus_from_entries(entries: &Vec<(String, String)>) -> (r: Result<
    Vec<WebGlGpuPersona>,
    WebGlGpuLoadError,
>)
    ensures
        match r {
            Ok(out) => out@.len() == entries@.len() && (forall|i: int|
                0 <= i < entries@.len() ==> #[trigger] gpu_entry_error(entries@[i].0@, entries@[i].1@)
                    is None) && (forall|i: int|
                0 <= i < entries@.len() ==> (#[trigger] out@[i]).vendor@ == trim(entries@[i].0@)
                    && out@[i].renderer@ == trim(entries@[i].1@)),
            Err(e) => exists|k: int|
                0 <= k < entries@.len() && (forall|j: int|
                    0 <= j < k ==> gpu_entry_error(entries@[j].0@, entries@[j].1@) is None)
                    && #[trigger] gpu_entry_error(entries@[k].0@, entries@[k].1@) is Some
                    && e@ == (LoadErrorView::Invalid {
                    index: (k + 1) as nat,
                    reason: gpu_entry_error(entries@[k].0@, entries@[k].1@)->0,
                }),
        },
{
    let mut out: Vec<WebGlGpuPersona> = Vec::new();
    let mut i: usize = 0;
    while i < entries.len()
        invariant
            i <= entries@.len(),
            out@.len() == i,
            forall|j: int|
                0 <= j < i ==> #[trigger] gpu_entry_error(entries@[j].0@, entries@[j].1@) is None,
            forall|j: int|
                0 <= j < i ==> (#[trigger] out@[j]).vendor@ == trim(entries@[j].0@) && out@[j].renderer@
                    == trim(entries@[j].1@),
        decreases entries@.len() - i,
    {
        let vendor = trim_chars(&chars_of(entries[i].0.as_str()));
        let renderer = trim_chars(&chars_of(entries[i].1.as_str()));
        assert(vendor@ == trim(entries@[i as int].0@));
        assert(renderer@ == trim(entries@[i as int].1@));
        let mut reason: Vec<char> = Vec::new();
        let bad = if vendor.len() == 0 {
            push_str(&mut reason, "empty vendor");
            true
        } else if renderer.len() == 0 {
            push_str(&mut reason, "empty renderer");
            true
        } else {
            let vs = string_from_chars(vendor.as_slice());
            let family = webgl_gpu_vendor_family(vs.as_str());
            match family {
                WebGlGpuFamily::Other => {
                    push_str(&mut reason, "unknown GPU vendor family for vendor ");
                    let d = debug_str(vs.as_str());
                    push_str(&mut reason, d.as_str());
                    true
                },
                _ => false,
            }
        };
        if bad {
            assert(gpu_entry_error(entries@[i as int].0@, entries@[i as int].1@) == Some(reason@));
            let e = WebGlGpuLoadError::Invalid {
                index: i + 1,
                reason: string_from_chars(reason.as_slice()),
            };
            return Err(e);
        }
        assert(gpu_entry_error(entries@[i as int].0@, entries@[i as int].1@) is None);
        let p = WebGlGpuPersona {
            vendor: leak_string(string_from_chars(vendor.as_slice())),
            renderer: leak_string(string_from_chars(renderer.as_slice())),
        };
        assert(p.vendor@ == trim(entries@[i as int].0@));
        out.push(p);
        i = i + 1;
    }
    Ok(out)
}

// ───────────────────────── audio devices ─────────────────────────

/// One audio device entry.
#[derive(Debug, Clone, PartialEq, Eq)]
pub struct AudioDevicePersona {
    /// MediaDeviceKind: `"audioinput"` or `"audiooutput"`.
    pub kind: &'static str,
    /// Human-readable device label.
    pub label: &'static str,
}

impl AudioDevicePersona {
    /// Whether this is an audio input device.
    pub fn is_input(&self) -> (r: bool)
        ensures
            r == (self.kind@ == "audioinput"@),
    {
        str_eq(self.kind, "audioinput")
    }

    /// Whether this is an audio output device.
    pub fn is_output(&self) -> (r: bool)
        ensures
            r == (self.kind@ == "audiooutput"@),
    {
        str_eq(self.kind, "audiooutput")
    }
}

/// Error loading a Tier-B audio device persona library.
#[derive(Debug)]
pub enum AudioDeviceLoadError {
    /// The file could not be read.
    Read(String),
    /// The file exceeds the size cap.
    TooLarge {
        /// The offending path.
        path: String,
        /// Actual size in bytes.
        bytes: u64,
    },
    /// The TOML did not parse.
    Parse(String),
    /// A device entry was malformed (one-based index and reason).
    Invalid {
        /// One-based entry index in the file.
        index: usize,
        /// Why it was rejected.
        reason: String,
    },
}

impl View for AudioDeviceLoadError {
    type V = LoadErrorView;

    open spec fn view(&self) -> LoadErrorView {
        match self {
            AudioDeviceLoadError::Read(m) => LoadErrorView::Read(m@),
            AudioDeviceLoadError::TooLarge { path, bytes } => LoadErrorView::TooLarge {
                path: path@,
                bytes: *bytes,
            },
            AudioDeviceLoadError::Parse(m) => LoadErrorView::Parse(m@),
            AudioDeviceLoadError::Invalid { index, reason } => LoadErrorView::Invalid {
                index: *index as nat,
                reason: reason@,
            },
        }
    }
}

impl AudioDeviceLoadError {
    /// Human-readable description of the error.
    pub fn message(&self) -> (s: String)
        ensures
            s@ == load_error_message("audio-devices"@, self@),
    {
        let parts = match self {
            AudioDeviceLoadError::Read(m) => LoadErrorParts::Read(m),
            AudioDeviceLoadError::TooLarge { path, bytes } => LoadErrorParts::TooLarge {
                path,
                bytes: *bytes,
            },
            AudioDeviceLoadError::Parse(m) => LoadErrorParts::Parse(m),
            AudioDeviceLoadError::Invalid { index, reason } => LoadErrorParts::Invalid {
                index: *index,
                reason,
            },
        };
        render_load_error("audio-devices", &parts)
    }
}

/// A MediaDeviceKind an audio persona may carry.
pub open spec fn valid_kind_spec(kind: Seq<char>) -> bool {
    kind == "audioinput"@ || kind == "audiooutput"@
}

/// Whether `kind` is `audioinput` or `audiooutput`.
pub fn valid_kind(kind: &str) -> (r: bool)
    ensures
        r == valid_kind_spec(kind@),
{
    str_eq(kind, "audioinput") || str_eq(kind, "audiooutput")
}

/// Why one parsed audio entry is rejected, if it is.
pub open spec fn audio_entry_error(kind: Seq<char>, label: Seq<char>) -> Option<Seq<char>> {
    let k = trim(kind);
    let l = trim(label);
    if !valid_kind_spec(k) {
        Some("kind `"@ + k + "` is not audioinput/audiooutput"@)
    } else if l.len() == 0 {
        Some("empty label"@)
    } else {
        None
    }
}

/// Validate parsed `[[audio_device]]` entries (kind, label) in file order:
/// the trimmed personas, or the first malformed entry (one-based) with its
/// reason (see [`audio_entry_error`]).
pub fn audio_devices_from_entries(entries: &Vec<(String, String)>) -> (r: Result<
    Vec<AudioDevicePersona>,
    AudioDeviceLoadError,
>)
    ensures
        match r {
            Ok(out) => out@.len() == entries@.len() && (forall|i: int|
                0 <= i < entries@.len() ==> #[trigger] audio_entry_error(entries@[i].0@, entries@[i].1@)
                    is None) && (forall|i: int|
                0 <= i < entries@.len() ==> (#[trigger] out@[i]).kind@ == trim(entries@[i].0@)
                    && out@[i].label@ == trim(entries@[i].1@)),
            Err(e) => exists|k: int|
                0 <= k < entries@.len() && (forall|j: int|
                    0 <= j < k ==> audio_entry_error(entries@[j].0@, entries@[j].1@) is None)
                    && #[trigger] audio_entry_error(entries@[k].0@, entries@[k].1@) is Some
                    && e@ == (LoadErrorView::Invalid {
                    index: (k + 1) as nat,
                    reason: audio_entry_error(entries@[k].0@, entries@[k].1@)->0,
                }),
        },
{
    let mut out: Vec<AudioDevicePersona> = Vec::new();
    let mut i: usize = 0;
    while i < entries.len()
        invariant
            i <= entries@.len(),
            out@.len() == i,
            forall|j: int|
                0 <= j < i ==> #[trigger] audio_entry_error(entries@[j].0@, entries@[j].1@) is None,
            forall|j: int|
                0 <= j < i ==> (#[trigger] out@[j]).kind@ == trim(entries@[j].0@) && out@[j].label@
                    == trim(entries@[j].1@),
        decreases entries@.len() - i,
    {
        let kind = trim_chars(&chars_of(entries[i].0.as_str()));
        let label = trim_chars(&chars_of(entries[i].1.as_str()));
        let ks = string_from_chars(kind.as_slice());
        let mut reason: Vec<char> = Vec::new();
        let bad = if !valid_kind(ks.as_str()) {
            push_str(&mut reason, "kind `");
            push_str(&mut reason, ks.as_str());
            push_str(&mut reason, "` is not audioinput/audiooutput");
            true
        } else if label.len() == 0 {
            push_str(&mut reason, "empty label");
            true
        } else {
            false
        };
        if bad {
            assert(audio_entry_error(entries@[i as int].0@, entries@[i as int].1@) == Some(reason@));
            return Err(
                AudioDeviceLoadError::Invalid {
                    index: i + 1,
                    reason: string_from_chars(reason.as_slice()),
                },
            );
        }
        out.push(
            AudioDevicePersona {
                kind: leak_string(ks),
                label: leak_string(string_from_chars(label.as_slice())),
            },
        );
        i = i + 1;
    }
    Ok(out)
}

// ───────────────────────── fonts ─────────────────────────

/// The built-in Linux standard font families.
pub open spec fn linux_standard_fonts_spec() -> Seq<Seq<char>> {
    seq![
        "DejaVu Sans"@, "DejaVu Serif"@, "DejaVu Sans Mono"@, "Liberation Sans"@,
        "Liberation Serif"@, "Liberation Mono"@, "Noto Sans"@, "Noto Serif"@, "Noto Mono"@,
        "Noto Color Emoji"@, "FreeSans"@, "FreeSerif"@, "FreeMono"@, "Cantarell"@,
        "Droid Sans Fallback"@,
    ]
}

/// The built-in Linux standard font set, in order.
pub fn linux_standard_fonts() -> (r: Vec<&'static str>)
    ensures
        r@.map_values(|f: &str| f@) == linux_standard_fonts_spec(),
{
    let r = vec![
        "DejaVu Sans", "DejaVu Serif", "DejaVu Sans Mono", "Liberation Sans", "Liberation Serif",
        "Liberation Mono", "Noto Sans", "Noto Serif", "Noto Mono", "Noto Color Emoji", "FreeSans",
        "FreeSerif", "FreeMono", "Cantarell", "Droid Sans Fallback",
    ];
    assert(r@.map_values(|f: &str| f@) =~= linux_standard_fonts_spec());
    r
}

/// One font family entry in a Tier-B font persona.
#[derive(Debug, Clone, PartialEq, Eq)]
pub struct FontPersona {
    /// Font family name.
    pub family: &'static str,
}

/// Error loading a Tier-B font persona library.
#[derive(Debug)]
pub enum FontLoadError {
    /// The file could not be read.
    Read(String),
    /// The file exceeds the size cap.
    TooLarge {
        /// The offending path.
        path: String,
        /// Actual size in bytes.
        bytes: u64,
    },
    /// The TOML did not parse.
    Parse(String),
    /// A font entry was malformed (one-based index and reason).
    Invalid {
        /// One-based entry index in the file.
        index: usize,
        /// Why it was rejected.
        reason: String,
    },
}

impl View for FontLoadError {
    type V = LoadErrorView;

    open spec fn view(&self) -> LoadErrorView {
        match self {
            FontLoadError::Read(m) => LoadErrorView::Read(m@),
            FontLoadError::TooLarge { path, bytes } => LoadErrorView::TooLarge {
                path: path@,
                bytes: *bytes,
            },
            FontLoadError::Parse(m) => LoadErrorView::Parse(m@),
            FontLoadError::Invalid { index, reason } => LoadErrorView::Invalid {
                index: *index as nat,
                reason: reason@,
            },
        }
    }
}

impl FontLoadError {
    /// Human-readable description of the error.
    pub fn message(&self) -> (s: String)
        ensures
            s@ == load_error_message("fonts"@, self@),
    {
        let parts = match self {
            FontLoadError::Read(m) => LoadErrorParts::Read(m),
            FontLoadError::TooLarge { path, bytes } => LoadErrorParts::TooLarge {
                path,
                bytes: *bytes,
            },
            FontLoadError::Parse(m) => LoadErrorParts::Parse(m),
            FontLoadError::Invalid { index, reason } => LoadErrorParts::Invalid {
                index: *index,
                reason,
            },
        };
        render_load_error("fonts", &parts)
    }
}

/// Validate parsed `[[font]]` family names in file order: the trimmed
/// families, or the first empty one (one-based) as `empty family`.
pub fn fonts_from_entries(families: &Vec<String>) -> (r: Result<Vec<FontPersona>, FontLoadError>)
    ensures
        match r {
            Ok(out) => out@.len() == families@.len() && (forall|i: int|
                0 <= i < families@.len() ==> (#[trigger] trim(families@[i]@)).len() > 0) && (forall|
                i: int|
                0 <= i < families@.len() ==> (#[trigger] out@[i]).family@ == trim(families@[i]@)),
            Err(e) => exists|k: int|
                0 <= k < families@.len() && (forall|j: int|
                    0 <= j < k ==> trim(families@[j]@).len() > 0) && #[trigger] trim(
                    families@[k]@,
                ).len() == 0 && e@ == (LoadErrorView::Invalid {
                    index: (k + 1) as nat,
                    reason: "empty family"@,
                }),
        },
{
    let mut out: Vec<FontPersona> = Vec::new();
    let mut i: usize = 0;
    while i < families.len()
        invariant
            i <= families@.len(),
            out@.len() == i,
            forall|j: int| 0 <= j < i ==> (#[trigger] trim(families@[j]@)).len() > 0,
            forall|j: int| 0 <= j < i ==> (#[trigger] out@[j]).family@ == trim(families@[j]@),
        decreases families@.len() - i,
    {
        let family = trim_chars(&chars_of(families[i].as_str()));
        if family.len() == 0 {
            return Err(
                FontLoadError::Invalid { index: i + 1, reason: crate::text::owned("empty family") },
            );
        }
        out.push(FontPersona { family: leak_string(string_from_chars(family.as_slice())) });
        i = i + 1;
    }
    Ok(out)
}

/// `{:?}` of a list of strings: `[` then each item's `Debug` form separated
/// by `, `, then `]`.
pub open spec fn debug_items(s: Seq<Seq<char>>) -> Seq<char>
    decreases s.len(),
{
    if s.len() == 0 {
        Seq::empty()
    } else if s.len() == 1 {
        str_debug(s[0])
    } else {
        debug_items(s.drop_last()) + ", "@ + str_debug(s.last())
    }
}

pub open spec fn font_families(v: Seq<FontPersona>) -> Seq<Seq<char>> {
    v.map_values(|f: FontPersona| f.family@)
}

fn push_debug_list(out: &mut Vec<char>, items: &Vec<&str>)
    ensures
        final(out)@ == old(out)@ + "["@ + debug_items(items@.map_values(|f: &str| f@)) + "]"@,
{
    let ghost s = items@.map_values(|f: &str| f@);
    push_str(out, "[");
    let ghost start = out@;
    let mut i: usize = 0;
    while i < items.len()
        invariant
            i <= items@.len(),
            s == items@.map_values(|f: &str| f@),
            out@ == start + debug_items(s.take(i as int)),
        decreases items@.len() - i,
    {
        assert(s.take(i as int + 1).drop_last() =~= s.take(i as int));
        assert(s.take(i as int + 1).last() == items@[i as int]@);
        if i > 0 {
            push_str(out, ", ");
        } else {
            assert(s.take(0) =~= Seq::<Seq<char>>::empty());
        }
        let d = debug_str(items[i]);
        push_str(out, d.as_str());
        i = i + 1;
    }
    assert(s.take(items@.len() as int) =~= s);
    push_str(out, "]");
}

/// The bundled Linux standard font set must equal the families loaded from
/// its Tier-B file, in order; otherwise the error shows both lists.
pub fn built_in_matches_file(loaded: &Vec<FontPersona>) -> (r: Result<(), String>)
    ensures
        font_families(loaded@) == linux_standard_fonts_spec() ==> r is Ok,
        font_families(loaded@) != linux_standard_fonts_spec() ==> (r matches Err(m) && m@
            == "Tier-B file and LINUX_STANDARD_FONTS drifted:\nfile: "@ + "["@ + debug_items(
            font_families(loaded@),
        ) + "]"@ + "\nconst: "@ + "["@ + debug_items(linux_standard_fonts_spec()) + "]"@),
{
    let built_in = linux_standard_fonts();
    let mut file: Vec<&str> = Vec::new();
    let mut i: usize = 0;
    while i < loaded.len()
        invariant
            i <= loaded@.len(),
            file@.len() == i,
            forall|k: int| 0 <= k < i ==> (#[trigger] file@[k])@ == loaded@[k].family@,
        decreases loaded@.len() - i,
    {
        file.push(loaded[i].family);
        i = i + 1;
    }
    let ghost fs = file@.map_values(|f: &str| f@);
    let ghost bs = built_in@.map_values(|f: &str| f@);
    assert(fs =~= font_families(loaded@));
    let mut same = file.len() == built_in.len();
    let mut j: usize = 0;
    while same && j < file.len()
        invariant
            j <= file@.len(),
            fs == file@.map_values(|f: &str| f@),
            bs == built_in@.map_values(|f: &str| f@),
            same ==> file@.len() == built_in@.len(),
            same ==> forall|k: int| 0 <= k < j ==> fs[k] == bs[k],
            !same ==> fs != bs,
        decreases file@.len() - j,
    {
        if !str_eq(file[j], built_in[j]) {
            assert(fs[j as int] != bs[j as int]);
            same = false;
            j = file.len();
        } else {
            j = j + 1;
        }
    }
    if same {
        assert(fs =~= bs);
        Ok(())
    } else {
        let mut out: Vec<char> = Vec::new();
        push_str(&mut out, "Tier-B file and LINUX_STANDARD_FONTS drifted:\nfile: ");
        push_debug_list(&mut out, &file);
        push_str(&mut out, "\nconst: ");
        push_debug_list(&mut out, &built_in);
        Err(string_from_chars(out.as_slice()))
    }
}

// ───────────────────────── voices ─────────────────────────

/// One speech-synthesis voice entry.
#[derive(Debug, Clone, PartialEq, Eq)]
pub struct VoicePersona {
    /// Voice name.
    pub name: &'static str,
    /// BCP 47 language tag.
    pub lang: &'static str,
    /// Whether this is the default voice.
    pub default: bool,
}

/// Error loading a Tier-B voice persona library.
#[derive(Debug)]
pub enum VoiceLoadError {
    /// The file could not be read.
    Read(String),
    /// The file exceeds the size cap.
    TooLarge {
        /// The offending path.
        path: String,
        /// Actual size in bytes.
        bytes: u64,
    },
    /// The TOML did not parse.
    Parse(String),
    /// A voice entry was malformed (one-based index and reason).
    Invalid {
        /// One-based entry index in the file.
        index: usize,
        /// Why it was rejected.
        reason: String,
    },
}

impl View for VoiceLoadError {
    type V = LoadErrorView;

    open spec fn view(&self) -> LoadErrorView {
        match self {
            VoiceLoadError::Read(m) => LoadErrorView::Read(m@),
            VoiceLoadError::TooLarge { path, bytes } => LoadErrorView::TooLarge {
                path: path@,
                bytes: *bytes,
            },
            VoiceLoadError::Parse(m) => LoadErrorView::Parse(m@),
            VoiceLoadError::Invalid { index, reason } => LoadErrorView::Invalid {
                index: *index as nat,
                reason: reason@,
            },
        }
    }
}

impl VoiceLoadError {
    /// Human-readable description of the error.
    pub fn message(&self) -> (s: String)
        ensures
            s@ == load_error_message("voices"@, self@),
    {
        let parts = match self {
            VoiceLoadError::Read(m) => LoadErrorParts::Read(m),
            VoiceLoadError::TooLarge { path, bytes } => LoadErrorParts::TooLarge {
                path,
                bytes: *bytes,
            },
            VoiceLoadError::Parse(m) => LoadErrorParts::Parse(m),
            VoiceLoadError::Invalid { index, reason } => LoadErrorParts::Invalid {
                index: *index,
                reason,
            },
        };
        render_load_error("voices", &parts)
    }
}

/// Why one parsed voice entry is rejected, if it is: an empty name or
/// language, or a language with a space or under two bytes.
pub open spec fn voice_entry_error(name: Seq<char>, lang: Seq<char>) -> Option<Seq<char>> {
    let n = trim(name);
    let l = trim(lang);
    if n.len() == 0 {
        Some("empty name"@)
    } else if l.len() == 0 {
        Some("empty lang"@)
    } else if l.contains(' ') || vstd::utf8::encode_utf8(l).len() < 2 {
        Some("lang `"@ + l + "` is not a plausible BCP 47 tag"@)
    } else {
        None
    }
}

/// Validate parsed `[[voice]]` entries (name, lang, default) in file order:
/// the trimmed personas, or the first malformed entry (one-based) with its
/// reason (see [`voice_entry_error`]).
pub fn voices_from_entries(entries: &Vec<(String, String, bool)>) -> (r: Result<
    Vec<VoicePersona>,
    VoiceLoadError,
>)
    ensures
        match r {
            Ok(out) => out@.len() == entries@.len() && (forall|i: int|
                0 <= i < entries@.len() ==> #[trigger] voice_entry_error(entries@[i].0@, entries@[i].1@)
                    is None) && (forall|i: int|
                0 <= i < entries@.len() ==> (#[trigger] out@[i]).name@ == trim(entries@[i].0@)
                    && out@[i].lang@ == trim(entries@[i].1@) && out@[i].default == entries@[i].2),
            Err(e) => exists|k: int|
                0 <= k < entries@.len() && (forall|j: int|
                    0 <= j < k ==> voice_entry_error(entries@[j].0@, entries@[j].1@) is None)
                    && #[trigger] voice_entry_error(entries@[k].0@, entries@[k].1@) is Some
                    && e@ == (LoadErrorView::Invalid {
                    index: (k + 1) as nat,
                    reason: voice_entry_error(entries@[k].0@, entries@[k].1@)->0,
                }),
        },
{
    let mut out: Vec<VoicePersona> = Vec::new();
    let mut i: usize = 0;
    while i < entries.len()
        invariant
            i <= entries@.len(),
            out@.len() == i,
            forall|j: int|
                0 <= j < i ==> #[trigger] voice_entry_error(entries@[j].0@, entries@[j].1@) is None,
            forall|j: int|
                0 <= j < i ==> (#[trigger] out@[j]).name@ == trim(entries@[j].0@) && out@[j].lang@
                    == trim(entries@[j].1@) && out@[j].default == entries@[j].2,
        decreases entries@.len() - i,
    {
        let name = trim_chars(&chars_of(entries[i].0.as_str()));
        let lang = trim_chars(&chars_of(entries[i].1.as_str()));
        let ls = string_from_chars(lang.as_slice());
        let mut reason: Vec<char> = Vec::new();
        let bad = if name.len() == 0 {
            push_str(&mut reason, "empty name");
            true
        } else if lang.len() == 0 {
            push_str(&mut reason, "empty lang");
            true
        } else if crate::text::find_char_exec(&lang, ' ').is_some() || ls.as_str().as_bytes().len()
            < 2 {
            proof {
                crate::text::lemma_find_char(lang@, ' ');
            }
            push_str(&mut reason, "lang `");
            push_str(&mut reason, ls.as_str());
            push_str(&mut reason, "` is not a plausible BCP 47 tag");
            true
        } else {
            proof {
                crate::text::lemma_find_char(lang@, ' ');
            }
            false
        };
        if bad {
            assert(voice_entry_error(entries@[i as int].0@, entries@[i as int].1@) == Some(reason@));
            return Err(
                VoiceLoadError::Invalid {
                    index: i + 1,
                    reason: string_from_chars(reason.as_slice()),
                },
            );
        }
        out.push(
            VoicePersona {
                name: leak_string(string_from_chars(name.as_slice())),
                lang: leak_string(ls),
                default: entries[i].2,
            },
        );
        i = i + 1;
    }
    Ok(out)
}

// ───────────────────────── screens and TCP stacks ─────────────────────────

/// Error loading a Tier-B screen persona library.
#[derive(Debug)]
pub enum ScreenLoadError {
    /// The file could not be read.
    Read(String),
    /// The file exceeds the size cap.
    TooLarge {
        /// The offending path.
        path: String,
        /// Actual size in bytes.
        bytes: u64,
    },
    /// The TOML did not parse.
    Parse(String),
    /// A screen entry was malformed (one-based index and reason).
    Invalid {
        /// One-based entry index in the file.
        index: usize,
        /// Why it was rejected.
        reason: String,
    },
}

impl View for ScreenLoadError {
    type V = LoadErrorView;

    open spec fn view(&self) -> LoadErrorView {
        match self {
            ScreenLoadError::Read(m) => LoadErrorView::Read(m@),
            ScreenLoadError::TooLarge { path, bytes } => LoadErrorView::TooLarge {
                path: path@,
                bytes: *bytes,
            },
            ScreenLoadError::Parse(m) => LoadErrorView::Parse(m@),
            ScreenLoadError::Invalid { index, reason } => LoadErrorView::Invalid {
                index: *index as nat,
                reason: reason@,
            },
        }
    }
}

impl ScreenLoadError {
    /// Human-readable description of the error.
    pub fn message(&self) -> (s: String)
        ensures
            s@ == load_error_message("screen"@, self@),
    {
        let parts = match self {
            ScreenLoadError::Read(m) => LoadErrorParts::Read(m),
            ScreenLoadError::TooLarge { path, bytes } => LoadErrorParts::TooLarge {
                path,
                bytes: *bytes,
            },
            ScreenLoadError::Parse(m) => LoadErrorParts::Parse(m),
            ScreenLoadError::Invalid { index, reason } => LoadErrorParts::Invalid {
                index: *index,
                reason,
            },
        };
        render_load_error("screen", &parts)
    }
}

/// Why one parsed screen entry (width, height, whether the device pixel
/// ratio is positive and finite, colour depth) is rejected, if it is: checked
/// in the order width, height, pixel ratio, colour depth.
pub open spec fn screen_entry_error(width: u32, height: u32, dpr_ok: bool, color_depth: u8) -> Option<
    Seq<char>,
> {
    if width == 0 {
        Some("width must be > 0"@)
    } else if height == 0 {
        Some("height must be > 0"@)
    } else if !dpr_ok {
        Some("dpr must be a positive finite number"@)
    } else if !(color_depth == 8 || color_depth == 16 || color_depth == 24 || color_depth == 30) {
        Some("color_depth "@ + dec(color_depth as nat)
            + " is not a realistic display depth (8/16/24/30)"@)
    } else {
        None
    }
}

/// Validate parsed screen entries (width, height, pixel ratio check, colour
/// depth) in file order: `Ok` when every entry passes, otherwise the first
/// malformed entry (one-based) with its reason (see [`screen_entry_error`]).
pub fn screens_check(entries: &Vec<(u32, u32, bool, u8)>) -> (r: Result<(), ScreenLoadError>)
    ensures
        match r {
            Ok(()) => forall|i: int|
                0 <= i < entries@.len() ==> #[trigger] screen_entry_error(
                    entries@[i].0,
                    entries@[i].1,
                    entries@[i].2,
                    entries@[i].3,
                ) is None,
            Err(e) => exists|k: int|
                0 <= k < entries@.len() && (forall|j: int|
                    0 <= j < k ==> screen_entry_error(
                        entries@[j].0,
                        entries@[j].1,
                        entries@[j].2,
                        entries@[j].3,
                    ) is None) && #[trigger] screen_entry_error(
                    entries@[k].0,
                    entries@[k].1,
                    entries@[k].2,
                    entries@[k].3,
                ) is Some && e@ == (LoadErrorView::Invalid {
                    index: (k + 1) as nat,
                    reason: screen_entry_error(
                        entries@[k].0,
                        entries@[k].1,
                        entries@[k].2,
                        entries@[k].3,
                    )->0,
                }),
        },
{
    let mut i: usize = 0;
    while i < entries.len()
        invariant
            i <= entries@.len(),
            forall|j: int|
                0 <= j < i ==> #[trigger] screen_entry_error(
                    entries@[j].0,
                    entries@[j].1,
                    entries@[j].2,
                    entries@[j].3,
                ) is None,
        decreases entries@.len() - i,
    {
        let (w, h, dpr_ok, depth) = entries[i];
        let mut reason: Vec<char> = Vec::new();
        let bad = if w == 0 {
            push_str(&mut reason, "width must be > 0");
            true
        } else if h == 0 {
            push_str(&mut reason, "height must be > 0");
            true
        } else if !dpr_ok {
            push_str(&mut reason, "dpr must be a positive finite number");
            true
        } else if !(depth == 8 || depth == 16 || depth == 24 || depth == 30) {
            push_str(&mut reason, "color_depth ");
            push_dec(&mut reason, depth as u64);
            push_str(&mut reason, " is not a realistic display depth (8/16/24/30)");
            true
        } else {
            false
        };
        if bad {
            assert(screen_entry_error(w, h, dpr_ok, depth) == Some(reason@));
            return Err(
                ScreenLoadError::Invalid { index: i + 1, reason: string_from_chars(reason.as_slice()) },
            );
        }
        i = i + 1;
    }
    Ok(())
}

/// The fail-closed outcomes of loading a label-keyed library.
pub enum LabeledLoadErrorView {
    Read(Seq<char>),
    TooLarge { path: Seq<char>, bytes: u64 },
    Parse(Seq<char>),
    Invalid { label: Seq<char>, reason: Seq<char> },
    DuplicateLabel(Seq<char>),
}

/// Error loading a Tier-B TCP/IP stack library. Its loader matches each
/// entry's JA4T against the operating-system TCP stack signatures of the
/// persona catalogue, which this crate does not carry, so only the error
/// type and its messages stand here.
#[derive(Debug)]
pub enum TcpStackLoadError {
    /// The file could not be read.
    Read(String),
    /// The file exceeds the size cap.
    TooLarge {
        /// The offending path.
        path: String,
        /// Actual size in bytes.
        bytes: u64,
    },
    /// The TOML did not parse.
    Parse(String),
    /// A stack entry was malformed.
    Invalid {
        /// The entry's label.
        label: String,
        /// Why it was rejected.
        reason: String,
    },
    /// The label was already loaded.
    DuplicateLabel(String),
}

impl View for TcpStackLoadError {
    type V = LabeledLoadErrorView;

    open spec fn view(&self) -> LabeledLoadErrorView {
        match self {
            TcpStackLoadError::Read(m) => LabeledLoadErrorView::Read(m@),
            TcpStackLoadError::TooLarge { path, bytes } => LabeledLoadErrorView::TooLarge {
                path: path@,
                bytes: *bytes,
            },
            TcpStackLoadError::Parse(m) => LabeledLoadErrorView::Parse(m@),
            TcpStackLoadError::Invalid { label, reason } => LabeledLoadErrorView::Invalid {
                label: label@,
                reason: reason@,
            },
            TcpStackLoadError::DuplicateLabel(l) => LabeledLoadErrorView::DuplicateLabel(l@),
        }
    }
}

impl TcpStackLoadError {
    /// Human-readable description of the error.
    pub fn message(&self) -> (s: String)
        ensures
            s@ == match self@ {
                LabeledLoadErrorView::Read(m) => "tier-b tcp-stacks: read failed: "@ + m,
                LabeledLoadErrorView::TooLarge { path, bytes } => "tier-b tcp-stacks: "@ + path
                    + " is "@ + dec(bytes as nat) + " bytes, over the 65536-byte cap"@,
                LabeledLoadErrorView::Parse(m) => "tier-b tcp-stacks: TOML parse failed: "@ + m,
                LabeledLoadErrorView::Invalid { label, reason } => "tier-b tcp-stacks: stack `"@
                    + label + "` invalid: "@ + reason,
                LabeledLoadErrorView::DuplicateLabel(l) => "tier-b tcp-stacks: duplicate label `"@
                    + l + "`"@,
            },
    {
        let mut out: Vec<char> = Vec::new();
        match self {
            TcpStackLoadError::Read(m) => {
                push_str(&mut out, "tier-b tcp-stacks: read failed: ");
                push_str(&mut out, m.as_str());
            },
            TcpStackLoadError::TooLarge { path, bytes } => {
                push_str(&mut out, "tier-b tcp-stacks: ");
                push_str(&mut out, path.as_str());
                push_str(&mut out, " is ");
                push_dec(&mut out, *bytes);
                push_str(&mut out, " bytes, over the 65536-byte cap");
            },
            TcpStackLoadError::Parse(m) => {
                push_str(&mut out, "tier-b tcp-stacks: TOML parse failed: ");
                push_str(&mut out, m.as_str());
            },
            TcpStackLoadError::Invalid { label, reason } => {
                push_str(&mut out, "tier-b tcp-stacks: stack `");
                push_str(&mut out, label.as_str());
                push_str(&mut out, "` invalid: ");
                push_str(&mut out, reason.as_str());
            },
            TcpStackLoadError::DuplicateLabel(l) => {
                push_str(&mut out, "tier-b tcp-stacks: duplicate label `");
                push_str(&mut out, l.as_str());
                push_str(&mut out, "`");
            },
        }
        string_from_chars(out.as_slice())
    }
}

// ───────────────────────── fingerprint targets ─────────────────────────

/// Error loading a Tier-B fingerprint-target library.
#[derive(Debug)]
pub enum TargetLoadError {
    /// The file could not be read.
    Read(String),
    /// The file exceeds the size cap.
    TooLarge {
        /// The offending path.
        path: String,
        /// Actual size in bytes.
        bytes: u64,
    },
    /// The TOML did not parse.
    Parse(String),
    /// A target's fields are malformed.
    Invalid {
        /// The target's label.
        label: String,
        /// Why it was rejected.
        reason: String,
    },
    /// The label is built in or was already loaded.
    DuplicateLabel(String),
}

impl View for TargetLoadError {
    type V = LabeledLoadErrorView;

    open spec fn view(&self) -> LabeledLoadErrorView {
        match self {
            TargetLoadError::Read(m) => LabeledLoadErrorView::Read(m@),
            TargetLoadError::TooLarge { path, bytes } => LabeledLoadErrorView::TooLarge {
                path: path@,
                bytes: *bytes,
            },
            TargetLoadError::Parse(m) => LabeledLoadErrorView::Parse(m@),
            TargetLoadError::Invalid { label, reason } => LabeledLoadErrorView::Invalid {
                label: label@,
                reason: reason@,
            },
            TargetLoadError::DuplicateLabel(l) => LabeledLoadErrorView::DuplicateLabel(l@),
        }
    }
}

impl TargetLoadError {
    /// Human-readable description of the error.
    pub fn message(&self) -> (s: String)
        ensures
            s@ == match self@ {
                LabeledLoadErrorView::Read(m) => "tier-b targets: read failed: "@ + m,
                LabeledLoadErrorView::TooLarge { path, bytes } => "tier-b targets: "@ + path
                    + " is "@ + dec(bytes as nat) + " bytes, over the 65536-byte cap"@,
                LabeledLoadErrorView::Parse(m) => "tier-b targets: TOML parse failed: "@ + m,
                LabeledLoadErrorView::Invalid { label, reason } => "tier-b targets: target `"@
                    + label + "` invalid: "@ + reason,
                LabeledLoadErrorView::DuplicateLabel(l) => "tier-b targets: duplicate label `"@ + l
                    + "` (already loaded or built-in)"@,
            },
    {
        let mut out: Vec<char> = Vec::new();
        match self {
            TargetLoadError::Read(m) => {
                push_str(&mut out, "tier-b targets: read failed: ");
                push_str(&mut out, m.as_str());
            },
            TargetLoadError::TooLarge { path, bytes } => {
                push_str(&mut out, "tier-b targets: ");
                push_str(&mut out, path.as_str());
                push_str(&mut out, " is ");
                push_dec(&mut out, *bytes);
                push_str(&mut out, " bytes, over the 65536-byte cap");
            },
            TargetLoadError::Parse(m) => {
                push_str(&mut out, "tier-b targets: TOML parse failed: ");
                push_str(&mut out, m.as_str());
            },
            TargetLoadError::Invalid { label, reason } => {
                push_str(&mut out, "tier-b targets: target `");
                push_str(&mut out, label.as_str());
                push_str(&mut out, "` invalid: ");
                push_str(&mut out, reason.as_str());
            },
            TargetLoadError::DuplicateLabel(l) => {
                push_str(&mut out, "tier-b targets: duplicate label `");
                push_str(&mut out, l.as_str());
                push_str(&mut out, "` (already loaded or built-in)");
            },
        }
        string_from_chars(out.as_slice())
    }
}

/// One parsed `[[target]]` entry: label, JA3, JA4, Akamai-H2, peetprint.
pub type TargetEntry = (String, String, String, String, String);

pub open spec fn entry_fields_error(e: TargetEntry) -> Option<Seq<char>> {
    target_fields_error(e.0@, e.1@, e.2@, e.3@, e.4@)
}

/// The label is a bundled one or that of an earlier entry.
pub open spec fn duplicate_label(entries: Seq<TargetEntry>, k: int) -> bool {
    (exists|b: int| 0 <= b < builtin_targets().len() && builtin_targets()[b].label == entries[k].0@)
        || (exists|j: int| 0 <= j < k && entries[j].0@ == entries[k].0@)
}

fn label_taken(builtin: &Vec<FingerprintTarget>, out: &Vec<FingerprintTarget>, label: &str) -> (r:
    bool)
    requires
        crate::tls_targets::target_views(builtin@) == builtin_targets(),
    ensures
        r == ((exists|q: int|
            0 <= q < builtin_targets().len() && #[trigger] builtin_targets()[q].label == label@) || (
        exists|q: int| 0 <= q < out@.len() && (#[trigger] out@[q])@.label == label@)),
{
    let mut b: usize = 0;
    while b < builtin.len()
        invariant
            b <= builtin@.len(),
            crate::tls_targets::target_views(builtin@) == builtin_targets(),
            forall|q: int| 0 <= q < b ==> #[trigger] builtin_targets()[q].label != label@,
        decreases builtin@.len() - b,
    {
        assert(builtin_targets()[b as int] == builtin@[b as int]@);
        if str_eq(builtin[b].label, label) {
            assert(builtin_targets()[b as int].label == label@);
            return true;
        }
        b = b + 1;
    }
    let mut j: usize = 0;
    while j < out.len()
        invariant
            j <= out@.len(),
            forall|q: int| 0 <= q < builtin_targets().len() ==> #[trigger] builtin_targets()[q].label != label@,
            forall|q: int| 0 <= q < j ==> (#[trigger] out@[q])@.label != label@,
        decreases out@.len() - j,
    {
        if str_eq(out[j].label, label) {
            assert(out@[j as int]@.label == label@);
            return true;
        }
        j = j + 1;
    }
    false
}

/// Validate parsed `[[target]]` entries in file order: each must pass the
/// shared field validator and carry a label that is neither bundled nor
/// already loaded; the first failure rejects the load.
#[verifier::spinoff_prover]
#[verifier::rlimit(40)]
pub fn targets_from_entries(entries: &Vec<TargetEntry>) -> (r: Result<
    Vec<FingerprintTarget>,
    TargetLoadError,
>)
    ensures
        match r {
            Ok(out) => out@.len() == entries@.len() && (forall|i: int|
                0 <= i < entries@.len() ==> #[trigger] entry_fields_error(entries@[i]) is None)
                && (forall|i: int| 0 <= i < entries@.len() ==> !#[trigger] duplicate_label(entries@, i))
                && (forall|i: int|
                0 <= i < entries@.len() ==> (#[trigger] out@[i])@ == (TargetView {
                    label: entries@[i].0@,
                    ja3: entries@[i].1@,
                    ja4: entries@[i].2@,
                    akamai_h2: entries@[i].3@,
                    peet_h2: entries@[i].4@,
                })),
            Err(e) => exists|k: int|
                0 <= k < entries@.len() && (forall|j: int|
                    0 <= j < k ==> #[trigger] entry_fields_error(entries@[j]) is None) && (forall|j: int|
                    0 <= j < k ==> !#[trigger] duplicate_label(entries@, j)) && #[trigger] entries@[k]
                    == entries@[k] && if entry_fields_error(entries@[k]) is Some {
                    e@ == (LabeledLoadErrorView::Invalid {
                        label: entries@[k].0@,
                        reason: entry_fields_error(entries@[k])->0,
                    })
                } else {
                    duplicate_label(entries@, k) && e@ == LabeledLoadErrorView::DuplicateLabel(
                        entries@[k].0@,
                    )
                },
        },
{
    let builtin = fingerprint_targets();
    let mut out: Vec<FingerprintTarget> = Vec::new();
    let mut i: usize = 0;
    while i < entries.len()
        invariant
            i <= entries@.len(),
            crate::tls_targets::target_views(builtin@) == builtin_targets(),
            out@.len() == i,
            forall|j: int| 0 <= j < i ==> #[trigger] entry_fields_error(entries@[j]) is None,
            forall|j: int| 0 <= j < i ==> !#[trigger] duplicate_label(entries@, j),
            forall|j: int|
                0 <= j < i ==> (#[trigger] out@[j])@ == (TargetView {
                    label: entries@[j].0@,
                    ja3: entries@[j].1@,
                    ja4: entries@[j].2@,
                    akamai_h2: entries@[j].3@,
                    peet_h2: entries@[j].4@,
                }),
        decreases entries@.len() - i,
    {
        let e = &entries[i];
        assert(entries@[i as int] == *e);
        match crate::tls_targets::validate_target_fields(
            e.0.as_str(),
            e.1.as_str(),
            e.2.as_str(),
            e.3.as_str(),
            e.4.as_str(),
        ) {
            Ok(()) => {},
            Err(reason) => {
                return Err(TargetLoadError::Invalid { label: crate::text::owned(e.0.as_str()), reason });
            },
        }
        let taken = label_taken(&builtin, &out, e.0.as_str());
        proof {
            assert((exists|q: int| 0 <= q < out@.len() && (#[trigger] out@[q])@.label == e.0@) == (
            exists|q: int| 0 <= q < i && entries@[q].0@ == entries@[i as int].0@)) by {
                if exists|q: int| 0 <= q < i && entries@[q].0@ == entries@[i as int].0@ {
                    let q = choose|q: int| 0 <= q < i && entries@[q].0@ == entries@[i as int].0@;
                    assert(out@[q]@.label == e.0@);
                }
            }
        }
        if taken {
            assert(duplicate_label(entries@, i as int));
            return Err(TargetLoadError::DuplicateLabel(crate::text::owned(e.0.as_str())));
        }
        assert(!duplicate_label(entries@, i as int));
        out.push(
            FingerprintTarget {
                label: leak_string(crate::text::owned(e.0.as_str())),
                ja3: leak_string(crate::text::owned(e.1.as_str())),
                ja4: leak_string(crate::text::owned(e.2.as_str())),
                akamai_h2: leak_string(crate::text::owned(e.3.as_str())),
                peet_h2: leak_string(crate::text::owned(e.4.as_str())),
            },
        );
        i = i + 1;
    }
    Ok(out)
}

} // verus!
