//! Session noise for high-entropy fingerprint surfaces (audio, fonts,
//! timers, hardware counters, the WebGL extension list): each surface is a
//! self-contained script, deterministic for a fixed seed, and the enabled
//! ones are assembled behind the native-function seal prelude. The canvas
//! script is built outside the library (its noise level is a float) and
//! handed in.
use vstd::prelude::*;
use crate::cluster::opt_view;
use crate::page_js::NATIVE_SEAL_PRELUDE;
use crate::text::{dec, join, push_dec, push_joined_str, push_str, string_from_chars};

verus! {

/// The AudioBuffer / AnalyserNode sample noise script, up to its seed.
pub const AUDIO_BEFORE: &'static str = r#"(function() {
    try {
        const baseSeed = "#;

/// The rest of the AudioBuffer / AnalyserNode sample noise script.
pub const AUDIO_AFTER: &'static str = r#";
        // (1) AudioBuffer.getChannelData (the CANONICAL audio fingerprint path).
        // FingerprintJS / CreepJS render an oscillator through an
        // OfflineAudioContext and read the rendered samples here; the realtime
        // AnalyserNode path below is secondary. Patched at PROTOTYPE level so every
        // buffer (offlineCtx.startRendering(), ctx.createBuffer(), new AudioBuffer)
        // is covered, with no per-instance own-property added as a tell.
        //
        // The buffer is STATIC, so the farble must be IDEMPOTENT: a WeakSet records
        // already-perturbed channel arrays, so repeated reads of the same buffer
        // return IDENTICAL samples (per-read drift would itself be a tell) while the
        // per-session baseSeed keeps the fingerprint unlinkable across sessions.
        const __audioFarbled = new WeakSet();
        function farbleStaticSamples(arr) {
            if (!arr || __audioFarbled.has(arr)) return;
            let state = baseSeed >>> 0;
            for (let i = 0; i < arr.length; i++) {
                state = (((state >>> 0) * 1664525 + 1013904223) >>> 0);
                arr[i] += ((state / 4294967296) * 2 - 1) * 0.0001;
            }
            try { __audioFarbled.add(arr); } catch (_) {}
        }
        if (typeof AudioBuffer !== 'undefined' && AudioBuffer.prototype.getChannelData) {
            const origGetChannelData = AudioBuffer.prototype.getChannelData;
            AudioBuffer.prototype.getChannelData = __seal(function(channel) {
                const data = origGetChannelData.call(this, channel);
                try { farbleStaticSamples(data); } catch (_) {}
                return data;
            }, 'getChannelData');
        }
        // (2) AnalyserNode realtime readers. These fill a caller-supplied array with
        // the CURRENT spectrum, which legitimately varies over time, so per-call
        // additive noise is correct here (no idempotency needed, the underlying
        // data is not static). Patched on the prototype so analysers from BOTH
        // ctx.createAnalyser() and `new AnalyserNode(ctx)` are covered.
        // (Byte-quantised variants getByte*Data derive 0..255 buckets where a
        // sub-LSB float delta is lost; they are a documented residual covered in
        // aggregate by the live oracle, not silently claimed here.)
        if (typeof AnalyserNode !== 'undefined' && AnalyserNode.prototype) {
            const proto = AnalyserNode.prototype;
            const wrapRealtime = function(name) {
                if (!proto[name]) return;
                const orig = proto[name];
                proto[name] = __seal(function(array) {
                    orig.call(this, array);
                    let state = (baseSeed ^ 2654435769) >>> 0;
                    for (let i = 0; i < array.length; i++) {
                        state = (((state >>> 0) * 1664525 + 1013904223) >>> 0);
                        array[i] += ((state / 4294967296) * 2 - 1) * 0.001;
                    }
                }, name);
            };
            wrapRealtime('getFloatFrequencyData');
            wrapRealtime('getFloatTimeDomainData');
        }
    } catch (_) {}
})()"#;

/// The `measureText` scaling script, up to its seed.
pub const FONT_BEFORE: &'static str = r#"(function() {
    try {
        const baseSeed = "#;

/// The rest of the `measureText` scaling script.
pub const FONT_AFTER: &'static str = r#";
        // measureText is the dominant FONT fingerprint: a script renders each
        // candidate font and compares text width against a fallback to enumerate
        // installed fonts. Scale every TextMetrics number by a per-session factor
        // very close to 1, applied UNIFORMLY. Uniform scaling PRESERVES equality
        // and ordering between fonts (k*a == k*b iff a == b), so font-presence
        // detection and text layout are unaffected, while the exact sub-pixel width
        // VECTOR, the actual cross-session fingerprint, is perturbed. O(1) per
        // call, so unlike a per-pixel readback it is not a timing tell, and it is
        // stable within a session (factor fixed by baseSeed).
        //
        // The previous defense here perturbed `FontFaceSet.forEach` enumeration,
        // which (a) only iterates page-LOADED @font-face faces, not the installed
        // system fonts a fingerprinter actually probes, and (b) made the iterated
        // count disagree with `document.fonts.size`: a guise-INTRODUCED coherence
        // tell. It was removed in favour of the measureText defense above.
        const mtScale = 1 + (((((baseSeed >>> 8) & 0xffff) / 65535) - 0.5) * 0.0006);
        function patchMeasureText(proto) {
            if (!proto || !proto.measureText) return;
            const origMeasureText = proto.measureText;
            proto.measureText = __seal(function(text) {
                const m = origMeasureText.call(this, text);
                try {
                    return new Proxy(m, { get(t, prop) {
                        const v = Reflect.get(t, prop, t);
                        return (typeof v === 'number') ? v * mtScale : v;
                    } });
                } catch (_) { return m; }
            }, 'measureText');
        }
        patchMeasureText(typeof CanvasRenderingContext2D !== 'undefined' ? CanvasRenderingContext2D.prototype : null);
        patchMeasureText(typeof OffscreenCanvasRenderingContext2D !== 'undefined' ? OffscreenCanvasRenderingContext2D.prototype : null);
    } catch (_) {}
})()"#;

/// The `performance.now` jitter script, up to its seed.
pub const PERFORMANCE_BEFORE: &'static str = r#"(function() {
    try {
        let state = "#;

/// The rest of the `performance.now` jitter script.
pub const PERFORMANCE_AFTER: &'static str = r#";
        const nextNoise = function() {
            state = (((state >>> 0) * 1664525 + 1013904223) >>> 0);
            return (state / 4294967296) * 0.05;
        };
        const target = typeof Performance !== 'undefined' && Performance.prototype
            ? Performance.prototype
            : performance;
        const origNow = target.now;
        target.now = __seal(function() {
            const real = origNow.call(this);
            return Math.round(real * 10) / 10 + nextNoise();
        }, 'now');
    } catch (_) {}
})()"#;

/// The `hardwareConcurrency` getter script, up to its cores.
pub const HARDWARE_CONCURRENCY_BEFORE: &'static str = r#"(function() {
    try {
        Object.defineProperty(Navigator.prototype, 'hardwareConcurrency', {
            get: __seal(() => "#;

/// The rest of the `hardwareConcurrency` getter script.
pub const HARDWARE_CONCURRENCY_AFTER: &'static str = r#", 'get hardwareConcurrency'),
            configurable: true,
        });
    } catch (_) {}
})()"#;

/// The `deviceMemory` getter script, up to its mem.
pub const DEVICE_MEMORY_BEFORE: &'static str = r#"(function() {
    try {
        Object.defineProperty(Navigator.prototype, 'deviceMemory', {
            get: __seal(() => "#;

/// The rest of the `deviceMemory` getter script.
pub const DEVICE_MEMORY_AFTER: &'static str = r#", 'get deviceMemory'),
            configurable: true,
        });
    } catch (_) {}
})()"#;

/// The WebGL shape script: it adds `WEBGL_debug_renderer_info` to the
/// supported extensions and leaves shader precision native.
pub const WEBGL_SHAPE: &'static str = r#"(function() {
    try {
        function patch(proto) {
            if (!proto) return;
            if (proto.getSupportedExtensions) {
                const origExtensions = proto.getSupportedExtensions;
                proto.getSupportedExtensions = __seal(function() {
                    const list = origExtensions.call(this) || [];
                    if (!list.includes('WEBGL_debug_renderer_info')) {
                        list.push('WEBGL_debug_renderer_info');
                    }
                    return list;
                }, 'getSupportedExtensions');
            }
        }
        if (typeof WebGLRenderingContext !== 'undefined') patch(WebGLRenderingContext.prototype);
        if (typeof WebGL2RenderingContext !== 'undefined') patch(WebGL2RenderingContext.prototype);
    } catch (_) {}
})()"#;

/// A script with one number inserted.
pub open spec fn with_number(before: Seq<char>, n: nat, after: Seq<char>) -> Seq<char> {
    before + dec(n) + after
}

fn number_script(before: &str, n: u64, after: &str) -> (r: String)
    ensures
        r@ == with_number(before@, n as nat, after@),
{
    let mut out: Vec<char> = Vec::new();
    push_str(&mut out, before);
    push_dec(&mut out, n);
    push_str(&mut out, after);
    string_from_chars(out.as_slice())
}

/// The AudioBuffer / AnalyserNode noise script for a session seed.
pub fn audio_noise_js(seed: u32) -> (r: String)
    ensures
        r@ == with_number(AUDIO_BEFORE@, seed as nat, AUDIO_AFTER@),
{
    number_script(AUDIO_BEFORE, seed as u64, AUDIO_AFTER)
}

/// The `measureText` scaling script for a session seed.
pub fn font_noise_js(seed: u32) -> (r: String)
    ensures
        r@ == with_number(FONT_BEFORE@, seed as nat, FONT_AFTER@),
{
    number_script(FONT_BEFORE, seed as u64, FONT_AFTER)
}

/// The `performance.now` jitter script for a session seed.
pub fn performance_noise_js(seed: u32) -> (r: String)
    ensures
        r@ == with_number(PERFORMANCE_BEFORE@, seed as nat, PERFORMANCE_AFTER@),
{
    number_script(PERFORMANCE_BEFORE, seed as u64, PERFORMANCE_AFTER)
}

/// The `hardwareConcurrency` getter script.
pub fn hardware_concurrency_js(cores: u8) -> (r: String)
    ensures
        r@ == with_number(HARDWARE_CONCURRENCY_BEFORE@, cores as nat, HARDWARE_CONCURRENCY_AFTER@),
{
    number_script(HARDWARE_CONCURRENCY_BEFORE, cores as u64, HARDWARE_CONCURRENCY_AFTER)
}

/// The `deviceMemory` getter script.
pub fn device_memory_js(mem: u8) -> (r: String)
    ensures
        r@ == with_number(DEVICE_MEMORY_BEFORE@, mem as nat, DEVICE_MEMORY_AFTER@),
{
    number_script(DEVICE_MEMORY_BEFORE, mem as u64, DEVICE_MEMORY_AFTER)
}

/// The WebGL shape script.
pub fn webgl_shape_js() -> (r: String)
    ensures
        r@ == WEBGL_SHAPE@,
{
    crate::text::owned(WEBGL_SHAPE)
}

/// The low 32 bits of a session seed, which drive the injected scripts.
pub fn seed32(seed: u64) -> (r: u32)
    ensures
        r == seed % 0x1_0000_0000,
{
    (seed % 0x1_0000_0000) as u32
}

/// A configured count clamped to `1..=64`.
pub open spec fn clamp_count(n: u8) -> u8 {
    if n < 1 {
        1
    } else if n > 64 {
        64
    } else {
        n
    }
}

/// The non-canvas surfaces a session patches, and the counts it pins.
#[derive(Debug, Clone, Copy, PartialEq, Eq)]
pub struct EvasionSurfaces {
    /// Add noise to AudioContext analyser fingerprints.
    pub audio_noise: bool,
    /// Scale font measurements.
    pub font_noise: bool,
    /// Add noise to `performance.now()`.
    pub performance_noise: bool,
    /// Override hardware concurrency.
    pub hardware_concurrency: Option<u8>,
    /// Override device memory in GB.
    pub device_memory: Option<u8>,
    /// Normalize the WebGL extension list.
    pub webgl_override: bool,
}

/// `v` with `s` appended when `on`.
pub open spec fn push_if(v: Seq<Seq<char>>, on: bool, s: Seq<char>) -> Seq<Seq<char>> {
    if on {
        v.push(s)
    } else {
        v
    }
}

/// The audio noise script for a seed.
pub open spec fn audio_script(seed: u32) -> Seq<char> {
    with_number(AUDIO_BEFORE@, seed as nat, AUDIO_AFTER@)
}

/// The font noise script for a seed.
pub open spec fn font_script(seed: u32) -> Seq<char> {
    with_number(FONT_BEFORE@, seed as nat, FONT_AFTER@)
}

/// The timer noise script for a seed.
pub open spec fn performance_script(seed: u32) -> Seq<char> {
    with_number(PERFORMANCE_BEFORE@, seed as nat, PERFORMANCE_AFTER@)
}

/// The hardware concurrency script for a configured count (clamped).
pub open spec fn concurrency_script(cores: u8) -> Seq<char> {
    with_number(HARDWARE_CONCURRENCY_BEFORE@, clamp_count(cores) as nat, HARDWARE_CONCURRENCY_AFTER@)
}

/// The device memory script for a configured size (clamped).
pub open spec fn memory_script(mem: u8) -> Seq<char> {
    with_number(DEVICE_MEMORY_BEFORE@, clamp_count(mem) as nat, DEVICE_MEMORY_AFTER@)
}

/// The enabled scripts, in order: canvas (when given), audio, font,
/// performance, hardware concurrency and device memory (clamped to
/// `1..=64`), WebGL.
pub open spec fn evasion_scripts(seed: u32, canvas: Option<Seq<char>>, s: EvasionSurfaces) -> Seq<Seq<char>> {
    let v0 = match canvas {
        Some(c) => seq![c],
        None => Seq::empty(),
    };
    let v1 = push_if(v0, s.audio_noise, audio_script(seed));
    let v2 = push_if(v1, s.font_noise, font_script(seed));
    let v3 = push_if(v2, s.performance_noise, performance_script(seed));
    let v4 = match s.hardware_concurrency {
        Some(c) => v3.push(concurrency_script(c)),
        None => v3,
    };
    let v5 = match s.device_memory {
        Some(m) => v4.push(memory_script(m)),
        None => v4,
    };
    push_if(v5, s.webgl_override, WEBGL_SHAPE@)
}

/// The assembled evasion script: empty when no surface is enabled, else the
/// seal prelude, a newline, the scripts separated by `;` and a newline, and
/// a closing `;` and newline (adjacent IIFEs must not be joined by a bare
/// newline).
pub open spec fn evasion_js_spec(scripts: Seq<Seq<char>>) -> Seq<char> {
    if scripts.len() == 0 {
        Seq::empty()
    } else {
        NATIVE_SEAL_PRELUDE@ + "\n"@ + join(scripts, ";\n"@) + ";\n"@
    }
}

fn push_script(scripts: &mut Vec<String>, s: String)
    ensures
        final(scripts)@.map_values(|x: String| x@) == old(scripts)@.map_values(|x: String| x@).push(s@),
{
    let ghost before = scripts@;
    scripts.push(s);
    assert(scripts@.map_values(|x: String| x@) =~= before.map_values(|x: String| x@).push(s@));
}

fn clamp_exec(n: u8) -> (r: u8)
    ensures
        r == clamp_count(n),
{
    if n < 1 {
        1
    } else if n > 64 {
        64
    } else {
        n
    }
}

fn evasion_script_list(seed: u32, canvas: Option<String>, surfaces: &EvasionSurfaces) -> (r: Vec<
    String,
>)
    ensures
        r@.map_values(|x: String| x@) == evasion_scripts(seed, opt_view(canvas), *surfaces),
{
    let ghost cv = opt_view(canvas);
    let mut scripts: Vec<String> = Vec::new();
    if let Some(c) = canvas {
        push_script(&mut scripts, c);
    }
    let ghost s0 = scripts@.map_values(|x: String| x@);
    if surfaces.audio_noise {
        push_script(&mut scripts, audio_noise_js(seed));
    }
    if surfaces.font_noise {
        push_script(&mut scripts, font_noise_js(seed));
    }
    if surfaces.performance_noise {
        push_script(&mut scripts, performance_noise_js(seed));
    }
    if let Some(cores) = surfaces.hardware_concurrency {
        push_script(&mut scripts, hardware_concurrency_js(clamp_exec(cores)));
    }
    if let Some(mem) = surfaces.device_memory {
        push_script(&mut scripts, device_memory_js(clamp_exec(mem)));
    }
    if surfaces.webgl_override {
        push_script(&mut scripts, webgl_shape_js());
    }
    assert(s0 =~= (match cv {
        Some(c) => seq![c],
        None => Seq::empty(),
    }));
    scripts
}

fn assemble_scripts(scripts: &Vec<String>) -> (r: String)
    ensures
        r@ == evasion_js_spec(scripts@.map_values(|x: String| x@)),
{
    if scripts.len() == 0 {
        return String::new();
    }
    let mut parts: Vec<Vec<char>> = Vec::new();
    let mut i: usize = 0;
    while i < scripts.len()
        invariant
            i <= scripts@.len(),
            parts@.len() == i,
            forall|q: int| 0 <= q < i ==> #[trigger] parts@[q]@ == scripts@[q]@,
        decreases scripts@.len() - i,
    {
        parts.push(crate::text::chars_of(scripts[i].as_str()));
        i = i + 1;
    }
    assert(crate::text::views(parts@) =~= scripts@.map_values(|x: String| x@));
    let mut out: Vec<char> = Vec::new();
    push_str(&mut out, NATIVE_SEAL_PRELUDE);
    push_str(&mut out, "\n");
    push_joined_str(&mut out, &parts, ";\n");
    push_str(&mut out, ";\n");
    string_from_chars(out.as_slice())
}

/// Assemble the evasion script for a session seed (its low 32 bits, see
/// [`seed32`]), the canvas script when canvas noise is on, and the other
/// surfaces (see [`evasion_scripts`] and [`evasion_js_spec`]).
pub fn evasion_js_source(seed: u32, canvas: Option<String>, surfaces: &EvasionSurfaces) -> (r: String)
    ensures
        r@ == evasion_js_spec(evasion_scripts(seed, opt_view(canvas), *surfaces)),
{
    let scripts = evasion_script_list(seed, canvas, surfaces);
    assemble_scripts(&scripts)
}

} // verus!
