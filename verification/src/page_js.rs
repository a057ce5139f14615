//! The in-page override scripts that pin a persona's fingerprint surfaces:
//! the shared native-function seal prelude, the locale / timezone spoof, and
//! the per-profile override script assembled from a [`ProfileOverrides`].
use vstd::prelude::*;
use crate::hints::{
    brands_json, client_hints_from_overrides, client_hints_spec, json_array, json_quote, json_string,
    ClientHints, HintsView,
};
use crate::persona::{app_version_spec, firefox_app_version, firefox_oscpu, oscpu_spec, OverridesView, ProfileOverrides};
use crate::text::{
    contains, contains_str, dec, fill, has_block, lemma_fill_contains, fill_template, join, owned, push_dec, push_joined, push_str,
    string_from_chars, views,
};

verus! {

/// Defines `__native` and `__seal`, which register an override so that its
/// `toString` reports native code; every override script starts with it.
pub const NATIVE_SEAL_PRELUDE: &'static str = r#"
    const __native = new WeakMap();
    const __seal = (fn, label) => { try { __native.set(fn, label || (fn && fn.name) || ''); } catch (_) {} return fn; };
    try {
        const __prevToString = Function.prototype.toString;
        const __tsProxy = new Proxy(__prevToString, {
            apply(target, thisArg, args) {
                try {
                    if (__native.has(thisArg)) {
                        // Strip a get/set prefix: Firefox names a native accessor
                        // by its bare property, not by the JS getter name.
                        var __n = String(__native.get(thisArg)).replace(/^(?:get|set) /, '');
                        return 'function ' + __n + '() {\n    [native code]\n}';
                    }
                } catch (_) {}
                if (thisArg === __tsProxy) { return 'function toString() {\n    [native code]\n}'; }
                return Reflect.apply(target, thisArg, args);
            },
        });
        Function.prototype.toString = __tsProxy;
        __native.set(__tsProxy, 'toString');
    } catch (_) {}
"#;

/// The locale / timezone spoof, up to the JSON-quoted locale.
pub const INTL_BEFORE_LOCALE: &'static str = r#"
    /* Intl + Date (R056): pin the persona's LOCALE and TIMEZONE so the browser
       stops leaking the HOST locale/zone. Locale + zone are injected into the REAL
       Intl constructors (format AND resolvedOptions genuinely use them), and every
       offset/zone-name comes from the browser's OWN ICU for the target zone
       (DST-correct for every date), so resolvedOptions / format / getTimezoneOffset
       / the Date+Number+String locale methods are mutually consistent (a partial
       spoof would itself be a tell). */
    try {
        const __tzseal = (typeof __seal === 'function') ? __seal : (f) => f;
        const __LOCALE = "#;

/// The spoof text between the locale and the timezone.
pub const INTL_BEFORE_TIMEZONE: &'static str = r#";
        const __TZ = "#;

/// The rest of the spoof after the timezone.
pub const INTL_END: &'static str = r#";
        const __OrigDTF = Intl.DateTimeFormat;
        const __OrigDate = Date;
        const __WD = ['Sun','Mon','Tue','Wed','Thu','Fri','Sat'];
        const __MO = ['Jan','Feb','Mar','Apr','May','Jun','Jul','Aug','Sep','Oct','Nov','Dec'];
        const __wallFmt = new __OrigDTF('en-US', { timeZone: __TZ, hourCycle: 'h23',
            year: 'numeric', month: '2-digit', day: '2-digit',
            hour: '2-digit', minute: '2-digit', second: '2-digit' });
        const __nameFmt = new __OrigDTF('en-US', { timeZone: __TZ, timeZoneName: 'long', year: 'numeric' });
        const __wallParts = (date) => {
            const o = {};
            for (const p of __wallFmt.formatToParts(date)) if (p.type !== 'literal') o[p.type] = p.value;
            return o;
        };
        // getTimezoneOffset() === (UTC - local) in minutes (positive west of UTC).
        const __offMin = (date) => {
            const t = date.getTime();
            if (!isFinite(t)) return NaN;
            const p = __wallParts(date);
            const h = (p.hour === '24') ? 0 : +p.hour;
            const asUTC = __OrigDate.UTC(+p.year, +p.month - 1, +p.day, h, +p.minute, +p.second);
            return Math.round((t - asUTC) / 60000);
        };
        const __zoneLong = (date) => {
            try { for (const p of __nameFmt.formatToParts(date)) if (p.type === 'timeZoneName') return p.value; } catch (_) {}
            return '';
        };
        const __pad = (n) => String(Math.abs(n | 0)).padStart(2, '0');
        Date.prototype.getTimezoneOffset = __tzseal(function getTimezoneOffset() { return __offMin(this); }, 'getTimezoneOffset');
        const __mkString = (date, withDate, withTime) => {
            const t = date.getTime();
            if (!isFinite(t)) return 'Invalid Date';
            const off = __offMin(date);
            const w = new __OrigDate(t - off * 60000); // local wall clock, read via UTC getters
            const datePart = __WD[w.getUTCDay()] + ' ' + __MO[w.getUTCMonth()] + ' ' + __pad(w.getUTCDate()) + ' ' + w.getUTCFullYear();
            const sign = off <= 0 ? '+' : '-';
            const gmt = 'GMT' + sign + __pad(Math.floor(Math.abs(off) / 60)) + __pad(Math.abs(off) % 60);
            const name = __zoneLong(date);
            const timePart = __pad(w.getUTCHours()) + ':' + __pad(w.getUTCMinutes()) + ':' + __pad(w.getUTCSeconds())
                + ' ' + gmt + (name ? ' (' + name + ')' : '');
            if (withDate && withTime) return datePart + ' ' + timePart;
            if (withDate) return datePart;
            return timePart;
        };
        Date.prototype.toString = __tzseal(function toString() { return __mkString(this, true, true); }, 'toString');
        Date.prototype.toDateString = __tzseal(function toDateString() { return __mkString(this, true, false); }, 'toDateString');
        Date.prototype.toTimeString = __tzseal(function toTimeString() { return __mkString(this, false, true); }, 'toTimeString');
        // Date.toLocale*: default BOTH the persona locale and zone when unspecified.
        const __dateLocaleWrap = (name) => {
            const orig = Date.prototype[name];
            if (typeof orig !== 'function') return;
            Date.prototype[name] = __tzseal(function () {
                const args = Array.prototype.slice.call(arguments);
                if (args[0] === undefined) args[0] = __LOCALE;
                const opts = Object.assign({}, args[1] || {});
                if (!opts.timeZone) opts.timeZone = __TZ;
                return orig.call(this, args[0], opts);
            }, name);
        };
        __dateLocaleWrap('toLocaleString');
        __dateLocaleWrap('toLocaleDateString');
        __dateLocaleWrap('toLocaleTimeString');
        // Number.toLocaleString + String.localeCompare default the persona locale.
        try {
            const __numOrig = Number.prototype.toLocaleString;
            Number.prototype.toLocaleString = __tzseal(function toLocaleString() {
                const args = Array.prototype.slice.call(arguments);
                if (args[0] === undefined) args[0] = __LOCALE;
                return __numOrig.apply(this, args);
            }, 'toLocaleString');
        } catch (_) {}
        try {
            const __scOrig = String.prototype.localeCompare;
            String.prototype.localeCompare = __tzseal(function localeCompare() {
                const args = Array.prototype.slice.call(arguments);
                if (args[1] === undefined) args[1] = __LOCALE;
                return __scOrig.apply(this, args);
            }, 'localeCompare');
        } catch (_) {}
        // Intl.DateTimeFormat: inject the persona LOCALE and ZONE into the REAL
        // instance so format() AND resolvedOptions() genuinely use them.
        const __DTF = function DateTimeFormat() {
            const args = Array.prototype.slice.call(arguments);
            if (args.length === 0 || args[0] === undefined) args[0] = __LOCALE;
            if (!(args[1] && args[1].timeZone)) {
                args[1] = Object.assign({}, args[1] || {});
                args[1].timeZone = __TZ;
            }
            return Reflect.construct(__OrigDTF, args, new.target || __DTF);
        };
        __DTF.prototype = __OrigDTF.prototype;
        try {
            __DTF.supportedLocalesOf = __tzseal(function supportedLocalesOf() {
                return __OrigDTF.supportedLocalesOf.apply(__OrigDTF, arguments);
            }, 'supportedLocalesOf');
        } catch (_) {}
        Intl.DateTimeFormat = __tzseal(__DTF, 'DateTimeFormat');
        // Repoint the (shared) prototype's `constructor` at the wrapper so
        // `new Intl.DateTimeFormat().constructor === Intl.DateTimeFormat` and
        // `Intl.DateTimeFormat.prototype.constructor === Intl.DateTimeFormat` hold,
        // exactly as in a real engine. Without this the constructor still pointed
        // at the captured original, a trivial one-line tampering tell. The native
        // descriptor (writable, non-enumerable, configurable) is preserved.
        try { Object.defineProperty(__DTF.prototype, 'constructor', { value: __DTF, writable: true, enumerable: false, configurable: true }); } catch (_) {}
        // The other Intl constructors: default the persona LOCALE when unspecified.
        const __wrapIntlLocale = (ctorName) => {
            const Orig = Intl[ctorName];
            if (typeof Orig !== 'function') return;
            const Wrapped = function () {
                const args = Array.prototype.slice.call(arguments);
                if (args.length === 0 || args[0] === undefined) args[0] = __LOCALE;
                return Reflect.construct(Orig, args, new.target || Wrapped);
            };
            Wrapped.prototype = Orig.prototype;
            try {
                Wrapped.supportedLocalesOf = __tzseal(function supportedLocalesOf() {
                    return Orig.supportedLocalesOf.apply(Orig, arguments);
                }, 'supportedLocalesOf');
            } catch (_) {}
            Intl[ctorName] = __tzseal(Wrapped, ctorName);
            // Keep `Intl[ctorName].prototype.constructor === Intl[ctorName]` (real-
            // engine invariant); otherwise it still points at the captured original
            //: a trivial constructor-identity tell.
            try { Object.defineProperty(Wrapped.prototype, 'constructor', { value: Wrapped, writable: true, enumerable: false, configurable: true }); } catch (_) {}
        };
        ['NumberFormat', 'Collator', 'RelativeTimeFormat', 'PluralRules', 'ListFormat'].forEach(__wrapIntlLocale);
    } catch (_) {}
"#;

/// Chromium `navigator.deviceMemory` getter, up to the value.
pub const DEVICE_MEMORY_BEFORE: &'static str = r#"        Object.defineProperty(Navigator.prototype, 'deviceMemory', {
            get: __seal(() => "#;

pub const DEVICE_MEMORY_AFTER: &'static str = r#", 'get deviceMemory'),
            enumerable: true,
            configurable: true,
        });
"#;

/// Chromium personas carry no `navigator.oscpu`.
pub const OSCPU_DELETE: &'static str = r#"        try { delete Navigator.prototype.oscpu; } catch (_) {}
"#;

/// Firefox `navigator.oscpu` getter, up to the JSON value.
pub const OSCPU_BEFORE: &'static str = r#"        try { Object.defineProperty(Navigator.prototype, 'oscpu', {
            get: __seal(() => "#;

pub const OSCPU_AFTER: &'static str = r#", 'get oscpu'),
            configurable: true,
        }); } catch (_) {}
"#;

/// WebGL `getParameter` override, up to the renderer.
pub const WEBGL_BEFORE_RENDERER: &'static str = r#"    try {
        const REND_VAL = "#;

pub const WEBGL_BEFORE_VENDOR: &'static str = r#";
        const VEND_VAL = "#;

pub const WEBGL_END: &'static str = r#";
        if (REND_VAL) {
            const UNMASKED_VENDOR = 0x9245, UNMASKED_RENDERER = 0x9246;
            const GL_RENDERER = 0x1F01;
            const wrap = (proto) => {
                const orig = proto.getParameter;
                proto.getParameter = __seal(function getParameter(p) {
                    if (p === UNMASKED_VENDOR) return VEND_VAL;
                    if (p === UNMASKED_RENDERER || p === GL_RENDERER) return REND_VAL;
                    return orig.call(this, p);
                }, 'getParameter');
            };
            if (typeof WebGLRenderingContext !== 'undefined') wrap(WebGLRenderingContext.prototype);
            if (typeof WebGL2RenderingContext !== 'undefined') wrap(WebGL2RenderingContext.prototype);
        }
    } catch (_) {}
"#;

/// Suppresses the host `speechSynthesis` voice list.
pub const SPEECH_SUPPRESS: &'static str = r#"        try { var __sp = window.speechSynthesis; if (__sp) { var __sp_p = Object.getPrototypeOf(__sp); Object.defineProperty(__sp_p, 'getVoices', { value: __seal(function getVoices(){ return []; }, 'getVoices'), writable: true, configurable: true }); } } catch (_) {}
"#;

// The fixed text of the profile override script around its inserted values,
// each constant named after the value that follows it.
pub const JS_BEFORE_SEAL_PRELUDE: &'static str = r#"
(() => {"#;

pub const JS_BEFORE_UA: &'static str = r#"
    /* User-Agent + appVersion. userAgent is pinned to the persona; appVersion is
       the FROZEN OS-family form a real Firefox actually returns ("5.0 (X11)" /
       "5.0 (Windows)" / "5.0 (Macintosh)"). NOT userAgent-minus-"Mozilla/". The
       old full-UA form was a value no real Firefox reports (verified live), and it
       contradicted the bare engine AND the worker realm (which reports the frozen
       native form). Both are derived from the persona so a cross-engine detector
       sees a self-consistent, real-Firefox-shaped pair. */
    try {
        Object.defineProperty(Navigator.prototype, 'userAgent', {
            get: __seal(() => "#;

pub const JS_BEFORE_APP_VERSION: &'static str = r#", 'get userAgent'),
            configurable: true,
        });
        Object.defineProperty(Navigator.prototype, 'appVersion', {
            get: __seal(() => "#;

pub const JS_BEFORE_PLATFORM: &'static str = r#", 'get appVersion'),
            configurable: true,
        });
    } catch (_) {}

    /* navigator.platform - must agree with UA. Detectors flag
       (UA: Windows, platform: MacIntel) as obvious spoofing. */
    try {
        Object.defineProperty(Navigator.prototype, 'platform', {
            get: __seal(() => "#;

pub const JS_BEFORE_NAVIGATOR_VENDOR: &'static str = r#", 'get platform'),
            configurable: true,
        });
    } catch (_) {}

    /* navigator.vendor must match the browser engine family. */
    try {
        Object.defineProperty(Navigator.prototype, 'vendor', {
            get: __seal(() => "#;

pub const JS_BEFORE_LANGS: &'static str = r#", 'get vendor'),
            configurable: true,
        });
    } catch (_) {}

    /* navigator.languages (plural) AND navigator.language (singular). Pinning
       only the plural is a tell: FingerprintJS/CreepJS cross-check that
       navigator.language === navigator.languages[0], so the singular must be
       overridden to the same primary tag or it leaks the host language. */
    try {
        Object.defineProperty(Navigator.prototype, 'languages', {
            get: __seal(() => "#;

pub const JS_BEFORE_LANG0: &'static str = r#", 'get languages'),
            configurable: true,
        });
        Object.defineProperty(Navigator.prototype, 'language', {
            get: __seal(() => "#;

pub const JS_BEFORE_BRANDS: &'static str = r#", 'get language'),
            configurable: true,
        });
    } catch (_) {}

    /* userAgentData - Chromium-only. Skip when brands is empty
       (Firefox profile). */
    try {
        const brands = "#;

pub const JS_BEFORE_MOBILE: &'static str = r#";
        if (brands.length > 0) {
            Object.defineProperty(Navigator.prototype, 'userAgentData', {
                get: __seal(() => ({
                    brands,
                    mobile: "#;

pub const JS_BEFORE_PLATFORM_2: &'static str = r#",
                    platform: "#;

pub const JS_BEFORE_FULL_VERSION_LIST: &'static str = r#",
                    getHighEntropyValues: __seal((hints) => Promise.resolve({
                        brands,
                        fullVersionList: "#;

pub const JS_BEFORE_MOBILE_2: &'static str = r#",
                        mobile: "#;

pub const JS_BEFORE_CLIENT_HINT_PLATFORM: &'static str = r#",
                        platform: "#;

pub const JS_BEFORE_PLATFORM_VERSION: &'static str = r#",
                        platformVersion: "#;

pub const JS_BEFORE_ARCHITECTURE: &'static str = r#",
                        architecture: "#;

pub const JS_BEFORE_BITNESS: &'static str = r#",
                        bitness: "#;

pub const JS_BEFORE_MODEL: &'static str = r#",
                        model: "#;

pub const JS_BEFORE_UA_FULL_VERSION: &'static str = r#",
                        uaFullVersion: "#;

pub const JS_BEFORE_WOW64: &'static str = r#",
                        wow64: "#;

pub const JS_BEFORE_MOBILE_3: &'static str = r#",
                    }), 'getHighEntropyValues'),
                    toJSON: __seal(() => ({ brands, mobile: "#;

pub const JS_BEFORE_CLIENT_HINT_PLATFORM_2: &'static str = r#", platform: "#;

pub const JS_BEFORE_HWC: &'static str = r#" }), 'toJSON'),
                }), 'get userAgentData'),
                enumerable: true,
                configurable: true,
            });
        }
    } catch (_) {}

    /* hardwareConcurrency / deviceMemory - coherent with the
       claimed device class. */
    try {
        Object.defineProperty(Navigator.prototype, 'hardwareConcurrency', {
            get: __seal(() => "#;

pub const JS_BEFORE_DEVICE_MEMORY_BLOCK: &'static str = r#", 'get hardwareConcurrency'),
            configurable: true,
        });
"#;

pub const JS_BEFORE_MAX_TOUCH_POINTS: &'static str = r#"    } catch (_) {}

    /* screen.* (width, height, availWidth, availHeight, colorDepth, pixelDepth)
       are deliberately NOT
       overridden. A real browser's screen dimensions AGREE with the CSS
       matchMedia layer (the `device-width`/`device-height` media features), but
       overriding the JS getters does NOT change what matchMedia reports, so a
       claimed screen size that differs from the real rendering surface is an
       INCONSISTENCY a detector flags (incolumitas MQ_SCREEN). A bare Firefox
       passes those media-query checks; leaving the real, self-consistent screen
       is strictly more coherent than a pinned-but-inconsistent one. */

    /* Window dimensions (inner/outer Width/Height, screenX/screenY) are
       deliberately NOT overridden (for the SAME reason as screen.* above).
       Verified live (tests/surface_truth_live.rs dump_geometry_truth): pinning
       window.innerWidth to the persona screen_width while the real window stays
       the screen-fit size produced a TRIPLE contradiction, innerWidth !=
       document.documentElement.clientWidth (the real layout viewport),
       matchMedia('(width)') reporting the real size not the persona, and
       innerWidth > screen.width (a window wider than its own screen). A
       JS getter cannot move the real layout/matchMedia/screen surfaces, so any
       pinned value that exceeds or disagrees with them is a trivially-detected
       tell. Leaving the real, self-consistent geometry (identical to a bare
       Firefox, which passes the matchMedia/clientWidth checks) is strictly more
       coherent. maxTouchPoints is a genuine capability signal (not a dimension
       contradicted by any layout surface) and is still pinned to the persona. */
    try {
        Object.defineProperty(Navigator.prototype, 'maxTouchPoints', {
            get: __seal(() => "#;

pub const JS_BEFORE_OSCPU_BLOCK: &'static str = r#", 'get maxTouchPoints'),
            configurable: true,
        });
    } catch (_) {}

    /* navigator.oscpu - Firefox-only OS-stamped string; must agree with the UA's
       OS token (cross-OS personas otherwise leak the host OS) and be ABSENT for a
       Chromium persona (Chrome has no oscpu). See the oscpu_block above. */
"#;

pub const JS_BEFORE_WEBGL_GETTER_BLOCK: &'static str = r#"

"#;

pub const JS_END: &'static str = r#"})();
"#;

/// JSON for a list of strings (`serde_json`'s compact array form).
pub open spec fn json_string_list(s: Seq<Seq<char>>) -> Seq<char> {
    "["@ + join(s.map_values(|x: Seq<char>| json_quote(x)), ","@) + "]"@
}

/// `true` / `false`.
pub open spec fn bool_text(b: bool) -> Seq<char> {
    if b {
        "true"@
    } else {
        "false"@
    }
}

/// The persona's primary language: its first language, else `en-US`.
pub open spec fn primary_language(o: OverridesView) -> Seq<char> {
    if o.languages.len() > 0 {
        o.languages[0]
    } else {
        "en-US"@
    }
}

/// A high-entropy Client Hint text as JSON, or `""` without Client Hints.
pub open spec fn hint_text_json(h: Option<HintsView>, f: spec_fn(HintsView) -> Seq<char>) -> Seq<char> {
    match h {
        Some(x) => json_quote(f(x)),
        None => "\"\""@,
    }
}

/// The locale / timezone spoof for a primary locale and an IANA timezone:
/// the fixed spoof text with both inserted as JSON strings.
pub open spec fn intl_spoof_spec(locale: Seq<char>, timezone: Seq<char>) -> Seq<char> {
    INTL_BEFORE_LOCALE@ + json_quote(locale) + INTL_BEFORE_TIMEZONE@ + json_quote(timezone)
        + INTL_END@
}

/// `navigator.deviceMemory` exists only on Chromium, so only a Chromium
/// persona gets a getter for it.
pub open spec fn device_memory_block(device_memory: u32, chromium: bool) -> Seq<char> {
    if chromium {
        DEVICE_MEMORY_BEFORE@ + dec(device_memory as nat) + DEVICE_MEMORY_AFTER@
    } else {
        Seq::empty()
    }
}

/// `navigator.oscpu` is deleted for a Chromium persona and pinned to the
/// UA's OS token for a Firefox one.
pub open spec fn oscpu_block(o: OverridesView, chromium: bool) -> Seq<char> {
    if chromium {
        OSCPU_DELETE@
    } else {
        OSCPU_BEFORE@ + json_quote(oscpu_spec(o.user_agent, o.platform)) + OSCPU_AFTER@
    }
}

/// The WebGL `getParameter` override, omitted for a Firefox UA (the engine
/// preferences pin it there).
pub open spec fn webgl_getter_block(o: OverridesView) -> Seq<char> {
    if contains(o.user_agent, "Firefox/"@) {
        Seq::empty()
    } else {
        WEBGL_BEFORE_RENDERER@ + json_quote(o.webgl_renderer) + WEBGL_BEFORE_VENDOR@ + json_quote(
            o.webgl_vendor,
        ) + WEBGL_END@
    }
}

/// The host voice list is suppressed when the persona pins a WebGL renderer
/// (a cross-OS persona).
pub open spec fn speech_block(o: OverridesView) -> Seq<char> {
    if o.webgl_renderer.len() == 0 {
        Seq::empty()
    } else {
        SPEECH_SUPPRESS@
    }
}

/// The fixed text of the profile override script, in order.
pub open spec fn profile_js_pieces() -> Seq<Seq<char>> {
    seq![

        JS_BEFORE_SEAL_PRELUDE@,
        JS_BEFORE_UA@,
        JS_BEFORE_APP_VERSION@,
        JS_BEFORE_PLATFORM@,
        JS_BEFORE_NAVIGATOR_VENDOR@,
        JS_BEFORE_LANGS@,
        JS_BEFORE_LANG0@,
        JS_BEFORE_BRANDS@,
        JS_BEFORE_MOBILE@,
        JS_BEFORE_PLATFORM_2@,
        JS_BEFORE_FULL_VERSION_LIST@,
        JS_BEFORE_MOBILE_2@,
        JS_BEFORE_CLIENT_HINT_PLATFORM@,
        JS_BEFORE_PLATFORM_VERSION@,
        JS_BEFORE_ARCHITECTURE@,
        JS_BEFORE_BITNESS@,
        JS_BEFORE_MODEL@,
        JS_BEFORE_UA_FULL_VERSION@,
        JS_BEFORE_WOW64@,
        JS_BEFORE_MOBILE_3@,
        JS_BEFORE_CLIENT_HINT_PLATFORM_2@,
        JS_BEFORE_HWC@,
        JS_BEFORE_DEVICE_MEMORY_BLOCK@,
        JS_BEFORE_MAX_TOUCH_POINTS@,
        JS_BEFORE_OSCPU_BLOCK@,
        JS_BEFORE_WEBGL_GETTER_BLOCK@,
        JS_END@,
    ]
}

/// The persona-identity values of the profile override script: the seal
/// prelude, UA, `appVersion`, platform, vendor and languages.
pub open spec fn identity_values(o: OverridesView) -> Seq<Seq<char>> {
    seq![
        NATIVE_SEAL_PRELUDE@,
        json_quote(o.user_agent),
        json_quote(app_version_spec(o.platform)),
        json_quote(o.platform),
        json_quote(o.navigator_vendor),
        json_string_list(o.languages),
        json_quote(primary_language(o)),
    ]
}

/// The Client Hints values of the profile override script (`[]` / `""` /
/// `false` without Client Hints).
pub open spec fn hint_values(o: OverridesView, h: Option<HintsView>) -> Seq<Seq<char>> {
    seq![
        match h { Some(x) => brands_json(x.brands), None => "[]"@ },
        bool_text(o.mobile),
        json_quote(o.platform),
        match h { Some(x) => brands_json(x.full_version_list), None => "[]"@ },
        bool_text(o.mobile),
        match h { Some(x) => json_quote(x.platform), None => json_quote(o.platform) },
        hint_text_json(h, |x: HintsView| x.platform_version),
        hint_text_json(h, |x: HintsView| x.architecture),
        hint_text_json(h, |x: HintsView| x.bitness),
        hint_text_json(h, |x: HintsView| x.model),
        hint_text_json(h, |x: HintsView| x.ua_full_version),
        bool_text(h matches Some(x) && x.wow64),
        bool_text(o.mobile),
        match h { Some(x) => json_quote(x.platform), None => json_quote(o.platform) },
    ]
}

/// The hardware, engine-specific and Intl values of the profile override
/// script.
pub open spec fn surface_values(o: OverridesView, chromium: bool) -> Seq<Seq<char>> {
    seq![
        dec(o.hardware_concurrency as nat),
        device_memory_block(o.device_memory, chromium),
        if o.mobile { "5"@ } else { "0"@ },
        oscpu_block(o, chromium),
        webgl_getter_block(o) + speech_block(o) + intl_spoof_spec(primary_language(o), o.timezone),
    ]
}

/// The values inserted into the profile override script, in order.
pub open spec fn profile_js_values(o: OverridesView) -> Seq<Seq<char>> {
    identity_values(o) + hint_values(o, client_hints_spec(o)) + surface_values(
        o,
        client_hints_spec(o) is Some,
    )
}

/// The profile override script of a persona.
pub open spec fn profile_js_spec(o: OverridesView) -> Seq<char> {
    fill(profile_js_pieces(), profile_js_values(o))
}

fn bool_str(b: bool) -> (r: String)
    ensures
        r@ == bool_text(b),
{
    if b {
        owned("true")
    } else {
        owned("false")
    }
}

fn dec_string(n: u64) -> (r: String)
    ensures
        r@ == dec(n as nat),
{
    let mut out: Vec<char> = Vec::new();
    push_dec(&mut out, n);
    string_from_chars(out.as_slice())
}

/// `serde_json` of a list of strings.
fn json_strings(list: &Vec<String>) -> (r: String)
    ensures
        r@ == json_string_list(list@.map_values(|s: String| s@)),
{
    let ghost l = list@.map_values(|s: String| s@);
    let mut parts: Vec<Vec<char>> = Vec::new();
    let mut i: usize = 0;
    while i < list.len()
        invariant
            i <= list@.len(),
            l == list@.map_values(|s: String| s@),
            parts@.len() == i,
            forall|q: int| 0 <= q < i ==> #[trigger] parts@[q]@ == json_quote(l[q]),
        decreases list@.len() - i,
    {
        let q = json_string(list[i].as_str());
        parts.push(crate::text::chars_of(q.as_str()));
        i = i + 1;
    }
    assert(views(parts@) =~= l.map_values(|x: Seq<char>| json_quote(x)));
    let mut out: Vec<char> = Vec::new();
    push_str(&mut out, "[");
    push_joined(&mut out, &parts, ',');
    push_str(&mut out, "]");
    assert(seq![','] =~= ","@) by {
        reveal_strlit(",");
    }
    string_from_chars(out.as_slice())
}

/// Generate the self-contained Intl / Date spoof statements for a persona's
/// primary locale (BCP 47, such as `en-US`) and IANA timezone. They use
/// `__seal` when it is in scope and an identity seal otherwise, so they also
/// run stand-alone.
pub fn intl_spoof_js(primary_locale: &str, timezone: &str) -> (r: String)
    ensures
        r@ == intl_spoof_spec(primary_locale@, timezone@),
{
    let mut out: Vec<char> = Vec::new();
    push_str(&mut out, INTL_BEFORE_LOCALE);
    let l = json_string(primary_locale);
    push_str(&mut out, l.as_str());
    push_str(&mut out, INTL_BEFORE_TIMEZONE);
    let t = json_string(timezone);
    push_str(&mut out, t.as_str());
    push_str(&mut out, INTL_END);
    string_from_chars(out.as_slice())
}

fn device_memory_js(device_memory: u32, chromium: bool) -> (r: String)
    ensures
        r@ == device_memory_block(device_memory, chromium),
{
    let mut out: Vec<char> = Vec::new();
    if chromium {
        push_str(&mut out, DEVICE_MEMORY_BEFORE);
        push_dec(&mut out, device_memory as u64);
        push_str(&mut out, DEVICE_MEMORY_AFTER);
    }
    string_from_chars(out.as_slice())
}

fn oscpu_js(overrides: &ProfileOverrides, chromium: bool) -> (r: String)
    ensures
        r@ == oscpu_block(overrides@, chromium),
{
    if chromium {
        owned(OSCPU_DELETE)
    } else {
        let mut out: Vec<char> = Vec::new();
        push_str(&mut out, OSCPU_BEFORE);
        let os = firefox_oscpu(overrides.user_agent.as_str(), overrides.platform.as_str());
        let j = json_string(os.as_str());
        push_str(&mut out, j.as_str());
        push_str(&mut out, OSCPU_AFTER);
        string_from_chars(out.as_slice())
    }
}

fn tail_js(overrides: &ProfileOverrides, lang0: &str) -> (r: String)
    requires
        lang0@ == primary_language(overrides@),
    ensures
        r@ == webgl_getter_block(overrides@) + speech_block(overrides@) + intl_spoof_spec(
            primary_language(overrides@),
            overrides@.timezone,
        ),
{
    let mut out: Vec<char> = Vec::new();
    if !contains_str(overrides.user_agent.as_str(), "Firefox/") {
        push_str(&mut out, WEBGL_BEFORE_RENDERER);
        let rend = json_string(overrides.webgl_renderer.as_str());
        push_str(&mut out, rend.as_str());
        push_str(&mut out, WEBGL_BEFORE_VENDOR);
        let vend = json_string(overrides.webgl_vendor.as_str());
        push_str(&mut out, vend.as_str());
        push_str(&mut out, WEBGL_END);
    }
    if overrides.webgl_renderer.as_str().unicode_len() > 0 {
        push_str(&mut out, SPEECH_SUPPRESS);
    }
    let tz = intl_spoof_js(lang0, overrides.timezone.as_str());
    push_str(&mut out, tz.as_str());
    string_from_chars(out.as_slice())
}

fn identity_js_values(overrides: &ProfileOverrides, lang0: &str) -> (r: Vec<String>)
    requires
        lang0@ == primary_language(overrides@),
    ensures
        r@.map_values(|v: String| v@) == identity_values(overrides@),
        r@.len() == 7,
{
    let r = vec![
        owned(NATIVE_SEAL_PRELUDE),
        json_string(overrides.user_agent.as_str()),
        json_string(firefox_app_version(overrides.platform.as_str())),
        json_string(overrides.platform.as_str()),
        json_string(overrides.navigator_vendor.as_str()),
        json_strings(&overrides.languages),
        json_string(lang0),
    ];
    assert(r@.map_values(|v: String| v@) =~= identity_values(overrides@));
    r
}

fn hint_js_values(overrides: &ProfileOverrides, hints: &Option<ClientHints>) -> (r: Vec<String>)
    requires
        match hints {
            Some(x) => client_hints_spec(overrides@) == Some(x@),
            None => client_hints_spec(overrides@) is None,
        },
    ensures
        r@.map_values(|v: String| v@) == hint_values(overrides@, client_hints_spec(overrides@)),
        r@.len() == 14,
{
    let mobile = bool_str(overrides.mobile);
    let empty = "\"\"";
    let (brands, full_list, ch_platform, platform_version, architecture, bitness, model, ua_full_version, wow64) = match hints {
        Some(x) => (
            json_array(&x.brands),
            json_array(&x.full_version_list),
            json_string(x.platform.as_str()),
            json_string(x.platform_version.as_str()),
            json_string(x.architecture.as_str()),
            json_string(x.bitness.as_str()),
            json_string(x.model.as_str()),
            json_string(x.ua_full_version.as_str()),
            x.wow64,
        ),
        None => (
            owned("[]"),
            owned("[]"),
            json_string(overrides.platform.as_str()),
            owned(empty),
            owned(empty),
            owned(empty),
            owned(empty),
            owned(empty),
            false,
        ),
    };
    let r = vec![
        brands,
        mobile.clone(),
        json_string(overrides.platform.as_str()),
        full_list,
        mobile.clone(),
        ch_platform.clone(),
        platform_version,
        architecture,
        bitness,
        model,
        ua_full_version,
        bool_str(wow64),
        mobile,
        ch_platform,
    ];
    assert(r@.map_values(|v: String| v@) =~= hint_values(overrides@, client_hints_spec(overrides@)));
    r
}

fn surface_js_values(overrides: &ProfileOverrides, chromium: bool, lang0: &str) -> (r: Vec<String>)
    requires
        lang0@ == primary_language(overrides@),
    ensures
        r@.map_values(|v: String| v@) == surface_values(overrides@, chromium),
        r@.len() == 5,
{
    let r = vec![
        dec_string(overrides.hardware_concurrency as u64),
        device_memory_js(overrides.device_memory, chromium),
        owned(if overrides.mobile { "5" } else { "0" }),
        oscpu_js(overrides, chromium),
        tail_js(overrides, lang0),
    ];
    assert(r@.map_values(|v: String| v@) =~= surface_values(overrides@, chromium));
    r
}

fn profile_js_piece_list() -> (r: Vec<&'static str>)
    ensures
        r@.map_values(|p: &str| p@) == profile_js_pieces(),
        r@.len() == 27,
{
    let r: Vec<&'static str> = vec![
        JS_BEFORE_SEAL_PRELUDE,
        JS_BEFORE_UA,
        JS_BEFORE_APP_VERSION,
        JS_BEFORE_PLATFORM,
        JS_BEFORE_NAVIGATOR_VENDOR,
        JS_BEFORE_LANGS,
        JS_BEFORE_LANG0,
        JS_BEFORE_BRANDS,
        JS_BEFORE_MOBILE,
        JS_BEFORE_PLATFORM_2,
        JS_BEFORE_FULL_VERSION_LIST,
        JS_BEFORE_MOBILE_2,
        JS_BEFORE_CLIENT_HINT_PLATFORM,
        JS_BEFORE_PLATFORM_VERSION,
        JS_BEFORE_ARCHITECTURE,
        JS_BEFORE_BITNESS,
        JS_BEFORE_MODEL,
        JS_BEFORE_UA_FULL_VERSION,
        JS_BEFORE_WOW64,
        JS_BEFORE_MOBILE_3,
        JS_BEFORE_CLIENT_HINT_PLATFORM_2,
        JS_BEFORE_HWC,
        JS_BEFORE_DEVICE_MEMORY_BLOCK,
        JS_BEFORE_MAX_TOUCH_POINTS,
        JS_BEFORE_OSCPU_BLOCK,
        JS_BEFORE_WEBGL_GETTER_BLOCK,
        JS_END,
    ];
    assert(r@.map_values(|p: &str| p@) =~= profile_js_pieces());
    r
}

/// Build the override script that pins a persona's fingerprint in-page:
/// the seal prelude, then getters for the UA, `appVersion`, platform,
/// vendor, languages, Client Hints (Chromium only), hardware concurrency,
/// `deviceMemory` (Chromium only), touch points and `oscpu` (deleted for
/// Chromium, pinned for Firefox), the WebGL override (not for Firefox), the
/// voice-list suppression (cross-OS personas) and the Intl / Date spoof.
pub fn profile_js(overrides: &ProfileOverrides) -> (r: String)
    ensures
        r@ == profile_js_spec(overrides@),
{
    let ghost o = overrides@;
    let hints = client_hints_from_overrides(overrides);
    let ghost h = client_hints_spec(o);
    let chromium = hints.is_some();
    let lang0: &str = if overrides.languages.len() > 0 {
        overrides.languages[0].as_str()
    } else {
        "en-US"
    };
    let pieces = profile_js_piece_list();
    let mut values = identity_js_values(overrides, lang0);
    let mut hv = hint_js_values(overrides, &hints);
    let mut sv = surface_js_values(overrides, chromium, lang0);
    let ghost a = values@;
    let ghost b = hv@;
    let ghost c = sv@;
    values.append(&mut hv);
    values.append(&mut sv);
    assert(values@ =~= a + b + c);
    proof {
        crate::text::lemma_map_values_add(a + b, c, |v: String| v@);
        crate::text::lemma_map_values_add(a, b, |v: String| v@);
    }
    fill_template(&pieces, &values)
}


/// The profile override script carries every fixed piece of its template
/// and, as contiguous blocks, the seal prelude, the JSON-quoted User-Agent,
/// `appVersion`, platform, vendor and primary language, the JSON language
/// list, the hardware concurrency, the touch-point count, the device-memory
/// and `oscpu` blocks for the persona's engine, and the WebGL, speech and
/// Intl block; a Chromium persona's script also carries its Client Hints
/// brand and full-version lists.
pub proof fn lemma_profile_js_contains(o: OverridesView)
    ensures
        forall|k: int|
            0 <= k < profile_js_pieces().len() ==> has_block(
                profile_js_spec(o),
                #[trigger] profile_js_pieces()[k],
            ),
        has_block(profile_js_spec(o), NATIVE_SEAL_PRELUDE@),
        has_block(profile_js_spec(o), json_quote(o.user_agent)),
        has_block(profile_js_spec(o), json_quote(app_version_spec(o.platform))),
        has_block(profile_js_spec(o), json_quote(o.platform)),
        has_block(profile_js_spec(o), json_quote(o.navigator_vendor)),
        has_block(profile_js_spec(o), json_string_list(o.languages)),
        has_block(profile_js_spec(o), json_quote(primary_language(o))),
        has_block(profile_js_spec(o), dec(o.hardware_concurrency as nat)),
        has_block(profile_js_spec(o), if o.mobile { "5"@ } else { "0"@ }),
        has_block(
            profile_js_spec(o),
            device_memory_block(o.device_memory, client_hints_spec(o) is Some),
        ),
        has_block(profile_js_spec(o), oscpu_block(o, client_hints_spec(o) is Some)),
        has_block(
            profile_js_spec(o),
            webgl_getter_block(o) + speech_block(o) + intl_spoof_spec(primary_language(o), o.timezone),
        ),
        client_hints_spec(o) matches Some(h) ==> has_block(profile_js_spec(o), brands_json(h.brands))
            && has_block(profile_js_spec(o), brands_json(h.full_version_list)),
{
    let v = profile_js_values(o);
    let h = client_hints_spec(o);
    assert(profile_js_pieces().len() == v.len() + 1);
    lemma_fill_contains(profile_js_pieces(), v);
    assert(v[0] == NATIVE_SEAL_PRELUDE@);
    assert(v[1] == json_quote(o.user_agent));
    assert(v[2] == json_quote(app_version_spec(o.platform)));
    assert(v[3] == json_quote(o.platform));
    assert(v[4] == json_quote(o.navigator_vendor));
    assert(v[5] == json_string_list(o.languages));
    assert(v[6] == json_quote(primary_language(o)));
    assert(v[21] == dec(o.hardware_concurrency as nat));
    assert(v[22] == device_memory_block(o.device_memory, h is Some));
    assert(v[23] == (if o.mobile { "5"@ } else { "0"@ }));
    assert(v[24] == oscpu_block(o, h is Some));
    assert(v[25] == webgl_getter_block(o) + speech_block(o) + intl_spoof_spec(primary_language(o), o.timezone));
    match h {
        Some(x) => {
            assert(v[7] == brands_json(x.brands));
            assert(v[10] == brands_json(x.full_version_list));
        },
        None => {},
    }
}

} // verus!
