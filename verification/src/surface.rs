//! The canonical inventory of browser fingerprint surfaces an anti-bot or
//! sandbox-detection engine reads to tell automation from a human, keyed at
//! method granularity, with the family and criticality of each.
use vstd::prelude::*;

verus! {

/// The family a fingerprint surface belongs to.
#[derive(Debug, Clone, Copy, PartialEq, Eq, Hash, Structural)]
pub enum SurfaceCategory {
    /// `navigator.*` identity (UA, platform, languages, plugins, webdriver, …).
    Navigator,
    /// Hardware-access prompts (Bluetooth, USB, HID, Serial, XR, media devices).
    DevicePrompt,
    /// WebGL renderer/vendor/extension surface.
    WebGl,
    /// 2D canvas fingerprint surface.
    Canvas,
    /// Web Audio fingerprint surface.
    Audio,
    /// WebRTC / RTCPeerConnection (also an IP-leak vector).
    WebRtc,
    /// Screen, viewport, orientation, and media-query surface.
    Screen,
    /// Timezone / locale.
    Timezone,
    /// Document/window lifecycle and visibility (a headless tab betrays these).
    Lifecycle,
    /// Storage, cache, clipboard, and file-picker surfaces.
    Storage,
    /// Crypto-wallet, WebAuthn, and payment surfaces.
    CryptoAuth,
    /// Sensors and observers (geolocation, motion, intersection, mutation).
    Sensor,
    /// Notifications, push, background sync, service worker.
    Notification,
    /// Speech synthesis.
    Speech,
    /// Font enumeration (`document.fonts` / FontFaceSet iteration), a classic
    /// high-entropy fingerprint surface.
    Font,
    /// High-resolution timing (`performance.now`), the timer-precision surface
    /// anti-bot scripts probe and guise can jitter.
    Timing,
    /// Media-capability surfaces (WebCodecs `VideoDecoder`/`VideoEncoder`,
    /// MediaCapabilities) (what a client claims it can decode/encode).
    Media,
}

/// How strongly mishandling a surface betrays automation.
#[derive(Debug, Clone, Copy, PartialEq, Eq, Hash, Structural)]
pub enum Criticality {
    /// A direct, unambiguous automation tell (e.g. `navigator.webdriver`).
    Critical,
    /// A strong fingerprint signal weighted heavily by detectors.
    High,
    /// A contributing signal.
    Medium,
    /// A weak / corroborating signal.
    Low,
}

/// One browser fingerprint surface a detector reads.
#[derive(Debug, Clone, Copy, PartialEq, Eq)]
pub struct FingerprintSurface {
    /// The JS access path the detector reads (e.g. `navigator.webdriver`).
    pub surface: &'static str,
    /// The family this surface belongs to.
    pub category: SurfaceCategory,
    /// How strongly mishandling it betrays automation.
    pub criticality: Criticality,
}

pub struct SurfaceView {
    pub surface: Seq<char>,
    pub category: SurfaceCategory,
    pub criticality: Criticality,
}

impl View for FingerprintSurface {
    type V = SurfaceView;

    open spec fn view(&self) -> SurfaceView {
        SurfaceView { surface: self.surface@, category: self.category, criticality: self.criticality }
    }
}

pub open spec fn surface_views(v: Seq<FingerprintSurface>) -> Seq<SurfaceView> {
    v.map_values(|f: FingerprintSurface| f@)
}

/// The inventory, in declaration order.
pub open spec fn surface_catalog() -> Seq<SurfaceView> {
    seq![
        SurfaceView { surface: "navigator.webdriver"@, category: SurfaceCategory::Navigator, criticality: Criticality::Critical },
        SurfaceView { surface: "navigator.userAgent"@, category: SurfaceCategory::Navigator, criticality: Criticality::High },
        SurfaceView { surface: "navigator.platform"@, category: SurfaceCategory::Navigator, criticality: Criticality::High },
        SurfaceView { surface: "navigator.language"@, category: SurfaceCategory::Navigator, criticality: Criticality::Medium },
        SurfaceView { surface: "navigator.languages"@, category: SurfaceCategory::Navigator, criticality: Criticality::High },
        SurfaceView { surface: "navigator.vendor"@, category: SurfaceCategory::Navigator, criticality: Criticality::Medium },
        SurfaceView { surface: "navigator.hardwareConcurrency"@, category: SurfaceCategory::Navigator, criticality: Criticality::High },
        SurfaceView { surface: "navigator.deviceMemory"@, category: SurfaceCategory::Navigator, criticality: Criticality::Medium },
        SurfaceView { surface: "navigator.connection.effectiveType"@, category: SurfaceCategory::Navigator, criticality: Criticality::Low },
        SurfaceView { surface: "navigator.plugins"@, category: SurfaceCategory::Navigator, criticality: Criticality::High },
        SurfaceView { surface: "navigator.plugins.length"@, category: SurfaceCategory::Navigator, criticality: Criticality::High },
        SurfaceView { surface: "navigator.cookieEnabled"@, category: SurfaceCategory::Navigator, criticality: Criticality::Low },
        SurfaceView { surface: "navigator.getBattery"@, category: SurfaceCategory::Navigator, criticality: Criticality::Medium },
        SurfaceView { surface: "navigator.vibrate"@, category: SurfaceCategory::Navigator, criticality: Criticality::Low },
        SurfaceView { surface: "navigator.wakeLock.request"@, category: SurfaceCategory::Navigator, criticality: Criticality::Medium },
        SurfaceView { surface: "navigator.permissions.query"@, category: SurfaceCategory::Navigator, criticality: Criticality::High },
        SurfaceView { surface: "navigator.share"@, category: SurfaceCategory::Navigator, criticality: Criticality::Medium },
        SurfaceView { surface: "navigator.canShare"@, category: SurfaceCategory::Navigator, criticality: Criticality::Medium },
        SurfaceView { surface: "navigator.storage.estimate"@, category: SurfaceCategory::Navigator, criticality: Criticality::Medium },
        SurfaceView { surface: "navigator.registerProtocolHandler"@, category: SurfaceCategory::Navigator, criticality: Criticality::Low },
        SurfaceView { surface: "navigator.setAppBadge"@, category: SurfaceCategory::Navigator, criticality: Criticality::Low },
        SurfaceView { surface: "navigator.clearAppBadge"@, category: SurfaceCategory::Navigator, criticality: Criticality::Low },
        SurfaceView { surface: "navigator.contacts.select"@, category: SurfaceCategory::Navigator, criticality: Criticality::Low },
        SurfaceView { surface: "navigator.getInstalledRelatedApps"@, category: SurfaceCategory::Navigator, criticality: Criticality::Low },
        SurfaceView { surface: "navigator.bluetooth.requestDevice"@, category: SurfaceCategory::DevicePrompt, criticality: Criticality::High },
        SurfaceView { surface: "navigator.usb.requestDevice"@, category: SurfaceCategory::DevicePrompt, criticality: Criticality::High },
        SurfaceView { surface: "navigator.serial.requestPort"@, category: SurfaceCategory::DevicePrompt, criticality: Criticality::High },
        SurfaceView { surface: "navigator.hid.requestDevice"@, category: SurfaceCategory::DevicePrompt, criticality: Criticality::High },
        SurfaceView { surface: "navigator.xr.isSessionSupported"@, category: SurfaceCategory::DevicePrompt, criticality: Criticality::Medium },
        SurfaceView { surface: "navigator.mediaDevices.getUserMedia"@, category: SurfaceCategory::DevicePrompt, criticality: Criticality::High },
        SurfaceView { surface: "webgl.getParameter"@, category: SurfaceCategory::WebGl, criticality: Criticality::High },
        SurfaceView { surface: "webgl.getSupportedExtensions"@, category: SurfaceCategory::WebGl, criticality: Criticality::Medium },
        SurfaceView { surface: "webgl.readPixels"@, category: SurfaceCategory::WebGl, criticality: Criticality::Medium },
        SurfaceView { surface: "navigator.gpu.requestAdapter"@, category: SurfaceCategory::WebGl, criticality: Criticality::High },
        SurfaceView { surface: "canvas.getContext"@, category: SurfaceCategory::Canvas, criticality: Criticality::Medium },
        SurfaceView { surface: "canvas.getImageData"@, category: SurfaceCategory::Canvas, criticality: Criticality::High },
        SurfaceView { surface: "canvas.measureText"@, category: SurfaceCategory::Canvas, criticality: Criticality::Medium },
        SurfaceView { surface: "canvas.toDataURL"@, category: SurfaceCategory::Canvas, criticality: Criticality::High },
        SurfaceView { surface: "audio.createAnalyser"@, category: SurfaceCategory::Audio, criticality: Criticality::Medium },
        SurfaceView { surface: "audio.createOscillator"@, category: SurfaceCategory::Audio, criticality: Criticality::Medium },
        SurfaceView { surface: "audio.getFloatFrequencyData"@, category: SurfaceCategory::Audio, criticality: Criticality::High },
        SurfaceView { surface: "audio.getChannelData"@, category: SurfaceCategory::Audio, criticality: Criticality::High },
        SurfaceView { surface: "audio.oscillator.start"@, category: SurfaceCategory::Audio, criticality: Criticality::Low },
        SurfaceView { surface: "audio.resume"@, category: SurfaceCategory::Audio, criticality: Criticality::Low },
        SurfaceView { surface: "audio.startRendering"@, category: SurfaceCategory::Audio, criticality: Criticality::Medium },
        SurfaceView { surface: "RTCPeerConnection"@, category: SurfaceCategory::WebRtc, criticality: Criticality::High },
        SurfaceView { surface: "RTCPeerConnection.createOffer"@, category: SurfaceCategory::WebRtc, criticality: Criticality::High },
        SurfaceView { surface: "RTCPeerConnection.createAnswer"@, category: SurfaceCategory::WebRtc, criticality: Criticality::Medium },
        SurfaceView { surface: "RTCPeerConnection.createDataChannel"@, category: SurfaceCategory::WebRtc, criticality: Criticality::Medium },
        SurfaceView { surface: "screen.width"@, category: SurfaceCategory::Screen, criticality: Criticality::High },
        SurfaceView { surface: "screen.height"@, category: SurfaceCategory::Screen, criticality: Criticality::High },
        SurfaceView { surface: "screen.colorDepth"@, category: SurfaceCategory::Screen, criticality: Criticality::Low },
        SurfaceView { surface: "screen.orientation.angle"@, category: SurfaceCategory::Screen, criticality: Criticality::Low },
        SurfaceView { surface: "screen.orientation.type"@, category: SurfaceCategory::Screen, criticality: Criticality::Low },
        SurfaceView { surface: "window.orientation"@, category: SurfaceCategory::Screen, criticality: Criticality::Low },
        SurfaceView { surface: "matchMedia"@, category: SurfaceCategory::Screen, criticality: Criticality::Medium },
        SurfaceView { surface: "Intl.DateTimeFormat"@, category: SurfaceCategory::Timezone, criticality: Criticality::High },
        SurfaceView { surface: "Intl.DateTimeFormat.resolvedOptions"@, category: SurfaceCategory::Timezone, criticality: Criticality::High },
        SurfaceView { surface: "document.hidden"@, category: SurfaceCategory::Lifecycle, criticality: Criticality::Medium },
        SurfaceView { surface: "document.visibilityState"@, category: SurfaceCategory::Lifecycle, criticality: Criticality::Medium },
        SurfaceView { surface: "document.visibilitychange"@, category: SurfaceCategory::Lifecycle, criticality: Criticality::Medium },
        SurfaceView { surface: "window.beforeunload"@, category: SurfaceCategory::Lifecycle, criticality: Criticality::Low },
        SurfaceView { surface: "window.pagehide"@, category: SurfaceCategory::Lifecycle, criticality: Criticality::Low },
        SurfaceView { surface: "window.name.read"@, category: SurfaceCategory::Lifecycle, criticality: Criticality::Low },
        SurfaceView { surface: "element.requestFullscreen"@, category: SurfaceCategory::Lifecycle, criticality: Criticality::Low },
        SurfaceView { surface: "element.requestPointerLock"@, category: SurfaceCategory::Lifecycle, criticality: Criticality::Low },
        SurfaceView { surface: "navigator.userActivation"@, category: SurfaceCategory::Lifecycle, criticality: Criticality::Low },
        SurfaceView { surface: "caches.open"@, category: SurfaceCategory::Storage, criticality: Criticality::Medium },
        SurfaceView { surface: "cache.add"@, category: SurfaceCategory::Storage, criticality: Criticality::Low },
        SurfaceView { surface: "cache.addAll"@, category: SurfaceCategory::Storage, criticality: Criticality::Low },
        SurfaceView { surface: "cache.match"@, category: SurfaceCategory::Storage, criticality: Criticality::Low },
        SurfaceView { surface: "cache.put"@, category: SurfaceCategory::Storage, criticality: Criticality::Low },
        SurfaceView { surface: "clipboard.readText"@, category: SurfaceCategory::Storage, criticality: Criticality::Medium },
        SurfaceView { surface: "clipboard.writeText"@, category: SurfaceCategory::Storage, criticality: Criticality::Medium },
        SurfaceView { surface: "showDirectoryPicker"@, category: SurfaceCategory::Storage, criticality: Criticality::Medium },
        SurfaceView { surface: "showOpenFilePicker"@, category: SurfaceCategory::Storage, criticality: Criticality::Medium },
        SurfaceView { surface: "showSaveFilePicker"@, category: SurfaceCategory::Storage, criticality: Criticality::Medium },
        SurfaceView { surface: "URL.createObjectURL"@, category: SurfaceCategory::Storage, criticality: Criticality::Low },
        SurfaceView { surface: "ethereum.on"@, category: SurfaceCategory::CryptoAuth, criticality: Criticality::Low },
        SurfaceView { surface: "solana.on"@, category: SurfaceCategory::CryptoAuth, criticality: Criticality::Low },
        SurfaceView { surface: "PublicKeyCredential.create"@, category: SurfaceCategory::CryptoAuth, criticality: Criticality::Medium },
        SurfaceView { surface: "PublicKeyCredential.get"@, category: SurfaceCategory::CryptoAuth, criticality: Criticality::Medium },
        SurfaceView { surface: "PaymentRequest"@, category: SurfaceCategory::CryptoAuth, criticality: Criticality::Medium },
        SurfaceView { surface: "PaymentRequest.show"@, category: SurfaceCategory::CryptoAuth, criticality: Criticality::Low },
        SurfaceView { surface: "geolocation.getCurrentPosition"@, category: SurfaceCategory::Sensor, criticality: Criticality::Medium },
        SurfaceView { surface: "geolocation.watchPosition"@, category: SurfaceCategory::Sensor, criticality: Criticality::Medium },
        SurfaceView { surface: "DeviceMotionEvent.requestPermission"@, category: SurfaceCategory::Sensor, criticality: Criticality::Medium },
        SurfaceView { surface: "DeviceOrientationEvent.requestPermission"@, category: SurfaceCategory::Sensor, criticality: Criticality::Medium },
        SurfaceView { surface: "IntersectionObserver.observe"@, category: SurfaceCategory::Sensor, criticality: Criticality::Low },
        SurfaceView { surface: "MutationObserver.observe"@, category: SurfaceCategory::Sensor, criticality: Criticality::Low },
        SurfaceView { surface: "ResizeObserver.observe"@, category: SurfaceCategory::Sensor, criticality: Criticality::Low },
        SurfaceView { surface: "Notification.requestPermission"@, category: SurfaceCategory::Notification, criticality: Criticality::Medium },
        SurfaceView { surface: "navigator.serviceWorker.register"@, category: SurfaceCategory::Notification, criticality: Criticality::Medium },
        SurfaceView { surface: "pushManager.subscribe"@, category: SurfaceCategory::Notification, criticality: Criticality::Low },
        SurfaceView { surface: "periodicSync.register"@, category: SurfaceCategory::Notification, criticality: Criticality::Low },
        SurfaceView { surface: "sync.register"@, category: SurfaceCategory::Notification, criticality: Criticality::Low },
        SurfaceView { surface: "launchQueue.setConsumer"@, category: SurfaceCategory::Notification, criticality: Criticality::Low },
        SurfaceView { surface: "speechSynthesis.speak"@, category: SurfaceCategory::Speech, criticality: Criticality::Medium },
        SurfaceView { surface: "speechSynthesis.cancel"@, category: SurfaceCategory::Speech, criticality: Criticality::Low },
        SurfaceView { surface: "speechSynthesis.getVoices"@, category: SurfaceCategory::Speech, criticality: Criticality::Medium },
        SurfaceView { surface: "document.fonts.forEach"@, category: SurfaceCategory::Font, criticality: Criticality::Medium },
        SurfaceView { surface: "performance.now"@, category: SurfaceCategory::Timing, criticality: Criticality::Medium },
        SurfaceView { surface: "scheduler.postTask"@, category: SurfaceCategory::Timing, criticality: Criticality::Low },
        SurfaceView { surface: "VideoDecoder.isConfigSupported"@, category: SurfaceCategory::Media, criticality: Criticality::Medium },
        SurfaceView { surface: "VideoEncoder.isConfigSupported"@, category: SurfaceCategory::Media, criticality: Criticality::Medium },
        SurfaceView { surface: "VideoFrame"@, category: SurfaceCategory::Media, criticality: Criticality::Medium },
        SurfaceView { surface: "MediaCapabilities.decodingInfo"@, category: SurfaceCategory::Media, criticality: Criticality::Medium },
    ]
}

fn s(surface: &'static str, category: SurfaceCategory, criticality: Criticality) -> (r: FingerprintSurface)
    ensures
        r@ == (SurfaceView { surface: surface@, category, criticality }),
{
    FingerprintSurface { surface, category, criticality }
}

/// Every surface in the inventory, in declaration order.
pub fn surfaces() -> (r: Vec<FingerprintSurface>)
    ensures
        surface_views(r@) == surface_catalog(),
{
    let r = vec![
        s("navigator.webdriver", SurfaceCategory::Navigator, Criticality::Critical),
        s("navigator.userAgent", SurfaceCategory::Navigator, Criticality::High),
        s("navigator.platform", SurfaceCategory::Navigator, Criticality::High),
        s("navigator.language", SurfaceCategory::Navigator, Criticality::Medium),
        s("navigator.languages", SurfaceCategory::Navigator, Criticality::High),
        s("navigator.vendor", SurfaceCategory::Navigator, Criticality::Medium),
        s("navigator.hardwareConcurrency", SurfaceCategory::Navigator, Criticality::High),
        s("navigator.deviceMemory", SurfaceCategory::Navigator, Criticality::Medium),
        s("navigator.connection.effectiveType", SurfaceCategory::Navigator, Criticality::Low),
        s("navigator.plugins", SurfaceCategory::Navigator, Criticality::High),
        s("navigator.plugins.length", SurfaceCategory::Navigator, Criticality::High),
        s("navigator.cookieEnabled", SurfaceCategory::Navigator, Criticality::Low),
        s("navigator.getBattery", SurfaceCategory::Navigator, Criticality::Medium),
        s("navigator.vibrate", SurfaceCategory::Navigator, Criticality::Low),
        s("navigator.wakeLock.request", SurfaceCategory::Navigator, Criticality::Medium),
        s("navigator.permissions.query", SurfaceCategory::Navigator, Criticality::High),
        s("navigator.share", SurfaceCategory::Navigator, Criticality::Medium),
        s("navigator.canShare", SurfaceCategory::Navigator, Criticality::Medium),
        s("navigator.storage.estimate", SurfaceCategory::Navigator, Criticality::Medium),
        s("navigator.registerProtocolHandler", SurfaceCategory::Navigator, Criticality::Low),
        s("navigator.setAppBadge", SurfaceCategory::Navigator, Criticality::Low),
        s("navigator.clearAppBadge", SurfaceCategory::Navigator, Criticality::Low),
        s("navigator.contacts.select", SurfaceCategory::Navigator, Criticality::Low),
        s("navigator.getInstalledRelatedApps", SurfaceCategory::Navigator, Criticality::Low),
        s("navigator.bluetooth.requestDevice", SurfaceCategory::DevicePrompt, Criticality::High),
        s("navigator.usb.requestDevice", SurfaceCategory::DevicePrompt, Criticality::High),
        s("navigator.serial.requestPort", SurfaceCategory::DevicePrompt, Criticality::High),
        s("navigator.hid.requestDevice", SurfaceCategory::DevicePrompt, Criticality::High),
        s("navigator.xr.isSessionSupported", SurfaceCategory::DevicePrompt, Criticality::Medium),
        s("navigator.mediaDevices.getUserMedia", SurfaceCategory::DevicePrompt, Criticality::High),
        s("webgl.getParameter", SurfaceCategory::WebGl, Criticality::High),
        s("webgl.getSupportedExtensions", SurfaceCategory::WebGl, Criticality::Medium),
        s("webgl.readPixels", SurfaceCategory::WebGl, Criticality::Medium),
        s("navigator.gpu.requestAdapter", SurfaceCategory::WebGl, Criticality::High),
        s("canvas.getContext", SurfaceCategory::Canvas, Criticality::Medium),
        s("canvas.getImageData", SurfaceCategory::Canvas, Criticality::High),
        s("canvas.measureText", SurfaceCategory::Canvas, Criticality::Medium),
        s("canvas.toDataURL", SurfaceCategory::Canvas, Criticality::High),
        s("audio.createAnalyser", SurfaceCategory::Audio, Criticality::Medium),
        s("audio.createOscillator", SurfaceCategory::Audio, Criticality::Medium),
        s("audio.getFloatFrequencyData", SurfaceCategory::Audio, Criticality::High),
        s("audio.getChannelData", SurfaceCategory::Audio, Criticality::High),
        s("audio.oscillator.start", SurfaceCategory::Audio, Criticality::Low),
        s("audio.resume", SurfaceCategory::Audio, Criticality::Low),
        s("audio.startRendering", SurfaceCategory::Audio, Criticality::Medium),
        s("RTCPeerConnection", SurfaceCategory::WebRtc, Criticality::High),
        s("RTCPeerConnection.createOffer", SurfaceCategory::WebRtc, Criticality::High),
        s("RTCPeerConnection.createAnswer", SurfaceCategory::WebRtc, Criticality::Medium),
        s("RTCPeerConnection.createDataChannel", SurfaceCategory::WebRtc, Criticality::Medium),
        s("screen.width", SurfaceCategory::Screen, Criticality::High),
        s("screen.height", SurfaceCategory::Screen, Criticality::High),
        s("screen.colorDepth", SurfaceCategory::Screen, Criticality::Low),
        s("screen.orientation.angle", SurfaceCategory::Screen, Criticality::Low),
        s("screen.orientation.type", SurfaceCategory::Screen, Criticality::Low),
        s("window.orientation", SurfaceCategory::Screen, Criticality::Low),
        s("matchMedia", SurfaceCategory::Screen, Criticality::Medium),
        s("Intl.DateTimeFormat", SurfaceCategory::Timezone, Criticality::High),
        s("Intl.DateTimeFormat.resolvedOptions", SurfaceCategory::Timezone, Criticality::High),
        s("document.hidden", SurfaceCategory::Lifecycle, Criticality::Medium),
        s("document.visibilityState", SurfaceCategory::Lifecycle, Criticality::Medium),
        s("document.visibilitychange", SurfaceCategory::Lifecycle, Criticality::Medium),
        s("window.beforeunload", SurfaceCategory::Lifecycle, Criticality::Low),
        s("window.pagehide", SurfaceCategory::Lifecycle, Criticality::Low),
        s("window.name.read", SurfaceCategory::Lifecycle, Criticality::Low),
        s("element.requestFullscreen", SurfaceCategory::Lifecycle, Criticality::Low),
        s("element.requestPointerLock", SurfaceCategory::Lifecycle, Criticality::Low),
        s("navigator.userActivation", SurfaceCategory::Lifecycle, Criticality::Low),
        s("caches.open", SurfaceCategory::Storage, Criticality::Medium),
        s("cache.add", SurfaceCategory::Storage, Criticality::Low),
        s("cache.addAll", SurfaceCategory::Storage, Criticality::Low),
        s("cache.match", SurfaceCategory::Storage, Criticality::Low),
        s("cache.put", SurfaceCategory::Storage, Criticality::Low),
        s("clipboard.readText", SurfaceCategory::Storage, Criticality::Medium),
        s("clipboard.writeText", SurfaceCategory::Storage, Criticality::Medium),
        s("showDirectoryPicker", SurfaceCategory::Storage, Criticality::Medium),
        s("showOpenFilePicker", SurfaceCategory::Storage, Criticality::Medium),
        s("showSaveFilePicker", SurfaceCategory::Storage, Criticality::Medium),
        s("URL.createObjectURL", SurfaceCategory::Storage, Criticality::Low),
        s("ethereum.on", SurfaceCategory::CryptoAuth, Criticality::Low),
        s("solana.on", SurfaceCategory::CryptoAuth, Criticality::Low),
        s("PublicKeyCredential.create", SurfaceCategory::CryptoAuth, Criticality::Medium),
        s("PublicKeyCredential.get", SurfaceCategory::CryptoAuth, Criticality::Medium),
        s("PaymentRequest", SurfaceCategory::CryptoAuth, Criticality::Medium),
        s("PaymentRequest.show", SurfaceCategory::CryptoAuth, Criticality::Low),
        s("geolocation.getCurrentPosition", SurfaceCategory::Sensor, Criticality::Medium),
        s("geolocation.watchPosition", SurfaceCategory::Sensor, Criticality::Medium),
        s("DeviceMotionEvent.requestPermission", SurfaceCategory::Sensor, Criticality::Medium),
        s("DeviceOrientationEvent.requestPermission", SurfaceCategory::Sensor, Criticality::Medium),
        s("IntersectionObserver.observe", SurfaceCategory::Sensor, Criticality::Low),
        s("MutationObserver.observe", SurfaceCategory::Sensor, Criticality::Low),
        s("ResizeObserver.observe", SurfaceCategory::Sensor, Criticality::Low),
        s("Notification.requestPermission", SurfaceCategory::Notification, Criticality::Medium),
        s("navigator.serviceWorker.register", SurfaceCategory::Notification, Criticality::Medium),
        s("pushManager.subscribe", SurfaceCategory::Notification, Criticality::Low),
        s("periodicSync.register", SurfaceCategory::Notification, Criticality::Low),
        s("sync.register", SurfaceCategory::Notification, Criticality::Low),
        s("launchQueue.setConsumer", SurfaceCategory::Notification, Criticality::Low),
        s("speechSynthesis.speak", SurfaceCategory::Speech, Criticality::Medium),
        s("speechSynthesis.cancel", SurfaceCategory::Speech, Criticality::Low),
        s("speechSynthesis.getVoices", SurfaceCategory::Speech, Criticality::Medium),
        s("document.fonts.forEach", SurfaceCategory::Font, Criticality::Medium),
        s("performance.now", SurfaceCategory::Timing, Criticality::Medium),
        s("scheduler.postTask", SurfaceCategory::Timing, Criticality::Low),
        s("VideoDecoder.isConfigSupported", SurfaceCategory::Media, Criticality::Medium),
        s("VideoEncoder.isConfigSupported", SurfaceCategory::Media, Criticality::Medium),
        s("VideoFrame", SurfaceCategory::Media, Criticality::Medium),
        s("MediaCapabilities.decodingInfo", SurfaceCategory::Media, Criticality::Medium),
    ];
    assert(surface_views(r@) =~= surface_catalog());
    r
}

/// The surfaces of `s` in `category`, order kept.
pub open spec fn in_category(v: Seq<SurfaceView>, category: SurfaceCategory) -> Seq<SurfaceView>
    decreases v.len(),
{
    if v.len() == 0 {
        Seq::empty()
    } else if v.last().category == category {
        in_category(v.drop_last(), category).push(v.last())
    } else {
        in_category(v.drop_last(), category)
    }
}

pub open spec fn is_must_cover(c: Criticality) -> bool {
    c is Critical || c is High
}

/// The `Critical` / `High` surfaces of `v`, order kept.
pub open spec fn must_cover_of(v: Seq<SurfaceView>) -> Seq<SurfaceView>
    decreases v.len(),
{
    if v.len() == 0 {
        Seq::empty()
    } else if is_must_cover(v.last().criticality) {
        must_cover_of(v.drop_last()).push(v.last())
    } else {
        must_cover_of(v.drop_last())
    }
}

/// The inventory surfaces in `category`, in inventory order.
pub fn by_category(category: SurfaceCategory) -> (r: Vec<FingerprintSurface>)
    ensures
        surface_views(r@) == in_category(surface_catalog(), category),
{
    let all = surfaces();
    let mut r: Vec<FingerprintSurface> = Vec::new();
    let mut i: usize = 0;
    while i < all.len()
        invariant
            i <= all@.len(),
            surface_views(all@) == surface_catalog(),
            surface_views(r@) == in_category(surface_views(all@).take(i as int), category),
        decreases all@.len() - i,
    {
        let ghost v = surface_views(all@);
        assert(v.take(i as int + 1).drop_last() =~= v.take(i as int));
        assert(v.take(i as int + 1).last() == all@[i as int]@);
        if all[i].category == category {
            let ghost before = surface_views(r@);
            r.push(all[i]);
            assert(surface_views(r@) =~= before.push(all@[i as int]@));
        }
        i = i + 1;
    }
    assert(surface_views(all@).take(all@.len() as int) =~= surface_views(all@));
    r
}

/// The `Critical` / `High` surfaces: the ones a disguise must get right;
/// everything else only corroborates.
pub fn must_cover() -> (r: Vec<FingerprintSurface>)
    ensures
        surface_views(r@) == must_cover_of(surface_catalog()),
{
    let all = surfaces();
    let mut r: Vec<FingerprintSurface> = Vec::new();
    let mut i: usize = 0;
    while i < all.len()
        invariant
            i <= all@.len(),
            surface_views(all@) == surface_catalog(),
            surface_views(r@) == must_cover_of(surface_views(all@).take(i as int)),
        decreases all@.len() - i,
    {
        let ghost v = surface_views(all@);
        assert(v.take(i as int + 1).drop_last() =~= v.take(i as int));
        assert(v.take(i as int + 1).last() == all@[i as int]@);
        let keep = match all[i].criticality {
            Criticality::Critical | Criticality::High => true,
            _ => false,
        };
        if keep {
            let ghost before = surface_views(r@);
            r.push(all[i]);
            assert(surface_views(r@) =~= before.push(all@[i as int]@));
        }
        i = i + 1;
    }
    assert(surface_views(all@).take(all@.len() as int) =~= surface_views(all@));
    r
}


proof fn lemma_in_category_nonempty(v: Seq<SurfaceView>, category: SurfaceCategory, k: int)
    requires
        0 <= k < v.len(),
        v[k].category == category,
    ensures
        in_category(v, category).len() > 0,
    decreases v.len(),
{
    if v.last().category != category {
        lemma_in_category_nonempty(v.drop_last(), category, k);
    }
}

/// Every category of the inventory holds at least one surface, so
/// [`by_category`] is never empty.
pub proof fn lemma_every_category_is_populated(category: SurfaceCategory)
    ensures
        in_category(surface_catalog(), category).len() > 0,
{
    let v = surface_catalog();
    match category {
        SurfaceCategory::Navigator => lemma_in_category_nonempty(v, category, 0),
        SurfaceCategory::DevicePrompt => lemma_in_category_nonempty(v, category, 24),
        SurfaceCategory::WebGl => lemma_in_category_nonempty(v, category, 30),
        SurfaceCategory::Canvas => lemma_in_category_nonempty(v, category, 34),
        SurfaceCategory::Audio => lemma_in_category_nonempty(v, category, 38),
        SurfaceCategory::WebRtc => lemma_in_category_nonempty(v, category, 45),
        SurfaceCategory::Screen => lemma_in_category_nonempty(v, category, 49),
        SurfaceCategory::Timezone => lemma_in_category_nonempty(v, category, 56),
        SurfaceCategory::Lifecycle => lemma_in_category_nonempty(v, category, 58),
        SurfaceCategory::Storage => lemma_in_category_nonempty(v, category, 67),
        SurfaceCategory::CryptoAuth => lemma_in_category_nonempty(v, category, 78),
        SurfaceCategory::Sensor => lemma_in_category_nonempty(v, category, 84),
        SurfaceCategory::Notification => lemma_in_category_nonempty(v, category, 91),
        SurfaceCategory::Speech => lemma_in_category_nonempty(v, category, 97),
        SurfaceCategory::Font => lemma_in_category_nonempty(v, category, 100),
        SurfaceCategory::Timing => lemma_in_category_nonempty(v, category, 101),
        SurfaceCategory::Media => lemma_in_category_nonempty(v, category, 103),
    }
}

} // verus!
