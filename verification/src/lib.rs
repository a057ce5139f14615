//! Coherent browser-fingerprint data and the JA3 / JA4+ / Akamai-HTTP/2
//! fingerprint algebra: parsers, renderers, catalogues and coherence gates.
pub mod text;
pub mod akamai_h2;
pub mod hash;
pub mod ja3;
pub mod ja4_family;
pub mod tls_targets;
pub mod cluster;
pub mod chrome_tls;
pub mod surface;
pub mod tls_catalog;
pub mod tls_profiles;
pub mod persona;
pub mod coherence;
pub mod hints;
pub mod tier_b;
pub mod geo;
pub mod rarity;
pub mod page_js;
pub mod evasion;
