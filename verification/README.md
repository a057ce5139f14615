# guise

Coherent browser-fingerprint personas and the TLS / HTTP/2 fingerprint
algebra behind them, written in Verus.

`src/` is the verified library:

- `ja3`, `ja4_family`, `hash`: JA3 / JA4 / JA4S / JA4L / JA4X computation,
  GREASE handling, MD5 (verified) and the SHA-256 prefix used by JA4.
- `akamai_h2`: the Akamai HTTP/2 fingerprint parser, canonical renderer and
  field-by-field diff, with round-trip laws.
- `tls_catalog`, `tls_profiles`, `tls_targets`, `chrome_tls`, `cluster`:
  measured ClientHello profiles, the published fingerprint targets and the
  cluster-membership classifier.
- `persona`, `hints`, `coherence`, `geo`, `page_js`: persona overrides,
  User-Agent Client Hints, the coherence gate, geo checks and the in-page
  override scripts.
- `evasion`: the seeded audio, font, timing, hardware and WebGL evasion
  scripts and the bundle assembled from them.
- `surface`, `rarity`, `tier_b`: the fingerprint-surface inventory, persona
  rarity, and validation of Tier-B persona drop-ins (WebGL, audio, fonts,
  voices, screens, targets); `geo` also validates Tier-B geo-region presets
  and holds the built-in regions.

`app/` reads and parses Tier-B TOML files, decodes collected signals from
JSON, and holds the floating-point pieces (screen DPR, coordinates and the
distance check of geo regions, latency distances). `tests/` exercises the library.
