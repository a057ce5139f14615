//! The TLS ClientHello data of the profile catalogue: the cipher,
//! extension, group, point-format, signature-algorithm and version lists of
//! each measured or modelled client, and the profiles assembled from them.
use vstd::prelude::*;
use crate::tls_profiles::{TlsProfile, TlsView};

verus! {

pub open spec fn chrome_146_ciphers() -> Seq<u16> {
    seq![0x1301u16, 0x1302, 0x1303, 0xc02b, 0xc02f, 0xc02c, 0xc030, 0xcca9, 0xcca8, 0xc013, 0xc014, 0x009c, 0x009d, 0x002f, 0x0035]
}

pub open spec fn chrome_146_extensions() -> Seq<u16> {
    seq![0x44cdu16, 0x0000, 0x002d, 0x000b, 0xfe0d, 0x000a, 0x002b, 0x000d, 0xff01, 0x0005, 0x0033, 0x0010, 0x0012, 0x001b, 0x0017, 0x0023, 0x0029]
}

pub open spec fn chrome_146_groups() -> Seq<u16> {
    seq![0x11ecu16, 0x001d, 0x0017, 0x0018]
}

pub open spec fn chrome_extensions() -> Seq<u16> {
    seq![0x0000u16, 0x0017, 0xff01, 0x000a, 0x000b, 0x0023, 0x0010, 0x0005, 0x0012, 0x0033, 0x002b, 0x000d, 0x002d, 0x001c, 0x001b]
}

pub open spec fn chrome_sig_algs() -> Seq<u16> {
    seq![0x0403u16, 0x0804, 0x0401, 0x0503, 0x0805, 0x0501, 0x0806, 0x0601]
}

pub open spec fn curl_8_openssl_ciphers() -> Seq<u16> {
    seq![0x1302u16, 0x1303, 0x1301, 0xc02c, 0xc030, 0x009f, 0xcca9, 0xcca8, 0xccaa, 0xc02b, 0xc02f, 0x009e, 0xc024, 0xc028, 0x006b, 0xc023, 0xc027, 0x0067, 0xc00a, 0xc014, 0x0039, 0xc009, 0xc013, 0x0033, 0x009d, 0x009c, 0x003d, 0x003c, 0x0035, 0x002f, 0x00ff]
}

pub open spec fn curl_8_openssl_extensions() -> Seq<u16> {
    seq![0x0000u16, 0x000b, 0x000a, 0x0010, 0x0016, 0x0017, 0x0031, 0x000d, 0x002b, 0x002d, 0x0033, 0x0015]
}

pub open spec fn curl_8_openssl_groups() -> Seq<u16> {
    seq![0x001du16, 0x0017, 0x001e, 0x0019, 0x0018, 0x0100, 0x0101, 0x0102, 0x0103, 0x0104]
}

pub open spec fn curl_8_openssl_point_formats() -> Seq<u8> {
    seq![0x00u8, 0x01, 0x02]
}

pub open spec fn curl_8_openssl_sig_algs() -> Seq<u16> {
    seq![0x0403u16, 0x0503, 0x0603, 0x0807, 0x0808, 0x0809, 0x080a, 0x080b, 0x0804, 0x0805, 0x0806, 0x0401, 0x0501, 0x0601, 0x0303, 0x0301, 0x0302, 0x0402, 0x0502, 0x0602]
}

pub open spec fn ec_point_formats() -> Seq<u8> {
    seq![0x00u8]
}

pub open spec fn firefox_150_ciphers() -> Seq<u16> {
    seq![0x1301u16, 0x1303, 0x1302, 0xc02b, 0xc02f, 0xcca9, 0xcca8, 0xc02c, 0xc030, 0xc00a, 0xc009, 0xc013, 0xc014, 0x009c, 0x009d, 0x002f, 0x0035]
}

pub open spec fn firefox_150_extensions() -> Seq<u16> {
    seq![0x0000u16, 0x0017, 0xff01, 0x000a, 0x000b, 0x0010, 0x0005, 0x0022, 0x0012, 0x0033, 0x002b, 0x000d, 0x002d, 0x001c, 0x001b, 0xfe0d, 0x0029]
}

pub open spec fn firefox_150_groups() -> Seq<u16> {
    seq![0x11ecu16, 0x001d, 0x0017, 0x0018, 0x0019, 0x0100, 0x0101]
}

pub open spec fn firefox_151_ciphers() -> Seq<u16> {
    seq![0x1301u16, 0x1303, 0x1302, 0xc02b, 0xc02f, 0xcca9, 0xcca8, 0xc02c, 0xc030, 0xc00a, 0xc013, 0xc014, 0x009c, 0x009d, 0x002f, 0x0035]
}

pub open spec fn firefox_extensions() -> Seq<u16> {
    seq![0x0000u16, 0x0017, 0xff01, 0x000a, 0x000b, 0x0023, 0x0010, 0x0005, 0x000d, 0x0033, 0x002b, 0x002d, 0x001c, 0x0015]
}

pub open spec fn firefox_sig_algs() -> Seq<u16> {
    seq![0x0403u16, 0x0503, 0x0603, 0x0804, 0x0805, 0x0806, 0x0401, 0x0501, 0x0601, 0x0203, 0x0201]
}

pub open spec fn modern_curves() -> Seq<u16> {
    seq![0x001du16, 0x0017, 0x0018]
}

pub open spec fn safari_18_ciphers() -> Seq<u16> {
    seq![0x1301u16, 0x1302, 0x1303, 0xc02c, 0xc02b, 0xcca9, 0xc030, 0xc02f, 0xcca8, 0xc00a, 0xc009, 0xc014, 0xc013, 0x009d, 0x009c, 0x0035, 0x002f, 0xc008, 0xc012, 0x000a]
}

pub open spec fn safari_18_extensions() -> Seq<u16> {
    seq![0x0000u16, 0x0017, 0xff01, 0x000a, 0x000b, 0x0010, 0x0005, 0x000d, 0x0012, 0x0033, 0x002d, 0x002b, 0x001b, 0x0015]
}

pub open spec fn safari_18_groups() -> Seq<u16> {
    seq![0x001du16, 0x0017, 0x0018, 0x0019]
}

pub open spec fn safari_18_sig_algs() -> Seq<u16> {
    seq![0x0403u16, 0x0804, 0x0401, 0x0503, 0x0203, 0x0805, 0x0501, 0x0806, 0x0601, 0x0201]
}

pub open spec fn tls13_chrome_ciphers() -> Seq<u16> {
    seq![0x1301u16, 0x1302, 0x1303]
}

pub open spec fn tls13_firefox_ciphers() -> Seq<u16> {
    seq![0x1301u16, 0x1303, 0x1302]
}

pub open spec fn tls13_supported_versions() -> Seq<u16> {
    seq![0x0304u16, 0x0303]
}

fn chrome_146_ciphers_slice() -> (r: &'static [u16])
    ensures
        r@ == chrome_146_ciphers(),
{
    let r: &'static [u16] = &[0x1301, 0x1302, 0x1303, 0xc02b, 0xc02f, 0xc02c, 0xc030, 0xcca9, 0xcca8, 0xc013, 0xc014, 0x009c, 0x009d, 0x002f, 0x0035];
    assert(r@ =~= chrome_146_ciphers());
    r
}

fn chrome_146_extensions_slice() -> (r: &'static [u16])
    ensures
        r@ == chrome_146_extensions(),
{
    let r: &'static [u16] = &[0x44cd, 0x0000, 0x002d, 0x000b, 0xfe0d, 0x000a, 0x002b, 0x000d, 0xff01, 0x0005, 0x0033, 0x0010, 0x0012, 0x001b, 0x0017, 0x0023, 0x0029];
    assert(r@ =~= chrome_146_extensions());
    r
}

fn chrome_146_groups_slice() -> (r: &'static [u16])
    ensures
        r@ == chrome_146_groups(),
{
    let r: &'static [u16] = &[0x11ec, 0x001d, 0x0017, 0x0018];
    assert(r@ =~= chrome_146_groups());
    r
}

fn chrome_extensions_slice() -> (r: &'static [u16])
    ensures
        r@ == chrome_extensions(),
{
    let r: &'static [u16] = &[0x0000, 0x0017, 0xff01, 0x000a, 0x000b, 0x0023, 0x0010, 0x0005, 0x0012, 0x0033, 0x002b, 0x000d, 0x002d, 0x001c, 0x001b];
    assert(r@ =~= chrome_extensions());
    r
}

fn chrome_sig_algs_slice() -> (r: &'static [u16])
    ensures
        r@ == chrome_sig_algs(),
{
    let r: &'static [u16] = &[0x0403, 0x0804, 0x0401, 0x0503, 0x0805, 0x0501, 0x0806, 0x0601];
    assert(r@ =~= chrome_sig_algs());
    r
}

fn curl_8_openssl_ciphers_slice() -> (r: &'static [u16])
    ensures
        r@ == curl_8_openssl_ciphers(),
{
    let r: &'static [u16] = &[0x1302, 0x1303, 0x1301, 0xc02c, 0xc030, 0x009f, 0xcca9, 0xcca8, 0xccaa, 0xc02b, 0xc02f, 0x009e, 0xc024, 0xc028, 0x006b, 0xc023, 0xc027, 0x0067, 0xc00a, 0xc014, 0x0039, 0xc009, 0xc013, 0x0033, 0x009d, 0x009c, 0x003d, 0x003c, 0x0035, 0x002f, 0x00ff];
    assert(r@ =~= curl_8_openssl_ciphers());
    r
}

fn curl_8_openssl_extensions_slice() -> (r: &'static [u16])
    ensures
        r@ == curl_8_openssl_extensions(),
{
    let r: &'static [u16] = &[0x0000, 0x000b, 0x000a, 0x0010, 0x0016, 0x0017, 0x0031, 0x000d, 0x002b, 0x002d, 0x0033, 0x0015];
    assert(r@ =~= curl_8_openssl_extensions());
    r
}

fn curl_8_openssl_groups_slice() -> (r: &'static [u16])
    ensures
        r@ == curl_8_openssl_groups(),
{
    let r: &'static [u16] = &[0x001d, 0x0017, 0x001e, 0x0019, 0x0018, 0x0100, 0x0101, 0x0102, 0x0103, 0x0104];
    assert(r@ =~= curl_8_openssl_groups());
    r
}

fn curl_8_openssl_point_formats_slice() -> (r: &'static [u8])
    ensures
        r@ == curl_8_openssl_point_formats(),
{
    let r: &'static [u8] = &[0x00, 0x01, 0x02];
    assert(r@ =~= curl_8_openssl_point_formats());
    r
}

fn curl_8_openssl_sig_algs_slice() -> (r: &'static [u16])
    ensures
        r@ == curl_8_openssl_sig_algs(),
{
    let r: &'static [u16] = &[0x0403, 0x0503, 0x0603, 0x0807, 0x0808, 0x0809, 0x080a, 0x080b, 0x0804, 0x0805, 0x0806, 0x0401, 0x0501, 0x0601, 0x0303, 0x0301, 0x0302, 0x0402, 0x0502, 0x0602];
    assert(r@ =~= curl_8_openssl_sig_algs());
    r
}

fn ec_point_formats_slice() -> (r: &'static [u8])
    ensures
        r@ == ec_point_formats(),
{
    let r: &'static [u8] = &[0x00];
    assert(r@ =~= ec_point_formats());
    r
}

fn firefox_150_ciphers_slice() -> (r: &'static [u16])
    ensures
        r@ == firefox_150_ciphers(),
{
    let r: &'static [u16] = &[0x1301, 0x1303, 0x1302, 0xc02b, 0xc02f, 0xcca9, 0xcca8, 0xc02c, 0xc030, 0xc00a, 0xc009, 0xc013, 0xc014, 0x009c, 0x009d, 0x002f, 0x0035];
    assert(r@ =~= firefox_150_ciphers());
    r
}

fn firefox_150_extensions_slice() -> (r: &'static [u16])
    ensures
        r@ == firefox_150_extensions(),
{
    let r: &'static [u16] = &[0x0000, 0x0017, 0xff01, 0x000a, 0x000b, 0x0010, 0x0005, 0x0022, 0x0012, 0x0033, 0x002b, 0x000d, 0x002d, 0x001c, 0x001b, 0xfe0d, 0x0029];
    assert(r@ =~= firefox_150_extensions());
    r
}

fn firefox_150_groups_slice() -> (r: &'static [u16])
    ensures
        r@ == firefox_150_groups(),
{
    let r: &'static [u16] = &[0x11ec, 0x001d, 0x0017, 0x0018, 0x0019, 0x0100, 0x0101];
    assert(r@ =~= firefox_150_groups());
    r
}

fn firefox_151_ciphers_slice() -> (r: &'static [u16])
    ensures
        r@ == firefox_151_ciphers(),
{
    let r: &'static [u16] = &[0x1301, 0x1303, 0x1302, 0xc02b, 0xc02f, 0xcca9, 0xcca8, 0xc02c, 0xc030, 0xc00a, 0xc013, 0xc014, 0x009c, 0x009d, 0x002f, 0x0035];
    assert(r@ =~= firefox_151_ciphers());
    r
}

fn firefox_extensions_slice() -> (r: &'static [u16])
    ensures
        r@ == firefox_extensions(),
{
    let r: &'static [u16] = &[0x0000, 0x0017, 0xff01, 0x000a, 0x000b, 0x0023, 0x0010, 0x0005, 0x000d, 0x0033, 0x002b, 0x002d, 0x001c, 0x0015];
    assert(r@ =~= firefox_extensions());
    r
}

fn firefox_sig_algs_slice() -> (r: &'static [u16])
    ensures
        r@ == firefox_sig_algs(),
{
    let r: &'static [u16] = &[0x0403, 0x0503, 0x0603, 0x0804, 0x0805, 0x0806, 0x0401, 0x0501, 0x0601, 0x0203, 0x0201];
    assert(r@ =~= firefox_sig_algs());
    r
}

fn modern_curves_slice() -> (r: &'static [u16])
    ensures
        r@ == modern_curves(),
{
    let r: &'static [u16] = &[0x001d, 0x0017, 0x0018];
    assert(r@ =~= modern_curves());
    r
}

fn safari_18_ciphers_slice() -> (r: &'static [u16])
    ensures
        r@ == safari_18_ciphers(),
{
    let r: &'static [u16] = &[0x1301, 0x1302, 0x1303, 0xc02c, 0xc02b, 0xcca9, 0xc030, 0xc02f, 0xcca8, 0xc00a, 0xc009, 0xc014, 0xc013, 0x009d, 0x009c, 0x0035, 0x002f, 0xc008, 0xc012, 0x000a];
    assert(r@ =~= safari_18_ciphers());
    r
}

fn safari_18_extensions_slice() -> (r: &'static [u16])
    ensures
        r@ == safari_18_extensions(),
{
    let r: &'static [u16] = &[0x0000, 0x0017, 0xff01, 0x000a, 0x000b, 0x0010, 0x0005, 0x000d, 0x0012, 0x0033, 0x002d, 0x002b, 0x001b, 0x0015];
    assert(r@ =~= safari_18_extensions());
    r
}

fn safari_18_groups_slice() -> (r: &'static [u16])
    ensures
        r@ == safari_18_groups(),
{
    let r: &'static [u16] = &[0x001d, 0x0017, 0x0018, 0x0019];
    assert(r@ =~= safari_18_groups());
    r
}

fn safari_18_sig_algs_slice() -> (r: &'static [u16])
    ensures
        r@ == safari_18_sig_algs(),
{
    let r: &'static [u16] = &[0x0403, 0x0804, 0x0401, 0x0503, 0x0203, 0x0805, 0x0501, 0x0806, 0x0601, 0x0201];
    assert(r@ =~= safari_18_sig_algs());
    r
}

fn tls13_chrome_ciphers_slice() -> (r: &'static [u16])
    ensures
        r@ == tls13_chrome_ciphers(),
{
    let r: &'static [u16] = &[0x1301, 0x1302, 0x1303];
    assert(r@ =~= tls13_chrome_ciphers());
    r
}

fn tls13_firefox_ciphers_slice() -> (r: &'static [u16])
    ensures
        r@ == tls13_firefox_ciphers(),
{
    let r: &'static [u16] = &[0x1301, 0x1303, 0x1302];
    assert(r@ =~= tls13_firefox_ciphers());
    r
}

fn tls13_supported_versions_slice() -> (r: &'static [u16])
    ensures
        r@ == tls13_supported_versions(),
{
    let r: &'static [u16] = &[0x0304, 0x0303];
    assert(r@ =~= tls13_supported_versions());
    r
}

/// Every catalogue profile, in catalogue order.
pub open spec fn profile_catalog() -> Seq<TlsView> {
    seq![
        TlsView {
            name: "Chrome 146"@,
            tls_version: 0x0303,
            cipher_suites: chrome_146_ciphers(),
            extensions: chrome_146_extensions(),
            elliptic_curves: chrome_146_groups(),
            ec_point_formats: ec_point_formats(),
            alpn_protocols: seq!["h2"@, "http/1.1"@],
            expected_ja3: "9c713794cc9790422a2bc435e7038fbf"@,
            signature_algorithms: chrome_sig_algs(),
            include_grease: true,
            supported_versions: tls13_supported_versions(),
        },
        TlsView {
            name: "Chrome 122 / Windows 11"@,
            tls_version: 0x0303,
            cipher_suites: tls13_chrome_ciphers(),
            extensions: chrome_extensions(),
            elliptic_curves: modern_curves(),
            ec_point_formats: ec_point_formats(),
            alpn_protocols: seq!["h2"@, "http/1.1"@],
            expected_ja3: "34145283fb0bab20d333c7ee0cc6cd3e"@,
            signature_algorithms: chrome_sig_algs(),
            include_grease: true,
            supported_versions: tls13_supported_versions(),
        },
        TlsView {
            name: "Chrome 120 / macOS 14"@,
            tls_version: 0x0303,
            cipher_suites: tls13_chrome_ciphers(),
            extensions: chrome_extensions(),
            elliptic_curves: modern_curves(),
            ec_point_formats: ec_point_formats(),
            alpn_protocols: seq!["h2"@, "http/1.1"@],
            expected_ja3: "34145283fb0bab20d333c7ee0cc6cd3e"@,
            signature_algorithms: chrome_sig_algs(),
            include_grease: true,
            supported_versions: tls13_supported_versions(),
        },
        TlsView {
            name: "Firefox 150"@,
            tls_version: 0x0303,
            cipher_suites: firefox_150_ciphers(),
            extensions: firefox_150_extensions(),
            elliptic_curves: firefox_150_groups(),
            ec_point_formats: ec_point_formats(),
            alpn_protocols: seq!["h2"@, "http/1.1"@],
            expected_ja3: "0e76c7e9d06fa0e211b1827687dd8f43"@,
            signature_algorithms: firefox_sig_algs(),
            include_grease: false,
            supported_versions: tls13_supported_versions(),
        },
        TlsView {
            name: "Firefox 151"@,
            tls_version: 0x0303,
            cipher_suites: firefox_151_ciphers(),
            extensions: firefox_150_extensions(),
            elliptic_curves: firefox_150_groups(),
            ec_point_formats: ec_point_formats(),
            alpn_protocols: seq!["h2"@, "http/1.1"@],
            expected_ja3: "f19d54c853fffdd9eeab77ae607448e9"@,
            signature_algorithms: firefox_sig_algs(),
            include_grease: false,
            supported_versions: tls13_supported_versions(),
        },
        TlsView {
            name: "Firefox 115 ESR / Windows 10"@,
            tls_version: 0x0303,
            cipher_suites: tls13_firefox_ciphers(),
            extensions: firefox_extensions(),
            elliptic_curves: modern_curves(),
            ec_point_formats: ec_point_formats(),
            alpn_protocols: seq!["h2"@, "http/1.1"@],
            expected_ja3: "384ed43bffc9b99525a25fa1bc6d607e"@,
            signature_algorithms: firefox_sig_algs(),
            include_grease: false,
            supported_versions: tls13_supported_versions(),
        },
        TlsView {
            name: "Safari 18 / macOS"@,
            tls_version: 0x0303,
            cipher_suites: safari_18_ciphers(),
            extensions: safari_18_extensions(),
            elliptic_curves: safari_18_groups(),
            ec_point_formats: ec_point_formats(),
            alpn_protocols: seq!["h2"@, "http/1.1"@],
            expected_ja3: "773906b0efdefa24a7f2b8eb6985bf37"@,
            signature_algorithms: safari_18_sig_algs(),
            include_grease: false,
            supported_versions: tls13_supported_versions(),
        },
        TlsView {
            name: "curl 8 / OpenSSL 3"@,
            tls_version: 0x0303,
            cipher_suites: curl_8_openssl_ciphers(),
            extensions: curl_8_openssl_extensions(),
            elliptic_curves: curl_8_openssl_groups(),
            ec_point_formats: curl_8_openssl_point_formats(),
            alpn_protocols: seq!["h2"@, "http/1.1"@],
            expected_ja3: "0149f47eabf9a20d0893e2a44e5a6323"@,
            signature_algorithms: curl_8_openssl_sig_algs(),
            include_grease: false,
            supported_versions: tls13_supported_versions(),
        },
        TlsView {
            name: "Safari 18 / iOS"@,
            tls_version: 0x0303,
            cipher_suites: safari_18_ciphers(),
            extensions: safari_18_extensions(),
            elliptic_curves: safari_18_groups(),
            ec_point_formats: ec_point_formats(),
            alpn_protocols: seq!["h2"@, "http/1.1"@],
            expected_ja3: "773906b0efdefa24a7f2b8eb6985bf37"@,
            signature_algorithms: safari_18_sig_algs(),
            include_grease: false,
            supported_versions: tls13_supported_versions(),
        },
        TlsView {
            name: "Python requests / urllib3 (OpenSSL 3.0.13)"@,
            tls_version: 0x0303,
            cipher_suites: curl_8_openssl_ciphers(),
            extensions: curl_8_openssl_extensions(),
            elliptic_curves: curl_8_openssl_groups(),
            ec_point_formats: curl_8_openssl_point_formats(),
            alpn_protocols: seq!["http/1.1"@],
            expected_ja3: "0149f47eabf9a20d0893e2a44e5a6323"@,
            signature_algorithms: curl_8_openssl_sig_algs(),
            include_grease: false,
            supported_versions: tls13_supported_versions(),
        },
    ]
}

/// Every catalogue profile, in catalogue order.
pub fn all_profiles() -> (r: Vec<TlsProfile>)
    ensures
        r@.len() == profile_catalog().len(),
        forall|i: int| 0 <= i < r@.len() ==> #[trigger] r@[i]@ == profile_catalog()[i],
{
    let r = vec![
        TlsProfile {
            name: "Chrome 146",
            tls_version: 0x0303,
            cipher_suites: chrome_146_ciphers_slice(),
            extensions: chrome_146_extensions_slice(),
            elliptic_curves: chrome_146_groups_slice(),
            ec_point_formats: ec_point_formats_slice(),
            alpn_protocols: &["h2", "http/1.1"],
            expected_ja3: "9c713794cc9790422a2bc435e7038fbf",
            signature_algorithms: chrome_sig_algs_slice(),
            include_grease: true,
            supported_versions: tls13_supported_versions_slice(),
        },
        TlsProfile {
            name: "Chrome 122 / Windows 11",
            tls_version: 0x0303,
            cipher_suites: tls13_chrome_ciphers_slice(),
            extensions: chrome_extensions_slice(),
            elliptic_curves: modern_curves_slice(),
            ec_point_formats: ec_point_formats_slice(),
            alpn_protocols: &["h2", "http/1.1"],
            expected_ja3: "34145283fb0bab20d333c7ee0cc6cd3e",
            signature_algorithms: chrome_sig_algs_slice(),
            include_grease: true,
            supported_versions: tls13_supported_versions_slice(),
        },
        TlsProfile {
            name: "Chrome 120 / macOS 14",
            tls_version: 0x0303,
            cipher_suites: tls13_chrome_ciphers_slice(),
            extensions: chrome_extensions_slice(),
            elliptic_curves: modern_curves_slice(),
            ec_point_formats: ec_point_formats_slice(),
            alpn_protocols: &["h2", "http/1.1"],
            expected_ja3: "34145283fb0bab20d333c7ee0cc6cd3e",
            signature_algorithms: chrome_sig_algs_slice(),
            include_grease: true,
            supported_versions: tls13_supported_versions_slice(),
        },
        TlsProfile {
            name: "Firefox 150",
            tls_version: 0x0303,
            cipher_suites: firefox_150_ciphers_slice(),
            extensions: firefox_150_extensions_slice(),
            elliptic_curves: firefox_150_groups_slice(),
            ec_point_formats: ec_point_formats_slice(),
            alpn_protocols: &["h2", "http/1.1"],
            expected_ja3: "0e76c7e9d06fa0e211b1827687dd8f43",
            signature_algorithms: firefox_sig_algs_slice(),
            include_grease: false,
            supported_versions: tls13_supported_versions_slice(),
        },
        TlsProfile {
            name: "Firefox 151",
            tls_version: 0x0303,
            cipher_suites: firefox_151_ciphers_slice(),
            extensions: firefox_150_extensions_slice(),
            elliptic_curves: firefox_150_groups_slice(),
            ec_point_formats: ec_point_formats_slice(),
            alpn_protocols: &["h2", "http/1.1"],
            expected_ja3: "f19d54c853fffdd9eeab77ae607448e9",
            signature_algorithms: firefox_sig_algs_slice(),
            include_grease: false,
            supported_versions: tls13_supported_versions_slice(),
        },
        TlsProfile {
            name: "Firefox 115 ESR / Windows 10",
            tls_version: 0x0303,
            cipher_suites: tls13_firefox_ciphers_slice(),
            extensions: firefox_extensions_slice(),
            elliptic_curves: modern_curves_slice(),
            ec_point_formats: ec_point_formats_slice(),
            alpn_protocols: &["h2", "http/1.1"],
            expected_ja3: "384ed43bffc9b99525a25fa1bc6d607e",
            signature_algorithms: firefox_sig_algs_slice(),
            include_grease: false,
            supported_versions: tls13_supported_versions_slice(),
        },
        TlsProfile {
            name: "Safari 18 / macOS",
            tls_version: 0x0303,
            cipher_suites: safari_18_ciphers_slice(),
            extensions: safari_18_extensions_slice(),
            elliptic_curves: safari_18_groups_slice(),
            ec_point_formats: ec_point_formats_slice(),
            alpn_protocols: &["h2", "http/1.1"],
            expected_ja3: "773906b0efdefa24a7f2b8eb6985bf37",
            signature_algorithms: safari_18_sig_algs_slice(),
            include_grease: false,
            supported_versions: tls13_supported_versions_slice(),
        },
        TlsProfile {
            name: "curl 8 / OpenSSL 3",
            tls_version: 0x0303,
            cipher_suites: curl_8_openssl_ciphers_slice(),
            extensions: curl_8_openssl_extensions_slice(),
            elliptic_curves: curl_8_openssl_groups_slice(),
            ec_point_formats: curl_8_openssl_point_formats_slice(),
            alpn_protocols: &["h2", "http/1.1"],
            expected_ja3: "0149f47eabf9a20d0893e2a44e5a6323",
            signature_algorithms: curl_8_openssl_sig_algs_slice(),
            include_grease: false,
            supported_versions: tls13_supported_versions_slice(),
        },
        TlsProfile {
            name: "Safari 18 / iOS",
            tls_version: 0x0303,
            cipher_suites: safari_18_ciphers_slice(),
            extensions: safari_18_extensions_slice(),
            elliptic_curves: safari_18_groups_slice(),
            ec_point_formats: ec_point_formats_slice(),
            alpn_protocols: &["h2", "http/1.1"],
            expected_ja3: "773906b0efdefa24a7f2b8eb6985bf37",
            signature_algorithms: safari_18_sig_algs_slice(),
            include_grease: false,
            supported_versions: tls13_supported_versions_slice(),
        },
        TlsProfile {
            name: "Python requests / urllib3 (OpenSSL 3.0.13)",
            tls_version: 0x0303,
            cipher_suites: curl_8_openssl_ciphers_slice(),
            extensions: curl_8_openssl_extensions_slice(),
            elliptic_curves: curl_8_openssl_groups_slice(),
            ec_point_formats: curl_8_openssl_point_formats_slice(),
            alpn_protocols: &["http/1.1"],
            expected_ja3: "0149f47eabf9a20d0893e2a44e5a6323",
            signature_algorithms: curl_8_openssl_sig_algs_slice(),
            include_grease: false,
            supported_versions: tls13_supported_versions_slice(),
        },
    ];
    assert(r@.len() == profile_catalog().len());
    assert forall|i: int| 0 <= i < r@.len() implies #[trigger] r@[i]@ == profile_catalog()[i] by {
        assert(r@[i]@.alpn_protocols =~= profile_catalog()[i].alpn_protocols);
    }
    r
}

} // verus!
