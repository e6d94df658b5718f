//! The one page the host serves over HTTP: the enrollment QR, shown only
//! while the runtime is ENROLLING. Its content is not secret (it is what
//! the QR shows), and it is only reachable from the local network during
//! the pairing window.
use vstd::prelude::*;
use vstd::string::StringExecFns;
use crate::ext::qr::{qr_svg_of, render_qr_svg};
use crate::protocol::enrollment::EnrollmentQrPayload;

verus! {

/// The port the frontend connects to, announced in the QR.
pub const VAULT_PORT: u16 = 7443;
/// Smallest side of the rendered QR, in pixels.
pub const QR_MIN_SIZE: u32 = 280;

/// Which host program serves the page; the Windows one names its platform.
#[derive(Debug, Clone, Copy, PartialEq, Eq, Structural)]
pub enum PageFlavor {
    Linux,
    Windows,
}

/// The host part of a `Host` header: everything before the first `:`.
pub open spec fn host_part(h: Seq<char>) -> Seq<char>
    decreases h.len(),
{
    if h.len() == 0 {
        h
    } else if h[0] == ':' {
        Seq::empty()
    } else {
        seq![h[0]] + host_part(h.drop_first())
    }
}

/// The host the QR points at: the request's `Host` header without its
/// port, or a placeholder when the request had none.
pub open spec fn qr_host_of(host_header: Option<&str>) -> Seq<char> {
    match host_header {
        Some(h) => host_part(h@),
        None => "<IP-DEL-VAULT>"@,
    }
}

proof fn lemma_host_part_prefix(h: Seq<char>, i: int)
    requires
        0 <= i <= h.len(),
        forall|j: int| 0 <= j < i ==> h[j] != ':',
    ensures
        i == h.len() || h[i] == ':' ==> host_part(h) == h.take(i),
    decreases h.len(),
{
    if h.len() > 0 && i > 0 {
        lemma_host_part_prefix(h.drop_first(), i - 1);
        if i == h.len() || h[i] == ':' {
            assert(h.take(i) =~= seq![h[0]] + h.drop_first().take(i - 1));
        }
    } else if h.len() > 0 && i == 0 {
        if h[0] == ':' {
            assert(h.take(0) =~= Seq::<char>::empty());
        }
    } else {
        assert(h.take(i) =~= h);
    }
}

/// The host the QR points at, from the request's `Host` header.
pub fn qr_host(host_header: Option<&str>) -> (r: String)
    ensures
        r@ == qr_host_of(host_header),
{
    match host_header {
        None => String::from_str("<IP-DEL-VAULT>"),
        Some(h) => {
            let n = h.unicode_len();
            let mut i: usize = 0;
            while i < n
                invariant
                    0 <= i <= n,
                    n == h@.len(),
                    forall|j: int| 0 <= j < i ==> h@[j] != ':',
                ensures
                    0 <= i <= n,
                    n == h@.len(),
                    forall|j: int| 0 <= j < i ==> h@[j] != ':',
                    i == n || h@[i as int] == ':',
                decreases n - i,
            {
                if h.get_char(i) == ':' {
                    break;
                }
                i = i + 1;
            }
            proof {
                lemma_host_part_prefix(h@, i as int);
            }
            String::from_str(h.substring_char(0, i))
        },
    }
}

/// The QR payload announcing the runtime's key, the host and port to
/// connect to, and the pending token.
pub fn qr_payload(v: u8, runtime_pubkey_hex: String, host: String, token: String, expires_unix_ms: u64) -> (r:
    EnrollmentQrPayload)
    ensures
        r.v == v,
        r.runtime_pubkey_hex == runtime_pubkey_hex,
        r.host == host,
        r.port == VAULT_PORT,
        r.token == token,
        r.expires_unix_ms == expires_unix_ms,
{
    EnrollmentQrPayload { v, runtime_pubkey_hex, host, port: VAULT_PORT, token, expires_unix_ms }
}

/// The SVG of the QR of `data`, black on white and at least
/// [`QR_MIN_SIZE`] pixels wide, whenever `data` fits in a QR code.
pub open spec fn enrollment_qr(data: Seq<char>) -> Option<Seq<char>> {
    qr_svg_of(vstd::utf8::encode_utf8(data), QR_MIN_SIZE, "#000000"@, "#ffffff"@)
}

/// The QR of `data` as SVG; only when `data` does not fit in a QR code, a
/// paragraph explaining why it could not be generated.
pub fn qr_code_svg(data: &str) -> (r: String)
    ensures
        enrollment_qr(data@) is Some ==> r@ == enrollment_qr(data@)->Some_0,
        enrollment_qr(data@) is None ==> exists|why: Seq<char>|
            r@ == "<p>No se pudo generar el QR: "@ + why + "</p>"@,
{
    match render_qr_svg(data.as_bytes(), QR_MIN_SIZE, "#000000", "#ffffff") {
        Ok(svg) => svg,
        Err(e) => {
            let why = e.to_string();
            let mut s = String::from_str("<p>No se pudo generar el QR: ");
            s.append(why.as_str());
            s.append("</p>");
            assert(s@ == "<p>No se pudo generar el QR: "@ + why@ + "</p>"@);
            s
        },
    }
}

pub open spec fn page_title(flavor: PageFlavor) -> Seq<char> {
    match flavor {
        PageFlavor::Linux => "Vincular Android Confidential Vault"@,
        PageFlavor::Windows => "Vincular Android Confidential Vault (Windows)"@,
    }
}

pub open spec fn page_heading(flavor: PageFlavor) -> Seq<char> {
    match flavor {
        PageFlavor::Linux => "Vinculá tu teléfono"@,
        PageFlavor::Windows => "Vinculá tu teléfono con Windows"@,
    }
}

/// The page showing the QR `svg` and, as a manual fallback, the payload.
pub open spec fn enroll_page(flavor: PageFlavor, svg: Seq<char>, payload_json: Seq<char>) -> Seq<char> {
    "<!doctype html>\n<html><head><meta charset=\"utf-8\"><title>"@ + page_title(flavor)
        + "</title>\n<style>body{font-family:sans-serif;text-align:center;margin-top:40px}\npre{max-width:500px;margin:20px auto;white-space:pre-wrap;word-break:break-all;\n     background:#f0f0f0;padding:12px;border-radius:6px;text-align:left}</style>\n</head><body>\n<h1>"@
        + page_heading(flavor)
        + "</h1>\n<p>Abrí la app y escaneá este código con la opción \"Vincular con QR\".</p>\n"@
        + svg
        + "\n<p>Este QR expira en unos minutos y deja de servir apenas se vincula un dispositivo.</p>\n<details><summary>Fallback manual (si no podés escanear)</summary><pre>"@
        + payload_json + "</pre></details>\n</body></html>"@
}

/// The page shown while no enrollment is pending.
pub open spec fn no_pending_page(flavor: PageFlavor) -> Seq<char> {
    "<!doctype html><html><body style=\"font-family:sans-serif;text-align:center;margin-top:40px\">\n<h1>"@
        + match flavor {
        PageFlavor::Linux => "No hay enrolamiento pendiente"@,
        PageFlavor::Windows => "No hay enrolamiento pendiente en Windows"@,
    } + "</h1>\n<p>O ya hay un dispositivo vinculado, o <code>vault_runtime</code> todavía no arrancó.</p>\n</body></html>"@
}

/// The enrollment page with the QR `svg` and the payload it encodes.
pub fn enroll_page_html(flavor: PageFlavor, svg: &str, payload_json: &str) -> (r: String)
    ensures
        r@ == enroll_page(flavor, svg@, payload_json@),
{
    let mut s = String::from_str("<!doctype html>\n<html><head><meta charset=\"utf-8\"><title>");
    match flavor {
        PageFlavor::Linux => s.append("Vincular Android Confidential Vault"),
        PageFlavor::Windows => s.append("Vincular Android Confidential Vault (Windows)"),
    }
    s.append(
        "</title>\n<style>body{font-family:sans-serif;text-align:center;margin-top:40px}\npre{max-width:500px;margin:20px auto;white-space:pre-wrap;word-break:break-all;\n     background:#f0f0f0;padding:12px;border-radius:6px;text-align:left}</style>\n</head><body>\n<h1>",
    );
    match flavor {
        PageFlavor::Linux => s.append("Vinculá tu teléfono"),
        PageFlavor::Windows => s.append("Vinculá tu teléfono con Windows"),
    }
    s.append("</h1>\n<p>Abrí la app y escaneá este código con la opción \"Vincular con QR\".</p>\n");
    s.append(svg);
    s.append(
        "\n<p>Este QR expira en unos minutos y deja de servir apenas se vincula un dispositivo.</p>\n<details><summary>Fallback manual (si no podés escanear)</summary><pre>",
    );
    s.append(payload_json);
    s.append("</pre></details>\n</body></html>");
    s
}

/// The page shown while no enrollment is pending: either a device is
/// already paired or the runtime has not started.
pub fn no_pending_enrollment_page(flavor: PageFlavor) -> (r: String)
    ensures
        r@ == no_pending_page(flavor),
{
    let mut s = String::from_str(
        "<!doctype html><html><body style=\"font-family:sans-serif;text-align:center;margin-top:40px\">\n<h1>",
    );
    match flavor {
        PageFlavor::Linux => s.append("No hay enrolamiento pendiente"),
        PageFlavor::Windows => s.append("No hay enrolamiento pendiente en Windows"),
    }
    s.append(
        "</h1>\n<p>O ya hay un dispositivo vinculado, o <code>vault_runtime</code> todavía no arrancó.</p>\n</body></html>",
    );
    s
}

} // verus!
