//! Deterministic tray-icon color, reduced from the status snapshot with a
//! fixed priority, and applied idempotently: the icon asset is only decoded
//! and swapped when the computed color differs from the one currently shown,
//! and the currently-applied record is advanced only after a successful swap.

use vstd::prelude::*;

use crate::status::{ConnectivityStatus, EngineStatus, ProxyStatus, StatusCache, StatusDomain,
    StatusValue};

verus! {

#[derive(Debug, Clone, Copy, PartialEq, Eq, Structural)]
pub enum TrayIconColor {
    Grey,
    Green,
    Red,
    Yellow,
}

/// A decoded icon: raw RGBA pixel data with its dimensions, ready to be
/// handed to the windowing toolkit.
#[derive(Debug, Clone, PartialEq, Eq)]
pub struct RawImage {
    pub data: Vec<u8>,
    pub width: u32,
    pub height: u32,
}

/// The PNG asset for each tray color: a single pixel of the color, encoded
/// as an RGBA PNG.
pub closed spec fn icon_bytes_spec(color: TrayIconColor) -> Seq<u8> {
    match color {
        TrayIconColor::Grey => seq![
            0x89u8, 0x50, 0x4e, 0x47, 0x0d, 0x0a, 0x1a, 0x0a, 0x00, 0x00, 0x00, 0x0d,
            0x49, 0x48, 0x44, 0x52, 0x00, 0x00, 0x00, 0x01, 0x00, 0x00, 0x00, 0x01,
            0x08, 0x06, 0x00, 0x00, 0x00, 0x1f, 0x15, 0xc4, 0x89, 0x00, 0x00, 0x00,
            0x0d, 0x49, 0x44, 0x41, 0x54, 0x78, 0xda, 0x63, 0x68, 0x68, 0x68, 0xf8,
            0x0f, 0x00, 0x05, 0x84, 0x02, 0x80, 0x53, 0x93, 0x74, 0x36, 0x00, 0x00,
            0x00, 0x00, 0x49, 0x45, 0x4e, 0x44, 0xae, 0x42, 0x60, 0x82,
        ],
        TrayIconColor::Green => seq![
            0x89u8, 0x50, 0x4e, 0x47, 0x0d, 0x0a, 0x1a, 0x0a, 0x00, 0x00, 0x00, 0x0d,
            0x49, 0x48, 0x44, 0x52, 0x00, 0x00, 0x00, 0x01, 0x00, 0x00, 0x00, 0x01,
            0x08, 0x06, 0x00, 0x00, 0x00, 0x1f, 0x15, 0xc4, 0x89, 0x00, 0x00, 0x00,
            0x0d, 0x49, 0x44, 0x41, 0x54, 0x78, 0xda, 0x63, 0x60, 0xf8, 0xcf, 0xf0,
            0x1f, 0x00, 0x04, 0x01, 0x01, 0xff, 0xae, 0xb5, 0x55, 0xf5, 0x00, 0x00,
            0x00, 0x00, 0x49, 0x45, 0x4e, 0x44, 0xae, 0x42, 0x60, 0x82,
        ],
        TrayIconColor::Red => seq![
            0x89u8, 0x50, 0x4e, 0x47, 0x0d, 0x0a, 0x1a, 0x0a, 0x00, 0x00, 0x00, 0x0d,
            0x49, 0x48, 0x44, 0x52, 0x00, 0x00, 0x00, 0x01, 0x00, 0x00, 0x00, 0x01,
            0x08, 0x06, 0x00, 0x00, 0x00, 0x1f, 0x15, 0xc4, 0x89, 0x00, 0x00, 0x00,
            0x0d, 0x49, 0x44, 0x41, 0x54, 0x78, 0xda, 0x63, 0xf8, 0xcf, 0xc0, 0xf0,
            0x1f, 0x00, 0x05, 0x00, 0x01, 0xff, 0x56, 0xc7, 0x2f, 0x0d, 0x00, 0x00,
            0x00, 0x00, 0x49, 0x45, 0x4e, 0x44, 0xae, 0x42, 0x60, 0x82,
        ],
        TrayIconColor::Yellow => seq![
            0x89u8, 0x50, 0x4e, 0x47, 0x0d, 0x0a, 0x1a, 0x0a, 0x00, 0x00, 0x00, 0x0d,
            0x49, 0x48, 0x44, 0x52, 0x00, 0x00, 0x00, 0x01, 0x00, 0x00, 0x00, 0x01,
            0x08, 0x06, 0x00, 0x00, 0x00, 0x1f, 0x15, 0xc4, 0x89, 0x00, 0x00, 0x00,
            0x0d, 0x49, 0x44, 0x41, 0x54, 0x78, 0xda, 0x63, 0xf8, 0xff, 0x9f, 0xe1,
            0x3f, 0x00, 0x07, 0xfd, 0x02, 0xfe, 0x79, 0xca, 0xd7, 0xa4, 0x00, 0x00,
            0x00, 0x00, 0x49, 0x45, 0x4e, 0x44, 0xae, 0x42, 0x60, 0x82,
        ],
    }
}

/// The raw RGBA pixels that decoding a PNG byte string yields, or `None`
/// when the bytes are not a decodable image; decoding is a function of the
/// bytes alone.
pub uninterp spec fn png_rgba_of(bytes: Seq<u8>) -> Option<Seq<u8>>;

/// Relies on image::load_from_memory: decoding is deterministic in the bytes
/// alone; the decoded image is converted to raw RGBA pixels (to_rgba8,
/// dimensions, into_raw), whose buffer holds width * height 4-byte pixels.
#[verifier::external_body]
fn decode_png(bytes: &Vec<u8>) -> (r: Result<RawImage, String>)
    ensures
        r is Ok <==> png_rgba_of(bytes@) is Some,
        r matches Ok(img) ==> img.data@ == png_rgba_of(bytes@)->0 && img.data@.len() == 4
            * img.width * img.height,
{
    let img = match image::load_from_memory(bytes) {
        Ok(i) => i,
        Err(e) => {
            return Err(format!("Failed to decode image: {}", e));
        },
    };
    let rgba = img.to_rgba8();
    let (width, height) = rgba.dimensions();
    Ok(RawImage { data: rgba.into_raw(), width, height })
}

impl TrayIconColor {
    /// The fixed PNG asset for this color.
    pub fn get_icon_bytes(&self) -> (r: Vec<u8>)
        ensures
            r@ == icon_bytes_spec(*self),
    {
        let bytes: Vec<u8> =
        match self {
            TrayIconColor::Grey => vec![
                0x89u8, 0x50, 0x4e, 0x47, 0x0d, 0x0a, 0x1a, 0x0a, 0x00, 0x00, 0x00, 0x0d,
                0x49, 0x48, 0x44, 0x52, 0x00, 0x00, 0x00, 0x01, 0x00, 0x00, 0x00, 0x01,
                0x08, 0x06, 0x00, 0x00, 0x00, 0x1f, 0x15, 0xc4, 0x89, 0x00, 0x00, 0x00,
                0x0d, 0x49, 0x44, 0x41, 0x54, 0x78, 0xda, 0x63, 0x68, 0x68, 0x68, 0xf8,
                0x0f, 0x00, 0x05, 0x84, 0x02, 0x80, 0x53, 0x93, 0x74, 0x36, 0x00, 0x00,
                0x00, 0x00, 0x49, 0x45, 0x4e, 0x44, 0xae, 0x42, 0x60, 0x82,
            ],
            TrayIconColor::Green => vec![
                0x89u8, 0x50, 0x4e, 0x47, 0x0d, 0x0a, 0x1a, 0x0a, 0x00, 0x00, 0x00, 0x0d,
                0x49, 0x48, 0x44, 0x52, 0x00, 0x00, 0x00, 0x01, 0x00, 0x00, 0x00, 0x01,
                0x08, 0x06, 0x00, 0x00, 0x00, 0x1f, 0x15, 0xc4, 0x89, 0x00, 0x00, 0x00,
                0x0d, 0x49, 0x44, 0x41, 0x54, 0x78, 0xda, 0x63, 0x60, 0xf8, 0xcf, 0xf0,
                0x1f, 0x00, 0x04, 0x01, 0x01, 0xff, 0xae, 0xb5, 0x55, 0xf5, 0x00, 0x00,
                0x00, 0x00, 0x49, 0x45, 0x4e, 0x44, 0xae, 0x42, 0x60, 0x82,
            ],
            TrayIconColor::Red => vec![
                0x89u8, 0x50, 0x4e, 0x47, 0x0d, 0x0a, 0x1a, 0x0a, 0x00, 0x00, 0x00, 0x0d,
                0x49, 0x48, 0x44, 0x52, 0x00, 0x00, 0x00, 0x01, 0x00, 0x00, 0x00, 0x01,
                0x08, 0x06, 0x00, 0x00, 0x00, 0x1f, 0x15, 0xc4, 0x89, 0x00, 0x00, 0x00,
                0x0d, 0x49, 0x44, 0x41, 0x54, 0x78, 0xda, 0x63, 0xf8, 0xcf, 0xc0, 0xf0,
                0x1f, 0x00, 0x05, 0x00, 0x01, 0xff, 0x56, 0xc7, 0x2f, 0x0d, 0x00, 0x00,
                0x00, 0x00, 0x49, 0x45, 0x4e, 0x44, 0xae, 0x42, 0x60, 0x82,
            ],
            TrayIconColor::Yellow => vec![
                0x89u8, 0x50, 0x4e, 0x47, 0x0d, 0x0a, 0x1a, 0x0a, 0x00, 0x00, 0x00, 0x0d,
                0x49, 0x48, 0x44, 0x52, 0x00, 0x00, 0x00, 0x01, 0x00, 0x00, 0x00, 0x01,
                0x08, 0x06, 0x00, 0x00, 0x00, 0x1f, 0x15, 0xc4, 0x89, 0x00, 0x00, 0x00,
                0x0d, 0x49, 0x44, 0x41, 0x54, 0x78, 0xda, 0x63, 0xf8, 0xff, 0x9f, 0xe1,
                0x3f, 0x00, 0x07, 0xfd, 0x02, 0xfe, 0x79, 0xca, 0xd7, 0xa4, 0x00, 0x00,
                0x00, 0x00, 0x49, 0x45, 0x4e, 0x44, 0xae, 0x42, 0x60, 0x82,
            ],
        }
        ;
        proof {
            assert(bytes@ =~= icon_bytes_spec(*self));
        }
        bytes
    }

    /// Decode this color's icon asset into raw RGBA pixels.
    pub fn to_image(&self) -> (r: Result<RawImage, String>)
        ensures
            r is Ok <==> png_rgba_of(icon_bytes_spec(*self)) is Some,
            r matches Ok(img) ==> img.data@ == png_rgba_of(icon_bytes_spec(*self))->0,
    {
        let bytes = self.get_icon_bytes();
        decode_png(&bytes)
    }
}

/// The engine slot holds an error.
pub open spec fn engine_errored(c: StatusCache) -> bool {
    c.slot(StatusDomain::Engine) matches Some(StatusValue::Engine(EngineStatus::Error(_)))
}

/// The proxy slot holds an error.
pub open spec fn proxy_errored(c: StatusCache) -> bool {
    c.slot(StatusDomain::Proxy) matches Some(StatusValue::Proxy(ProxyStatus::Error(_)))
}

/// The proxy slot reports the proxy as started.
pub open spec fn proxy_started(c: StatusCache) -> bool {
    c.slot(StatusDomain::Proxy) matches Some(StatusValue::Proxy(ProxyStatus::Started))
}

/// The connectivity slot reports connectivity as lost.
pub open spec fn connectivity_lost(c: StatusCache) -> bool {
    c.slot(StatusDomain::Connectivity) matches Some(
        StatusValue::Connectivity(ConnectivityStatus::Lost),
    )
}

/// The tray color a snapshot reduces to, first match wins: an engine error
/// or a proxy error is Red; a started proxy with lost connectivity is
/// Yellow; a started proxy otherwise is Green; anything else is Grey.
pub open spec fn tray_color_spec(c: StatusCache) -> TrayIconColor {
    if engine_errored(c) {
        TrayIconColor::Red
    } else if proxy_errored(c) {
        TrayIconColor::Red
    } else if proxy_started(c) && connectivity_lost(c) {
        TrayIconColor::Yellow
    } else if proxy_started(c) {
        TrayIconColor::Green
    } else {
        TrayIconColor::Grey
    }
}

/// A swap is needed exactly when the computed color differs from the
/// currently applied one.
pub open spec fn swap_needed(current: TrayIconColor, c: StatusCache) -> bool {
    tray_color_spec(c) != current
}

/// Reduce the snapshot to its tray color with the fixed priority.
pub fn determine_tray_icon_color(cache: &StatusCache) -> (color: TrayIconColor)
    ensures
        color == tray_color_spec(*cache),
{
    match cache.read(StatusDomain::Engine) {
        Some(StatusValue::Engine(EngineStatus::Error(_))) => {
            return TrayIconColor::Red;
        },
        _ => {},
    }
    match cache.read(StatusDomain::Proxy) {
        Some(StatusValue::Proxy(ProxyStatus::Error(_))) => {
            return TrayIconColor::Red;
        },
        _ => {},
    }
    let started = match cache.read(StatusDomain::Proxy) {
        Some(StatusValue::Proxy(ProxyStatus::Started)) => true,
        _ => false,
    };
    if started {
        match cache.read(StatusDomain::Connectivity) {
            Some(StatusValue::Connectivity(ConnectivityStatus::Lost)) => {
                return TrayIconColor::Yellow;
            },
            _ => {},
        }
        return TrayIconColor::Green;
    }
    TrayIconColor::Grey
}

/// Decide whether the tray icon must be swapped: compute the color from the
/// snapshot, and if it differs from the currently applied color, decode the
/// new color's asset. Returns `None` when no swap is needed or the asset
/// failed to decode; in the latter case the applied record stays unchanged,
/// so the swap is retried on the next triggering event. The applied record
/// is advanced only by [`confirm_tray_icon_applied`], after the shell's swap
/// succeeded.
pub fn update_tray_icon(current: &TrayIconColor, cache: &StatusCache) -> (plan: Option<
    (TrayIconColor, RawImage),
>)
    ensures
        !swap_needed(*current, *cache) ==> plan is None,
        swap_needed(*current, *cache) && png_rgba_of(icon_bytes_spec(tray_color_spec(*cache)))
            is None ==> plan is None,
        swap_needed(*current, *cache) && png_rgba_of(icon_bytes_spec(tray_color_spec(*cache)))
            is Some ==> (plan matches Some(p) && p.0 == tray_color_spec(*cache) && p.1.data@
            == png_rgba_of(icon_bytes_spec(tray_color_spec(*cache)))->0),
{
    let new_color = determine_tray_icon_color(cache);
    if new_color == *current {
        return None;
    }
    match new_color.to_image() {
        Ok(img) => Some((new_color, img)),
        Err(_) => None,
    }
}

/// Record that the shell successfully applied `color` to the tray icon.
/// Called only after a successful swap, never on a failed attempt.
pub fn confirm_tray_icon_applied(current: &mut TrayIconColor, color: TrayIconColor)
    ensures
        *final(current) == color,
{
    *current = color;
}

/// Initialize the tray icon at startup: record the color computed from the
/// first snapshot unconditionally, bypassing the unchanged check, to correct
/// any mismatch left by a prior crash, and hand the shell the decoded asset
/// to apply if it decodes.
pub fn init_tray_icon(current: &mut TrayIconColor, cache: &StatusCache) -> (icon: Option<RawImage>)
    ensures
        *final(current) == tray_color_spec(*cache),
        icon is Some <==> png_rgba_of(icon_bytes_spec(tray_color_spec(*cache))) is Some,
        icon matches Some(img) ==> img.data@ == png_rgba_of(
            icon_bytes_spec(tray_color_spec(*cache)),
        )->0,
{
    let color = determine_tray_icon_color(cache);
    *current = color;
    match color.to_image() {
        Ok(img) => Some(img),
        Err(_) => None,
    }
}

/// Priority: an engine error forces Red even when the proxy is started and
/// connectivity is lost, which alone would give Yellow.
pub proof fn lemma_engine_error_wins(c: StatusCache)
    requires
        engine_errored(c),
    ensures
        tray_color_spec(c) == TrayIconColor::Red,
{
}

/// Idempotence: once the computed color has been applied and confirmed, the
/// same snapshot plans no further swap — the icon swap happens at most once
/// for repeated applications of one color.
pub proof fn lemma_apply_idempotent(c: StatusCache, applied: TrayIconColor)
    requires
        applied == tray_color_spec(c),
    ensures
        !swap_needed(applied, c),
{
}

} // verus!
