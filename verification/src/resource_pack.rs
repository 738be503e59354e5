//! Resource packs found on disk, as listed in the resource pack menu: the
//! icon a pack's `pack.png` gives and the description and format its
//! `pack.mcmeta` gives.
use vstd::prelude::*;
use crate::bytes::opt_bytes_view;

verus! {

/// The pack format of 1.8.9 resource packs.
pub const MC_PACK_FORMAT: i32 = 1;

/// A resource pack found in the resource pack folder.
#[derive(Clone, Debug)]
pub struct ResourcePackInfo {
    pub name: String,
    pub enabled: bool,
    pub is_default: bool,
    pub description: String,
    pub pack_format: i32,
    /// 32x32 RGBA icon pixels, when the pack has an icon.
    pub icon: Option<[u8; 4096]>,
}

/// Whether the pack named `name` is among the enabled packs.
pub fn pack_is_enabled(enabled: &[String], name: &str) -> (r: bool)
    ensures
        r == exists|i: int| 0 <= i < enabled@.len() && #[trigger] enabled@[i]@ == name@,
{
    let mut i: usize = 0;
    while i < enabled.len()
        invariant
            i <= enabled@.len(),
            forall|k: int| 0 <= k < i ==> #[trigger] enabled@[k]@ != name@,
        decreases enabled.len() - i,
    {
        if crate::text::str_eq(enabled[i].as_str(), name) {
            return true;
        }
        i = i + 1;
    }
    false
}

/// Whether a pack's format is the one 1.8.9 expects.
pub fn pack_format_matches(info: &ResourcePackInfo) -> (r: bool)
    ensures
        r == (info.pack_format == MC_PACK_FORMAT),
{
    info.pack_format == MC_PACK_FORMAT
}

/// Side of the square pack icon, in pixels.
pub const PACK_ICON_SIZE: u32 = 32;

/// Bytes of the RGBA pack icon.
pub const PACK_ICON_BYTES: usize = 4096;

/// The RGBA pixels, row by row, that the `image` crate gives for an
/// encoded image `bytes` resized to `width` x `height` with the nearest
/// filter; `None` where it cannot decode `bytes`.
pub uninterp spec fn resized_rgba(bytes: Seq<u8>, width: u32, height: u32) -> Option<Seq<u8>>;

/// `image::load_from_memory` on `bytes`, then `resize_exact` to
/// `width` x `height` with `FilterType::Nearest`, `to_rgba8` and
/// `into_raw`: the decoded pixels, named `resized_rgba`. A decoding error
/// gives `None`.
#[verifier::external_body]
fn decode_resized_rgba(bytes: &[u8], width: u32, height: u32) -> (r: Option<Vec<u8>>)
    requires
        width > 0,
        height > 0,
    ensures
        opt_bytes_view(r) == resized_rgba(bytes@, width, height),
{
    match image::load_from_memory(bytes) {
        Ok(img) => Some(
            img.resize_exact(width, height, image::imageops::FilterType::Nearest).to_rgba8().into_raw(),
        ),
        Err(_) => None,
    }
}

/// The icon bytes made of `rgba`: its first 4096 bytes, with zeros after
/// the end of a shorter `rgba`.
pub open spec fn icon_pixels(rgba: Seq<u8>) -> Seq<u8> {
    Seq::new(PACK_ICON_BYTES as nat, |i: int| if i < rgba.len() { rgba[i] } else { 0u8 })
}

/// Copies decoded RGBA pixels into the fixed-size icon buffer.
pub fn icon_from_rgba(rgba: &[u8]) -> (r: [u8; 4096])
    ensures
        r@ == icon_pixels(rgba@),
{
    let mut pixels = [0u8; 4096];
    let n = if rgba.len() < PACK_ICON_BYTES { rgba.len() } else { PACK_ICON_BYTES };
    let mut i: usize = 0;
    while i < n
        invariant
            n <= PACK_ICON_BYTES,
            n <= rgba@.len(),
            n == rgba@.len() || n == PACK_ICON_BYTES,
            i <= n,
            pixels@.len() == PACK_ICON_BYTES,
            forall|k: int| 0 <= k < i ==> pixels@[k] == rgba@[k],
            forall|k: int| i <= k < PACK_ICON_BYTES ==> pixels@[k] == 0u8,
        decreases n - i,
    {
        pixels[i] = rgba[i];
        i = i + 1;
    }
    assert(pixels@ =~= icon_pixels(rgba@));
    pixels
}

/// The 32x32 RGBA icon of a pack whose `pack.png` holds `bytes`; `None`
/// where the image cannot be decoded.
pub fn pack_icon_from_bytes(bytes: &[u8]) -> (r: Option<[u8; 4096]>)
    ensures
        (r is Some) == (resized_rgba(bytes@, PACK_ICON_SIZE, PACK_ICON_SIZE) is Some),
        r matches Some(p) ==> p@ == icon_pixels(
            resized_rgba(bytes@, PACK_ICON_SIZE, PACK_ICON_SIZE)->0,
        ),
{
    match decode_resized_rgba(bytes, PACK_ICON_SIZE, PACK_ICON_SIZE) {
        Some(rgba) => Some(icon_from_rgba(rgba.as_slice())),
        None => None,
    }
}

/// What `serde_json` reads from the JSON text `text`: `None` where it is
/// not JSON; else, of the member `object` of the top-level object, the
/// member `str_key` where it is a string and the member `int_key` where it
/// is an integer that fits in an `i64`.
pub uninterp spec fn json_nested_fields(
    text: Seq<char>,
    object: Seq<char>,
    str_key: Seq<char>,
    int_key: Seq<char>,
) -> Option<(Option<Seq<char>>, Option<i64>)>;

/// The fields as plain values.
pub open spec fn fields_view(f: Option<(Option<String>, Option<i64>)>) -> Option<(Option<Seq<char>>, Option<i64>)> {
    match f {
        Some((d, n)) => Some((
            match d {
                Some(s) => Some(s@),
                None => None,
            },
            n,
        )),
        None => None,
    }
}

/// `serde_json::from_str::<Value>` on `text`, then `value[object][str_key]`
/// read by `as_str` and `value[object][int_key]` read by `as_i64` (indexing
/// a missing member gives `Null`, which neither reads): the fields, named
/// `json_nested_fields`. A parse error gives `None`.
#[verifier::external_body]
fn read_json_nested_fields(text: &str, object: &str, str_key: &str, int_key: &str) -> (r: Option<(Option<String>, Option<i64>)>)
    ensures
        fields_view(r) == json_nested_fields(text@, object@, str_key@, int_key@),
{
    match serde_json::from_str::<serde_json::Value>(text) {
        Ok(v) => Some((v[object][str_key].as_str().map(String::from), v[object][int_key].as_i64())),
        Err(_) => None,
    }
}

/// The description and pack format that `pack.mcmeta` fields give: the
/// description where it is a string, else empty; the format where it is
/// an integer, cut to an `i32` as `as` does, else 0. Unreadable JSON
/// gives an empty description and format 0.
pub open spec fn spec_pack_meta(fields: Option<(Option<Seq<char>>, Option<i64>)>) -> (Seq<char>, i32) {
    match fields {
        Some((d, n)) => (
            match d {
                Some(s) => s,
                None => Seq::empty(),
            },
            match n {
                Some(x) => x as i32,
                None => 0,
            },
        ),
        None => (Seq::empty(), 0),
    }
}

/// The description and pack format from read `pack.mcmeta` fields.
pub fn pack_meta_from_fields(fields: Option<(Option<String>, Option<i64>)>) -> (r: (String, i32))
    ensures
        (r.0@, r.1) == spec_pack_meta(fields_view(fields)),
{
    match fields {
        Some((d, n)) => {
            let description = match d {
                Some(s) => s,
                None => String::new(),
            };
            let format: i32 = match n {
                Some(x) => x as i32,
                None => 0,
            };
            (description, format)
        },
        None => (String::new(), 0),
    }
}

/// The description and pack format of a pack whose `pack.mcmeta` holds
/// `text`: `pack.description` and `pack.pack_format`.
pub fn pack_meta_from_text(text: &str) -> (r: (String, i32))
    ensures
        (r.0@, r.1) == spec_pack_meta(
            json_nested_fields(text@, "pack"@, "description"@, "pack_format"@),
        ),
{
    let fields = read_json_nested_fields(text, "pack", "description", "pack_format");
    pack_meta_from_fields(fields)
}

} // verus!
