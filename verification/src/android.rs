//! Android-side surface handling and asset-path logic.
//!
//! The Android host stores its surface — a native window address plus the
//! surface's resolution and scale factor — in a one-value slot before the
//! engine app is created; window creation takes the stored surface out of
//! the slot and turns it into a window request, unless the slot is empty or
//! the address is null. Asset reads are redirected through the host's asset
//! manager; the path logic for that redirection (building the metadata path
//! of an asset, hiding metadata files from directory listings) lives here.

use crate::plugin::WindowRequest;
use vstd::prelude::*;
use vstd::string::*;

verus! {

/// Android surface information passed from the host.
///
/// The host hands over a pointer to its native window and the surface's
/// size; here the pointer is kept as its address, with zero standing for
/// the null pointer, and the floating-point scale factor as its bit
/// pattern.
#[derive(Debug, Clone, Copy, PartialEq, Eq, Structural)]
pub struct AndroidSurfaceInfo {
    /// Address of the host's native window; zero if the host provided none.
    pub native_window_addr: usize,
    /// Physical width of the surface in pixels.
    pub width: u32,
    /// Physical height of the surface in pixels.
    pub height: u32,
    /// Bit pattern of the host's floating-point scale factor.
    pub scale_factor_bits: u32,
}

impl AndroidSurfaceInfo {
    /// The window request this surface yields: its numbers if the native
    /// window address is valid, nothing if it is null.
    pub open spec fn window_request_spec(&self) -> Option<WindowRequest> {
        if self.native_window_addr == 0 {
            None
        } else {
            Some(
                WindowRequest {
                    width: self.width,
                    height: self.height,
                    scale_factor_bits: self.scale_factor_bits,
                },
            )
        }
    }

    /// The window to create for this surface, or nothing when the host did
    /// not provide a valid native window: then the window is never created
    /// and the window-count check at the end of startup fails.
    pub fn window_request(&self) -> (request: Option<WindowRequest>)
        ensures
            request == self.window_request_spec(),
    {
        if self.native_window_addr == 0 {
            None
        } else {
            Some(
                WindowRequest {
                    width: self.width,
                    height: self.height,
                    scale_factor_bits: self.scale_factor_bits,
                },
            )
        }
    }
}

/// Storage for the surface the host set up for the window being created.
///
/// The slot holds at most one surface: setting overwrites what was there,
/// and getting takes the stored surface out, so a surface is consumed by
/// exactly one window creation.
#[derive(Debug, Default)]
pub struct AndroidSurfaceSlot {
    surface: Option<AndroidSurfaceInfo>,
}

impl AndroidSurfaceSlot {
    /// The stored surface, if any.
    pub closed spec fn view(&self) -> Option<AndroidSurfaceInfo> {
        self.surface
    }

    /// Creates an empty slot.
    pub fn new() -> (slot: Self)
        ensures
            slot@ is None,
    {
        AndroidSurfaceSlot { surface: None }
    }
}

/// Sets the current Android surface (called before app creation),
/// overwriting any surface already stored.
pub fn set_android_surface(slot: &mut AndroidSurfaceSlot, surface: AndroidSurfaceInfo)
    ensures
        final(slot)@ == Some(surface),
{
    slot.surface = Some(surface);
}

/// Takes the stored surface out of the slot, leaving it empty.
pub fn get_android_surface(slot: &mut AndroidSurfaceSlot) -> (surface: Option<AndroidSurfaceInfo>)
    ensures
        surface == old(slot)@,
        final(slot)@ is None,
{
    slot.surface.take()
}

/// Consumes the stored surface and says what window to create for it.
///
/// The window request carries the stored surface's resolution and scale
/// factor; an empty slot or a null native window yields no request. The
/// slot is left empty either way.
pub fn create_window_request(slot: &mut AndroidSurfaceSlot) -> (request: Option<WindowRequest>)
    ensures
        final(slot)@ is None,
        match old(slot)@ {
            Some(info) => request == info.window_request_spec(),
            None => request is None,
        },
{
    match get_android_surface(slot) {
        Some(info) => info.window_request(),
        None => None,
    }
}

/// The path of the metadata file that belongs to an asset path.
pub fn meta_path(path: &str) -> (meta: String)
    ensures
        meta@ == path@ + ".meta"@,
{
    let mut meta = path.to_owned();
    meta.append(".meta");
    meta
}

/// Whether a path names a metadata file: its final component has a
/// non-empty stem followed by the extension `meta`, compared without
/// regard to ASCII case.
pub open spec fn spec_has_meta_extension(name: Seq<char>) -> bool {
    let n = name.len() as int;
    &&& n >= 6
    &&& name[n - 6] != '/'
    &&& name[n - 5] == '.'
    &&& (name[n - 4] == 'm' || name[n - 4] == 'M')
    &&& (name[n - 3] == 'e' || name[n - 3] == 'E')
    &&& (name[n - 2] == 't' || name[n - 2] == 'T')
    &&& (name[n - 1] == 'a' || name[n - 1] == 'A')
}

/// Says whether a path names a metadata file, which directory listings
/// leave out because metadata files are not themselves assets.
pub fn has_meta_extension(name: &str) -> (found: bool)
    ensures
        found == spec_has_meta_extension(name@),
{
    let n = name.unicode_len();
    if n < 6 {
        return false;
    }
    let before = name.get_char(n - 6);
    let dot = name.get_char(n - 5);
    let m = name.get_char(n - 4);
    let e = name.get_char(n - 3);
    let t = name.get_char(n - 2);
    let a = name.get_char(n - 1);
    before != '/' && dot == '.' && (m == 'm' || m == 'M') && (e == 'e' || e == 'E') && (t == 't'
        || t == 'T') && (a == 'a' || a == 'A')
}

/// Keeps, in order, the names in a directory listing that are assets:
/// every name that is not a metadata file.
pub fn visible_asset_names(names: &Vec<String>) -> (visible: Vec<String>)
    ensures
        visible@.map_values(|name: String| name@) == names@.map_values(
            |name: String| name@,
        ).filter(|name: Seq<char>| !spec_has_meta_extension(name)),
{
    let mut visible: Vec<String> = Vec::new();
    let mut i: usize = 0;
    proof {
        reveal(Seq::filter);
        assert(visible@.map_values(|name: String| name@) =~= names@.subrange(0, 0).map_values(
            |name: String| name@,
        ).filter(|name: Seq<char>| !spec_has_meta_extension(name)));
    }
    while i < names.len()
        invariant
            i <= names.len(),
            visible@.map_values(|name: String| name@) =~= names@.subrange(0, i as int).map_values(
                |name: String| name@,
            ).filter(|name: Seq<char>| !spec_has_meta_extension(name)),
        decreases names.len() - i,
    {
        let ghost prefix_views = names@.subrange(0, i as int).map_values(|name: String| name@);
        let keep = !has_meta_extension(names[i].as_str());
        if keep {
            visible.push(names[i].clone());
        }
        proof {
            reveal(Seq::filter);
            let next_views = names@.subrange(0, i + 1).map_values(|name: String| name@);
            assert(next_views =~= prefix_views.push(names@[i as int]@));
            assert(next_views.drop_last() =~= prefix_views);
            assert(next_views.filter(|name: Seq<char>| !spec_has_meta_extension(name)) == (
            if !spec_has_meta_extension(names@[i as int]@) {
                prefix_views.filter(|name: Seq<char>| !spec_has_meta_extension(name)).push(
                    names@[i as int]@,
                )
            } else {
                prefix_views.filter(|name: Seq<char>| !spec_has_meta_extension(name))
            }));
            assert(visible@.map_values(|name: String| name@) =~= next_views.filter(
                |name: Seq<char>| !spec_has_meta_extension(name),
            ));
        }
        i += 1;
    }
    proof {
        assert(names@.subrange(0, names@.len() as int) =~= names@);
    }
    visible
}

} // verus!
