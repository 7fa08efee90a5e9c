//! Tests for the platform surface handling and the Android asset-path
//! logic.

use bevy_embedded::android::{
    create_window_request, get_android_surface, has_meta_extension, meta_path,
    set_android_surface, visible_asset_names, AndroidSurfaceInfo, AndroidSurfaceSlot,
};
use bevy_embedded::ios::EmbeddedSurfaceInfo;
use bevy_embedded::plugin::WindowRequest;

#[test]
fn ios_surface_with_view_yields_window_request() {
    let info = EmbeddedSurfaceInfo {
        ui_view_addr: 0x1000,
        width: 390,
        height: 844,
        scale_factor_bits: 3.0f32.to_bits(),
    };
    assert_eq!(
        info.window_request(),
        Some(WindowRequest { width: 390, height: 844, scale_factor_bits: 3.0f32.to_bits() })
    );
}

#[test]
fn ios_surface_without_view_yields_no_window() {
    let info = EmbeddedSurfaceInfo {
        ui_view_addr: 0,
        width: 390,
        height: 844,
        scale_factor_bits: 3.0f32.to_bits(),
    };
    assert_eq!(info.window_request(), None);
}

#[test]
fn android_surface_slot_hands_surface_out_once() {
    let mut slot = AndroidSurfaceSlot::new();
    let info = AndroidSurfaceInfo {
        native_window_addr: 0x2000,
        width: 1080,
        height: 2400,
        scale_factor_bits: 2.75f32.to_bits(),
    };
    set_android_surface(&mut slot, info);
    assert_eq!(get_android_surface(&mut slot), Some(info));
    assert_eq!(get_android_surface(&mut slot), None);
}

#[test]
fn android_window_request_consumes_stored_surface() {
    let mut slot = AndroidSurfaceSlot::new();
    set_android_surface(
        &mut slot,
        AndroidSurfaceInfo {
            native_window_addr: 0x2000,
            width: 1080,
            height: 2400,
            scale_factor_bits: 2.75f32.to_bits(),
        },
    );
    assert_eq!(
        create_window_request(&mut slot),
        Some(WindowRequest { width: 1080, height: 2400, scale_factor_bits: 2.75f32.to_bits() })
    );
    assert_eq!(create_window_request(&mut slot), None);
}

#[test]
fn android_null_native_window_yields_no_window() {
    let mut slot = AndroidSurfaceSlot::new();
    set_android_surface(
        &mut slot,
        AndroidSurfaceInfo {
            native_window_addr: 0,
            width: 1080,
            height: 2400,
            scale_factor_bits: 2.75f32.to_bits(),
        },
    );
    assert_eq!(create_window_request(&mut slot), None);
}

#[test]
fn empty_slot_yields_no_window() {
    let mut slot = AndroidSurfaceSlot::new();
    assert_eq!(create_window_request(&mut slot), None);
}

#[test]
fn setting_a_surface_overwrites_the_previous_one() {
    let mut slot = AndroidSurfaceSlot::new();
    let first = AndroidSurfaceInfo {
        native_window_addr: 0x1,
        width: 1,
        height: 1,
        scale_factor_bits: 1.0f32.to_bits(),
    };
    let second = AndroidSurfaceInfo {
        native_window_addr: 0x2,
        width: 2,
        height: 2,
        scale_factor_bits: 1.0f32.to_bits(),
    };
    set_android_surface(&mut slot, first);
    set_android_surface(&mut slot, second);
    assert_eq!(get_android_surface(&mut slot), Some(second));
}

#[test]
fn meta_path_appends_the_meta_suffix() {
    assert_eq!(meta_path("textures/cube.png"), "textures/cube.png.meta");
    assert_eq!(meta_path("models/ship"), "models/ship.meta");
    assert_eq!(meta_path(""), ".meta");
}

#[test]
fn meta_extension_is_recognized_without_regard_to_case() {
    assert!(has_meta_extension("cube.png.meta"));
    assert!(has_meta_extension("cube.META"));
    assert!(has_meta_extension("dir/cube.MeTa"));
}

#[test]
fn names_without_meta_extension_are_not_metadata() {
    assert!(!has_meta_extension("cube.png"));
    assert!(!has_meta_extension("cubemeta"));
    assert!(!has_meta_extension("cube.metax"));
    assert!(!has_meta_extension(".meta"));
    assert!(!has_meta_extension("dir/.meta"));
    assert!(!has_meta_extension(""));
}

#[test]
fn directory_listing_hides_metadata_files() {
    let names = vec![
        "cube.png".to_string(),
        "cube.png.meta".to_string(),
        "ship.gltf".to_string(),
        "ship.gltf.META".to_string(),
        "notes.txt".to_string(),
    ];
    let visible = visible_asset_names(&names);
    assert_eq!(
        visible,
        vec!["cube.png".to_string(), "ship.gltf".to_string(), "notes.txt".to_string()]
    );
}

#[test]
fn listing_without_metadata_is_unchanged() {
    let names = vec!["a.png".to_string(), "b.png".to_string()];
    assert_eq!(visible_asset_names(&names), names);
}
