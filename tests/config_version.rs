use std::cell::Cell;

use avocet::buffers::{VertexArrayLifecycle, VertexBufferLifecycle, VertexObjectKind, VertexResource};
use avocet::config::{
    build_mode, is_debug_mode, is_linux, is_mac, is_release_mode, is_windows, same_text, target_platform,
    BuildMode, TargetPlatform,
};
use avocet::version::{parse_version, OpenGLVersion, VersionCache};

#[test]
fn build_mode_follows_debug_assertions() {
    assert_eq!(build_mode(true), BuildMode::Debug);
    assert_eq!(build_mode(false), BuildMode::Release);
    assert!(is_debug_mode(true));
    assert!(!is_debug_mode(false));
    assert!(is_release_mode(false));
    assert!(!is_release_mode(true));
    assert!(BuildMode::Debug.equals(BuildMode::Debug));
    assert!(!BuildMode::Debug.equals(BuildMode::Release));
}

#[test]
fn target_platform_from_os_name() {
    assert_eq!(target_platform("windows"), Some(TargetPlatform::Windows));
    assert_eq!(target_platform("macos"), Some(TargetPlatform::Mac));
    assert_eq!(target_platform("linux"), Some(TargetPlatform::Linux));
    assert_eq!(target_platform("freebsd"), None);
    assert_eq!(target_platform(""), None);
    assert!(is_windows("windows"));
    assert!(!is_windows("linux"));
    assert!(is_mac("macos"));
    assert!(is_linux("linux"));
    assert!(!is_linux("linu"));
    assert!(TargetPlatform::Mac.equals(TargetPlatform::Mac));
    assert!(!TargetPlatform::Mac.equals(TargetPlatform::Linux));
    assert!(same_text("abc", "abc"));
    assert!(!same_text("abc", "abd"));
}

#[test]
fn debug_message_log_support_boundaries() {
    assert!(OpenGLVersion { major: 4, minor: 6 }.supports_debug_message_log());
    assert!(OpenGLVersion { major: 4, minor: 3 }.supports_debug_message_log());
    assert!(!OpenGLVersion { major: 3, minor: 3 }.supports_debug_message_log());
    assert!(!OpenGLVersion { major: 2, minor: 1 }.supports_debug_message_log());
    // The rule as written also turns down 4.0 to 4.2 and any version above 4
    // with a minor version below 3.
    assert!(!OpenGLVersion { major: 4, minor: 2 }.supports_debug_message_log());
    assert!(!OpenGLVersion { major: 5, minor: 0 }.supports_debug_message_log());
    let latest = OpenGLVersion::latest();
    assert_eq!((latest.major, latest.minor), (4, 6));
}

#[test]
fn version_strings_are_read_at_fixed_offsets() {
    assert_eq!(parse_version("4.6.0 NVIDIA 535.54.03"), Some(OpenGLVersion { major: 4, minor: 6 }));
    assert_eq!(parse_version("3.3 (Core Profile) Mesa 23.0"), Some(OpenGLVersion { major: 3, minor: 3 }));
    assert_eq!(parse_version("2.1"), Some(OpenGLVersion { major: 2, minor: 1 }));
    assert_eq!(parse_version("4."), None);
    assert_eq!(parse_version(""), None);
    assert_eq!(parse_version("x.y"), None);
}

#[test]
fn version_is_cached_after_first_query() {
    let queries = Cell::new(0);
    let mut cache = VersionCache::new();
    assert_eq!(cache.cached(), None);
    let first = cache.get_opengl_version(|| {
        queries.set(queries.get() + 1);
        "4.6.0".to_string()
    });
    // The driver now reports something else; the cache must not ask it.
    let second = cache.get_opengl_version(|| {
        queries.set(queries.get() + 1);
        "2.1 Metal".to_string()
    });
    assert_eq!(first, Some(OpenGLVersion { major: 4, minor: 6 }));
    assert_eq!(second, first);
    assert_eq!(queries.get(), 1);
    assert_eq!(cache.cached(), first);
}

#[test]
fn unparsable_version_is_not_cached() {
    let mut cache = VersionCache::new();
    assert_eq!(cache.get_opengl_version(|| "garbage".to_string()), None);
    assert_eq!(cache.get_opengl_version(|| "3.3".to_string()), Some(OpenGLVersion { major: 3, minor: 3 }));
}

#[test]
fn vertex_resources_hand_back_all_handles() {
    let arrays: VertexResource<3, VertexArrayLifecycle> = VertexResource::new([4, 5, 6]);
    assert_eq!(arrays.kind(), VertexObjectKind::VertexArray);
    assert_eq!(arrays.handle_at(0), 4);
    assert_eq!(arrays.handle_at(2), 6);
    assert_eq!(arrays.release(), [4, 5, 6]);
    let buffer: VertexResource<1, VertexBufferLifecycle> = VertexResource::new([9]);
    assert_eq!(buffer.kind(), VertexObjectKind::Buffer);
    assert_eq!(buffer.handle(), 9);
    assert_eq!(buffer.release(), [9]);
}
