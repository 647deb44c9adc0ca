use rwig::error::{InjectError, InjectionError, OSError};
use rwig::hook::{payload_file_name, CompatibilityInfo, Injector, PATCH_NAME_DEFAULT};
use rwig::pointer_width::{get_compiled_pointer_width, is_compiled_for_64_bit, OsWidthCache, PointerWidth};

/// Compatibility information on a 64-bit OS: a 64-bit build outside WoW64, or a
/// 32-bit build under WoW64.
fn info_on_64_bit_os() -> CompatibilityInfo {
    let mut cache = OsWidthCache::new();
    let wow64 = !is_compiled_for_64_bit();
    CompatibilityInfo::get(&mut cache, move || Ok(wow64)).unwrap()
}

#[test]
fn compatibility_info_fields() {
    let c = info_on_64_bit_os();
    assert_eq!(c.os, PointerWidth::_64);
    assert_eq!(c.module, get_compiled_pointer_width());
}

#[test]
fn compatibility_info_error() {
    let mut cache = OsWidthCache::new();
    let r = CompatibilityInfo::get(&mut cache, || Err(OSError::WindowsError(2)));
    assert!(matches!(r, Err(OSError::WindowsError(2))));
}

#[test]
fn payload_names() {
    assert_eq!(payload_file_name(PointerWidth::_32, &"patch".to_string()), "patch_32.dll");
    assert_eq!(payload_file_name(PointerWidth::_64, &"patch".to_string()), "patch.dll");
    assert_eq!(payload_file_name(PointerWidth::_64, &"".to_string()), ".dll");
}

#[test]
fn injector_uses_default_name() {
    assert_eq!(PATCH_NAME_DEFAULT, "patch");
    let injector = Injector::new(info_on_64_bit_os());
    assert_eq!(injector.inject(Ok(PointerWidth::_32)).unwrap(), "patch_32.dll");
}

#[test]
fn injector_override_name() {
    let mut injector = Injector::new(info_on_64_bit_os());
    injector.override_patch_name("audio-patch".to_string());
    assert_eq!(injector.eject(Ok(PointerWidth::_32)).unwrap(), "audio-patch_32.dll");
}

#[test]
fn injector_inaccessible_process() {
    let injector = Injector::new(info_on_64_bit_os());
    let r = injector.inject(Err(OSError::WindowsError(5)));
    assert!(matches!(r, Err(InjectionError::InjectFailed(InjectError::ProcessInaccessible))));
    let r = injector.eject(Err(OSError::Io("x".to_string())));
    assert!(matches!(r, Err(InjectionError::InjectFailed(InjectError::ProcessInaccessible))));
}

#[test]
fn injector_unsupported_only_for_32_bit_module() {
    let injector = Injector::new(info_on_64_bit_os());
    let r = injector.inject(Ok(PointerWidth::_64));
    if get_compiled_pointer_width() == PointerWidth::_32 {
        assert!(matches!(
            r,
            Err(InjectionError::UnsupportedTargetProcess { expected: PointerWidth::_32, found: PointerWidth::_64 })
        ));
    } else {
        assert_eq!(r.unwrap(), "patch.dll");
    }
    // Ejecting makes no compatibility check.
    assert_eq!(injector.eject(Ok(PointerWidth::_64)).unwrap(), "patch.dll");
}

#[test]
fn inject_and_eject_agree() {
    let injector = Injector::new(info_on_64_bit_os());
    for w in [PointerWidth::_32, PointerWidth::_64] {
        if let Ok(name) = injector.inject(Ok(w)) {
            assert_eq!(injector.eject(Ok(w)).unwrap(), name);
        }
    }
}

#[test]
fn compatibility_module_64_means_os_64() {
    let mut cache = OsWidthCache::new();
    let c = CompatibilityInfo::get(&mut cache, || Ok(false)).unwrap();
    if c.module == PointerWidth::_64 {
        assert_eq!(c.os, PointerWidth::_64);
    }
    assert_eq!(cache.get(), Some(c.os));
}
