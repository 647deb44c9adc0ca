use vstd::prelude::*;

use crate::error::{InjectError, InjectionError, OSError};
use crate::pointer_width::{
    compiled_pointer_width, get_compiled_pointer_width, get_os_pointer_width,
    spec_get_os_pointer_width, wow64_outcome_possible, OsWidthCache, PointerWidth,
};

verus! {

/// The name of the patch library when none is given.
pub const PATCH_NAME_DEFAULT: &'static str = "patch";

/// The pointer widths of the operating system and of this module, which decide
/// into which processes the patch can be injected.
pub struct CompatibilityInfo {
    pub os: PointerWidth,
    pub module: PointerWidth,
    _private: (),
}

impl CompatibilityInfo {
    /// The pointer width of the operating system.
    pub closed spec fn os_width(&self) -> PointerWidth {
        self.os
    }

    /// The pointer width this module was compiled with.
    pub closed spec fn module_width(&self) -> PointerWidth {
        self.module
    }

    /// The compatibility information of the running program: the OS pointer width
    /// (see `get_os_pointer_width`, whose cache and WoW64 query it uses) and the
    /// compiled pointer width. A 64-bit module never reports a 32-bit OS.
    pub fn get<F: FnOnce() -> Result<bool, OSError>>(
        cache: &mut OsWidthCache,
        is_current_process_wow_64: F,
    ) -> (r: Result<CompatibilityInfo, OSError>)
        requires
            old(cache).width() is None ==> call_requires(is_current_process_wow_64, ()),
            old(cache).width() is None ==> forall|o: Result<bool, OSError>|
                call_ensures(is_current_process_wow_64, (), o) ==> wow64_outcome_possible(o),
        ensures
            exists|o: Result<bool, OSError>|
                #![trigger spec_get_os_pointer_width(old(cache).width(), o)]
                (old(cache).width() is None ==> call_ensures(is_current_process_wow_64, (), o)) && {
                    let (os, c) = spec_get_os_pointer_width(old(cache).width(), o);
                    &&& final(cache).width() == c
                    &&& match os {
                        Ok(w) => r is Ok && r->Ok_0.os_width() == w && r->Ok_0.module_width()
                            == compiled_pointer_width(),
                        Err(e) => r == Err::<CompatibilityInfo, OSError>(e),
                    }
                },
            r is Ok ==> !(r->Ok_0.module_width() == PointerWidth::_64 && r->Ok_0.os_width()
                == PointerWidth::_32),
    {
        let ghost before = cache.width();
        let os = get_os_pointer_width(cache, is_current_process_wow_64);
        let r = match os {
            Ok(w) => Ok(CompatibilityInfo { os: w, module: get_compiled_pointer_width(), _private: () }),
            Err(e) => Err(e),
        };
        proof {
            if before is None {
                let o = choose|o: Result<bool, OSError>|
                    call_ensures(is_current_process_wow_64, (), o) && (os, cache.width())
                        == spec_get_os_pointer_width(before, o);
                assert((os, cache.width()) == spec_get_os_pointer_width(before, o));
            } else {
                assert((os, cache.width()) == spec_get_os_pointer_width(before, Ok(false)));
            }
        }
        r
    }
}

/// The file name of the patch library for a target of the given pointer width:
/// `<name>_32.dll` for a 32-bit target, `<name>.dll` for a 64-bit one.
pub open spec fn payload_file_name_of(width: PointerWidth, patch_name: Seq<char>) -> Seq<char> {
    match width {
        PointerWidth::_32 => patch_name + "_32.dll"@,
        PointerWidth::_64 => patch_name + ".dll"@,
    }
}

/// The file name of the patch library for a target of the given pointer width.
pub fn payload_file_name(width: PointerWidth, patch_name: &String) -> (name: String)
    ensures
        name@ == payload_file_name_of(width, patch_name@),
{
    let mut name = patch_name.clone();
    match width {
        PointerWidth::_32 => name.append("_32.dll"),
        PointerWidth::_64 => name.append(".dll"),
    }
    name
}

/// Injects the patch library into target processes, and ejects it from them.
pub struct Injector {
    compatibility: CompatibilityInfo,
    patch_name: String,
}

/// The file name of the patch library, or the error, that an outcome gives.
pub open spec fn name_result(r: Result<String, InjectionError>) -> Result<Seq<char>, InjectionError> {
    match r {
        Ok(s) => Ok(s@),
        Err(e) => Err(e),
    }
}

/// Whether a target of width `target` is out of reach: a 32-bit module on a 64-bit
/// OS cannot inject into a 64-bit process.
pub open spec fn is_unsupported_target(compatibility: CompatibilityInfo, target: PointerWidth) -> bool {
    &&& compatibility.module_width() == PointerWidth::_32
    &&& compatibility.os_width() == PointerWidth::_64
    &&& target == PointerWidth::_64
}

/// What `Injector::inject` gives: an inaccessible process when its pointer width
/// could not be found, the incompatibility when the target is out of reach, and
/// otherwise the file name of the patch library for the target.
pub open spec fn spec_inject(
    compatibility: CompatibilityInfo,
    patch_name: Seq<char>,
    target_width: Result<PointerWidth, OSError>,
) -> Result<Seq<char>, InjectionError> {
    match target_width {
        Err(_) => Err(InjectionError::InjectFailed(InjectError::ProcessInaccessible)),
        Ok(t) => if is_unsupported_target(compatibility, t) {
            Err(
                InjectionError::UnsupportedTargetProcess {
                    expected: compatibility.module_width(),
                    found: t,
                },
            )
        } else {
            Ok(payload_file_name_of(t, patch_name))
        },
    }
}

/// What `Injector::eject` gives: an inaccessible process when its pointer width
/// could not be found, and otherwise the file name of the patch library for it.
pub open spec fn spec_eject(patch_name: Seq<char>, target_width: Result<PointerWidth, OSError>) -> Result<
    Seq<char>,
    InjectionError,
> {
    match target_width {
        Err(_) => Err(InjectionError::InjectFailed(InjectError::ProcessInaccessible)),
        Ok(t) => Ok(payload_file_name_of(t, patch_name)),
    }
}

impl Injector {
    /// The compatibility information the injector was made with.
    pub closed spec fn compatibility(&self) -> CompatibilityInfo {
        self.compatibility
    }

    /// The base name of the patch library.
    pub closed spec fn patch_name(&self) -> Seq<char> {
        self.patch_name@
    }

    /// An injector for the given compatibility information, with the default
    /// patch name.
    pub fn new(compatibility: CompatibilityInfo) -> (r: Injector)
        ensures
            r.compatibility() == compatibility,
            r.patch_name() == PATCH_NAME_DEFAULT@,
    {
        Injector { compatibility, patch_name: PATCH_NAME_DEFAULT.to_owned() }
    }

    /// Replaces the base name of the patch library.
    pub fn override_patch_name(&mut self, patch_name: String)
        ensures
            final(self).patch_name() == patch_name@,
            final(self).compatibility() == old(self).compatibility(),
    {
        self.patch_name = patch_name;
    }

    /// The file name of the patch library to inject into a target, given the
    /// outcome of finding the target's pointer width, or why it cannot be
    /// injected.
    pub fn inject(&self, target_width: Result<PointerWidth, OSError>) -> (r: Result<
        String,
        InjectionError,
    >)
        ensures
            name_result(r) == spec_inject(self.compatibility(), self.patch_name(), target_width),
    {
        let target = match target_width {
            Ok(t) => t,
            Err(_) => {
                return Err(InjectionError::from(InjectError::ProcessInaccessible));
            },
        };
        let unsupported = self.compatibility.module == PointerWidth::_32
            && self.compatibility.os == PointerWidth::_64 && target == PointerWidth::_64;
        if unsupported {
            return Err(
                InjectionError::UnsupportedTargetProcess {
                    expected: self.compatibility.module,
                    found: target,
                },
            );
        }
        Ok(payload_file_name(target, &self.patch_name))
    }

    /// The file name of the patch library to eject from a target, given the
    /// outcome of finding the target's pointer width.
    pub fn eject(&self, target_width: Result<PointerWidth, OSError>) -> (r: Result<
        String,
        InjectionError,
    >)
        ensures
            name_result(r) == spec_eject(self.patch_name(), target_width),
    {
        match target_width {
            Ok(t) => Ok(payload_file_name(t, &self.patch_name)),
            Err(_) => Err(InjectionError::from(InjectError::ProcessInaccessible)),
        }
    }
}

/// A patch library that was injected into a target is the one that ejecting it
/// from that target looks for.
pub proof fn lemma_eject_finds_injected_payload(
    compatibility: CompatibilityInfo,
    patch_name: Seq<char>,
    target_width: Result<PointerWidth, OSError>,
)
    requires
        spec_inject(compatibility, patch_name, target_width) is Ok,
    ensures
        spec_eject(patch_name, target_width) == spec_inject(compatibility, patch_name, target_width),
{
}

/// The patch libraries for 32-bit and 64-bit targets have different file names.
pub proof fn lemma_payload_names_differ(patch_name: Seq<char>)
    ensures
        payload_file_name_of(PointerWidth::_32, patch_name) != payload_file_name_of(
            PointerWidth::_64,
            patch_name,
        ),
{
    reveal_strlit("_32.dll");
    reveal_strlit(".dll");
    let a = payload_file_name_of(PointerWidth::_32, patch_name);
    let b = payload_file_name_of(PointerWidth::_64, patch_name);
    assert(a.len() != b.len());
}


/// A 32-bit target is never refused: whatever the compatibility information, the
/// injector picks `<name>_32.dll` for it; a 64-bit target gets `<name>.dll` unless
/// the module is 32-bit on a 64-bit OS, and that is the only refusal.
pub proof fn lemma_inject_rules(compatibility: CompatibilityInfo, patch_name: Seq<char>)
    ensures
        spec_inject(compatibility, patch_name, Ok(PointerWidth::_32)) == Ok::<
            Seq<char>,
            InjectionError,
        >(patch_name + "_32.dll"@),
        !(compatibility.module_width() == PointerWidth::_32 && compatibility.os_width()
            == PointerWidth::_64) ==> spec_inject(compatibility, patch_name, Ok(PointerWidth::_64))
            == Ok::<Seq<char>, InjectionError>(patch_name + ".dll"@),
        forall|t: PointerWidth|
            (spec_inject(compatibility, patch_name, Ok(t)) is Err) <==> (t == PointerWidth::_64
                && compatibility.module_width() == PointerWidth::_32 && compatibility.os_width()
                == PointerWidth::_64),
{
}


/// A target whose pointer width could not be found is inaccessible, for injecting
/// and for ejecting alike; ejecting never refuses a target it can reach, and picks
/// `<name>_32.dll` or `<name>.dll` by the target's width.
pub proof fn lemma_eject_rules(compatibility: CompatibilityInfo, patch_name: Seq<char>, e: OSError)
    ensures
        spec_eject(patch_name, Err(e)) == Err::<Seq<char>, InjectionError>(
            InjectionError::InjectFailed(InjectError::ProcessInaccessible),
        ),
        spec_inject(compatibility, patch_name, Err(e)) == Err::<Seq<char>, InjectionError>(
            InjectionError::InjectFailed(InjectError::ProcessInaccessible),
        ),
        spec_eject(patch_name, Ok(PointerWidth::_32)) == Ok::<Seq<char>, InjectionError>(
            patch_name + "_32.dll"@,
        ),
        spec_eject(patch_name, Ok(PointerWidth::_64)) == Ok::<Seq<char>, InjectionError>(
            patch_name + ".dll"@,
        ),
{
}

} // verus!
