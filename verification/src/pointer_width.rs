use vstd::prelude::*;

use crate::error::OSError;

verus! {

/// The width of a pointer, in bits, of a process or of the operating system.
#[derive(PartialEq, Eq, Structural, Debug, Clone, Copy)]
pub enum PointerWidth {
    _32,
    _64,
}

/// The pointer width this library is compiled with.
pub open spec fn compiled_pointer_width() -> PointerWidth {
    if usize::BITS == 64 {
        PointerWidth::_64
    } else {
        PointerWidth::_32
    }
}

/// The pointer width of the operating system, given the pointer width of the
/// running program and whether it runs under WoW64:
/// a 32-bit program under WoW64 runs on a 64-bit OS; a 64-bit program runs on a
/// 64-bit OS; a 32-bit program outside WoW64 runs on a 32-bit OS.
/// (A 64-bit program cannot run under WoW64.)
pub open spec fn os_width_for(compiled: PointerWidth, wow64: bool) -> PointerWidth {
    match (compiled, wow64) {
        (PointerWidth::_32, false) => PointerWidth::_32,
        _ => PointerWidth::_64,
    }
}

/// Whether the WoW64 query outcome is one that a program can observe:
/// a 64-bit program never runs under WoW64.
pub open spec fn wow64_outcome_possible(outcome: Result<bool, OSError>) -> bool {
    !(compiled_pointer_width() == PointerWidth::_64 && outcome == Ok::<bool, OSError>(true))
}

/// What `init_os_pointer_width` returns for an outcome of the WoW64 query on the
/// current process.
pub open spec fn spec_init_os_pointer_width(outcome: Result<bool, OSError>) -> Result<
    PointerWidth,
    OSError,
> {
    match outcome {
        Ok(wow64) => Ok(os_width_for(compiled_pointer_width(), wow64)),
        Err(e) => Err(e),
    }
}

/// Whether the running binary was compiled for 64 bit.
pub fn is_compiled_for_64_bit() -> (b: bool)
    ensures
        b == (usize::BITS == 64),
{
    usize::BITS == 64
}

/// The pointer width the binary was compiled with.
pub fn get_compiled_pointer_width() -> (w: PointerWidth)
    ensures
        w == compiled_pointer_width(),
{
    if is_compiled_for_64_bit() {
        PointerWidth::_64
    } else {
        PointerWidth::_32
    }
}

/// The pointer width of the operating system, from the outcome of asking whether
/// the current process runs under WoW64.
pub fn init_os_pointer_width(current_process_wow64: Result<bool, OSError>) -> (r: Result<
    PointerWidth,
    OSError,
>)
    requires
        wow64_outcome_possible(current_process_wow64),
    ensures
        r == spec_init_os_pointer_width(current_process_wow64),
{
    match current_process_wow64 {
        Ok(wow64) => {
            match (get_compiled_pointer_width(), wow64) {
                (PointerWidth::_32, true) | (PointerWidth::_64, false) => Ok(PointerWidth::_64),
                (PointerWidth::_32, false) => Ok(PointerWidth::_32),
                (PointerWidth::_64, true) => {
                    proof {
                        assert(false);
                    }
                    Ok(PointerWidth::_64)
                },
            }
        },
        Err(e) => Err(e),
    }
}

/// Whether `w` can be the pointer width of the OS this library runs on: a 64-bit
/// build runs only on a 64-bit OS.
pub open spec fn is_possible_os_width(w: PointerWidth) -> bool {
    compiled_pointer_width() == PointerWidth::_32 || w == PointerWidth::_64
}

/// Every OS width that `init_os_pointer_width` can give is possible for this build.
pub proof fn lemma_init_gives_possible_width(outcome: Result<bool, OSError>)
    requires
        spec_init_os_pointer_width(outcome) is Ok,
    ensures
        is_possible_os_width(spec_init_os_pointer_width(outcome)->Ok_0),
{
}

/// The OS pointer width, once it has been found. Only `get_os_pointer_width`
/// fills it, so the width it holds is always possible for this build.
pub struct OsWidthCache {
    width: Option<PointerWidth>,
}

impl OsWidthCache {
    #[verifier::type_invariant]
    spec fn holds_possible_width(self) -> bool {
        self.width matches Some(w) ==> is_possible_os_width(w)
    }

    /// The width held, if it has been found.
    pub closed spec fn width(self) -> Option<PointerWidth> {
        self.width
    }

    /// An empty cache.
    pub fn new() -> (c: OsWidthCache)
        ensures
            c.width() is None,
    {
        OsWidthCache { width: None }
    }

    /// The width held, if it has been found; it is possible for this build.
    pub fn get(&self) -> (w: Option<PointerWidth>)
        ensures
            w == self.width(),
            w matches Some(x) ==> is_possible_os_width(x),
    {
        proof {
            use_type_invariant(self);
        }
        self.width
    }
}

/// What `get_os_pointer_width` returns, and what the cache holds afterwards, given
/// the width held before the call and the outcome the WoW64 query would give.
pub open spec fn spec_get_os_pointer_width(
    cache: Option<PointerWidth>,
    outcome: Result<bool, OSError>,
) -> (Result<PointerWidth, OSError>, Option<PointerWidth>) {
    match cache {
        Some(w) => (Ok(w), cache),
        None => match spec_init_os_pointer_width(outcome) {
            Ok(w) => (Ok(w), Some(w)),
            Err(e) => (Err(e), None),
        },
    }
}

/// The pointer width of the operating system, computed once and then kept in
/// `cache`. The WoW64 query on the current process is made only when the cache
/// is empty. The width given is always possible for this build.
pub fn get_os_pointer_width<F: FnOnce() -> Result<bool, OSError>>(
    cache: &mut OsWidthCache,
    is_current_process_wow_64: F,
) -> (r: Result<PointerWidth, OSError>)
    requires
        old(cache).width() is None ==> call_requires(is_current_process_wow_64, ()),
        old(cache).width() is None ==> forall|o: Result<bool, OSError>|
            call_ensures(is_current_process_wow_64, (), o) ==> wow64_outcome_possible(o),
    ensures
        old(cache).width() is Some ==> r == Ok::<PointerWidth, OSError>(
            old(cache).width().unwrap(),
        ),
        old(cache).width() is Some ==> final(cache).width() == old(cache).width(),
        old(cache).width() is None ==> exists|o: Result<bool, OSError>|
            call_ensures(is_current_process_wow_64, (), o) && (r, final(cache).width())
                == spec_get_os_pointer_width(old(cache).width(), o),
        r is Ok ==> is_possible_os_width(r->Ok_0),
{
    proof {
        use_type_invariant(&*cache);
    }
    match cache.width {
        Some(w) => Ok(w),
        None => {
            let outcome = is_current_process_wow_64();
            let pw = init_os_pointer_width(outcome);
            let r = match pw {
                Ok(w) => {
                    proof {
                        lemma_init_gives_possible_width(outcome);
                    }
                    cache.width = Some(w);
                    Ok(w)
                },
                Err(e) => Err(e),
            };
            assert((r, cache.width()) == spec_get_os_pointer_width(None, outcome));
            r
        },
    }
}

/// Once the OS pointer width has been found, every later call gives the same
/// width and keeps the cache as it is, whatever the WoW64 query would answer.
pub proof fn lemma_os_pointer_width_is_stable(
    cache: Option<PointerWidth>,
    first: Result<bool, OSError>,
    later: Result<bool, OSError>,
)
    requires
        spec_get_os_pointer_width(cache, first).0 is Ok,
    ensures
        spec_get_os_pointer_width(spec_get_os_pointer_width(cache, first).1, later)
            == spec_get_os_pointer_width(cache, first),
{
}

/// The pointer width of a process, given whether it runs under WoW64 and the
/// pointer width of the OS: 64 bit exactly when it is not under WoW64 and the OS
/// is 64-bit.
pub open spec fn process_width_for(target_wow64: bool, os: PointerWidth) -> PointerWidth {
    if !target_wow64 && os == PointerWidth::_64 {
        PointerWidth::_64
    } else {
        PointerWidth::_32
    }
}

/// What `get_process_pointer_width` returns, and what the OS-width cache holds
/// afterwards, given the outcome of the WoW64 query on the target process, the
/// width held before the call and the outcome the WoW64 query on the current
/// process would give. A process under WoW64 is 32-bit, and the OS width is then
/// not asked for.
pub open spec fn spec_get_process_pointer_width(
    target_wow64: Result<bool, OSError>,
    cache: Option<PointerWidth>,
    own: Result<bool, OSError>,
) -> (Result<PointerWidth, OSError>, Option<PointerWidth>) {
    match target_wow64 {
        Err(e) => (Err(e), cache),
        Ok(true) => (Ok(PointerWidth::_32), cache),
        Ok(false) => {
            let (os, c) = spec_get_os_pointer_width(cache, own);
            match os {
                Ok(w) => (Ok(process_width_for(false, w)), c),
                Err(e) => (Err(e), c),
            }
        },
    }
}

/// The pointer width of a target process, from the outcome of asking whether it
/// runs under WoW64 (an error of that query is returned as it is) and, for a
/// target outside WoW64, the pointer width of the OS (see `get_os_pointer_width`).
pub fn get_process_pointer_width<F: FnOnce() -> Result<bool, OSError>>(
    target_is_wow64: Result<bool, OSError>,
    cache: &mut OsWidthCache,
    is_current_process_wow_64: F,
) -> (r: Result<PointerWidth, OSError>)
    requires
        target_is_wow64 == Ok::<bool, OSError>(false) && old(cache).width() is None
            ==> call_requires(is_current_process_wow_64, ()),
        target_is_wow64 == Ok::<bool, OSError>(false) && old(cache).width() is None
            ==> forall|o: Result<bool, OSError>|
            call_ensures(is_current_process_wow_64, (), o) ==> wow64_outcome_possible(o),
    ensures
        target_is_wow64 is Err ==> r == Err::<PointerWidth, OSError>(target_is_wow64->Err_0)
            && final(cache).width() == old(cache).width(),
        target_is_wow64 == Ok::<bool, OSError>(true) ==> r == Ok::<PointerWidth, OSError>(
            PointerWidth::_32,
        ) && final(cache).width() == old(cache).width(),
        target_is_wow64 == Ok::<bool, OSError>(false) && old(cache).width() is Some ==> r == Ok::<
            PointerWidth,
            OSError,
        >(process_width_for(false, old(cache).width().unwrap())) && final(cache).width() == old(
            cache,
        ).width(),
        exists|o: Result<bool, OSError>|
            #![trigger spec_get_process_pointer_width(target_is_wow64, old(cache).width(), o)]
            (old(cache).width() is None && target_is_wow64 == Ok::<bool, OSError>(false)
                ==> call_ensures(is_current_process_wow_64, (), o)) && (r, final(cache).width())
                == spec_get_process_pointer_width(target_is_wow64, old(cache).width(), o),
{
    let ghost before = cache.width();
    let ghost target = target_is_wow64;
    match target_is_wow64 {
        Err(e) => {
            let r = Err(e);
            assert((r, cache.width()) == spec_get_process_pointer_width(target, before, Ok(false)));
            r
        },
        Ok(true) => {
            let r = Ok(PointerWidth::_32);
            assert((r, cache.width()) == spec_get_process_pointer_width(target, before, Ok(false)));
            r
        },
        Ok(false) => {
            let os = get_os_pointer_width(cache, is_current_process_wow_64);
            let r = match os {
                Ok(w) => {
                    if w == PointerWidth::_64 {
                        Ok(PointerWidth::_64)
                    } else {
                        Ok(PointerWidth::_32)
                    }
                },
                Err(e) => Err(e),
            };
            proof {
                if before is None {
                    let o = choose|o: Result<bool, OSError>|
                        call_ensures(is_current_process_wow_64, (), o) && (os, cache.width())
                            == spec_get_os_pointer_width(before, o);
                    assert((r, cache.width()) == spec_get_process_pointer_width(target, before, o));
                } else {
                    assert((r, cache.width()) == spec_get_process_pointer_width(
                        target,
                        before,
                        Ok(false),
                    ));
                }
            }
            r
        },
    }
}


/// The OS width rules: a 32-bit program under WoW64 runs on a 64-bit OS, a 32-bit
/// program outside WoW64 on a 32-bit OS, and a 64-bit program on a 64-bit OS. So
/// the OS is 32-bit exactly when the program is 32-bit and not under WoW64, and a
/// failed query is passed on unchanged.
pub proof fn lemma_os_width_rules(wow64: bool, e: OSError)
    ensures
        os_width_for(PointerWidth::_32, true) == PointerWidth::_64,
        os_width_for(PointerWidth::_32, false) == PointerWidth::_32,
        os_width_for(PointerWidth::_64, false) == PointerWidth::_64,
        compiled_pointer_width() == PointerWidth::_32 && wow64 ==> spec_init_os_pointer_width(
            Ok(wow64),
        ) == Ok::<PointerWidth, OSError>(PointerWidth::_64),
        compiled_pointer_width() == PointerWidth::_64 ==> spec_init_os_pointer_width(Ok(wow64))
            == Ok::<PointerWidth, OSError>(PointerWidth::_64),
        spec_init_os_pointer_width(Ok(wow64)) == Ok::<PointerWidth, OSError>(PointerWidth::_32)
            <==> (compiled_pointer_width() == PointerWidth::_32 && !wow64),
        spec_init_os_pointer_width(Err(e)) == Err::<PointerWidth, OSError>(e),
{
}

/// A target under WoW64 is 32-bit whatever the OS and the cache; a target outside
/// WoW64 has the OS width; a failed target query is passed on with the cache kept.
pub proof fn lemma_process_width_rules(
    cache: Option<PointerWidth>,
    own: Result<bool, OSError>,
    e: OSError,
)
    ensures
        spec_get_process_pointer_width(Ok(true), cache, own) == (
            Ok::<PointerWidth, OSError>(PointerWidth::_32),
            cache,
        ),
        spec_get_process_pointer_width(Err(e), cache, own) == (
            Err::<PointerWidth, OSError>(e),
            cache,
        ),
        spec_get_os_pointer_width(cache, own).0 is Ok ==> spec_get_process_pointer_width(
            Ok(false),
            cache,
            own,
        ).0 == spec_get_os_pointer_width(cache, own).0,
        cache == Some(PointerWidth::_64) ==> spec_get_process_pointer_width(Ok(false), cache, own).0
            == Ok::<PointerWidth, OSError>(PointerWidth::_64),
        cache == Some(PointerWidth::_32) ==> spec_get_process_pointer_width(Ok(false), cache, own).0
            == Ok::<PointerWidth, OSError>(PointerWidth::_32),
{
}


/// A held width is given as it is and kept; with nothing held, a successful query
/// gives the width it finds and keeps that width, and a failed one gives its
/// error and keeps nothing.
pub proof fn lemma_cache_rules(w: PointerWidth, outcome: Result<bool, OSError>)
    ensures
        spec_get_os_pointer_width(Some(w), outcome) == (
            Ok::<PointerWidth, OSError>(w),
            Some(w),
        ),
        spec_get_os_pointer_width(None, outcome).0 matches Ok(x) ==> spec_get_os_pointer_width(
            None,
            outcome,
        ).1 == Some(x) && spec_init_os_pointer_width(outcome) == Ok::<PointerWidth, OSError>(x),
        outcome is Err ==> spec_get_os_pointer_width(None, outcome) == (
            Err::<PointerWidth, OSError>(outcome->Err_0),
            None::<PointerWidth>,
        ),
{
}

} // verus!
