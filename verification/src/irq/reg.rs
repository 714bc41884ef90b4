//! Register helpers of the interrupt controller.
use vstd::prelude::*;
use crate::irq::err::{GicError, GicStatus};

verus! {

/// The value of a register after the bits of `bits` are cleared in `value`.
pub fn gic_clear_bit(value: u32, bits: u32) -> (r: u32)
    ensures
        r == value & !bits,
{
    value & !bits
}

/// The reader `read` gives `s(k)` as its reading number `k` (counted from 0).
pub open spec fn readings_as<R: Fn(u32) -> u32>(read: R, s: spec_fn(u32) -> u32) -> bool {
    forall|k: u32, v: u32| #[trigger] read.ensures((k,), v) ==> v == s(k)
}

/// The test `f` accepts exactly the values that `p` holds of.
pub open spec fn accepts_as<F: Fn(u32) -> bool>(f: F, p: spec_fn(u32) -> bool) -> bool {
    forall|v: u32, b: bool| #[trigger] f.ensures((v,), b) ==> b == p(v)
}

/// One of the first `n` readings `s` passes the test `p`.
pub open spec fn accepted_within(s: spec_fn(u32) -> u32, p: spec_fn(u32) -> bool, n: u32) -> bool {
    exists|k: u32| k < n && #[trigger] p(s(k))
}

/// Reads a register with `read(k)`, `k` counting the readings from 0, at
/// most `try_count` times, and succeeds as soon as `f` accepts the value
/// read; times out when none of the `try_count` readings is accepted.
pub fn gic_retry_for<F: Fn(u32) -> bool, R: Fn(u32) -> u32>(f: F, try_count: u32, read: R) -> (r:
    GicStatus)
    requires
        forall|v: u32| f.requires((v,)),
        forall|k: u32| k < try_count ==> read.requires((k,)),
    ensures
        r == Ok::<(), GicError>(()) || r == Err::<(), GicError>(GicError::Timeout),
        forall|s: spec_fn(u32) -> u32, p: spec_fn(u32) -> bool|
            #![trigger readings_as(read, s), accepts_as(f, p)]
            readings_as(read, s) && accepts_as(f, p) ==> (r is Ok <==> accepted_within(s, p, try_count)),
        try_count == 0 ==> r == Err::<(), GicError>(GicError::Timeout),
        r is Ok ==> exists|k: u32, v: u32| k < try_count && read.ensures((k,), v) && f.ensures((v,), true),
        (forall|v: u32, b: bool| f.ensures((v,), b) ==> !b) ==> r == Err::<(), GicError>(
            GicError::Timeout,
        ),
        (forall|v: u32, b: bool| f.ensures((v,), b) ==> b) && try_count > 0 ==> r is Ok,
{
    let mut i: u32 = 0;
    while i < try_count
        invariant
            forall|v: u32| f.requires((v,)),
            forall|k: u32| k < try_count ==> read.requires((k,)),
            i <= try_count,
            (forall|v: u32, b: bool| f.ensures((v,), b) ==> b) ==> i == 0,
            forall|s: spec_fn(u32) -> u32, p: spec_fn(u32) -> bool|
                #![trigger readings_as(read, s), accepts_as(f, p)]
                readings_as(read, s) && accepts_as(f, p) ==> forall|j: u32|
                    j < i ==> !#[trigger] p(s(j)),
        decreases try_count - i,
    {
        let v = read(i);
        let ok = f(v);
        if ok {
            proof {
                assert forall|s: spec_fn(u32) -> u32, p: spec_fn(u32) -> bool|
                    #![trigger readings_as(read, s), accepts_as(f, p)]
                    readings_as(read, s) && accepts_as(f, p) implies accepted_within(s, p, try_count) by {
                    assert(s(i) == v);
                    assert(p(s(i)));
                }
            }
            return Ok(());
        }
        proof {
            assert forall|s: spec_fn(u32) -> u32, p: spec_fn(u32) -> bool|
                #![trigger readings_as(read, s), accepts_as(f, p)]
                readings_as(read, s) && accepts_as(f, p) implies forall|j: u32|
                    j < i + 1 ==> !#[trigger] p(s(j)) by {
                assert(s(i) == v);
                assert(!p(s(i)));
            }
        }
        i = i + 1;
    }
    proof {
        assert forall|s: spec_fn(u32) -> u32, p: spec_fn(u32) -> bool|
            #![trigger readings_as(read, s), accepts_as(f, p)]
            readings_as(read, s) && accepts_as(f, p) implies !accepted_within(s, p, try_count) by {
            assert(forall|j: u32| j < i ==> !#[trigger] p(s(j)));
        }
    }
    Err(GicError::Timeout)
}

} // verus!
