use vstd::prelude::*;

verus! {

/// Capacity, in UTF-16 units, of the tray icon's tooltip buffer.
pub const TIP_CAPACITY: usize = 128;

/// The tooltip buffer: as many leading units of `tip` as fit in `cap`, the
/// rest zero.
pub open spec fn tip_buffer_spec(tip: Seq<u16>, cap: nat) -> Seq<u16> {
    Seq::new(cap, |i: int| if i < tip.len() { tip[i] } else { 0u16 })
}

/// Fill a zeroed tooltip buffer of `cap` units with the (NUL-terminated)
/// UTF-16 tooltip, cut to the buffer's size.
pub fn tip_buffer(tip: &[u16], cap: usize) -> (b: Vec<u16>)
    ensures
        b@ == tip_buffer_spec(tip@, cap as nat),
{
    let len = if tip.len() < cap { tip.len() } else { cap };
    let mut out: Vec<u16> = Vec::new();
    let mut i: usize = 0;
    while i < cap
        invariant
            len <= cap,
            len <= tip@.len(),
            len == tip@.len() || len == cap,
            0 <= i <= cap,
            out@ == tip_buffer_spec(tip@, cap as nat).subrange(0, i as int),
        decreases cap - i,
    {
        if i < len {
            out.push(tip[i]);
        } else {
            out.push(0u16);
        }
        i = i + 1;
        assert(out@ =~= tip_buffer_spec(tip@, cap as nat).subrange(0, i as int));
    }
    assert(out@ =~= tip_buffer_spec(tip@, cap as nat));
    out
}

} // verus!
