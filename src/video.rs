//! Character output through the firmware's teletype service.
use vstd::prelude::*;

verus! {

/// The teletype function number, in the high byte of the accumulator.
pub const TELETYPE: u16 = 0x0e00;
/// The text attribute passed in the base register.
pub const TEXT_ATTRIBUTE: u16 = 7;

/// The accumulator of the teletype call that prints `c`.
pub open spec fn teletype_spec(c: u8) -> u16 {
    (0x0e00 + c) as u16
}

/// The accumulator of the teletype call that prints `c`.
pub fn printc(c: u8) -> (r: u16)
    ensures
        r == teletype_spec(c),
{
    let v = TELETYPE | c as u16;
    assert(0x0e00u16 | (c as u16) == 0x0e00u16 + (c as u16)) by (bit_vector)
        requires
            c < 256,
    ;
    v
}

/// The accumulators of the teletype calls that print `s`, one per byte.
pub fn inform(s: &[u8]) -> (r: Vec<u16>)
    ensures
        r@.len() == s@.len(),
        forall|i: int| 0 <= i < s@.len() ==> #[trigger] r@[i] == teletype_spec(s@[i]),
{
    let mut r: Vec<u16> = Vec::new();
    let mut i: usize = 0;
    while i < s.len()
        invariant
            i <= s@.len(),
            r@.len() == i,
            forall|j: int| 0 <= j < i ==> #[trigger] r@[j] == teletype_spec(s@[j]),
        decreases s@.len() - i,
    {
        r.push(printc(s[i]));
        i += 1;
    }
    r
}

/// The text that stage one prints before it halts on an error: the prefix
/// and the error's tag.
pub fn error(msg: &[u8]) -> (r: Vec<u8>)
    ensures
        r@ == seq![69u8, 82u8, 82u8, 79u8, 82u8, 58u8, 32u8] + msg@,
{
    let mut r: Vec<u8> = Vec::new();
    r.push(69);
    r.push(82);
    r.push(82);
    r.push(79);
    r.push(82);
    r.push(58);
    r.push(32);
    let mut i: usize = 0;
    while i < msg.len()
        invariant
            i <= msg@.len(),
            r@ == seq![69u8, 82u8, 82u8, 79u8, 82u8, 58u8, 32u8] + msg@.subrange(0, i as int),
        decreases msg@.len() - i,
    {
        r.push(msg[i]);
        i += 1;
        assert(r@ =~= seq![69u8, 82u8, 82u8, 79u8, 82u8, 58u8, 32u8] + msg@.subrange(0, i as int));
    }
    assert(msg@.subrange(0, msg@.len() as int) =~= msg@);
    r
}

} // verus!
