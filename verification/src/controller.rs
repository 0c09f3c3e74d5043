//! Standard controller port: a strobe-latched 8-bit shift register.
//!
//! The host supplies the current button states as a plain snapshot; on
//! the strobe's falling edge the eight states are latched so that
//! successive reads report A, B, Select, Start, Up, Down, Left, Right.

use vstd::prelude::*;

verus! {

/// Snapshot of the eight logical buttons, as the host sees them now.
#[derive(Clone, Copy, Debug, PartialEq, Eq, Structural)]
pub struct Keys {
    pub a: bool,
    pub b: bool,
    pub select: bool,
    pub start: bool,
    pub up: bool,
    pub down: bool,
    pub left: bool,
    pub right: bool,
}

impl Keys {
    /// A snapshot with no button held.
    pub fn none() -> (r: Keys)
        ensures
            r == (Keys {
                a: false,
                b: false,
                select: false,
                start: false,
                up: false,
                down: false,
                left: false,
                right: false,
            }),
    {
        Keys {
            a: false,
            b: false,
            select: false,
            start: false,
            up: false,
            down: false,
            left: false,
            right: false,
        }
    }
}

/// The controller latch: `state` is a stack whose top (last element) is
/// the next bit to report, so the snapshot is stored reversed.
pub struct Controller {
    pub strobe: bool,
    pub state: Vec<bool>,
}

/// The latched stack for a snapshot: A ends up on top so that reads pop
/// A, B, Select, Start, Up, Down, Left, Right in that order.
pub open spec fn latched_stack(k: Keys) -> Seq<bool> {
    seq![k.right, k.left, k.down, k.up, k.start, k.select, k.b, k.a]
}

/// What `set_strobe` does: nothing on no change or on a rising edge
/// (beyond recording the strobe); on a falling edge the snapshot is
/// latched.
pub open spec fn set_strobe_rel(pre: Controller, post: Controller, strobe: bool, k: Keys) -> bool {
    &&& pre.strobe == strobe ==> post.strobe == pre.strobe && post.state@ == pre.state@
    &&& pre.strobe != strobe && strobe ==> post.strobe == true && post.state@ == pre.state@
    &&& pre.strobe != strobe && !strobe ==> post.strobe == false && post.state@ == latched_stack(k)
}

/// What `read` does: with the strobe high it reports the live A button;
/// otherwise it pops the next latched bit, or reports 0 when the stack
/// has been exhausted.
pub open spec fn read_rel(pre: Controller, post: Controller, k: Keys, bit: bool) -> bool {
    &&& pre.strobe ==> bit == k.a && post.strobe == pre.strobe && post.state@ == pre.state@
    &&& !pre.strobe && pre.state@.len() > 0 ==> bit == pre.state@.last() && post.strobe
        == pre.strobe && post.state@ == pre.state@.drop_last()
    &&& !pre.strobe && pre.state@.len() == 0 ==> bit == false && post.strobe == pre.strobe
        && post.state@ == pre.state@
}

impl Controller {
    /// A controller with the strobe low and nothing latched.
    pub fn new() -> (r: Controller)
        ensures
            r.strobe == false,
            r.state@ == Seq::<bool>::empty(),
    {
        Controller { strobe: false, state: Vec::new() }
    }

    /// Records the strobe line; on the falling edge, latches the given
    /// snapshot of the eight buttons.
    pub fn set_strobe(&mut self, strobe: bool, keys: &Keys)
        ensures
            set_strobe_rel(*old(self), *final(self), strobe, *keys),
    {
        if self.strobe == strobe {
            return ;
        }
        if strobe {
            self.strobe = true;
        } else {
            self.strobe = false;
            let mut latched: Vec<bool> = Vec::new();
            latched.push(keys.right);
            latched.push(keys.left);
            latched.push(keys.down);
            latched.push(keys.up);
            latched.push(keys.start);
            latched.push(keys.select);
            latched.push(keys.b);
            latched.push(keys.a);
            assert(latched@ =~= latched_stack(*keys));
            self.state = latched;
        }
    }

    /// Reports the next controller bit.
    pub fn read(&mut self, keys: &Keys) -> (bit: bool)
        ensures
            read_rel(*old(self), *final(self), *keys, bit),
    {
        if self.strobe {
            keys.a
        } else {
            match self.state.pop() {
                Some(b) => b,
                None => false,
            }
        }
    }
}

/// After a high-to-low strobe edge, eight successive reads report the
/// latched buttons in the order A, B, Select, Start, Up, Down, Left,
/// Right.
pub proof fn lemma_report_order(
    c0: Controller,
    c1: Controller,
    c2: Controller,
    c3: Controller,
    c4: Controller,
    c5: Controller,
    c6: Controller,
    c7: Controller,
    c8: Controller,
    c9: Controller,
    k: Keys,
    b1: bool,
    b2: bool,
    b3: bool,
    b4: bool,
    b5: bool,
    b6: bool,
    b7: bool,
    b8: bool,
)
    requires
        c0.strobe == true,
        set_strobe_rel(c0, c1, false, k),
        read_rel(c1, c2, k, b1),
        read_rel(c2, c3, k, b2),
        read_rel(c3, c4, k, b3),
        read_rel(c4, c5, k, b4),
        read_rel(c5, c6, k, b5),
        read_rel(c6, c7, k, b6),
        read_rel(c7, c8, k, b7),
        read_rel(c8, c9, k, b8),
    ensures
        b1 == k.a,
        b2 == k.b,
        b3 == k.select,
        b4 == k.start,
        b5 == k.up,
        b6 == k.down,
        b7 == k.left,
        b8 == k.right,
        c9.state@.len() == 0,
{
    assert(c1.state@ == latched_stack(k));
    assert(c2.state@ =~= seq![k.right, k.left, k.down, k.up, k.start, k.select, k.b]);
    assert(c3.state@ =~= seq![k.right, k.left, k.down, k.up, k.start, k.select]);
    assert(c4.state@ =~= seq![k.right, k.left, k.down, k.up, k.start]);
    assert(c5.state@ =~= seq![k.right, k.left, k.down, k.up]);
    assert(c6.state@ =~= seq![k.right, k.left, k.down]);
    assert(c7.state@ =~= seq![k.right, k.left]);
    assert(c8.state@ =~= seq![k.right]);
}

} // verus!
