use vstd::prelude::*;

verus! {

/// The refresh signal of one physical display. A tick is handed on only when
/// the previous one has been acknowledged, so a slow consumer has at most one
/// outstanding refresh notification.
#[derive(Clone, Copy, Debug, PartialEq, Eq, Structural)]
pub struct FrameSignal {
    pub display: u64,
    /// The loop registration of the thread or link that produces the ticks.
    pub reg: usize,
    pub pending: bool,
}

impl FrameSignal {
    pub fn new(display: u64, reg: usize) -> (r: FrameSignal)
        ensures
            r == (FrameSignal { display, reg, pending: false }),
    {
        FrameSignal { display, reg, pending: false }
    }

    /// A native refresh tick: returns whether it is delivered (true) or
    /// dropped because the previous one is still outstanding.
    pub fn tick(&mut self) -> (r: bool)
        ensures
            r == !old(self).pending,
            *final(self) == (FrameSignal { pending: true, ..*old(self) }),
    {
        let deliver = !self.pending;
        self.pending = true;
        deliver
    }

    /// The consumer has handled the outstanding tick.
    pub fn acknowledge(&mut self)
        ensures
            *final(self) == (FrameSignal { pending: false, ..*old(self) }),
    {
        self.pending = false;
    }
}

} // verus!
