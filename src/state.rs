use vstd::prelude::*;

verus! {

/// What is currently held and must be released on shutdown: the adapter whose
/// discovery session may be running, the connected peripheral, and the
/// characteristic subscribed on it. Each field only goes from `None` to
/// `Some` until teardown takes them all.
pub struct BleState<A, P> {
    pub adapter: Option<A>,
    pub device: Option<P>,
    pub char_uuid: Option<u128>,
}

/// The release steps that one teardown performs, each independently.
pub struct Teardown<A, P> {
    /// Characteristic to unsubscribe from on `disconnect`'s peripheral.
    pub unsubscribe: Option<u128>,
    /// Peripheral to disconnect.
    pub disconnect: Option<P>,
    /// Adapter whose discovery session is to be stopped.
    pub stop_scan: Option<A>,
}

/// The steps that tearing down `s` performs.
pub open spec fn plan_of<A, P>(s: BleState<A, P>) -> Teardown<A, P> {
    Teardown {
        unsubscribe: if s.device is Some { s.char_uuid } else { None },
        disconnect: s.device,
        stop_scan: s.adapter,
    }
}

/// A state that holds nothing.
pub open spec fn is_empty<A, P>(s: BleState<A, P>) -> bool {
    &&& s.adapter is None
    &&& s.device is None
    &&& s.char_uuid is None
}

/// A teardown that releases nothing.
pub open spec fn is_noop<A, P>(t: Teardown<A, P>) -> bool {
    &&& t.unsubscribe is None
    &&& t.disconnect is None
    &&& t.stop_scan is None
}

impl<A, P> Teardown<A, P> {
    /// `true` when this teardown has nothing to release.
    pub fn is_nothing(&self) -> (r: bool)
        ensures
            r == is_noop(*self),
    {
        self.unsubscribe.is_none() && self.disconnect.is_none() && self.stop_scan.is_none()
    }
}

impl<A, P> BleState<A, P> {
    /// The peripheral and its characteristic are recorded together.
    pub open spec fn wf(self) -> bool {
        self.device is Some <==> self.char_uuid is Some
    }

    /// The state at process start: nothing held.
    pub fn new() -> (r: Self)
        ensures
            is_empty(r),
            r.wf(),
    {
        BleState { adapter: None, device: None, char_uuid: None }
    }

    /// Records the adapter as soon as its discovery session has started, so
    /// that a teardown from then on stops that session.
    pub fn record_adapter(&mut self, adapter: A)
        requires
            old(self).adapter is None,
        ensures
            old(self).wf() ==> final(self).wf(),
            final(self).adapter == Some(adapter),
            final(self).device == old(self).device,
            final(self).char_uuid == old(self).char_uuid,
    {
        self.adapter = Some(adapter);
    }

    /// Records the connected peripheral and the characteristic to subscribe.
    pub fn record_device(&mut self, device: P, char_uuid: u128)
        requires
            old(self).device is None,
            old(self).char_uuid is None,
        ensures
            final(self).wf(),
            final(self).adapter == old(self).adapter,
            final(self).device == Some(device),
            final(self).char_uuid == Some(char_uuid),
    {
        self.device = Some(device);
        self.char_uuid = Some(char_uuid);
    }

    /// Takes out everything held and hands back the release steps for it. The
    /// state is left empty, so a later teardown releases nothing again.
    pub fn take_teardown(&mut self) -> (r: Teardown<A, P>)
        ensures
            r == plan_of(*old(self)),
            is_empty(*final(self)),
            final(self).wf(),
    {
        let adapter = self.adapter.take();
        let device = self.device.take();
        let char_uuid = self.char_uuid.take();
        let unsubscribe = if device.is_some() { char_uuid } else { None };
        Teardown { unsubscribe, disconnect: device, stop_scan: adapter }
    }
}

/// Teardown is idempotent: the state that a teardown leaves behind, which
/// `take_teardown` ensures is empty, yields a second teardown that releases
/// nothing; so does a state that was never filled.
pub proof fn teardown_is_idempotent<A, P>(s: BleState<A, P>)
    requires
        is_empty(s),
    ensures
        is_noop(plan_of(s)),
{
}

/// A teardown that runs while a scan is in progress, that is once the adapter
/// has been recorded and whatever else is held, stops that adapter's scan.
pub proof fn teardown_during_scan_stops_it<A, P>(s: BleState<A, P>, adapter: A)
    requires
        s.adapter == Some(adapter),
    ensures
        plan_of(s).stop_scan == Some(adapter),
{
}

} // verus!
