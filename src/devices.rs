use vstd::prelude::*;

verus! {

/// A peripheral reached through I/O ports.
pub trait PortMappedDevice: Sized {
    /// The device's invariant.
    spec fn port_wf(&self) -> bool;

    /// The ports the device answers on.
    spec fn owned_ports(&self) -> Seq<u16>;

    fn write_8(&mut self, port: u16, val: u8)
        requires
            old(self).port_wf(),
        ensures
            final(self).port_wf(),
            final(self).owned_ports() == old(self).owned_ports(),
    ;

    fn read_8(&mut self, port: u16) -> (r: u8)
        requires
            old(self).port_wf(),
        ensures
            final(self).port_wf(),
            final(self).owned_ports() == old(self).owned_ports(),
    ;

    fn ports(&self) -> (r: Vec<u16>)
        ensures
            r@ == self.owned_ports(),
    ;

    /// A short text describing the device's state.
    fn debug_info(&self) -> String;
}

/// A device with time-driven internal progress.
pub trait Device: Sized {
    spec fn device_wf(&self) -> bool;

    /// Advances the device by one cycle.
    fn cycle(&mut self)
        requires
            old(self).device_wf(),
        ensures
            final(self).device_wf(),
    ;
}

} // verus!
