//! A PHY stub that forwards each PHY call, as a [`PhyCall`], to a callback.

use vstd::prelude::*;

use core::convert::Infallible;

use display_types::cea861::hdmi_forum::HdmiForumFrl;
use hdmi_hal::phy::{EqParams, LtpPattern};

verus! {

/// `display_types`' FRL rate, carried through unchanged.
#[verifier::external_type_specification]
#[verifier::external_body]
pub struct ExHdmiForumFrl(HdmiForumFrl);

/// `hdmi_hal`'s link training pattern, carried through unchanged.
#[verifier::external_type_specification]
#[verifier::external_body]
pub struct ExLtpPattern(LtpPattern);

/// `hdmi_hal`'s equalization parameters, carried through unchanged.
#[verifier::external_type_specification]
#[verifier::external_body]
pub struct ExEqParams(EqParams);

/// A structured description of a single PHY method invocation, the argument
/// that [`StubPhy`] hands its callback.
#[derive(Debug)]
#[non_exhaustive]
pub enum PhyCall {
    /// `set_frl_rate` was called with the given rate.
    SetFrlRate(HdmiForumFrl),
    /// `send_ltp` was called with the given pattern.
    SendLtp(LtpPattern),
    /// `adjust_equalization` was called with the given parameters.
    AdjustEqualization(EqParams),
    /// `set_scrambling` was called with the given flag.
    SetScrambling(bool),
}

/// A PHY stub that forwards each call as a [`PhyCall`] to a caller-supplied
/// callback and unconditionally returns `Ok(())`.
pub struct StubPhy<F> {
    on_call: F,
}

impl<F: FnMut(PhyCall)> StubPhy<F> {
    /// The callback that receives each call.
    pub closed spec fn callback(&self) -> F {
        self.on_call
    }

    /// A stub that forwards each PHY call to `on_call`.
    pub fn new(on_call: F) -> (phy: Self)
        ensures
            phy.callback() == on_call,
    {
        StubPhy { on_call }
    }

    /// Forwards `SetFrlRate(rate)` to the callback, once; never fails.
    pub fn set_frl_rate(&mut self, rate: HdmiForumFrl) -> (r: Result<(), Infallible>)
        requires
            call_requires(old(self).callback(), (PhyCall::SetFrlRate(rate),)),
        ensures
            r is Ok,
            call_ensures(old(self).callback(), (PhyCall::SetFrlRate(rate),), ()),
    {
        (self.on_call)(PhyCall::SetFrlRate(rate));
        Ok(())
    }

    /// Forwards `SendLtp(pattern)` to the callback, once; never fails.
    pub fn send_ltp(&mut self, pattern: LtpPattern) -> (r: Result<(), Infallible>)
        requires
            call_requires(old(self).callback(), (PhyCall::SendLtp(pattern),)),
        ensures
            r is Ok,
            call_ensures(old(self).callback(), (PhyCall::SendLtp(pattern),), ()),
    {
        (self.on_call)(PhyCall::SendLtp(pattern));
        Ok(())
    }

    /// Forwards `AdjustEqualization(params)` to the callback, once; never fails.
    pub fn adjust_equalization(&mut self, params: EqParams) -> (r: Result<(), Infallible>)
        requires
            call_requires(old(self).callback(), (PhyCall::AdjustEqualization(params),)),
        ensures
            r is Ok,
            call_ensures(old(self).callback(), (PhyCall::AdjustEqualization(params),), ()),
    {
        (self.on_call)(PhyCall::AdjustEqualization(params));
        Ok(())
    }

    /// Forwards `SetScrambling(enabled)` to the callback, once; never fails.
    pub fn set_scrambling(&mut self, enabled: bool) -> (r: Result<(), Infallible>)
        requires
            call_requires(old(self).callback(), (PhyCall::SetScrambling(enabled),)),
        ensures
            r is Ok,
            call_ensures(old(self).callback(), (PhyCall::SetScrambling(enabled),), ()),
    {
        (self.on_call)(PhyCall::SetScrambling(enabled));
        Ok(())
    }
}

} // verus!
