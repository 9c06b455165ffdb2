//! Snapshots handed to callers: how to reach the gateway, and whether it runs.

use vstd::prelude::*;
use vstd::string::*;
use crate::text::{decimal, to_decimal};

verus! {

/// How a front end reaches a running gateway.
#[derive(Debug, PartialEq, Eq)]
pub struct GatewayInfo {
    /// WebSocket address of the gateway.
    pub url: String,
    /// Port the gateway listens on.
    pub port: u16,
    /// Token the gateway expects from whoever connects during this session.
    pub token: String,
}

/// What a `GatewayInfo` holds, as plain values.
pub struct GatewayInfoView {
    pub url: Seq<char>,
    pub port: u16,
    pub token: Seq<char>,
}

impl View for GatewayInfo {
    type V = GatewayInfoView;

    open spec fn view(&self) -> GatewayInfoView {
        GatewayInfoView { url: self.url@, port: self.port, token: self.token@ }
    }
}

/// The address of a gateway that listens on `port` of this machine.
pub open spec fn gateway_url(port: u16) -> Seq<char> {
    "ws://localhost:"@ + decimal(port as nat)
}

/// The connection info of a session on `port` that is guarded by `token`.
pub open spec fn session_info(port: u16, token: Seq<char>) -> GatewayInfoView {
    GatewayInfoView { url: gateway_url(port), port, token }
}

impl Clone for GatewayInfo {
    fn clone(&self) -> (copy: Self)
        ensures
            copy == *self,
    {
        GatewayInfo { url: self.url.clone(), port: self.port, token: self.token.clone() }
    }
}

impl GatewayInfo {
    /// Connection info for a gateway session on `port` guarded by `token`.
    pub fn for_session(port: u16, token: String) -> (info: GatewayInfo)
        ensures
            info@ == session_info(port, token@),
    {
        let mut url = String::from_str("ws://localhost:");
        let number = to_decimal(port as u64);
        url.append(number.as_str());
        GatewayInfo { url, port, token }
    }
}

/// The view of connection info that may be absent.
pub open spec fn info_view(info: Option<GatewayInfo>) -> Option<GatewayInfoView> {
    match info {
        Some(i) => Some(i@),
        None => None,
    }
}

/// Liveness of the gateway as seen at the moment of a query.
#[derive(Debug, PartialEq, Eq)]
pub struct GatewayStatus {
    pub running: bool,
    pub info: Option<GatewayInfo>,
}

/// What a `GatewayStatus` holds, as plain values.
pub struct GatewayStatusView {
    pub running: bool,
    pub info: Option<GatewayInfoView>,
}

impl View for GatewayStatus {
    type V = GatewayStatusView;

    open spec fn view(&self) -> GatewayStatusView {
        GatewayStatusView { running: self.running, info: info_view(self.info) }
    }
}

/// The answer that reports no gateway.
pub open spec fn not_running() -> GatewayStatusView {
    GatewayStatusView { running: false, info: None }
}

impl GatewayStatus {
    /// The answer given when the supervisor's state cannot be consulted:
    /// nothing is reported as running.
    pub fn unavailable() -> (status: GatewayStatus)
        ensures
            status@ == not_running(),
    {
        GatewayStatus { running: false, info: None }
    }
}

} // verus!
