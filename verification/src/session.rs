//! The session driver's data flow after a protocol is detected: each
//! front-end is turned into a plan — the target to dial, the bytes to
//! send back to the client before relaying, and how many inbound bytes
//! the header consumed — and the target is dialled through a two-entry
//! address pool that falls back to the configured proxy.
use crate::addr::{addr_wf, spec_host_bytes, host_bytes};
use crate::config::Config;
use crate::errors::ProxyError;
use crate::protocols::{
    spec_parse_shadowsocks, spec_parse_trojan, spec_parse_vless, parse_shadowsocks, parse_trojan,
    parse_vless, vless_response_header,
};
use crate::vmess::VmessSession;
use vstd::prelude::*;
use vstd::slice::slice_to_vec;

verus! {

/// The ordered two-entry pool of dial candidates: the parsed target
/// first, the configured fallback second.
pub struct AddrPool {
    pub primary_host: Vec<u8>,
    pub primary_port: u16,
    pub fallback_host: Vec<u8>,
    pub fallback_port: u16,
    pub tried: u8,
}

impl AddrPool {
    /// A fresh pool over the parsed target and the configured fallback.
    pub fn new(primary_host: Vec<u8>, primary_port: u16, config: &Config) -> (p: AddrPool)
        ensures
            p.primary_host@ == primary_host@,
            p.primary_port == primary_port,
            p.fallback_host@ == config.proxy_addr@,
            p.fallback_port == config.proxy_port,
            p.tried == 0,
    {
        AddrPool {
            primary_host,
            primary_port,
            fallback_host: slice_to_vec(config.proxy_addr.as_slice()),
            fallback_port: config.proxy_port,
            tried: 0,
        }
    }

    /// The next candidate to dial: first the parsed target, then the
    /// fallback, then nothing. The caller moves on exactly when a dial
    /// or its relay fails.
    pub fn next_candidate(&mut self) -> (r: Option<(Vec<u8>, u16)>)
        ensures
            final(self).primary_host@ == old(self).primary_host@,
            final(self).primary_port == old(self).primary_port,
            final(self).fallback_host@ == old(self).fallback_host@,
            final(self).fallback_port == old(self).fallback_port,
            old(self).tried == 0 ==> (r matches Some((h, p)) && h@ == old(self).primary_host@ && p
                == old(self).primary_port && final(self).tried == 1),
            old(self).tried == 1 ==> (r matches Some((h, p)) && h@ == old(self).fallback_host@ && p
                == old(self).fallback_port && final(self).tried == 2),
            old(self).tried >= 2 ==> r is None && final(self).tried == old(self).tried,
    {
        if self.tried == 0 {
            self.tried = 1;
            Some((slice_to_vec(self.primary_host.as_slice()), self.primary_port))
        } else if self.tried == 1 {
            self.tried = 2;
            Some((slice_to_vec(self.fallback_host.as_slice()), self.fallback_port))
        } else {
            None
        }
    }
}

/// What a protocol front-end asks the runtime to do.
pub enum HandlerPlan {
    /// Dial the target over TCP (through the address pool), send the
    /// reply bytes to the client first, and relay; `consumed` header
    /// bytes are gone from the inbound stream and the rest is payload.
    Tcp { host: Vec<u8>, port: u16, reply: Vec<u8>, consumed: usize },
    /// Hand the next inbound datagram to the DNS-over-HTTPS helper;
    /// the reply bytes go to the client first.
    Udp { reply: Vec<u8>, consumed: usize },
}

/// Turn a VLESS request into a plan: command 1 dials TCP and answers
/// with the two-byte zero header; any other command takes the UDP path.
pub fn plan_vless(buf: &[u8]) -> (r: Result<HandlerPlan, ProxyError>)
    ensures
        ({
            let sp = spec_parse_vless(buf@);
            match r {
                Ok(plan) => sp is Ok && {
                    let h = sp->Ok_0;
                    match plan {
                        HandlerPlan::Tcp { host, port, reply, consumed } => {
                            &&& h.command == 1
                            &&& host@ == spec_host_bytes(h.addr)
                            &&& port == h.port
                            &&& reply@ == seq![0u8, 0u8]
                            &&& consumed == h.consumed
                        },
                        HandlerPlan::Udp { reply, consumed } => {
                            &&& h.command != 1
                            &&& reply@ == seq![0u8, 0u8]
                            &&& consumed == h.consumed
                        },
                    }
                },
                Err(e) => sp == Err::<crate::protocols::VlessHeaderModel, ProxyError>(e),
            }
        }),
{
    let h = match parse_vless(buf) {
        Ok(h) => h,
        Err(e) => {
            return Err(e);
        },
    };
    let reply = vless_response_header();
    if h.command == 1 {
        let host = host_bytes(&h.addr);
        Ok(HandlerPlan::Tcp { host, port: h.port, reply, consumed: h.consumed })
    } else {
        Ok(HandlerPlan::Udp { reply, consumed: h.consumed })
    }
}

/// Turn a Trojan request into a plan: command 1 dials TCP with no
/// reply bytes; any other command takes the UDP path.
pub fn plan_trojan(buf: &[u8]) -> (r: Result<HandlerPlan, ProxyError>)
    ensures
        ({
            let sp = spec_parse_trojan(buf@);
            match r {
                Ok(plan) => sp is Ok && {
                    let h = sp->Ok_0;
                    match plan {
                        HandlerPlan::Tcp { host, port, reply, consumed } => {
                            &&& h.command == 1
                            &&& host@ == spec_host_bytes(h.addr)
                            &&& port == h.port
                            &&& reply@ == Seq::<u8>::empty()
                            &&& consumed == h.consumed
                        },
                        HandlerPlan::Udp { reply, consumed } => {
                            &&& h.command != 1
                            &&& reply@ == Seq::<u8>::empty()
                            &&& consumed == h.consumed
                        },
                    }
                },
                Err(e) => sp == Err::<crate::protocols::TrojanHeaderModel, ProxyError>(e),
            }
        }),
{
    let h = match parse_trojan(buf) {
        Ok(h) => h,
        Err(e) => {
            return Err(e);
        },
    };
    let reply: Vec<u8> = Vec::new();
    if h.command == 1 {
        let host = host_bytes(&h.addr);
        Ok(HandlerPlan::Tcp { host, port: h.port, reply, consumed: h.consumed })
    } else {
        Ok(HandlerPlan::Udp { reply, consumed: h.consumed })
    }
}

/// Turn a Shadowsocks request into a plan. The frame carries no network
/// type, so TCP is assumed; everything after the header is ciphertext
/// forwarded verbatim.
pub fn plan_shadowsocks(buf: &[u8]) -> (r: Result<HandlerPlan, ProxyError>)
    ensures
        ({
            let sp = spec_parse_shadowsocks(buf@);
            match r {
                Ok(plan) => sp is Ok && {
                    let h = sp->Ok_0;
                    match plan {
                        HandlerPlan::Tcp { host, port, reply, consumed } => {
                            &&& host@ == spec_host_bytes(h.addr)
                            &&& port == h.port
                            &&& reply@ == Seq::<u8>::empty()
                            &&& consumed == h.consumed
                        },
                        HandlerPlan::Udp { .. } => false,
                    }
                },
                Err(e) => sp == Err::<crate::protocols::SsHeaderModel, ProxyError>(e),
            }
        }),
{
    let h = match parse_shadowsocks(buf) {
        Ok(h) => h,
        Err(e) => {
            return Err(e);
        },
    };
    let reply: Vec<u8> = Vec::new();
    let host = host_bytes(&h.addr);
    Ok(HandlerPlan::Tcp { host, port: h.port, reply, consumed: h.consumed })
}

/// Turn an opened VMess session (see `vmess_open_session`) into a plan:
/// the reply is the sealed response length followed by the sealed
/// response header; command 1 dials TCP and any other command takes the
/// UDP path.
pub fn plan_vmess(s: VmessSession) -> (r: HandlerPlan)
    requires
        addr_wf(s.command@.addr),
    ensures
        match r {
            HandlerPlan::Tcp { host, port, reply, consumed } => {
                &&& s.command.command == 1
                &&& host@ == spec_host_bytes(s.command@.addr)
                &&& port == s.command.port
                &&& reply@ == s.resp_len_ct@ + s.resp_hdr_ct@
                &&& consumed == s.consumed
            },
            HandlerPlan::Udp { reply, consumed } => {
                &&& s.command.command != 1
                &&& reply@ == s.resp_len_ct@ + s.resp_hdr_ct@
                &&& consumed == s.consumed
            },
        },
{
    let mut reply = s.resp_len_ct;
    let mut hdr = s.resp_hdr_ct;
    reply.append(&mut hdr);
    if s.command.command == 1 {
        let host = host_bytes(&s.command.addr);
        HandlerPlan::Tcp { host, port: s.command.port, reply, consumed: s.consumed }
    } else {
        HandlerPlan::Udp { reply, consumed: s.consumed }
    }
}

} // verus!
