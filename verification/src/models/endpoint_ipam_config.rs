//! An endpoint's IPAM configuration.

use crate::text::{text_of, text_view, texts, texts_of};
use vstd::prelude::*;

verus! {

/// The addresses an endpoint asks for when it joins a network. Every property
/// is optional; an absent property is left for the daemon to choose.
#[derive(Debug)]
pub struct EndpointIpamConfig {
    i_pv4_address: Option<String>,
    i_pv6_address: Option<String>,
    link_local_i_ps: Option<Vec<String>>,
}

/// What an [`EndpointIpamConfig`] holds, as mathematical values.
pub struct EndpointIpamConfigView {
    pub i_pv4_address: Option<Seq<char>>,
    pub i_pv6_address: Option<Seq<char>>,
    pub link_local_i_ps: Option<Seq<Seq<char>>>,
}

impl View for EndpointIpamConfig {
    type V = EndpointIpamConfigView;

    closed spec fn view(&self) -> EndpointIpamConfigView {
        EndpointIpamConfigView {
            i_pv4_address: text_view(self.i_pv4_address),
            i_pv6_address: text_view(self.i_pv6_address),
            link_local_i_ps: match self.link_local_i_ps {
                Some(v) => Some(texts(v@)),
                None => None,
            },
        }
    }
}

impl EndpointIpamConfig {
    /// A configuration with no property set.
    pub fn new() -> (config: EndpointIpamConfig)
        ensures
            config@.i_pv4_address is None,
            config@.i_pv6_address is None,
            config@.link_local_i_ps is None,
    {
        EndpointIpamConfig { i_pv4_address: None, i_pv6_address: None, link_local_i_ps: None }
    }

    /// Sets the IPv4 address and leaves the other properties as they are.
    pub fn set_i_pv4_address(&mut self, i_pv4_address: String)
        ensures
            final(self)@ == (EndpointIpamConfigView {
                i_pv4_address: Some(i_pv4_address@),
                ..old(self)@
            }),
    {
        self.i_pv4_address = Some(i_pv4_address);
    }

    /// This configuration with the IPv4 address set.
    pub fn with_i_pv4_address(self, i_pv4_address: String) -> (config: EndpointIpamConfig)
        ensures
            config@ == (EndpointIpamConfigView { i_pv4_address: Some(i_pv4_address@), ..self@ }),
    {
        let mut config = self;
        config.i_pv4_address = Some(i_pv4_address);
        config
    }

    /// The IPv4 address, if one is set.
    pub fn i_pv4_address(&self) -> (address: Option<&String>)
        ensures
            text_of(address) == self@.i_pv4_address,
    {
        self.i_pv4_address.as_ref()
    }

    /// Unsets the IPv4 address.
    pub fn reset_i_pv4_address(&mut self)
        ensures
            final(self)@ == (EndpointIpamConfigView { i_pv4_address: None, ..old(self)@ }),
    {
        self.i_pv4_address = None;
    }

    /// Sets the IPv6 address and leaves the other properties as they are.
    pub fn set_i_pv6_address(&mut self, i_pv6_address: String)
        ensures
            final(self)@ == (EndpointIpamConfigView {
                i_pv6_address: Some(i_pv6_address@),
                ..old(self)@
            }),
    {
        self.i_pv6_address = Some(i_pv6_address);
    }

    /// This configuration with the IPv6 address set.
    pub fn with_i_pv6_address(self, i_pv6_address: String) -> (config: EndpointIpamConfig)
        ensures
            config@ == (EndpointIpamConfigView { i_pv6_address: Some(i_pv6_address@), ..self@ }),
    {
        let mut config = self;
        config.i_pv6_address = Some(i_pv6_address);
        config
    }

    /// The IPv6 address, if one is set.
    pub fn i_pv6_address(&self) -> (address: Option<&String>)
        ensures
            text_of(address) == self@.i_pv6_address,
    {
        self.i_pv6_address.as_ref()
    }

    /// Unsets the IPv6 address.
    pub fn reset_i_pv6_address(&mut self)
        ensures
            final(self)@ == (EndpointIpamConfigView { i_pv6_address: None, ..old(self)@ }),
    {
        self.i_pv6_address = None;
    }

    /// Sets the link-local addresses and leaves the other properties as they
    /// are.
    pub fn set_link_local_i_ps(&mut self, link_local_i_ps: Vec<String>)
        ensures
            final(self)@ == (EndpointIpamConfigView {
                link_local_i_ps: Some(texts(link_local_i_ps@)),
                ..old(self)@
            }),
    {
        self.link_local_i_ps = Some(link_local_i_ps);
    }

    /// This configuration with the link-local addresses set.
    pub fn with_link_local_i_ps(self, link_local_i_ps: Vec<String>) -> (config: EndpointIpamConfig)
        ensures
            config@ == (EndpointIpamConfigView {
                link_local_i_ps: Some(texts(link_local_i_ps@)),
                ..self@
            }),
    {
        let mut config = self;
        config.link_local_i_ps = Some(link_local_i_ps);
        config
    }

    /// The link-local addresses, if any are set.
    pub fn link_local_i_ps(&self) -> (addresses: Option<&Vec<String>>)
        ensures
            texts_of(addresses) == self@.link_local_i_ps,
    {
        self.link_local_i_ps.as_ref()
    }

    /// Unsets the link-local addresses.
    pub fn reset_link_local_i_ps(&mut self)
        ensures
            final(self)@ == (EndpointIpamConfigView { link_local_i_ps: None, ..old(self)@ }),
    {
        self.link_local_i_ps = None;
    }
}

} // verus!
