//! The virtual NIC: the device configuration it asks for, the interface it
//! binds to, and the configurer calls it makes on that interface.
use vstd::prelude::*;
use crate::packet::{Platform, TunZCPacketToBytes};

verus! {

/// Largest prefix length that the configurer's byte can carry.
pub const MAX_PREFIX_BYTE: i32 = 255;

/// Why a NIC operation failed.
#[derive(Debug, Clone, Copy, PartialEq, Eq, Structural)]
pub enum NicError {
    /// A configuration that is not supported, such as several queues.
    ConfigUnsupported,
    /// The kernel refused to create the tunnel device.
    DeviceCreate,
    /// The interface did not show up in time.
    InterfaceNotReady,
    /// The interface configuration was refused.
    InterfaceConfig,
}

/// The tunnel device to create: always layer 3, one queue, up.
pub struct DeviceConfig {
    /// Name asked for; `None` lets the kernel pick.
    pub name: Option<String>,
    pub queues: usize,
    pub up: bool,
    /// Whether the driver is asked to add its own packet-info header.
    pub driver_packet_info: bool,
    /// Whether frames written to the device carry the packet-info prefix.
    pub has_packet_info: bool,
}

/// A call to the interface configurer, on the interface `ifname`.
/// Addresses are IPv4 octets.
#[allow(inconsistent_fields)]
#[derive(Debug, PartialEq, Eq)]
pub enum IfcfgOp {
    SetLinkStatus { ifname: String, up: bool },
    AddIpv4Ip { ifname: String, ip: [u8; 4], cidr: u8 },
    RemoveIp { ifname: String, ip: Option<[u8; 4]> },
    AddIpv4Route { ifname: String, ip: [u8; 4], cidr: u8 },
}

/// Whether the tunnel driver of `platform` exchanges the packet-info prefix.
pub open spec fn platform_has_packet_info(platform: Platform) -> bool {
    platform == Platform::Darwin
}

/// A virtual NIC: the settings it is created with, and the interface name
/// once the device exists.
pub struct VirtualNic {
    dev_name: String,
    queue_num: usize,
    ifname: Option<String>,
}

impl VirtualNic {
    pub closed spec fn dev_name_view(&self) -> Seq<char> {
        self.dev_name@
    }

    pub closed spec fn queue_num_view(&self) -> usize {
        self.queue_num
    }

    /// The interface name, once bound.
    pub closed spec fn ifname_view(&self) -> Option<Seq<char>> {
        match self.ifname {
            Some(n) => Some(n@),
            None => None,
        }
    }

    /// A device that exists: its interface was seen by the configurer.
    pub open spec fn is_created(&self) -> bool {
        self.ifname_view() is Some
    }

    /// No device yet; the kernel picks the name; one queue.
    pub fn new() -> (r: Self)
        ensures
            r.dev_name_view() == Seq::<char>::empty(),
            r.queue_num_view() == 1,
            r.ifname_view() is None,
    {
        VirtualNic { dev_name: String::new(), queue_num: 1, ifname: None }
    }

    /// Sets the name to ask for; the empty name lets the kernel pick.
    pub fn set_dev_name(self, dev_name: &str) -> (r: Result<Self, NicError>)
        ensures
            r matches Ok(n) && n.dev_name_view() == dev_name@ && n.queue_num_view()
                == self.queue_num_view() && n.ifname_view() == self.ifname_view(),
    {
        let mut nic = self;
        nic.dev_name = dev_name.to_owned();
        Ok(nic)
    }

    /// Sets the number of queues; only one is supported at creation.
    pub fn set_queue_num(self, queue_num: usize) -> (r: Result<Self, NicError>)
        ensures
            r matches Ok(n) && n.queue_num_view() == queue_num && n.dev_name_view()
                == self.dev_name_view() && n.ifname_view() == self.ifname_view(),
    {
        let mut nic = self;
        nic.queue_num = queue_num;
        Ok(nic)
    }

    /// The device to create on `platform`; refused unless one queue was set.
    pub fn device_config(&self, platform: Platform) -> (r: Result<DeviceConfig, NicError>)
        ensures
            r is Err <==> self.queue_num_view() != 1,
            r matches Err(e) ==> e == NicError::ConfigUnsupported,
            r matches Ok(c) ==> {
                &&& c.queues == 1
                &&& c.up
                &&& c.has_packet_info == platform_has_packet_info(platform)
                &&& c.driver_packet_info == platform_has_packet_info(platform)
                &&& (self.dev_name_view().len() == 0 ==> c.name is None)
                &&& (self.dev_name_view().len() > 0 ==> (c.name matches Some(n) && n@
                    == self.dev_name_view()))
            },
    {
        if self.queue_num != 1 {
            return Err(NicError::ConfigUnsupported);
        }
        let name = if self.dev_name.as_str().is_empty() {
            None
        } else {
            Some(self.dev_name.clone())
        };
        let has_packet_info = platform == Platform::Darwin;
        Ok(
            DeviceConfig {
                name,
                queues: 1,
                up: true,
                driver_packet_info: has_packet_info,
                has_packet_info,
            },
        )
    }

    /// The framer for frames written to a device made from `config`.
    pub fn framer(config: &DeviceConfig, platform: Platform) -> (r: TunZCPacketToBytes)
        ensures
            r.has_packet_info == config.has_packet_info,
            r.platform == platform,
    {
        TunZCPacketToBytes::new(config.has_packet_info, platform)
    }

    /// Binds the NIC to the created interface `ifname` once the configurer
    /// has seen it; an interface that did not show up binds nothing.
    pub fn bind_interface(&mut self, ifname: String, shown: bool) -> (r: Result<(), NicError>)
        ensures
            shown ==> (r is Ok && final(self).ifname_view() == Some(ifname@)),
            !shown ==> (r == Err::<(), NicError>(NicError::InterfaceNotReady)
                && final(self).ifname_view() == old(self).ifname_view()),
            final(self).dev_name_view() == old(self).dev_name_view(),
            final(self).queue_num_view() == old(self).queue_num_view(),
    {
        if !shown {
            return Err(NicError::InterfaceNotReady);
        }
        self.ifname = Some(ifname);
        Ok(())
    }

    /// Whether the NIC is bound to a created interface.
    pub fn has_interface(&self) -> (r: bool)
        ensures
            r == self.is_created(),
    {
        self.ifname.is_some()
    }

    /// The kernel-assigned name of the interface.
    pub fn ifname(&self) -> (r: &str)
        requires
            self.is_created(),
        ensures
            Some(r@) == self.ifname_view(),
    {
        match &self.ifname {
            Some(n) => n.as_str(),
            None => "",
        }
    }

    /// Sets the interface administratively up.
    pub fn link_up(&self) -> (r: IfcfgOp)
        requires
            self.is_created(),
        ensures
            r matches IfcfgOp::SetLinkStatus { ifname, up } && Some(ifname@) == self.ifname_view()
                && up,
    {
        IfcfgOp::SetLinkStatus { ifname: self.ifname().to_owned(), up: true }
    }

    /// Installs a route to `address`/`cidr` through the interface.
    pub fn add_route(&self, address: [u8; 4], cidr: u8) -> (r: IfcfgOp)
        requires
            self.is_created(),
        ensures
            r matches IfcfgOp::AddIpv4Route { ifname, ip, cidr: c } && Some(ifname@)
                == self.ifname_view() && ip == address && c == cidr,
    {
        IfcfgOp::AddIpv4Route { ifname: self.ifname().to_owned(), ip: address, cidr }
    }

    /// Removes `ip` from the interface, or every address when `None`.
    pub fn remove_ip(&self, ip: Option<[u8; 4]>) -> (r: IfcfgOp)
        requires
            self.is_created(),
        ensures
            r matches IfcfgOp::RemoveIp { ifname, ip: i } && Some(ifname@) == self.ifname_view()
                && i == ip,
    {
        IfcfgOp::RemoveIp { ifname: self.ifname().to_owned(), ip }
    }

    /// Adds the address `ip`/`cidr` to the interface. The configurer takes
    /// the prefix length as a byte; one that does not fit a byte is refused.
    pub fn add_ip(&self, ip: [u8; 4], cidr: i32) -> (r: Result<IfcfgOp, NicError>)
        requires
            self.is_created(),
        ensures
            r is Err <==> !(0 <= cidr <= MAX_PREFIX_BYTE),
            r matches Err(e) ==> e == NicError::InterfaceConfig,
            r matches Ok(op) ==> op matches IfcfgOp::AddIpv4Ip { ifname, ip: i, cidr: c } && Some(
                ifname@,
            ) == self.ifname_view() && i == ip && c == cidr,
    {
        if cidr < 0 || cidr > MAX_PREFIX_BYTE {
            return Err(NicError::InterfaceConfig);
        }
        Ok(IfcfgOp::AddIpv4Ip { ifname: self.ifname().to_owned(), ip, cidr: cidr as u8 })
    }
}

} // verus!
