//! The kinds of serial ports and devices a V5 setup presents, and the pure
//! logic that picks which ports to use.
//!
//! Enumerating the actual ports of the machine is transport work and lives
//! outside the library; the types here carry what the logic reads: the
//! platform name of a port and its class.

use vstd::prelude::*;

use crate::errors::DeviceError;

verus! {

/// The class of a V5 serial port: the user port speaks to the user
/// program, the system port to VEXos, and the controller port to the
/// joystick.
#[derive(Debug, Clone, Copy, PartialEq, Eq, Structural)]
pub enum VexSerialClass {
    /// The user program port.
    User,
    /// The VEXos system port.
    System,
    /// The controller port.
    Controller,
}

/// The class of a V5 serial port, under the name the discovery layer uses.
#[derive(Debug, Clone, Copy, PartialEq, Eq, Structural)]
pub enum VexSerialType {
    /// The user program port.
    User,
    /// The VEXos system port.
    System,
    /// The controller port.
    Controller,
}

/// The type of a port as the generic discovery layer labels it.
#[derive(Debug, Clone, Copy, PartialEq, Eq, Structural)]
pub enum VexPortType {
    /// The user program port.
    User,
    /// The VEXos system port.
    System,
    /// The controller port.
    Controller,
}

/// What kind of device sits behind a set of ports.
#[derive(Debug, Clone, Copy, PartialEq, Eq, Structural)]
pub enum VexDeviceType {
    /// A V5 brain.
    Brain,
    /// A V5 controller.
    Controller,
    /// Something that did not identify itself.
    Unknown,
}

/// Information about one V5 serial port: its platform name and its class.
#[derive(Debug, PartialEq, Eq)]
pub struct VexSerialInfo {
    /// The platform-specific port name, for the transport layer to open.
    pub port_name: String,
    /// The class of the port.
    pub class: VexSerialClass,
}

impl Clone for VexSerialInfo {
    /// Clones the port information unchanged.
    fn clone(&self) -> (r: Self)
        ensures
            r == *self,
    {
        VexSerialInfo { port_name: self.port_name.clone(), class: self.class }
    }
}

/// Finds the first port of the wanted class.
fn find_first_of_class(ports: &Vec<VexSerialInfo>, class: VexSerialClass) -> (r: Option<usize>)
    ensures
        match r {
            Some(i) => i < ports@.len() && ports@[i as int].class == class && forall|j: int|
                0 <= j < i ==> ports@[j].class != class,
            None => forall|j: int| 0 <= j < ports@.len() ==> ports@[j].class != class,
        },
{
    let mut i: usize = 0;
    while i < ports.len()
        invariant
            i <= ports@.len(),
            forall|j: int| 0 <= j < i ==> ports@[j].class != class,
        decreases ports@.len() - i,
    {
        if ports[i].class == class {
            return Some(i);
        }
        i = i + 1;
    }
    None
}

/// Picks the system port and the optional user port out of the known
/// ports.
///
/// The system port is the first system-class port; failing that, the first
/// controller-class port; failing that, the first port of all, which is
/// then rejected unless it is a system or controller port (with only user
/// ports present, that rejection is what happens).  The user port is the
/// first user-class port, if any.  No ports at all is its own error.
pub fn find_ports(known_ports: Vec<VexSerialInfo>) -> (r: Result<
    (VexSerialInfo, Option<VexSerialInfo>),
    DeviceError,
>)
    ensures
        known_ports@.len() == 0 <==> r == Err::<(VexSerialInfo, Option<VexSerialInfo>), _>(
            DeviceError::NoPortsFound,
        ),
        r matches Ok(p) ==> ({
            &&& (p.0.class == VexSerialClass::System || p.0.class == VexSerialClass::Controller)
            &&& exists|i: int| 0 <= i < known_ports@.len() && known_ports@[i] == p.0
            &&& match p.1 {
                Some(u) => u.class == VexSerialClass::User && exists|i: int|
                    0 <= i < known_ports@.len() && known_ports@[i] == u,
                None => forall|j: int|
                    0 <= j < known_ports@.len() ==> known_ports@[j].class
                        != VexSerialClass::User,
            }
        }),
        r == Err::<(VexSerialInfo, Option<VexSerialInfo>), _>(DeviceError::NoSystemPort) ==> (
        forall|j: int|
            0 <= j < known_ports@.len() ==> known_ports@[j].class != VexSerialClass::System
                && known_ports@[j].class != VexSerialClass::Controller),
{
    if known_ports.len() == 0 {
        return Err(DeviceError::NoPortsFound);
    }
    let system_index: usize = match find_first_of_class(&known_ports, VexSerialClass::System) {
        Some(i) => i,
        None => match find_first_of_class(&known_ports, VexSerialClass::Controller) {
            Some(i) => i,
            None => 0,
        },
    };
    let system_port = known_ports[system_index].clone();
    if system_port.class != VexSerialClass::System && system_port.class
        != VexSerialClass::Controller {
        return Err(DeviceError::NoSystemPort);
    }
    let user_port = match find_first_of_class(&known_ports, VexSerialClass::User) {
        Some(i) => Some(known_ports[i].clone()),
        None => None,
    };
    Ok((system_port, user_port))
}

} // verus!
