//! Which USB devices are taken for an RNode, and how such an interface is set up.
use vstd::prelude::*;
use vstd::string::*;
use crate::interface::{InterfaceDirection, InterfaceId, InterfaceMode, InterfaceProfile};
use crate::rnode::{
    be_bytes_u16, be_bytes_u32, build_init_sequence, concatenated, radio_reassertion_stages,
    radio_requests, RNodeRadioSettings,
};
use crate::rnode_protocol::{
    evidence_after_frames, proves, reported_settings_prove_the_target, RNodeProtocolEvidence,
    RNodeProtocolTarget,
};

verus! {

/// The rate of the serial line, in bits per second.
pub const BAUD_RATE: u32 = 115_200;

/// How many writes may be under way.
pub const USB_WRITE_QUEUE: usize = 64;

/// How many reports of the workers may wait.
pub const USB_READ_QUEUE: usize = 64;

/// How many packets of the application may wait.
pub const USB_APPLICATION_QUEUE: usize = 64;

/// How long one bulk write may take, in milliseconds.
pub const USB_WRITE_TIMEOUT_MS: i32 = 1_000;

/// How long one bulk read may take, in milliseconds.
pub const USB_READ_TIMEOUT_MS: i32 = 100;

/// How long one bulk write may take, in nanoseconds.
pub const USB_DEFAULT_WRITE_TIMEOUT: u128 = 1_000_000_000;

/// How long each write of the startup may take.
pub const USB_STARTUP_ACK_DEADLINE: u128 = 2_000_000_000;

/// How long the detach may take.
pub const USB_DETACH_ACK_DEADLINE: u128 = 500_000_000;

/// How long the workers may take to end.
pub const USB_WORKER_JOIN_DEADLINE: u128 = 1_250_000_000;

/// The largest packet that a USB RNode takes.
pub const USB_RNODE_MTU: u32 = 500;

/// A device with a serial chipset that RNode hardware uses.
#[derive(Clone, Debug, PartialEq, Eq)]
pub struct UsbSerialDevice {
    pub device_name: String,
    pub vid: u16,
    pub pid: u16,
    pub chipset: String,
    pub manufacturer: String,
    pub product: String,
}

/// The serial chipset of a USB vendor that makes one.
pub open spec fn known_vid(vid: u16) -> Option<Seq<char>> {
    if vid == 0x0403 {
        Some("FTDI"@)
    } else if vid == 0x10C4 {
        Some("Silicon Labs CP210x"@)
    } else if vid == 0x1A86 {
        Some("WCH CH340/CH341"@)
    } else if vid == 0x0525 {
        Some("CDC-ACM (Netchip)"@)
    } else if vid == 0x2E8A {
        Some("Raspberry Pi Pico / RP2040"@)
    } else if vid == 0x303A {
        Some("Espressif ESP32-S3"@)
    } else if vid == 0x239A {
        Some("Adafruit"@)
    } else if vid == 0x1915 {
        Some("Nordic Semiconductor NRF52840"@)
    } else {
        None
    }
}

/// The serial chipset of a USB vendor that makes one.
pub fn chipset_of_vid(vid: u16) -> (chipset: Option<&'static str>)
    ensures
        match known_vid(vid) {
            Some(name) => chipset is Some && chipset->0@ == name,
            None => chipset is None,
        },
{
    match vid {
        0x0403 => Some("FTDI"),
        0x10C4 => Some("Silicon Labs CP210x"),
        0x1A86 => Some("WCH CH340/CH341"),
        0x0525 => Some("CDC-ACM (Netchip)"),
        0x2E8A => Some("Raspberry Pi Pico / RP2040"),
        0x303A => Some("Espressif ESP32-S3"),
        0x239A => Some("Adafruit"),
        0x1915 => Some("Nordic Semiconductor NRF52840"),
        _ => None,
    }
}

/// A device as the bus names it: its name, vendor and product.
pub type UsbBusDevice = (String, u16, u16);

/// `listed` describes a device of the bus.
pub open spec fn lists(listed: UsbSerialDevice, device: UsbBusDevice) -> bool {
    &&& known_vid(device.1) is Some
    &&& listed.device_name@ == device.0@
    &&& listed.vid == device.1
    &&& listed.pid == device.2
    &&& listed.chipset@ == known_vid(device.1)->0
    &&& listed.manufacturer@ == Seq::<char>::empty()
    &&& listed.product@ == Seq::<char>::empty()
}

/// The devices of the bus with a known chipset, in order.
pub open spec fn known_devices(devices: Seq<UsbBusDevice>) -> Seq<UsbBusDevice> {
    devices.filter(|device: UsbBusDevice| known_vid(device.1) is Some)
}

/// Lists a device that is connected, if its chipset is a known one.
pub fn list_usb_device(device_name: String, vid: u16, pid: u16) -> (listed: Option<UsbSerialDevice>)
    ensures
        listed is Some <==> known_vid(vid) is Some,
        listed is Some ==> lists(listed->0, (device_name, vid, pid)),
{
    match chipset_of_vid(vid) {
        Some(chipset) => {
            let device = UsbSerialDevice {
                device_name,
                vid,
                pid,
                chipset: chipset.to_owned(),
                manufacturer: String::new(),
                product: String::new(),
            };
            assert(device.manufacturer@ =~= Seq::<char>::empty());
            assert(device.product@ =~= Seq::<char>::empty());
            Some(device)
        },
        None => None,
    }
}

/// Lists the devices of the bus whose chipset is a known one, in order.
pub fn list_usb_devices(devices: &Vec<UsbBusDevice>) -> (listed: Vec<UsbSerialDevice>)
    ensures
        listed@.len() == known_devices(devices@).len(),
        forall|i: int|
            0 <= i < listed@.len() ==> lists(#[trigger] listed@[i], known_devices(devices@)[i]),
{
    let mut listed: Vec<UsbSerialDevice> = Vec::new();
    let mut index: usize = 0;
    assert(devices@.subrange(0, 0) =~= Seq::<UsbBusDevice>::empty());
    reveal(Seq::filter);
    while index < devices.len()
        invariant
            index <= devices@.len(),
            ({
                let known = known_devices(devices@.subrange(0, index as int));
                &&& listed@.len() == known.len()
                &&& forall|i: int|
                    0 <= i < listed@.len() ==> lists(#[trigger] listed@[i], known[i])
            }),
        decreases devices@.len() - index,
    {
        let device = &devices[index];
        proof {
            reveal(Seq::filter);
            let grown = devices@.subrange(0, index + 1);
            assert(grown.drop_last() =~= devices@.subrange(0, index as int));
            assert(grown.last() == devices@[index as int]);
        }
        match list_usb_device(device.0.clone(), device.1, device.2) {
            Some(found) => {
                listed.push(found);
            },
            None => {},
        }
        index = index + 1;
    }
    assert(devices@.subrange(0, index as int) =~= devices@);
    listed
}

/// How a USB RNode interface is set up. Airtime limits are in hundredths of a percent.
#[derive(Clone, Debug)]
pub struct AndroidUsbConfig {
    pub name: String,
    pub device_name: String,
    pub baud_rate: u32,
    pub frequency: u32,
    pub bandwidth: u32,
    pub spreading_factor: u8,
    pub coding_rate: u8,
    pub tx_power: u8,
    pub mode: InterfaceMode,
    /// Each packet waits for the radio's permission.
    pub flow_control: bool,
    pub st_alock: Option<u16>,
    pub lt_alock: Option<u16>,
}

impl AndroidUsbConfig {
    /// The defaults for an interface of that name on that device.
    pub fn new(name: &str, device_name: &str) -> (config: Self)
        ensures
            config.name@ == name@,
            config.device_name@ == device_name@,
            config.baud_rate == BAUD_RATE,
            config.settings() == (RNodeRadioSettings {
                frequency: 915_000_000,
                bandwidth: 125_000,
                spreading_factor: 8,
                coding_rate: 6,
                tx_power: 17,
                st_alock: None,
                lt_alock: None,
            }),
            config.mode is Full,
            !config.flow_control,
    {
        AndroidUsbConfig {
            name: name.to_owned(),
            device_name: device_name.to_owned(),
            baud_rate: BAUD_RATE,
            frequency: 915_000_000,
            bandwidth: 125_000,
            spreading_factor: 8,
            coding_rate: 6,
            tx_power: 17,
            mode: InterfaceMode::Full,
            flow_control: false,
            st_alock: None,
            lt_alock: None,
        }
    }

    /// The radio settings in the configuration.
    pub open spec fn settings(self) -> RNodeRadioSettings {
        RNodeRadioSettings {
            frequency: self.frequency,
            bandwidth: self.bandwidth,
            spreading_factor: self.spreading_factor,
            coding_rate: self.coding_rate,
            tx_power: self.tx_power,
            st_alock: self.st_alock,
            lt_alock: self.lt_alock,
        }
    }

    /// What a session has to prove before it is ready.
    pub open spec fn target(self) -> RNodeProtocolTarget {
        RNodeProtocolTarget {
            frequency: self.frequency,
            bandwidth: self.bandwidth,
            spreading_factor: self.spreading_factor,
            coding_rate: self.coding_rate,
            tx_power: self.tx_power,
        }
    }

    /// What a session has to prove before it is ready.
    pub fn protocol_target(&self) -> (target: RNodeProtocolTarget)
        ensures
            target == self.target(),
    {
        RNodeProtocolTarget::new(
            self.frequency,
            self.bandwidth,
            self.spreading_factor,
            self.coding_rate,
            self.tx_power,
        )
    }

    /// The write that configures the radio.
    pub fn init_sequence(&self) -> (sequence: Vec<u8>)
        ensures
            sequence@ == concatenated(radio_reassertion_stages(self.settings())),
    {
        build_init_sequence(
            RNodeRadioSettings {
                frequency: self.frequency,
                bandwidth: self.bandwidth,
                spreading_factor: self.spreading_factor,
                coding_rate: self.coding_rate,
                tx_power: self.tx_power,
                st_alock: self.st_alock,
                lt_alock: self.lt_alock,
            },
        )
    }

    /// What the transport is told of the interface.
    pub fn interface_profile(&self, id: InterfaceId) -> (profile: InterfaceProfile)
        ensures
            profile.id == id,
            profile.parent_id is None,
            profile.name@ == self.name@,
            profile.mode == self.mode,
            profile.direction == (InterfaceDirection {
                inbound: true,
                outbound: true,
                forward: true,
                repeat: false,
            }),
            profile.bitrate == BAUD_RATE,
            profile.mtu == USB_RNODE_MTU,
    {
        InterfaceProfile {
            id,
            parent_id: None,
            name: self.name.clone(),
            mode: self.mode,
            direction: InterfaceDirection {
                inbound: true,
                outbound: true,
                forward: true,
                repeat: false,
            },
            bitrate: BAUD_RATE as u64,
            mtu: USB_RNODE_MTU,
        }
    }
}

/// What is written to configure the radio asks for each configured setting under its own
/// command, and a device that reports it all back has proved the configuration.
pub proof fn configured_radio_proves_its_configuration(
    config: AndroidUsbConfig,
    evidence: RNodeProtocolEvidence,
)
    requires
        evidence.detected,
        evidence.firmware is Some,
        evidence.firmware->0.major > 1 || (evidence.firmware->0.major == 1
            && evidence.firmware->0.minor >= 52),
        !evidence.radio_initialisation_fault,
    ensures
        radio_requests(config.settings()).contains((0x01u8, be_bytes_u32(config.frequency))),
        radio_requests(config.settings()).contains((0x02u8, be_bytes_u32(config.bandwidth))),
        radio_requests(config.settings()).contains((0x03u8, seq![config.tx_power])),
        radio_requests(config.settings()).contains((0x04u8, seq![config.spreading_factor])),
        radio_requests(config.settings()).contains((0x05u8, seq![config.coding_rate])),
        proves(
            evidence_after_frames(evidence, radio_requests(config.settings())),
            config.target(),
        ),
        config.target().frequency == config.frequency,
{
    let requests = radio_requests(config.settings());
    assert(requests[0] == (0x01u8, be_bytes_u32(config.frequency)));
    assert(requests[1] == (0x02u8, be_bytes_u32(config.bandwidth)));
    assert(requests[2] == (0x03u8, seq![config.tx_power]));
    assert(requests[3] == (0x04u8, seq![config.spreading_factor]));
    assert(requests[4] == (0x05u8, seq![config.coding_rate]));
    reported_settings_prove_the_target(evidence, config.settings(), config.target());
}

/// The radio is given each airtime limit that is configured, under its own command.
pub proof fn configured_airtime_limits_are_asked_for(config: AndroidUsbConfig, limit: u16)
    ensures
        config.st_alock == Some(limit) ==> radio_requests(config.settings()).contains(
            (0x0Bu8, be_bytes_u16(limit)),
        ),
        config.lt_alock == Some(limit) ==> radio_requests(config.settings()).contains(
            (0x0Cu8, be_bytes_u16(limit)),
        ),
{
    let requests = radio_requests(config.settings());
    if config.st_alock == Some(limit) {
        assert(requests[5] == (0x0Bu8, be_bytes_u16(limit)));
    }
    if config.lt_alock == Some(limit) {
        if config.st_alock is Some {
            assert(requests[6] == (0x0Cu8, be_bytes_u16(limit)));
        } else {
            assert(requests[5] == (0x0Cu8, be_bytes_u16(limit)));
        }
    }
}

/// A device is taken for an RNode by its vendor alone: one of eight that make the serial
/// chipsets of such hardware.
pub proof fn chipset_is_known_by_its_vendor(vid: u16)
    ensures
        known_vid(vid) is Some <==> vid == 0x0403 || vid == 0x10C4 || vid == 0x1A86 || vid == 0x0525
            || vid == 0x2E8A || vid == 0x303A || vid == 0x239A || vid == 0x1915,
{
}

/// The list holds the devices of the bus with a known chipset, each as the bus names it, in
/// order, and no others.
pub proof fn list_holds_the_known_devices(one: Seq<UsbBusDevice>, device: UsbBusDevice)
    ensures
        known_vid(device.1) is Some ==> known_devices(one.push(device)) == known_devices(one).push(
            device,
        ),
        known_vid(device.1) is None ==> known_devices(one.push(device)) == known_devices(one),
        known_devices(Seq::<UsbBusDevice>::empty()).len() == 0,
{
    reveal(Seq::filter);
    assert(one.push(device).drop_last() =~= one);
}

/// What the list says of a device is what the bus said of it.
pub proof fn listed_device_is_as_on_the_bus(listed: UsbSerialDevice, device: UsbBusDevice)
    requires
        lists(listed, device),
    ensures
        listed.device_name@ == device.0@,
        listed.vid == device.1,
        listed.pid == device.2,
        known_vid(device.1) == Some(listed.chipset@),
{
}

/// The bounds of a USB session: two seconds for each write of the startup, half a second for
/// the detach, a second and a quarter for the workers to end, and a second for one bulk write
/// or a tenth for one bulk read.
pub proof fn waits_of_a_usb_session()
    ensures
        USB_STARTUP_ACK_DEADLINE == 2_000_000_000,
        USB_DETACH_ACK_DEADLINE == 500_000_000,
        USB_WORKER_JOIN_DEADLINE == 1_250_000_000,
        USB_DEFAULT_WRITE_TIMEOUT == USB_WRITE_TIMEOUT_MS * 1_000_000,
        USB_WRITE_TIMEOUT_MS == 1_000,
        USB_READ_TIMEOUT_MS == 100,
        BAUD_RATE == 115_200,
        USB_RNODE_MTU == 500,
        USB_WRITE_QUEUE == 64 && USB_READ_QUEUE == 64 && USB_APPLICATION_QUEUE == 64,
{
}

} // verus!
