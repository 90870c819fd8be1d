//! Which advertised device a configuration means, and how devices are listed.
use vstd::prelude::*;
use vstd::string::*;
use crate::interface::InterfaceError;
use crate::text::{
    after_last, eq_ignore_ascii_case, has_prefix, join2, join3, lemma_after_last_within,
    prefix_and_rest_make_the_text, replaced, replacement_is_exact, same_ignoring_ascii_case,
    same_text, starts_with, strip_prefix, tail_after, tail_follows_the_last_mark,
    underscores_to_colons, without_first,
};

verus! {

/// The Nordic UART Service.
pub const NUS_SERVICE_UUID: u128 = 0x6E400001_B5A3_F393_E0A9_E50E24DCCA9E;

/// The host writes RNode commands to this characteristic.
pub const NUS_RX_CHAR_UUID: u128 = 0x6E400002_B5A3_F393_E0A9_E50E24DCCA9E;

/// The device notifies the host through this characteristic.
pub const NUS_TX_CHAR_UUID: u128 = 0x6E400003_B5A3_F393_E0A9_E50E24DCCA9E;

/// What a listed device is.
#[derive(Clone, Debug, PartialEq, Eq, Structural)]
pub enum BleDeviceType {
    /// Advertises the Nordic UART Service.
    RNode,
    Unknown,
}

/// A device that a scan found.
#[derive(Clone, Debug)]
pub struct BleDevice {
    pub name: String,
    pub address: String,
    pub rssi: Option<i16>,
    pub device_type: BleDeviceType,
    /// The operating system already has a bond with this device. Only Linux and
    /// Android can tell; elsewhere it is always false.
    pub bonded: bool,
}

/// The properties of an advertisement.
#[derive(Clone, Debug)]
pub struct BleAdvertisedProperties {
    pub local_name: Option<String>,
    pub services: Vec<u128>,
    pub rssi: Option<i16>,
}

/// A peripheral that the adapter knows of, with its properties where they could
/// be read.
#[derive(Clone, Debug)]
pub struct BleAdvertisement {
    pub id: String,
    pub properties: Option<BleAdvertisedProperties>,
    /// The operating system has a bond with the peripheral; false where it cannot tell.
    pub bonded: bool,
}

fn lists_service(services: &Vec<u128>, wanted: u128) -> (found: bool)
    ensures
        found == services@.contains(wanted),
{
    let mut index: usize = 0;
    while index < services.len()
        invariant
            index <= services@.len(),
            forall|i: int| 0 <= i < index ==> services@[i] != wanted,
        decreases services@.len() - index,
    {
        if services[index] == wanted {
            assert(services@[index as int] == wanted);
            return true;
        }
        index = index + 1;
    }
    false
}

/// The advertisement belongs in the device list: its properties could be read, and it
/// has a name.
pub open spec fn is_listed(advertisement: BleAdvertisement) -> bool {
    match advertisement.properties {
        Some(properties) => properties.local_name is Some && properties.local_name->0@.len() > 0,
        None => false,
    }
}

/// The advertisement belongs in the list that a person picks an RNode from: its name
/// begins with `RNode`, and it either advertises the Nordic UART Service or no service
/// at all. That keeps other devices with the service out, and devices in whose first
/// advertisement the service is missing in.
pub open spec fn is_rnode_candidate(advertisement: BleAdvertisement) -> bool {
    match advertisement.properties {
        Some(properties) => {
            &&& properties.local_name is Some
            &&& has_prefix(properties.local_name->0@, "RNode"@)
            &&& properties.services@.contains(NUS_SERVICE_UUID) || properties.services@.len() == 0
        },
        None => false,
    }
}

/// The positions of the listed advertisements, in order; of the RNode candidates alone
/// where the list is narrow.
pub open spec fn listed_positions(
    advertisements: Seq<BleAdvertisement>,
    narrow: bool,
) -> Seq<int>
    decreases advertisements.len(),
{
    if advertisements.len() == 0 {
        Seq::empty()
    } else {
        let before = listed_positions(advertisements.drop_last(), narrow);
        if is_listed(advertisements.last()) && (narrow ==> is_rnode_candidate(
            advertisements.last(),
        )) {
            before.push(advertisements.len() - 1)
        } else {
            before
        }
    }
}

/// `device` describes `advertisement`: as an RNode if it advertises the Nordic UART
/// Service, as unknown otherwise.
pub open spec fn describes(device: BleDevice, advertisement: BleAdvertisement) -> bool {
    &&& advertisement.properties is Some
    &&& advertisement.properties->0.local_name is Some
    &&& device.name@ == advertisement.properties->0.local_name->0@
    &&& device.address@ == advertisement.id@
    &&& device.rssi == advertisement.properties->0.rssi
    &&& device.device_type is RNode <==> advertisement.properties->0.services@.contains(
        NUS_SERVICE_UUID,
    )
    &&& device.bonded == advertisement.bonded
}

/// `devices` describe the advertisements at `positions`, one by one.
pub open spec fn describe_all(
    devices: Seq<BleDevice>,
    advertisements: Seq<BleAdvertisement>,
    positions: Seq<int>,
) -> bool {
    &&& devices.len() == positions.len()
    &&& forall|i: int|
        0 <= i < devices.len() ==> describes(#[trigger] devices[i], advertisements[positions[i]])
}

/// Describes one advertisement, if it belongs in the list.
pub fn list_device(advertisement: &BleAdvertisement) -> (device: Option<BleDevice>)
    ensures
        device is Some == is_listed(*advertisement),
        device is Some ==> describes(device->0, *advertisement),
{
    match &advertisement.properties {
        Some(properties) => match &properties.local_name {
            Some(name) => {
                if name.as_str().unicode_len() == 0 {
                    return None;
                }
                Some(
                    BleDevice {
                        name: name.clone(),
                        address: advertisement.id.clone(),
                        rssi: properties.rssi,
                        device_type: if lists_service(&properties.services, NUS_SERVICE_UUID) {
                            BleDeviceType::RNode
                        } else {
                            BleDeviceType::Unknown
                        },
                        bonded: advertisement.bonded,
                    },
                )
            },
            None => None,
        },
        None => None,
    }
}

fn rnode_candidate(advertisement: &BleAdvertisement) -> (candidate: bool)
    ensures
        candidate == is_rnode_candidate(*advertisement),
{
    match &advertisement.properties {
        Some(properties) => match &properties.local_name {
            Some(name) => starts_with(name.as_str(), "RNode") && (properties.services.len() == 0
                || lists_service(&properties.services, NUS_SERVICE_UUID)),
            None => false,
        },
        None => false,
    }
}

fn list_advertisements(advertisements: &Vec<BleAdvertisement>, narrow: bool) -> (devices: Vec<
    BleDevice,
>)
    ensures
        describe_all(devices@, advertisements@, listed_positions(advertisements@, narrow)),
{
    let mut devices: Vec<BleDevice> = Vec::new();
    let mut index: usize = 0;
    while index < advertisements.len()
        invariant
            index <= advertisements@.len(),
            ({
                let positions = listed_positions(
                    advertisements@.subrange(0, index as int),
                    narrow,
                );
                &&& describe_all(devices@, advertisements@, positions)
                &&& forall|i: int| 0 <= i < positions.len() ==> 0 <= #[trigger] positions[i] < index
            }),
        decreases advertisements@.len() - index,
    {
        let ghost grown = advertisements@.subrange(0, index + 1);
        assert(grown.drop_last() =~= advertisements@.subrange(0, index as int));
        match list_device(&advertisements[index]) {
            Some(device) => {
                if !narrow || rnode_candidate(&advertisements[index]) {
                    devices.push(device);
                }
            },
            None => {},
        }
        index = index + 1;
    }
    assert(advertisements@.subrange(0, index as int) =~= advertisements@);
    devices
}

/// Lists every named device that a scan found, in the adapter's order.
pub fn list_devices(advertisements: &Vec<BleAdvertisement>) -> (devices: Vec<BleDevice>)
    ensures
        describe_all(devices@, advertisements@, listed_positions(advertisements@, false)),
{
    list_advertisements(advertisements, false)
}

/// Lists the devices that a scan found and a person may pick an RNode from, in the
/// adapter's order.
pub fn list_rnode_candidates(advertisements: &Vec<BleAdvertisement>) -> (devices: Vec<BleDevice>)
    ensures
        describe_all(devices@, advertisements@, listed_positions(advertisements@, true)),
{
    list_advertisements(advertisements, true)
}

/// No advertisement is listed twice, the list keeps the adapter's order, and what is
/// listed is exactly what belongs in the list.
pub proof fn list_is_complete(
    advertisements: Seq<BleAdvertisement>,
    narrow: bool,
    position: int,
)
    ensures
        ({
            let positions = listed_positions(advertisements, narrow);
            &&& positions.contains(position) <==> 0 <= position < advertisements.len()
                && is_listed(advertisements[position]) && (narrow ==> is_rnode_candidate(
                advertisements[position],
            ))
            &&& forall|i: int, j: int|
                0 <= i < j < positions.len() ==> #[trigger] positions[i] < #[trigger] positions[j]
            &&& forall|i: int|
                0 <= i < positions.len() ==> 0 <= #[trigger] positions[i] < advertisements.len()
        }),
    decreases advertisements.len(),
{
    let positions = listed_positions(advertisements, narrow);
    if advertisements.len() > 0 {
        let head = advertisements.drop_last();
        let before = listed_positions(head, narrow);
        list_is_complete(head, narrow, position);
        if positions.len() > before.len() {
            assert(positions.last() == advertisements.len() - 1);
            if position == advertisements.len() - 1 {
                assert(positions[positions.len() - 1] == position);
            } else if before.contains(position) {
                let index = choose|i: int| 0 <= i < before.len() && before[i] == position;
                assert(positions[index] == position);
            }
        }
        if 0 <= position < head.len() {
            assert(head[position] == advertisements[position]);
        }
    }
}

/// How a configured target was recognised.
#[derive(Clone, Copy, Debug, PartialEq, Eq, Structural)]
pub enum BleTargetResolutionClass {
    FirstRnode,
    PrimaryId,
    PrimaryName,
    GenerationStableName,
}

impl BleTargetResolutionClass {
    /// The class's name in diagnostics.
    pub fn label(self) -> (label: &'static str)
        ensures
            label@ == (match self {
                BleTargetResolutionClass::FirstRnode => "first_rnode"@,
                BleTargetResolutionClass::PrimaryId => "primary_id"@,
                BleTargetResolutionClass::PrimaryName => "primary_name"@,
                BleTargetResolutionClass::GenerationStableName => "generation_stable_name"@,
            }),
    {
        match self {
            BleTargetResolutionClass::FirstRnode => "first_rnode",
            BleTargetResolutionClass::PrimaryId => "primary_id",
            BleTargetResolutionClass::PrimaryName => "primary_name",
            BleTargetResolutionClass::GenerationStableName => "generation_stable_name",
        }
    }
}

/// How an advertised name satisfies a target: as the configured name itself, or
/// as the name that an earlier generation verified.
pub open spec fn name_class(
    primary_target: Seq<char>,
    stable_name: Option<Seq<char>>,
    advertised_name: Seq<char>,
) -> Option<BleTargetResolutionClass> {
    if advertised_name == primary_target {
        Some(BleTargetResolutionClass::PrimaryName)
    } else if stable_name == Some(advertised_name) {
        Some(BleTargetResolutionClass::GenerationStableName)
    } else {
        None
    }
}

/// The characters behind an optional text.
pub open spec fn optional_text(text: Option<&str>) -> Option<Seq<char>> {
    match text {
        Some(text) => Some(text@),
        None => None,
    }
}

/// The characters behind an optional owned text.
pub open spec fn owned_text(text: Option<String>) -> Option<Seq<char>> {
    match text {
        Some(text) => Some(text@),
        None => None,
    }
}

/// Tells how an advertised name satisfies a target, if it does.
pub fn ble_name_resolution_class(
    primary_target: &str,
    generation_stable_name: Option<&str>,
    advertised_name: &str,
) -> (class: Option<BleTargetResolutionClass>)
    ensures
        class == name_class(
            primary_target@,
            optional_text(generation_stable_name),
            advertised_name@,
        ),
{
    if same_text(advertised_name, primary_target) {
        return Some(BleTargetResolutionClass::PrimaryName);
    }
    match generation_stable_name {
        Some(stable) => if same_text(stable, advertised_name) {
            Some(BleTargetResolutionClass::GenerationStableName)
        } else {
            None
        },
        None => None,
    }
}

/// What a `ble://` address names; an address without the scheme names itself.
pub open spec fn uri_target(uri: Seq<char>) -> Seq<char> {
    if has_prefix(uri, "ble://"@) {
        without_first(uri, "ble://"@.len())
    } else {
        uri
    }
}

/// What a `ble://` address names.
pub fn target_of_uri(uri: &str) -> (target: &str)
    ensures
        target@ == uri_target(uri@),
{
    match strip_prefix(uri, "ble://") {
        Some(target) => target,
        None => uri,
    }
}

/// The advertisement serves an address that names no device: it advertises the
/// Nordic UART Service, or no service at all under an RNode's name.
pub open spec fn is_any_rnode(advertisement: BleAdvertisement) -> bool {
    match advertisement.properties {
        Some(properties) => {
            ||| properties.services@.contains(NUS_SERVICE_UUID)
            ||| {
                &&& properties.services@.len() == 0
                &&& properties.local_name is Some
                &&& has_prefix(properties.local_name->0@, "RNode "@)
            }
        },
        None => false,
    }
}

/// The peripheral has the configured platform identifier.
pub open spec fn has_id(advertisement: BleAdvertisement, target: Seq<char>) -> bool {
    same_ignoring_ascii_case(advertisement.id@, target)
}

/// How the advertised name satisfies a target.
pub open spec fn advertised_class(
    advertisement: BleAdvertisement,
    target: Seq<char>,
    stable_name: Option<Seq<char>>,
) -> Option<BleTargetResolutionClass> {
    if advertisement.properties is Some && advertisement.properties->0.local_name is Some {
        name_class(target, stable_name, advertisement.properties->0.local_name->0@)
    } else {
        None
    }
}

/// `index` is the first position at which `wanted` holds.
pub open spec fn first_at(
    advertisements: Seq<BleAdvertisement>,
    index: int,
    wanted: spec_fn(BleAdvertisement) -> bool,
) -> bool {
    &&& 0 <= index < advertisements.len()
    &&& wanted(advertisements[index])
    &&& forall|i: int| 0 <= i < index ==> !wanted(#[trigger] advertisements[i])
}

/// `wanted` holds nowhere.
pub open spec fn nowhere(
    advertisements: Seq<BleAdvertisement>,
    wanted: spec_fn(BleAdvertisement) -> bool,
) -> bool {
    forall|i: int| 0 <= i < advertisements.len() ==> !wanted(#[trigger] advertisements[i])
}

fn first_rnode(advertisements: &Vec<BleAdvertisement>) -> (found: Option<usize>)
    ensures
        match found {
            Some(index) => first_at(
                advertisements@,
                index as int,
                |advertisement: BleAdvertisement| is_any_rnode(advertisement),
            ),
            None => nowhere(
                advertisements@,
                |advertisement: BleAdvertisement| is_any_rnode(advertisement),
            ),
        },
{
    let mut index: usize = 0;
    while index < advertisements.len()
        invariant
            index <= advertisements@.len(),
            forall|i: int| 0 <= i < index ==> !is_any_rnode(#[trigger] advertisements@[i]),
        decreases advertisements@.len() - index,
    {
        match &advertisements[index].properties {
            Some(properties) => {
                if lists_service(&properties.services, NUS_SERVICE_UUID) {
                    return Some(index);
                }
                if properties.services.len() == 0 {
                    match &properties.local_name {
                        Some(name) => {
                            if starts_with(name.as_str(), "RNode ") {
                                return Some(index);
                            }
                        },
                        None => {},
                    }
                }
            },
            None => {},
        }
        index = index + 1;
    }
    None
}

fn first_with_id(advertisements: &Vec<BleAdvertisement>, target: &str) -> (found: Option<usize>)
    ensures
        match found {
            Some(index) => first_at(
                advertisements@,
                index as int,
                |advertisement: BleAdvertisement| has_id(advertisement, target@),
            ),
            None => nowhere(
                advertisements@,
                |advertisement: BleAdvertisement| has_id(advertisement, target@),
            ),
        },
{
    let mut index: usize = 0;
    while index < advertisements.len()
        invariant
            index <= advertisements@.len(),
            forall|i: int| 0 <= i < index ==> !has_id(#[trigger] advertisements@[i], target@),
        decreases advertisements@.len() - index,
    {
        if eq_ignore_ascii_case(advertisements[index].id.as_str(), target) {
            return Some(index);
        }
        index = index + 1;
    }
    None
}

fn first_with_name(
    advertisements: &Vec<BleAdvertisement>,
    target: &str,
    stable_name: Option<&str>,
) -> (found: Option<(usize, BleTargetResolutionClass)>)
    ensures
        match found {
            Some((index, class)) => {
                &&& first_at(
                    advertisements@,
                    index as int,
                    |advertisement: BleAdvertisement|
                        advertised_class(advertisement, target@, optional_text(stable_name))
                            is Some,
                )
                &&& advertised_class(
                    advertisements@[index as int],
                    target@,
                    optional_text(stable_name),
                ) == Some(class)
            },
            None => nowhere(
                advertisements@,
                |advertisement: BleAdvertisement|
                    advertised_class(advertisement, target@, optional_text(stable_name)) is Some,
            ),
        },
{
    let mut index: usize = 0;
    while index < advertisements.len()
        invariant
            index <= advertisements@.len(),
            forall|i: int|
                0 <= i < index ==> advertised_class(
                    #[trigger] advertisements@[i],
                    target@,
                    optional_text(stable_name),
                ) is None,
        decreases advertisements@.len() - index,
    {
        match &advertisements[index].properties {
            Some(properties) => match &properties.local_name {
                Some(name) => {
                    match ble_name_resolution_class(target, stable_name, name.as_str()) {
                        Some(class) => {
                            return Some((index, class));
                        },
                        None => {},
                    }
                },
                None => {},
            },
            None => {},
        }
        index = index + 1;
    }
    None
}

/// A `ble://` address comes to `outcome` among the peripherals: to the position of one and
/// how it was recognised, or to the words that say why there is none.
pub open spec fn resolves_to(
    ble_uri: Seq<char>,
    stable: Option<Seq<char>>,
    peripherals: Seq<BleAdvertisement>,
    outcome: Result<(int, BleTargetResolutionClass), Seq<char>>,
) -> bool {
    let target = uri_target(ble_uri);
    let any = |advertisement: BleAdvertisement| is_any_rnode(advertisement);
    let by_id = |advertisement: BleAdvertisement| has_id(advertisement, target);
    let by_name = |advertisement: BleAdvertisement|
        advertised_class(advertisement, target, stable) is Some;
    match outcome {
        Ok((index, class)) => {
            ||| {
                &&& target.len() == 0
                &&& class is FirstRnode
                &&& first_at(peripherals, index, any)
            }
            ||| {
                &&& target.len() > 0
                &&& class is PrimaryId
                &&& first_at(peripherals, index, by_id)
            }
            ||| {
                &&& target.len() > 0
                &&& nowhere(peripherals, by_id)
                &&& first_at(peripherals, index, by_name)
                &&& advertised_class(peripherals[index], target, stable) == Some(class)
            }
        },
        Err(words) => {
            ||| {
                &&& target.len() == 0
                &&& nowhere(peripherals, any)
                &&& words == "No RNode BLE device found"@
            }
            ||| {
                &&& target.len() > 0
                &&& nowhere(peripherals, by_id)
                &&& nowhere(peripherals, by_name)
                &&& words == "BLE device not found: "@ + target
                    + ". Ensure it is powered on and paired."@
            }
        },
    }
}

/// What an executable resolution says.
pub open spec fn target_outcome(
    resolved: Result<(usize, BleTargetResolutionClass), InterfaceError>,
) -> Result<(int, BleTargetResolutionClass), Seq<char>> {
    match resolved {
        Ok((index, class)) => Ok((index as int, class)),
        Err(error) => Err(error.detail()),
    }
}

/// Picks the peripheral that a `ble://` address means. An address that names no
/// device means the first RNode. Otherwise a platform identifier is preferred to
/// a name, whatever their order among the peripherals.
pub fn resolve_ble_target(
    ble_uri: &str,
    generation_stable_name: Option<&str>,
    peripherals: &Vec<BleAdvertisement>,
) -> (resolved: Result<(usize, BleTargetResolutionClass), InterfaceError>)
    ensures
        resolves_to(
            ble_uri@,
            optional_text(generation_stable_name),
            peripherals@,
            target_outcome(resolved),
        ),
{
    let target = target_of_uri(ble_uri);
    if target.is_empty() {
        return match first_rnode(peripherals) {
            Some(index) => Ok((index, BleTargetResolutionClass::FirstRnode)),
            None => Err(InterfaceError::SendFailed("No RNode BLE device found".to_owned())),
        };
    }
    match first_with_id(peripherals, target) {
        Some(index) => {
            return Ok((index, BleTargetResolutionClass::PrimaryId));
        },
        None => {},
    }
    match first_with_name(peripherals, target, generation_stable_name) {
        Some((index, class)) => Ok((index, class)),
        None => Err(
            InterfaceError::SendFailed(
                join3("BLE device not found: ", target, ". Ensure it is powered on and paired."),
            ),
        ),
    }
}

/// The name by which later generations recognise the device.
pub open spec fn stable_name_after(
    known: Option<Seq<char>>,
    advertised: Option<Seq<char>>,
) -> Option<Seq<char>> {
    if known is None && advertised is Some && has_prefix(advertised->0, "RNode "@) {
        advertised
    } else {
        known
    }
}

/// The name by which later generations may recognise the device: the one already
/// known, or else a verified RNode's advertised name.
pub fn learn_stable_name(known: Option<String>, advertised: Option<String>) -> (stable: Option<
    String,
>)
    ensures
        known is Some ==> stable == known,
        known is None && advertised is Some && has_prefix(advertised->0@, "RNode "@) ==> stable
            == advertised,
        known is None && !(advertised is Some && has_prefix(advertised->0@, "RNode "@)) ==> stable
            is None,
        owned_text(stable) == stable_name_after(owned_text(known), owned_text(advertised)),
{
    match known {
        Some(known) => Some(known),
        None => match advertised {
            Some(name) => if starts_with(name.as_str(), "RNode ") {
                Some(name)
            } else {
                None
            },
            None => None,
        },
    }
}

/// What `bluer::Address` reads out of a text: six octets, or the words of its error.
pub uninterp spec fn bluer_address(text: Seq<char>) -> Result<Seq<u8>, Seq<char>>;

/// The value of a hexadecimal digit.
pub open spec fn hex_value(digit: char) -> Option<int> {
    if '0' <= digit <= '9' {
        Some(digit as int - '0' as int)
    } else if 'a' <= digit <= 'f' {
        Some(digit as int - 'a' as int + 10)
    } else if 'A' <= digit <= 'F' {
        Some(digit as int - 'A' as int + 10)
    } else {
        None
    }
}

/// `text` writes the six octets with two hexadecimal digits each, colons between.
pub open spec fn is_colon_notation(text: Seq<char>, octets: Seq<u8>) -> bool {
    &&& text.len() == 17
    &&& octets.len() == 6
    &&& forall|i: int|
        0 <= i < 6 ==> {
            &&& hex_value(text[3 * i]) is Some
            &&& hex_value(text[3 * i + 1]) is Some
            &&& #[trigger] octets[i] == hex_value(text[3 * i])->0 * 16 + hex_value(
                text[3 * i + 1],
            )->0
            &&& i < 5 ==> text[3 * i + 2] == ':'
        }
}

/// `<bluer::Address as FromStr>::from_str`: the octets of a Bluetooth address, or the
/// error in the words of its `Display`. The usual colon notation gives its octets, and
/// a text with a letter that is neither a hexadecimal digit nor a colon nor a plus sign
/// is no address. Shorter and longer ways to write an octet are left to that crate.
#[verifier::external_body]
fn parse_bluer_address(text: &str) -> (parsed: Result<[u8; 6], String>)
    ensures
        match parsed {
            Ok(octets) => bluer_address(text@) == Ok::<Seq<u8>, Seq<char>>(octets@),
            Err(message) => bluer_address(text@) == Err::<Seq<u8>, Seq<char>>(message@),
        },
        forall|octets: Seq<u8>| #[trigger]
            is_colon_notation(text@, octets) ==> parsed is Ok && parsed->Ok_0@ == octets,
        forall|letter: char| #[trigger]
            text@.contains(letter) && hex_value(letter) is None && letter != ':' && letter != '+'
                ==> parsed is Err,
{
    match text.parse::<bluer::Address>() {
        Ok(address) => Ok(address.0),
        Err(error) => Err(error.to_string()),
    }
}

/// The colon notation of the address inside a BlueZ object path such as
/// `hci0/dev_AA_BB_CC_DD_EE_FF`.
pub open spec fn path_mac(address: Seq<char>) -> Option<Seq<char>> {
    let tail = after_last(address, '/');
    if has_prefix(tail, "dev_"@) {
        Some(replaced(without_first(tail, "dev_"@.len()), '_', ':'))
    } else {
        None
    }
}

/// The colon notation of the address inside a BlueZ object path.
pub fn bluez_path_mac(address: &str) -> (mac: Option<String>)
    ensures
        match mac {
            Some(mac) => path_mac(address@) == Some(mac@),
            None => path_mac(address@) is None,
        },
{
    match strip_prefix(tail_after(address, '/'), "dev_") {
        Some(mac_part) => Some(underscores_to_colons(mac_part)),
        None => None,
    }
}

/// The address that a text stands for, given what it reads as directly and what
/// the path inside it reads as.
pub open spec fn linux_address(
    address: Seq<char>,
    direct: Result<Seq<u8>, Seq<char>>,
    inside_path: Result<Seq<u8>, Seq<char>>,
) -> Result<Seq<u8>, Seq<char>> {
    match direct {
        Ok(octets) => Ok(octets),
        Err(_) => match path_mac(address) {
            Some(mac) => match inside_path {
                Ok(octets) => Ok(octets),
                Err(words) => Err(
                    "invalid BLE address (BlueZ path '"@ + address + "' → '"@ + mac + "'): "@
                        + words,
                ),
            },
            None => Err(
                "invalid BLE address "@ + address + ": not a MAC nor a BlueZ D-Bus path"@,
            ),
        },
    }
}

/// What an executable outcome says.
pub open spec fn address_outcome(outcome: Result<[u8; 6], InterfaceError>) -> Result<
    Seq<u8>,
    Seq<char>,
> {
    match outcome {
        Ok(octets) => Ok(octets@),
        Err(error) => Err(error.detail()),
    }
}

/// What a parse of plain text says.
pub open spec fn parse_outcome(outcome: Result<[u8; 6], String>) -> Result<Seq<u8>, Seq<char>> {
    match outcome {
        Ok(octets) => Ok(octets@),
        Err(words) => Err(words@),
    }
}

/// Decides the address from what the text and the path inside it read as. Where
/// the text holds no path, `inside_path` is not looked at.
pub fn linux_address_from(
    address: &str,
    direct: Result<[u8; 6], String>,
    inside_path: Result<[u8; 6], String>,
) -> (outcome: Result<[u8; 6], InterfaceError>)
    ensures
        address_outcome(outcome) == linux_address(
            address@,
            parse_outcome(direct),
            parse_outcome(inside_path),
        ),
{
    match direct {
        Ok(octets) => Ok(octets),
        Err(_) => match bluez_path_mac(address) {
            Some(mac) => match inside_path {
                Ok(octets) => Ok(octets),
                Err(words) => {
                    let path = join3("invalid BLE address (BlueZ path '", address, "' → '");
                    let text = join3(path.as_str(), mac.as_str(), "'): ");
                    Err(InterfaceError::SendFailed(join2(text.as_str(), words.as_str())))
                },
            },
            None => Err(
                InterfaceError::SendFailed(
                    join3(
                        "invalid BLE address ",
                        address,
                        ": not a MAC nor a BlueZ D-Bus path",
                    ),
                ),
            ),
        },
    }
}

/// Reads a Bluetooth address, given either in colon notation or as a BlueZ object
/// path. The usual notation is read in both.
pub fn parse_linux_ble_address(address: &str) -> (outcome: Result<[u8; 6], InterfaceError>)
    ensures
        address_outcome(outcome) == linux_address(
            address@,
            bluer_address(address@),
            match path_mac(address@) {
                Some(mac) => bluer_address(mac),
                None => bluer_address(address@),
            },
        ),
        forall|octets: Seq<u8>| #[trigger]
            is_colon_notation(address@, octets) ==> outcome is Ok && outcome->Ok_0@ == octets,
        forall|mac: Seq<char>, octets: Seq<u8>|
            path_mac(address@) == Some(mac) && #[trigger] is_colon_notation(mac, octets)
                ==> outcome is Ok && outcome->Ok_0@ == octets,
{
    let direct = parse_bluer_address(address);
    proof {
        if path_mac(address@) is Some {
            reveal_strlit("dev_");
            let tail = after_last(address@, '/');
            assert(tail[2] == tail.subrange(0, 4)[2]);
            assert(tail[2] == 'v');
            lemma_after_last_within(address@, '/', 'v');
            assert(direct is Err);
        }
    }
    let inside_path = match bluez_path_mac(address) {
        Some(mac) => parse_bluer_address(mac.as_str()),
        None => parse_bluer_address(address),
    };
    linux_address_from(address, direct, inside_path)
}

/// What `RNode` with a space behind it is, character by character.
proof fn lemma_rnode_prefixes(text: Seq<char>)
    ensures
        has_prefix(text, "RNode"@) <==> text.len() >= 5 && text[0] == 'R' && text[1] == 'N'
            && text[2] == 'o' && text[3] == 'd' && text[4] == 'e',
        has_prefix(text, "RNode "@) <==> text.len() >= 6 && text[0] == 'R' && text[1] == 'N'
            && text[2] == 'o' && text[3] == 'd' && text[4] == 'e' && text[5] == ' ',
{
    reveal_strlit("RNode");
    reveal_strlit("RNode ");
    prefix_and_rest_make_the_text(text, "RNode"@, Seq::empty());
    prefix_and_rest_make_the_text(text, "RNode "@, Seq::empty());
}

proof fn lemma_scheme(uri: Seq<char>)
    ensures
        "ble://"@.len() == 6,
        has_prefix(uri, "ble://"@) <==> uri.len() >= 6 && uri[0] == 'b' && uri[1] == 'l' && uri[2]
            == 'e' && uri[3] == ':' && uri[4] == '/' && uri[5] == '/',
{
    reveal_strlit("ble://");
    prefix_and_rest_make_the_text(uri, "ble://"@, Seq::empty());
}

/// Behind the scheme `ble://` stands the whole target; an address without the scheme is its
/// own target.
pub proof fn target_stands_behind_the_scheme(target: Seq<char>, uri: Seq<char>)
    ensures
        uri_target("ble://"@ + target) == target,
        uri.len() < 6 || uri[0] != 'b' || uri[1] != 'l' || uri[2] != 'e' || uri[3] != ':' || uri[4]
            != '/' || uri[5] != '/' ==> uri_target(uri) == uri,
        uri.len() >= 6 && uri_target(uri) == uri ==> uri[0] != 'b' || uri[1] != 'l' || uri[2] != 'e'
            || uri[3] != ':' || uri[4] != '/' || uri[5] != '/',
{
    prefix_and_rest_make_the_text(uri, "ble://"@, target);
    lemma_scheme(uri);
}

/// For an address that names no device an advertisement serves if it lists the Nordic UART
/// Service. One that lists other services does not, and one that lists none does exactly if
/// its name begins with `RNode` and a space.
pub proof fn any_rnode_shows_its_service_or_its_name(
    advertisement: BleAdvertisement,
    services: Seq<u128>,
    name: Option<Seq<char>>,
)
    requires
        advertisement.properties is Some,
        advertisement.properties->0.services@ == services,
        owned_text(advertisement.properties->0.local_name) == name,
    ensures
        services.contains(0x6E400001_B5A3_F393_E0A9_E50E24DCCA9E) ==> is_any_rnode(advertisement),
        services.len() > 0 && !services.contains(0x6E400001_B5A3_F393_E0A9_E50E24DCCA9E)
            ==> !is_any_rnode(advertisement),
        services.len() == 0 ==> (is_any_rnode(advertisement) <==> name is Some && name->0.len() >= 6
            && name->0[0] == 'R' && name->0[1] == 'N' && name->0[2] == 'o' && name->0[3] == 'd'
            && name->0[4] == 'e' && name->0[5] == ' '),
{
    if name is Some {
        lemma_rnode_prefixes(name->0);
    }
}

/// A device whose advertisement could not be read is neither an RNode nor listed.
pub proof fn unread_advertisement_is_nothing(advertisement: BleAdvertisement)
    requires
        advertisement.properties is None,
    ensures
        !is_any_rnode(advertisement),
        !is_rnode_candidate(advertisement),
        !is_listed(advertisement),
{
}

/// An address that names no device never resolves to one that is not an RNode: what it
/// resolves to advertises the Nordic UART Service, or has no service and a name that begins
/// with `RNode` and a space. No RNode stands before it, and as long as there is one the
/// address does not fail.
pub proof fn unnamed_address_means_the_first_rnode(
    ble_uri: Seq<char>,
    stable: Option<Seq<char>>,
    peripherals: Seq<BleAdvertisement>,
    outcome: Result<(int, BleTargetResolutionClass), Seq<char>>,
    other: int,
)
    requires
        resolves_to(ble_uri, stable, peripherals, outcome),
        ble_uri.len() == 0 || ble_uri == seq!['b', 'l', 'e', ':', '/', '/'],
        0 <= other < peripherals.len(),
    ensures
        outcome is Ok ==> {
            let found = peripherals[outcome->Ok_0.0].properties;
            let name = found->0.local_name;
            &&& outcome->Ok_0.1 is FirstRnode
            &&& 0 <= outcome->Ok_0.0 < peripherals.len()
            &&& found is Some
            &&& found->0.services@.contains(0x6E400001_B5A3_F393_E0A9_E50E24DCCA9E) || (
            found->0.services@.len() == 0 && name is Some && name->0@.len() >= 6 && name->0@[0]
                == 'R' && name->0@[1] == 'N' && name->0@[2] == 'o' && name->0@[3] == 'd'
                && name->0@[4] == 'e' && name->0@[5] == ' ')
        },
        ({
            let seen = peripherals[other].properties;
            let name = seen->0.local_name;
            seen is Some && (seen->0.services@.contains(0x6E400001_B5A3_F393_E0A9_E50E24DCCA9E) || (
            seen->0.services@.len() == 0 && name is Some && name->0@.len() >= 6 && name->0@[0]
                == 'R' && name->0@[1] == 'N' && name->0@[2] == 'o' && name->0@[3] == 'd'
                && name->0@[4] == 'e' && name->0@[5] == ' '))
        }) ==> outcome is Ok && outcome->Ok_0.0 <= other,
{
    lemma_scheme(ble_uri);
    assert(uri_target(ble_uri).len() == 0);
    let seen = peripherals[other];
    if seen.properties is Some && seen.properties->0.local_name is Some {
        lemma_rnode_prefixes(seen.properties->0.local_name->0@);
    }
    if outcome is Ok {
        let found = peripherals[outcome->Ok_0.0];
        assert(is_any_rnode(found));
        if found.properties is Some && found.properties->0.local_name is Some {
            lemma_rnode_prefixes(found.properties->0.local_name->0@);
        }
    }
}

/// A device is recognised by what its class says: by its identifier up to case, by the
/// configured name, or by the name that was verified before.
pub proof fn class_says_how_a_device_was_recognised(
    target: Seq<char>,
    stable: Option<Seq<char>>,
    peripherals: Seq<BleAdvertisement>,
    outcome: Result<(int, BleTargetResolutionClass), Seq<char>>,
)
    requires
        target.len() > 0,
        resolves_to("ble://"@ + target, stable, peripherals, outcome),
        outcome is Ok,
    ensures
        ({
            let found = peripherals[outcome->Ok_0.0];
            let name = found.properties->0.local_name;
            &&& 0 <= outcome->Ok_0.0 < peripherals.len()
            &&& match outcome->Ok_0.1 {
                BleTargetResolutionClass::FirstRnode => false,
                BleTargetResolutionClass::PrimaryId => same_ignoring_ascii_case(found.id@, target),
                BleTargetResolutionClass::PrimaryName => found.properties is Some && name is Some
                    && name->0@ == target,
                BleTargetResolutionClass::GenerationStableName => found.properties is Some && name
                    is Some && name->0@ != target && Some(name->0@) == stable,
            }
        }),
{
    target_stands_behind_the_scheme(target, target);
}

/// A device that has the configured identifier is preferred to every name. Without one, a
/// device that has the configured or the verified name is found, and the first of them. No
/// device that could be meant is passed over.
pub proof fn identifier_comes_before_name(
    target: Seq<char>,
    stable: Option<Seq<char>>,
    peripherals: Seq<BleAdvertisement>,
    outcome: Result<(int, BleTargetResolutionClass), Seq<char>>,
    other: int,
)
    requires
        target.len() > 0,
        resolves_to("ble://"@ + target, stable, peripherals, outcome),
        0 <= other < peripherals.len(),
    ensures
        same_ignoring_ascii_case(peripherals[other].id@, target) ==> outcome is Ok && (
        outcome->Ok_0.1 is PrimaryId) && outcome->Ok_0.0 <= other,
        ({
            let properties = peripherals[other].properties;
            let name = properties->0.local_name;
            properties is Some && name is Some && (name->0@ == target || stable == Some(name->0@))
        }) ==> outcome is Ok && (outcome->Ok_0.1 is PrimaryId || outcome->Ok_0.0 <= other),
        outcome is Err ==> outcome->Err_0 == "BLE device not found: "@ + target
            + ". Ensure it is powered on and paired."@,
{
    target_stands_behind_the_scheme(target, target);
    let seen = peripherals[other];
    if same_ignoring_ascii_case(seen.id@, target) {
        assert(has_id(seen, target));
    }
    assert(seen.properties is Some && seen.properties->0.local_name is Some && (
    seen.properties->0.local_name->0@ == target || stable == Some(
        seen.properties->0.local_name->0@,
    )) ==> advertised_class(seen, target, stable) is Some);
}

/// The same address among the same peripherals always comes to the same.
pub proof fn resolution_is_determined(
    ble_uri: Seq<char>,
    stable: Option<Seq<char>>,
    peripherals: Seq<BleAdvertisement>,
    one: Result<(int, BleTargetResolutionClass), Seq<char>>,
    other: Result<(int, BleTargetResolutionClass), Seq<char>>,
)
    requires
        resolves_to(ble_uri, stable, peripherals, one),
        resolves_to(ble_uri, stable, peripherals, other),
    ensures
        one == other,
{
    if one is Ok && other is Ok {
        let i = one->Ok_0.0;
        let j = other->Ok_0.0;
        if i < j {
            assert(peripherals[i] == peripherals[i]);
        } else if j < i {
            assert(peripherals[j] == peripherals[j]);
        }
    }
}

/// A verified name is kept for good. Where none is known, a name that begins with `RNode` and
/// a space becomes the verified one, and no other name does.
pub proof fn stable_name_is_learned_once(known: Option<Seq<char>>, advertised: Option<Seq<char>>)
    ensures
        known is Some ==> stable_name_after(known, advertised) == known,
        known is None ==> (stable_name_after(known, advertised) is Some <==> advertised is Some
            && advertised->0.len() >= 6 && advertised->0[0] == 'R' && advertised->0[1] == 'N'
            && advertised->0[2] == 'o' && advertised->0[3] == 'd' && advertised->0[4] == 'e'
            && advertised->0[5] == ' '),
        known is None && stable_name_after(known, advertised) is Some ==> stable_name_after(
            known,
            advertised,
        ) == advertised,
{
    if advertised is Some {
        lemma_rnode_prefixes(advertised->0);
    }
}

/// A named device is listed, whatever it is; for the choice of an RNode it has to be named
/// `RNode` at the start, and to list the Nordic UART Service or no service at all.
pub proof fn list_holds_named_devices(advertisement: BleAdvertisement, name: Seq<char>)
    requires
        advertisement.properties is Some,
        owned_text(advertisement.properties->0.local_name) == Some(name),
    ensures
        is_listed(advertisement) <==> name.len() > 0,
        is_rnode_candidate(advertisement) <==> name.len() >= 5 && name[0] == 'R' && name[1] == 'N'
            && name[2] == 'o' && name[3] == 'd' && name[4] == 'e' && (
        advertisement.properties->0.services@.len() == 0
            || advertisement.properties->0.services@.contains(
            0x6E400001_B5A3_F393_E0A9_E50E24DCCA9E,
        )),
{
    lemma_rnode_prefixes(name);
}

/// A device without a name is in no list.
pub proof fn nameless_device_is_not_listed(advertisement: BleAdvertisement)
    requires
        advertisement.properties is Some,
        advertisement.properties->0.local_name is None,
    ensures
        !is_listed(advertisement),
        !is_rnode_candidate(advertisement),
{
}

/// The list says of a device what it advertised, and calls it an RNode exactly if it lists
/// the Nordic UART Service.
pub proof fn listed_device_is_as_advertised(device: BleDevice, advertisement: BleAdvertisement)
    requires
        describes(device, advertisement),
    ensures
        owned_text(advertisement.properties->0.local_name) == Some(device.name@),
        device.address@ == advertisement.id@,
        device.rssi == advertisement.properties->0.rssi,
        device.bonded == advertisement.bonded,
        device.device_type == (if advertisement.properties->0.services@.contains(
            0x6E400001_B5A3_F393_E0A9_E50E24DCCA9E,
        ) {
            BleDeviceType::RNode
        } else {
            BleDeviceType::Unknown
        }),
{
}

/// The last part of a BlueZ object path, behind `dev_`, is an address with underscores in
/// place of its colons.
pub proof fn bluez_path_holds_its_address(front: Seq<char>, address: Seq<char>)
    requires
        !address.contains('/'),
    ensures
        ({
            let mac = path_mac(front + seq!['/', 'd', 'e', 'v', '_'] + address);
            &&& mac is Some
            &&& mac->0.len() == address.len()
            &&& forall|i: int|
                0 <= i < address.len() ==> #[trigger] mac->0[i] == (if address[i] == '_' {
                    ':'
                } else {
                    address[i]
                })
        }),
{
    let text = front + seq!['/', 'd', 'e', 'v', '_'] + address;
    let tail = seq!['d', 'e', 'v', '_'] + address;
    let found = after_last(text, '/');
    tail_follows_the_last_mark(text, '/');
    let cut = text.len() - found.len();
    let slash = front.len() as int;
    assert(text[slash] == '/');
    if cut <= slash {
        assert(found[slash - cut] == '/');
        assert(found.contains('/'));
    } else if cut > slash + 1 {
        assert(text[cut - 1] == '/');
        if cut - 1 < slash + 5 {
            assert(text[slash + 1] == 'd' && text[slash + 2] == 'e' && text[slash + 3] == 'v'
                && text[slash + 4] == '_');
        } else {
            assert(address[cut - 1 - slash - 5] == '/');
        }
    }
    assert(found =~= tail);
    reveal_strlit("dev_");
    prefix_and_rest_make_the_text(tail, "dev_"@, address);
    assert("dev_"@ =~= seq!['d', 'e', 'v', '_']);
    replacement_is_exact(address, '_', ':');
}

/// What a text reads as directly counts first; only where that fails does the path inside it
/// count, and a text that is neither is refused.
pub proof fn direct_reading_comes_first(
    address: Seq<char>,
    direct: Result<Seq<u8>, Seq<char>>,
    inside_path: Result<Seq<u8>, Seq<char>>,
)
    ensures
        direct is Ok ==> linux_address(address, direct, inside_path) == direct,
        direct is Err && path_mac(address) is Some && inside_path is Ok ==> linux_address(
            address,
            direct,
            inside_path,
        ) == inside_path,
        direct is Err && (path_mac(address) is None || inside_path is Err) ==> linux_address(
            address,
            direct,
            inside_path,
        ) is Err,
{
}

/// A list describes its devices one by one, in the order of their positions.
pub proof fn list_describes_each_position(
    devices: Seq<BleDevice>,
    advertisements: Seq<BleAdvertisement>,
    positions: Seq<int>,
    index: int,
)
    requires
        describe_all(devices, advertisements, positions),
        0 <= index < positions.len(),
    ensures
        devices.len() == positions.len(),
        devices[index].address@ == advertisements[positions[index]].id@,
        owned_text(advertisements[positions[index]].properties->0.local_name) == Some(
            devices[index].name@,
        ),
{
    assert(describes(devices[index], advertisements[positions[index]]));
}

/// A device that a scan found is in the list at its place among the listed ones, and the list
/// holds no device that it did not find.
pub proof fn found_devices_are_listed(
    devices: Seq<BleDevice>,
    advertisements: Seq<BleAdvertisement>,
    position: int,
    name: Seq<char>,
)
    requires
        describe_all(devices, advertisements, listed_positions(advertisements, false)),
        0 <= position < advertisements.len(),
        advertisements[position].properties is Some,
        owned_text(advertisements[position].properties->0.local_name) == Some(name),
        name.len() > 0,
    ensures
        exists|i: int|
            0 <= i < devices.len() && (#[trigger] devices[i]).address@
                == advertisements[position].id@ && devices[i].name@ == name,
        devices.len() <= advertisements.len(),
{
    let positions = listed_positions(advertisements, false);
    list_is_complete(advertisements, false, position);
    let i = choose|i: int| 0 <= i < positions.len() && positions[i] == position;
    list_describes_each_position(devices, advertisements, positions, i);
    assert(devices[i].address@ == advertisements[position].id@);
    lemma_listed_at_most(advertisements, false);
}

proof fn lemma_listed_at_most(advertisements: Seq<BleAdvertisement>, narrow: bool)
    ensures
        listed_positions(advertisements, narrow).len() <= advertisements.len(),
    decreases advertisements.len(),
{
    if advertisements.len() > 0 {
        lemma_listed_at_most(advertisements.drop_last(), narrow);
    }
}

/// A hexadecimal digit counts from zero to fifteen, in either case of its letters; no other
/// character is one.
pub proof fn hexadecimal_digits_count_to_fifteen(digit: char)
    ensures
        hex_value(digit) is Some <==> '0' <= digit <= '9' || 'a' <= digit <= 'f' || 'A' <= digit
            <= 'F',
        '0' <= digit <= '9' ==> hex_value(digit)->0 == digit as int - 48,
        'a' <= digit <= 'f' ==> hex_value(digit)->0 == digit as int - 87,
        'A' <= digit <= 'F' ==> hex_value(digit)->0 == digit as int - 55,
{
}

/// An address in colon notation has seventeen characters: six octets of two digits, the higher
/// first, with a colon behind each but the last. It writes one address only.
pub proof fn colon_notation_writes_six_octets(
    text: Seq<char>,
    octets: Seq<u8>,
    others: Seq<u8>,
    index: int,
)
    requires
        is_colon_notation(text, octets),
        0 <= index < 6,
    ensures
        text.len() == 17 && octets.len() == 6,
        octets[index] == hex_value(text[3 * index])->0 * 16 + hex_value(text[3 * index + 1])->0,
        index < 5 ==> text[3 * index + 2] == ':',
        is_colon_notation(text, others) ==> others == octets,
{
    assert(octets[index] == octets[index]);
    if is_colon_notation(text, others) {
        assert forall|i: int| 0 <= i < 6 implies others[i] == octets[i] by {
            assert(octets[i] == octets[i]);
            assert(others[i] == others[i]);
        }
        assert(others =~= octets);
    }
}

} // verus!
