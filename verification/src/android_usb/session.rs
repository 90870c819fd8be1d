//! The decisions between the platform's USB calls: which endpoints serve the serial
//! line, what a transfer may ask for and what its count means, and what is left of a
//! device after opening or closing it failed.
use vstd::prelude::*;
use vstd::string::*;
use crate::android_usb_lifecycle::lease::{
    lease_after, lease_granted, lease_refusal, LeaseRequest, UsbLeaseTable,
};
use crate::android_usb_lifecycle::shutdown::UsbConnectionCleanup;
use crate::android_usb_lifecycle::write::UsbTransferError;
use crate::text::{decimal, decimal_text, join2, join3, signed_decimal, signed_decimal_text};

verus! {

/// The class of a CDC data interface.
pub const USB_CLASS_CDC_DATA: i32 = 0x0A;

/// The class of a vendor-specific interface.
pub const USB_CLASS_VENDOR: i32 = 0xFF;

/// The direction of an endpoint from which the host reads.
pub const USB_DIRECTION_IN: i32 = 0x80;

/// How many bytes one bulk read asks for.
pub const USB_READ_SIZE: i32 = 1_024;

/// An interface of a USB device: its class, and the direction of each endpoint.
#[derive(Clone, Debug, PartialEq, Eq)]
pub struct UsbInterfaceShape {
    pub class: i32,
    pub directions: Vec<i32>,
}

/// Where the serial line is: an interface, and two of its endpoints.
#[derive(Clone, Copy, Debug, PartialEq, Eq, Structural)]
pub struct UsbSerialEndpoints {
    pub interface: usize,
    pub input: usize,
    pub output: usize,
}

/// The class may carry a serial line.
pub open spec fn serial_class(class: i32) -> bool {
    class == USB_CLASS_CDC_DATA || class == USB_CLASS_VENDOR
}

/// The class may carry a serial line.
pub fn is_serial_class(class: i32) -> (serial: bool)
    ensures
        serial == serial_class(class),
{
    class == USB_CLASS_CDC_DATA || class == USB_CLASS_VENDOR
}

/// The last endpoint of a direction, or of any other.
pub open spec fn last_endpoint(directions: Seq<i32>, inward: bool) -> Option<int>
    decreases directions.len(),
{
    if directions.len() == 0 {
        None
    } else if (directions.last() == USB_DIRECTION_IN) == inward {
        Some(directions.len() - 1)
    } else {
        last_endpoint(directions.drop_last(), inward)
    }
}

/// The interface serves a serial line.
pub open spec fn serves_serial(shape: UsbInterfaceShape) -> bool {
    serial_class(shape.class) && last_endpoint(shape.directions@, true) is Some && last_endpoint(
        shape.directions@,
        false,
    ) is Some
}

fn find_endpoint(directions: &Vec<i32>, inward: bool) -> (found: Option<usize>)
    ensures
        match last_endpoint(directions@, inward) {
            Some(index) => found is Some && found->0 == index,
            None => found is None,
        },
{
    let mut remaining: usize = directions.len();
    assert(directions@.subrange(0, remaining as int) =~= directions@);
    while remaining > 0
        invariant
            remaining <= directions@.len(),
            last_endpoint(directions@, inward) == last_endpoint(
                directions@.subrange(0, remaining as int),
                inward,
            ),
        decreases remaining,
    {
        let index: usize = remaining - 1;
        proof {
            let prefix = directions@.subrange(0, remaining as int);
            assert(prefix.drop_last() =~= directions@.subrange(0, index as int));
            assert(prefix.last() == directions@[index as int]);
        }
        if (directions[index] == USB_DIRECTION_IN) == inward {
            return Some(index);
        }
        remaining = index;
    }
    None
}

/// `chosen` is where the serial line is, if there is one.
pub open spec fn is_serial_line(
    shapes: Seq<UsbInterfaceShape>,
    chosen: Option<UsbSerialEndpoints>,
) -> bool {
    match chosen {
        Some(endpoints) => {
            &&& endpoints.interface < shapes.len()
            &&& serves_serial(shapes[endpoints.interface as int])
            &&& forall|i: int|
                0 <= i < endpoints.interface ==> !serves_serial(#[trigger] shapes[i])
            &&& last_endpoint(shapes[endpoints.interface as int].directions@, true) == Some(
                endpoints.input as int,
            )
            &&& last_endpoint(shapes[endpoints.interface as int].directions@, false) == Some(
                endpoints.output as int,
            )
        },
        None => forall|i: int| 0 <= i < shapes.len() ==> !serves_serial(#[trigger] shapes[i]),
    }
}

/// Chooses the first interface that serves a serial line, and its endpoints.
pub fn choose_endpoints(shapes: &Vec<UsbInterfaceShape>) -> (chosen: Option<UsbSerialEndpoints>)
    ensures
        is_serial_line(shapes@, chosen),
{
    let mut index: usize = 0;
    while index < shapes.len()
        invariant
            index <= shapes@.len(),
            forall|i: int| 0 <= i < index ==> !serves_serial(#[trigger] shapes@[i]),
        decreases shapes@.len() - index,
    {
        let shape = &shapes[index];
        if is_serial_class(shape.class) {
            let input = find_endpoint(&shape.directions, true);
            let output = find_endpoint(&shape.directions, false);
            match input {
                Some(input) => match output {
                    Some(output) => {
                        return Some(UsbSerialEndpoints { interface: index, input, output });
                    },
                    None => {},
                },
                None => {},
            }
        }
        index = index + 1;
    }
    None
}

/// A CDC line coding: the rate, one stop bit, no parity, eight data bits.
pub open spec fn line_coding_bytes(baud_rate: u32) -> Seq<u8> {
    seq![
        (baud_rate % 256) as u8,
        (baud_rate / 256 % 256) as u8,
        (baud_rate / 65_536 % 256) as u8,
        (baud_rate / 16_777_216) as u8,
        0u8,
        0u8,
        8u8,
    ]
}

/// Builds a CDC line coding.
pub fn line_coding(baud_rate: u32) -> (coding: Vec<u8>)
    ensures
        coding@ == line_coding_bytes(baud_rate),
{
    let mut coding: Vec<u8> = Vec::new();
    coding.push((baud_rate % 256) as u8);
    coding.push((baud_rate / 256 % 256) as u8);
    coding.push((baud_rate / 65_536 % 256) as u8);
    coding.push((baud_rate / 16_777_216) as u8);
    coding.push(0);
    coding.push(0);
    coding.push(8);
    assert(coding@ =~= line_coding_bytes(baud_rate));
    coding
}

/// `read` is what the count of a bulk read means.
pub open spec fn reads_as(count: i32, read: Result<Option<usize>, String>) -> bool {
    if count <= 0 {
        read == Ok::<Option<usize>, String>(None)
    } else if count <= USB_READ_SIZE {
        read == Ok::<Option<usize>, String>(Some(count as usize))
    } else {
        read is Err && read->Err_0@ == "USB bulk read returned invalid length "@
            + signed_decimal_text(count as int) + " (capacity "@ + signed_decimal_text(
            USB_READ_SIZE as int,
        ) + ")"@
    }
}

/// What the count of a bulk read means: nothing came, or so many bytes, or an error.
pub fn read_count(count: i32) -> (read: Result<Option<usize>, String>)
    ensures
        reads_as(count, read),
{
    if count <= 0 {
        return Ok(None);
    }
    if count > USB_READ_SIZE {
        let head = join3(
            "USB bulk read returned invalid length ",
            signed_decimal(count).as_str(),
            " (capacity ",
        );
        return Err(join3(head.as_str(), signed_decimal(USB_READ_SIZE).as_str(), ")"));
    }
    Ok(Some(count as usize))
}

/// What one bulk write asks for.
#[derive(Clone, Copy, Debug, PartialEq, Eq, Structural)]
pub struct UsbWriteArguments {
    pub length: i32,
    pub timeout_ms: i32,
}

/// `arguments` are those of a bulk write of `len` bytes within `timeout` nanoseconds.
pub open spec fn asks_for(
    len: usize,
    timeout: u128,
    arguments: Result<UsbWriteArguments, UsbTransferError>,
) -> bool {
    if len > i32::MAX {
        arguments matches Err(UsbTransferError::Backend(message)) && message@
            == "USB write length "@ + decimal_text(len as nat)
            + " exceeds Android's signed limit"@
    } else if timeout < 1_000_000 {
        arguments matches Err(UsbTransferError::Backend(message)) && message@
            == "USB write timeout budget is below one millisecond"@
    } else {
        arguments == Ok::<UsbWriteArguments, UsbTransferError>(
            UsbWriteArguments {
                length: len as i32,
                timeout_ms: if timeout / 1_000_000 > i32::MAX {
                    i32::MAX
                } else {
                    (timeout / 1_000_000) as i32
                },
            },
        )
    }
}

/// The arguments of a bulk write of `len` bytes within `timeout` nanoseconds. The
/// platform counts both in signed 32-bit numbers.
pub fn write_arguments(len: usize, timeout: u128) -> (arguments: Result<
    UsbWriteArguments,
    UsbTransferError,
>)
    ensures
        asks_for(len, timeout, arguments),
{
    if len > i32::MAX as usize {
        return Err(
            UsbTransferError::Backend(
                join3(
                    "USB write length ",
                    decimal(len as u64).as_str(),
                    " exceeds Android's signed limit",
                ),
            ),
        );
    }
    let millis: u128 = timeout / 1_000_000;
    let timeout_ms: i32 = if millis > i32::MAX as u128 {
        i32::MAX
    } else {
        millis as i32
    };
    if timeout_ms <= 0 {
        return Err(
            UsbTransferError::Backend(
                "USB write timeout budget is below one millisecond".to_owned(),
            ),
        );
    }
    Ok(UsbWriteArguments { length: len as i32, timeout_ms })
}

/// How far a device has been opened.
#[derive(Clone, Copy, Debug, PartialEq, Eq, Structural)]
pub enum UsbLeasePhase {
    Opening,
    Active,
}

/// The request that gives a device back.
pub open spec fn release_request<R>(phase: UsbLeasePhase) -> LeaseRequest<R> {
    match phase {
        UsbLeasePhase::Opening => LeaseRequest::<R>::ReleaseOpening,
        UsbLeasePhase::Active => LeaseRequest::<R>::ReleaseActive,
    }
}

/// Gives a device back from the phase it is in.
pub fn release_android_usb_lease<R>(
    leases: &mut UsbLeaseTable<R>,
    device_name: &str,
    phase: UsbLeasePhase,
) -> (released: Result<(), String>)
    requires
        old(leases).well_formed(),
    ensures
        final(leases).well_formed(),
        final(leases).others_unchanged(*old(leases), device_name@),
        ({
            let request = release_request::<R>(phase);
            &&& released is Ok <==> lease_granted(old(leases).lease(device_name@), request)
            &&& released is Err ==> *final(leases) == *old(leases) && released->Err_0@
                == lease_refusal(old(leases).lease(device_name@), request)
            &&& final(leases).lease(device_name@) == lease_after(
                old(leases).lease(device_name@),
                request,
            )
        }),
{
    match phase {
        UsbLeasePhase::Opening => leases.release_opening(device_name),
        UsbLeasePhase::Active => leases.release_active(device_name),
    }
}

/// What is left to do after a step that may leave a device in an unknown state.
#[derive(Debug)]
pub struct UsbAftermath {
    /// The error to report, where there is one.
    pub error: Option<String>,
    /// Why the device goes into quarantine, where it does.
    pub quarantine: Option<String>,
}

/// The words of an aftermath.
pub open spec fn aftermath_is(
    aftermath: UsbAftermath,
    error: Option<Seq<char>>,
    quarantine: Option<Seq<char>>,
) -> bool {
    &&& match error {
        Some(words) => aftermath.error is Some && aftermath.error->0@ == words,
        None => aftermath.error is None,
    }
    &&& match quarantine {
        Some(words) => aftermath.quarantine is Some && aftermath.quarantine->0@ == words,
        None => aftermath.quarantine is None,
    }
}

/// The words that a closed connection leaves behind, of its error and of its quarantine.
pub open spec fn left_by_close(release: Result<(), String>, lease: Result<(), String>) -> (
    Option<Seq<char>>,
    Option<Seq<char>>,
) {
    match (release, lease) {
        (Ok(_), Ok(_)) => (None, None),
        (Err(release), Ok(_)) => (Some(release@), None),
        (Ok(_), Err(lease)) => (
            Some("lease release: "@ + lease@),
            Some("closed connection but failed to release lease: "@ + lease@),
        ),
        (Err(release), Err(lease)) => (
            Some(release@ + "; lease release: "@ + lease@),
            Some("closed connection but failed to release lease: "@ + lease@),
        ),
    }
}

/// What a closed connection leaves behind: the error of releasing its interface and that
/// of giving the device back. A device that could not be given back goes into
/// quarantine.
pub fn after_close(release: Result<(), String>, lease: Result<(), String>) -> (aftermath:
    UsbAftermath)
    ensures
        aftermath_is(
            aftermath,
            left_by_close(release, lease).0,
            left_by_close(release, lease).1,
        ),
{
    match lease {
        Ok(_) => UsbAftermath {
            error: match release {
                Ok(_) => None,
                Err(release) => Some(release),
            },
            quarantine: None,
        },
        Err(lease) => UsbAftermath {
            error: Some(
                match release {
                    Ok(_) => join2("lease release: ", lease.as_str()),
                    Err(release) => join3(release.as_str(), "; lease release: ", lease.as_str()),
                },
            ),
            quarantine: Some(
                join2("closed connection but failed to release lease: ", lease.as_str()),
            ),
        },
    }
}

/// What releasing the interface says: a refusal is an error.
pub fn interface_released(released: bool) -> (result: Result<(), String>)
    ensures
        result is Ok <==> released,
        result is Err ==> result->Err_0@ == "Java releaseInterface returned false"@,
{
    if released {
        Ok(())
    } else {
        Err("Java releaseInterface returned false".to_owned())
    }
}

/// The words that a failed opening leaves behind, of its error and of its quarantine.
pub open spec fn left_by_failed_open<O>(
    setup_error: Seq<char>,
    cleanup: UsbConnectionCleanup<O>,
) -> (Seq<char>, Option<Seq<char>>) {
    match cleanup {
        UsbConnectionCleanup::Closed { release_interface: Ok(_) } => (setup_error, None),
        UsbConnectionCleanup::Closed { release_interface: Err(cleanup) } => (
            setup_error + "; cleanup: "@ + cleanup@,
            None,
        ),
        UsbConnectionCleanup::Unclosed { release_interface, close_connection, .. } => {
            let unproven = match release_interface {
                Ok(_) => close_connection@,
                Err(release) => release@ + "; close: "@ + close_connection@,
            };
            (
                setup_error + "; cleanup unproven: "@ + unproven,
                Some("USB setup cleanup failed: "@ + unproven),
            )
        },
    }
}

/// The words that an opening leaves behind that got no hold of its connection.
pub open spec fn left_by_unowned_open(allocation: Seq<char>, close: Result<(), String>) -> (
    Seq<char>,
    Option<Seq<char>>,
) {
    match close {
        Ok(_) => (allocation, None),
        Err(close) => (
            allocation + "; cleanup unproven: "@ + close@,
            Some(allocation + "; "@ + close@),
        ),
    }
}

/// What an opening that failed after its device was open leaves behind, given what
/// closing the device brought.
pub fn after_failed_open<O>(setup_error: String, cleanup: &UsbConnectionCleanup<O>) -> (aftermath:
    UsbAftermath)
    ensures
        aftermath_is(
            aftermath,
            Some(left_by_failed_open(setup_error@, *cleanup).0),
            left_by_failed_open(setup_error@, *cleanup).1,
        ),
{
    match cleanup {
        UsbConnectionCleanup::Closed { release_interface } => match release_interface {
            Ok(_) => UsbAftermath { error: Some(setup_error), quarantine: None },
            Err(cleanup) => UsbAftermath {
                error: Some(join3(setup_error.as_str(), "; cleanup: ", cleanup.as_str())),
                quarantine: None,
            },
        },
        UsbConnectionCleanup::Unclosed { release_interface, close_connection, .. } => {
            let unproven = match release_interface {
                Ok(_) => close_connection.as_str().to_owned(),
                Err(release) => join3(release.as_str(), "; close: ", close_connection.as_str()),
            };
            UsbAftermath {
                error: Some(
                    join3(setup_error.as_str(), "; cleanup unproven: ", unproven.as_str()),
                ),
                quarantine: Some(join2("USB setup cleanup failed: ", unproven.as_str())),
            }
        },
    }
}

/// What an opening leaves behind that got no hold of its open connection, given what
/// closing that connection at once brought. Only a closed one gives the device back.
pub fn after_unowned_open(allocation: String, close: Result<(), String>) -> (aftermath:
    UsbAftermath)
    ensures
        aftermath_is(
            aftermath,
            Some(left_by_unowned_open(allocation@, close).0),
            left_by_unowned_open(allocation@, close).1,
        ),
{
    match close {
        Ok(_) => UsbAftermath { error: Some(allocation), quarantine: None },
        Err(close) => UsbAftermath {
            error: Some(join3(allocation.as_str(), "; cleanup unproven: ", close.as_str())),
            quarantine: Some(join3(allocation.as_str(), "; ", close.as_str())),
        },
    }
}

/// What is said of a startup that failed, given what ending its session brought.
pub fn startup_failure_message(error: &str, cleanup: Result<(), String>) -> (message: String)
    ensures
        message@ == "Android USB RNode startup failed: "@ + error@ + (match cleanup {
            Ok(_) => Seq::<char>::empty(),
            Err(cleanup) => "; cleanup: "@ + cleanup@,
        }),
{
    let head = join2("Android USB RNode startup failed: ", error);
    match cleanup {
        Ok(_) => {
            assert(head@ =~= head@ + Seq::<char>::empty());
            head
        },
        Err(cleanup) => {
            let message = join3(head.as_str(), "; cleanup: ", cleanup.as_str());
            assert(message@ =~= head@ + ("; cleanup: "@ + cleanup@));
            message
        },
    }
}

/// The last endpoint of a direction is one of that direction, and none of it stands behind;
/// there is one exactly if any endpoint has that direction.
pub proof fn last_endpoint_of_a_direction(directions: Seq<i32>, inward: bool, other: int)
    requires
        0 <= other < directions.len(),
    ensures
        last_endpoint(directions, inward) is Some ==> {
            let index = last_endpoint(directions, inward)->0;
            &&& 0 <= index < directions.len()
            &&& (directions[index] == 0x80) == inward
            &&& (directions[other] == 0x80) == inward ==> other <= index
        },
        (directions[other] == 0x80) == inward ==> last_endpoint(directions, inward) is Some,
    decreases directions.len(),
{
    let head = directions.drop_last();
    if head.len() == 0 {
        assert(last_endpoint(head, inward) is None);
    } else if (directions.last() == USB_DIRECTION_IN) != inward {
        let place: int = if other < head.len() {
            other
        } else {
            0
        };
        last_endpoint_of_a_direction(head, inward, place);
    }
}

/// The serial line is on an interface for data or of a vendor's own, with an endpoint to read
/// from and one to write to; it is the first such interface, and none is passed over.
pub proof fn serial_line_is_the_first_that_serves(
    shapes: Seq<UsbInterfaceShape>,
    chosen: Option<UsbSerialEndpoints>,
    other: int,
    input: int,
    output: int,
)
    requires
        is_serial_line(shapes, chosen),
        0 <= other < shapes.len(),
        0 <= input < shapes[other].directions@.len(),
        0 <= output < shapes[other].directions@.len(),
    ensures
        chosen is Some ==> {
            let shape = shapes[chosen->0.interface as int];
            &&& chosen->0.interface < shapes.len()
            &&& shape.class == 0x0A || shape.class == 0xFF
            &&& chosen->0.input < shape.directions@.len()
            &&& chosen->0.output < shape.directions@.len()
            &&& shape.directions@[chosen->0.input as int] == 0x80
            &&& shape.directions@[chosen->0.output as int] != 0x80
        },
        (shapes[other].class == 0x0A || shapes[other].class == 0xFF)
            && shapes[other].directions@[input] == 0x80 && shapes[other].directions@[output] != 0x80
            ==> chosen is Some && chosen->0.interface <= other,
{
    last_endpoint_of_a_direction(shapes[other].directions@, true, input);
    last_endpoint_of_a_direction(shapes[other].directions@, false, output);
    if chosen is Some {
        let directions = shapes[chosen->0.interface as int].directions@;
        if directions.len() > 0 {
            last_endpoint_of_a_direction(directions, true, 0);
            last_endpoint_of_a_direction(directions, false, 0);
        }
    }
}

/// A line is set up at the configured rate, which travels with its lowest byte first, with one
/// stop bit, no parity and eight data bits.
pub proof fn line_coding_holds_the_rate(baud_rate: u32)
    ensures
        ({
            let coding = line_coding_bytes(baud_rate);
            &&& coding.len() == 7
            &&& coding[0] + coding[1] * 256 + coding[2] * 65_536 + coding[3] * 16_777_216
                == baud_rate
            &&& coding[4] == 0 && coding[5] == 0 && coding[6] == 8
        }),
{
}

/// A read that brought nothing, or failed to, is idle. One that brought up to 1024 bytes
/// brought that many, and a larger count is an error.
pub proof fn read_counts_are_told_apart(count: i32, read: Result<Option<usize>, String>)
    requires
        reads_as(count, read),
    ensures
        read is Err <==> count > 1024,
        count <= 0 ==> read is Ok && read->Ok_0 is None,
        0 < count <= 1024 ==> read is Ok && read->Ok_0 is Some && read->Ok_0->0 == count,
{
}

/// A write is asked for at its full length, and for as many whole milliseconds as its time has,
/// up to the largest that the platform takes; one that is too long, or has less than a
/// millisecond, is not asked for.
pub proof fn write_is_asked_for_in_full(
    len: usize,
    timeout: u128,
    arguments: Result<UsbWriteArguments, UsbTransferError>,
)
    requires
        asks_for(len, timeout, arguments),
    ensures
        arguments is Ok <==> len <= 0x7FFF_FFFF && timeout >= 1_000_000,
        arguments is Ok ==> arguments->Ok_0.length == len,
        arguments is Ok && timeout < 0x8000_0000 * 1_000_000 ==> {
            let milliseconds = arguments->Ok_0.timeout_ms;
            milliseconds * 1_000_000 <= timeout < (milliseconds + 1) * 1_000_000
        },
        arguments is Ok && timeout >= 0x8000_0000 * 1_000_000 ==> arguments->Ok_0.timeout_ms
            == 0x7FFF_FFFF,
{
}

/// A device that was being opened is given back from its opening, an active one from its
/// session.
pub proof fn device_is_given_back_from_its_phase<R>(phase: UsbLeasePhase)
    ensures
        phase is Opening ==> release_request::<R>(phase) is ReleaseOpening,
        phase is Active ==> release_request::<R>(phase) is ReleaseActive,
{
}

/// A closed connection goes into quarantine exactly if its device could not be given back, and
/// whatever failed is reported.
pub proof fn ungiven_device_is_quarantined(
    release: Result<(), String>,
    lease: Result<(), String>,
    aftermath: UsbAftermath,
)
    requires
        aftermath_is(aftermath, left_by_close(release, lease).0, left_by_close(release, lease).1),
    ensures
        aftermath.quarantine is Some <==> lease is Err,
        aftermath.error is None <==> release is Ok && lease is Ok,
        release is Err && lease is Ok ==> aftermath.error->0@ == release->Err_0@,
{
}

/// A failed opening puts its device in quarantine exactly if its connection was not closed. Its
/// own error is always reported first.
pub proof fn unclosed_opening_is_quarantined<O>(
    error: Seq<char>,
    cleanup: UsbConnectionCleanup<O>,
    close: Result<(), String>,
)
    ensures
        left_by_failed_open(error, cleanup).1 is Some <==> cleanup is Unclosed,
        error.is_prefix_of(left_by_failed_open(error, cleanup).0),
        cleanup is Closed && cleanup->Closed_release_interface is Ok ==> left_by_failed_open(
            error,
            cleanup,
        ).0 == error,
        left_by_unowned_open(error, close).1 is Some <==> close is Err,
        error.is_prefix_of(left_by_unowned_open(error, close).0),
        close is Ok ==> left_by_unowned_open(error, close).0 == error,
{
}

} // verus!
