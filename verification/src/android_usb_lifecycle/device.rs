//! Which attached USB device a configuration means. Android's device names change
//! with every plug, so identity rests on vendor, product and serial number.
use vstd::prelude::*;
use vstd::string::*;
use crate::text::{decimal, decimal_text, join3, same_text};

verus! {

/// A device identity that survives Android's transient device names.
#[derive(Clone, Debug, PartialEq, Eq)]
pub struct UsbDeviceSelector {
    pub legacy_device_name: String,
    pub vendor_id: Option<u16>,
    pub product_id: Option<u16>,
    pub serial_number: Option<String>,
}

/// What one enumeration tells of an attached device.
#[derive(Clone, Debug, PartialEq, Eq)]
pub struct UsbDeviceCandidate {
    pub device_name: String,
    pub vendor_id: u16,
    pub product_id: u16,
    pub serial_number: Option<String>,
    pub has_permission: bool,
}

/// Why no device is opened.
#[derive(Clone, Debug, PartialEq, Eq)]
pub enum UsbDeviceResolutionError {
    NotFound,
    Ambiguous { matches: usize },
    PermissionRequired { device_name: String },
}

impl UsbDeviceResolutionError {
    /// The error in words.
    pub fn message(&self) -> (message: String)
        ensures
            message@ == (match *self {
                UsbDeviceResolutionError::NotFound =>
                    "configured Android USB device is not attached"@,
                UsbDeviceResolutionError::Ambiguous { matches } =>
                    "configured Android USB selector matches "@ + decimal_text(matches as nat)
                    + " devices; refusing ambiguous reopen"@,
                UsbDeviceResolutionError::PermissionRequired { .. } =>
                    "Android USB permission is required"@,
            }),
    {
        match self {
            UsbDeviceResolutionError::NotFound =>
                "configured Android USB device is not attached".to_owned(),
            UsbDeviceResolutionError::Ambiguous { matches } => join3(
                "configured Android USB selector matches ",
                decimal(*matches as u64).as_str(),
                " devices; refusing ambiguous reopen",
            ),
            UsbDeviceResolutionError::PermissionRequired { .. } =>
                "Android USB permission is required".to_owned(),
        }
    }
}

/// The characters behind an optional text.
pub open spec fn optional_view(text: Option<String>) -> Option<Seq<char>> {
    match text {
        Some(text) => Some(text@),
        None => None,
    }
}

/// By what a candidate is compared with the selector.
#[derive(Clone, Copy, Debug, PartialEq, Eq, Structural)]
pub enum UsbMatch {
    /// By the device name.
    LegacyName,
    /// By vendor and product.
    Product,
    /// By vendor, product and serial number.
    Serial,
    /// By vendor and product, where the serial number cannot be read yet.
    Unreadable,
}

/// The selector names both vendor and product.
pub open spec fn names_product(selector: UsbDeviceSelector) -> bool {
    selector.vendor_id is Some && selector.product_id is Some
}

/// The candidate is of the selected vendor and product.
pub open spec fn same_product(
    selector: UsbDeviceSelector,
    candidate: UsbDeviceCandidate,
) -> bool {
    selector.vendor_id == Some(candidate.vendor_id) && selector.product_id == Some(
        candidate.product_id,
    )
}

/// The candidate compares equal to the selector.
pub open spec fn compares_equal(
    by: UsbMatch,
    selector: UsbDeviceSelector,
    candidate: UsbDeviceCandidate,
) -> bool {
    match by {
        UsbMatch::LegacyName => candidate.device_name@ == selector.legacy_device_name@,
        UsbMatch::Product => same_product(selector, candidate),
        UsbMatch::Serial => same_product(selector, candidate) && candidate.serial_number is Some
            && optional_view(candidate.serial_number) == optional_view(selector.serial_number),
        UsbMatch::Unreadable => same_product(selector, candidate) && !candidate.has_permission
            && candidate.serial_number is None,
    }
}

/// By what the selector identifies its device.
pub open spec fn identity_of(selector: UsbDeviceSelector) -> UsbMatch {
    if !names_product(selector) {
        UsbMatch::LegacyName
    } else if selector.serial_number is Some {
        UsbMatch::Serial
    } else {
        UsbMatch::Product
    }
}

/// How many candidates compare equal.
pub open spec fn match_count(
    by: UsbMatch,
    selector: UsbDeviceSelector,
    candidates: Seq<UsbDeviceCandidate>,
) -> nat
    decreases candidates.len(),
{
    if candidates.len() == 0 {
        0
    } else {
        match_count(by, selector, candidates.drop_last()) + if compares_equal(
            by,
            selector,
            candidates.last(),
        ) {
            1nat
        } else {
            0nat
        }
    }
}

/// What a selector resolves to. A failure to permit carries the position of the
/// device that has to be permitted.
pub ghost enum Resolution {
    Device { index: int },
    NotFound,
    Ambiguous { matches: nat },
    PermissionRequired { index: int },
}

/// The only position at which a candidate compares equal.
pub open spec fn only_match(
    by: UsbMatch,
    selector: UsbDeviceSelector,
    candidates: Seq<UsbDeviceCandidate>,
) -> int {
    choose|index: int|
        0 <= index < candidates.len() && #[trigger] compares_equal(by, selector, candidates[index])
}

/// What a selector resolves to among the candidates. A device is opened only if it is
/// the only one that the selector can mean and it may be opened. Where a serial number
/// is wanted and none is exactly right, a single device whose serial number cannot be
/// read yet has to be permitted first.
pub open spec fn resolution(
    selector: UsbDeviceSelector,
    candidates: Seq<UsbDeviceCandidate>,
) -> Resolution {
    let by = identity_of(selector);
    let matches = match_count(by, selector, candidates);
    let unreadable = match_count(UsbMatch::Unreadable, selector, candidates);
    if matches == 0 {
        if by is Serial && unreadable == 1 {
            Resolution::PermissionRequired {
                index: only_match(UsbMatch::Unreadable, selector, candidates),
            }
        } else if by is Serial && unreadable > 1 {
            Resolution::Ambiguous { matches: unreadable }
        } else {
            Resolution::NotFound
        }
    } else if matches > 1 {
        Resolution::Ambiguous { matches }
    } else {
        let index = only_match(by, selector, candidates);
        if candidates[index].has_permission {
            Resolution::Device { index }
        } else {
            Resolution::PermissionRequired { index }
        }
    }
}

proof fn lemma_count_bounds(
    by: UsbMatch,
    selector: UsbDeviceSelector,
    candidates: Seq<UsbDeviceCandidate>,
    index: int,
)
    requires
        0 <= index < candidates.len(),
        compares_equal(by, selector, candidates[index]),
    ensures
        match_count(by, selector, candidates) >= 1,
    decreases candidates.len(),
{
    if index < candidates.len() - 1 {
        assert(candidates.drop_last()[index] == candidates[index]);
        lemma_count_bounds(by, selector, candidates.drop_last(), index);
    }
}

proof fn lemma_two_matches(
    by: UsbMatch,
    selector: UsbDeviceSelector,
    candidates: Seq<UsbDeviceCandidate>,
    first: int,
    second: int,
)
    requires
        0 <= first < second < candidates.len(),
        compares_equal(by, selector, candidates[first]),
        compares_equal(by, selector, candidates[second]),
    ensures
        match_count(by, selector, candidates) >= 2,
    decreases candidates.len(),
{
    let head = candidates.drop_last();
    if second < candidates.len() - 1 {
        assert(head[first] == candidates[first] && head[second] == candidates[second]);
        lemma_two_matches(by, selector, head, first, second);
    } else {
        assert(head[first] == candidates[first]);
        lemma_count_bounds(by, selector, head, first);
    }
}

/// Where exactly one candidate compares equal, any that does is that one.
proof fn lemma_only_match(
    by: UsbMatch,
    selector: UsbDeviceSelector,
    candidates: Seq<UsbDeviceCandidate>,
    index: int,
)
    requires
        match_count(by, selector, candidates) == 1,
        0 <= index < candidates.len(),
        compares_equal(by, selector, candidates[index]),
    ensures
        only_match(by, selector, candidates) == index,
{
    let chosen = only_match(by, selector, candidates);
    assert(compares_equal(by, selector, candidates[chosen]) && 0 <= chosen < candidates.len());
    if chosen < index {
        lemma_two_matches(by, selector, candidates, chosen, index);
    } else if index < chosen {
        lemma_two_matches(by, selector, candidates, index, chosen);
    }
}

fn compare(by: UsbMatch, selector: &UsbDeviceSelector, candidate: &UsbDeviceCandidate) -> (equal:
    bool)
    ensures
        equal == compares_equal(by, *selector, *candidate),
{
    match by {
        UsbMatch::LegacyName => same_text(
            candidate.device_name.as_str(),
            selector.legacy_device_name.as_str(),
        ),
        _ => {
            let product = match selector.vendor_id {
                Some(vendor_id) => match selector.product_id {
                    Some(product_id) => vendor_id == candidate.vendor_id && product_id
                        == candidate.product_id,
                    None => false,
                },
                None => false,
            };
            if !product {
                return false;
            }
            match by {
                UsbMatch::Serial => match &candidate.serial_number {
                    Some(serial) => match &selector.serial_number {
                        Some(wanted) => same_text(serial.as_str(), wanted.as_str()),
                        None => false,
                    },
                    None => false,
                },
                UsbMatch::Unreadable => !candidate.has_permission
                    && candidate.serial_number.is_none(),
                _ => true,
            }
        },
    }
}

fn count_matches(
    by: UsbMatch,
    selector: &UsbDeviceSelector,
    candidates: &[UsbDeviceCandidate],
) -> (found: (usize, usize))
    ensures
        found.0 == match_count(by, *selector, candidates@),
        found.0 == 1 ==> found.1 < candidates@.len() && found.1 == only_match(
            by,
            *selector,
            candidates@,
        ) && compares_equal(by, *selector, candidates@[found.1 as int]),
{
    let mut count: usize = 0;
    let mut last: usize = 0;
    let mut index: usize = 0;
    while index < candidates.len()
        invariant
            index <= candidates@.len(),
            count <= index,
            count == match_count(by, *selector, candidates@.subrange(0, index as int)),
            count > 0 ==> last < index && compares_equal(by, *selector, candidates@[last as int]),
        decreases candidates@.len() - index,
    {
        let ghost grown = candidates@.subrange(0, index + 1);
        assert(grown.drop_last() =~= candidates@.subrange(0, index as int));
        if compare(by, selector, &candidates[index]) {
            count = count + 1;
            last = index;
        }
        index = index + 1;
    }
    assert(candidates@.subrange(0, index as int) =~= candidates@);
    proof {
        if count == 1 {
            lemma_only_match(by, *selector, candidates@, last as int);
        }
    }
    (count, last)
}

/// A candidate as it was found.
pub open spec fn same_candidate(left: UsbDeviceCandidate, right: UsbDeviceCandidate) -> bool {
    &&& left.device_name@ == right.device_name@
    &&& left.vendor_id == right.vendor_id
    &&& left.product_id == right.product_id
    &&& optional_view(left.serial_number) == optional_view(right.serial_number)
    &&& left.has_permission == right.has_permission
}

/// The selector learned from a device identifies exactly that device.
pub open spec fn learned_from(selector: UsbDeviceSelector, device: UsbDeviceCandidate) -> bool {
    &&& selector.legacy_device_name@ == device.device_name@
    &&& selector.vendor_id == Some(device.vendor_id)
    &&& selector.product_id == Some(device.product_id)
    &&& optional_view(selector.serial_number) == optional_view(device.serial_number)
}

/// `resolved` is what a selector comes to among the candidates.
pub open spec fn resolved_as(
    selector: UsbDeviceSelector,
    candidates: Seq<UsbDeviceCandidate>,
    resolved: Result<(UsbDeviceCandidate, UsbDeviceSelector), UsbDeviceResolutionError>,
) -> bool {
    match resolution(selector, candidates) {
        Resolution::Device { index } => {
            &&& 0 <= index < candidates.len()
            &&& resolved is Ok
            &&& same_candidate(resolved->Ok_0.0, candidates[index])
            &&& learned_from(resolved->Ok_0.1, candidates[index])
        },
        Resolution::NotFound => resolved == Err::<
            (UsbDeviceCandidate, UsbDeviceSelector),
            UsbDeviceResolutionError,
        >(UsbDeviceResolutionError::NotFound),
        Resolution::Ambiguous { matches } => resolved is Err && resolved->Err_0 is Ambiguous
            && resolved->Err_0->matches == matches,
        Resolution::PermissionRequired { index } => {
            &&& 0 <= index < candidates.len()
            &&& resolved is Err
            &&& resolved->Err_0 is PermissionRequired
            &&& resolved->Err_0->device_name@ == candidates[index].device_name@
        },
    }
}

/// Finds the device that a selector means, and never guesses between two. The
/// returned selector has learned the device's identity for later plugs.
pub fn resolve_usb_device(
    selector: &UsbDeviceSelector,
    candidates: &[UsbDeviceCandidate],
) -> (resolved: Result<(UsbDeviceCandidate, UsbDeviceSelector), UsbDeviceResolutionError>)
    ensures
        resolved_as(*selector, candidates@, resolved),
{
    let by = if selector.vendor_id.is_none() || selector.product_id.is_none() {
        UsbMatch::LegacyName
    } else if selector.serial_number.is_some() {
        UsbMatch::Serial
    } else {
        UsbMatch::Product
    };
    let (matches, index) = count_matches(by, selector, candidates);
    if matches == 0 {
        if by == UsbMatch::Serial {
            let (unreadable, position) = count_matches(UsbMatch::Unreadable, selector, candidates);
            if unreadable == 1 {
                return Err(
                    UsbDeviceResolutionError::PermissionRequired {
                        device_name: candidates[position].device_name.clone(),
                    },
                );
            }
            if unreadable > 1 {
                return Err(UsbDeviceResolutionError::Ambiguous { matches: unreadable });
            }
        }
        return Err(UsbDeviceResolutionError::NotFound);
    }
    if matches != 1 {
        return Err(UsbDeviceResolutionError::Ambiguous { matches });
    }
    let found = &candidates[index];
    if !found.has_permission {
        return Err(
            UsbDeviceResolutionError::PermissionRequired { device_name: found.device_name.clone() },
        );
    }
    let candidate = UsbDeviceCandidate {
        device_name: found.device_name.clone(),
        vendor_id: found.vendor_id,
        product_id: found.product_id,
        serial_number: copy_serial(&found.serial_number),
        has_permission: found.has_permission,
    };
    let learned = UsbDeviceSelector {
        legacy_device_name: found.device_name.clone(),
        vendor_id: Some(found.vendor_id),
        product_id: Some(found.product_id),
        serial_number: copy_serial(&found.serial_number),
    };
    Ok((candidate, learned))
}

fn copy_serial(serial: &Option<String>) -> (copy: Option<String>)
    ensures
        optional_view(copy) == optional_view(*serial),
{
    match serial {
        Some(serial) => Some(serial.clone()),
        None => None,
    }
}

/// A device is opened only if it is permitted and no other candidate could be meant.
pub proof fn resolution_never_guesses(
    selector: UsbDeviceSelector,
    candidates: Seq<UsbDeviceCandidate>,
    other: int,
)
    requires
        resolution(selector, candidates) is Device,
        0 <= other < candidates.len(),
        other != resolution(selector, candidates)->Device_index,
    ensures
        candidates[resolution(selector, candidates)->Device_index].has_permission,
        !compares_equal(identity_of(selector), selector, candidates[other]),
{
    if compares_equal(identity_of(selector), selector, candidates[other]) {
        lemma_only_match(identity_of(selector), selector, candidates, other);
    }
}

proof fn lemma_count_without(
    by: UsbMatch,
    selector: UsbDeviceSelector,
    candidates: Seq<UsbDeviceCandidate>,
    index: int,
)
    requires
        0 <= index < candidates.len(),
    ensures
        match_count(by, selector, candidates) == match_count(
            by,
            selector,
            candidates.remove(index),
        ) + if compares_equal(by, selector, candidates[index]) {
            1nat
        } else {
            0nat
        },
    decreases candidates.len(),
{
    let rest = candidates.remove(index);
    let head = candidates.drop_last();
    if index == candidates.len() - 1 {
        assert(rest =~= head);
    } else {
        lemma_count_without(by, selector, head, index);
        assert(rest.drop_last() =~= head.remove(index));
        assert(rest.last() == candidates.last());
    }
}

proof fn lemma_count_permuted(
    by: UsbMatch,
    selector: UsbDeviceSelector,
    one: Seq<UsbDeviceCandidate>,
    other: Seq<UsbDeviceCandidate>,
)
    requires
        one.to_multiset() == other.to_multiset(),
    ensures
        match_count(by, selector, one) == match_count(by, selector, other),
    decreases one.len(),
{
    one.to_multiset_ensures();
    other.to_multiset_ensures();
    assert(one.len() == one.to_multiset().len() && other.len() == other.to_multiset().len());
    if one.len() > 0 {
        let last = one.len() - 1;
        let candidate = one[last];
        assert(one.contains(candidate));
        assert(other.to_multiset().count(candidate) > 0);
        let place = choose|i: int| 0 <= i < other.len() && other[i] == candidate;
        assert(other.contains(candidate));
        lemma_count_permuted(by, selector, one.remove(last), other.remove(place));
        lemma_count_without(by, selector, one, last);
        lemma_count_without(by, selector, other, place);
    }
}

/// Two resolutions among two lists come to the same: the same device, or the same error.
pub open spec fn same_resolution(
    one: Seq<UsbDeviceCandidate>,
    other: Seq<UsbDeviceCandidate>,
    left: Resolution,
    right: Resolution,
) -> bool {
    match (left, right) {
        (Resolution::Device { index: i }, Resolution::Device { index: j }) => one[i] == other[j],
        (
            Resolution::PermissionRequired { index: i },
            Resolution::PermissionRequired { index: j },
        ) => one[i] == other[j],
        (Resolution::Ambiguous { matches: i }, Resolution::Ambiguous { matches: j }) => i == j,
        (Resolution::NotFound, Resolution::NotFound) => true,
        _ => false,
    }
}

proof fn lemma_only_match_permuted(
    by: UsbMatch,
    selector: UsbDeviceSelector,
    one: Seq<UsbDeviceCandidate>,
    other: Seq<UsbDeviceCandidate>,
)
    requires
        one.to_multiset() == other.to_multiset(),
        match_count(by, selector, one) == 1,
    ensures
        one[only_match(by, selector, one)] == other[only_match(by, selector, other)],
{
    lemma_count_permuted(by, selector, one, other);
    lemma_some_match(by, selector, one);
    let index = only_match(by, selector, one);
    one.to_multiset_ensures();
    other.to_multiset_ensures();
    assert(one.contains(one[index]));
    assert(other.to_multiset().count(one[index]) > 0);
    assert(other.contains(one[index]));
    let place = choose|i: int| 0 <= i < other.len() && other[i] == one[index];
    lemma_only_match(by, selector, other, place);
}

/// Where one candidate compares equal, the only match is one.
proof fn lemma_some_match(
    by: UsbMatch,
    selector: UsbDeviceSelector,
    candidates: Seq<UsbDeviceCandidate>,
)
    requires
        match_count(by, selector, candidates) >= 1,
    ensures
        ({
            let index = only_match(by, selector, candidates);
            0 <= index < candidates.len() && compares_equal(by, selector, candidates[index])
        }),
    decreases candidates.len(),
{
    if compares_equal(by, selector, candidates.last()) {
        assert(compares_equal(by, selector, candidates[candidates.len() - 1]));
    } else {
        let head = candidates.drop_last();
        lemma_some_match(by, selector, head);
        let index = only_match(by, selector, head);
        assert(candidates[index] == head[index]);
        assert(compares_equal(by, selector, candidates[index]));
    }
}

/// The order in which the bus lists its devices does not matter to what a selector
/// resolves to.
pub proof fn listing_order_does_not_matter(
    selector: UsbDeviceSelector,
    one: Seq<UsbDeviceCandidate>,
    other: Seq<UsbDeviceCandidate>,
)
    requires
        one.to_multiset() == other.to_multiset(),
    ensures
        same_resolution(
            one,
            other,
            resolution(selector, one),
            resolution(selector, other),
        ),
{
    let by = identity_of(selector);
    lemma_count_permuted(by, selector, one, other);
    lemma_count_permuted(UsbMatch::Unreadable, selector, one, other);
    if match_count(by, selector, one) == 1 {
        lemma_only_match_permuted(by, selector, one, other);
    }
    if match_count(UsbMatch::Unreadable, selector, one) == 1 {
        lemma_only_match_permuted(UsbMatch::Unreadable, selector, one, other);
    }
}

/// What was learned from a device with a readable serial number finds it again under
/// any name, as long as it is permitted and no second device has the same identity.
pub proof fn learned_identity_survives_replug(
    learned: UsbDeviceSelector,
    device: UsbDeviceCandidate,
    candidates: Seq<UsbDeviceCandidate>,
    index: int,
)
    requires
        learned_from(learned, device),
        device.serial_number is Some,
        0 <= index < candidates.len(),
        candidates[index].vendor_id == device.vendor_id,
        candidates[index].product_id == device.product_id,
        optional_view(candidates[index].serial_number) == optional_view(device.serial_number),
        candidates[index].has_permission,
        match_count(UsbMatch::Serial, learned, candidates) <= 1,
    ensures
        resolution(learned, candidates) == (Resolution::Device { index }),
{
    assert(learned.serial_number is Some);
    assert(compares_equal(UsbMatch::Serial, learned, candidates[index]));
    lemma_count_bounds(UsbMatch::Serial, learned, candidates, index);
    lemma_only_match(UsbMatch::Serial, learned, candidates, index);
}

proof fn lemma_no_match(
    by: UsbMatch,
    selector: UsbDeviceSelector,
    candidates: Seq<UsbDeviceCandidate>,
)
    requires
        forall|i: int|
            0 <= i < candidates.len() ==> !compares_equal(by, selector, #[trigger] candidates[i]),
    ensures
        match_count(by, selector, candidates) == 0,
    decreases candidates.len(),
{
    if candidates.len() > 0 {
        let head = candidates.drop_last();
        assert forall|i: int| 0 <= i < head.len() implies !compares_equal(
            by,
            selector,
            #[trigger] head[i],
        ) by {
            assert(head[i] == candidates[i]);
        }
        lemma_no_match(by, selector, head);
        assert(!compares_equal(by, selector, candidates[candidates.len() - 1]));
    }
}

proof fn lemma_single_match(
    by: UsbMatch,
    selector: UsbDeviceSelector,
    candidates: Seq<UsbDeviceCandidate>,
    index: int,
)
    requires
        0 <= index < candidates.len(),
        compares_equal(by, selector, candidates[index]),
        forall|i: int|
            0 <= i < candidates.len() && i != index ==> !compares_equal(
                by,
                selector,
                #[trigger] candidates[i],
            ),
    ensures
        match_count(by, selector, candidates) == 1,
        only_match(by, selector, candidates) == index,
    decreases candidates.len(),
{
    let head = candidates.drop_last();
    assert forall|i: int| 0 <= i < head.len() && i != index implies !compares_equal(
        by,
        selector,
        #[trigger] head[i],
    ) by {
        assert(head[i] == candidates[i]);
    }
    if index == candidates.len() - 1 {
        lemma_no_match(by, selector, head);
    } else {
        assert(head[index] == candidates[index]);
        lemma_single_match(by, selector, head, index);
        assert(!compares_equal(by, selector, candidates[candidates.len() - 1]));
    }
    lemma_only_match(by, selector, candidates, index);
}

/// A device that is opened may be opened, and is the configured one in everything that the
/// configuration says of it: vendor and product where it names both, with the serial number
/// where it names one, or else the device name.
pub proof fn opened_device_is_the_configured_one(
    selector: UsbDeviceSelector,
    candidates: Seq<UsbDeviceCandidate>,
    index: int,
)
    requires
        resolution(selector, candidates) == (Resolution::Device { index }),
    ensures
        0 <= index < candidates.len(),
        candidates[index].has_permission,
        selector.vendor_id is Some && selector.product_id is Some ==> {
            &&& selector.vendor_id == Some(candidates[index].vendor_id)
            &&& selector.product_id == Some(candidates[index].product_id)
            &&& selector.serial_number is Some ==> candidates[index].serial_number is Some
                && candidates[index].serial_number->0@ == selector.serial_number->0@
        },
        selector.vendor_id is None || selector.product_id is None ==> candidates[index].device_name@
            == selector.legacy_device_name@,
{
    lemma_some_match(identity_of(selector), selector, candidates);
}

/// A permitted device of the configured vendor and product is opened where it is the only
/// one of that product and no serial number is configured.
pub proof fn only_device_of_its_product_is_opened(
    selector: UsbDeviceSelector,
    candidates: Seq<UsbDeviceCandidate>,
    index: int,
)
    requires
        0 <= index < candidates.len(),
        selector.vendor_id == Some(candidates[index].vendor_id),
        selector.product_id == Some(candidates[index].product_id),
        selector.serial_number is None,
        forall|i: int|
            0 <= i < candidates.len() && i != index ==> (#[trigger] candidates[i]).vendor_id
                != candidates[index].vendor_id || candidates[i].product_id
                != candidates[index].product_id,
    ensures
        candidates[index].has_permission ==> resolution(selector, candidates) == (
        Resolution::Device { index }),
        !candidates[index].has_permission ==> resolution(selector, candidates) == (
        Resolution::PermissionRequired { index }),
{
    lemma_single_match(UsbMatch::Product, selector, candidates, index);
}

/// A permitted device with the configured vendor, product and serial number is opened where
/// no other has all three, whatever else of its product is attached.
pub proof fn only_device_with_its_serial_number_is_opened(
    selector: UsbDeviceSelector,
    candidates: Seq<UsbDeviceCandidate>,
    index: int,
)
    requires
        0 <= index < candidates.len(),
        selector.vendor_id == Some(candidates[index].vendor_id),
        selector.product_id == Some(candidates[index].product_id),
        selector.serial_number is Some,
        candidates[index].serial_number is Some,
        candidates[index].serial_number->0@ == selector.serial_number->0@,
        forall|i: int|
            0 <= i < candidates.len() && i != index ==> (#[trigger] candidates[i]).vendor_id
                != candidates[index].vendor_id || candidates[i].product_id
                != candidates[index].product_id || candidates[i].serial_number is None
                || candidates[i].serial_number->0@ != selector.serial_number->0@,
    ensures
        candidates[index].has_permission ==> resolution(selector, candidates) == (
        Resolution::Device { index }),
        !candidates[index].has_permission ==> resolution(selector, candidates) == (
        Resolution::PermissionRequired { index }),
{
    lemma_single_match(UsbMatch::Serial, selector, candidates, index);
}

/// Where vendor or product is not configured, the device of the configured name is meant.
pub proof fn device_without_identity_is_found_by_name(
    selector: UsbDeviceSelector,
    candidates: Seq<UsbDeviceCandidate>,
    index: int,
)
    requires
        0 <= index < candidates.len(),
        selector.vendor_id is None || selector.product_id is None,
        candidates[index].device_name@ == selector.legacy_device_name@,
        forall|i: int|
            0 <= i < candidates.len() && i != index ==> (#[trigger] candidates[i]).device_name@
                != selector.legacy_device_name@,
    ensures
        candidates[index].has_permission ==> resolution(selector, candidates) == (
        Resolution::Device { index }),
        !candidates[index].has_permission ==> resolution(selector, candidates) == (
        Resolution::PermissionRequired { index }),
{
    lemma_single_match(UsbMatch::LegacyName, selector, candidates, index);
}

/// Where nothing of the configured product is attached, nothing is found, whatever else is.
pub proof fn other_products_are_not_found(
    selector: UsbDeviceSelector,
    candidates: Seq<UsbDeviceCandidate>,
)
    requires
        selector.vendor_id is Some,
        selector.product_id is Some,
        forall|i: int|
            0 <= i < candidates.len() ==> (#[trigger] candidates[i]).vendor_id
                != selector.vendor_id->0 || candidates[i].product_id != selector.product_id->0,
    ensures
        resolution(selector, candidates) is NotFound,
{
    lemma_no_match(UsbMatch::Product, selector, candidates);
    lemma_no_match(UsbMatch::Serial, selector, candidates);
    lemma_no_match(UsbMatch::Unreadable, selector, candidates);
}

/// Of two devices of the configured product none is opened where no serial number tells them
/// apart.
pub proof fn two_devices_of_a_product_are_ambiguous(
    selector: UsbDeviceSelector,
    candidates: Seq<UsbDeviceCandidate>,
    first: int,
    second: int,
)
    requires
        0 <= first < second < candidates.len(),
        selector.vendor_id == Some(candidates[first].vendor_id),
        selector.product_id == Some(candidates[first].product_id),
        selector.vendor_id == Some(candidates[second].vendor_id),
        selector.product_id == Some(candidates[second].product_id),
        selector.serial_number is None || (candidates[first].serial_number is Some
            && candidates[second].serial_number is Some && candidates[first].serial_number->0@
            == selector.serial_number->0@ && candidates[second].serial_number->0@
            == selector.serial_number->0@),
    ensures
        resolution(selector, candidates) is Ambiguous,
        resolution(selector, candidates)->matches >= 2,
{
    lemma_two_matches(identity_of(selector), selector, candidates, first, second);
}

/// Where a serial number is configured and none of the attached ones is the right one, the
/// only device of the product whose number cannot be read without permission has to be
/// permitted first.
pub proof fn unreadable_device_has_to_be_permitted(
    selector: UsbDeviceSelector,
    candidates: Seq<UsbDeviceCandidate>,
    index: int,
)
    requires
        0 <= index < candidates.len(),
        selector.vendor_id == Some(candidates[index].vendor_id),
        selector.product_id == Some(candidates[index].product_id),
        selector.serial_number is Some,
        candidates[index].serial_number is None,
        !candidates[index].has_permission,
        forall|i: int|
            0 <= i < candidates.len() && i != index && (#[trigger] candidates[i]).vendor_id
                == candidates[index].vendor_id && candidates[i].product_id
                == candidates[index].product_id ==> candidates[i].serial_number is Some
                && candidates[i].serial_number->0@ != selector.serial_number->0@,
    ensures
        resolution(selector, candidates) == (Resolution::PermissionRequired { index }),
{
    lemma_no_match(UsbMatch::Serial, selector, candidates);
    lemma_single_match(UsbMatch::Unreadable, selector, candidates, index);
}

/// A device of the right product with another serial number, or with a number that could be
/// read and is not there, is not the configured one.
pub proof fn other_serial_number_is_not_found(
    selector: UsbDeviceSelector,
    candidates: Seq<UsbDeviceCandidate>,
)
    requires
        selector.vendor_id is Some,
        selector.product_id is Some,
        selector.serial_number is Some,
        forall|i: int|
            0 <= i < candidates.len() ==> ((#[trigger] candidates[i]).serial_number is Some
                && candidates[i].serial_number->0@ != selector.serial_number->0@) || (
            candidates[i].serial_number is None && candidates[i].has_permission),
    ensures
        resolution(selector, candidates) is NotFound,
{
    lemma_no_match(UsbMatch::Serial, selector, candidates);
    lemma_no_match(UsbMatch::Unreadable, selector, candidates);
}

/// What is learned from a device is its name, vendor, product and serial number.
pub proof fn learned_selector_is_the_device(learned: UsbDeviceSelector, device: UsbDeviceCandidate)
    requires
        learned_from(learned, device),
    ensures
        learned.legacy_device_name@ == device.device_name@,
        learned.vendor_id == Some(device.vendor_id),
        learned.product_id == Some(device.product_id),
        learned.serial_number is Some <==> device.serial_number is Some,
        device.serial_number is Some ==> learned.serial_number->0@ == device.serial_number->0@,
{
}

/// A device that is handed out is one of those attached, may be opened, and is the configured
/// one in everything that the configuration says of it; the learned selector names that very
/// device. A device that is asked permission for is an attached one too.
pub proof fn device_handed_out_is_the_configured_one(
    selector: UsbDeviceSelector,
    candidates: Seq<UsbDeviceCandidate>,
    resolved: Result<(UsbDeviceCandidate, UsbDeviceSelector), UsbDeviceResolutionError>,
)
    requires
        resolved_as(selector, candidates, resolved),
    ensures
        resolved is Ok ==> {
            let device = resolved->Ok_0.0;
            let learned = resolved->Ok_0.1;
            &&& device.has_permission
            &&& exists|index: int|
                0 <= index < candidates.len() && (#[trigger] candidates[index]).device_name@
                    == device.device_name@ && candidates[index].vendor_id == device.vendor_id
                    && candidates[index].product_id == device.product_id
            &&& selector.vendor_id is Some && selector.product_id is Some ==> {
                &&& selector.vendor_id == Some(device.vendor_id)
                &&& selector.product_id == Some(device.product_id)
                &&& selector.serial_number is Some ==> device.serial_number is Some
                    && device.serial_number->0@ == selector.serial_number->0@
            }
            &&& selector.vendor_id is None || selector.product_id is None ==> device.device_name@
                == selector.legacy_device_name@
            &&& learned.legacy_device_name@ == device.device_name@
            &&& learned.vendor_id == Some(device.vendor_id)
            &&& learned.product_id == Some(device.product_id)
            &&& learned.serial_number is Some <==> device.serial_number is Some
            &&& device.serial_number is Some ==> learned.serial_number->0@
                == device.serial_number->0@
        },
        resolved is Err && resolved->Err_0 is PermissionRequired ==> exists|index: int|
            0 <= index < candidates.len() && (#[trigger] candidates[index]).device_name@
                == resolved->Err_0->device_name@,
        resolved is Err && resolved->Err_0 is Ambiguous ==> resolved->Err_0->matches >= 2,
        resolved is Ok <==> resolution(selector, candidates) is Device,
{
    match resolution(selector, candidates) {
        Resolution::Device { index } => {
            opened_device_is_the_configured_one(selector, candidates, index);
            assert(candidates[index].device_name@ == resolved->Ok_0.0.device_name@);
        },
        Resolution::PermissionRequired { index } => {
            assert(candidates[index].device_name@ == resolved->Err_0->device_name@);
        },
        _ => {},
    }
}

} // verus!
