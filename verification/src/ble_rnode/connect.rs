//! One connection attempt: adapter, connect retries, discovery, pairing trigger
//! and subscription, up to a usable link.
use vstd::prelude::*;
use vstd::string::*;
use crate::ble_rnode::generation::{BleGenerationExit, BleGenerationId, BleOperationStage};
use crate::ble_rnode::pairing::{
    desktop_pairing_trigger_for_properties, map_pairing_read_error, map_subscribe_generation_error,
    pairing_read_failure, pairing_trigger, subscribe_failure, subscribe_stage,
    CharacteristicProperties, DesktopPairingTrigger,
};
use crate::interface::InterfaceError;
use crate::text::{decimal, decimal_text, join2, join3};

verus! {

/// Connect is tried this many times in one attempt.
pub const CONNECT_TRIES: u8 = 3;

/// The wait between two connect tries.
pub const CONNECT_SETTLE: u128 = 2_000_000_000;

/// Any other platform operation may take this long.
pub const BLE_OPERATION_TIMEOUT: u128 = 10_000_000_000;

/// The wait through the disconnect by which an RNode confirms a fresh bond.
pub const RNODE_POST_BOND_SETTLE: u128 = 2_600_000_000;

/// The pause behind each request that configures the radio.
pub const BLE_CONTROL_STAGE_SETTLE: u128 = 150_000_000;

/// The pause behind the last of them.
pub const BLE_POST_INIT_SETTLE: u128 = 1_000_000_000;

/// A characteristic value fits this many bytes under the mandatory ATT MTU.
pub const BLE_DEFAULT_ATT_WRITE_PAYLOAD: usize = 20;

/// A characteristic value fits this many bytes under the RNode's ATT MTU of 247.
pub const BLE_RNODE_ATT_WRITE_PAYLOAD: usize = 244;

/// The Bluetooth stack that the driver runs on.
#[derive(Clone, Copy, Debug, PartialEq, Eq, Structural)]
pub enum BlePlatform {
    /// CoreBluetooth, on iOS and macOS.
    Apple,
    Windows,
    Android,
    Linux,
}

/// Whether a characteristic write waits for the peer's response.
#[derive(Clone, Copy, Debug, PartialEq, Eq, Structural)]
pub enum BleWriteType {
    WithResponse,
    WithoutResponse,
}

/// The largest piece of one characteristic write.
pub open spec fn chunk_size(platform: BlePlatform) -> usize {
    if platform is Apple {
        BLE_DEFAULT_ATT_WRITE_PAYLOAD
    } else {
        BLE_RNODE_ATT_WRITE_PAYLOAD
    }
}

/// The largest piece of one characteristic write. CoreBluetooth does not tell the
/// negotiated limit, so only the guaranteed one is used there.
pub fn ble_write_chunk_size(platform: BlePlatform) -> (size: usize)
    ensures
        size == chunk_size(platform),
{
    match platform {
        BlePlatform::Apple => BLE_DEFAULT_ATT_WRITE_PAYLOAD,
        _ => BLE_RNODE_ATT_WRITE_PAYLOAD,
    }
}

/// How a piece is written.
pub open spec fn write_type(platform: BlePlatform) -> BleWriteType {
    if platform is Apple {
        BleWriteType::WithResponse
    } else {
        BleWriteType::WithoutResponse
    }
}

/// How a piece is written. On CoreBluetooth only a response tells that the value
/// was accepted.
pub fn ble_write_type(platform: BlePlatform) -> (kind: BleWriteType)
    ensures
        kind == write_type(platform),
{
    match platform {
        BlePlatform::Apple => BleWriteType::WithResponse,
        _ => BleWriteType::WithoutResponse,
    }
}

/// The services that a scan asks for.
pub open spec fn scanned_services(platform: BlePlatform) -> Seq<u128> {
    if platform is Apple {
        seq![crate::ble_rnode::target::NUS_SERVICE_UUID]
    } else {
        Seq::<u128>::empty()
    }
}

/// The services that a scan asks for: CoreBluetooth needs them named to scan in
/// the background, other stacks list everything.
pub fn ble_scan_filter(platform: BlePlatform) -> (services: Vec<u128>)
    ensures
        services@ == scanned_services(platform),
{
    let mut services: Vec<u128> = Vec::new();
    match platform {
        BlePlatform::Apple => {
            services.push(crate::ble_rnode::target::NUS_SERVICE_UUID);
            assert(services@ =~= seq![crate::ble_rnode::target::NUS_SERVICE_UUID]);
        },
        _ => {},
    }
    services
}

/// The time to let pass before the connection.
pub open spec fn settle_of_bond(fresh: bool) -> Option<u128> {
    if fresh {
        Some(RNODE_POST_BOND_SETTLE)
    } else {
        None::<u128>
    }
}

/// The time to let pass before the connection: an RNode confirms a fresh bond by a
/// disconnect, an old one by nothing.
pub fn bond_settle(fresh: bool) -> (settle: Option<u128>)
    ensures
        settle == settle_of_bond(fresh),
{
    if fresh {
        Some(RNODE_POST_BOND_SETTLE)
    } else {
        None
    }
}

/// The connected device has both characteristics of an RNode.
pub open spec fn is_rnode_link(rx: bool, tx: Option<CharacteristicProperties>) -> bool {
    rx && tx is Some
}

/// Tells whether the name of a connected device is learnt: only that of an RNode, which
/// has both characteristics.
pub fn learns_name(rx: bool, tx: Option<CharacteristicProperties>) -> (learns: bool)
    ensures
        learns == is_rnode_link(rx, tx),
{
    rx && tx.is_some()
}

/// A device is recognised again by its name on this platform.
pub open spec fn counts_stable_name(platform: BlePlatform) -> bool {
    platform is Apple
}

/// The name by which an earlier generation may be recognised again. Only
/// CoreBluetooth replaces a peripheral's identifier behind a bond, so that only there
/// the name counts beside the configured address.
pub fn generation_selector<'a>(platform: BlePlatform, stable_name: Option<&'a str>) -> (name:
    Option<&'a str>)
    ensures
        name == (if counts_stable_name(platform) {
            stable_name
        } else {
            None
        }),
{
    match platform {
        BlePlatform::Apple => stable_name,
        _ => None,
    }
}

/// Whether the Android Bluetooth library has been given its Java virtual machine.
#[derive(Clone, Copy, Debug, PartialEq, Eq, Structural)]
pub struct BtleplugInitialization {
    pub initialized: bool,
}

/// Records that the Android Bluetooth library is ready for use.
pub fn mark_btleplug_initialized(state: &mut BtleplugInitialization)
    ensures
        final(state).initialized,
{
    state.initialized = true;
}

/// Tells whether the Android Bluetooth library is ready for use.
pub fn is_btleplug_initialized(state: &BtleplugInitialization) -> (initialized: bool)
    ensures
        initialized == state.initialized,
{
    state.initialized
}

/// The platform's Bluetooth library may be called.
pub open spec fn adapter_usable(platform: BlePlatform, initialized: bool) -> bool {
    platform is Android ==> initialized
}

/// Refuses to touch an Android Bluetooth library that is not ready: every call
/// into it would abort the process.
pub fn admit_adapter_use(
    platform: BlePlatform,
    state: &BtleplugInitialization,
) -> (admitted: Result<(), InterfaceError>)
    ensures
        admitted is Ok <==> adapter_usable(platform, state.initialized),
        admitted is Err ==> admitted->Err_0.detail()
            == "BLE not initialized on Android — grant Bluetooth permissions and restart"@,
{
    match platform {
        BlePlatform::Android => if !is_btleplug_initialized(state) {
            Err(
                InterfaceError::SendFailed(
                    "BLE not initialized on Android — grant Bluetooth permissions and restart".to_owned(),
                ),
            )
        } else {
            Ok(())
        },
        _ => Ok(()),
    }
}

/// The position of the adapter that is used: the first one.
pub fn choose_adapter(adapters: usize) -> (chosen: Result<usize, InterfaceError>)
    ensures
        adapters > 0 ==> chosen == Ok::<usize, InterfaceError>(0),
        adapters == 0 ==> chosen is Err && chosen->Err_0.detail() == "No BLE adapter found"@,
{
    if adapters == 0 {
        Err(InterfaceError::SendFailed("No BLE adapter found".to_owned()))
    } else {
        Ok(0)
    }
}

/// The error of a bounded platform operation: its own words, or none where it ran
/// out of time.
pub fn bounded_operation_error(operation: &str, failure: Option<&str>) -> (error: InterfaceError)
    ensures
        error.detail() == (match failure {
            Some(words) => "BLE "@ + operation@ + ": "@ + words@,
            None => "BLE "@ + operation@ + " timed out"@,
        }),
{
    match failure {
        Some(words) => {
            let head = join3("BLE ", operation, ": ");
            InterfaceError::SendFailed(join2(head.as_str(), words))
        },
        None => InterfaceError::SendFailed(join3("BLE ", operation, " timed out")),
    }
}

/// Where a connection attempt stands.
#[derive(Debug)]
pub enum ConnectStep {
    /// Ask the platform to connect.
    Connect { attempt: u8 },
    /// Wait a moment, then connect again.
    Settle { attempt: u8 },
    /// Ask the platform whether the link is up.
    CheckConnected,
    Discover,
    /// Look for the characteristics.
    Inspect,
    /// Read the encrypted TX value.
    PairingRead,
    /// Subscribe to TX under this stage's deadline.
    Subscribe { stage: BleOperationStage },
    Connected,
    Failed(InterfaceError),
}

/// What happened to the step that was under way. An operation that succeeded has
/// no exit.
#[derive(Debug)]
pub enum ConnectEvent {
    ConnectFinished(Option<BleGenerationExit>),
    Settled,
    ConnectedChecked(Result<bool, BleGenerationExit>),
    DiscoveryFinished(Option<BleGenerationExit>),
    CharacteristicsFound { rx: bool, tx: Option<CharacteristicProperties> },
    PairingReadFinished(Option<BleGenerationExit>),
    SubscribeFinished(Option<BleGenerationExit>),
}

/// A connection attempt.
#[derive(Debug)]
pub struct ConnectAttempt {
    pub platform: BlePlatform,
    pub step: ConnectStep,
    /// What ended the last connect try.
    pub last_error: String,
}

/// `step` is a failure that says `words`.
pub open spec fn fails_with(step: ConnectStep, words: Seq<char>) -> bool {
    step is Failed && step->Failed_0.detail() == words
}

/// No later connect try is made once the driver is told to stop or loses sight of
/// the adapter.
pub open spec fn ends_connect_tries(exit: BleGenerationExit) -> bool {
    exit is StopRequested || exit is EventStreamEnded
}

/// The pairing trigger on a platform: Linux bonds before it connects.
pub open spec fn platform_trigger(
    platform: BlePlatform,
    properties: CharacteristicProperties,
) -> Option<DesktopPairingTrigger> {
    if platform is Linux {
        None
    } else {
        Some(pairing_trigger(properties, platform is Apple))
    }
}

/// The step that a connect try leads to.
pub open spec fn after_connect(
    attempt: u8,
    exit: Option<BleGenerationExit>,
    step: ConnectStep,
) -> bool {
    match exit {
        None => step is CheckConnected,
        Some(exit) => if ends_connect_tries(exit) {
            fails_with(step, exit.words())
        } else if attempt < CONNECT_TRIES {
            step == (ConnectStep::Settle { attempt: (attempt + 1) as u8 })
        } else {
            step is CheckConnected
        },
    }
}

/// The step that an operation leads to, which fails in its own words.
pub open spec fn after_operation(
    exit: Option<BleGenerationExit>,
    next: ConnectStep,
    step: ConnectStep,
) -> bool {
    match exit {
        None => step == next,
        Some(exit) => fails_with(step, exit.words()),
    }
}

/// The step that the discovered characteristics lead to.
pub open spec fn after_inspection(
    platform: BlePlatform,
    rx: bool,
    tx: Option<CharacteristicProperties>,
    step: ConnectStep,
) -> bool {
    if !rx {
        fails_with(step, "NUS RX characteristic not found. Is this an RNode?"@)
    } else {
        match tx {
            None => fails_with(step, "NUS TX characteristic not found. Is this an RNode?"@),
            Some(properties) => match platform_trigger(platform, properties) {
                Some(DesktopPairingTrigger::EncryptedRead) => step is PairingRead,
                Some(DesktopPairingTrigger::SecuredSubscribe) => step == (ConnectStep::Subscribe {
                    stage: BleOperationStage::PairingSubscribe,
                }),
                None => step == (ConnectStep::Subscribe { stage: BleOperationStage::Subscribe }),
            },
        }
    }
}

impl ConnectAttempt {
    /// An attempt whose target has been resolved.
    pub fn new(platform: BlePlatform) -> (attempt: Self)
        ensures
            attempt.platform == platform,
            attempt.step == (ConnectStep::Connect { attempt: 1 }),
            attempt.last_error@ == Seq::<char>::empty(),
    {
        ConnectAttempt {
            platform,
            step: ConnectStep::Connect { attempt: 1 },
            last_error: String::new(),
        }
    }

    /// The event answers the step that is under way.
    pub open spec fn expects(self, event: ConnectEvent) -> bool {
        match event {
            ConnectEvent::ConnectFinished(_) => self.step is Connect,
            ConnectEvent::Settled => self.step is Settle,
            ConnectEvent::ConnectedChecked(_) => self.step is CheckConnected,
            ConnectEvent::DiscoveryFinished(_) => self.step is Discover,
            ConnectEvent::CharacteristicsFound { .. } => self.step is Inspect,
            ConnectEvent::PairingReadFinished(_) => self.step is PairingRead,
            ConnectEvent::SubscribeFinished(_) => self.step is Subscribe,
        }
    }

    /// `next` is the step that an expected event leads to.
    pub open spec fn leads_to(self, event: ConnectEvent, next: ConnectStep) -> bool {
        match event {
            ConnectEvent::ConnectFinished(exit) => after_connect(
                self.step->Connect_attempt,
                exit,
                next,
            ),
            ConnectEvent::Settled => next == (ConnectStep::Connect {
                attempt: self.step->Settle_attempt,
            }),
            ConnectEvent::ConnectedChecked(checked) => match checked {
                Ok(true) => next is Discover,
                Ok(false) => fails_with(
                    next,
                    "BLE connect failed after 3 attempts: "@ + self.last_error@,
                ),
                Err(exit) => fails_with(next, exit.words()),
            },
            ConnectEvent::DiscoveryFinished(exit) => after_operation(
                exit,
                ConnectStep::Inspect,
                next,
            ),
            ConnectEvent::CharacteristicsFound { rx, tx } => after_inspection(
                self.platform,
                rx,
                tx,
                next,
            ),
            ConnectEvent::PairingReadFinished(exit) => match exit {
                None => next == (ConnectStep::Subscribe { stage: BleOperationStage::Subscribe }),
                Some(exit) => fails_with(next, pairing_read_failure(exit)),
            },
            ConnectEvent::SubscribeFinished(exit) => match exit {
                None => next is Connected,
                Some(exit) => fails_with(next, subscribe_failure(exit)),
            },
        }
    }

    /// Moves the attempt on. An event that does not answer the step under way is
    /// ignored.
    pub fn advance(&mut self, event: ConnectEvent)
        ensures
            final(self).platform == old(self).platform,
            !old(self).expects(event) ==> *final(self) == *old(self),
            old(self).expects(event) ==> old(self).leads_to(event, final(self).step),
            event is ConnectFinished && old(self).expects(event) && event->ConnectFinished_0
                is Some ==> final(self).last_error@ == event->ConnectFinished_0->0.words(),
            !(event is ConnectFinished && event->ConnectFinished_0 is Some) ==> final(self).last_error
                == old(self).last_error,
    {
        match event {
            ConnectEvent::ConnectFinished(exit) => {
                if let ConnectStep::Connect { attempt } = &self.step {
                    let attempt: u8 = *attempt;
                    match exit {
                        None => {
                            self.step = ConnectStep::CheckConnected;
                        },
                        Some(exit) => {
                            self.last_error = exit.message();
                            let over = match exit {
                                BleGenerationExit::StopRequested { .. } => true,
                                BleGenerationExit::EventStreamEnded { .. } => true,
                                _ => false,
                            };
                            self.step = if over {
                                ConnectStep::Failed(InterfaceError::SendFailed(exit.message()))
                            } else if attempt < CONNECT_TRIES {
                                ConnectStep::Settle { attempt: attempt + 1 }
                            } else {
                                ConnectStep::CheckConnected
                            };
                        },
                    }
                }
            },
            ConnectEvent::Settled => {
                if let ConnectStep::Settle { attempt } = &self.step {
                    let attempt: u8 = *attempt;
                    self.step = ConnectStep::Connect { attempt };
                }
            },
            ConnectEvent::ConnectedChecked(checked) => {
                if let ConnectStep::CheckConnected = &self.step {
                    self.step = match checked {
                        Ok(true) => ConnectStep::Discover,
                        Ok(false) => ConnectStep::Failed(
                            InterfaceError::SendFailed(
                                join2(
                                    "BLE connect failed after 3 attempts: ",
                                    self.last_error.as_str(),
                                ),
                            ),
                        ),
                        Err(exit) => ConnectStep::Failed(
                            InterfaceError::SendFailed(exit.message()),
                        ),
                    };
                }
            },
            ConnectEvent::DiscoveryFinished(exit) => {
                if let ConnectStep::Discover = &self.step {
                    self.step = match exit {
                        None => ConnectStep::Inspect,
                        Some(exit) => ConnectStep::Failed(
                            InterfaceError::SendFailed(exit.message()),
                        ),
                    };
                }
            },
            ConnectEvent::CharacteristicsFound { rx, tx } => {
                if let ConnectStep::Inspect = &self.step {
                    self.step = inspect_characteristics(self.platform, rx, tx);
                }
            },
            ConnectEvent::PairingReadFinished(exit) => {
                if let ConnectStep::PairingRead = &self.step {
                    self.step = match exit {
                        None => ConnectStep::Subscribe { stage: BleOperationStage::Subscribe },
                        Some(exit) => ConnectStep::Failed(map_pairing_read_error(&exit)),
                    };
                }
            },
            ConnectEvent::SubscribeFinished(exit) => {
                if let ConnectStep::Subscribe { .. } = &self.step {
                    self.step = match exit {
                        None => ConnectStep::Connected,
                        Some(exit) => ConnectStep::Failed(map_subscribe_generation_error(&exit)),
                    };
                }
            },
        }
    }
}

fn inspect_characteristics(
    platform: BlePlatform,
    rx: bool,
    tx: Option<CharacteristicProperties>,
) -> (step: ConnectStep)
    ensures
        after_inspection(platform, rx, tx, step),
{
    if !rx {
        return ConnectStep::Failed(
            InterfaceError::SendFailed(
                "NUS RX characteristic not found. Is this an RNode?".to_owned(),
            ),
        );
    }
    match tx {
        None => ConnectStep::Failed(
            InterfaceError::SendFailed(
                "NUS TX characteristic not found. Is this an RNode?".to_owned(),
            ),
        ),
        Some(properties) => {
            let trigger = match platform {
                BlePlatform::Linux => None,
                BlePlatform::Apple => Some(
                    desktop_pairing_trigger_for_properties(properties, true),
                ),
                _ => Some(desktop_pairing_trigger_for_properties(properties, false)),
            };
            match trigger {
                Some(DesktopPairingTrigger::EncryptedRead) => ConnectStep::PairingRead,
                _ => ConnectStep::Subscribe { stage: subscribe_stage(trigger) },
            }
        },
    }
}

/// A characteristic that offers notifications only is never read on CoreBluetooth.
pub proof fn notification_only_tx_is_never_read(
    attempt: ConnectAttempt,
    properties: CharacteristicProperties,
    next: ConnectStep,
)
    requires
        attempt.platform is Apple,
        properties.notify && !properties.read,
        attempt.leads_to(
            ConnectEvent::CharacteristicsFound { rx: true, tx: Some(properties) },
            next,
        ),
    ensures
        next == (ConnectStep::Subscribe { stage: BleOperationStage::PairingSubscribe }),
{
}

/// How many pieces of at most `mtu` bytes `len` bytes make.
pub open spec fn chunk_count(len: nat, mtu: nat) -> nat {
    (len + mtu - 1) as nat / mtu
}

/// The pieces behind a vector of executable ones.
pub open spec fn chunks_view(chunks: Seq<Vec<u8>>) -> Seq<Seq<u8>> {
    chunks.map_values(|chunk: Vec<u8>| chunk@)
}

/// The piece at `index`.
pub open spec fn chunk_of(data: Seq<u8>, mtu: nat, index: nat) -> Seq<u8> {
    let from = index * mtu;
    let to = if from + mtu <= data.len() {
        from + mtu
    } else {
        data.len()
    };
    data.subrange(from as int, to as int)
}

/// Cuts a write into pieces that each fit one characteristic value: all but the
/// last are full, and one behind the other they are the data.
pub fn write_chunks(data: &[u8], mtu: usize) -> (chunks: Result<Vec<Vec<u8>>, InterfaceError>)
    ensures
        mtu == 0 ==> chunks is Err && chunks->Err_0.detail()
            == "BLE write chunk size cannot be zero"@,
        mtu > 0 ==> chunks is Ok && {
            let cut = chunks->Ok_0@;
            &&& cut.len() == chunk_count(data@.len(), mtu as nat)
            &&& forall|i: int|
                0 <= i < cut.len() ==> (#[trigger] cut[i])@ == chunk_of(
                    data@,
                    mtu as nat,
                    i as nat,
                )
            &&& crate::rnode::concatenated(chunks_view(cut)) == data@
        },
{
    if mtu == 0 {
        return Err(InterfaceError::SendFailed("BLE write chunk size cannot be zero".to_owned()));
    }
    let mut chunks: Vec<Vec<u8>> = Vec::new();
    let mut from: usize = 0;
    proof {
        assert(chunks_view(chunks@) =~= Seq::<Seq<u8>>::empty());
        assert(data@.subrange(0, 0) =~= Seq::<u8>::empty());
        assert(0 == 0 * mtu) by (nonlinear_arith);
        if data@.len() == 0 {
            assert((mtu - 1) as nat / mtu as nat == 0) by (nonlinear_arith)
                requires
                    mtu > 0,
            ;
        }
    }
    while from < data.len()
        invariant
            mtu > 0,
            from <= data@.len(),
            from < data@.len() ==> from == chunks@.len() * mtu,
            from == data@.len() ==> chunks@.len() == chunk_count(data@.len(), mtu as nat),
            forall|i: int|
                0 <= i < chunks@.len() ==> (#[trigger] chunks@[i])@ == chunk_of(
                    data@,
                    mtu as nat,
                    i as nat,
                ),
            crate::rnode::concatenated(chunks_view(chunks@)) == data@.subrange(0, from as int),
        decreases data@.len() - from,
    {
        let left: usize = data.len() - from;
        let to: usize = if left < mtu {
            data.len()
        } else {
            from + mtu
        };
        let chunk = vstd::slice::slice_to_vec(vstd::slice::slice_subrange(data, from, to));
        let ghost before = chunks@;
        chunks.push(chunk);
        proof {
            let count = before.len() as int;
            assert(count * mtu + mtu == (count + 1) * mtu) by (nonlinear_arith);
            assert(chunks@[count]@ =~= chunk_of(data@, mtu as nat, count as nat));
            assert(chunks_view(chunks@).drop_last() =~= chunks_view(before));
            assert(data@.subrange(0, to as int) =~= data@.subrange(0, from as int) + data@.subrange(
                from as int,
                to as int,
            ));
            if to == data@.len() {
                lemma_last_chunk(data@.len() as int, mtu as int, count);
            }
        }
        from = to;
    }
    proof {
        assert(data@.subrange(0, from as int) =~= data@);
    }
    Ok(chunks)
}

proof fn lemma_last_chunk(len: int, mtu: int, count: int)
    requires
        mtu > 0,
        count >= 0,
        count * mtu < len <= count * mtu + mtu,
    ensures
        count + 1 == (len + mtu - 1) / mtu,
{
    assert(count + 1 == (len + mtu - 1) / mtu) by (nonlinear_arith)
        requires
            mtu > 0,
            count >= 0,
            count * mtu < len <= count * mtu + mtu,
    ;
}

/// The error of one piece of a generation's write.
pub fn chunk_write_error(
    generation: BleGenerationId,
    stage: BleOperationStage,
    chunk_index: usize,
    chunk_count: usize,
    exit: &BleGenerationExit,
) -> (error: InterfaceError)
    requires
        chunk_index < chunk_count,
    ensures
        error.detail() == "BLE generation "@ + decimal_text(generation.number() as nat) + " "@
            + stage.name() + " chunk "@ + decimal_text((chunk_index + 1) as nat) + "/"@
            + decimal_text(chunk_count as nat) + ": "@ + exit.words(),
{
    let text = join2("BLE generation ", decimal(generation.get()).as_str());
    let text = join3(text.as_str(), " ", stage.label());
    let text = join3(text.as_str(), " chunk ", decimal((chunk_index + 1) as u64).as_str());
    let text = join3(text.as_str(), "/", decimal(chunk_count as u64).as_str());
    let text = join3(text.as_str(), ": ", exit.message().as_str());
    InterfaceError::SendFailed(text)
}

/// On CoreBluetooth a write goes in pieces of 20 bytes, each with a response, scans ask for the
/// Nordic UART Service, and a device may be recognised by its name. Elsewhere pieces have up to
/// 244 bytes and no response, scans ask for everything, and names do not count.
pub proof fn platforms_differ_in_their_writes_and_scans(platform: BlePlatform)
    ensures
        platform is Apple ==> {
            &&& chunk_size(platform) == 20
            &&& write_type(platform) is WithResponse
            &&& scanned_services(platform) == seq![0x6E400001_B5A3_F393_E0A9_E50E24DCCA9Eu128]
            &&& counts_stable_name(platform)
        },
        !(platform is Apple) ==> {
            &&& chunk_size(platform) == 244
            &&& write_type(platform) is WithoutResponse
            &&& scanned_services(platform).len() == 0
            &&& !counts_stable_name(platform)
        },
{
}

/// A fresh bond is waited through for 2.6 seconds, an old one not at all; the name of a device
/// is learnt only if it has both characteristics; and Android's Bluetooth library is used only
/// once it is ready.
pub proof fn bond_and_adapter_are_respected(
    rx: bool,
    tx: Option<CharacteristicProperties>,
    platform: BlePlatform,
    initialized: bool,
)
    ensures
        settle_of_bond(true) == Some(2_600_000_000u128),
        settle_of_bond(false) is None,
        is_rnode_link(rx, tx) <==> rx && tx is Some,
        !adapter_usable(platform, initialized) <==> platform is Android && !initialized,
{
}

/// Connecting is tried three times. A try that fails is followed by another, numbered on; the
/// third is followed by a look whether the link is up all the same, as a try that succeeds is.
/// A stop, or the end of the adapter's events, ends the attempt at once.
pub proof fn connect_is_tried_three_times(
    tried: ConnectAttempt,
    attempt: u8,
    exit: Option<BleGenerationExit>,
    next: ConnectStep,
)
    requires
        tried.step == (ConnectStep::Connect { attempt }),
        tried.leads_to(ConnectEvent::ConnectFinished(exit), next),
    ensures
        exit is None ==> next is CheckConnected,
        exit is Some && (exit->0 is StopRequested || exit->0 is EventStreamEnded) ==> next
            is Failed && next->Failed_0.detail() == exit->0.words(),
        exit is Some && !(exit->0 is StopRequested) && !(exit->0 is EventStreamEnded) && attempt < 3
            ==> next == (ConnectStep::Settle { attempt: (attempt + 1) as u8 }),
        exit is Some && !(exit->0 is StopRequested) && !(exit->0 is EventStreamEnded) && attempt
            >= 3 ==> next is CheckConnected,
{
}

/// A link that is up leads through discovery, the look at the characteristics and the
/// subscription to a connected attempt; whatever fails on the way fails the attempt.
pub proof fn attempt_goes_on_or_fails(
    attempt: ConnectAttempt,
    event: ConnectEvent,
    next: ConnectStep,
)
    requires
        attempt.expects(event),
        attempt.leads_to(event, next),
    ensures
        event is Settled ==> next == (ConnectStep::Connect {
            attempt: attempt.step->Settle_attempt,
        }),
        event is ConnectedChecked ==> (next is Discover <==> event->ConnectedChecked_0 == Ok::<
            bool,
            BleGenerationExit,
        >(true)) && (next is Discover || next is Failed),
        event is DiscoveryFinished ==> (next is Inspect <==> event->DiscoveryFinished_0 is None)
            && (next is Inspect || next is Failed),
        event is PairingReadFinished ==> (next == (ConnectStep::Subscribe {
            stage: BleOperationStage::Subscribe,
        }) <==> event->PairingReadFinished_0 is None) && (next is Subscribe || next is Failed),
        event is SubscribeFinished ==> (next is Connected <==> event->SubscribeFinished_0 is None)
            && (next is Connected || next is Failed),
        next is Connected ==> event is SubscribeFinished,
        attempt.step is Connect <==> event is ConnectFinished,
        attempt.step is Inspect <==> event is CharacteristicsFound,
{
}

/// A device without either characteristic is no RNode and fails the attempt. On Linux, where
/// the bond comes first, the notifications are subscribed to at once. Elsewhere the encrypted
/// value is read first to bring the bond about, unless CoreBluetooth is offered notifications
/// alone, and then the subscription does it.
pub proof fn characteristics_decide_how_to_bond(
    attempt: ConnectAttempt,
    rx: bool,
    tx: Option<CharacteristicProperties>,
    next: ConnectStep,
)
    requires
        attempt.leads_to(ConnectEvent::CharacteristicsFound { rx, tx }, next),
    ensures
        !rx || tx is None ==> next is Failed,
        rx && tx is Some && attempt.platform is Linux ==> next == (ConnectStep::Subscribe {
            stage: BleOperationStage::Subscribe,
        }),
        rx && tx is Some && attempt.platform is Apple && tx->0.notify && !tx->0.read ==> next == (
        ConnectStep::Subscribe { stage: BleOperationStage::PairingSubscribe }),
        rx && tx is Some && !(attempt.platform is Linux) && !(attempt.platform is Apple
            && tx->0.notify && !tx->0.read) ==> next is PairingRead,
{
}

/// A write is cut into as many pieces as are needed: each fits, all but the last are full, and
/// none is empty.
pub proof fn pieces_fit_and_fill(data: Seq<u8>, mtu: nat, index: nat)
    requires
        mtu > 0,
        index < chunk_count(data.len(), mtu),
    ensures
        0 < chunk_of(data, mtu, index).len() <= mtu,
        index + 1 < chunk_count(data.len(), mtu) ==> chunk_of(data, mtu, index).len() == mtu,
        forall|i: int|
            0 <= i < chunk_of(data, mtu, index).len() ==> #[trigger] chunk_of(data, mtu, index)[i]
                == data[index * mtu + i],
{
    let len = data.len() as int;
    let size = mtu as int;
    let count = (len + size - 1) / size;
    vstd::arithmetic::div_mod::lemma_fundamental_div_mod(len + size - 1, size);
    vstd::arithmetic::div_mod::lemma_mod_bound(len + size - 1, size);
    assert(chunk_count(data.len(), mtu) == count);
    assert(index * size < len && (index + 1 < count ==> index * size + size <= len) && index * size
        >= 0) by (nonlinear_arith)
        requires
            size > 0,
            0 <= index < count,
            len + size - 1 == size * count + (len + size - 1) % size,
            0 <= (len + size - 1) % size < size,
    ;
}

/// The waits of an attempt: two seconds between two connect tries, 150 milliseconds behind each
/// request that configures the radio and a second behind the last.
pub proof fn waits_of_an_attempt()
    ensures
        CONNECT_SETTLE == 2_000_000_000,
        BLE_OPERATION_TIMEOUT == 10_000_000_000,
        BLE_CONTROL_STAGE_SETTLE == 150_000_000,
        BLE_POST_INIT_SETTLE == 1_000_000_000,
{
}

} // verus!
