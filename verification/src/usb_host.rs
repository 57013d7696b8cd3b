//! USB host seam contracts: device identities, ingress events and queues.
use vstd::prelude::*;
use std::collections::VecDeque;

verus! {

/// Identifies a USB device within the platform layer.
#[derive(Debug, Clone, Copy, PartialEq, Eq, Structural)]
pub struct UsbDeviceId(u8);

impl UsbDeviceId {
    /// The raw platform-local identifier.
    pub closed spec fn raw_value(self) -> u8 {
        self.0
    }

    /// Two identifiers are equal exactly when their raw values are.
    pub proof fn lemma_raw_value_determines_id(a: Self, b: Self)
        ensures
            (a == b) == (a.raw_value() == b.raw_value()),
    {
    }

    /// Creates a new platform-local USB device identifier.
    pub fn new(raw: u8) -> (r: Self)
        ensures
            r.raw_value() == raw,
    {
        UsbDeviceId(raw)
    }

    /// Returns the raw platform-local USB device identifier value.
    pub fn raw(self) -> (r: u8)
        ensures
            r == self.raw_value(),
    {
        self.0
    }
}

/// Minimal metadata about an attached USB device.
#[derive(Debug, Clone, Copy, PartialEq, Eq, Structural)]
pub struct DeviceMeta {
    /// The platform-local USB device identifier.
    pub device_id: UsbDeviceId,
    /// The USB vendor identifier.
    pub vendor_id: u16,
    /// The USB product identifier.
    pub product_id: u16,
}

/// USB-side ingress events exposed by the platform seam.
#[derive(Debug, Clone, Copy, PartialEq, Eq)]
pub enum UsbEvent {
    /// A USB device has been attached.
    DeviceAttached(DeviceMeta),
    /// A report descriptor chunk has been received.
    ReportDescriptorReceived {
        /// The source device identifier.
        device_id: UsbDeviceId,
        /// The fixed descriptor buffer.
        bytes: [u8; 64],
        /// The number of valid bytes in `bytes`.
        len: usize,
    },
    /// An input report has been received.
    InputReportReceived {
        /// The source device identifier.
        device_id: UsbDeviceId,
        /// The HID report identifier.
        report_id: u8,
        /// The fixed report buffer.
        bytes: [u8; 64],
        /// The number of valid bytes in `bytes`.
        len: usize,
    },
    /// A USB device has been detached.
    DeviceDetached(UsbDeviceId),
    /// Internal signal that an input transfer has stopped for a device.
    InputTransferStopped(UsbDeviceId),
}

/// Poll-based USB ingress boundary.
///
/// An implementation describes its behaviour through `poll_effect`; by
/// default it promises nothing.
pub trait UsbIngress {
    /// Whether a poll may turn this source into `after` and return `event`.
    open spec fn poll_effect(&self, after: &Self, event: Option<UsbEvent>) -> bool {
        true
    }

    /// Returns the next available USB event, if any.
    fn poll_event(&mut self) -> (r: Option<UsbEvent>)
        ensures
            old(self).poll_effect(&*final(self), r),
    ;
}

/// A counter advanced by one, wrapping to zero past `usize::MAX`.
pub open spec fn next_count(count: usize) -> usize {
    if count == usize::MAX {
        0
    } else {
        (count + 1) as usize
    }
}

/// In-memory multi-slot USB ingress adapter for host-side use.
#[derive(Debug, Clone, PartialEq, Eq)]
pub struct QueuedUsbIngress {
    events: VecDeque<UsbEvent>,
    poll_calls: usize,
}

impl QueuedUsbIngress {
    /// The events still queued, oldest first.
    pub closed spec fn queued(&self) -> Seq<UsbEvent> {
        self.events@
    }

    /// How many polls have been made.
    pub closed spec fn polls(&self) -> usize {
        self.poll_calls
    }

    /// Creates an empty queued ingress adapter.
    pub fn new() -> (r: Self)
        ensures
            r.queued() == Seq::<UsbEvent>::empty(),
            r.polls() == 0,
    {
        QueuedUsbIngress { events: VecDeque::new(), poll_calls: 0 }
    }

    /// Creates an ingress adapter with one queued event.
    pub fn with_event(event: UsbEvent) -> (r: Self)
        ensures
            r.queued() == seq![event],
            r.polls() == 0,
    {
        let mut events = VecDeque::new();
        events.push_back(event);
        QueuedUsbIngress { events, poll_calls: 0 }
    }

    /// Queues an event to be returned.
    pub fn queue_event(&mut self, event: UsbEvent)
        ensures
            final(self).queued() == old(self).queued().push(event),
            final(self).polls() == old(self).polls(),
    {
        self.events.push_back(event);
    }

    /// Replaces the entire queue with a single event.
    pub fn set_event(&mut self, event: UsbEvent)
        ensures
            final(self).queued() == seq![event],
            final(self).polls() == old(self).polls(),
    {
        self.events.clear();
        self.events.push_back(event);
    }

    /// Returns how many times the ingress has been polled.
    pub fn poll_calls(&self) -> (r: usize)
        ensures
            r == self.polls(),
    {
        self.poll_calls
    }
}

impl Default for QueuedUsbIngress {
    fn default() -> (r: Self)
        ensures
            r.queued() == Seq::<UsbEvent>::empty(),
            r.polls() == 0,
    {
        Self::new()
    }
}

impl UsbIngress for QueuedUsbIngress {
    /// A poll hands out the oldest queued event (none when empty) and counts
    /// itself.
    open spec fn poll_effect(&self, after: &Self, event: Option<UsbEvent>) -> bool {
        &&& after.polls() == next_count(self.polls())
        &&& if self.queued().len() == 0 {
            event is None && after.queued() == self.queued()
        } else {
            event == Some(self.queued()[0]) && after.queued() == self.queued().drop_first()
        }
    }

    fn poll_event(&mut self) -> (r: Option<UsbEvent>) {
        self.poll_calls = if self.poll_calls == usize::MAX {
            0
        } else {
            self.poll_calls + 1
        };
        let r = self.events.pop_front();
        proof {
            if old(self).queued().len() != 0 {
                assert(self.queued() =~= old(self).queued().drop_first());
            }
        }
        r
    }
}

/// Events leave the queued ingress in the order they were queued: on an
/// empty queue, queueing `first` then `second` and polling twice hands out
/// `first`, then `second`, then nothing.
pub proof fn lemma_queued_ingress_fifo(
    q0: QueuedUsbIngress,
    q1: QueuedUsbIngress,
    q2: QueuedUsbIngress,
    q3: QueuedUsbIngress,
    q4: QueuedUsbIngress,
    q5: QueuedUsbIngress,
    first: UsbEvent,
    second: UsbEvent,
    e1: Option<UsbEvent>,
    e2: Option<UsbEvent>,
    e3: Option<UsbEvent>,
)
    requires
        q0.queued() == Seq::<UsbEvent>::empty(),
        q1.queued() == q0.queued().push(first),
        q2.queued() == q1.queued().push(second),
        q2.poll_effect(&q3, e1),
        q3.poll_effect(&q4, e2),
        q4.poll_effect(&q5, e3),
    ensures
        e1 == Some(first),
        e2 == Some(second),
        e3 is None,
        q5.queued() == Seq::<UsbEvent>::empty(),
{
    assert(q2.queued() =~= seq![first, second]);
    assert(q3.queued() =~= seq![second]);
    assert(q4.queued() =~= Seq::<UsbEvent>::empty());
}

/// Errors that can occur when using the USB host boundary.
#[derive(Debug, Clone, Copy, PartialEq, Eq, Structural)]
pub enum UsbHostError {
    /// The USB host transport is not ready.
    NotReady,
    /// Installing the USB host stack failed.
    Install,
    /// Registering a USB host client failed.
    ClientRegister,
    /// Obtaining device information failed.
    DeviceInfo,
    /// Obtaining a descriptor failed.
    Descriptor,
    /// A USB transfer failed.
    Transfer,
    /// A transport-level failure occurred.
    Transport,
}

/// Host stand-in for the ESP-IDF USB host ingress, which is unavailable
/// outside the embedded target.
pub struct EspUsbHostIngress;

impl EspUsbHostIngress {
    /// Off target the USB host stack is never ready.
    pub fn new_single_client() -> (r: Result<Self, UsbHostError>)
        ensures
            r matches Err(e) && e == UsbHostError::NotReady,
    {
        Err(UsbHostError::NotReady)
    }

    /// Off target there is no USB host stack to service.
    pub fn service_until_idle(&mut self) -> (r: Result<usize, UsbHostError>)
        ensures
            r == Err::<usize, UsbHostError>(UsbHostError::NotReady),
    {
        Err(UsbHostError::NotReady)
    }
}

impl UsbIngress for EspUsbHostIngress {
    open spec fn poll_effect(&self, after: &Self, event: Option<UsbEvent>) -> bool {
        event is None
    }

    fn poll_event(&mut self) -> (r: Option<UsbEvent>) {
        None
    }
}

/// Derives the HID report ID and length from a raw input report: the first
/// byte is taken as the report ID.
pub fn derive_report_id_and_len(bytes: &[u8]) -> (r: (u8, usize))
    ensures
        r == (if bytes@.len() == 0 {
            (0u8, 0usize)
        } else {
            (bytes@[0], bytes@.len() as usize)
        }),
{
    if bytes.len() == 0 {
        (0, 0)
    } else {
        (bytes[0], bytes.len())
    }
}

// ---------------------------------------------------------------------------
// Device-side decisions of the USB host backend
// ---------------------------------------------------------------------------
/// The interrupt IN endpoint of an interface.
#[derive(Debug, Clone, Copy, PartialEq, Eq, Structural)]
pub struct InterruptInEndpoint {
    /// The endpoint address, direction bit set.
    pub address: u8,
    /// The largest packet the endpoint sends.
    pub max_packet_size: u16,
}

/// What the first HID interface of a configuration offers.
#[derive(Debug, Clone, Copy, PartialEq, Eq, Structural)]
pub struct HidInterface {
    /// The interface number.
    pub interface_number: u8,
    /// The report descriptor length announced by the last HID class
    /// descriptor of the interface, if any.
    pub report_descriptor_len: Option<u16>,
    /// The last interrupt IN endpoint of the interface, if any.
    pub input_endpoint: Option<InterruptInEndpoint>,
}

/// The descriptor type code of an interface descriptor.
pub const INTERFACE_DESCRIPTOR_TYPE: u8 = 0x04;

/// The descriptor type code of an endpoint descriptor.
pub const ENDPOINT_DESCRIPTOR_TYPE: u8 = 0x05;

/// The descriptor type code of a HID class descriptor.
pub const HID_DESCRIPTOR_TYPE: u8 = 0x21;

/// The interface class code of HID.
pub const HID_INTERFACE_CLASS: u8 = 0x03;

/// The bytes of an endpoint descriptor at `sub` describe an interrupt IN
/// endpoint.
pub open spec fn is_interrupt_in(c: Seq<u8>, sub: int) -> bool {
    c[sub + 3] % 4 == 3 && c[sub + 2] >= 0x80
}

/// Scanning the descriptors of an interface from `sub`: the last HID class
/// descriptor and the last interrupt IN endpoint seen before the next
/// interface descriptor or the end. The scan stops at a descriptor cut off
/// by the end or of length zero.
pub open spec fn scan_interface(
    c: Seq<u8>,
    sub: int,
    number: u8,
    report_len: Option<u16>,
    endpoint: Option<InterruptInEndpoint>,
) -> HidInterface
    decreases c.len() + 256 - sub,
{
    let here = HidInterface {
        interface_number: number,
        report_descriptor_len: report_len,
        input_endpoint: endpoint,
    };
    if sub < 0 || sub + 1 >= c.len() || c[sub + 1] == INTERFACE_DESCRIPTOR_TYPE {
        here
    } else if c[sub + 1] == HID_DESCRIPTOR_TYPE {
        if sub + 8 >= c.len() {
            here
        } else {
            let len = Some((c[sub + 7] + 256 * c[sub + 8]) as u16);
            if c[sub] == 0 {
                HidInterface { report_descriptor_len: len, ..here }
            } else {
                scan_interface(c, sub + c[sub], number, len, endpoint)
            }
        }
    } else if c[sub + 1] == ENDPOINT_DESCRIPTOR_TYPE {
        if sub + 5 >= c.len() {
            here
        } else {
            let ep = if is_interrupt_in(c, sub) {
                Some(
                    InterruptInEndpoint {
                        address: c[sub + 2],
                        max_packet_size: (c[sub + 4] + 256 * c[sub + 5]) as u16,
                    },
                )
            } else {
                endpoint
            };
            if c[sub] == 0 {
                HidInterface { input_endpoint: ep, ..here }
            } else {
                scan_interface(c, sub + c[sub], number, report_len, ep)
            }
        }
    } else if c[sub] == 0 {
        here
    } else {
        scan_interface(c, sub + c[sub], number, report_len, endpoint)
    }
}

/// Walking the descriptors of configuration `c` from `offset` to the first
/// HID interface descriptor, which is then scanned. The walk stops, finding
/// nothing, at a descriptor cut off by the end or of length zero.
pub open spec fn find_hid_from(c: Seq<u8>, offset: int) -> Option<HidInterface>
    decreases c.len() + 256 - offset,
{
    if offset < 0 || offset + 1 >= c.len() {
        None
    } else if c[offset + 1] == INTERFACE_DESCRIPTOR_TYPE && offset + 5 >= c.len() {
        None
    } else if c[offset + 1] == INTERFACE_DESCRIPTOR_TYPE && c[offset + 5] == HID_INTERFACE_CLASS {
        Some(scan_interface(c, offset + c[offset], c[offset + 2], None, None))
    } else if c[offset] == 0 {
        None
    } else {
        find_hid_from(c, offset + c[offset])
    }
}

/// Finds the first HID interface of a configuration descriptor (the full
/// `wTotalLength` bytes), with the report descriptor length and the
/// interrupt IN endpoint that its own descriptors announce.
pub fn find_hid_interface(config: &[u8]) -> (r: Option<HidInterface>)
    ensures
        r == find_hid_from(config@, 0),
{
    let len = config.len();
    let mut offset: usize = 0;
    while offset < len
        invariant
            len == config@.len(),
            offset <= len,
            find_hid_from(config@, 0) == find_hid_from(config@, offset as int),
        decreases len - offset,
    {
        if len - offset <= 1 {
            assert(offset + 1 >= config@.len());
            assert(find_hid_from(config@, offset as int) == None::<HidInterface>);
            return None;
        }
        let b_length = config[offset];
        let kind = config[offset + 1];
        if kind == INTERFACE_DESCRIPTOR_TYPE {
            if len - offset <= 5 {
                return None;
            }
            if config[offset + 5] == HID_INTERFACE_CLASS {
                let number = config[offset + 2];
                let start = if b_length as usize > len - offset {
                    len
                } else {
                    offset + b_length as usize
                };
                proof {
                    if b_length as usize > len - offset {
                        assert(scan_interface(config@, offset + b_length, number, None, None)
                            == scan_interface(config@, len as int, number, None, None));
                    }
                }
                return Some(scan_hid_interface(config, start, number));
            }
        }
        if b_length == 0 {
            return None;
        }
        if b_length as usize >= len - offset {
            assert(find_hid_from(config@, offset + b_length) == None::<HidInterface>);
            return None;
        }
        offset = offset + b_length as usize;
    }
    None
}

fn scan_hid_interface(c: &[u8], start: usize, number: u8) -> (r: HidInterface)
    requires
        start <= c@.len(),
    ensures
        r == scan_interface(c@, start as int, number, None, None),
{
    let len = c.len();
    let mut sub = start;
    let mut report_len: Option<u16> = None;
    let mut endpoint: Option<InterruptInEndpoint> = None;
    let mut scanning = true;
    while scanning && sub < len
        invariant
            len == c@.len(),
            sub <= len,
            scanning ==> scan_interface(c@, start as int, number, None, None) == scan_interface(
                c@,
                sub as int,
                number,
                report_len,
                endpoint,
            ),
            !scanning ==> scan_interface(c@, start as int, number, None, None) == (HidInterface {
                interface_number: number,
                report_descriptor_len: report_len,
                input_endpoint: endpoint,
            }),
        decreases len - sub + if scanning {
            1int
        } else {
            0int
        },
    {
        let ghost before = scan_interface(c@, sub as int, number, report_len, endpoint);
        if len - sub <= 1 {
            scanning = false;
        } else {
            let b_length = c[sub];
            let kind = c[sub + 1];
            if kind == INTERFACE_DESCRIPTOR_TYPE {
                scanning = false;
            } else if kind == HID_DESCRIPTOR_TYPE && len - sub <= 8 {
                scanning = false;
            } else if kind == ENDPOINT_DESCRIPTOR_TYPE && len - sub <= 5 {
                scanning = false;
            } else {
                if kind == HID_DESCRIPTOR_TYPE {
                    report_len = Some(c[sub + 7] as u16 + 256 * c[sub + 8] as u16);
                } else if kind == ENDPOINT_DESCRIPTOR_TYPE {
                    if c[sub + 3] % 4 == 3 && c[sub + 2] >= 0x80 {
                        endpoint = Some(
                            InterruptInEndpoint {
                                address: c[sub + 2],
                                max_packet_size: c[sub + 4] as u16 + 256 * c[sub + 5] as u16,
                            },
                        );
                    }
                }
                if b_length == 0 {
                    scanning = false;
                } else if b_length as usize >= len - sub {
                    assert(scan_interface(c@, sub + b_length, number, report_len, endpoint) == (
                    HidInterface {
                        interface_number: number,
                        report_descriptor_len: report_len,
                        input_endpoint: endpoint,
                    }));
                    scanning = false;
                } else {
                    sub = sub + b_length as usize;
                }
            }
        }
    }
    HidInterface { interface_number: number, report_descriptor_len: report_len, input_endpoint: endpoint }
}

/// The eight-byte control setup packet that asks interface
/// `interface_number` for its HID report descriptor of `report_len` bytes:
/// standard device-to-host interface request GET_DESCRIPTOR, descriptor type
/// 0x22 index 0, little-endian fields.
pub fn report_descriptor_request(interface_number: u8, report_len: u16) -> (r: [u8; 8])
    ensures
        r@ == seq![
            0x81u8,
            0x06u8,
            0x00u8,
            0x22u8,
            interface_number,
            0x00u8,
            (report_len % 256) as u8,
            (report_len / 256) as u8,
        ],
{
    let r = [
        0x81,
        0x06,
        0x00,
        0x22,
        interface_number,
        0x00,
        (report_len % 256) as u8,
        (report_len / 256) as u8,
    ];
    assert(r@ =~= seq![
        0x81u8,
        0x06u8,
        0x00u8,
        0x22u8,
        interface_number,
        0x00u8,
        (report_len % 256) as u8,
        (report_len / 256) as u8,
    ]);
    r
}

/// The first `min(len, 64)` bytes of `data` from `from` on, zero-padded to 64.
pub open spec fn capped_payload(data: Seq<u8>, from: int) -> Seq<u8> {
    let n = if data.len() - from > 64 {
        64
    } else {
        data.len() - from
    };
    data.subrange(from, from + n) + Seq::new((64 - n) as nat, |i: int| 0u8)
}

fn copy_capped(data: &[u8], from: usize) -> (r: ([u8; 64], usize))
    requires
        from <= data@.len(),
    ensures
        r.1 == (if data@.len() - from > 64 {
            64
        } else {
            data@.len() - from
        }),
        r.0@ == capped_payload(data@, from as int),
{
    let n = if data.len() - from > 64 {
        64
    } else {
        data.len() - from
    };
    let mut out = [0u8; 64];
    let mut i: usize = 0;
    assert(from + n <= data@.len());
    let len = data.len();
    while i < n
        invariant
            n <= 64,
            len == data@.len(),
            from + n <= len,
            i <= n,
            out@.len() == 64,
            forall|k: int| 0 <= k < i ==> out@[k] == data@[from + k],
            forall|k: int| i <= k < 64 ==> out@[k] == 0,
        decreases n - i,
    {
        out[i] = data[from + i];
        i = i + 1;
    }
    assert(out@ =~= capped_payload(data@, from as int));
    (out, n)
}

/// The report descriptor bytes of a completed control transfer `data` (its
/// eight setup bytes first): at most 64 bytes after the setup, or none when
/// nothing followed the setup.
pub fn control_transfer_payload(data: &[u8]) -> (r: ([u8; 64], usize))
    ensures
        data@.len() > 8 ==> r.1 == (if data@.len() - 8 > 64 {
            64
        } else {
            data@.len() - 8
        }) && r.0@ == capped_payload(data@, 8),
        data@.len() <= 8 ==> r.1 == 0 && r.0@ == Seq::new(64, |i: int| 0u8),
{
    if data.len() > 8 {
        copy_capped(data, 8)
    } else {
        let out = [0u8; 64];
        assert(out@ =~= Seq::new(64, |i: int| 0u8));
        (out, 0)
    }
}

/// The report bytes of a completed interrupt transfer `data`: at most 64.
pub fn interrupt_transfer_payload(data: &[u8]) -> (r: ([u8; 64], usize))
    ensures
        r.1 == (if data@.len() > 64 {
            64
        } else {
            data@.len()
        }),
        r.0@ == capped_payload(data@, 0),
{
    copy_capped(data, 0)
}

/// How an input transfer ended.
#[derive(Debug, Clone, Copy, PartialEq, Eq, Structural)]
pub enum TransferStatus {
    /// The transfer completed.
    Completed,
    /// The transfer was cancelled, timed out or failed.
    Stopped,
}

/// What to do when an input transfer ends: the event to stage, if any, and
/// whether to resubmit the transfer (when not resubmitted, it is freed).
#[derive(Debug, Clone, Copy, PartialEq, Eq)]
pub struct InputTransferStep {
    /// The event to stage, if any.
    pub event: Option<UsbEvent>,
    /// Whether the transfer is resubmitted to keep polling.
    pub resubmit: bool,
}

/// Deciding on an ended input transfer of device `device_id` with received
/// bytes `data`: a completed transfer stages its report (report ID from the
/// first byte) when it carried bytes and is resubmitted; a stopped transfer
/// stages that input stopped. A failed resubmission stops input too.
pub fn input_transfer_step(device_id: UsbDeviceId, status: TransferStatus, data: &[u8]) -> (r:
    InputTransferStep)
    ensures
        match status {
            TransferStatus::Completed => {
                &&& r.resubmit
                &&& data@.len() == 0 ==> r.event is None
                &&& data@.len() > 0 ==> (r.event matches Some(
                    UsbEvent::InputReportReceived { device_id: id, report_id, bytes, len },
                ) && id == device_id && report_id == data@[0] && bytes@ == capped_payload(data@, 0)
                    && len == (if data@.len() > 64 {
                    64
                } else {
                    data@.len()
                }))
            },
            TransferStatus::Stopped => !r.resubmit && r.event == Some(
                UsbEvent::InputTransferStopped(device_id),
            ),
        },
{
    match status {
        TransferStatus::Completed => {
            if data.len() == 0 {
                return InputTransferStep { event: None, resubmit: true };
            }
            let (bytes, len) = interrupt_transfer_payload(data);
            let payload = vstd::slice::slice_subrange(bytes.as_slice(), 0, len);
            let (report_id, _) = derive_report_id_and_len(payload);
            InputTransferStep {
                event: Some(UsbEvent::InputReportReceived { device_id, report_id, bytes, len }),
                resubmit: true,
            }
        },
        TransferStatus::Stopped => InputTransferStep {
            event: Some(UsbEvent::InputTransferStopped(device_id)),
            resubmit: false,
        },
    }
}

/// A USB host client event, by kind, with the device address it names.
#[derive(Debug, Clone, Copy, PartialEq, Eq, Structural)]
pub enum ClientEvent {
    /// A new device appeared at an address.
    NewDevice(u8),
    /// The device at an address went away.
    DeviceGone(u8),
    /// Any other client event.
    Other,
}

/// The event staged for a client event: a new device is attached with
/// unknown vendor and product, a gone device is detached.
pub fn staged_client_event(event: ClientEvent) -> (r: Option<UsbEvent>)
    ensures
        match event {
            ClientEvent::NewDevice(address) => r matches Some(UsbEvent::DeviceAttached(meta))
                && meta.device_id.raw_value() == address && meta.vendor_id == 0 && meta.product_id
                == 0,
            ClientEvent::DeviceGone(address) => r matches Some(UsbEvent::DeviceDetached(id))
                && id.raw_value() == address,
            ClientEvent::Other => r is None,
        },
{
    match event {
        ClientEvent::NewDevice(address) => Some(
            UsbEvent::DeviceAttached(
                DeviceMeta { device_id: UsbDeviceId::new(address), vendor_id: 0, product_id: 0 },
            ),
        ),
        ClientEvent::DeviceGone(address) => Some(UsbEvent::DeviceDetached(UsbDeviceId::new(address))),
        ClientEvent::Other => None,
    }
}

/// The result of one USB host event-handling call.
#[derive(Debug, Clone, Copy, PartialEq, Eq, Structural)]
pub enum HostEventStatus {
    /// Events were handled.
    Handled,
    /// Nothing was pending.
    Timeout,
    /// The call failed.
    Failed,
}

/// The work one event-handling call counts: one when events were handled,
/// none on a timeout, and a transport error on failure.
pub fn host_event_work(status: HostEventStatus) -> (r: Result<usize, UsbHostError>)
    ensures
        r == match status {
            HostEventStatus::Handled => Ok::<usize, UsbHostError>(1),
            HostEventStatus::Timeout => Ok::<usize, UsbHostError>(0),
            HostEventStatus::Failed => Err::<usize, UsbHostError>(UsbHostError::Transport),
        },
{
    match status {
        HostEventStatus::Handled => Ok(1),
        HostEventStatus::Timeout => Ok(0),
        HostEventStatus::Failed => Err(UsbHostError::Transport),
    }
}

/// The most work units one service pass handles.
pub const SERVICE_WORK_BUDGET: usize = 20;

/// What servicing does with one staged event.
#[derive(Debug, Clone, Copy, PartialEq, Eq)]
pub enum StagedAction {
    /// Open the device, enrich the attach with its identity, and request its
    /// HID descriptor.
    OpenAndAttach(DeviceMeta),
    /// Cancel the device's input transfer and close it, then report the detach.
    CloseAndDetach(UsbDeviceId),
    /// Hand the event on unchanged.
    Forward(UsbEvent),
    /// Forget the device's stopped input transfer.
    ForgetTransfer(UsbDeviceId),
}

/// The action for a staged event.
pub fn staged_action(event: UsbEvent) -> (r: StagedAction)
    ensures
        r == match event {
            UsbEvent::DeviceAttached(meta) => StagedAction::OpenAndAttach(meta),
            UsbEvent::DeviceDetached(id) => StagedAction::CloseAndDetach(id),
            UsbEvent::InputTransferStopped(id) => StagedAction::ForgetTransfer(id),
            _ => StagedAction::Forward(event),
        },
{
    match event {
        UsbEvent::DeviceAttached(meta) => StagedAction::OpenAndAttach(meta),
        UsbEvent::DeviceDetached(id) => StagedAction::CloseAndDetach(id),
        UsbEvent::InputTransferStopped(id) => StagedAction::ForgetTransfer(id),
        _ => StagedAction::Forward(event),
    }
}

/// The attach reported for an opened device: its vendor and product from
/// the device information when that could be read, otherwise as staged.
pub fn enrich_attach(meta: DeviceMeta, info: Option<(u16, u16)>) -> (r: DeviceMeta)
    ensures
        r == match info {
            Some((vendor_id, product_id)) => DeviceMeta { device_id: meta.device_id, vendor_id, product_id },
            None => meta,
        },
{
    match info {
        Some((vendor_id, product_id)) => DeviceMeta { device_id: meta.device_id, vendor_id, product_id },
        None => meta,
    }
}

/// Whether a service pass that has done `work_done` units must stop.
pub fn service_budget_spent(work_done: usize) -> (r: bool)
    ensures
        r == (work_done >= SERVICE_WORK_BUDGET),
{
    work_done >= SERVICE_WORK_BUDGET
}

} // verus!
