//! Response bookkeeping of a worker that runs a chipset device in a separate
//! process.
//!
//! Each read or write request that the worker forwards to the device carries
//! an ID. The device either completes the access at once, fails it, or defers
//! it; a deferred access is answered once the device completes it.

use vstd::prelude::*;

verus! {

/// The outcome of a device access: `T` is the token by which a deferred access
/// is later completed, `E` the device's I/O error.
pub enum IoResult<T, E> {
    /// The access completed.
    Completed,
    /// The access failed.
    Failed(E),
    /// The access is deferred until the token completes.
    Defer(T),
}

/// Responses sent from the remote device.
#[derive(Debug, PartialEq, Eq)]
#[allow(inconsistent_fields)]
pub enum DeviceResponse<E> {
    /// Response to a read operation.
    Read {
        /// ID number for the request
        id: usize,
        /// Data read from the device or an error.
        result: Result<Vec<u8>, E>,
    },
    /// Response to a write operation.
    Write {
        /// ID number for the request
        id: usize,
        /// Result of the write operation.
        result: Result<(), E>,
    },
}

/// A read that the device deferred.
pub struct DeferredRead<T> {
    /// ID number for the request
    pub id: usize,
    /// The token that completes the read.
    pub token: T,
    /// The number of bytes to read.
    pub size: usize,
}

/// A write that the device deferred.
pub struct DeferredWrite<T> {
    /// ID number for the request
    pub id: usize,
    /// The token that completes the write.
    pub token: T,
}

/// The request bookkeeping of a chipset device worker: the accesses that the
/// device deferred, and the responses that are ready to be sent, oldest first.
pub struct RemoteChipsetDeviceWorker<T, E> {
    /// Deferred reads, in the order in which they were deferred.
    pub deferred_reads: Vec<DeferredRead<T>>,
    /// Deferred writes, in the order in which they were deferred.
    pub deferred_writes: Vec<DeferredWrite<T>>,
    /// Responses waiting to be sent, oldest first.
    pub responses: Vec<DeviceResponse<E>>,
}

/// A device that a worker cannot run remotely, because it needs interrupt
/// functionality that the remote worker does not implement.
#[derive(Debug, Copy, Clone, PartialEq, Eq, Structural)]
pub struct UnsupportedRemoteDevice;

/// Checks that a device can run in a remote worker: it must not acknowledge
/// PIC interrupts, handle EOIs or drive line interrupts.
pub fn check_remote_device_support(
    supports_acknowledge_pic_interrupt: bool,
    supports_handle_eoi: bool,
    supports_line_interrupt_target: bool,
) -> (r: Result<(), UnsupportedRemoteDevice>)
    ensures
        r is Ok <==> !supports_acknowledge_pic_interrupt && !supports_handle_eoi
            && !supports_line_interrupt_target,
{
    if supports_acknowledge_pic_interrupt || supports_handle_eoi || supports_line_interrupt_target {
        return Err(UnsupportedRemoteDevice);
    }
    Ok(())
}

/// Requests sent to the remote device for a read.
#[derive(Debug, Clone, PartialEq, Eq)]
pub struct ReadRequest<A> {
    /// ID number for the request
    pub id: usize,
    /// Address to read from.
    pub address: A,
    /// Size of the read (1, 2, 4, or 8 bytes).
    pub size: usize,
}

/// Requests sent to the remote device for a write.
#[derive(Debug, Clone, PartialEq, Eq)]
pub struct WriteRequest<A, V> {
    /// ID number for the request
    pub id: usize,
    /// Address to write to.
    pub address: A,
    /// Data to write.
    pub data: V,
}

/// Requests sent to the remote device.
#[derive(Debug, Clone, PartialEq, Eq)]
pub enum DeviceRequest {
    /// Perform a MMIO read operation.
    MmioRead(ReadRequest<u64>),
    /// Perform a MMIO write operation.
    MmioWrite(WriteRequest<u64, Vec<u8>>),
    /// Perform a PIO read operation.
    PioRead(ReadRequest<u16>),
    /// Perform a PIO write operation.
    PioWrite(WriteRequest<u16, Vec<u8>>),
    /// Perform a PCI config space read.
    PciConfigRead(ReadRequest<u16>),
    /// Perform a PCI config space write.
    PciConfigWrite(WriteRequest<u16, u32>),
    /// Start the device
    Start,
    /// Stop the device
    Stop,
    /// Reset the device
    Reset,
}

/// The device access that answers a request. A read carries the buffer that
/// the device reads into; its length is the size of the read.
#[derive(Debug, Clone, PartialEq, Eq)]
#[allow(inconsistent_fields)]
pub enum DeviceAccess {
    /// Read MMIO at `address` into `buffer`.
    MmioRead {
        /// ID number for the request
        id: usize,
        /// Address to read from.
        address: u64,
        /// A zeroed buffer of the size of the read.
        buffer: Vec<u8>,
    },
    /// Write `data` to MMIO at `address`.
    MmioWrite {
        /// ID number for the request
        id: usize,
        /// Address to write to.
        address: u64,
        /// Data to write.
        data: Vec<u8>,
    },
    /// Read the I/O port `address` into `buffer`.
    PioRead {
        /// ID number for the request
        id: usize,
        /// Port to read from.
        address: u16,
        /// A zeroed buffer of the size of the read.
        buffer: Vec<u8>,
    },
    /// Write `data` to the I/O port `address`.
    PioWrite {
        /// ID number for the request
        id: usize,
        /// Port to write to.
        address: u16,
        /// Data to write.
        data: Vec<u8>,
    },
    /// Read the 32-bit PCI config space register at `address`.
    PciConfigRead {
        /// ID number for the request
        id: usize,
        /// Register offset to read from.
        address: u16,
    },
    /// Write `data` to the PCI config space register at `address`.
    PciConfigWrite {
        /// ID number for the request
        id: usize,
        /// Register offset to write to.
        address: u16,
        /// Value to write.
        data: u32,
    },
    /// Start the device.
    Start,
    /// Stop the device.
    Stop,
    /// Reset the device.
    Reset,
}

/// A request that the worker cannot serve: a PCI config space read of other
/// than 4 bytes.
#[derive(Debug, Copy, Clone, PartialEq, Eq, Structural)]
pub struct BadRequest;

/// `size` zero bytes.
pub open spec fn zeroes(size: nat) -> Seq<u8> {
    Seq::new(size, |_i: int| 0u8)
}

/// The access that answers `request`, or why there is none.
pub open spec fn spec_request_access(request: DeviceRequest) -> Result<DeviceAccess, BadRequest> {
    match request {
        DeviceRequest::PciConfigRead(r) => if r.size == 4 {
            Ok(DeviceAccess::PciConfigRead { id: r.id, address: r.address })
        } else {
            Err(BadRequest)
        },
        DeviceRequest::MmioWrite(w) => Ok(
            DeviceAccess::MmioWrite { id: w.id, address: w.address, data: w.data },
        ),
        DeviceRequest::PioWrite(w) => Ok(
            DeviceAccess::PioWrite { id: w.id, address: w.address, data: w.data },
        ),
        DeviceRequest::PciConfigWrite(w) => Ok(
            DeviceAccess::PciConfigWrite { id: w.id, address: w.address, data: w.data },
        ),
        DeviceRequest::Start => Ok(DeviceAccess::Start),
        DeviceRequest::Stop => Ok(DeviceAccess::Stop),
        DeviceRequest::Reset => Ok(DeviceAccess::Reset),
        _ => Err(BadRequest),
    }
}

/// How a request that is not an MMIO or I/O port read is served: each write
/// goes to the requested address with the requested data under the request's
/// ID; a PCI config space read goes to the requested register exactly when it
/// is of 4 bytes and is refused otherwise; start, stop and reset pass
/// through.
pub open spec fn served_as_requested(request: DeviceRequest, access: Result<DeviceAccess, BadRequest>) -> bool {
    match request {
        DeviceRequest::MmioWrite(w) => access == Ok::<DeviceAccess, BadRequest>(
            DeviceAccess::MmioWrite { id: w.id, address: w.address, data: w.data },
        ),
        DeviceRequest::PioWrite(w) => access == Ok::<DeviceAccess, BadRequest>(
            DeviceAccess::PioWrite { id: w.id, address: w.address, data: w.data },
        ),
        DeviceRequest::PciConfigWrite(w) => access == Ok::<DeviceAccess, BadRequest>(
            DeviceAccess::PciConfigWrite { id: w.id, address: w.address, data: w.data },
        ),
        DeviceRequest::PciConfigRead(r) => {
            &&& r.size == 4 ==> access == Ok::<DeviceAccess, BadRequest>(
                DeviceAccess::PciConfigRead { id: r.id, address: r.address },
            )
            &&& r.size != 4 ==> access == Err::<DeviceAccess, BadRequest>(BadRequest)
        },
        DeviceRequest::Start => access == Ok::<DeviceAccess, BadRequest>(DeviceAccess::Start),
        DeviceRequest::Stop => access == Ok::<DeviceAccess, BadRequest>(DeviceAccess::Stop),
        DeviceRequest::Reset => access == Ok::<DeviceAccess, BadRequest>(DeviceAccess::Reset),
        DeviceRequest::MmioRead(_) | DeviceRequest::PioRead(_) => true,
    }
}

/// Every request other than an MMIO or I/O port read is served as requested,
/// for every ID, address, size and data.
pub proof fn lemma_requests_served_as_requested(request: DeviceRequest)
    ensures
        served_as_requested(request, spec_request_access(request)),
{
}

/// A buffer of `size` zero bytes.
fn zeroed_buffer(size: usize) -> (buffer: Vec<u8>)
    ensures
        buffer@ == zeroes(size as nat),
{
    let mut buffer: Vec<u8> = Vec::new();
    while buffer.len() < size
        invariant
            buffer.len() <= size,
            buffer@ == zeroes(buffer.len() as nat),
        decreases size - buffer.len(),
    {
        buffer.push(0u8);
        assert(buffer@ =~= zeroes(buffer.len() as nat));
    }
    buffer
}

/// Turns a request into the device access that answers it.
///
/// MMIO and I/O port reads get a zeroed buffer of the requested size; a PCI
/// config space read must be of 4 bytes; writes carry their data; start, stop
/// and reset pass through.
pub fn request_access(request: DeviceRequest) -> (access: Result<DeviceAccess, BadRequest>)
    ensures
        match request {
            DeviceRequest::MmioRead(r) => access matches Ok(
                DeviceAccess::MmioRead { id, address, buffer },
            ) && id == r.id && address == r.address && buffer@ == zeroes(r.size as nat),
            DeviceRequest::PioRead(r) => access matches Ok(
                DeviceAccess::PioRead { id, address, buffer },
            ) && id == r.id && address == r.address && buffer@ == zeroes(r.size as nat),
            _ => access == spec_request_access(request),
        },
        served_as_requested(request, access),
{
    match request {
        DeviceRequest::MmioRead(r) => Ok(
            DeviceAccess::MmioRead { id: r.id, address: r.address, buffer: zeroed_buffer(r.size) },
        ),
        DeviceRequest::MmioWrite(w) => Ok(
            DeviceAccess::MmioWrite { id: w.id, address: w.address, data: w.data },
        ),
        DeviceRequest::PioRead(r) => Ok(
            DeviceAccess::PioRead { id: r.id, address: r.address, buffer: zeroed_buffer(r.size) },
        ),
        DeviceRequest::PioWrite(w) => Ok(
            DeviceAccess::PioWrite { id: w.id, address: w.address, data: w.data },
        ),
        DeviceRequest::PciConfigRead(r) => {
            if r.size == 4 {
                Ok(DeviceAccess::PciConfigRead { id: r.id, address: r.address })
            } else {
                Err(BadRequest)
            }
        },
        DeviceRequest::PciConfigWrite(w) => Ok(
            DeviceAccess::PciConfigWrite { id: w.id, address: w.address, data: w.data },
        ),
        DeviceRequest::Start => Ok(DeviceAccess::Start),
        DeviceRequest::Stop => Ok(DeviceAccess::Stop),
        DeviceRequest::Reset => Ok(DeviceAccess::Reset),
    }
}

/// Requests that the worker host sends to the worker itself.
#[derive(Debug, Copy, Clone, PartialEq, Eq, Structural)]
pub enum WorkerRpcRequest {
    /// Inspect the device.
    Inspect,
    /// Stop the worker.
    Stop,
}

/// What the worker's loop does next.
#[derive(Debug, Copy, Clone, PartialEq, Eq, Structural)]
pub enum WorkerLoopAction {
    /// Inspect the device and keep serving requests.
    InspectDevice,
    /// Leave the loop: the worker is done.
    Exit,
}

/// Decides what the worker's loop does on a request from its host: an
/// inspection is served and the loop goes on; a stop ends the loop.
pub fn worker_rpc_action(rpc: WorkerRpcRequest) -> (action: WorkerLoopAction)
    ensures
        action == (match rpc {
            WorkerRpcRequest::Inspect => WorkerLoopAction::InspectDevice,
            WorkerRpcRequest::Stop => WorkerLoopAction::Exit,
        }),
{
    match rpc {
        WorkerRpcRequest::Inspect => WorkerLoopAction::InspectDevice,
        WorkerRpcRequest::Stop => WorkerLoopAction::Exit,
    }
}

/// The little-endian bytes of `v`.
pub open spec fn le_bytes(v: u32) -> Seq<u8> {
    seq![
        (v & 0xff) as u8,
        ((v >> 8u32) & 0xff) as u8,
        ((v >> 16u32) & 0xff) as u8,
        ((v >> 24u32) & 0xff) as u8,
    ]
}

/// The big-endian bytes of `v`.
pub open spec fn be_bytes(v: u32) -> Seq<u8> {
    seq![
        ((v >> 24u32) & 0xff) as u8,
        ((v >> 16u32) & 0xff) as u8,
        ((v >> 8u32) & 0xff) as u8,
        (v & 0xff) as u8,
    ]
}

/// The bytes of `v` in the machine's native byte order, which is little- or
/// big-endian depending on the machine.
#[verifier::external_body]
fn u32_to_ne_bytes(v: u32) -> (bytes: [u8; 4])
    ensures
        bytes@ == le_bytes(v) || bytes@ == be_bytes(v),
{
    v.to_ne_bytes()
}

/// The capabilities of a remote chipset device, reported to the host when
/// the worker starts.
#[derive(Debug, Clone, PartialEq, Eq)]
pub struct DeviceInit {
    /// MMIO configuration, if MMIO is supported.
    pub mmio: Option<MmioInit>,
    /// PIO configuration, if PIO is supported.
    pub pio: Option<PioInit>,
    /// PCI configuration, if PCI is supported.
    pub pci: Option<PciInit>,
}

/// MMIO capabilities of the remote chipset device.
#[derive(Debug, Clone, PartialEq, Eq)]
pub struct MmioInit {
    /// The static MMIO regions requested by the device, as (name, start, end).
    pub static_regions: Vec<(String, u64, u64)>,
}

/// PIO capabilities of the remote chipset device.
#[derive(Debug, Clone, PartialEq, Eq)]
pub struct PioInit {
    /// The static PIO ports requested by the device, as (name, start, end).
    pub static_regions: Vec<(String, u16, u16)>,
}

/// PCI capabilities of the remote chipset device.
#[derive(Debug, Copy, Clone, PartialEq, Eq)]
pub struct PciInit {
    /// The suggested BDF (Bus, Device, Function) for the device.
    pub suggested_bdf: Option<(u8, u8, u8)>,
}

/// Builds the capability report of a device: its static MMIO regions when it
/// supports MMIO, its static I/O port regions when it supports PIO, and its
/// suggested BDF when it supports PCI, each region as (name, start, end) in
/// the device's order.
pub fn device_init(
    mmio: Option<Vec<(String, u64, u64)>>,
    pio: Option<Vec<(String, u16, u16)>>,
    pci_bdf: Option<Option<(u8, u8, u8)>>,
) -> (init: DeviceInit)
    ensures
        match mmio {
            Some(regions) => init.mmio matches Some(m) && m.static_regions@ == regions@,
            None => init.mmio is None,
        },
        match pio {
            Some(regions) => init.pio matches Some(p) && p.static_regions@ == regions@,
            None => init.pio is None,
        },
        match pci_bdf {
            Some(bdf) => init.pci == Some(PciInit { suggested_bdf: bdf }),
            None => init.pci is None,
        },
{
    DeviceInit {
        mmio: match mmio {
            Some(static_regions) => Some(MmioInit { static_regions }),
            None => None,
        },
        pio: match pio {
            Some(static_regions) => Some(PioInit { static_regions }),
            None => None,
        },
        pci: match pci_bdf {
            Some(suggested_bdf) => Some(PciInit { suggested_bdf }),
            None => None,
        },
    }
}

/// The IDs of deferred reads.
pub open spec fn read_ids<T>(reads: Seq<DeferredRead<T>>) -> Seq<usize> {
    reads.map_values(|r: DeferredRead<T>| r.id)
}

/// The IDs of deferred writes.
pub open spec fn write_ids<T>(writes: Seq<DeferredWrite<T>>) -> Seq<usize> {
    writes.map_values(|w: DeferredWrite<T>| w.id)
}

/// The ID that a response answers.
pub open spec fn response_id<E>(response: DeviceResponse<E>) -> usize {
    match response {
        DeviceResponse::Read { id, .. } => id,
        DeviceResponse::Write { id, .. } => id,
    }
}

/// Every completed read brings as many bytes as its request asked for.
pub open spec fn outcomes_fit_reads<T, E>(
    reads: Seq<DeferredRead<T>>,
    outcomes: Seq<Option<Result<Vec<u8>, E>>>,
) -> bool {
    forall|i: int|
        0 <= i < outcomes.len() && i < reads.len() ==> (#[trigger] outcomes[i] matches Some(Ok(data))
            ==> data@.len() == reads[i].size)
}

/// The responses for the deferred reads whose outcome is ready, in order.
pub open spec fn completed_reads<T, E>(
    reads: Seq<DeferredRead<T>>,
    outcomes: Seq<Option<Result<Vec<u8>, E>>>,
) -> Seq<DeviceResponse<E>>
    decreases reads.len(),
{
    if reads.len() == 0 {
        Seq::empty()
    } else {
        let n = reads.len() - 1;
        let rest = completed_reads(reads.take(n), outcomes.take(n));
        match outcomes[n] {
            Some(result) => rest.push(DeviceResponse::Read { id: reads[n].id, result }),
            None => rest,
        }
    }
}

/// The deferred reads whose outcome is not ready yet, in order.
pub open spec fn still_pending_reads<T, E>(
    reads: Seq<DeferredRead<T>>,
    outcomes: Seq<Option<Result<Vec<u8>, E>>>,
) -> Seq<DeferredRead<T>>
    decreases reads.len(),
{
    if reads.len() == 0 {
        Seq::empty()
    } else {
        let n = reads.len() - 1;
        let rest = still_pending_reads(reads.take(n), outcomes.take(n));
        match outcomes[n] {
            Some(_) => rest,
            None => rest.push(reads[n]),
        }
    }
}

/// The responses for the deferred writes whose outcome is ready, in order.
pub open spec fn completed_writes<T, E>(
    writes: Seq<DeferredWrite<T>>,
    outcomes: Seq<Option<Result<(), E>>>,
) -> Seq<DeviceResponse<E>>
    decreases writes.len(),
{
    if writes.len() == 0 {
        Seq::empty()
    } else {
        let n = writes.len() - 1;
        let rest = completed_writes(writes.take(n), outcomes.take(n));
        match outcomes[n] {
            Some(result) => rest.push(DeviceResponse::Write { id: writes[n].id, result }),
            None => rest,
        }
    }
}

/// The deferred writes whose outcome is not ready yet, in order.
pub open spec fn still_pending_writes<T, E>(
    writes: Seq<DeferredWrite<T>>,
    outcomes: Seq<Option<Result<(), E>>>,
) -> Seq<DeferredWrite<T>>
    decreases writes.len(),
{
    if writes.len() == 0 {
        Seq::empty()
    } else {
        let n = writes.len() - 1;
        let rest = still_pending_writes(writes.take(n), outcomes.take(n));
        match outcomes[n] {
            Some(_) => rest,
            None => rest.push(writes[n]),
        }
    }
}

impl<T, E> RemoteChipsetDeviceWorker<T, E> {
    /// A worker with nothing deferred and nothing to send.
    pub fn new() -> (worker: Self)
        ensures
            worker.deferred_reads@ == Seq::<DeferredRead<T>>::empty(),
            worker.deferred_writes@ == Seq::<DeferredWrite<T>>::empty(),
            worker.responses@ == Seq::<DeviceResponse<E>>::empty(),
    {
        RemoteChipsetDeviceWorker {
            deferred_reads: Vec::new(),
            deferred_writes: Vec::new(),
            responses: Vec::new(),
        }
    }

    /// A worker for a device that needs PIC acknowledgement, EOI handling or
    /// line interrupts as these flags say: refused when it needs any of them,
    /// else a worker with nothing deferred and nothing to send.
    pub fn new_for_device(
        supports_acknowledge_pic_interrupt: bool,
        supports_handle_eoi: bool,
        supports_line_interrupt_target: bool,
    ) -> (r: Result<Self, UnsupportedRemoteDevice>)
        ensures
            r is Ok <==> !supports_acknowledge_pic_interrupt && !supports_handle_eoi
                && !supports_line_interrupt_target,
            r matches Ok(worker) ==> {
                &&& worker.deferred_reads@ == Seq::<DeferredRead<T>>::empty()
                &&& worker.deferred_writes@ == Seq::<DeferredWrite<T>>::empty()
                &&& worker.responses@ == Seq::<DeviceResponse<E>>::empty()
            },
    {
        match check_remote_device_support(
            supports_acknowledge_pic_interrupt,
            supports_handle_eoi,
            supports_line_interrupt_target,
        ) {
            Ok(()) => Ok(Self::new()),
            Err(e) => Err(e),
        }
    }

    /// Answers the PCI config space read `id`, whose 32-bit value is `data`,
    /// with the 4 bytes of `data` in native byte order when it completed, with
    /// the error when it failed, or records it as a deferred read of 4 bytes.
    pub fn handle_pci_config_read_result(&mut self, id: usize, result: IoResult<T, E>, data: u32)
        ensures
            match result {
                IoResult::Completed => {
                    &&& final(self).deferred_reads@ == old(self).deferred_reads@
                    &&& final(self).responses@.len() == old(self).responses@.len() + 1
                    &&& final(self).responses@.drop_last() == old(self).responses@
                    &&& final(self).responses@.last() matches DeviceResponse::Read {
                        id: rid,
                        result: Ok(bytes),
                    } && rid == id && (bytes@ == le_bytes(data) || bytes@ == be_bytes(data))
                },
                IoResult::Failed(e) => {
                    &&& final(self).responses@ == old(self).responses@.push(
                        DeviceResponse::Read { id, result: Err(e) },
                    )
                    &&& final(self).deferred_reads@ == old(self).deferred_reads@
                },
                IoResult::Defer(token) => {
                    &&& final(self).responses@ == old(self).responses@
                    &&& final(self).deferred_reads@ == old(self).deferred_reads@.push(
                        DeferredRead { id, token, size: 4 },
                    )
                },
            },
            final(self).deferred_writes@ == old(self).deferred_writes@,
    {
        let bytes = u32_to_ne_bytes(data);
        let data = vstd::slice::slice_to_vec(bytes.as_slice());
        let ghost completed = result is Completed;
        self.handle_read_result(id, result, data);
        proof {
            if completed {
                assert(self.responses@.drop_last() =~= old(self).responses@);
            }
        }
    }

    /// Answers the read `id` with `data` when it completed, with the error
    /// when it failed, or records it as deferred.
    pub fn handle_read_result(&mut self, id: usize, result: IoResult<T, E>, data: Vec<u8>)
        ensures
            match result {
                IoResult::Completed => {
                    &&& final(self).responses@ == old(self).responses@.push(
                        DeviceResponse::Read { id, result: Ok(data) },
                    )
                    &&& final(self).deferred_reads@ == old(self).deferred_reads@
                },
                IoResult::Failed(e) => {
                    &&& final(self).responses@ == old(self).responses@.push(
                        DeviceResponse::Read { id, result: Err(e) },
                    )
                    &&& final(self).deferred_reads@ == old(self).deferred_reads@
                },
                IoResult::Defer(token) => {
                    &&& final(self).responses@ == old(self).responses@
                    &&& final(self).deferred_reads@ == old(self).deferred_reads@.push(
                        DeferredRead { id, token, size: data.len() },
                    )
                },
            },
            final(self).deferred_writes@ == old(self).deferred_writes@,
    {
        match result {
            IoResult::Completed => self.responses.push(DeviceResponse::Read { id, result: Ok(data) }),
            IoResult::Failed(io_error) => self.responses.push(
                DeviceResponse::Read { id, result: Err(io_error) },
            ),
            IoResult::Defer(token) => {
                let size = data.len();
                self.deferred_reads.push(DeferredRead { id, token, size })
            },
        }
    }

    /// Answers the write `id` when it completed or failed, or records it as
    /// deferred.
    pub fn handle_write_result(&mut self, id: usize, result: IoResult<T, E>)
        ensures
            match result {
                IoResult::Completed => {
                    &&& final(self).responses@ == old(self).responses@.push(
                        DeviceResponse::Write { id, result: Ok(()) },
                    )
                    &&& final(self).deferred_writes@ == old(self).deferred_writes@
                },
                IoResult::Failed(e) => {
                    &&& final(self).responses@ == old(self).responses@.push(
                        DeviceResponse::Write { id, result: Err(e) },
                    )
                    &&& final(self).deferred_writes@ == old(self).deferred_writes@
                },
                IoResult::Defer(token) => {
                    &&& final(self).responses@ == old(self).responses@
                    &&& final(self).deferred_writes@ == old(self).deferred_writes@.push(
                        DeferredWrite { id, token },
                    )
                },
            },
            final(self).deferred_reads@ == old(self).deferred_reads@,
    {
        match result {
            IoResult::Completed => self.responses.push(DeviceResponse::Write { id, result: Ok(()) }),
            IoResult::Failed(io_error) => self.responses.push(
                DeviceResponse::Write { id, result: Err(io_error) },
            ),
            IoResult::Defer(token) => self.deferred_writes.push(DeferredWrite { id, token }),
        }
    }

    /// Sends the responses of the deferred reads that completed and keeps the
    /// others deferred. `outcomes[i]` is the outcome of the `i`-th deferred
    /// read: `None` while the device has not completed it, else the data read
    /// or the error.
    pub fn complete_deferred_reads(&mut self, outcomes: Vec<Option<Result<Vec<u8>, E>>>)
        requires
            outcomes.len() == old(self).deferred_reads.len(),
            outcomes_fit_reads(old(self).deferred_reads@, outcomes@),
        ensures
            final(self).responses@ == old(self).responses@ + completed_reads(
                old(self).deferred_reads@,
                outcomes@,
            ),
            final(self).deferred_reads@ == still_pending_reads(
                old(self).deferred_reads@,
                outcomes@,
            ),
            final(self).deferred_writes@ == old(self).deferred_writes@,
    {
        let ghost reads0 = self.deferred_reads@;
        let ghost outcomes0 = outcomes@;
        let ghost responses0 = self.responses@;
        let mut reads: Vec<DeferredRead<T>> = Vec::new();
        std::mem::swap(&mut reads, &mut self.deferred_reads);
        let mut outcomes = outcomes;
        let n = reads.len();
        let mut i: usize = 0;
        while i < n
            invariant
                n == reads0.len(),
                n == outcomes0.len(),
                i <= n,
                reads@ == reads0.skip(i as int),
                outcomes@ == outcomes0.skip(i as int),
                self.responses@ == responses0 + completed_reads(
                    reads0.take(i as int),
                    outcomes0.take(i as int),
                ),
                self.deferred_reads@ == still_pending_reads(
                    reads0.take(i as int),
                    outcomes0.take(i as int),
                ),
                self.deferred_writes@ == old(self).deferred_writes@,
            decreases n - i,
        {
            let read = reads.remove(0);
            let outcome = outcomes.remove(0);
            proof {
                assert(reads0.take(i + 1).take(i as int) == reads0.take(i as int));
                assert(outcomes0.take(i + 1).take(i as int) == outcomes0.take(i as int));
                assert(reads0.take(i + 1)[i as int] == reads0[i as int]);
                assert(outcomes0.take(i + 1)[i as int] == outcomes0[i as int]);
                assert(reads0.skip(i as int).drop_first() == reads0.skip(i + 1));
                assert(outcomes0.skip(i as int).drop_first() == outcomes0.skip(i + 1));
            }
            match outcome {
                Some(result) => {
                    self.responses.push(DeviceResponse::Read { id: read.id, result });
                    proof {
                        assert(self.responses@ == responses0 + completed_reads(
                            reads0.take(i + 1),
                            outcomes0.take(i + 1),
                        ));
                    }
                },
                None => {
                    self.deferred_reads.push(read);
                },
            }
            i = i + 1;
        }
        proof {
            assert(reads0.take(n as int) == reads0);
            assert(outcomes0.take(n as int) == outcomes0);
        }
    }

    /// Sends the responses of the deferred writes that completed and keeps the
    /// others deferred. `outcomes[i]` is the outcome of the `i`-th deferred
    /// write: `None` while the device has not completed it, else its result.
    pub fn complete_deferred_writes(&mut self, outcomes: Vec<Option<Result<(), E>>>)
        requires
            outcomes.len() == old(self).deferred_writes.len(),
        ensures
            final(self).responses@ == old(self).responses@ + completed_writes(
                old(self).deferred_writes@,
                outcomes@,
            ),
            final(self).deferred_writes@ == still_pending_writes(
                old(self).deferred_writes@,
                outcomes@,
            ),
            final(self).deferred_reads@ == old(self).deferred_reads@,
    {
        let ghost writes0 = self.deferred_writes@;
        let ghost outcomes0 = outcomes@;
        let ghost responses0 = self.responses@;
        let mut writes: Vec<DeferredWrite<T>> = Vec::new();
        std::mem::swap(&mut writes, &mut self.deferred_writes);
        let mut outcomes = outcomes;
        let n = writes.len();
        let mut i: usize = 0;
        while i < n
            invariant
                n == writes0.len(),
                n == outcomes0.len(),
                i <= n,
                writes@ == writes0.skip(i as int),
                outcomes@ == outcomes0.skip(i as int),
                self.responses@ == responses0 + completed_writes(
                    writes0.take(i as int),
                    outcomes0.take(i as int),
                ),
                self.deferred_writes@ == still_pending_writes(
                    writes0.take(i as int),
                    outcomes0.take(i as int),
                ),
                self.deferred_reads@ == old(self).deferred_reads@,
            decreases n - i,
        {
            let write = writes.remove(0);
            let outcome = outcomes.remove(0);
            proof {
                assert(writes0.take(i + 1).take(i as int) == writes0.take(i as int));
                assert(outcomes0.take(i + 1).take(i as int) == outcomes0.take(i as int));
                assert(writes0.take(i + 1)[i as int] == writes0[i as int]);
                assert(outcomes0.take(i + 1)[i as int] == outcomes0[i as int]);
                assert(writes0.skip(i as int).drop_first() == writes0.skip(i + 1));
                assert(outcomes0.skip(i as int).drop_first() == outcomes0.skip(i + 1));
            }
            match outcome {
                Some(result) => {
                    self.responses.push(DeviceResponse::Write { id: write.id, result });
                    proof {
                        assert(self.responses@ == responses0 + completed_writes(
                            writes0.take(i + 1),
                            outcomes0.take(i + 1),
                        ));
                    }
                },
                None => {
                    self.deferred_writes.push(write);
                },
            }
            i = i + 1;
        }
        proof {
            assert(writes0.take(n as int) == writes0);
            assert(outcomes0.take(n as int) == outcomes0);
        }
    }

    /// Takes the responses that are ready to be sent, oldest first.
    pub fn take_responses(&mut self) -> (responses: Vec<DeviceResponse<E>>)
        ensures
            responses@ == old(self).responses@,
            final(self).responses@ == Seq::<DeviceResponse<E>>::empty(),
            final(self).deferred_reads@ == old(self).deferred_reads@,
            final(self).deferred_writes@ == old(self).deferred_writes@,
    {
        let mut responses: Vec<DeviceResponse<E>> = Vec::new();
        std::mem::swap(&mut responses, &mut self.responses);
        responses
    }
}


/// Completing deferred reads loses none and invents none: every deferred read
/// is either answered, with its outcome, or still deferred, and there are as
/// many of those together as there were deferred reads.
pub proof fn lemma_completed_reads_account_for_all<T, E>(
    reads: Seq<DeferredRead<T>>,
    outcomes: Seq<Option<Result<Vec<u8>, E>>>,
)
    requires
        outcomes.len() == reads.len(),
    ensures
        completed_reads(reads, outcomes).len() + still_pending_reads(reads, outcomes).len()
            == reads.len(),
        forall|i: int|
            0 <= i < reads.len() && outcomes[i] is None ==> still_pending_reads(
                reads,
                outcomes,
            ).contains(#[trigger] reads[i]),
        forall|i: int|
            0 <= i < reads.len() && outcomes[i] is Some ==> completed_reads(
                reads,
                outcomes,
            ).contains(DeviceResponse::Read { id: #[trigger] reads[i].id, result: outcomes[i]->0 }),
    decreases reads.len(),
{
    if reads.len() > 0 {
        let n = reads.len() - 1;
        let r = reads.take(n);
        let o = outcomes.take(n);
        lemma_completed_reads_account_for_all(r, o);
        let done = completed_reads(r, o);
        let pending = still_pending_reads(r, o);
        assert forall|i: int|
            0 <= i < reads.len() && outcomes[i] is None implies still_pending_reads(
                reads,
                outcomes,
            ).contains(#[trigger] reads[i]) by {
            if i < n {
                assert(r[i] == reads[i]);
                assert(o[i] == outcomes[i]);
                assert(pending.contains(r[i]));
                let k = choose|k: int| 0 <= k < pending.len() && pending[k] == r[i];
                if outcomes[n] is None {
                    assert(pending.push(reads[n])[k] == reads[i]);
                }
            } else {
                assert(pending.push(reads[n])[pending.len() as int] == reads[n]);
            }
        }
        assert forall|i: int|
            0 <= i < reads.len() && outcomes[i] is Some implies completed_reads(
                reads,
                outcomes,
            ).contains(DeviceResponse::Read { id: #[trigger] reads[i].id, result: outcomes[i]->0 }) by {
            let resp = DeviceResponse::Read { id: reads[i].id, result: outcomes[i]->0 };
            if i < n {
                assert(r[i] == reads[i]);
                assert(o[i] == outcomes[i]);
                assert(done.contains(DeviceResponse::Read { id: r[i].id, result: o[i]->0 }));
                let k = choose|k: int| 0 <= k < done.len() && done[k] == resp;
                if outcomes[n] is Some {
                    let extended = done.push(
                        DeviceResponse::Read { id: reads[n].id, result: outcomes[n]->0 },
                    );
                    assert(extended[k] == resp);
                }
            } else {
                let extended = done.push(resp);
                assert(extended[done.len() as int] == resp);
            }
        }
    }
}

/// Completing deferred writes loses none and invents none: every deferred
/// write is either answered, with its outcome, or still deferred, and there
/// are as many of those together as there were deferred writes.
pub proof fn lemma_completed_writes_account_for_all<T, E>(
    writes: Seq<DeferredWrite<T>>,
    outcomes: Seq<Option<Result<(), E>>>,
)
    requires
        outcomes.len() == writes.len(),
    ensures
        completed_writes(writes, outcomes).len() + still_pending_writes(writes, outcomes).len()
            == writes.len(),
        forall|i: int|
            0 <= i < writes.len() && outcomes[i] is None ==> still_pending_writes(
                writes,
                outcomes,
            ).contains(#[trigger] writes[i]),
        forall|i: int|
            0 <= i < writes.len() && outcomes[i] is Some ==> completed_writes(
                writes,
                outcomes,
            ).contains(DeviceResponse::Write { id: #[trigger] writes[i].id, result: outcomes[i]->0 }),
    decreases writes.len(),
{
    if writes.len() > 0 {
        let n = writes.len() - 1;
        let w = writes.take(n);
        let o = outcomes.take(n);
        lemma_completed_writes_account_for_all(w, o);
        let done = completed_writes(w, o);
        let pending = still_pending_writes(w, o);
        assert forall|i: int|
            0 <= i < writes.len() && outcomes[i] is None implies still_pending_writes(
                writes,
                outcomes,
            ).contains(#[trigger] writes[i]) by {
            if i < n {
                assert(w[i] == writes[i]);
                assert(o[i] == outcomes[i]);
                assert(pending.contains(w[i]));
                let k = choose|k: int| 0 <= k < pending.len() && pending[k] == w[i];
                if outcomes[n] is None {
                    assert(pending.push(writes[n])[k] == writes[i]);
                }
            } else {
                assert(pending.push(writes[n])[pending.len() as int] == writes[n]);
            }
        }
        assert forall|i: int|
            0 <= i < writes.len() && outcomes[i] is Some implies completed_writes(
                writes,
                outcomes,
            ).contains(DeviceResponse::Write { id: #[trigger] writes[i].id, result: outcomes[i]->0 }) by {
            let resp = DeviceResponse::Write { id: writes[i].id, result: outcomes[i]->0 };
            if i < n {
                assert(w[i] == writes[i]);
                assert(o[i] == outcomes[i]);
                assert(done.contains(DeviceResponse::Write { id: w[i].id, result: o[i]->0 }));
                let k = choose|k: int| 0 <= k < done.len() && done[k] == resp;
                if outcomes[n] is Some {
                    let extended = done.push(
                        DeviceResponse::Write { id: writes[n].id, result: outcomes[n]->0 },
                    );
                    assert(extended[k] == resp);
                }
            } else {
                let extended = done.push(resp);
                assert(extended[done.len() as int] == resp);
            }
        }
    }
}


/// The IDs that responses answer, in order.
pub open spec fn response_ids<E>(responses: Seq<DeviceResponse<E>>) -> Seq<usize> {
    responses.map_values(|r: DeviceResponse<E>| response_id(r))
}

/// Completing deferred reads answers each deferred ID exactly once or keeps
/// it deferred: the IDs answered and the IDs still deferred together are the
/// IDs that were deferred, each as often as before.
pub proof fn lemma_completed_reads_keep_ids<T, E>(
    reads: Seq<DeferredRead<T>>,
    outcomes: Seq<Option<Result<Vec<u8>, E>>>,
)
    requires
        outcomes.len() == reads.len(),
    ensures
        response_ids(completed_reads(reads, outcomes)).to_multiset().add(
            read_ids(still_pending_reads(reads, outcomes)).to_multiset(),
        ) == read_ids(reads).to_multiset(),
    decreases reads.len(),
{
    broadcast use vstd::seq_lib::group_to_multiset_ensures;

    if reads.len() == 0 {
        assert(read_ids(reads) =~= Seq::<usize>::empty());
        assert(response_ids(completed_reads(reads, outcomes)) =~= Seq::<usize>::empty());
        assert(read_ids(still_pending_reads(reads, outcomes)) =~= Seq::<usize>::empty());
    } else {
        let n = reads.len() - 1;
        let r = reads.take(n);
        let o = outcomes.take(n);
        lemma_completed_reads_keep_ids(r, o);
        let done = completed_reads(r, o);
        let pending = still_pending_reads(r, o);
        assert(read_ids(reads) =~= read_ids(r).push(reads[n].id));
        match outcomes[n] {
            Some(result) => {
                let resp = DeviceResponse::Read { id: reads[n].id, result };
                assert(response_ids(done.push(resp)) =~= response_ids(done).push(reads[n].id));
            },
            None => {
                assert(read_ids(pending.push(reads[n])) =~= read_ids(pending).push(reads[n].id));
            },
        }
    }
}

/// Completing deferred writes answers each deferred ID exactly once or keeps
/// it deferred: the IDs answered and the IDs still deferred together are the
/// IDs that were deferred, each as often as before.
pub proof fn lemma_completed_writes_keep_ids<T, E>(
    writes: Seq<DeferredWrite<T>>,
    outcomes: Seq<Option<Result<(), E>>>,
)
    requires
        outcomes.len() == writes.len(),
    ensures
        response_ids(completed_writes(writes, outcomes)).to_multiset().add(
            write_ids(still_pending_writes(writes, outcomes)).to_multiset(),
        ) == write_ids(writes).to_multiset(),
    decreases writes.len(),
{
    broadcast use vstd::seq_lib::group_to_multiset_ensures;

    if writes.len() == 0 {
        assert(write_ids(writes) =~= Seq::<usize>::empty());
        assert(response_ids(completed_writes(writes, outcomes)) =~= Seq::<usize>::empty());
        assert(write_ids(still_pending_writes(writes, outcomes)) =~= Seq::<usize>::empty());
    } else {
        let n = writes.len() - 1;
        let w = writes.take(n);
        let o = outcomes.take(n);
        lemma_completed_writes_keep_ids(w, o);
        let done = completed_writes(w, o);
        let pending = still_pending_writes(w, o);
        assert(write_ids(writes) =~= write_ids(w).push(writes[n].id));
        match outcomes[n] {
            Some(result) => {
                let resp = DeviceResponse::Write { id: writes[n].id, result };
                assert(response_ids(done.push(resp)) =~= response_ids(done).push(writes[n].id));
            },
            None => {
                assert(write_ids(pending.push(writes[n])) =~= write_ids(pending).push(
                    writes[n].id,
                ));
            },
        }
    }
}

/// The read response `response` brings data of the size that some deferred
/// read with its ID asked for.
pub open spec fn read_response_fits<T, E>(
    response: DeviceResponse<E>,
    reads: Seq<DeferredRead<T>>,
) -> bool {
    response matches DeviceResponse::Read { id, result: Ok(data) } ==> exists|i: int|
        0 <= i < reads.len() && #[trigger] reads[i].id == id && data@.len() == reads[i].size
}

/// When every completed outcome brings as many bytes as its read asked for,
/// every response to a deferred read carries data of the requested size.
pub proof fn lemma_completed_reads_have_requested_size<T, E>(
    reads: Seq<DeferredRead<T>>,
    outcomes: Seq<Option<Result<Vec<u8>, E>>>,
)
    requires
        outcomes.len() == reads.len(),
        outcomes_fit_reads(reads, outcomes),
    ensures
        forall|k: int|
            0 <= k < completed_reads(reads, outcomes).len() ==> read_response_fits(
                #[trigger] completed_reads(reads, outcomes)[k],
                reads,
            ),
    decreases reads.len(),
{
    if reads.len() > 0 {
        let n = reads.len() - 1;
        let r = reads.take(n);
        let o = outcomes.take(n);
        assert(outcomes_fit_reads(r, o)) by {
            assert forall|i: int| 0 <= i < o.len() && i < r.len() implies (#[trigger] o[i] matches Some(
                Ok(data),
            ) ==> data@.len() == r[i].size) by {
                assert(o[i] == outcomes[i]);
                assert(r[i] == reads[i]);
            }
        }
        lemma_completed_reads_have_requested_size(r, o);
        let done = completed_reads(r, o);
        assert forall|k: int|
            0 <= k < completed_reads(reads, outcomes).len() implies read_response_fits(
            #[trigger] completed_reads(reads, outcomes)[k],
            reads,
        ) by {
            if k < done.len() {
                let resp = done[k];
                assert(completed_reads(reads, outcomes)[k] == resp);
                assert(read_response_fits(resp, r));
                match resp {
                    DeviceResponse::Read { id, result: Ok(data) } => {
                        let i = choose|i: int|
                            0 <= i < r.len() && #[trigger] r[i].id == id && data@.len()
                                == r[i].size;
                        assert(reads[i] == r[i]);
                    },
                    _ => {},
                }
            } else {
                assert(outcomes[n] is Some);
                assert(reads[n].id == reads[n].id);
            }
        }
    }
}

} // verus!
