use vmm_config::chipset_worker::check_remote_device_support;
use vmm_config::chipset_worker::DeviceResponse;
use vmm_config::chipset_worker::IoResult;
use vmm_config::chipset_worker::RemoteChipsetDeviceWorker;
use vmm_config::chipset_worker::UnsupportedRemoteDevice;

type Worker = RemoteChipsetDeviceWorker<&'static str, u8>;

#[test]
fn immediate_results_are_answered() {
    let mut worker = Worker::new();
    worker.handle_read_result(1, IoResult::Completed, vec![1, 2, 3, 4]);
    worker.handle_read_result(2, IoResult::Failed(9), vec![0; 4]);
    worker.handle_write_result(3, IoResult::Completed);
    worker.handle_write_result(4, IoResult::Failed(8));
    assert!(worker.deferred_reads.is_empty());
    assert!(worker.deferred_writes.is_empty());
    assert_eq!(
        worker.take_responses(),
        vec![
            DeviceResponse::Read { id: 1, result: Ok(vec![1, 2, 3, 4]) },
            DeviceResponse::Read { id: 2, result: Err(9) },
            DeviceResponse::Write { id: 3, result: Ok(()) },
            DeviceResponse::Write { id: 4, result: Err(8) },
        ]
    );
    assert!(worker.responses.is_empty());
}

#[test]
fn deferred_results_are_recorded() {
    let mut worker = Worker::new();
    worker.handle_read_result(5, IoResult::Defer("r5"), vec![0; 8]);
    worker.handle_write_result(6, IoResult::Defer("w6"));
    assert!(worker.responses.is_empty());
    assert_eq!(worker.deferred_reads.len(), 1);
    assert_eq!(worker.deferred_reads[0].id, 5);
    assert_eq!(worker.deferred_reads[0].token, "r5");
    assert_eq!(worker.deferred_reads[0].size, 8);
    assert_eq!(worker.deferred_writes.len(), 1);
    assert_eq!(worker.deferred_writes[0].id, 6);
}

#[test]
fn completed_deferred_reads_are_answered_in_order() {
    let mut worker = Worker::new();
    for (id, token) in [(1, "a"), (2, "b"), (3, "c"), (4, "d")] {
        worker.handle_read_result(id, IoResult::Defer(token), vec![0; 2]);
    }
    worker.complete_deferred_reads(vec![Some(Ok(vec![1, 1])), None, Some(Err(5)), None]);
    assert_eq!(
        worker.take_responses(),
        vec![
            DeviceResponse::Read { id: 1, result: Ok(vec![1, 1]) },
            DeviceResponse::Read { id: 3, result: Err(5) },
        ]
    );
    let pending: Vec<usize> = worker.deferred_reads.iter().map(|r| r.id).collect();
    assert_eq!(pending, vec![2, 4]);

    worker.complete_deferred_reads(vec![None, Some(Ok(vec![4, 4]))]);
    assert_eq!(
        worker.take_responses(),
        vec![DeviceResponse::Read { id: 4, result: Ok(vec![4, 4]) }]
    );
    assert_eq!(worker.deferred_reads.len(), 1);
    assert_eq!(worker.deferred_reads[0].id, 2);
}

#[test]
fn completed_deferred_writes_are_answered_in_order() {
    let mut worker = Worker::new();
    for (id, token) in [(10, "a"), (11, "b"), (12, "c")] {
        worker.handle_write_result(id, IoResult::Defer(token));
    }
    worker.complete_deferred_writes(vec![None, Some(Ok(())), Some(Err(1))]);
    assert_eq!(
        worker.take_responses(),
        vec![
            DeviceResponse::Write { id: 11, result: Ok(()) },
            DeviceResponse::Write { id: 12, result: Err(1) },
        ]
    );
    assert_eq!(worker.deferred_writes.len(), 1);
    assert_eq!(worker.deferred_writes[0].id, 10);
    worker.complete_deferred_writes(vec![None]);
    assert_eq!(worker.deferred_writes.len(), 1);
    assert!(worker.take_responses().is_empty());
}

#[test]
fn nothing_completes_with_no_outcomes() {
    let mut worker = Worker::new();
    worker.complete_deferred_reads(vec![]);
    worker.complete_deferred_writes(vec![]);
    assert!(worker.take_responses().is_empty());
}

#[test]
fn remote_device_support() {
    assert_eq!(check_remote_device_support(false, false, false), Ok(()));
    assert_eq!(check_remote_device_support(true, false, false), Err(UnsupportedRemoteDevice));
    assert_eq!(check_remote_device_support(false, true, false), Err(UnsupportedRemoteDevice));
    assert_eq!(check_remote_device_support(false, false, true), Err(UnsupportedRemoteDevice));
}

use vmm_config::chipset_worker::device_init;
use vmm_config::chipset_worker::request_access;
use vmm_config::chipset_worker::worker_rpc_action;
use vmm_config::chipset_worker::BadRequest;
use vmm_config::chipset_worker::DeviceAccess;
use vmm_config::chipset_worker::DeviceRequest;
use vmm_config::chipset_worker::PciInit;
use vmm_config::chipset_worker::ReadRequest;
use vmm_config::chipset_worker::WorkerLoopAction;
use vmm_config::chipset_worker::WorkerRpcRequest;
use vmm_config::chipset_worker::WriteRequest;

#[test]
fn reads_get_zeroed_buffers_of_their_size() {
    assert_eq!(
        request_access(DeviceRequest::MmioRead(ReadRequest { id: 1, address: 0x1000, size: 8 })),
        Ok(DeviceAccess::MmioRead { id: 1, address: 0x1000, buffer: vec![0; 8] })
    );
    assert_eq!(
        request_access(DeviceRequest::PioRead(ReadRequest { id: 2, address: 0x60, size: 1 })),
        Ok(DeviceAccess::PioRead { id: 2, address: 0x60, buffer: vec![0] })
    );
    assert_eq!(
        request_access(DeviceRequest::PciConfigRead(ReadRequest { id: 3, address: 4, size: 4 })),
        Ok(DeviceAccess::PciConfigRead { id: 3, address: 4 })
    );
    assert_eq!(
        request_access(DeviceRequest::PciConfigRead(ReadRequest { id: 3, address: 4, size: 2 })),
        Err(BadRequest)
    );
}

#[test]
fn writes_and_control_requests_pass_through() {
    assert_eq!(
        request_access(DeviceRequest::MmioWrite(WriteRequest { id: 4, address: 8, data: vec![1, 2] })),
        Ok(DeviceAccess::MmioWrite { id: 4, address: 8, data: vec![1, 2] })
    );
    assert_eq!(
        request_access(DeviceRequest::PioWrite(WriteRequest { id: 5, address: 9, data: vec![3] })),
        Ok(DeviceAccess::PioWrite { id: 5, address: 9, data: vec![3] })
    );
    assert_eq!(
        request_access(DeviceRequest::PciConfigWrite(WriteRequest { id: 6, address: 16, data: 7 })),
        Ok(DeviceAccess::PciConfigWrite { id: 6, address: 16, data: 7 })
    );
    assert_eq!(request_access(DeviceRequest::Start), Ok(DeviceAccess::Start));
    assert_eq!(request_access(DeviceRequest::Stop), Ok(DeviceAccess::Stop));
    assert_eq!(request_access(DeviceRequest::Reset), Ok(DeviceAccess::Reset));
}

#[test]
fn worker_stop_ends_the_loop() {
    assert_eq!(worker_rpc_action(WorkerRpcRequest::Inspect), WorkerLoopAction::InspectDevice);
    assert_eq!(worker_rpc_action(WorkerRpcRequest::Stop), WorkerLoopAction::Exit);
}

#[test]
fn pci_config_reads_answer_four_native_bytes() {
    let mut worker = Worker::new();
    worker.handle_pci_config_read_result(1, IoResult::Completed, 0x1122_3344);
    worker.handle_pci_config_read_result(2, IoResult::Failed(5), 0);
    worker.handle_pci_config_read_result(3, IoResult::Defer("t"), 0);
    assert_eq!(
        worker.take_responses(),
        vec![
            DeviceResponse::Read { id: 1, result: Ok(0x1122_3344u32.to_ne_bytes().to_vec()) },
            DeviceResponse::Read { id: 2, result: Err(5) },
        ]
    );
    assert_eq!(worker.deferred_reads.len(), 1);
    assert_eq!(worker.deferred_reads[0].id, 3);
    assert_eq!(worker.deferred_reads[0].size, 4);
}

#[test]
fn creation_refuses_devices_needing_unsupported_interrupts() {
    assert!(Worker::new_for_device(false, false, false).is_ok());
    let worker = Worker::new_for_device(false, false, false).ok().unwrap();
    assert!(worker.deferred_reads.is_empty() && worker.deferred_writes.is_empty());
    assert!(worker.responses.is_empty());
    for flags in [(true, false, false), (false, true, false), (false, false, true), (true, true, true)] {
        assert!(matches!(
            Worker::new_for_device(flags.0, flags.1, flags.2),
            Err(UnsupportedRemoteDevice)
        ));
    }
}

#[test]
fn capability_report_copies_each_field() {
    let init = device_init(
        Some(vec![("regs".to_string(), 0x1000, 0x1fff)]),
        None,
        Some(Some((0, 3, 0))),
    );
    assert_eq!(init.mmio.unwrap().static_regions, vec![("regs".to_string(), 0x1000, 0x1fff)]);
    assert!(init.pio.is_none());
    assert_eq!(init.pci, Some(PciInit { suggested_bdf: Some((0, 3, 0)) }));
    let init = device_init(None, Some(vec![("port".to_string(), 0x60, 0x64)]), Some(None));
    assert!(init.mmio.is_none());
    assert_eq!(init.pio.unwrap().static_regions, vec![("port".to_string(), 0x60, 0x64)]);
    assert_eq!(init.pci, Some(PciInit { suggested_bdf: None }));
}
