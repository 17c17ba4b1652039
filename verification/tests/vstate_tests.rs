use vmm_core::hypervisor::{
    Cap, CpuId, CpuidEntry, CreateDevice, DeviceFd, Hypervisor, PitConfig, Vcpu,
    VcpuExit, VcpuInit, Vm, DEV_TYPE_ARM_VGIC_V3, EAGAIN, EEXIST, EINTR, MAX_CPUID_ENTRIES,
};
use vmm_core::cap::cap_conv;
use vmm_core::memory::{GuestAddress, GuestMemory};
use vmm_core::vstate::{
    CpuFeaturesTemplate, CpuidOps, DeviceBus, Error, EventFd, GuestVcpu, GuestVm, HypContext,
    TimestampUs, VmConfig, MAGIC_IOPORT_SIGNAL_GUEST_BOOT_COMPLETE,
    MAGIC_VALUE_SIGNAL_GUEST_BOOT_COMPLETE,
};

// A scripted vCPU backend: each run call plays the next outcome, and a
// drained script halts.
struct MockVcpu {
    script: Vec<Result<VcpuExit, i32>>,
}

impl Vcpu for MockVcpu {
    // ghost model: never called at runtime
    fn model(&self) -> vmm_core::hypervisor::VcpuModel {
        unreachable!()
    }
    fn set_cpuid2(&mut self, _cpuid: &CpuId) -> Result<(), i32> {
        Ok(())
    }
    fn setup_msrs(&mut self) -> Result<(), i32> {
        Ok(())
    }
    fn setup_regs(&mut self, _kernel_start_addr: u64) -> Result<(), i32> {
        Ok(())
    }
    fn setup_fpu(&mut self) -> Result<(), i32> {
        Ok(())
    }
    fn setup_sregs(&mut self, _mem: &GuestMemory) -> Result<(), i32> {
        Ok(())
    }
    fn set_lint(&mut self) -> Result<(), i32> {
        Ok(())
    }
    fn vcpu_init(&mut self, _vi: &VcpuInit) -> Result<(), i32> {
        Ok(())
    }
    fn setup_aarch64_regs(
        &mut self,
        _id: u8,
        _kernel_load_addr: u64,
        _mem: &GuestMemory,
    ) -> Result<(), i32> {
        Ok(())
    }
    fn run(&mut self) -> Result<VcpuExit, i32> {
        if self.script.is_empty() {
            Ok(VcpuExit::Hlt)
        } else {
            self.script.remove(0)
        }
    }
    fn finish_io_in(&mut self, _port: u16, _data: &Vec<u8>) {}
    fn finish_mmio_read(&mut self, _addr: u64, _data: &Vec<u8>) {}
}

// A VM backend mirroring the kernel's ordering rules: a second interrupt
// chip reports the already-exists error, and on x86 the chip is refused
// once any vCPU exists.
struct MockVm {
    x86: bool,
    irqchip: bool,
    pit: bool,
    nvcpus: u8,
    vcpu_script: Vec<Result<VcpuExit, i32>>,
}

impl Vm for MockVm {
    type VcpuHandle = MockVcpu;

    // ghost model: never called at runtime
    fn model(&self) -> vmm_core::hypervisor::VmModel {
        unreachable!()
    }
    fn is_x86_arch(&self) -> bool {
        self.x86
    }
    fn create_vcpu(&mut self, _id: u8) -> Result<MockVcpu, i32> {
        self.nvcpus += 1;
        let mut script = Vec::new();
        std::mem::swap(&mut script, &mut self.vcpu_script);
        Ok(MockVcpu { script })
    }
    fn set_user_memory_region(
        &mut self,
        _slot: u32,
        _guest_phys_addr: u64,
        _memory_size: u64,
        _userspace_addr: u64,
        _flags: u32,
    ) -> Result<(), i32> {
        Ok(())
    }
    fn set_tss_address(&mut self, _offset: usize) -> Result<(), i32> {
        Ok(())
    }
    fn create_irq_chip(&mut self) -> Result<(), i32> {
        if self.irqchip {
            return Err(EEXIST);
        }
        if self.x86 && self.nvcpus > 0 {
            return Err(22);
        }
        self.irqchip = true;
        Ok(())
    }
    fn register_irqfd(&mut self, _fd: i32, _gsi: u32) -> Result<(), i32> {
        Ok(())
    }
    fn register_ioevent(
        &mut self,
        _fd: i32,
        _addr: &vmm_core::hypervisor::IoEventAddress,
        _datamatch: u64,
    ) -> Result<(), i32> {
        Ok(())
    }
    fn create_pit2(&mut self, _pit_config: PitConfig) -> Result<(), i32> {
        if self.pit {
            return Err(EEXIST);
        }
        self.pit = true;
        Ok(())
    }
    fn get_dirty_log(&self, _slot: u32, _memory_size: usize) -> Result<Vec<u64>, i32> {
        Ok(Vec::new())
    }
    fn create_device(&mut self, device: &mut CreateDevice) -> Result<DeviceFd, i32> {
        if device.dev_type == DEV_TYPE_ARM_VGIC_V3 {
            if self.irqchip {
                return Err(EEXIST);
            }
            self.irqchip = true;
        }
        device.fd = 43;
        Ok(DeviceFd::new(43))
    }
    fn get_preferred_target(&self, vi: &mut VcpuInit) -> Result<(), i32> {
        vi.target = 0x41;
        vi.features = [0, 0, 0, 0, 0, 0, 0];
        Ok(())
    }
}

// A driver stub over the mock VM; a prepared script is handed to the
// first vCPU the next VM creates.
struct MockHypervisor {
    x86: bool,
    cpuid: Vec<CpuidEntry>,
    script: std::cell::RefCell<Vec<Result<VcpuExit, i32>>>,
}

fn sample_cpuid() -> Vec<CpuidEntry> {
    vec![
        CpuidEntry { function: 0, index: 0, flags: 0, eax: 13, ebx: 1, ecx: 2, edx: 3 },
        CpuidEntry { function: 1, index: 0, flags: 0, eax: 7, ebx: 8, ecx: 9, edx: 10 },
    ]
}

impl MockHypervisor {
    fn new(x86: bool) -> Self {
        MockHypervisor { x86, cpuid: sample_cpuid(), script: std::cell::RefCell::new(Vec::new()) }
    }
}

impl Hypervisor for MockHypervisor {
    type VmHandle = MockVm;

    // ghost model: never called at runtime
    fn model(&self) -> vmm_core::hypervisor::HypervisorModel {
        unreachable!()
    }
    fn create_vm(&self) -> Result<MockVm, i32> {
        Ok(MockVm {
            x86: self.x86,
            irqchip: false,
            pit: false,
            nvcpus: 0,
            vcpu_script: self.script.take(),
        })
    }
    fn get_api_version(&self) -> i32 {
        12
    }
    fn check_extension(&self, _c: Cap) -> bool {
        true
    }
    fn get_vcpu_mmap_size(&self) -> Result<usize, i32> {
        Ok(4096)
    }
    fn get_supported_cpuid(&self, _max_entries_count: usize) -> Result<CpuId, i32> {
        Ok(CpuId { entries: self.cpuid.clone() })
    }
    fn get_emulated_cpuid(&self, _max_entries_count: usize) -> Result<CpuId, i32> {
        Ok(CpuId { entries: Vec::new() })
    }
    fn get_msr_index_list(&self) -> Result<Vec<u32>, i32> {
        Ok(vec![0x10, 0x1b])
    }
}

// A bus that records what it served and fills reads with a fixed byte.
struct MockBus {
    reads: Vec<(u64, usize)>,
    writes: Vec<(u64, Vec<u8>)>,
}

impl MockBus {
    fn new() -> Self {
        MockBus { reads: Vec::new(), writes: Vec::new() }
    }
}

impl DeviceBus for MockBus {
    // ghost model: never called at runtime
    fn ops(&self) -> vstd::seq::Seq<vmm_core::vstate::BusOp> {
        unreachable!()
    }
    fn read(&mut self, addr: u64, data: &mut Vec<u8>) {
        for b in data.iter_mut() {
            *b = 0xAB;
        }
        self.reads.push((addr, data.len()));
    }
    fn write(&mut self, addr: u64, data: &Vec<u8>) {
        self.writes.push((addr, data.clone()));
    }
}

// Identity CPUID transformations.
struct PassthroughCpuidOps;

impl CpuidOps for PassthroughCpuidOps {
    // ghost models: never called at runtime
    fn filtered(
        &self,
        _id: u8,
        _vcpu_count: u8,
        _ht_enabled: bool,
        _entries: vstd::seq::Seq<CpuidEntry>,
    ) -> Result<vstd::seq::Seq<CpuidEntry>, i32> {
        unreachable!()
    }
    fn templated(
        &self,
        _t: CpuFeaturesTemplate,
        _entries: vstd::seq::Seq<CpuidEntry>,
    ) -> vstd::seq::Seq<CpuidEntry> {
        unreachable!()
    }
    fn filter_cpuid(
        &self,
        _id: u8,
        _vcpu_count: u8,
        _ht_enabled: bool,
        _cpuid: &mut CpuId,
    ) -> Result<(), i32> {
        Ok(())
    }
    fn apply_template(&self, _t: CpuFeaturesTemplate, _cpuid: &mut CpuId) {}
}

fn x86_context() -> HypContext<MockHypervisor> {
    HypContext::new(MockHypervisor::new(true), 32, false)
}

fn setup_vcpu() -> (HypContext<MockHypervisor>, GuestVm<MockVm>, GuestVcpu<MockVcpu, MockBus>) {
    let hyp = x86_context();
    let gm = GuestMemory::new(&vec![(GuestAddress(0), 0x10000)]).unwrap();
    let mut vm = GuestVm::new(hyp.fd()).expect("Cannot create new vm");
    assert!(vm.memory_init(gm, &hyp).is_ok());

    let dummy_eventfd_1 = EventFd::from_raw(11);
    let dummy_eventfd_2 = EventFd::from_raw(12);
    let dummy_kbd_eventfd = EventFd::from_raw(13);
    vm.setup_irqchip(&dummy_eventfd_1, &dummy_eventfd_2, &dummy_kbd_eventfd).unwrap();
    vm.create_pit().unwrap();

    let vcpu = GuestVcpu::new(
        1,
        &mut vm,
        MockBus::new(),
        MockBus::new(),
        TimestampUs::default(),
    )
    .unwrap();
    (hyp, vm, vcpu)
}

#[test]
fn test_create_vm() {
    let hyp = x86_context();
    let vm = GuestVm::new(hyp.fd()).expect("Cannot create new vm");

    let cpuid = hyp
        .hyp
        .get_supported_cpuid(MAX_CPUID_ENTRIES)
        .expect("Cannot get supported cpuid");
    assert_eq!(vm.get_supported_cpuid().entries, cpuid.entries);
}

#[test]
fn test_vm_memory_init_success() {
    let hyp = x86_context();
    let mut gm = GuestMemory::new(&vec![(GuestAddress(0), 0x1000)]).unwrap();
    let obj_addr = GuestAddress(0xf0);
    gm.write_obj_at_addr(67u8, obj_addr).unwrap();
    let mut vm = GuestVm::new(hyp.fd()).expect("Cannot create new vm");
    assert!(vm.memory_init(gm, &hyp).is_ok());
    let read_val: u8 = vm.get_memory().unwrap().read_obj_from_addr(obj_addr).unwrap();
    assert_eq!(read_val, 67u8);
}

#[test]
fn test_vm_memory_init_failure() {
    let hyp = HypContext::new(MockHypervisor::new(true), 1, false);
    let mut vm = GuestVm::new(hyp.fd()).expect("new vm failed");

    let start_addr1 = GuestAddress(0x0);
    let start_addr2 = GuestAddress(0x1000);
    let gm = GuestMemory::new(&vec![(start_addr1, 0x1000), (start_addr2, 0x1000)]).unwrap();

    assert!(vm.memory_init(gm, &hyp).is_err());
}

#[test]
fn not_enough_mem_slots() {
    let hyp = HypContext::new(MockHypervisor::new(true), 1, false);
    let mut vm = GuestVm::new(hyp.fd()).expect("new vm failed");

    let start_addr1 = GuestAddress(0x0);
    let start_addr2 = GuestAddress(0x1000);
    let gm = GuestMemory::new(&vec![(start_addr1, 0x1000), (start_addr2, 0x1000)]).unwrap();

    assert_eq!(vm.memory_init(gm, &hyp), Err(Error::NotEnoughMemorySlots));
}

#[test]
fn test_setup_irqchip() {
    let hyp = x86_context();
    let mut vm = GuestVm::new(hyp.fd()).expect("Cannot create new vm");
    let dummy_eventfd_1 = EventFd::from_raw(21);
    let dummy_eventfd_2 = EventFd::from_raw(22);
    let dummy_kbd_eventfd = EventFd::from_raw(23);

    vm.setup_irqchip(&dummy_eventfd_1, &dummy_eventfd_2, &dummy_kbd_eventfd)
        .expect("Cannot setup irqchip");
    let _vcpu = GuestVcpu::new(
        1,
        &mut vm,
        MockBus::new(),
        MockBus::new(),
        TimestampUs::default(),
    )
    .unwrap();
    // Trying to setup two irqchips will result in the already-exists error.
    assert_eq!(
        vm.setup_irqchip(&dummy_eventfd_1, &dummy_eventfd_2, &dummy_kbd_eventfd),
        Err(Error::VmSetup(EEXIST))
    );
}

#[test]
fn vstate_test_setup_irqchip() {
    // On a non-x86 machine the interrupt controller is created after the
    // vCPUs, and a second creation still fails.
    let hyp = HypContext::new(MockHypervisor::new(false), 32, false);
    let mut vm = GuestVm::new(hyp.fd()).expect("Cannot create new vm");
    let vcpu_count = 1;
    let _vcpu = GuestVcpu::new(
        1,
        &mut vm,
        MockBus::new(),
        MockBus::new(),
        TimestampUs::default(),
    )
    .unwrap();

    vm.setup_irqchip_aarch64(vcpu_count).expect("Cannot setup irqchip");
    assert_eq!(vm.setup_irqchip_aarch64(vcpu_count), Err(Error::SetupGIC(EEXIST)));
}

#[test]
fn test_setup_irqchip_failure() {
    let hyp = x86_context();
    let mut vm = GuestVm::new(hyp.fd()).expect("Cannot create new vm");
    let _vcpu = GuestVcpu::new(
        1,
        &mut vm,
        MockBus::new(),
        MockBus::new(),
        TimestampUs::default(),
    )
    .unwrap();

    let dummy_eventfd_1 = EventFd::from_raw(31);
    let dummy_eventfd_2 = EventFd::from_raw(32);
    let dummy_kbd_eventfd = EventFd::from_raw(33);
    // Setting up the irqchip after creating a vCPU fails on x86.
    assert!(vm
        .setup_irqchip(&dummy_eventfd_1, &dummy_eventfd_2, &dummy_kbd_eventfd)
        .is_err());
}

#[test]
fn test_create_pit() {
    let hyp = x86_context();
    let mut vm = GuestVm::new(hyp.fd()).expect("Cannot create new vm");

    assert!(vm.create_pit().is_ok());
    // Trying to setup two PITs will result in the already-exists error.
    assert_eq!(vm.create_pit(), Err(Error::VmSetup(EEXIST)));
}

#[test]
fn test_configure_vcpu() {
    let (_hyp, vm, mut vcpu) = setup_vcpu();
    let ops = PassthroughCpuidOps;

    let vm_config = VmConfig::default();
    assert!(vcpu.configure(&vm_config, GuestAddress(0), &vm, &ops).is_ok());

    // Test configure while using the T2 template.
    let mut vm_config = VmConfig::default();
    vm_config.cpu_template = Some(CpuFeaturesTemplate::T2);
    assert!(vcpu.configure(&vm_config, GuestAddress(0), &vm, &ops).is_ok());

    // Test configure while using the C3 template.
    let mut vm_config = VmConfig::default();
    vm_config.cpu_template = Some(CpuFeaturesTemplate::C3);
    assert!(vcpu.configure(&vm_config, GuestAddress(0), &vm, &ops).is_ok());
}

#[test]
fn test_configure_vcpu_missing_config() {
    let (_hyp, vm, mut vcpu) = setup_vcpu();
    let ops = PassthroughCpuidOps;

    let mut vm_config = VmConfig::default();
    vm_config.vcpu_count = None;
    assert_eq!(
        vcpu.configure(&vm_config, GuestAddress(0), &vm, &ops),
        Err(Error::VcpuCountNotInitialized)
    );

    let mut vm_config = VmConfig::default();
    vm_config.ht_enabled = None;
    assert_eq!(
        vcpu.configure(&vm_config, GuestAddress(0), &vm, &ops),
        Err(Error::HTNotInitialized)
    );
}

#[test]
fn vstate_test_configure_vcpu() {
    // The Arm flavor, for the boot vCPU and for a secondary one.
    let hyp = HypContext::new(MockHypervisor::new(false), 32, false);
    let gm = GuestMemory::new(&vec![(GuestAddress(0), 0x10000)]).unwrap();
    let mut vm = GuestVm::new(hyp.fd()).expect("new vm failed");
    assert!(vm.memory_init(gm, &hyp).is_ok());

    let vm_config = VmConfig::default();

    let mut vcpu = GuestVcpu::new(
        0,
        &mut vm,
        MockBus::new(),
        MockBus::new(),
        TimestampUs::default(),
    )
    .unwrap();
    assert!(vcpu.configure_aarch64(&vm_config, GuestAddress(0), &vm).is_ok());

    let mut vcpu = GuestVcpu::new(
        1,
        &mut vm,
        MockBus::new(),
        MockBus::new(),
        TimestampUs::default(),
    )
    .unwrap();
    assert!(vcpu.configure_aarch64(&vm_config, GuestAddress(0), &vm).is_ok());
}

#[test]
fn test_handle_exit_dispatch() {
    let (_hyp, _vm, mut vcpu) = setup_vcpu();

    // Port input is served by the port bus and counted.
    assert!(vcpu.handle_exit(Ok(VcpuExit::IoIn(0x60, vec![0u8; 4]))).is_ok());
    assert_eq!(vcpu.metrics().exit_io_in, 1);

    // MMIO in both directions.
    assert!(vcpu.handle_exit(Ok(VcpuExit::MmioRead(0xd000_0000, vec![0u8; 8]))).is_ok());
    assert!(vcpu.handle_exit(Ok(VcpuExit::MmioWrite(0xd000_0000, vec![1u8; 8]))).is_ok());
    assert_eq!(vcpu.metrics().exit_mmio_read, 1);
    assert_eq!(vcpu.metrics().exit_mmio_write, 1);

    // A would-block or interrupted run call is absorbed silently: this is
    // how a signal kicks a vCPU out of the kernel without ending it.
    assert!(vcpu.handle_exit(Err(EAGAIN)).is_ok());
    assert!(vcpu.handle_exit(Err(EINTR)).is_ok());
    assert_eq!(vcpu.metrics().failures, 0);

    // Anything else is fatal.
    assert_eq!(vcpu.handle_exit(Err(5)), Err(Error::VcpuUnhandledKvmExit));
    assert_eq!(vcpu.metrics().failures, 1);
    assert_eq!(vcpu.handle_exit(Ok(VcpuExit::Hlt)), Err(Error::VcpuUnhandledKvmExit));
    assert_eq!(vcpu.handle_exit(Ok(VcpuExit::Shutdown)), Err(Error::VcpuUnhandledKvmExit));
    // Halt and shutdown end the loop without counting a failure.
    assert_eq!(vcpu.metrics().failures, 1);
    assert_eq!(vcpu.handle_exit(Ok(VcpuExit::FailEntry)), Err(Error::VcpuUnhandledKvmExit));
    assert_eq!(vcpu.metrics().failures, 2);
}

#[test]
fn test_boot_signal_latch() {
    let (_hyp, _vm, mut vcpu) = setup_vcpu();
    assert!(!vcpu.boot_complete());

    // A write elsewhere does not announce the boot.
    assert!(vcpu
        .handle_exit(Ok(VcpuExit::IoOut(0x3f8, vec![MAGIC_VALUE_SIGNAL_GUEST_BOOT_COMPLETE])))
        .is_ok());
    assert!(!vcpu.boot_complete());

    // The marker byte on the magic port does, and it is counted.
    assert!(vcpu
        .handle_exit(Ok(VcpuExit::IoOut(
            MAGIC_IOPORT_SIGNAL_GUEST_BOOT_COMPLETE,
            vec![MAGIC_VALUE_SIGNAL_GUEST_BOOT_COMPLETE],
        )))
        .is_ok());
    assert!(vcpu.boot_complete());
    assert_eq!(vcpu.metrics().exit_io_out, 2);
}

#[test]
fn test_run_vcpu() {
    // A vCPU whose run call is interrupted by signals keeps going; a halt
    // ends the loop.
    let drv = MockHypervisor::new(true);
    drv.script.replace(vec![
        Err(EINTR),
        Err(EAGAIN),
        Ok(VcpuExit::IoOut(
            MAGIC_IOPORT_SIGNAL_GUEST_BOOT_COMPLETE,
            vec![MAGIC_VALUE_SIGNAL_GUEST_BOOT_COMPLETE],
        )),
        Ok(VcpuExit::Hlt),
    ]);
    let hyp = HypContext::new(drv, 32, false);
    let gm = GuestMemory::new(&vec![(GuestAddress(0), 0x10000)]).unwrap();
    let mut vm = GuestVm::new(hyp.fd()).expect("Cannot create new vm");
    assert!(vm.memory_init(gm, &hyp).is_ok());
    vm.setup_irqchip(&EventFd::from_raw(11), &EventFd::from_raw(12), &EventFd::from_raw(13))
        .unwrap();
    let mut vcpu = GuestVcpu::new(
        0,
        &mut vm,
        MockBus::new(),
        MockBus::new(),
        TimestampUs::default(),
    )
    .unwrap();

    // After two absorbed signals and one served exit, the loop is alive.
    assert!(vcpu.run(3));
    assert!(vcpu.boot_complete());
    assert_eq!(vcpu.metrics().exit_io_out, 1);
    // The halt ends it.
    assert!(!vcpu.run(10));
}

#[test]
fn test_cap_conv() {
    assert_eq!(cap_conv(Cap::Irqchip), 0);
    assert_eq!(cap_conv(Cap::Hlt), 1);
    assert_eq!(cap_conv(Cap::UserMemory), 3);
    assert_eq!(cap_conv(Cap::NrMemslots), 10);
    assert_eq!(cap_conv(Cap::Irqfd), 32);
    assert_eq!(cap_conv(Cap::ArmPsci02), 102);
    assert_eq!(cap_conv(Cap::CheckExtensionVm), 105);
    assert_eq!(cap_conv(Cap::ImmediateExit), 136);
}
