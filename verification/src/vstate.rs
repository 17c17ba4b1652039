//! The guest-machine lifecycle engine: a VM wrapper that installs guest
//! memory and the interrupt chip and produces vCPUs, and a vCPU wrapper
//! that applies register configuration and dispatches exits to device
//! buses. Both are generic over the hypervisor backend traits, so a test
//! backend can stand in for the kernel.

use vstd::prelude::*;
use crate::hypervisor::{
    CpuId, CpuidEntry, CreateDevice, DeviceFd, Hypervisor, MemSlot, PitConfig, Vcpu, VcpuExit,
    VcpuInit, VcpuModel, Vm, VmModel, ARM_VCPU_POWER_OFF, ARM_VCPU_PSCI_0_2, DEV_TYPE_ARM_VGIC_V3,
    EAGAIN, EEXIST, EINTR, MAX_CPUID_ENTRIES, PIT_SPEAKER_DUMMY,
};
use crate::memory::{GuestAddress, GuestMemory, GuestMemoryError, MemRegionView};

verus! {

/// Flag requesting dirty-page logging on a memory slot.
pub const MEM_LOG_DIRTY_PAGES: u32 = 0x1;

/// The guest-physical base of the task state segment.
pub const TSS_ADDRESS: usize = 0xfffbd000;

/// Port a guest writes the boot-complete marker to.
pub const MAGIC_IOPORT_SIGNAL_GUEST_BOOT_COMPLETE: u16 = 0x03f0;

/// The boot-complete marker byte.
pub const MAGIC_VALUE_SIGNAL_GUEST_BOOT_COMPLETE: u8 = 123;

/// Errors associated with the wrappers over the kernel virtualization
/// calls. Payloads carry the OS error number the backend surfaced.
#[derive(Clone, Copy, Debug, PartialEq, Eq, Structural)]
pub enum Error {
    /// A CPUID filtering call failed.
    CpuId(i32),
    /// Invalid guest memory configuration.
    GuestMemory(GuestMemoryError),
    /// Hyperthreading flag is not initialized.
    HTNotInitialized,
    /// vCPU count is not initialized.
    VcpuCountNotInitialized,
    /// Cannot open the VM file descriptor.
    Vm(i32),
    /// Cannot open the VCPU file descriptor.
    Vcpu(i32),
    /// Cannot configure the microvm.
    VmSetup(i32),
    /// Cannot run the VCPUs.
    VcpuRun(i32),
    /// Installing the per-vCPU CPUID failed.
    SetSupportedCpusFailed(i32),
    /// The number of configured slots is bigger than the maximum reported
    /// by the driver.
    NotEnoughMemorySlots,
    /// Cannot set the local interruption due to bad configuration.
    LocalIntConfiguration(i32),
    /// Cannot set the memory regions.
    SetUserMemoryRegion(i32),
    /// Error configuring the model-specific registers.
    MSRSConfiguration(i32),
    /// Error configuring the general purpose registers.
    REGSConfiguration(i32),
    /// Error configuring the special registers.
    SREGSConfiguration(i32),
    /// Error configuring the floating point related registers.
    FPUConfiguration(i32),
    /// Cannot configure the IRQ.
    Irq(i32),
    /// Cannot spawn a new vCPU thread.
    VcpuSpawn(i32),
    /// Unexpected exit reason on vCPU run.
    VcpuUnhandledKvmExit,
    /// Error setting up the global interrupt controller.
    SetupGIC(i32),
    /// Error getting the vCPU preferred target on Arm.
    VcpuArmPreferredTarget(i32),
    /// Error doing vCPU init on Arm.
    VcpuArmInit(i32),
}

/// A creation timestamp: wall-clock and cpu-time microseconds.
#[derive(Clone, Copy, Debug, PartialEq, Eq, Structural)]
pub struct TimestampUs {
    pub time_us: u64,
    pub cputime_us: u64,
}

impl Default for TimestampUs {
    /// The zero timestamp.
    fn default() -> (r: Self)
        ensures
            r.time_us == 0,
            r.cputime_us == 0,
    {
        TimestampUs { time_us: 0, cputime_us: 0 }
    }
}

/// A handle on an eventfd the embedder created; the core only wires its
/// raw fd into the backend.
#[derive(Clone, Copy, Debug, PartialEq, Eq, Structural)]
pub struct EventFd {
    pub fd: i32,
}

impl EventFd {
    /// Wraps a raw eventfd number.
    pub fn from_raw(fd: i32) -> (r: Self)
        ensures
            r.fd == fd,
    {
        EventFd { fd }
    }

    /// The raw fd.
    pub fn as_raw_fd(&self) -> (r: i32)
        ensures
            r == self.fd,
    {
        self.fd
    }
}

/// A CPU features template rewriting the filtered CPUID.
#[derive(Clone, Copy, Debug, PartialEq, Eq, Structural)]
pub enum CpuFeaturesTemplate {
    T2,
    C3,
}

/// The machine configuration a vCPU is set up from.
#[derive(Clone, Copy, Debug, PartialEq, Eq, Structural)]
pub struct VmConfig {
    pub vcpu_count: Option<u8>,
    pub ht_enabled: Option<bool>,
    pub cpu_template: Option<CpuFeaturesTemplate>,
}

impl Default for VmConfig {
    /// One vCPU, hyperthreading off, no template.
    fn default() -> (r: Self)
        ensures
            r.vcpu_count == Some(1u8),
            r.ht_enabled == Some(false),
            r.cpu_template is None,
    {
        VmConfig { vcpu_count: Some(1), ht_enabled: Some(false), cpu_template: None }
    }
}

/// The CPUID transformations of the architecture library: topology
/// filtering and feature templates. Each transformation's result is named
/// by a spec function of the trait, so a caller's contract can say exactly
/// which table was installed.
pub trait CpuidOps: Sized {
    /// What filtering yields on the given table, or the error it reports.
    spec fn filtered(&self, id: u8, vcpu_count: u8, ht_enabled: bool, entries: Seq<CpuidEntry>)
        -> Result<Seq<CpuidEntry>, i32>;

    /// What a template rewrites the given table to.
    spec fn templated(&self, t: CpuFeaturesTemplate, entries: Seq<CpuidEntry>) -> Seq<CpuidEntry>;

    /// Mutates the table to present the correct topology for the vCPU.
    fn filter_cpuid(&self, id: u8, vcpu_count: u8, ht_enabled: bool, cpuid: &mut CpuId) -> (r:
        Result<(), i32>)
        ensures
            match self.filtered(id, vcpu_count, ht_enabled, old(cpuid)@) {
                Ok(e) => r.is_ok() && final(cpuid)@ == e,
                Err(code) => r == Result::<(), i32>::Err(code) && final(cpuid)@ == old(cpuid)@,
            },
    ;

    /// Rewrites the table according to the template.
    fn apply_template(&self, t: CpuFeaturesTemplate, cpuid: &mut CpuId)
        ensures
            final(cpuid)@ == self.templated(t, old(cpuid)@),
    ;
}

/// One operation a device bus served.
pub enum BusOp {
    /// A read of the given length at the given address.
    Read(u64, nat),
    /// A write of the given bytes at the given address.
    Write(u64, Seq<u8>),
}

/// A device bus: the core only requires reads and writes, both infallible;
/// lookup and locking are the bus's concern. The model records the
/// operations served, in order.
pub trait DeviceBus: Sized {
    /// The operations this bus has served.
    spec fn ops(&self) -> Seq<BusOp>;

    /// Reads from the device at `addr` into `data`, which keeps its length.
    fn read(&mut self, addr: u64, data: &mut Vec<u8>)
        ensures
            final(self).ops() == old(self).ops().push(BusOp::Read(addr, old(data)@.len() as nat)),
            final(data)@.len() == old(data)@.len(),
    ;

    /// Writes `data` to the device at `addr`.
    fn write(&mut self, addr: u64, data: &Vec<u8>)
        ensures
            final(self).ops() == old(self).ops().push(BusOp::Write(addr, data@)),
    ;
}

/// The driver context a machine is built in: the driver itself and the
/// deployment limits and options that frame it.
pub struct HypContext<H: Hypervisor> {
    /// The hypervisor driver.
    pub hyp: H,
    /// The driver-reported maximum number of memory slots.
    pub max_memslots: usize,
    /// Whether memory slots are installed with dirty-page logging.
    pub track_dirty_pages: bool,
}

impl<H: Hypervisor> HypContext<H> {
    /// Wraps a driver with its limits.
    pub fn new(hyp: H, max_memslots: usize, track_dirty_pages: bool) -> (r: Self)
        ensures
            r.hyp == hyp,
            r.max_memslots == max_memslots,
            r.track_dirty_pages == track_dirty_pages,
    {
        HypContext { hyp, max_memslots, track_dirty_pages }
    }

    /// The driver.
    pub fn fd(&self) -> (r: &H)
        ensures
            r == &self.hyp,
    {
        &self.hyp
    }

    /// The driver-reported maximum number of memory slots.
    pub fn max_memslots(&self) -> (r: usize)
        ensures
            r == self.max_memslots,
    {
        self.max_memslots
    }
}

/// The memory-slot flags the context asks for.
pub open spec fn spec_mem_flags(track_dirty_pages: bool) -> u32 {
    if track_dirty_pages {
        MEM_LOG_DIRTY_PAGES
    } else {
        0
    }
}

/// The slot map after installing the first `n` regions, slot-numbered
/// densely from zero in region order.
pub open spec fn spec_install_slots(
    m: Map<u32, MemSlot>,
    regions: Seq<MemRegionView>,
    flags: u32,
    n: int,
) -> Map<u32, MemSlot>
    decreases n,
{
    if n <= 0 {
        m
    } else {
        spec_install_slots(m, regions, flags, n - 1).insert(
            (n - 1) as u32,
            MemSlot {
                guest_phys_addr: regions[n - 1].guest_base as u64,
                memory_size: regions[n - 1].data.len() as u64,
                userspace_addr: 0,
                flags,
            },
        )
    }
}

/// A slot number is installed exactly when it was installed before or
/// numbers one of the new regions.
pub proof fn lemma_install_slots_dom(
    m: Map<u32, MemSlot>,
    regions: Seq<MemRegionView>,
    flags: u32,
    n: int,
)
    requires
        0 <= n <= u32::MAX,
    ensures
        forall|s: u32|
            #[trigger] spec_install_slots(m, regions, flags, n).dom().contains(s) <==> (
            m.dom().contains(s) || s < n),
    decreases n,
{
    if n > 0 {
        lemma_install_slots_dom(m, regions, flags, n - 1);
        assert forall|s: u32|
            #[trigger] spec_install_slots(m, regions, flags, n).dom().contains(s) <==> (
            m.dom().contains(s) || s < n) by {
            assert(spec_install_slots(m, regions, flags, n).dom() =~= spec_install_slots(
                m,
                regions,
                flags,
                n - 1,
            ).dom().insert((n - 1) as u32));
            assert(spec_install_slots(m, regions, flags, n - 1).dom().contains(s) <==> (
            m.dom().contains(s) || s < n - 1));
        }
    }
}

/// Installing `n` regions into an empty slot map leaves exactly `n` slots:
/// the number of installed memory slots is the number of regions, which
/// callers keep at or under the driver-reported maximum.
pub proof fn lemma_install_slots_count(
    m: Map<u32, MemSlot>,
    regions: Seq<MemRegionView>,
    flags: u32,
    n: int,
)
    requires
        0 <= n <= u32::MAX,
        m.dom() == Set::<u32>::empty(),
    ensures
        spec_install_slots(m, regions, flags, n).dom().finite(),
        spec_install_slots(m, regions, flags, n).dom().len() == n,
    decreases n,
{
    if n == 0 {
        assert(spec_install_slots(m, regions, flags, 0) == m);
    } else {
        lemma_install_slots_count(m, regions, flags, n - 1);
        lemma_install_slots_dom(m, regions, flags, n - 1);
        let prev = spec_install_slots(m, regions, flags, n - 1);
        assert(!Set::<u32>::empty().contains((n - 1) as u32));
        assert(!prev.dom().contains((n - 1) as u32));
        assert(spec_install_slots(m, regions, flags, n).dom() =~= prev.dom().insert(
            (n - 1) as u32,
        ));
    }
}

/// A wrapper around creating and using a VM.
pub struct GuestVm<V: Vm> {
    fd: V,
    guest_mem: Option<GuestMemory>,
    supported_cpuid: CpuId,
    // On aarch64 the fd obtained by creating the interrupt controller
    // device is kept around.
    irqchip_handle: Option<DeviceFd>,
}

impl<V: Vm> GuestVm<V> {
    /// The modelled kernel-side state of the VM.
    pub closed spec fn backend(&self) -> VmModel {
        self.fd.model()
    }

    /// The installed guest memory, if any.
    pub closed spec fn mem(&self) -> Option<Seq<MemRegionView>> {
        match self.guest_mem {
            Option::Some(m) => Option::Some(m@),
            Option::None => Option::None,
        }
    }

    /// The cached supported-CPUID table.
    pub closed spec fn cpuid_spec(&self) -> Seq<CpuidEntry> {
        self.supported_cpuid@
    }

    /// The kept interrupt-controller device fd, if any.
    pub closed spec fn gic_handle(&self) -> Option<DeviceFd> {
        self.irqchip_handle
    }

    /// Constructs a new VM through the given driver, caching the
    /// driver-supported CPUID table at creation time.
    pub fn new<H: Hypervisor<VmHandle = V>>(hyp: &H) -> (r: Result<GuestVm<V>, Error>)
        ensures
            match r {
                Ok(vm) => {
                    &&& vm.backend().is_x86 == hyp.model().is_x86
                    &&& !vm.backend().irqchip
                    &&& !vm.backend().pit
                    &&& vm.backend().nvcpus == 0
                    &&& vm.backend().slots == Map::<u32, MemSlot>::empty()
                    &&& vm.cpuid_spec() == hyp.model().supported_cpuid
                    &&& vm.mem() is None
                    &&& vm.gic_handle() is None
                },
                Err(e) => e matches Error::Vm(_),
            },
    {
        let vm_fd = match hyp.create_vm() {
            Ok(fd) => fd,
            Err(e) => {
                return Err(Error::Vm(e));
            },
        };
        let cpuid = match hyp.get_supported_cpuid(MAX_CPUID_ENTRIES) {
            Ok(c) => c,
            Err(e) => {
                return Err(Error::Vm(e));
            },
        };
        Ok(GuestVm { fd: vm_fd, guest_mem: None, supported_cpuid: cpuid, irqchip_handle: None })
    }

    /// Returns a copy of the supported CPUID table for this VM, as it was
    /// fetched from the driver at creation time.
    pub fn get_supported_cpuid(&self) -> (r: CpuId)
        ensures
            r@ == self.cpuid_spec(),
    {
        self.supported_cpuid.duplicate()
    }

    /// Initializes the guest memory: refuses more regions than the driver
    /// allows, touching nothing, then installs each region in a slot
    /// numbered by its index, with dirty-page logging when the context
    /// asks for it, and on x86 sets the task-state-segment address. The
    /// memory counts as installed only when every step succeeded: a
    /// failure after some slots were installed leaves `get_memory` empty.
    pub fn memory_init<H: Hypervisor>(
        &mut self,
        guest_mem: GuestMemory,
        hyp_context: &HypContext<H>,
    ) -> (r: Result<(), Error>)
        ensures
            r == Result::<(), Error>::Err(Error::NotEnoughMemorySlots) <==> guest_mem@.len()
                > hyp_context.max_memslots,
            r == Result::<(), Error>::Err(Error::NotEnoughMemorySlots) ==> final(self).backend()
                == old(self).backend(),
            r.is_ok() ==> {
                &&& final(self).mem() == Option::Some(guest_mem@)
                &&& final(self).backend() == (VmModel {
                    slots: spec_install_slots(
                        old(self).backend().slots,
                        guest_mem@,
                        spec_mem_flags(hyp_context.track_dirty_pages),
                        guest_mem@.len() as int,
                    ),
                    tss_addr: if old(self).backend().is_x86 {
                        Option::Some(TSS_ADDRESS)
                    } else {
                        old(self).backend().tss_addr
                    },
                    ..old(self).backend()
                })
            },
            r.is_err() ==> final(self).mem() == old(self).mem(),
            r.is_err() ==> (r matches Err(Error::NotEnoughMemorySlots) || r matches Err(
                Error::SetUserMemoryRegion(_),
            ) || r matches Err(Error::VmSetup(_))),
            final(self).cpuid_spec() == old(self).cpuid_spec(),
            final(self).backend().is_x86 == old(self).backend().is_x86,
            final(self).backend().irqchip == old(self).backend().irqchip,
            final(self).backend().nvcpus == old(self).backend().nvcpus,
    {
        let n = guest_mem.num_regions();
        if n > hyp_context.max_memslots() {
            return Err(Error::NotEnoughMemorySlots);
        }
        let flags: u32 = if hyp_context.track_dirty_pages {
            MEM_LOG_DIRTY_PAGES
        } else {
            0
        };
        let ghost m0 = self.fd.model();
        let mut index: usize = 0;
        while index < n
            invariant
                index <= n,
                n == guest_mem@.len(),
                n <= hyp_context.max_memslots,
                m0 == old(self).backend(),
                flags == spec_mem_flags(hyp_context.track_dirty_pages),
                self.fd.model() == (VmModel {
                    slots: spec_install_slots(m0.slots, guest_mem@, flags, index as int),
                    ..m0
                }),
                self.guest_mem == old(self).guest_mem,
                self.supported_cpuid == old(self).supported_cpuid,
                self.irqchip_handle == old(self).irqchip_handle,
            decreases n - index,
        {
            let (guest_addr, size) = guest_mem.region_info(index);
            let slot = #[verifier::truncate] (index as u32);
            let guest_phys_addr = guest_addr.offset() as u64;
            let memory_size = size as u64;
            // The backend owns the host mapping of each region; the model
            // carries no host address of its own.
            let userspace_addr: u64 = 0;
            match self.fd.set_user_memory_region(
                slot,
                guest_phys_addr,
                memory_size,
                userspace_addr,
                flags,
            ) {
                Ok(()) => {},
                Err(e) => {
                    return Err(Error::SetUserMemoryRegion(e));
                },
            }
            index = index + 1;
        }
        if self.fd.is_x86_arch() {
            match self.fd.set_tss_address(TSS_ADDRESS) {
                Ok(()) => {},
                Err(e) => {
                    return Err(Error::VmSetup(e));
                },
            }
        }
        self.guest_mem = Some(guest_mem);
        Ok(())
    }

    /// Creates the in-kernel interrupt chip and binds the serial-console
    /// and keyboard eventfds to their interrupt lines. A second call fails
    /// with the already-exists error; on x86 the kernel refuses the chip
    /// once any vCPU exists.
    pub fn setup_irqchip(
        &mut self,
        com_evt_1_3: &EventFd,
        com_evt_2_4: &EventFd,
        kbd_evt: &EventFd,
    ) -> (r: Result<(), Error>)
        ensures
            old(self).backend().irqchip ==> r == Result::<(), Error>::Err(Error::VmSetup(EEXIST))
                && final(self).backend() == old(self).backend(),
            old(self).backend().is_x86 && old(self).backend().nvcpus > 0 ==> r.is_err(),
            r.is_ok() ==> final(self).backend() == (VmModel {
                irqchip: true,
                irqfds: old(self).backend().irqfds.push((com_evt_1_3.fd, 4u32)).push(
                    (com_evt_2_4.fd, 3u32),
                ).push((kbd_evt.fd, 1u32)),
                ..old(self).backend()
            }),
            r.is_err() ==> (r matches Err(Error::VmSetup(_)) || r matches Err(Error::Irq(_))),
            r.is_ok() ==> !old(self).backend().irqchip,
            final(self).mem() == old(self).mem(),
            final(self).cpuid_spec() == old(self).cpuid_spec(),
            final(self).backend().nvcpus == old(self).backend().nvcpus,
            final(self).backend().is_x86 == old(self).backend().is_x86,
    {
        match self.fd.create_irq_chip() {
            Ok(()) => {},
            Err(e) => {
                return Err(Error::VmSetup(e));
            },
        }
        match self.fd.register_irqfd(com_evt_1_3.as_raw_fd(), 4) {
            Ok(()) => {},
            Err(e) => {
                return Err(Error::Irq(e));
            },
        }
        match self.fd.register_irqfd(com_evt_2_4.as_raw_fd(), 3) {
            Ok(()) => {},
            Err(e) => {
                return Err(Error::Irq(e));
            },
        }
        match self.fd.register_irqfd(kbd_evt.as_raw_fd(), 1) {
            Ok(()) => {},
            Err(e) => {
                return Err(Error::Irq(e));
            },
        }
        Ok(())
    }

    /// Creates the in-kernel global interrupt controller device, keeping
    /// its fd. May be called after vCPU creation; a second call fails with
    /// the already-exists error.
    pub fn setup_irqchip_aarch64(&mut self, vcpu_count: u8) -> (r: Result<(), Error>)
        ensures
            old(self).backend().irqchip ==> r == Result::<(), Error>::Err(Error::SetupGIC(EEXIST))
                && final(self).backend() == old(self).backend(),
            r.is_ok() ==> final(self).backend() == (VmModel {
                irqchip: true,
                ..old(self).backend()
            }) && final(self).gic_handle() is Some,
            r.is_err() ==> r matches Err(Error::SetupGIC(_)),
            r.is_err() ==> final(self).gic_handle() == old(self).gic_handle(),
            r.is_ok() ==> !old(self).backend().irqchip,
            final(self).mem() == old(self).mem(),
            final(self).cpuid_spec() == old(self).cpuid_spec(),
            final(self).backend().nvcpus == old(self).backend().nvcpus,
    {
        // The controller is sized for `vcpu_count` vCPUs by the backend.
        let _ = vcpu_count;
        let mut device = CreateDevice { dev_type: DEV_TYPE_ARM_VGIC_V3, fd: 0, flags: 0 };
        match self.fd.create_device(&mut device) {
            Ok(fd) => {
                self.irqchip_handle = Some(fd);
                Ok(())
            },
            Err(e) => Err(Error::SetupGIC(e)),
        }
    }

    /// Creates the in-kernel programmable interval timer, with the dummy
    /// speaker port stub enabled so that guest writes to the speaker port
    /// do not exit to user space.
    pub fn create_pit(&mut self) -> (r: Result<(), Error>)
        ensures
            old(self).backend().pit ==> r == Result::<(), Error>::Err(Error::VmSetup(EEXIST))
                && final(self).backend() == old(self).backend(),
            r.is_ok() ==> final(self).backend() == (VmModel {
                pit: true,
                pit_flags: Some(PIT_SPEAKER_DUMMY),
                ..old(self).backend()
            }),
            r.is_err() ==> r matches Err(Error::VmSetup(_)),
            final(self).mem() == old(self).mem(),
            final(self).cpuid_spec() == old(self).cpuid_spec(),
    {
        let mut pit_config = PitConfig::default();
        pit_config.flags = PIT_SPEAKER_DUMMY;
        match self.fd.create_pit2(pit_config) {
            Ok(()) => Ok(()),
            Err(e) => Err(Error::VmSetup(e)),
        }
    }

    /// Gets a reference to the guest memory owned by this VM.
    pub fn get_memory(&self) -> (r: Option<&GuestMemory>)
        ensures
            match r {
                Option::Some(m) => self.mem() == Option::Some(m@),
                Option::None => self.mem() is None,
            },
    {
        match &self.guest_mem {
            Option::Some(m) => Option::Some(m),
            Option::None => Option::None,
        }
    }

    /// Gets a reference to the backend handle owned by this VM.
    pub fn get_fd(&self) -> (r: &V)
        ensures
            r.model() == self.backend(),
    {
        &self.fd
    }
}

/// Per-vCPU exit counters. Increments wrap around, as a shared counter's
/// would.
#[derive(Clone, Copy, Debug, PartialEq, Eq, Structural)]
pub struct VcpuMetrics {
    pub exit_io_in: u64,
    pub exit_io_out: u64,
    pub exit_mmio_read: u64,
    pub exit_mmio_write: u64,
    pub failures: u64,
}

impl Default for VcpuMetrics {
    /// All counters at zero.
    fn default() -> (r: Self)
        ensures
            r == (VcpuMetrics {
                exit_io_in: 0,
                exit_io_out: 0,
                exit_mmio_read: 0,
                exit_mmio_write: 0,
                failures: 0,
            }),
    {
        VcpuMetrics { exit_io_in: 0, exit_io_out: 0, exit_mmio_read: 0, exit_mmio_write: 0, failures: 0 }
    }
}

/// Mathematical image of a vCPU wrapper: the backend's state and
/// everything the dispatcher owns.
#[verifier::ext_equal]
pub struct GuestVcpuState {
    pub vcpu: VcpuModel,
    pub cpuid: Seq<CpuidEntry>,
    pub id: u8,
    pub metrics: VcpuMetrics,
    pub boot_complete: bool,
    pub io_ops: Seq<BusOp>,
    pub mmio_ops: Seq<BusOp>,
    pub create_ts: TimestampUs,
}

/// Whether the dispatch loop goes on after this run outcome: device I/O is
/// served, and a would-block or interrupted run call resumes silently (this
/// is how a signal kicks a vCPU without killing it).
pub open spec fn spec_exit_ok(outcome: Result<VcpuExit, i32>) -> bool {
    match outcome {
        Ok(exit) => match exit {
            VcpuExit::IoIn(_, _) => true,
            VcpuExit::IoOut(_, _) => true,
            VcpuExit::MmioRead(_, _) => true,
            VcpuExit::MmioWrite(_, _) => true,
            _ => false,
        },
        Err(e) => e == EAGAIN || e == EINTR,
    }
}

/// Whether this outcome is the guest's boot-complete marker: the marker
/// byte written to the magic port.
pub open spec fn spec_is_boot_signal(outcome: Result<VcpuExit, i32>) -> bool {
    match outcome {
        Ok(exit) => match exit {
            VcpuExit::IoOut(port, data) => port == MAGIC_IOPORT_SIGNAL_GUEST_BOOT_COMPLETE
                && data@.len() > 0 && data@[0] == MAGIC_VALUE_SIGNAL_GUEST_BOOT_COMPLETE,
            _ => false,
        },
        _ => false,
    }
}

/// The counters after one run outcome: the served exit's counter steps,
/// and a fatal exit or run error other than would-block / interrupted
/// counts a failure. Halt and shutdown end the loop without counting one.
pub open spec fn spec_metrics_after(m: VcpuMetrics, outcome: Result<VcpuExit, i32>) -> VcpuMetrics {
    match outcome {
        Ok(exit) => match exit {
            VcpuExit::IoIn(_, _) => VcpuMetrics { exit_io_in: spec_wrap_inc(m.exit_io_in), ..m },
            VcpuExit::IoOut(_, _) => VcpuMetrics { exit_io_out: spec_wrap_inc(m.exit_io_out), ..m },
            VcpuExit::MmioRead(_, _) => VcpuMetrics {
                exit_mmio_read: spec_wrap_inc(m.exit_mmio_read),
                ..m
            },
            VcpuExit::MmioWrite(_, _) => VcpuMetrics {
                exit_mmio_write: spec_wrap_inc(m.exit_mmio_write),
                ..m
            },
            VcpuExit::Hlt => m,
            VcpuExit::Shutdown => m,
            _ => VcpuMetrics { failures: spec_wrap_inc(m.failures), ..m },
        },
        Err(e) => if e == EAGAIN || e == EINTR {
            m
        } else {
            VcpuMetrics { failures: spec_wrap_inc(m.failures), ..m }
        },
    }
}

/// The bus histories after one run outcome: the served operation appended
/// to the port-I/O or MMIO bus.
pub open spec fn spec_bus_after(
    io: Seq<BusOp>,
    mmio: Seq<BusOp>,
    outcome: Result<VcpuExit, i32>,
) -> (Seq<BusOp>, Seq<BusOp>) {
    match outcome {
        Ok(exit) => match exit {
            VcpuExit::IoIn(port, data) => (io.push(BusOp::Read(port as u64, data@.len())), mmio),
            VcpuExit::IoOut(port, data) => (io.push(BusOp::Write(port as u64, data@)), mmio),
            VcpuExit::MmioRead(addr, data) => (io, mmio.push(BusOp::Read(addr, data@.len()))),
            VcpuExit::MmioWrite(addr, data) => (io, mmio.push(BusOp::Write(addr, data@))),
            _ => (io, mmio),
        },
        _ => (io, mmio),
    }
}

/// The whole effect of dispatching one run outcome.
pub open spec fn spec_handle_rel(
    pre: GuestVcpuState,
    post: GuestVcpuState,
    outcome: Result<VcpuExit, i32>,
    r: Result<(), Error>,
) -> bool {
    &&& r.is_ok() == spec_exit_ok(outcome)
    &&& (r.is_err() ==> r == Result::<(), Error>::Err(Error::VcpuUnhandledKvmExit))
    &&& post.vcpu == pre.vcpu
    &&& post.cpuid == pre.cpuid
    &&& post.id == pre.id
    &&& post.create_ts == pre.create_ts
    &&& post.metrics == spec_metrics_after(pre.metrics, outcome)
    &&& post.boot_complete == (pre.boot_complete || spec_is_boot_signal(outcome))
    &&& post.io_ops == spec_bus_after(pre.io_ops, pre.mmio_ops, outcome).0
    &&& post.mmio_ops == spec_bus_after(pre.io_ops, pre.mmio_ops, outcome).1
}

/// The dispatcher state after serving one run outcome.
pub open spec fn spec_dispatch_step(
    pre: GuestVcpuState,
    outcome: Result<VcpuExit, i32>,
) -> GuestVcpuState {
    GuestVcpuState {
        metrics: spec_metrics_after(pre.metrics, outcome),
        boot_complete: pre.boot_complete || spec_is_boot_signal(outcome),
        io_ops: spec_bus_after(pre.io_ops, pre.mmio_ops, outcome).0,
        mmio_ops: spec_bus_after(pre.io_ops, pre.mmio_ops, outcome).1,
        ..pre
    }
}

/// The dispatch relation pins the post state as one step on the pre state.
pub proof fn lemma_handle_rel_step(
    pre: GuestVcpuState,
    post: GuestVcpuState,
    outcome: Result<VcpuExit, i32>,
    r: Result<(), Error>,
)
    requires
        spec_handle_rel(pre, post, outcome, r),
    ensures
        post == spec_dispatch_step(pre, outcome),
        r.is_ok() == spec_exit_ok(outcome),
{
    assert(post =~= spec_dispatch_step(pre, outcome));
}

/// The dispatcher state after serving a trace of run outcomes, in order.
pub open spec fn spec_dispatch_trace(
    pre: GuestVcpuState,
    outcomes: Seq<Result<VcpuExit, i32>>,
) -> GuestVcpuState
    decreases outcomes.len(),
{
    if outcomes.len() <= 0 {
        pre
    } else {
        spec_dispatch_step(spec_dispatch_trace(pre, outcomes.drop_last()), outcomes.last())
    }
}

/// Serving one more outcome extends the trace by one step.
pub proof fn lemma_dispatch_trace_push(
    pre: GuestVcpuState,
    outcomes: Seq<Result<VcpuExit, i32>>,
    outcome: Result<VcpuExit, i32>,
)
    ensures
        spec_dispatch_trace(pre, outcomes.push(outcome)) == spec_dispatch_step(
            spec_dispatch_trace(pre, outcomes),
            outcome,
        ),
{
    assert(outcomes.push(outcome).drop_last() =~= outcomes);
    assert(outcomes.push(outcome).last() == outcome);
}

/// A counter value stepped by one, wrapping at the top.
pub open spec fn spec_wrap_inc(x: u64) -> u64 {
    if x == u64::MAX {
        0
    } else {
        (x + 1) as u64
    }
}

/// The counter stepped by one, wrapping at the top.
fn wrap_inc(x: u64) -> (r: u64)
    ensures
        r == spec_wrap_inc(x),
{
    if x == u64::MAX {
        0
    } else {
        x + 1
    }
}

/// A wrapper around creating and using a vCPU.
pub struct GuestVcpu<C: Vcpu, B: DeviceBus> {
    cpuid: CpuId,
    fd: C,
    id: u8,
    io_bus: B,
    mmio_bus: B,
    create_ts: TimestampUs,
    metrics: VcpuMetrics,
    boot_complete: bool,
}

impl<C: Vcpu, B: DeviceBus> GuestVcpu<C, B> {
    /// The modelled state of the vCPU and its dispatcher.
    pub closed spec fn state(&self) -> GuestVcpuState {
        GuestVcpuState {
            vcpu: self.fd.model(),
            cpuid: self.cpuid@,
            id: self.id,
            metrics: self.metrics,
            boot_complete: self.boot_complete,
            io_ops: self.io_bus.ops(),
            mmio_ops: self.mmio_bus.ops(),
            create_ts: self.create_ts,
        }
    }

    /// Constructs a new vCPU for `vm`.
    ///
    /// `id` is the CPU number; the vCPU starts with the VM's supported
    /// CPUID table, zeroed counters, and the given device buses and
    /// creation timestamp. On x86 the interrupt chip must already exist;
    /// the kernel enforces that ordering at `create_irq_chip` time.
    pub fn new<W: Vm<VcpuHandle = C>>(
        id: u8,
        vm: &mut GuestVm<W>,
        io_bus: B,
        mmio_bus: B,
        create_ts: TimestampUs,
    ) -> (r: Result<GuestVcpu<C, B>, Error>)
        ensures
            match r {
                Ok(vcpu) => {
                    &&& final(vm).backend() == (VmModel {
                        nvcpus: old(vm).backend().nvcpus + 1,
                        ..old(vm).backend()
                    })
                    &&& vcpu.state().cpuid == old(vm).cpuid_spec()
                    &&& vcpu.state().id == id
                    &&& vcpu.state().metrics == (VcpuMetrics {
                        exit_io_in: 0,
                        exit_io_out: 0,
                        exit_mmio_read: 0,
                        exit_mmio_write: 0,
                        failures: 0,
                    })
                    &&& !vcpu.state().boot_complete
                    &&& vcpu.state().create_ts == create_ts
                    &&& vcpu.state().vcpu.cpuid is None
                    &&& vcpu.state().vcpu.is_x86 == old(vm).backend().is_x86
                    &&& vcpu.state().io_ops == io_bus.ops()
                    &&& vcpu.state().mmio_ops == mmio_bus.ops()
                },
                Err(e) => e matches Error::Vcpu(_) && final(vm).backend() == old(vm).backend(),
            },
            final(vm).mem() == old(vm).mem(),
            final(vm).cpuid_spec() == old(vm).cpuid_spec(),
    {
        let vcpu = match vm.create_vcpu_handle(id) {
            Ok(v) => v,
            Err(e) => {
                return Err(Error::Vcpu(e));
            },
        };
        // Initially the cpuid per vCPU is the one supported by this VM.
        let cpuid = vm.get_supported_cpuid();
        Ok(
            GuestVcpu {
                cpuid,
                fd: vcpu,
                id,
                io_bus,
                mmio_bus,
                create_ts,
                metrics: VcpuMetrics::default(),
                boot_complete: false,
            },
        )
    }

    /// Configures an x86 vCPU, to be called once per vCPU from the vCPU's
    /// thread: filter the shared CPUID table for this vCPU's topology,
    /// rewrite it by the selected template, install it, then program MSRs,
    /// general registers at the kernel entry address, FPU, segment
    /// registers from guest memory, and the local interrupt controller.
    /// A missing vCPU count or hyperthreading flag is a configuration
    /// error; guest memory must have been initialized by the time the
    /// segment registers are programmed.
    pub fn configure<W: Vm, O: CpuidOps>(
        &mut self,
        machine_config: &VmConfig,
        kernel_start_addr: GuestAddress,
        vm: &GuestVm<W>,
        cpuid_ops: &O,
    ) -> (r: Result<(), Error>)
        ensures
            r == Result::<(), Error>::Err(Error::VcpuCountNotInitialized)
                <==> machine_config.vcpu_count is None,
            machine_config.vcpu_count is Some ==> (r == Result::<(), Error>::Err(
                Error::HTNotInitialized,
            ) <==> machine_config.ht_enabled is None),
            (r == Result::<(), Error>::Err(Error::VcpuCountNotInitialized) || r == Result::<
                (),
                Error,
            >::Err(Error::HTNotInitialized)) ==> final(self).state() == old(self).state(),
            r.is_ok() ==> vm.mem() is Some,
            r.is_ok() ==> (cpuid_ops.filtered(
                old(self).state().id,
                machine_config.vcpu_count.unwrap(),
                machine_config.ht_enabled.unwrap(),
                old(self).state().cpuid,
            ) matches Ok(filtered_entries) && {
                let installed = match machine_config.cpu_template {
                    Option::Some(t) => cpuid_ops.templated(t, filtered_entries),
                    Option::None => filtered_entries,
                };
                &&& final(self).state().cpuid == installed
                &&& final(self).state().vcpu == (VcpuModel {
                    cpuid: Some(installed),
                    msrs_configured: true,
                    entry_point: Some(kernel_start_addr.0 as u64),
                    fpu_configured: true,
                    sregs_configured: true,
                    lint_configured: true,
                    ..old(self).state().vcpu
                })
            }),
            r.is_err() ==> (r matches Err(Error::VcpuCountNotInitialized) || r matches Err(
                Error::HTNotInitialized,
            ) || r matches Err(Error::CpuId(_)) || r matches Err(Error::SetSupportedCpusFailed(_))
                || r matches Err(Error::MSRSConfiguration(_)) || r matches Err(
                Error::GuestMemory(GuestMemoryError::MemoryNotInitialized),
            ) || r matches Err(Error::REGSConfiguration(_)) || r matches Err(
                Error::FPUConfiguration(_),
            ) || r matches Err(Error::SREGSConfiguration(_)) || r matches Err(
                Error::LocalIntConfiguration(_),
            )),
            final(self).state().id == old(self).state().id,
            final(self).state().metrics == old(self).state().metrics,
            final(self).state().boot_complete == old(self).state().boot_complete,
            final(self).state().io_ops == old(self).state().io_ops,
            final(self).state().mmio_ops == old(self).state().mmio_ops,
            final(self).state().create_ts == old(self).state().create_ts,
    {
        let vcpu_count = match machine_config.vcpu_count {
            Option::Some(c) => c,
            Option::None => {
                return Err(Error::VcpuCountNotInitialized);
            },
        };
        let ht_enabled = match machine_config.ht_enabled {
            Option::Some(h) => h,
            Option::None => {
                return Err(Error::HTNotInitialized);
            },
        };
        match cpuid_ops.filter_cpuid(self.id, vcpu_count, ht_enabled, &mut self.cpuid) {
            Ok(()) => {},
            Err(e) => {
                return Err(Error::CpuId(e));
            },
        }
        match machine_config.cpu_template {
            Option::Some(template) => {
                cpuid_ops.apply_template(template, &mut self.cpuid);
            },
            Option::None => {},
        }
        match self.fd.set_cpuid2(&self.cpuid) {
            Ok(()) => {},
            Err(e) => {
                return Err(Error::SetSupportedCpusFailed(e));
            },
        }
        match self.fd.setup_msrs() {
            Ok(()) => {},
            Err(e) => {
                return Err(Error::MSRSConfiguration(e));
            },
        }
        let vm_memory = match vm.get_memory() {
            Option::Some(m) => m,
            Option::None => {
                return Err(Error::GuestMemory(GuestMemoryError::MemoryNotInitialized));
            },
        };
        match self.fd.setup_regs(kernel_start_addr.offset() as u64) {
            Ok(()) => {},
            Err(e) => {
                return Err(Error::REGSConfiguration(e));
            },
        }
        match self.fd.setup_fpu() {
            Ok(()) => {},
            Err(e) => {
                return Err(Error::FPUConfiguration(e));
            },
        }
        match self.fd.setup_sregs(vm_memory) {
            Ok(()) => {},
            Err(e) => {
                return Err(Error::SREGSConfiguration(e));
            },
        }
        match self.fd.set_lint() {
            Ok(()) => {},
            Err(e) => {
                return Err(Error::LocalIntConfiguration(e));
            },
        }
        Ok(())
    }

    /// Configures an Arm vCPU: obtain the kernel's preferred target, select
    /// the PSCI 0.2 firmware interface, start every non-boot vCPU powered
    /// off, initialize the vCPU, and program the general registers for boot
    /// at the kernel load address. Guest memory must have been initialized.
    pub fn configure_aarch64<W: Vm>(
        &mut self,
        machine_config: &VmConfig,
        kernel_load_addr: GuestAddress,
        vm: &GuestVm<W>,
    ) -> (r: Result<(), Error>)
        ensures
            r == Result::<(), Error>::Err(Error::GuestMemory(GuestMemoryError::MemoryNotInitialized))
                <==> vm.mem() is None,
            r.is_ok() ==> final(self).state().vcpu == (VcpuModel {
                init: Some(
                    crate::hypervisor::VcpuInitView {
                        target: vm.backend().preferred_target.target,
                        features: vm.backend().preferred_target.features.update(
                            0,
                            (vm.backend().preferred_target.features[0] as u32) | (1u32
                                << ARM_VCPU_PSCI_0_2) | (if old(self).state().id > 0 {
                                1u32 << ARM_VCPU_POWER_OFF
                            } else {
                                0u32
                            }),
                        ),
                    },
                ),
                entry_point: Some(kernel_load_addr.0 as u64),
                ..old(self).state().vcpu
            }),
            r.is_err() ==> (r matches Err(Error::GuestMemory(_)) || r matches Err(
                Error::VcpuArmPreferredTarget(_),
            ) || r matches Err(Error::VcpuArmInit(_)) || r matches Err(Error::REGSConfiguration(_))),
            final(self).state().id == old(self).state().id,
            final(self).state().cpuid == old(self).state().cpuid,
            final(self).state().metrics == old(self).state().metrics,
            final(self).state().boot_complete == old(self).state().boot_complete,
            final(self).state().io_ops == old(self).state().io_ops,
            final(self).state().mmio_ops == old(self).state().mmio_ops,
    {
        let _ = machine_config;
        let vm_memory = match vm.get_memory() {
            Option::Some(m) => m,
            Option::None => {
                return Err(Error::GuestMemory(GuestMemoryError::MemoryNotInitialized));
            },
        };
        let mut vi = VcpuInit::new_zeroed();
        // This reads back the kernel's preferred target type.
        match vm.get_fd().get_preferred_target(&mut vi) {
            Ok(()) => {},
            Err(e) => {
                return Err(Error::VcpuArmPreferredTarget(e));
            },
        }
        // The PSCI 0.2 capability was checked before any vCPU was built.
        let ghost pre_feats = vi.features@;
        let f0 = vi.features[0];
        let powered_off: u32 = if self.id > 0 {
            1u32 << ARM_VCPU_POWER_OFF
        } else {
            0u32
        };
        let new_f0: u32 = f0 | (1u32 << ARM_VCPU_PSCI_0_2) | powered_off;
        vi.features[0] = new_f0;
        proof {
            assert(pre_feats == vm.backend().preferred_target.features);
            assert(f0 == pre_feats[0]);
            assert(vi.features@ =~= pre_feats.update(0, new_f0));
            assert(vi@.features =~= vm.backend().preferred_target.features.update(
                0,
                (vm.backend().preferred_target.features[0] as u32) | (1u32 << ARM_VCPU_PSCI_0_2)
                    | (if old(self).state().id > 0 {
                    1u32 << ARM_VCPU_POWER_OFF
                } else {
                    0u32
                }),
            ));
        }
        match self.fd.vcpu_init(&vi) {
            Ok(()) => {},
            Err(e) => {
                return Err(Error::VcpuArmInit(e));
            },
        }
        match self.fd.setup_aarch64_regs(self.id, kernel_load_addr.offset() as u64, vm_memory) {
            Ok(()) => {},
            Err(e) => {
                return Err(Error::REGSConfiguration(e));
            },
        }
        Ok(())
    }

    /// Dispatches one run outcome: serve guest I/O on the right bus and
    /// count it, latch the boot-complete marker, absorb a would-block or
    /// interrupted run call, and end the loop on everything else.
    pub fn handle_exit(&mut self, outcome: Result<VcpuExit, i32>) -> (r: Result<(), Error>)
        ensures
            spec_handle_rel(old(self).state(), final(self).state(), outcome, r),
    {
        match outcome {
            Ok(exit) => match exit {
                VcpuExit::IoIn(addr, data) => {
                    let mut data = data;
                    self.io_bus.read(addr as u64, &mut data);
                    self.fd.finish_io_in(addr, &data);
                    self.metrics.exit_io_in = wrap_inc(self.metrics.exit_io_in);
                    Ok(())
                },
                VcpuExit::IoOut(addr, data) => {
                    if addr == MAGIC_IOPORT_SIGNAL_GUEST_BOOT_COMPLETE && data.len() > 0 && data[0]
                        == MAGIC_VALUE_SIGNAL_GUEST_BOOT_COMPLETE {
                        // The guest announced boot completion: latch it, so
                        // the embedder can log the latency against the
                        // creation timestamp.
                        self.boot_complete = true;
                    }
                    self.io_bus.write(addr as u64, &data);
                    self.metrics.exit_io_out = wrap_inc(self.metrics.exit_io_out);
                    Ok(())
                },
                VcpuExit::MmioRead(addr, data) => {
                    let mut data = data;
                    self.mmio_bus.read(addr, &mut data);
                    self.fd.finish_mmio_read(addr, &data);
                    self.metrics.exit_mmio_read = wrap_inc(self.metrics.exit_mmio_read);
                    Ok(())
                },
                VcpuExit::MmioWrite(addr, data) => {
                    self.mmio_bus.write(addr, &data);
                    self.metrics.exit_mmio_write = wrap_inc(self.metrics.exit_mmio_write);
                    Ok(())
                },
                VcpuExit::Hlt => Err(Error::VcpuUnhandledKvmExit),
                VcpuExit::Shutdown => Err(Error::VcpuUnhandledKvmExit),
                VcpuExit::FailEntry => {
                    self.metrics.failures = wrap_inc(self.metrics.failures);
                    Err(Error::VcpuUnhandledKvmExit)
                },
                VcpuExit::InternalError => {
                    self.metrics.failures = wrap_inc(self.metrics.failures);
                    Err(Error::VcpuUnhandledKvmExit)
                },
                VcpuExit::Unknown => {
                    self.metrics.failures = wrap_inc(self.metrics.failures);
                    Err(Error::VcpuUnhandledKvmExit)
                },
            },
            Err(e) => {
                if e == EAGAIN || e == EINTR {
                    Ok(())
                } else {
                    self.metrics.failures = wrap_inc(self.metrics.failures);
                    Err(Error::VcpuUnhandledKvmExit)
                }
            },
        }
    }

    /// One turn of the dispatch loop: run the vCPU in the kernel until the
    /// guest exits, then dispatch the outcome.
    pub fn run_emulation(&mut self) -> (r: Result<(), Error>)
        ensures
            exists|outcome: Result<VcpuExit, i32>|
                #[trigger] spec_handle_rel(old(self).state(), final(self).state(), outcome, r),
    {
        let outcome = self.fd.run();
        let r = self.handle_exit(outcome);
        r
    }

    /// A bounded stretch of a vCPU thread's main loop: run and dispatch
    /// until a fatal exit or run error ends it, or until `max_steps` turns
    /// have been taken; reports whether the loop is still alive. The final
    /// state is the fold of the dispatch step over some trace of run
    /// outcomes, and the loop stays alive exactly when the whole stretch
    /// was served or absorbed — a kicked vCPU (would-block or interrupted
    /// run calls) keeps running. The embedder keeps calling while the loop
    /// is alive, and wires the thread, its seccomp filter, the start
    /// barrier and the exit notification around this — the loop as a whole
    /// follows the guest and admits no termination argument.
    pub fn run(&mut self, max_steps: u64) -> (alive: bool)
        ensures
            exists|outcomes: Seq<Result<VcpuExit, i32>>|
                {
                    &&& final(self).state() == #[trigger] spec_dispatch_trace(
                        old(self).state(),
                        outcomes,
                    )
                    &&& outcomes.len() <= max_steps
                    &&& (alive <==> (outcomes.len() == max_steps && forall|i: int|
                        0 <= i < outcomes.len() ==> spec_exit_ok(#[trigger] outcomes[i])))
                    &&& (!alive ==> outcomes.len() > 0 && !spec_exit_ok(outcomes.last())
                        && forall|i: int|
                        0 <= i < outcomes.len() - 1 ==> spec_exit_ok(#[trigger] outcomes[i]))
                },
            final(self).state().vcpu == old(self).state().vcpu,
            final(self).state().cpuid == old(self).state().cpuid,
            final(self).state().id == old(self).state().id,
            final(self).state().create_ts == old(self).state().create_ts,
            old(self).state().boot_complete ==> final(self).state().boot_complete,
    {
        let ghost mut trace: Seq<Result<VcpuExit, i32>> = Seq::empty();
        let mut steps: u64 = 0;
        while steps < max_steps
            invariant
                steps <= max_steps,
                trace.len() == steps,
                self.state() == spec_dispatch_trace(old(self).state(), trace),
                forall|i: int| 0 <= i < trace.len() ==> spec_exit_ok(#[trigger] trace[i]),
                self.state().vcpu == old(self).state().vcpu,
                self.state().cpuid == old(self).state().cpuid,
                self.state().id == old(self).state().id,
                self.state().create_ts == old(self).state().create_ts,
                old(self).state().boot_complete ==> self.state().boot_complete,
            decreases max_steps - steps,
        {
            let ghost pre = self.state();
            let step = self.run_emulation();
            proof {
                let outcome = choose|outcome: Result<VcpuExit, i32>|
                    spec_handle_rel(pre, self.state(), outcome, step);
                assert(spec_handle_rel(pre, self.state(), outcome, step));
                lemma_handle_rel_step(pre, self.state(), outcome, step);
                lemma_dispatch_trace_push(old(self).state(), trace, outcome);
                trace = trace.push(outcome);
            }
            if step.is_err() {
                proof {
                    assert(!spec_exit_ok(trace.last()));
                    assert(spec_dispatch_trace(old(self).state(), trace) == self.state());
                }
                return false;
            }
            steps = steps + 1;
        }
        proof {
            assert(spec_dispatch_trace(old(self).state(), trace) == self.state());
        }
        true
    }

    /// The exit counters.
    pub fn metrics(&self) -> (r: VcpuMetrics)
        ensures
            r == self.state().metrics,
    {
        self.metrics
    }

    /// Whether the guest has announced boot completion.
    pub fn boot_complete(&self) -> (r: bool)
        ensures
            r == self.state().boot_complete,
    {
        self.boot_complete
    }

    /// The vCPU's id.
    pub fn id(&self) -> (r: u8)
        ensures
            r == self.state().id,
    {
        self.id
    }

    /// The creation timestamp.
    pub fn create_ts(&self) -> (r: TimestampUs)
        ensures
            r == self.state().create_ts,
    {
        self.create_ts
    }
}

impl<V: Vm> GuestVm<V> {
    /// Asks the backend for a new vCPU handle with the given id.
    pub fn create_vcpu_handle(&mut self, id: u8) -> (r: Result<V::VcpuHandle, i32>)
        ensures
            match r {
                Ok(v) => {
                    &&& final(self).backend() == (VmModel {
                        nvcpus: old(self).backend().nvcpus + 1,
                        ..old(self).backend()
                    })
                    &&& v.model().is_x86 == old(self).backend().is_x86
                    &&& v.model().cpuid is None
                },
                Err(_) => final(self).backend() == old(self).backend(),
            },
            final(self).mem() == old(self).mem(),
            final(self).cpuid_spec() == old(self).cpuid_spec(),
    {
        self.fd.create_vcpu(id)
    }
}

} // verus!
