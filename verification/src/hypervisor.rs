//! The hypervisor abstraction layer: a portable interface over whatever
//! kernel virtualization mechanism the host provides, as three traits — a
//! driver that answers capability queries and produces VM handles, a per-VM
//! handle, and a per-vCPU handle.
//!
//! Each trait carries a ghost model of the kernel-side state its calls act
//! on, and each method's contract states what the kernel interface
//! documents of it: what an already-created interrupt chip answers, how the
//! ordering of interrupt-chip and vCPU creation is enforced, what a fresh
//! VM looks like. No success is promised anywhere: every call may fail with
//! an OS error number, which callers surface.

use vstd::prelude::*;
use crate::memory::GuestMemory;

verus! {

/// A capability the hypervisor's interface can possibly expose.
#[derive(Clone, Copy, Debug)]
#[allow(missing_docs)]
pub enum Cap {
    Irqchip,
    Hlt,
    MmuShadowCacheControl,
    UserMemory,
    SetTssAddr,
    Vapic,
    ExtCpuid,
    Clocksource,
    NrVcpus,
    NrMemslots,
    Pit,
    NopIoDelay,
    PvMmu,
    MpState,
    CoalescedMmio,
    SyncMmu,
    Iommu,
    DestroyMemoryRegionWorks,
    UserNmi,
    SetGuestDebug,
    ReinjectControl,
    IrqRouting,
    IrqInjectStatus,
    AssignDevIrq,
    JoinMemoryRegionsWorks,
    Mce,
    Irqfd,
    Pit2,
    SetBootCpuId,
    PitState2,
    Ioeventfd,
    SetIdentityMapAddr,
    XenHvm,
    AdjustClock,
    InternalErrorData,
    VcpuEvents,
    S390Psw,
    PpcSegstate,
    Hyperv,
    HypervVapic,
    HypervSpin,
    PciSegment,
    PpcPairedSingles,
    IntrShadow,
    Debugregs,
    X86RobustSinglestep,
    PpcOsi,
    PpcUnsetIrq,
    EnableCap,
    Xsave,
    Xcrs,
    PpcGetPvinfo,
    PpcIrqLevel,
    AsyncPf,
    TscControl,
    GetTscKhz,
    PpcBookeSregs,
    SpaprTce,
    PpcSmt,
    PpcRma,
    MaxVcpus,
    PpcHior,
    PpcPapr,
    SwTlb,
    OneReg,
    S390Gmap,
    TscDeadlineTimer,
    S390Ucontrol,
    SyncRegs,
    Pci23,
    KvmclockCtrl,
    SignalMsi,
    PpcGetSmmuInfo,
    S390Cow,
    PpcAllocHtab,
    ReadonlyMem,
    IrqfdResample,
    PpcBookeWatchdog,
    PpcHtabFd,
    S390CssSupport,
    PpcEpr,
    ArmPsci,
    ArmSetDeviceAddr,
    DeviceCtrl,
    IrqMpic,
    PpcRtas,
    IrqXics,
    ArmEl132bit,
    SpaprMultitce,
    ExtEmulCpuid,
    HypervTime,
    IoapicPolarityIgnored,
    EnableCapVm,
    S390Irqchip,
    IoeventfdNoLength,
    VmAttributes,
    ArmPsci02,
    PpcFixupHcall,
    PpcEnableHcall,
    CheckExtensionVm,
    S390UserSigp,
    ImmediateExit,
}

/// OS error number for an object that already exists.
pub const EEXIST: i32 = 17;

/// OS error number for a call that would block.
pub const EAGAIN: i32 = 11;

/// OS error number for a call interrupted by a signal.
pub const EINTR: i32 = 4;

/// The most CPUID entries a driver query asks room for.
pub const MAX_CPUID_ENTRIES: usize = 80;

/// Interval-timer flag requesting the dummy speaker port stub.
pub const PIT_SPEAKER_DUMMY: u32 = 1;

/// Feature-bit index selecting the PSCI 0.2 firmware interface for a vCPU.
pub const ARM_VCPU_PSCI_0_2: u32 = 2;

/// Feature-bit index starting a vCPU powered off.
pub const ARM_VCPU_POWER_OFF: u32 = 0;

/// Device type id of the GICv3 interrupt controller.
pub const DEV_TYPE_ARM_VGIC_V3: u32 = 7;

/// One CPUID leaf: the queried function and index, and the four registers
/// the guest reads back.
#[derive(Clone, Copy, Debug, PartialEq, Eq, Structural)]
pub struct CpuidEntry {
    pub function: u32,
    pub index: u32,
    pub flags: u32,
    pub eax: u32,
    pub ebx: u32,
    pub ecx: u32,
    pub edx: u32,
}

/// A CPUID table: the leaves the host exposes to a guest.
#[derive(Debug, PartialEq)]
pub struct CpuId {
    pub entries: Vec<CpuidEntry>,
}

impl View for CpuId {
    type V = Seq<CpuidEntry>;

    closed spec fn view(&self) -> Seq<CpuidEntry> {
        self.entries@
    }
}

impl CpuId {
    /// An empty table.
    pub fn new() -> (r: CpuId)
        ensures
            r@ == Seq::<CpuidEntry>::empty(),
    {
        let r = CpuId { entries: Vec::new() };
        proof {
            assert(r@ =~= Seq::<CpuidEntry>::empty());
        }
        r
    }

    /// A copy of the table, entry for entry.
    pub fn duplicate(&self) -> (r: CpuId)
        ensures
            r@ == self@,
    {
        let mut entries: Vec<CpuidEntry> = Vec::new();
        let mut i: usize = 0;
        while i < self.entries.len()
            invariant
                i <= self.entries@.len(),
                entries@ =~= self.entries@.subrange(0, i as int),
            decreases self.entries@.len() - i,
        {
            entries.push(self.entries[i]);
            proof {
                assert(entries@ =~= self.entries@.subrange(0, i + 1));
            }
            i = i + 1;
        }
        let r = CpuId { entries };
        proof {
            assert(r@ =~= self@);
        }
        r
    }
}

/// Configuration of the in-kernel programmable interval timer.
#[derive(Clone, Copy, Debug, PartialEq, Eq, Structural)]
pub struct PitConfig {
    pub flags: u32,
}

impl Default for PitConfig {
    /// All flags clear.
    fn default() -> (r: Self)
        ensures
            r.flags == 0,
    {
        PitConfig { flags: 0 }
    }
}

/// Arm vCPU initialization: the target model and its feature bits.
#[derive(Clone, Copy, Debug, PartialEq, Eq)]
pub struct VcpuInit {
    pub target: u32,
    pub features: [u32; 7],
}

/// Mathematical image of a `VcpuInit`.
pub struct VcpuInitView {
    pub target: u32,
    pub features: Seq<u32>,
}

impl View for VcpuInit {
    type V = VcpuInitView;

    open spec fn view(&self) -> VcpuInitView {
        VcpuInitView { target: self.target, features: self.features@ }
    }
}

impl VcpuInit {
    /// A zeroed initialization record.
    pub fn new_zeroed() -> (r: VcpuInit)
        ensures
            r@.target == 0,
            r@.features.len() == 7,
            forall|i: int| 0 <= i < 7 ==> r@.features[i] == 0,
    {
        VcpuInit { target: 0, features: [0u32, 0u32, 0u32, 0u32, 0u32, 0u32, 0u32] }
    }
}

/// A request to create an in-kernel device; the kernel writes the created
/// device's fd id back into it.
#[derive(Clone, Copy, Debug, PartialEq, Eq, Structural)]
pub struct CreateDevice {
    pub dev_type: u32,
    pub fd: u32,
    pub flags: u32,
}

/// A handle on an in-kernel device.
#[derive(Clone, Copy, Debug, PartialEq, Eq, Structural)]
pub struct DeviceFd {
    pub fd: i32,
}

impl DeviceFd {
    /// Wraps the raw device fd the kernel handed out.
    pub fn new(fd: i32) -> (r: Self)
        ensures
            r.fd == fd,
    {
        DeviceFd { fd }
    }

    /// The raw fd.
    pub fn as_raw_fd(&self) -> (r: i32)
        ensures
            r == self.fd,
    {
        self.fd
    }
}

/// Why a vCPU left guest execution, with the data of the access where there
/// is one. The buffers are owned: an in-buffer arrives sized and is handed
/// back filled through `Vcpu::finish_io_in` / `Vcpu::finish_mmio_read`.
#[derive(Debug)]
pub enum VcpuExit {
    IoIn(u16, Vec<u8>),
    IoOut(u16, Vec<u8>),
    MmioRead(u64, Vec<u8>),
    MmioWrite(u64, Vec<u8>),
    Hlt,
    Shutdown,
    FailEntry,
    InternalError,
    Unknown,
}

/// One installed guest memory slot.
#[derive(Clone, Copy, Debug, PartialEq, Eq, Structural)]
pub struct MemSlot {
    pub guest_phys_addr: u64,
    pub memory_size: u64,
    pub userspace_addr: u64,
    pub flags: u32,
}

/// Ghost model of the kernel-side state behind a vCPU handle: which
/// register sets have been programmed, and with what.
pub struct VcpuModel {
    pub is_x86: bool,
    pub cpuid: Option<Seq<CpuidEntry>>,
    pub msrs_configured: bool,
    pub entry_point: Option<u64>,
    pub fpu_configured: bool,
    pub sregs_configured: bool,
    pub lint_configured: bool,
    pub init: Option<VcpuInitView>,
}

/// Ghost model of the kernel-side state behind a VM handle.
pub struct VmModel {
    pub is_x86: bool,
    pub irqchip: bool,
    pub pit: bool,
    pub pit_flags: Option<u32>,
    pub nvcpus: nat,
    pub slots: Map<u32, MemSlot>,
    pub tss_addr: Option<usize>,
    pub irqfds: Seq<(i32, u32)>,
    pub ioevents: Seq<(i32, IoEventAddress, u64)>,
    pub preferred_target: VcpuInitView,
}

/// An address a guest I/O write can be matched on.
#[derive(Clone, Copy, Debug, PartialEq, Eq, Structural)]
pub enum IoEventAddress {
    Pio(u64),
    Mmio(u64),
}

/// Ghost model of what the driver reports.
pub struct HypervisorModel {
    pub is_x86: bool,
    pub api_version: i32,
    pub vcpu_mmap_size: usize,
    pub supported_cpuid: Seq<CpuidEntry>,
    pub emulated_cpuid: Seq<CpuidEntry>,
    pub msr_index_list: Seq<u32>,
    pub extensions: Set<Cap>,
}

/// A per-vCPU kernel handle. Register programming mutates the modelled
/// kernel state; running returns why the guest exited, or the OS error
/// number of the run call.
pub trait Vcpu: Sized {
    /// The modelled kernel-side state of this vCPU.
    spec fn model(&self) -> VcpuModel;

    /// Installs the per-vCPU CPUID table.
    fn set_cpuid2(&mut self, cpuid: &CpuId) -> (r: Result<(), i32>)
        ensures
            r.is_ok() ==> final(self).model() == (VcpuModel {
                cpuid: Some(cpuid@),
                ..old(self).model()
            }),
            r.is_err() ==> final(self).model() == old(self).model(),
    ;

    /// Programs the model-specific registers the boot protocol needs.
    fn setup_msrs(&mut self) -> (r: Result<(), i32>)
        ensures
            r.is_ok() ==> final(self).model() == (VcpuModel {
                msrs_configured: true,
                ..old(self).model()
            }),
            r.is_err() ==> final(self).model() == old(self).model(),
    ;

    /// Programs the general registers, with the instruction pointer at the
    /// kernel entry address.
    fn setup_regs(&mut self, kernel_start_addr: u64) -> (r: Result<(), i32>)
        ensures
            r.is_ok() ==> final(self).model() == (VcpuModel {
                entry_point: Some(kernel_start_addr),
                ..old(self).model()
            }),
            r.is_err() ==> final(self).model() == old(self).model(),
    ;

    /// Programs the floating-point unit state.
    fn setup_fpu(&mut self) -> (r: Result<(), i32>)
        ensures
            r.is_ok() ==> final(self).model() == (VcpuModel {
                fpu_configured: true,
                ..old(self).model()
            }),
            r.is_err() ==> final(self).model() == old(self).model(),
    ;

    /// Programs the segment registers and page tables, writing the boot
    /// page tables into guest memory.
    fn setup_sregs(&mut self, mem: &GuestMemory) -> (r: Result<(), i32>)
        ensures
            r.is_ok() ==> final(self).model() == (VcpuModel {
                sregs_configured: true,
                ..old(self).model()
            }),
            r.is_err() ==> final(self).model() == old(self).model(),
    ;

    /// Configures the local interrupt controller lines.
    fn set_lint(&mut self) -> (r: Result<(), i32>)
        ensures
            r.is_ok() ==> final(self).model() == (VcpuModel {
                lint_configured: true,
                ..old(self).model()
            }),
            r.is_err() ==> final(self).model() == old(self).model(),
    ;

    /// Arm-specific initialization with the given target and features.
    fn vcpu_init(&mut self, vi: &VcpuInit) -> (r: Result<(), i32>)
        ensures
            r.is_ok() ==> final(self).model() == (VcpuModel {
                init: Some(vi@),
                ..old(self).model()
            }),
            r.is_err() ==> final(self).model() == old(self).model(),
    ;

    /// Programs the Arm general registers for boot at the given load
    /// address.
    fn setup_aarch64_regs(&mut self, id: u8, kernel_load_addr: u64, mem: &GuestMemory) -> (r:
        Result<(), i32>)
        ensures
            r.is_ok() ==> final(self).model() == (VcpuModel {
                entry_point: Some(kernel_load_addr),
                ..old(self).model()
            }),
            r.is_err() ==> final(self).model() == old(self).model(),
    ;

    /// Blocks in the kernel until the guest exits; what comes back depends
    /// on the guest alone, so nothing is stated of it. The programmed
    /// configuration stands.
    fn run(&mut self) -> (r: Result<VcpuExit, i32>)
        ensures
            final(self).model() == old(self).model(),
    ;

    /// Hands the device data of a port-input exit back to the guest.
    fn finish_io_in(&mut self, port: u16, data: &Vec<u8>)
        ensures
            final(self).model() == old(self).model(),
    ;

    /// Hands the device data of an MMIO-read exit back to the guest.
    fn finish_mmio_read(&mut self, addr: u64, data: &Vec<u8>)
        ensures
            final(self).model() == old(self).model(),
    ;
}

/// A per-VM kernel handle.
pub trait Vm: Sized {
    /// The vCPU handle type this VM produces.
    type VcpuHandle: Vcpu;

    /// The modelled kernel-side state of this VM.
    spec fn model(&self) -> VmModel;

    /// Whether this backend virtualizes an x86 machine.
    fn is_x86_arch(&self) -> (r: bool)
        ensures
            r == self.model().is_x86,
    ;

    /// Creates a vCPU with the given id. On success one more vCPU exists,
    /// on the same architecture, with nothing programmed yet.
    fn create_vcpu(&mut self, id: u8) -> (r: Result<Self::VcpuHandle, i32>)
        ensures
            r matches Ok(v) ==> final(self).model() == (VmModel {
                nvcpus: old(self).model().nvcpus + 1,
                ..old(self).model()
            }) && v.model() == (VcpuModel {
                is_x86: old(self).model().is_x86,
                cpuid: None,
                msrs_configured: false,
                entry_point: None,
                fpu_configured: false,
                sregs_configured: false,
                lint_configured: false,
                init: None,
            }),
            r.is_err() ==> final(self).model() == old(self).model(),
    ;

    /// Installs or replaces a guest memory slot.
    fn set_user_memory_region(
        &mut self,
        slot: u32,
        guest_phys_addr: u64,
        memory_size: u64,
        userspace_addr: u64,
        flags: u32,
    ) -> (r: Result<(), i32>)
        ensures
            r.is_ok() ==> final(self).model() == (VmModel {
                slots: old(self).model().slots.insert(
                    slot,
                    MemSlot { guest_phys_addr, memory_size, userspace_addr, flags },
                ),
                ..old(self).model()
            }),
            r.is_err() ==> final(self).model() == old(self).model(),
    ;

    /// One-time setup of the task-state-segment base address.
    fn set_tss_address(&mut self, offset: usize) -> (r: Result<(), i32>)
        ensures
            r.is_ok() ==> final(self).model() == (VmModel {
                tss_addr: Some(offset),
                ..old(self).model()
            }),
            r.is_err() ==> final(self).model() == old(self).model(),
    ;

    /// Creates the in-kernel interrupt controller. A second creation fails
    /// with the already-exists error; on x86 the kernel also refuses it
    /// once any vCPU exists.
    fn create_irq_chip(&mut self) -> (r: Result<(), i32>)
        ensures
            old(self).model().irqchip ==> r == Result::<(), i32>::Err(EEXIST),
            old(self).model().is_x86 && old(self).model().nvcpus > 0 ==> r.is_err(),
            r.is_ok() ==> final(self).model() == (VmModel { irqchip: true, ..old(self).model() }),
            r.is_err() ==> final(self).model() == old(self).model(),
    ;

    /// Binds an eventfd to a global interrupt line.
    fn register_irqfd(&mut self, fd: i32, gsi: u32) -> (r: Result<(), i32>)
        ensures
            r.is_ok() ==> final(self).model() == (VmModel {
                irqfds: old(self).model().irqfds.push((fd, gsi)),
                ..old(self).model()
            }),
            r.is_err() ==> final(self).model() == old(self).model(),
    ;

    /// Binds an eventfd to guest writes of `datamatch` at `addr`.
    fn register_ioevent(&mut self, fd: i32, addr: &IoEventAddress, datamatch: u64) -> (r: Result<
        (),
        i32,
    >)
        ensures
            r.is_ok() ==> final(self).model() == (VmModel {
                ioevents: old(self).model().ioevents.push((fd, *addr, datamatch)),
                ..old(self).model()
            }),
            r.is_err() ==> final(self).model() == old(self).model(),
    ;

    /// Creates the in-kernel programmable interval timer with the given
    /// configuration. A second creation fails with the already-exists
    /// error.
    fn create_pit2(&mut self, pit_config: PitConfig) -> (r: Result<(), i32>)
        ensures
            old(self).model().pit ==> r == Result::<(), i32>::Err(EEXIST),
            r.is_ok() ==> final(self).model() == (VmModel {
                pit: true,
                pit_flags: Some(pit_config.flags),
                ..old(self).model()
            }),
            r.is_err() ==> final(self).model() == old(self).model(),
    ;

    /// The dirty-page bitmap of a slot; its content is the guest's doing,
    /// so nothing is stated of it.
    fn get_dirty_log(&self, slot: u32, memory_size: usize) -> (r: Result<Vec<u64>, i32>)
    ;

    /// Creates an in-kernel device and writes the assigned fd id back into
    /// the request. Creating the interrupt controller device twice fails
    /// with the already-exists error.
    fn create_device(&mut self, device: &mut CreateDevice) -> (r: Result<DeviceFd, i32>)
        ensures
            old(self).model().irqchip && old(device).dev_type == DEV_TYPE_ARM_VGIC_V3 ==> (r
                matches Err(e) && e == EEXIST),
            r.is_ok() && old(device).dev_type == DEV_TYPE_ARM_VGIC_V3 ==> final(self).model() == (
            VmModel { irqchip: true, ..old(self).model() }),
            r.is_ok() && old(device).dev_type != DEV_TYPE_ARM_VGIC_V3 ==> final(self).model()
                == old(self).model(),
            r.is_err() ==> final(self).model() == old(self).model(),
            final(device).dev_type == old(device).dev_type,
            final(device).flags == old(device).flags,
    ;

    /// Reads the kernel's preferred Arm vCPU target into `vi`.
    fn get_preferred_target(&self, vi: &mut VcpuInit) -> (r: Result<(), i32>)
        ensures
            r.is_ok() ==> final(vi)@ == self.model().preferred_target,
            r.is_err() ==> final(vi)@ == old(vi)@,
    ;
}

/// The hypervisor driver: a stateless capability source above the kernel,
/// queried for what the host supports and asked for VM handles.
pub trait Hypervisor: Sized {
    /// The VM handle type this driver produces.
    type VmHandle: Vm;

    /// What the driver reports.
    spec fn model(&self) -> HypervisorModel;

    /// Produces a new VM handle with nothing created or installed yet.
    fn create_vm(&self) -> (r: Result<Self::VmHandle, i32>)
        ensures
            r matches Ok(vm) ==> {
                &&& vm.model().is_x86 == self.model().is_x86
                &&& !vm.model().irqchip
                &&& !vm.model().pit
                &&& vm.model().pit_flags is None
                &&& vm.model().nvcpus == 0
                &&& vm.model().slots == Map::<u32, MemSlot>::empty()
                &&& vm.model().tss_addr is None
                &&& vm.model().irqfds == Seq::<(i32, u32)>::empty()
                &&& vm.model().ioevents == Seq::<(i32, IoEventAddress, u64)>::empty()
            },
    ;

    /// The driver-reported interface version.
    fn get_api_version(&self) -> (r: i32)
        ensures
            r == self.model().api_version,
    ;

    /// Whether the underlying kernel reports support for a capability.
    fn check_extension(&self, c: Cap) -> (r: bool)
        ensures
            r == self.model().extensions.contains(c),
    ;

    /// The size of the shared per-vCPU run-state page.
    fn get_vcpu_mmap_size(&self) -> (r: Result<usize, i32>)
        ensures
            r matches Ok(s) ==> s == self.model().vcpu_mmap_size,
    ;

    /// The CPUID leaves the host supports, up to the given room.
    fn get_supported_cpuid(&self, max_entries_count: usize) -> (r: Result<CpuId, i32>)
        ensures
            r matches Ok(c) ==> c@ == self.model().supported_cpuid,
    ;

    /// The CPUID leaves the host emulates, up to the given room.
    fn get_emulated_cpuid(&self, max_entries_count: usize) -> (r: Result<CpuId, i32>)
        ensures
            r matches Ok(c) ==> c@ == self.model().emulated_cpuid,
    ;

    /// The model-specific registers the host lets a VM program.
    fn get_msr_index_list(&self) -> (r: Result<Vec<u32>, i32>)
        ensures
            r matches Ok(v) ==> v@ == self.model().msr_index_list,
    ;
}

} // verus!
