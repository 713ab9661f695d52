//! Top-level emulator harness.
//!
//! `Machine` assembles the CPU, bus, memory and devices into a runnable VIV-32
//! instance from a machine description; `reset` starts the architectural
//! machine and `tick` advances execution by one CPU tick.
use vstd::prelude::*;

use crate::emulator::cpu::semantics::{ticked, CpuView};
use crate::emulator::cpu::Cpu;
use crate::emulator::lifecycle::Lifecycle;
use crate::emulator::platform::bus_device::BusDevice;
use crate::emulator::platform::clock::Clock;
use crate::emulator::platform::device::{dv_size, dv_wf, Device, DeviceView};
use crate::emulator::platform::error::SystemBusError;
use crate::emulator::platform::mapped_device::{mv_with, MappedView};
use crate::emulator::platform::ram::Ram;
use crate::emulator::platform::serial::{Serial, SerialView, VecSerialSink, VecSerialSource};
use crate::emulator::platform::system_bus::{bus_wf, can_map_spec, drained, output_of, DeviceId, SystemBus, SystemBusView, IRQ_LINES};
use crate::emulator::platform::timer::{timer_reset_view, Timer};

verus! {

/// The kind of a configured device.
#[derive(Debug, Clone, Copy, PartialEq, Eq, Structural)]
pub enum DeviceKind {
    Ram,
    Serial,
    Timer,
    Clock,
}

/// Where a configured serial port's output goes: the host's standard output,
/// or kept in the machine.
#[derive(Debug, Clone, Copy, PartialEq, Eq, Structural)]
pub enum SerialSinkKind {
    Stdout,
    Vec,
}

/// Where a configured serial port's input comes from: nothing, or the host's
/// standard input.
#[derive(Debug, Clone, Copy, PartialEq, Eq, Structural)]
pub enum SerialSourceKind {
    Empty,
    Stdin,
}

/// One device of a machine description.
#[derive(Debug)]
pub struct DeviceTomlConfig {
    pub name: Option<String>,
    pub kind: DeviceKind,
    pub base: u32,
    pub size: Option<u32>,
    pub irq: Option<usize>,
    /// The contents of the image file loaded into a RAM.
    pub image: Option<Vec<u8>>,
    pub image_base: Option<u32>,
    pub sink: Option<SerialSinkKind>,
    pub source: Option<SerialSourceKind>,
    /// What a serial port with the standard-input source receives.
    pub input: Vec<u8>,
}

/// A machine description: its devices, in mapping order.
#[derive(Debug)]
pub struct MachineTomlConfig {
    pub devices: Vec<DeviceTomlConfig>,
}

/// Why a machine description cannot be built.
#[derive(Debug, Clone, Copy, PartialEq, Eq, Structural)]
pub enum MachineConfigError {
    /// A RAM without a size.
    MissingRamSize,
    /// A device that is empty, leaves the address space, or overlaps a mapped device.
    InvalidMapping { base: u32, size: u32 },
    /// An IRQ line beyond the last one.
    InvalidIrq { line: usize },
    /// The image does not fit its RAM.
    Bus(SystemBusError),
}

/// The device a configuration entry describes.
pub open spec fn configured_device(d: DeviceTomlConfig) -> Result<DeviceView, MachineConfigError> {
    match d.kind {
        DeviceKind::Ram => match d.size {
            None => Err(MachineConfigError::MissingRamSize),
            Some(size) => {
                let zeros = Seq::new(size as nat, |i: int| 0u8);
                match d.image {
                    None => Ok(DeviceView::Ram(zeros)),
                    Some(image) => {
                        let at: u32 = match d.image_base {
                            Some(b) => b,
                            None => 0,
                        };
                        if at + image@.len() > usize::MAX {
                            Err(MachineConfigError::Bus(SystemBusError::AddressOverflow))
                        } else if at + image@.len() > size {
                            Err(MachineConfigError::Bus(SystemBusError::AddressUnmapped { addr: (at + image@.len()) as u32 }))
                        } else {
                            Ok(DeviceView::Ram(zeros.subrange(0, at as int) + image@ + zeros.subrange(at + image@.len(), size as int)))
                        }
                    },
                }
            },
        },
        DeviceKind::Serial => Ok(DeviceView::Serial(SerialView {
            control: 0,
            output: Seq::empty(),
            input: if d.source == Some(SerialSourceKind::Stdin) {
                d.input@
            } else {
                Seq::empty()
            },
        })),
        DeviceKind::Timer => Ok(DeviceView::Timer(timer_reset_view())),
        DeviceKind::Clock => Ok(DeviceView::Clock(0)),
    }
}

/// The bus view with one more device mapped and, if `irq` names a line, routed.
pub open spec fn configured_next(b: SystemBusView, d: DeviceTomlConfig) -> Result<SystemBusView, MachineConfigError> {
    match configured_device(d) {
        Err(e) => Err(e),
        Ok(dev) => if !can_map_spec(b, d.base, dv_size(dev)) {
            Err(MachineConfigError::InvalidMapping { base: d.base, size: dv_size(dev) })
        } else {
            let mapped = SystemBusView {
                devices: b.devices.push(MappedView { base: d.base, end: d.base + dv_size(dev), dev }),
                ..b
            };
            match d.irq {
                None => Ok(mapped),
                Some(line) => if line >= IRQ_LINES {
                    Err(MachineConfigError::InvalidIrq { line })
                } else {
                    Ok(SystemBusView { irq: mapped.irq.update(line as int, Some(b.devices.len() as usize)), ..mapped })
                },
            }
        },
    }
}

/// The bus built from the first `n` device entries, or the first error.
pub open spec fn configured_bus(devices: Seq<DeviceTomlConfig>, n: nat) -> Result<SystemBusView, MachineConfigError>
    decreases n,
{
    if n == 0 {
        Ok(SystemBusView { devices: Seq::empty(), irq: Seq::new(IRQ_LINES as nat, |l: int| None::<usize>) })
    } else {
        match configured_bus(devices, (n - 1) as nat) {
            Err(e) => Err(e),
            Ok(b) => if n - 1 < devices.len() {
                configured_next(b, devices[n - 1])
            } else {
                Ok(b)
            },
        }
    }
}

/// Whether an entry is a serial port whose output goes to the host's
/// standard output: every serial port but one that keeps its output.
pub open spec fn writes_stdout(d: DeviceTomlConfig) -> bool {
    d.kind == DeviceKind::Serial && d.sink != Some(SerialSinkKind::Vec)
}

/// The positions, among the first `n` entries, of the serial ports wired to
/// standard output.
pub open spec fn stdout_entries(devices: Seq<DeviceTomlConfig>, n: nat) -> Seq<usize>
    decreases n,
{
    if n == 0 {
        Seq::empty()
    } else {
        let before = stdout_entries(devices, (n - 1) as nat);
        if n - 1 < devices.len() && writes_stdout(devices[n - 1]) {
            before.push((n - 1) as usize)
        } else {
            before
        }
    }
}

/// A machine that has just been put together on `bus`: halted, its
/// registers zero and its control registers at their reset values.
pub open spec fn assembled_machine(bus: SystemBusView) -> CpuView {
    CpuView {
        gpr: crate::emulator::cpu::gpr::zero_registers(),
        creg: crate::emulator::cpu::creg_file::CregView {
            pc: 0,
            sr: crate::emulator::cpu::status::reset_flags(),
            epc: 0,
            esr: crate::emulator::cpu::status::reset_flags(),
            ecause: 0,
            edata: 0,
            evbase: 0,
        },
        bus,
        halted: true,
    }
}

/// A VIV-32 machine: a processor with its bus, and the serial ports whose
/// output goes to the host's standard output.
pub struct Machine {
    cpu: Cpu,
    stdout_serials: Vec<DeviceId>,
}

impl View for Machine {
    type V = CpuView;

    closed spec fn view(&self) -> CpuView {
        self.cpu@
    }
}

impl Machine {
    pub open spec fn wf(&self) -> bool {
        bus_wf(self@.bus) && self@.gpr.len() == 16 && self@.gpr[0] == 0
    }

    /// The handles of the serial ports that write to the host's standard output.
    pub closed spec fn stdout_ports(&self) -> Seq<usize> {
        self.stdout_serials@.map_values(|d: DeviceId| d@)
    }

    /// A halted machine on `bus`.
    pub fn new(bus: SystemBus) -> (m: Self)
        requires
            bus.wf(),
        ensures
            m.wf(),
            m@ == assembled_machine(bus@),
            m.stdout_ports() == Seq::<usize>::empty(),
    {
        let m = Self { cpu: Cpu::new(bus), stdout_serials: Vec::new() };
        assert(m.stdout_ports() =~= Seq::<usize>::empty());
        m
    }

    fn build_device(config: &DeviceTomlConfig) -> (r: Result<Device, MachineConfigError>)
        ensures
            match r {
                Ok(d) => configured_device(*config) == Ok::<DeviceView, MachineConfigError>(d@) && dv_wf(d@),
                Err(e) => configured_device(*config) == Err::<DeviceView, MachineConfigError>(e),
            },
    {
        match config.kind {
            DeviceKind::Ram => {
                let size = match config.size {
                    Some(size) => size,
                    None => return Err(MachineConfigError::MissingRamSize),
                };
                let mut ram = Ram::new(size);
                if let Some(image) = &config.image {
                    let at = match config.image_base {
                        Some(b) => b,
                        None => 0,
                    };
                    if let Err(e) = ram.write_slice(at, image.as_slice()) {
                        return Err(MachineConfigError::Bus(e));
                    }
                    assert(ram@ =~= Seq::new(size as nat, |i: int| 0u8).subrange(0, at as int) + image@
                        + Seq::new(size as nat, |i: int| 0u8).subrange(at + image@.len(), size as int));
                }
                Ok(Device::Ram(ram))
            },
            DeviceKind::Serial => {
                let source = match config.source {
                    Some(SerialSourceKind::Stdin) => {
                        let input = config.input.clone();
                        assert(input@ =~= config.input@);
                        VecSerialSource::new(input)
                    },
                    _ => VecSerialSource::default(),
                };
                Ok(Device::Serial(Serial::new(VecSerialSink::new(), source)))
            },
            DeviceKind::Timer => Ok(Device::Timer(Timer::new())),
            DeviceKind::Clock => Ok(Device::Clock(Clock::new())),
        }
    }

    /// Builds a machine from a description, mapping the devices in order.
    ///
    /// Fails with the first entry that cannot be built: a RAM without a size,
    /// an image that does not fit, a device that cannot be placed, or an IRQ
    /// line out of range.
    pub fn from_toml_config(config: MachineTomlConfig) -> (r: Result<Self, MachineConfigError>)
        ensures
            match r {
                Ok(m) => m.wf() && m@ == assembled_machine(m@.bus) && configured_bus(config.devices@, config.devices@.len())
                    == Ok::<SystemBusView, MachineConfigError>(m@.bus) && m.stdout_ports() == stdout_entries(
                    config.devices@,
                    config.devices@.len(),
                ),
                Err(e) => configured_bus(config.devices@, config.devices@.len()) == Err::<SystemBusView, MachineConfigError>(e),
            },
    {
        let mut bus = SystemBus::new();
        let mut stdout_serials: Vec<DeviceId> = Vec::new();
        let mut i: usize = 0;
        assert(bus@ == configured_bus(config.devices@, 0)->Ok_0) by {
            assert(bus@.devices =~= Seq::<MappedView>::empty());
        }
        while i < config.devices.len()
            invariant
                i <= config.devices@.len(),
                bus.wf(),
                configured_bus(config.devices@, i as nat) == Ok::<SystemBusView, MachineConfigError>(bus@),
                bus@.devices.len() == i,
                stdout_serials@.map_values(|d: DeviceId| d@) == stdout_entries(config.devices@, i as nat),
            decreases config.devices@.len() - i,
        {
            let device_config = &config.devices[i];
            let device = match Self::build_device(device_config) {
                Ok(d) => d,
                Err(e) => {
                    assert(configured_bus(config.devices@, (i + 1) as nat) == Err::<SystemBusView, MachineConfigError>(e));
                    proof {
                        lemma_configured_bus_stays_failed(config.devices@, (i + 1) as nat, config.devices@.len());
                    }
                    return Err(e);
                },
            };
            let base = device_config.base;
            if !bus.can_map(base, &device) {
                let size = device.size();
                let e = MachineConfigError::InvalidMapping { base, size };
                assert(configured_bus(config.devices@, (i + 1) as nat) == Err::<SystemBusView, MachineConfigError>(e));
                proof {
                    lemma_configured_bus_stays_failed(config.devices@, (i + 1) as nat, config.devices@.len());
                }
                return Err(e);
            }
            let is_stdout = match device_config.sink {
                Some(SerialSinkKind::Vec) => false,
                _ => device_config.kind == DeviceKind::Serial,
            };
            let id = bus.map_device(base, device);
            if let Some(line) = device_config.irq {
                if line >= IRQ_LINES {
                    let e = MachineConfigError::InvalidIrq { line };
                    assert(configured_bus(config.devices@, (i + 1) as nat) == Err::<SystemBusView, MachineConfigError>(e));
                    proof {
                        lemma_configured_bus_stays_failed(config.devices@, (i + 1) as nat, config.devices@.len());
                    }
                    return Err(e);
                }
                bus.register_irq(line, id);
            }
            let ghost ports = stdout_serials@;
            if is_stdout {
                stdout_serials.push(id);
                assert(stdout_serials@.map_values(|d: DeviceId| d@) =~= ports.map_values(|d: DeviceId| d@).push(i));
            }
            i += 1;
        }
        let m = Self { cpu: Cpu::new(bus), stdout_serials };
        assert(m.stdout_ports() == stdout_entries(config.devices@, config.devices@.len()));
        Ok(m)
    }

    /// The bus.
    pub fn bus(&self) -> (r: &SystemBus)
        ensures
            r@ == self@.bus,
    {
        self.cpu.bus()
    }

    /// The bus, for accessing memory and devices directly.
    pub fn bus_mut(&mut self) -> (r: &mut SystemBus)
        ensures
            r@ == old(self)@.bus,
            final(self)@ == (CpuView { bus: final(r)@, ..old(self)@ }),
            final(self).stdout_ports() == old(self).stdout_ports(),
    {
        self.cpu.bus_mut()
    }

    pub fn cpu(&self) -> (r: &Cpu)
        ensures
            r@ == self@,
    {
        &self.cpu
    }

    pub fn cpu_mut(&mut self) -> (r: &mut Cpu)
        ensures
            r@ == old(self)@,
            final(self)@ == final(r)@,
            final(self).stdout_ports() == old(self).stdout_ports(),
    {
        &mut self.cpu
    }

    pub fn halted(&self) -> (r: bool)
        ensures
            r == self@.halted,
    {
        self.cpu.is_halted()
    }

    /// Resets the processor and every device.
    pub fn reset(&mut self)
        requires
            old(self).wf(),
        ensures
            final(self).wf(),
            final(self).stdout_ports() == old(self).stdout_ports(),
            final(self)@ == (CpuView {
                gpr: crate::emulator::cpu::gpr::zero_registers(),
                creg: crate::emulator::cpu::creg_file::creg_reset(old(self)@.creg),
                bus: crate::emulator::platform::system_bus::bus_reset(old(self)@.bus),
                halted: false,
            }),
    {
        self.cpu.reset();
    }

    /// One processor clock tick.
    pub fn tick(&mut self)
        requires
            old(self).wf(),
        ensures
            final(self).wf(),
            final(self).stdout_ports() == old(self).stdout_ports(),
            final(self)@ == ticked(old(self)@),
    {
        self.cpu.tick();
    }

    /// Ticks until the processor halts, at most `cycles` times.
    pub fn run_for(&mut self, cycles: usize)
        requires
            old(self).wf(),
        ensures
            final(self).wf(),
            final(self).stdout_ports() == old(self).stdout_ports(),
            final(self)@ == ticks(old(self)@, cycles as nat),
    {
        let ghost start = self@;
        let mut done: usize = 0;
        while done < cycles
            invariant
                self.wf(),
                self.stdout_ports() == old(self).stdout_ports(),
                done <= cycles,
                self@ == ticks(start, done as nat),
                start == old(self)@,
            ensures
                self.wf(),
                self.stdout_ports() == old(self).stdout_ports(),
                done <= cycles,
                self@ == ticks(start, done as nat),
                self@.halted || done == cycles,
            decreases cycles - done,
        {
            if self.cpu.is_halted() {
                break;
            }
            self.tick();
            done += 1;
        }
        proof {
            lemma_ticks_stay_halted(start, done as nat, cycles as nat);
        }
    }

    /// Hands out what the serial ports wired to standard output have
    /// transmitted since the last call, in port order.
    pub fn take_stdout(&mut self) -> (r: Vec<u8>)
        requires
            old(self).wf(),
        ensures
            final(self).wf(),
            final(self).stdout_ports() == old(self).stdout_ports(),
            final(self)@ == (CpuView { bus: stdout_taken(old(self)@.bus, old(self).stdout_ports()).0, ..old(self)@ }),
            r@ == stdout_taken(old(self)@.bus, old(self).stdout_ports()).1,
    {
        let ghost ports = self.stdout_ports();
        let mut out: Vec<u8> = Vec::new();
        let mut k: usize = 0;
        assert(ports.take(0) =~= Seq::<usize>::empty());
        while k < self.stdout_serials.len()
            invariant
                self.wf(),
                self.stdout_ports() == ports,
                ports == old(self).stdout_ports(),
                ports.len() == self.stdout_serials@.len(),
                k <= self.stdout_serials@.len(),
                self@ == (CpuView { bus: stdout_taken(old(self)@.bus, ports.take(k as int)).0, ..old(self)@ }),
                out@ == stdout_taken(old(self)@.bus, ports.take(k as int)).1,
            decreases self.stdout_serials@.len() - k,
        {
            let id = self.stdout_serials[k];
            assert(ports[k as int] == id@);
            assert(ports.take(k + 1).drop_last() =~= ports.take(k as int));
            if id.index() < self.cpu.bus().device_count() {
                let mut bytes = self.cpu.bus_mut().take_device_output(id);
                out.append(&mut bytes);
            }
            k += 1;
        }
        assert(ports.take(k as int) =~= ports);
        out
    }
}

/// The bus after the serial ports `ports` hand out what they transmitted,
/// in order, and those bytes; a handle with no device behind it is skipped.
pub open spec fn stdout_taken(b: SystemBusView, ports: Seq<usize>) -> (SystemBusView, Seq<u8>)
    decreases ports.len(),
{
    if ports.len() == 0 {
        (b, Seq::empty())
    } else {
        let (b1, out) = stdout_taken(b, ports.drop_last());
        let id = ports.last();
        if id < b1.devices.len() {
            (
                SystemBusView { devices: b1.devices.update(id as int, mv_with(b1.devices[id as int], drained(b1.devices[id as int].dev))), ..b1 },
                out + output_of(b1.devices[id as int].dev),
            )
        } else {
            (b1, out)
        }
    }
}

/// The state after `n` processor ticks, stopping early at a halt.
pub open spec fn ticks(v: CpuView, n: nat) -> CpuView
    decreases n,
{
    if n == 0 {
        v
    } else {
        let before = ticks(v, (n - 1) as nat);
        if before.halted {
            before
        } else {
            ticked(before)
        }
    }
}

/// Once the processor has halted, further ticks leave the state as it is.
proof fn lemma_ticks_stay_halted(v: CpuView, k: nat, n: nat)
    requires
        k <= n,
        ticks(v, k).halted || k == n,
    ensures
        ticks(v, n) == ticks(v, k),
    decreases n - k,
{
    if k < n {
        lemma_ticks_stay_halted(v, k, (n - 1) as nat);
    }
}

/// Once an entry fails, building more entries fails with the same error.
proof fn lemma_configured_bus_stays_failed(devices: Seq<DeviceTomlConfig>, k: nat, n: nat)
    requires
        k <= n,
        configured_bus(devices, k) is Err,
    ensures
        configured_bus(devices, n) == configured_bus(devices, k),
    decreases n - k,
{
    if k < n {
        lemma_configured_bus_stays_failed(devices, k, (n - 1) as nat);
    }
}

} // verus!
