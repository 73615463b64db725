use avr_core::state::{PTR_SIZE, SRAM_DATA_OFFSET, SRAM_IO_OFFSET, SRAM_REGISTER_OFFSET};
use avr_core::{Addon, Chip, Core, Error, Instruction, Mcu, Register, RegisterFile, Space};
use std::cell::RefCell;
use std::rc::Rc;

struct Small;

impl Chip for Small {
    fn register_file() -> RegisterFile {
        RegisterFile::new(vec![Register { value: 0 }; 34])
    }

    fn flash_size() -> usize {
        64
    }

    fn memory_size() -> usize {
        128
    }
}

struct Recorder {
    seen: Rc<RefCell<Vec<(Instruction, u32)>>>,
    fail: bool,
}

impl Addon for Recorder {
    fn tick(&mut self, _core: &mut Core, inst: Instruction, pc: u32) -> Result<(), Error> {
        self.seen.borrow_mut().push((inst, pc));
        if self.fail {
            Err(Error::StackOverflow)
        } else {
            Ok(())
        }
    }
}

struct Rewinder;

impl Addon for Rewinder {
    fn tick(&mut self, core: &mut Core, _inst: Instruction, _pc: u32) -> Result<(), Error> {
        core.pc = 0;
        Ok(())
    }
}

#[test]
fn spaces_of_a_core_are_spaces() {
    let c = Core::new::<Small>();
    let fresh = Space::new(128);
    assert_eq!(c.memory().bytes(), fresh.bytes());
    assert_eq!(c.register_file(), &RegisterFile::new(vec![Register { value: 0 }; 34]));
}

#[test]
fn memory_map_offsets() {
    assert_eq!(SRAM_REGISTER_OFFSET, 0);
    assert_eq!(SRAM_IO_OFFSET, 0x20);
    assert_eq!(SRAM_DATA_OFFSET, 0x60);
    assert_eq!(PTR_SIZE, 2);
}

#[test]
fn core_is_built_from_the_chip() {
    let c = Core::new::<Small>();
    assert_eq!(c.pc, 0);
    assert_eq!(c.program_space().len(), 64);
    assert_eq!(c.memory().len(), 128);
    assert_eq!(c.register_file().registers().len(), 34);
}

#[test]
fn mcu_without_observers_steps_the_core() {
    let mut core = Core::new::<Small>();
    core.load_program_space(&[0x0F, 0xEF]).unwrap();
    let mut mcu = Mcu::new(core);
    assert_eq!(mcu.tick(), Ok(()));
    assert_eq!(mcu.core.pc, 2);
    assert_eq!(mcu.core.register_file().gpr(16), Ok(0xFF));
}

#[test]
fn observers_are_told_after_each_step_in_order() {
    let seen = Rc::new(RefCell::new(Vec::new()));
    let mut core = Core::new::<Small>();
    core.load_program_space(&[0x0F, 0xEF, 0x78, 0x94]).unwrap();
    let mut mcu = Mcu::new(core);
    mcu.attach(Box::new(Recorder { seen: seen.clone(), fail: false }));
    mcu.attach(Box::new(Recorder { seen: seen.clone(), fail: false }));
    assert_eq!(mcu.tick(), Ok(()));
    assert_eq!(
        *seen.borrow(),
        vec![(Instruction::Ldi(16, 0xFF), 0), (Instruction::Ldi(16, 0xFF), 0)]
    );
}

#[test]
fn observer_failure_is_dropped() {
    let seen = Rc::new(RefCell::new(Vec::new()));
    let mut core = Core::new::<Small>();
    core.load_program_space(&[0x0F, 0xEF]).unwrap();
    let mut mcu = Mcu::new(core);
    mcu.attach(Box::new(Recorder { seen: seen.clone(), fail: true }));
    mcu.attach(Box::new(Recorder { seen: seen.clone(), fail: false }));
    assert_eq!(mcu.tick(), Ok(()));
    assert_eq!(seen.borrow().len(), 2);
    assert_eq!(mcu.core.pc, 2);
    assert_eq!(mcu.core.register_file().gpr(16), Ok(0xFF));
}

#[test]
fn observers_are_not_told_of_a_failed_step() {
    let seen = Rc::new(RefCell::new(Vec::new()));
    let mut core = Core::new::<Small>();
    core.load_program_space(&[0xFF, 0xFF, 0xFF, 0xFF]).unwrap();
    let mut mcu = Mcu::new(core);
    mcu.attach(Box::new(Recorder { seen: seen.clone(), fail: false }));
    assert_eq!(mcu.tick(), Err(Error::UnknownInstruction(0xFFFF_FFFF)));
    assert!(seen.borrow().is_empty());
    assert_eq!(mcu.core.pc, 0);
}

#[test]
fn observers_may_change_the_core() {
    let mut core = Core::new::<Small>();
    core.load_program_space(&[0x0F, 0xEF]).unwrap();
    let mut mcu = Mcu::new(core);
    mcu.attach(Box::new(Rewinder));
    assert_eq!(mcu.tick(), Ok(()));
    assert_eq!(mcu.core.pc, 0);
    assert_eq!(mcu.core.register_file().gpr(16), Ok(0xFF));
}
