//! Tests for the CPU: instruction behaviour, cycle counts, the documented
//! quirks, and the OAM DMA stall, all run on a real bus with a synthetic
//! NROM cartridge.

use nesium::cartridge::Cartridge;
use nesium::cpu::{Cpu, CpuBus, FLAG_C, FLAG_I, FLAG_N, FLAG_V, FLAG_Z};
use nesium::memory::MemoryBus;

/// Builds a bus whose cartridge holds `program` at 0x8000 and whose RESET
/// vector points at it, and a CPU that has come out of reset there.
fn boot(program: &[u8]) -> (Cpu, MemoryBus) {
    let mut data = vec![0x4E, 0x45, 0x53, 0x1A, 1, 1, 0, 0];
    data.resize(16, 0);
    let mut prg = vec![0u8; 0x4000];
    prg[..program.len()].copy_from_slice(program);
    // RESET vector: 0x8000.  IRQ vector: 0x9000 for interrupt tests.
    prg[0x3FFC] = 0x00;
    prg[0x3FFD] = 0x80;
    prg[0x3FFE] = 0x00;
    prg[0x3FFF] = 0x90;
    data.extend_from_slice(&prg);
    data.resize(16 + 0x4000 + 0x2000, 0);
    let cart = Cartridge::load(&data).unwrap();
    let mut bus = MemoryBus::new(cart);
    let mut cpu = Cpu::new();
    cpu.reset(&mut bus);
    assert_eq!(cpu.pc, 0x8000);
    (cpu, bus)
}

#[test]
fn immediate_load_takes_two_cycles() {
    let (mut cpu, mut bus) = boot(&[0xA9, 0x42]);
    let cycles = cpu.step(&mut bus);
    assert_eq!(cycles, 2);
    assert_eq!(cpu.a, 0x42);
    assert_eq!(cpu.pc, 0x8002);
    assert_eq!(cpu.status & FLAG_Z, 0);
    assert_eq!(cpu.status & FLAG_N, 0);
}

#[test]
fn zero_and_negative_flags_follow_loads() {
    let (mut cpu, mut bus) = boot(&[0xA9, 0x00, 0xA9, 0x80]);
    cpu.step(&mut bus);
    assert_ne!(cpu.status & FLAG_Z, 0);
    cpu.step(&mut bus);
    assert_eq!(cpu.status & FLAG_Z, 0);
    assert_ne!(cpu.status & FLAG_N, 0);
}

#[test]
fn absolute_x_read_pays_page_cross_penalty() {
    // LDX #$01; LDA $80FF,X  (crosses into 0x8100)
    let (mut cpu, mut bus) = boot(&[0xA2, 0x01, 0xBD, 0xFF, 0x80]);
    cpu.step(&mut bus);
    assert_eq!(cpu.step(&mut bus), 5);
    // LDX #$01; LDA $8000,X  (same page)
    let (mut cpu2, mut bus2) = boot(&[0xA2, 0x01, 0xBD, 0x00, 0x80]);
    cpu2.step(&mut bus2);
    assert_eq!(cpu2.step(&mut bus2), 4);
}

#[test]
fn stores_never_pay_the_page_cross_penalty() {
    // LDX #$01; STA $00FF,X
    let (mut cpu, mut bus) = boot(&[0xA2, 0x01, 0x9D, 0xFF, 0x00]);
    cpu.step(&mut bus);
    assert_eq!(cpu.step(&mut bus), 5);
}

#[test]
fn branch_cycle_costs() {
    // SEC; BCS +0 (taken, same page)
    let (mut cpu, mut bus) = boot(&[0x38, 0xB0, 0x00]);
    cpu.step(&mut bus);
    assert_eq!(cpu.step(&mut bus), 3);
    // CLC; BCS (not taken)
    let (mut cpu2, mut bus2) = boot(&[0x18, 0xB0, 0x10]);
    cpu2.step(&mut bus2);
    assert_eq!(cpu2.step(&mut bus2), 2);
    // Program near a page end: BCS backwards across the page boundary.
    let (mut cpu3, mut bus3) = boot(&[0x38, 0xB0, 0x80]);
    cpu3.step(&mut bus3);
    assert_eq!(cpu3.step(&mut bus3), 4);
    assert_eq!(cpu3.pc, 0x7F83);
}

#[test]
fn adc_sets_carry_and_overflow() {
    // LDA #$50; ADC #$50 -> 0xA0, V set, C clear.
    let (mut cpu, mut bus) = boot(&[0xA9, 0x50, 0x69, 0x50]);
    cpu.step(&mut bus);
    cpu.step(&mut bus);
    assert_eq!(cpu.a, 0xA0);
    assert_ne!(cpu.status & FLAG_V, 0);
    assert_eq!(cpu.status & FLAG_C, 0);
    // LDA #$FF; SEC; ADC #$01 -> 0x01, C set, V clear.
    let (mut cpu2, mut bus2) = boot(&[0xA9, 0xFF, 0x38, 0x69, 0x01]);
    cpu2.step(&mut bus2);
    cpu2.step(&mut bus2);
    cpu2.step(&mut bus2);
    assert_eq!(cpu2.a, 0x01);
    assert_ne!(cpu2.status & FLAG_C, 0);
    assert_eq!(cpu2.status & FLAG_V, 0);
}

#[test]
fn sbc_borrow_and_overflow() {
    // SEC; LDA #$50; SBC #$B0 -> 0xA0, V set, C clear (borrow).
    let (mut cpu, mut bus) = boot(&[0x38, 0xA9, 0x50, 0xE9, 0xB0]);
    cpu.step(&mut bus);
    cpu.step(&mut bus);
    cpu.step(&mut bus);
    assert_eq!(cpu.a, 0xA0);
    assert_ne!(cpu.status & FLAG_V, 0);
    assert_eq!(cpu.status & FLAG_C, 0);
}

#[test]
fn bit_copies_operand_bits_to_n_and_v() {
    // LDA #$C0; STA $10; LDA #$00; BIT $10
    let (mut cpu, mut bus) = boot(&[0xA9, 0xC0, 0x85, 0x10, 0xA9, 0x00, 0x24, 0x10]);
    for _ in 0..4 {
        cpu.step(&mut bus);
    }
    assert_ne!(cpu.status & FLAG_N, 0);
    assert_ne!(cpu.status & FLAG_V, 0);
    assert_ne!(cpu.status & FLAG_Z, 0);
}

#[test]
fn jmp_indirect_wraps_within_the_page() {
    // The pointer at 0x02FF takes its high byte from 0x0200, not 0x0300.
    // LDA #$34; STA $02FF; LDA #$12; STA $0200; JMP ($02FF)
    let (mut cpu, mut bus) = boot(
        &[0xA9, 0x34, 0x8D, 0xFF, 0x02, 0xA9, 0x12, 0x8D, 0x00, 0x02, 0x6C, 0xFF, 0x02],
    );
    for _ in 0..4 {
        cpu.step(&mut bus);
    }
    assert_eq!(cpu.step(&mut bus), 5);
    assert_eq!(cpu.pc, 0x1234);
}

#[test]
fn zero_page_indexed_pointer_wraps() {
    // With X = 0xFF the pointer sits at 0xFF, and its high byte wraps to
    // zero page address 0x00: 0x00 holds 0x03, 0xFF holds 0x00 -> 0x0300.
    // LDA #$03; STA $00; LDA #$00; STA $FF; LDA #$5A; STA $0300;
    // LDX #$FF; LDA ($00,X)
    let (mut cpu, mut bus) = boot(
        &[
            0xA9, 0x03, 0x85, 0x00, 0xA9, 0x00, 0x85, 0xFF, 0xA9, 0x5A, 0x8D, 0x00, 0x03, 0xA2,
            0xFF, 0xA1, 0x00,
        ],
    );
    for _ in 0..7 {
        cpu.step(&mut bus);
    }
    assert_eq!(cpu.step(&mut bus), 6);
    assert_eq!(cpu.a, 0x5A);
}

#[test]
fn stack_round_trips_through_pha_pla() {
    // LDA #$7E; PHA; LDA #$00; PLA
    let (mut cpu, mut bus) = boot(&[0xA9, 0x7E, 0x48, 0xA9, 0x00, 0x68]);
    let sp0 = cpu.sp;
    cpu.step(&mut bus);
    assert_eq!(cpu.step(&mut bus), 3);
    assert_eq!(cpu.sp, sp0.wrapping_sub(1));
    cpu.step(&mut bus);
    assert_eq!(cpu.step(&mut bus), 4);
    assert_eq!(cpu.a, 0x7E);
    assert_eq!(cpu.sp, sp0);
}

#[test]
fn unknown_opcode_runs_as_two_cycle_nop() {
    let (mut cpu, mut bus) = boot(&[0x02, 0xEA]);
    assert_eq!(cpu.step(&mut bus), 2);
    assert_eq!(cpu.pc, 0x8001);
}

#[test]
fn undocumented_lax_loads_both_registers() {
    // LDA #$3C; STA $20; *LAX $20
    let (mut cpu, mut bus) = boot(&[0xA9, 0x3C, 0x85, 0x20, 0xA7, 0x20]);
    cpu.step(&mut bus);
    cpu.step(&mut bus);
    cpu.a = 0;
    assert_eq!(cpu.step(&mut bus), 3);
    assert_eq!(cpu.a, 0x3C);
    assert_eq!(cpu.x, 0x3C);
}

#[test]
fn oamdma_write_stalls_the_cpu_for_513_or_514_cycles() {
    // LDA #$02; STA $4014; NOP
    let (mut cpu, mut bus) = boot(&[0xA9, 0x02, 0x8D, 0x14, 0x40, 0xEA]);
    cpu.step(&mut bus);
    let parity_odd = cpu.cycles % 2 == 1;
    let store_cycles = cpu.step(&mut bus);
    assert_eq!(store_cycles, 4);
    let expected_stall: u64 = if parity_odd { 513 } else { 514 };
    assert_eq!(cpu.stall_cycles, expected_stall);
    // Every stall step costs one cycle and fetches nothing.
    let before = cpu.cycles;
    let pc_before = cpu.pc;
    let mut served = 0u64;
    while cpu.stall_cycles > 0 {
        assert_eq!(cpu.step(&mut bus), 1);
        served += 1;
    }
    assert_eq!(served, expected_stall);
    assert_eq!(cpu.cycles, before + expected_stall);
    assert_eq!(cpu.pc, pc_before);
    // The next step fetches the NOP.
    assert_eq!(cpu.step(&mut bus), 2);
}

#[test]
fn oamdma_copies_a_ram_page_into_oam() {
    let (mut cpu, mut bus) = boot(&[0xA9, 0x02, 0x8D, 0x14, 0x40]);
    for i in 0..256u16 {
        bus.write(0x0200 + i, (i % 256) as u8);
    }
    cpu.step(&mut bus);
    cpu.step(&mut bus);
    for i in 0..256usize {
        assert_eq!(bus.ppu.oam[i], (i % 256) as u8);
    }
}

#[test]
fn irq_respects_the_interrupt_mask() {
    let (mut cpu, mut bus) = boot(&[0xEA]);
    // Out of reset the mask is up: an IRQ is ignored.
    let pc0 = cpu.pc;
    cpu.trigger_irq(&mut bus);
    assert_eq!(cpu.pc, pc0);
    // With the mask down it vectors through 0xFFFE and re-raises the mask.
    cpu.status &= !FLAG_I;
    let cycles0 = cpu.cycles;
    cpu.trigger_irq(&mut bus);
    assert_eq!(cpu.pc, 0x9000);
    assert_ne!(cpu.status & FLAG_I, 0);
    assert_eq!(cpu.cycles, cycles0 + 7);
}

#[test]
fn nmi_pushes_status_with_break_clear() {
    let (mut cpu, mut bus) = boot(&[0xEA]);
    let sp0 = cpu.sp;
    cpu.trigger_nmi(&mut bus);
    assert_eq!(cpu.sp, sp0.wrapping_sub(3));
    // The pushed status byte sits just above the new stack pointer.
    let pushed = bus.read(0x0100 + sp0.wrapping_sub(2) as u16);
    assert_eq!(pushed & 0x10, 0);
    assert_ne!(pushed & 0x20, 0);
}

#[test]
fn open_bus_returns_the_last_read_byte() {
    let (_cpu, mut bus) = boot(&[0xA9, 0x42]);
    // Read the LDA operand: 0x42 lands in the latch.
    let b = bus.read(0x8001);
    assert_eq!(b, 0x42);
    // The unmapped test range reads the latch back.
    assert_eq!(bus.read(0x4018), 0x42);
    assert_eq!(bus.read(0x5ABC), 0x42);
}

#[test]
fn controller_reads_report_buttons_in_order() {
    let (_cpu, mut bus) = boot(&[0xEA]);
    bus.input.controller1.a = true;
    bus.input.controller1.start = true;
    // Strobe high then low latches the pad.
    bus.write(0x4016, 1);
    bus.write(0x4016, 0);
    let bits: Vec<u8> = (0..8).map(|_| bus.read(0x4016) & 1).collect();
    assert_eq!(bits, vec![1, 0, 0, 1, 0, 0, 0, 0]);
    // After eight reads the port reads zero.
    assert_eq!(bus.read(0x4016) & 1, 0);
}

#[test]
fn oamdma_copies_a_cartridge_page_into_oam() {
    // Page 0x80 of the CPU address space is the start of PRG ROM, so the
    // DMA must land the program bytes themselves in OAM.
    let (mut cpu, mut bus) = boot(&[0xA9, 0x80, 0x8D, 0x14, 0x40]);
    cpu.step(&mut bus);
    cpu.step(&mut bus);
    for i in 0..256u16 {
        let expected = bus.cartridge.cpu_read(0x8000 + i);
        assert_eq!(bus.ppu.oam[i as usize], expected);
    }
    assert_eq!(bus.ppu.oam[0], 0xA9);
    assert_eq!(bus.ppu.oam[1], 0x80);
}

#[test]
fn oamdma_copies_a_prg_ram_page_into_oam() {
    let (mut cpu, mut bus) = boot(&[0xA9, 0x60, 0x8D, 0x14, 0x40]);
    for i in 0..256u16 {
        bus.write(0x6000 + i, (0xFF - (i % 256) as u8) as u8);
    }
    cpu.step(&mut bus);
    cpu.step(&mut bus);
    for i in 0..256usize {
        assert_eq!(bus.ppu.oam[i], 0xFF - (i % 256) as u8);
    }
}
