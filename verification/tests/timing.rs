use m68k::cpu::{CACR_060_EBC, PCR_ESS};
use m68k::shim::{OnceLock, SingleThreadLocal};
use m68k::timing_060::fallback_cycles;
use m68k::{info_060, CpuCore, CpuType, FinalCycles, Oep060Timing, PendingHead060};

fn cpu_060() -> CpuCore {
    CpuCore {
        cpu_type: CpuType::M68060,
        pc: 0x1002,
        ppc: 0x1000,
        ir: 0,
        change_of_flow: false,
        supervisor: true,
        cacr: 0,
        pcr: PCR_ESS,
        oep060: Oep060Timing::default(),
    }
}

fn retire(cpu: &mut CpuCore, op: u32) -> i32 {
    cpu.ir = op;
    cpu.cycles_060(4, true)
}

#[test]
fn raw_counts_scale_down() {
    let expected = [(i32::MIN, 1), (-8, 1), (0, 1), (4, 1), (7, 1), (8, 2), (38, 9)];
    for (raw, cycles) in expected {
        assert_eq!(fallback_cycles(raw), cycles);
    }
    assert_eq!(fallback_cycles(i32::MAX), 536_870_911);
}

#[test]
fn independent_instructions_pair() {
    let mut cpu = cpu_060();
    assert_eq!(retire(&mut cpu, 0x7001), 1); // moveq #1,d0
    assert_eq!(
        cpu.oep060.pending_head,
        Some(PendingHead060 {
            def_mask: 1,
            defines_ccr: true,
            accessed_mem: false,
            head_cached: true
        })
    );
    assert_eq!(retire(&mut cpu, 0x7202), 0); // moveq #2,d1
    assert_eq!(cpu.oep060.pending_head, None);
    assert_eq!(retire(&mut cpu, 0x7403), 1); // moveq #3,d2
    assert!(cpu.oep060.pending_head.is_some());
    // The upper half of the instruction register does not matter.
    assert_eq!(retire(&mut cpu, 0xFFFF_7604), 0);
}

#[test]
fn hazards_block_pairing() {
    // Write after write.
    let mut cpu = cpu_060();
    assert_eq!(retire(&mut cpu, 0x7001), 1);
    assert_eq!(retire(&mut cpu, 0x7002), 1);
    // Read after write: add.l d0,d1 behind moveq #1,d0.
    let mut cpu = cpu_060();
    assert_eq!(retire(&mut cpu, 0x7001), 1);
    assert_eq!(retire(&mut cpu, 0xD280), 1);
    // A late CCR consumer behind a CCR producer: seq d3.
    let mut cpu = cpu_060();
    assert_eq!(retire(&mut cpu, 0x7001), 1);
    assert_eq!(retire(&mut cpu, 0x57C3), 1);
    // Two memory operands: move.l (a0),d0; move.l (a1),d1.
    let mut cpu = cpu_060();
    assert_eq!(retire(&mut cpu, 0x2010), 1);
    assert_eq!(retire(&mut cpu, 0x2211), 1);
    // One memory operand is fine.
    let mut cpu = cpu_060();
    assert_eq!(retire(&mut cpu, 0x2010), 1);
    assert_eq!(retire(&mut cpu, 0x7201), 0);
}

#[test]
fn register_destinations_block_pairing() {
    // eor.l d0,d1; move.l d1,d2.
    let mut cpu = cpu_060();
    assert_eq!(retire(&mut cpu, 0xB181), 1);
    assert_eq!(retire(&mut cpu, 0x2401), 1);
    // eor.l d0,d1; move.l d3,d2.
    let mut cpu = cpu_060();
    assert_eq!(retire(&mut cpu, 0xB181), 1);
    assert_eq!(retire(&mut cpu, 0x2403), 0);
    // extb.l d0; move.l d0,d2.
    let mut cpu = cpu_060();
    assert_eq!(retire(&mut cpu, 0x49C0), 1);
    assert_eq!(retire(&mut cpu, 0x2400), 1);
    // cmpm.b (a0)+,(a1)+; movea.l a1,a2.
    let mut cpu = cpu_060();
    assert_eq!(retire(&mut cpu, 0xB308), 1);
    assert_eq!(retire(&mut cpu, 0x2449), 1);
    // cmpm.b (a0)+,(a1)+; move.l (a2),d0: two memory operands.
    let mut cpu = cpu_060();
    assert_eq!(retire(&mut cpu, 0xB308), 1);
    assert_eq!(retire(&mut cpu, 0x2012), 1);
}

#[test]
fn primary_only_instructions_never_pair() {
    // chk, moves, cmp2, link.l, unpk and roxl of memory, behind moveq #1,d7.
    for op in [0x4980, 0x0E10, 0x02D0, 0x4808, 0x8180, 0xE5D0] {
        let mut cpu = cpu_060();
        assert_eq!(retire(&mut cpu, 0x7E01), 1);
        assert_eq!(retire(&mut cpu, op), 1);
        assert_eq!(cpu.oep060.pending_head, None);
        assert_eq!(retire(&mut cpu, 0x7C01), 1);
    }
}

#[test]
fn indexed_addresses_cost_a_clock() {
    // mulu.w (d8,a0,xn),d0, tas (d8,a0,xn), asl.w (d8,a0,xn)
    let mut cpu = cpu_060();
    assert_eq!(retire(&mut cpu, 0xC0F0), 3);
    assert_eq!(retire(&mut cpu, 0x4AF0), 3);
    assert_eq!(retire(&mut cpu, 0xE1F0), 2);
}

#[test]
fn pairing_is_gated() {
    let mut cpu = cpu_060();
    cpu.pcr = 0xFFFF_FFFE;
    assert_eq!(retire(&mut cpu, 0x7001), 1);
    assert_eq!(retire(&mut cpu, 0x7202), 1);
    let mut cpu = cpu_060();
    cpu.ir = 0x7001;
    assert_eq!(cpu.cycles_060(4, false), 1);
    assert_eq!(retire(&mut cpu, 0x7202), 1);
    cpu.ir = 0x7403;
    assert_eq!(cpu.cycles_060(4, false), 1);
    cpu.break_060_pipeline();
    assert_eq!(cpu.oep060.pending_head, None);
}

#[test]
fn dispatch_test_alone() {
    let cpu = cpu_060();
    let head = PendingHead060 { head_cached: true, ..PendingHead060::default() };
    let moveq = info_060(0x7000);
    assert!(cpu.soep_dispatch_test(&head, moveq, 0, 1, true));
    assert!(!cpu.soep_dispatch_test(&head, moveq, 0, 1, false));
    assert!(!cpu.soep_dispatch_test(&PendingHead060::default(), moveq, 0, 1, true));
    let writer = PendingHead060 { def_mask: 0x8001, ..head };
    assert!(!cpu.soep_dispatch_test(&writer, moveq, 0, 1, true));
    assert!(!cpu.soep_dispatch_test(&writer, moveq, 0x8000, 2, true));
    assert!(cpu.soep_dispatch_test(&writer, moveq, 0x4000, 2, true));
    assert!(!cpu.soep_dispatch_test(&head, info_060(0x4E71), 0, 0, true));
    assert!(!cpu.soep_dispatch_test(&head, info_060(0x2030), 0, 0, true)); // indexed
}

#[test]
fn classes_decide_about_the_window() {
    // muls.w d1,d0 occupies both positions.
    let mut cpu = cpu_060();
    assert_eq!(retire(&mut cpu, 0xC1C1), 2);
    assert_eq!(cpu.oep060.pending_head, None);
    // movem.l d0-d1,-(a7): raw fallback, window open with full masks.
    let mut cpu = cpu_060();
    cpu.ir = 0x48E7;
    assert_eq!(cpu.cycles_060(24, true), 6);
    assert_eq!(
        cpu.oep060.pending_head,
        Some(PendingHead060 {
            def_mask: 0xFFFF,
            defines_ccr: false,
            accessed_mem: true,
            head_cached: true
        })
    );
    // move.l (d8,a0,xn),d0: indexed, one clock more.
    let mut cpu = cpu_060();
    assert_eq!(retire(&mut cpu, 0x2030), 2);
    // It never dispatches to the secondary pipeline.
    let mut cpu = cpu_060();
    assert_eq!(retire(&mut cpu, 0x7E00), 1);
    assert_eq!(retire(&mut cpu, 0x2030), 2);
}

#[test]
fn flow_changes_pay_the_refill() {
    let mut cpu = cpu_060();
    retire(&mut cpu, 0x7001);
    cpu.change_of_flow = true;
    assert_eq!(retire(&mut cpu, 0x4E75), 5);
    assert_eq!(cpu.oep060.pending_head, None);
    cpu.ir = 0x4E75;
    assert_eq!(cpu.cycles_060(40, true), 10);
}

#[test]
fn static_branch_costs() {
    let mut cpu = cpu_060();
    cpu.change_of_flow = true;
    assert_eq!(retire(&mut cpu, 0x60FE), 7);
    cpu.change_of_flow = false;
    assert_eq!(retire(&mut cpu, 0x66FE), 1);
    // DBcc looks at the program counter.
    cpu.ppc = 0xFFFF_FFFE;
    cpu.pc = 0xFFFF_FFF0;
    assert_eq!(retire(&mut cpu, 0x51C9), 2);
    cpu.pc = 2;
    assert_eq!(retire(&mut cpu, 0x51C9), 3);
    // The cache is not used off an uncached stream.
    cpu.cacr = CACR_060_EBC;
    cpu.ir = 0x51C9;
    assert_eq!(cpu.cycles_060(4, false), 3);
    assert_eq!(cpu.oep060.branch_cache.predict(0xFFFF_FFFE), None);
}

#[test]
fn predicted_branches_fold() {
    let mut cpu = cpu_060();
    cpu.cacr = CACR_060_EBC;
    cpu.change_of_flow = true;
    // The first time is a mispredict.
    assert_eq!(retire(&mut cpu, 0x60FE), 7);
    assert_eq!(cpu.oep060.branch_cache.predict(0x1000), Some(true));
    // A lone predicted branch still costs a clock per iteration.
    for _ in 0..5 {
        assert_eq!(retire(&mut cpu, 0x60FE), 1);
    }
    // Behind an open window it is free.
    cpu.change_of_flow = false;
    assert_eq!(retire(&mut cpu, 0x7001), 1);
    cpu.change_of_flow = true;
    assert_eq!(retire(&mut cpu, 0x60FE), 0);
    assert_eq!(cpu.oep060.pending_head, None);
    // A surprise costs the refill, and a correct not-taken one clock.
    cpu.change_of_flow = false;
    assert_eq!(retire(&mut cpu, 0x66FE), 7);
    assert_eq!(retire(&mut cpu, 0x66FE), 7);
    assert_eq!(retire(&mut cpu, 0x66FE), 1);
}

#[test]
fn branch_cost_records_the_privilege_mode() {
    let mut cpu = cpu_060();
    cpu.cacr = 0xFFFF_FFFF;
    cpu.supervisor = false;
    assert!(!cpu.is_supervisor());
    assert_eq!(cpu.branch_cost_060(true, false, true, true), 7);
    cpu.ppc = 0x1002;
    cpu.supervisor = true;
    assert_eq!(cpu.branch_cost_060(true, true, true, true), 7);
    cpu.oep060.branch_cache.clear_user();
    assert_eq!(cpu.oep060.branch_cache.predict(0x1000), None);
    assert_eq!(cpu.oep060.branch_cache.predict(0x1002), Some(true));
    assert_eq!(cpu.branch_cost_060(true, true, true, true), 0);
    assert_eq!(cpu.branch_cost_060(true, true, true, false), 1);
}

#[test]
fn models_are_told_apart() {
    let mut cpu = cpu_060();
    cpu.ir = 0x7001;
    for model in [CpuType::M68EC020, CpuType::M68020, CpuType::M68EC030, CpuType::M68030] {
        cpu.cpu_type = model;
        assert_eq!(
            cpu.finalize_cycles(8, true),
            FinalCycles::Tables020 { raw: 8, fetch_cached: true }
        );
    }
    for model in [CpuType::M68EC040, CpuType::M68LC040, CpuType::M68040] {
        cpu.cpu_type = model;
        assert_eq!(cpu.finalize_cycles(8, true), FinalCycles::Pipeline040 { raw: 8 });
    }
    for model in [CpuType::M68000, CpuType::M68010, CpuType::SCC68070] {
        cpu.cpu_type = model;
        assert_eq!(cpu.finalize_cycles(8, true), FinalCycles::Scaled { raw: 8 });
    }
    assert_eq!(cpu.oep060.pending_head, None);
    cpu.cpu_type = CpuType::M68060;
    assert_eq!(cpu.finalize_cycles(8, true), FinalCycles::Charged(1));
    assert!(cpu.oep060.pending_head.is_some());
}

#[test]
fn timing_state_copies() {
    let mut cpu = cpu_060();
    retire(&mut cpu, 0x7001);
    cpu.oep060.branch_cache.update(0x10, true, true);
    let copy = cpu.oep060.clone();
    assert!(copy == cpu.oep060);
    assert!(copy != Oep060Timing::default());
}

#[test]
fn a_slot_is_filled_once() {
    let mut slot: OnceLock<u32> = OnceLock::new();
    assert_eq!(*slot.get_or_init(|| 7), 7);
    assert_eq!(*slot.get_or_init(|| panic!("filled twice")), 7);
}

#[test]
fn a_slot_is_changed_in_place() {
    let mut slot = SingleThreadLocal::new(vec![1, 2]);
    let len = slot.with_borrow_mut(|v| {
        v.push(3);
        v.len()
    });
    assert_eq!(len, 3);
    assert_eq!(slot.with_borrow_mut(|v| v.clone()), vec![1, 2, 3]);
}
