use std::collections::HashMap;

use lib::machine::{
    Barrier, CacheKill, CacheLineOp, Counter64, ExcField, Hexagon, IntCtl, IrqHandler, Runtime, Shared, SysReg,
    ThreadCtl, ThreadEntry, TrapKind,
};
use lib::regs::{CFGTABLE_COPROC_PRESENT, CFGTABLE_EXT_CONTEXTS, CFGTABLE_SUBSYSTEM_BASE, CFGTABLE_THREAD_ENABLE_MASK};
use lib::report::{Fatal, TestCase};
use lib::runtime::SemihostWriter;
use lib::tlb::{make_tlb_hi, make_tlb_lo, TLB_PERM_XWRU};
use lib::suites::common::exit_poll;
use lib::suites::hvx_context::thread1_hvx_context;
use lib::suites::int_steering::l2vic_handler;
use lib::suites::int_steering::thread1_entry;
use lib::suites::isr_stress::{cascade_handler, counting_handler, data_writer_handler};
use lib::suites::tlb_mmu::TlbMmuTest;

/// A machine that remembers what it was told: registers, shared words,
/// memory, TLB entries and extension contexts behave like storage; a few
/// answers can be scripted.
struct Fake {
    out: Vec<u8>,
    regs: HashMap<String, u32>,
    shared: HashMap<String, u32>,
    shared_script: HashMap<String, Vec<u32>>,
    mem: HashMap<u32, u32>,
    cfg: HashMap<u32, u32>,
    tlb: Vec<(u32, u32)>,
    delay_stores: Vec<u32>,
    swi: Vec<u32>,
    handlers: Vec<(u32, String)>,
    entries: Vec<(u32, Option<String>)>,
    thread_ops: Vec<String>,
    exc: HashMap<String, u32>,
    v0: [u32; 8],
    v0_lanes_override: Option<[u32; 32]>,
}

impl Fake {
    fn new() -> Fake {
        Fake {
            out: Vec::new(),
            regs: HashMap::new(),
            shared: HashMap::new(),
            shared_script: HashMap::new(),
            mem: HashMap::new(),
            cfg: HashMap::new(),
            tlb: vec![(0, 0); 64],
            delay_stores: Vec::new(),
            swi: Vec::new(),
            handlers: Vec::new(),
            entries: Vec::new(),
            thread_ops: Vec::new(),
            exc: HashMap::new(),
            v0: [0; 8],
            v0_lanes_override: None,
        }
    }

    fn text(&self) -> String {
        String::from_utf8(self.out.clone()).unwrap()
    }
}

fn key<T: std::fmt::Debug>(t: T) -> String {
    format!("{:?}", t)
}

impl Hexagon for Fake {
    fn putc(&mut self, c: u8) {
        self.out.push(c);
    }
    fn read_reg(&mut self, r: SysReg) -> u32 {
        *self.regs.get(&key(r)).unwrap_or(&0)
    }
    fn write_reg(&mut self, r: SysReg, val: u32) {
        self.regs.insert(key(r), val);
    }
    fn read_counter(&mut self, _c: Counter64) -> u64 {
        0
    }
    fn barrier(&mut self, _b: Barrier) {}
    fn thread_ctl(&mut self, op: ThreadCtl, mask: u32) {
        self.thread_ops.push(format!("{:?} {}", op, mask));
    }
    fn int_ctl(&mut self, op: IntCtl, val: u32) {
        if let IntCtl::Swi = op {
            self.swi.push(val);
        }
    }
    fn iassignr(&mut self, _val: u32) -> u32 {
        0
    }
    fn tlb_write(&mut self, hi: u32, lo: u32, idx: u32) {
        self.tlb[idx as usize] = (hi, lo);
    }
    fn tlb_read(&mut self, idx: u32) -> (u32, u32) {
        self.tlb[idx as usize]
    }
    fn tlb_probe(&mut self, va: u32) -> i32 {
        match self.tlb.iter().position(|e| e.0 == va && va != 0) {
            Some(i) => i as i32,
            None => -1,
        }
    }
    fn ctlbw(&mut self, _hi: u32, _lo: u32, _idx: u32) -> u32 {
        0x8000_0000
    }
    fn tlboc(&mut self, _hi: u32, _lo: u32) -> u32 {
        0x8000_0000
    }
    fn cache_line_op(&mut self, _op: CacheLineOp, _addr: u32) {}
    fn cache_kill(&mut self, _k: CacheKill) {}
    fn reset_exception_state(&mut self) {
        self.exc.clear();
    }
    fn reset_nmi_state(&mut self) {}
    fn exception_field(&mut self, f: ExcField) -> u32 {
        *self.exc.get(&key(f)).unwrap_or(&0)
    }
    fn trap(&mut self, _t: TrapKind, _imm: u32) {}
    fn delay_store(&mut self, val: u32) {
        self.delay_stores.push(val);
    }
    fn memw_phys(&mut self, offset: u32, base: u32) -> u32 {
        *self.cfg.get(&(base.wrapping_add(offset))).unwrap_or(&0)
    }
    fn mmio_read(&mut self, addr: u32) -> u32 {
        *self.mem.get(&addr).unwrap_or(&0)
    }
    fn mmio_write(&mut self, addr: u32, val: u32) {
        self.mem.insert(addr, val);
    }
    fn set_thread_entry(&mut self, tid: u32, entry: Option<ThreadEntry>) {
        self.entries.push((tid, entry.map(key)));
    }
    fn register_interrupt(&mut self, intno: u32, handler: IrqHandler) {
        self.handlers.push((intno, key(handler)));
    }
    fn shared_load(&mut self, v: Shared) -> u32 {
        let k = key(v);
        if let Some(script) = self.shared_script.get_mut(&k) {
            if !script.is_empty() {
                return script.remove(0);
            }
        }
        *self.shared.get(&k).unwrap_or(&0)
    }
    fn shared_store(&mut self, v: Shared, val: u32) {
        self.shared.insert(key(v), val);
    }
    fn shared_add(&mut self, v: Shared, val: u32) {
        let e = self.shared.entry(key(v)).or_insert(0);
        *e = e.wrapping_add(val);
    }
    fn shared_fetch_add(&mut self, v: Shared, val: u32) -> u32 {
        let e = self.shared.entry(key(v)).or_insert(0);
        let prev = *e;
        *e = prev.wrapping_add(val);
        prev
    }
    fn scratch_init(&mut self, _words: u32, _fill: u32) -> u32 {
        0x1000
    }
    fn scratch_read(&mut self, _i: u32) -> u32 {
        0
    }
    fn scratch_write(&mut self, _i: u32, _val: u32) {}
    fn volatile_echo(&mut self, val: u32) -> u32 {
        val
    }
    fn add_one(&mut self, val: u32) -> u32 {
        val.wrapping_add(1)
    }
    fn hvx_splat_store(&mut self, val: u32) -> [u32; 32] {
        [val; 32]
    }
    fn hvx_v0_splat(&mut self, selected: u32, val: u32, _disabled: u32) {
        self.v0[((selected >> 27) & 7) as usize] = val;
    }
    fn hvx_v0_store(&mut self, selected: u32, _disabled: u32) -> [u32; 32] {
        match self.v0_lanes_override {
            Some(l) => l,
            None => [self.v0[((selected >> 27) & 7) as usize]; 32],
        }
    }
    fn hvx_probe_insn(&mut self) {}
}

fn fresh() -> Runtime<Fake> {
    Runtime::new(Fake::new())
}

fn output(rt: Runtime<Fake>) -> String {
    rt.into_machine().text()
}

#[test]
fn error_counter_counts_and_resets() {
    let mut rt = fresh();
    assert_eq!(rt.error_count(), 0);
    assert_eq!(rt.record_error(), 1);
    assert_eq!(rt.record_error(), 2);
    assert_eq!(rt.error_count(), 2);
    rt.reset_errors();
    assert_eq!(rt.error_count(), 0);
}

#[test]
fn console_formats_numbers() {
    let mut rt = fresh();
    rt.put_dec(0);
    rt.putc(b' ');
    rt.put_dec(12345);
    rt.putc(b' ');
    rt.put_hex(0xdead);
    rt.putc(b' ');
    rt.put_hexw(0x2a, 8);
    rt.putc(b' ');
    rt.put_hexw(0x5, 2);
    rt.putc(b' ');
    rt.put_hexw(0x123, 2);
    rt.putc(b' ');
    rt.put_hex(0);
    assert_eq!(output(rt), "0 12345 dead 0000002a 05 123 0");
}

#[test]
fn puts_and_println_write_text() {
    let mut rt = fresh();
    rt.puts("abc");
    rt.println(" def");
    rt.newline();
    assert_eq!(output(rt), "abc def\n\n");
}

#[test]
fn semihost_writer_writes_to_console() {
    let mut rt = fresh();
    let mut w = SemihostWriter;
    w.write_str(&mut rt, "hello");
    assert_eq!(output(rt), "hello");
}

#[test]
fn check32_reports_mismatch() {
    let mut rt = fresh();
    rt.check32(7, 7);
    assert_eq!(rt.error_count(), 0);
    rt.check32(1, 2);
    assert_eq!(rt.error_count(), 1);
    assert_eq!(output(rt), "FAIL: got 0x00000001, expected 0x00000002\n");
}

#[test]
fn check64_range_ne_and_condition_report() {
    let mut rt = fresh();
    rt.check64(0x1_0000_0000, 0x1_0000_0000);
    rt.check64(1, 0x1_0000_0000);
    rt.check32_range(5, 1, 10);
    rt.check32_range(11, 1, 10);
    rt.check32_ne(3, 4);
    rt.check32_ne(4, 4);
    rt.check(true, "x > 0");
    rt.check(false, "x > 0");
    assert_eq!(rt.error_count(), 4);
    assert_eq!(
        output(rt),
        "FAIL: got 0x0000000000000001, expected 0x0000000100000000\n\
         FAIL: 0x0000000b not in [0x00000001, 0x0000000a]\n\
         FAIL: got 0x00000004, expected != 0x00000004\n\
         FAIL: condition 'x > 0' was false\n"
    );
}

#[test]
fn suite_begin_and_end_print_summary() {
    let mut rt = fresh();
    rt.test_suite_begin("Demo");
    assert_eq!(rt.test_suite_end(), 0);
    rt.record_error();
    rt.record_error();
    rt.record_error();
    assert_eq!(rt.test_suite_end(), 3);
    assert_eq!(output(rt), "=== Test Suite: Demo ===\nPASS\nFAIL (3 errors)\n");
}

#[test]
fn fatal_reports_match_panic_messages() {
    let mut rt = fresh();
    rt.report_fatal(Fatal::SubsystemBaseZero);
    rt.report_fatal(Fatal::ProbeFailed { base: 0x1234, en_set: 0, en_clr: 1 });
    rt.report_fatal(Fatal::FastL2vicBaseZero);
    assert_eq!(
        output(rt),
        "PANIC: panicked at src/suites/l2vic.rs:setup_l2vic:\n\
         FATAL: subsystem_base is 0 \u{2014} cannot discover L2VIC\n\
         PANIC: panicked at src/suites/l2vic.rs:l2vic_probe:\n\
         FATAL: L2VIC probe failed at 0x00001234: enable after SET=0x0, after CLR=0x1\n\
         PANIC: panicked at src/suites/l2vic.rs:test_l2vic_fast_interface:\n\
         FATAL: fast L2VIC base is 0 in config table\n"
    );
}

#[test]
fn busy_loop_issues_one_store_per_iteration() {
    let mut rt = fresh();
    rt.busy_loop(3);
    rt.busy_loop(0);
    assert_eq!(rt.into_machine().delay_stores, vec![0, 1, 2]);
}

#[test]
fn read_cfgtable_field_reads_at_cfgbase_times_32() {
    let mut f = Fake::new();
    f.regs.insert("Cfgbase".to_string(), 0x1000);
    f.cfg.insert(0x20000 + 0x48, 0xABCD);
    let mut rt = Runtime::new(f);
    assert_eq!(rt.read_cfgtable_field(0x48), 0xABCD);
    assert_eq!(rt.read_cfgtable_field(0x4C), 0);
}

#[test]
fn install_device_mapping_writes_uncached_global_entry() {
    let mut rt = fresh();
    rt.install_device_mapping(0xAB, 0xCD, 2);
    let m = rt.into_machine();
    assert_eq!(m.tlb[2], (make_tlb_hi(0xAB, 0, true), make_tlb_lo(0xCD, TLB_PERM_XWRU, false)));
    assert_eq!(m.tlb[2], (0xC000_AB01, 0xF401_9A10));
}

#[test]
fn tlb_invalidate_zeroes_entry() {
    let mut rt = fresh();
    rt.tlb_write(0x1234, 0x5678, 7);
    rt.tlb_invalidate(7);
    assert_eq!(rt.into_machine().tlb[7], (0, 0));
}

#[test]
fn l2vic_access_wraps_address() {
    let mut rt = fresh();
    rt.l2vic_write(0xFFFF_FF00, 0x200, 0x55);
    assert_eq!(rt.l2vic_read(0xFFFF_FF00, 0x200), 0x55);
    assert_eq!(rt.into_machine().mem.get(&0x100), Some(&0x55));
}

#[test]
fn require_threads_reports_missing_threads() {
    let mut f = Fake::new();
    f.cfg.insert(CFGTABLE_THREAD_ENABLE_MASK, 0x1);
    let mut rt = Runtime::new(f);
    assert!(!rt.require_threads(0x3));
    assert_eq!(rt.error_count(), 1);
    assert!(rt.require_threads(0x1));
    assert_eq!(rt.error_count(), 1);
    assert_eq!(output(rt), "FAIL: required thread mask 0x3 but hardware has 0x1\n");
}

#[test]
fn require_hvx_contexts_reports_absence_and_shortfall() {
    let mut rt = fresh();
    assert!(!rt.require_hvx_contexts(2));
    let mut f = rt.into_machine();
    assert_eq!(f.text(), "FAIL: HVX not present (COPROCESSOR_PRESENT=0x0)\n");
    f.out.clear();
    f.cfg.insert(CFGTABLE_COPROC_PRESENT, 1);
    f.cfg.insert(CFGTABLE_EXT_CONTEXTS, 1);
    let mut rt = Runtime::new(f);
    assert!(!rt.require_hvx_contexts(2));
    assert!(rt.require_hvx_contexts(1));
    // The counter lives in the machine: the first shortfall is still counted.
    assert_eq!(rt.error_count(), 2);
    assert_eq!(output(rt), "FAIL: need 2 HVX contexts but hardware has 1\n");
}

#[test]
fn wait_for_flag_polls_until_hit() {
    let mut f = Fake::new();
    f.shared_script.insert("ThreadFlag".to_string(), vec![0, 0, 1]);
    let mut rt = Runtime::new(f);
    assert!(rt.wait_for_flag(Shared::ThreadFlag, 1, 10));
    assert_eq!(rt.into_machine().delay_stores.len(), 20);
}

#[test]
fn wait_for_flag_gives_up_after_max_reads() {
    let mut rt = fresh();
    assert!(!rt.wait_for_flag(Shared::ThreadFlag, 1, 5));
    assert_eq!(rt.into_machine().delay_stores.len(), 50);
}

#[test]
fn wait_for_thread_stopped_checks_the_thread_bit() {
    let mut f = Fake::new();
    f.regs.insert("Modectl".to_string(), 0x3);
    let mut rt = Runtime::new(f);
    assert!(!rt.wait_for_thread_stopped(1, 4));
    assert!(rt.wait_for_thread_stopped(2, 4));
    assert_eq!(rt.into_machine().delay_stores.len(), 40);
}

#[test]
fn run_test_prints_verdicts() {
    let mut rt = fresh();
    assert!(rt.run_test("tlb_probe_miss", &TlbMmuTest::TlbProbeMiss).is_ok());
    assert!(rt.run_test("tlb_permissions", &TlbMmuTest::TlbPermissions).is_ok());
    let mut f = rt.into_machine();
    // A probe that hits makes the miss test fail once.
    f.tlb[3] = (make_tlb_hi(0x200, 0x7F, false), 1);
    f.out.clear();
    let mut rt = Runtime::new(f);
    assert!(rt.run_test("tlb_probe_miss", &TlbMmuTest::TlbProbeMiss).is_ok());
    assert_eq!(rt.error_count(), 1);
    assert_eq!(
        output(rt),
        "  tlb_probe_miss ... FAIL at src/suites/tlb_mmu.rs:test_tlb_probe_miss: condition 'result < 0' was false\n\
         FAILED (1 errors)\n"
    );
}

#[test]
fn run_test_ok_line() {
    let mut rt = fresh();
    assert!(rt.run_test("tlb_write_read", &TlbMmuTest::TlbWriteRead).is_ok());
    assert_eq!(output(rt), "  tlb_write_read ... ok\n");
}

#[test]
fn tlb_suite_summary_matches_returned_code() {
    let mut rt = fresh();
    let code = lib::suites::tlb_mmu::rust_main(&mut rt);
    let errors = rt.error_count();
    let text = output(rt);
    assert!(text.starts_with("=== Test Suite: TLB/MMU ===\n  tlb_write_read ... ok\n"));
    assert_eq!(code as u32, errors);
    if errors == 0 {
        assert!(text.ends_with("PASS\n"));
    } else {
        assert!(text.ends_with(&format!("FAIL ({} errors)\n", errors)));
    }
}

#[test]
fn l2vic_suite_without_l2vic_is_fatal() {
    let mut rt = fresh();
    let code = lib::suites::l2vic::rust_main(&mut rt);
    assert_eq!(code, 1);
    assert_eq!(
        output(rt),
        "=== Test Suite: L2VIC ===\nPANIC: panicked at src/suites/l2vic.rs:setup_l2vic:\n\
         FATAL: subsystem_base is 0 \u{2014} cannot discover L2VIC\n"
    );
}

#[test]
fn l2vic_probe_failure_is_fatal() {
    let mut f = Fake::new();
    f.cfg.insert(CFGTABLE_SUBSYSTEM_BASE, 0xAB00);
    // The fake's INT_ENABLE never reads back the bit that was set.
    let mut rt = Runtime::new(f);
    let code = lib::suites::l2vic::rust_main(&mut rt);
    assert_eq!(code, 1);
    let m = rt.into_machine();
    assert_eq!(m.tlb[2], (make_tlb_hi(0xAB0, 0, true), make_tlb_lo(0xAB0, TLB_PERM_XWRU, false)));
    assert_eq!(
        m.text(),
        "=== Test Suite: L2VIC ===\nPANIC: panicked at src/suites/l2vic.rs:l2vic_probe:\n\
         FATAL: L2VIC probe failed at 0xab010000: enable after SET=0x0, after CLR=0x0\n"
    );
}

#[test]
fn setup_l2vic_derives_base_from_subsystem_field() {
    let mut f = Fake::new();
    f.cfg.insert(CFGTABLE_SUBSYSTEM_BASE, 0x1234);
    let mut rt = Runtime::new(f);
    match lib::suites::l2vic::setup_l2vic(&mut rt) {
        Ok(b) => assert_eq!(b, 0x1235_0000),
        Err(_) => panic!("setup failed"),
    }
    let m = rt.into_machine();
    assert_eq!(m.shared.get("L2vicVa"), Some(&0x1235_0000));
    assert_eq!(m.tlb[2].0, make_tlb_hi(0x123, 0, true));
}

#[test]
fn l2vic_probe_rejects_stuck_enable() {
    let mut f = Fake::new();
    // INT_ENABLE at base 0x1000 + 0x100: reads 1 after the set, 0 after the clear.
    f.mem.insert(0x1100, 1);
    let mut rt = Runtime::new(f);
    assert!(matches!(lib::suites::l2vic::l2vic_probe(&mut rt, 0x1000), Err(Fatal::ProbeFailed { base: 0x1000, en_set: 1, en_clr: 1 })));
}

#[test]
fn threads_suite_stops_without_threads() {
    let mut rt = fresh();
    let code = lib::suites::isr_stress::rust_main(&mut rt);
    assert_eq!(code, 1);
    assert_eq!(
        output(rt),
        "=== Test Suite: Interrupt Stress (ISR) ===\nFAIL: required thread mask 0x3 but hardware has 0x0\nFAIL (1 errors)\n"
    );
}

#[test]
fn hvx_suite_stops_without_hvx() {
    let mut f = Fake::new();
    f.cfg.insert(CFGTABLE_THREAD_ENABLE_MASK, 0x3);
    let mut rt = Runtime::new(f);
    let code = lib::suites::hvx_context::rust_main(&mut rt);
    assert_eq!(code, 1);
    assert_eq!(
        output(rt),
        "=== Test Suite: HVX Context ===\nFAIL: HVX not present (COPROCESSOR_PRESENT=0x0)\nFAIL (1 errors)\n"
    );
}

#[test]
fn v0_readback_reports_first_odd_lane() {
    let mut f = Fake::new();
    let mut lanes = [7u32; 32];
    lanes[5] = 9;
    lanes[6] = 9;
    f.v0_lanes_override = Some(lanes);
    let mut rt = Runtime::new(f);
    assert_eq!(lib::suites::hvx_context::v0_readback(&mut rt, 1), 7);
    assert_eq!(rt.error_count(), 1);
    assert_eq!(output(rt), "FAIL: v0 lane 5 = 0x00000009 but lane 0 = 0x00000007\n");
}

#[test]
fn v0_contexts_are_separate_in_the_model() {
    let mut rt = fresh();
    lib::suites::hvx_context::v0_splat(&mut rt, 0, 0xAAAA_AAAA);
    lib::suites::hvx_context::v0_splat(&mut rt, 1, 0xBBBB_BBBB);
    assert_eq!(lib::suites::hvx_context::v0_readback(&mut rt, 0), 0xAAAA_AAAA);
    assert_eq!(lib::suites::hvx_context::v0_readback(&mut rt, 1), 0xBBBB_BBBB);
    assert_eq!(rt.error_count(), 0);
}

#[test]
fn hvx_buffer_check_reports_first_bad_word() {
    let mut rt = fresh();
    let mut words = [0xDEAD_BEEFu32; 32];
    words[31] = 0;
    let buf = lib::suites::hvx_context::HvxBuf { words };
    buf.check_all_words(&mut rt, 0xDEAD_BEEF);
    assert_eq!(output(rt), "FAIL: buf word[31] = 0x00000000, expected 0xdeadbeef\n");
}

#[test]
fn isr_handlers_count_and_write_data() {
    let mut rt = fresh();
    counting_handler(&mut rt, 3);
    counting_handler(&mut rt, 20);
    cascade_handler(&mut rt, 2);
    data_writer_handler(&mut rt, 4);
    data_writer_handler(&mut rt, 9);
    let m = rt.into_machine();
    assert_eq!(m.shared.get("IntCount(3)"), Some(&1));
    assert_eq!(m.shared.get("IntCount(20)"), None);
    assert_eq!(m.shared.get("IntCount(2)"), Some(&1));
    assert_eq!(m.swi, vec![8]);
    assert_eq!(m.shared.get("HandlerData(4)"), Some(&0xDEAD_0004));
    assert_eq!(m.shared.get("IntCount(9)"), Some(&1));
    assert_eq!(m.shared.get("HandlerData(9)"), None);
}

#[test]
fn busy_worker_leaves_last_index() {
    let mut rt = fresh();
    lib::suites::isr_stress::thread_busy_worker(&mut rt);
    let m = rt.into_machine();
    assert_eq!(m.shared.get("HandlerData(0)"), Some(&999));
    assert_eq!(m.shared.get("Thread1Done"), Some(&1));
    assert_eq!(m.delay_stores.len(), 5000);
}

#[test]
fn exit_poll_pauses_until_flag_set() {
    let mut f = Fake::new();
    f.shared_script.insert("T1Exit".to_string(), vec![0, 1]);
    let mut rt = Runtime::new(f);
    assert!(!exit_poll(&mut rt, Shared::T1Exit));
    assert!(exit_poll(&mut rt, Shared::T1Exit));
    assert_eq!(rt.into_machine().delay_stores.len(), 10);
}

#[test]
fn steering_thread1_start_honours_clear_ie() {
    let mut f = Fake::new();
    f.shared.insert("T1DesiredPrio".to_string(), 200);
    f.shared.insert("T1ClearIe".to_string(), 1);
    f.regs.insert("Stid".to_string(), 0x1200_0034);
    f.regs.insert("Imask".to_string(), 0xFF);
    let mut rt = Runtime::new(f);
    thread1_entry(&mut rt);
    let m = rt.into_machine();
    assert_eq!(m.regs.get("Stid"), Some(&0x12C8_0034));
    assert_eq!(m.regs.get("Imask"), Some(&0));
    assert_eq!(m.regs.get("Ssr"), None);
    assert_eq!(m.shared.get("T1Running"), Some(&1));
}

#[test]
fn steering_l2vic_handler_records_thread_and_clears_irq() {
    let mut f = Fake::new();
    f.regs.insert("Htid".to_string(), 2);
    f.regs.insert("Vid".to_string(), 0x0403);
    f.shared.insert("L2vicVa".to_string(), 0x1000);
    let mut rt = Runtime::new(f);
    l2vic_handler(&mut rt, 2);
    let m = rt.into_machine();
    assert_eq!(m.shared.get("HandlerHtid"), Some(&2));
    assert_eq!(m.shared.get("HandlerCount"), Some(&1));
    assert_eq!(m.mem.get(&0x1400), Some(&0x8));
}

#[test]
fn errors_of_another_thread_reach_the_shared_counter() {
    let mut f = Fake::new();
    let mut lanes = [0xBBBB_BBBBu32; 32];
    lanes[3] = 0;
    f.v0_lanes_override = Some(lanes);
    // Thread 1 runs on a runtime of its own over the shared machine.
    let mut thread = Runtime::new(f);
    thread1_hvx_context(&mut thread);
    let mut main = Runtime::new(thread.into_machine());
    assert_eq!(main.error_count(), 1);
    assert_eq!(main.test_suite_end(), 1);
}

#[test]
fn ssr_xa_readback_is_clean_on_a_plain_register() {
    let mut f = Fake::new();
    f.regs.insert("Ssr".to_string(), 0x4004_0000);
    let mut rt = Runtime::new(f);
    lib::suites::hvx_context::test_ssr_xa_readback(&mut rt);
    assert_eq!(rt.error_count(), 0);
    let m = rt.into_machine();
    assert_eq!(m.regs.get("Ssr"), Some(&0x4004_0000));
    assert_eq!(m.text(), "");
}

#[test]
fn record_error_returns_the_new_count() {
    let mut rt = fresh();
    rt.count_error();
    assert_eq!(rt.record_error(), 2);
    rt.reset_errors();
    assert_eq!(rt.error_count(), 0);
}

#[test]
fn zeroed_buffer_holds_zeros() {
    let b = lib::suites::hvx_context::HvxBuf::zeroed();
    assert_eq!(b.words, [0u32; 32]);
}

#[test]
fn checks_name_the_location_in_effect() {
    let mut rt = fresh();
    assert_eq!(rt.location(), None);
    rt.set_location(Some("src/suites/timer.rs:test_qtimer_read"));
    assert_eq!(rt.location(), Some("src/suites/timer.rs:test_qtimer_read"));
    rt.check32(1, 2);
    rt.check(false, "lo != 0 || hi != 0");
    rt.set_location(None);
    rt.check32_ne(4, 4);
    assert_eq!(
        output(rt),
        "FAIL at src/suites/timer.rs:test_qtimer_read: got 0x00000001, expected 0x00000002\n\
         FAIL at src/suites/timer.rs:test_qtimer_read: condition 'lo != 0 || hi != 0' was false\n\
         FAIL: got 0x00000004, expected != 0x00000004\n"
    );
}

#[test]
fn test_cases_and_fatal_conditions_know_their_location() {
    assert_eq!(TlbMmuTest::TlbProbeMiss.location(), "src/suites/tlb_mmu.rs:test_tlb_probe_miss");
    assert_eq!(TlbMmuTest::TlbWriteRead.location(), "src/suites/tlb_mmu.rs:test_tlb_write_read");
    assert_eq!(Fatal::SubsystemBaseZero.location(), "src/suites/l2vic.rs:setup_l2vic");
    assert_eq!(Fatal::ProbeFailed { base: 0, en_set: 0, en_clr: 0 }.location(), "src/suites/l2vic.rs:l2vic_probe");
    assert_eq!(Fatal::FastL2vicBaseZero.location(), "src/suites/l2vic.rs:test_l2vic_fast_interface");
}

#[test]
fn run_test_puts_the_outer_location_back() {
    let mut rt = fresh();
    assert!(rt.run_test("tlb_write_read", &TlbMmuTest::TlbWriteRead).is_ok());
    assert_eq!(rt.location(), None);
    rt.set_location(Some("outer"));
    assert!(rt.run_test("tlb_write_read", &TlbMmuTest::TlbWriteRead).is_ok());
    assert_eq!(rt.location(), Some("outer"));
}

#[test]
fn reset_then_failed_checks_reads_their_number() {
    let mut rt = fresh();
    rt.record_error();
    rt.record_error();
    rt.reset_errors();
    rt.check32(1, 2);
    rt.check32(3, 3);
    rt.check64(1, 2);
    rt.check32_range(0, 1, 2);
    rt.check(true, "ok");
    rt.check(false, "not ok");
    assert_eq!(rt.error_count(), 4);
}

#[test]
fn verdict_counts_only_the_tests_own_errors() {
    let mut f = Fake::new();
    f.tlb[3] = (make_tlb_hi(0x200, 0x7F, false), 1);
    let mut rt = Runtime::new(f);
    for _ in 0..5 {
        rt.record_error();
    }
    assert!(rt.run_test("tlb_probe_miss", &TlbMmuTest::TlbProbeMiss).is_ok());
    assert_eq!(rt.error_count(), 6);
    assert!(output(rt).ends_with("FAILED (1 errors)\n"));
}

#[test]
fn verdict_counts_across_counter_wrap() {
    let mut f = Fake::new();
    f.tlb[3] = (make_tlb_hi(0x200, 0x7F, false), 1);
    f.shared.insert("ErrCount".to_string(), u32::MAX);
    let mut rt = Runtime::new(f);
    assert!(rt.run_test("tlb_probe_miss", &TlbMmuTest::TlbProbeMiss).is_ok());
    assert_eq!(rt.error_count(), 0);
    assert!(output(rt).ends_with("FAILED (1 errors)\n"));
}
