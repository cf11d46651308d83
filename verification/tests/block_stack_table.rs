use miden_vm::block_stack_table::{
    BlockStackColumnBuilder, MainTrace, TraceRow, CALL, END, JOIN, LOOP, RESPAN, SPAN, SYSCALL,
};
use miden_vm::field::Felt;

fn f(v: u64) -> Felt {
    Felt::new(v)
}

fn row(op: u8, addr: u64) -> TraceRow {
    TraceRow {
        op_code: f(op as u64),
        addr: f(addr),
        decoder_hasher_state: [f(100), f(101), f(102), f(103), f(104), f(105), f(106), f(107)],
        is_loop_flag: f(1),
        is_call_flag: f(0),
        is_syscall_flag: f(0),
        ctx: f(11),
        fmp: f(12),
        stack_depth: f(13),
        parent_overflow_address: f(14),
        fn_hash: [f(21), f(22), f(23), f(24)],
        stack: [
            f(31), f(32), f(33), f(34), f(35), f(36), f(37), f(38), f(39), f(40), f(41), f(42),
            f(43), f(44), f(45), f(46),
        ],
    }
}

fn powers_of_ten(n: usize) -> Vec<Felt> {
    (0..n).map(|k| f(10u64.pow(k as u32))).collect()
}

fn ones(n: usize) -> Vec<Felt> {
    vec![f(1); n]
}

#[test]
fn end_removes_a_plain_block() {
    let mut next = row(0, 9);
    next.ctx = f(77);
    let trace = MainTrace::new(vec![row(END, 5), next]);
    let builder = BlockStackColumnBuilder::default();
    // 1 + 10 * 5 + 100 * 9 + 1000 * 1
    assert_eq!(builder.get_requests_at(&trace, &powers_of_ten(12), 0), f(1951));
}

#[test]
fn respan_removes_with_the_parent_from_the_hasher_state() {
    let trace = MainTrace::new(vec![row(RESPAN, 5), row(0, 9)]);
    let builder = BlockStackColumnBuilder::default();
    // 1 + 10 * 5 + 100 * 101 + 1000 * 1
    assert_eq!(builder.get_requests_at(&trace, &powers_of_ten(4), 0), f(11151));
}

#[test]
fn end_of_a_call_removes_the_parent_context() {
    let mut current = row(END, 5);
    current.is_call_flag = f(1);
    let mut next = row(0, 9);
    next.ctx = f(50);
    next.fmp = f(60);
    next.stack_depth = f(70);
    next.parent_overflow_address = f(80);
    let trace = MainTrace::new(vec![current, next]);
    let builder = BlockStackColumnBuilder::default();
    // 1 + 5 + 9 + 1 + 50 + 60 + 70 + 80 + 21 + 22 + 23 + 24
    assert_eq!(builder.get_requests_at(&trace, &ones(12), 0), f(366));
    // an extra alpha is ignored
    assert_eq!(builder.get_requests_at(&trace, &ones(13), 0), f(366));
    // fewer alphas use fewer elements: 1 + 5
    assert_eq!(builder.get_requests_at(&trace, &ones(2), 0), f(6));
}

#[test]
fn end_of_a_syscall_removes_the_parent_context() {
    let mut current = row(END, 5);
    current.is_syscall_flag = f(1);
    let trace = MainTrace::new(vec![current, row(0, 9)]);
    let builder = BlockStackColumnBuilder::default();
    // 1 + 5 + 9 + 1 + 11 + 12 + 13 + 14 + 21 + 22 + 23 + 24
    assert_eq!(builder.get_requests_at(&trace, &ones(12), 0), f(156));
}

#[test]
fn other_operations_request_nothing() {
    let trace = MainTrace::new(vec![row(JOIN, 5)]);
    let builder = BlockStackColumnBuilder::default();
    assert_eq!(builder.get_requests_at(&trace, &ones(12), 0), f(1));
    let trace = MainTrace::new(vec![row(END, 5)]);
    assert_eq!(builder.get_responses_at(&trace, &ones(12), 0), f(1));
}

#[test]
fn join_adds_a_plain_block() {
    let trace = MainTrace::new(vec![row(JOIN, 5), row(0, 9)]);
    let builder = BlockStackColumnBuilder::default();
    // 1 + 10 * 9 + 100 * 5 + 1000 * 0
    assert_eq!(builder.get_responses_at(&trace, &powers_of_ten(12), 0), f(591));
    let trace = MainTrace::new(vec![row(SPAN, 5), row(0, 9)]);
    assert_eq!(builder.get_responses_at(&trace, &powers_of_ten(12), 0), f(591));
}

#[test]
fn loop_adds_a_block_flagged_by_the_stack_top() {
    let trace = MainTrace::new(vec![row(LOOP, 5), row(0, 9)]);
    let builder = BlockStackColumnBuilder::default();
    // 1 + 10 * 9 + 100 * 5 + 1000 * 31
    assert_eq!(builder.get_responses_at(&trace, &powers_of_ten(12), 0), f(31591));
}

#[test]
fn respan_adds_with_the_parent_from_the_hasher_state() {
    let trace = MainTrace::new(vec![row(RESPAN, 5), row(0, 9)]);
    let builder = BlockStackColumnBuilder::default();
    // 1 + 10 * 9 + 100 * 101
    assert_eq!(builder.get_responses_at(&trace, &powers_of_ten(12), 0), f(10191));
}

#[test]
fn call_adds_the_caller_context() {
    let trace = MainTrace::new(vec![row(CALL, 5), row(0, 9)]);
    let builder = BlockStackColumnBuilder::default();
    // 1 + 9 + 5 + 0 + 11 + 12 + 13 + 14 + 100 + 101 + 102 + 103
    assert_eq!(builder.get_responses_at(&trace, &ones(12), 0), f(471));
    let trace = MainTrace::new(vec![row(SYSCALL, 5), row(0, 9)]);
    assert_eq!(builder.get_responses_at(&trace, &ones(12), 0), f(471));
}

#[test]
fn trace_reports_rows_and_opcodes() {
    let mut wide = row(0, 1);
    wide.op_code = f(0x1ff);
    let trace = MainTrace::new(vec![row(CALL, 5), row(0, 9), wide]);
    assert_eq!(trace.num_rows(), 3);
    assert_eq!(trace.op_code_at(0), CALL);
    // the opcode is truncated to a byte
    assert_eq!(trace.op_code_at(2), 0xff);
}

#[test]
fn end_of_a_call_removes_the_row_the_call_added() {
    // row 0: CALL from block 5 into block 9; row 1: inside the call; row 2: END of block 9,
    // back in block 5 with the caller's context restored
    let mut call = row(CALL, 5);
    call.ctx = f(50);
    call.fmp = f(60);
    call.stack_depth = f(70);
    call.parent_overflow_address = f(80);
    let body = row(0, 9);
    let mut end = row(END, 9);
    end.is_loop_flag = f(0);
    end.is_call_flag = f(1);
    end.fn_hash = [f(100), f(101), f(102), f(103)];
    let mut after = row(0, 5);
    after.ctx = f(50);
    after.fmp = f(60);
    after.stack_depth = f(70);
    after.parent_overflow_address = f(80);
    let trace = MainTrace::new(vec![call, body, end, after]);
    let builder = BlockStackColumnBuilder::default();
    let alphas = powers_of_ten(12).iter().map(|a| a.add(f(7))).collect::<Vec<_>>();
    assert_eq!(builder.get_requests_at(&trace, &alphas, 2), builder.get_responses_at(&trace, &alphas, 0));
}
