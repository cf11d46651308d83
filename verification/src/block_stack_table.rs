//! The block stack table of the decoder: the multiplicands that the decoder's `p1` column
//! accumulates, which describe the rows removed from and added to the block stack table via
//! multiset checks.

use vstd::prelude::*;
use vstd::arithmetic::div_mod::*;
use crate::field::{fadd, felts, fmul, fsum, lemma_felt_lt_p, lemma_fsum_prefix, Felt, P};
use crate::interpolation::lemma_fsum_drop_zeros;

verus! {

broadcast use lemma_felt_lt_p;

// OPERATION CODES
// ================================================================================================

/// Opcode of the `SPLIT` control block operation.
pub const SPLIT: u8 = 0b0101_0100u8;
/// Opcode of the `LOOP` control block operation.
pub const LOOP: u8 = 0b0101_0101u8;
/// Opcode of the `SPAN` control block operation.
pub const SPAN: u8 = 0b0101_0110u8;
/// Opcode of the `JOIN` control block operation.
pub const JOIN: u8 = 0b0101_0111u8;
/// Opcode of the `DYN` control block operation.
pub const DYN: u8 = 0b0101_1000u8;
/// Opcode of the `SYSCALL` control block operation.
pub const SYSCALL: u8 = 0b0110_1000u8;
/// Opcode of the `CALL` control block operation.
pub const CALL: u8 = 0b0110_1100u8;
/// Opcode of the `END` control block operation.
pub const END: u8 = 0b0111_0000u8;
/// Opcode of the `RESPAN` control block operation.
pub const RESPAN: u8 = 0b0111_1000u8;

// MAIN TRACE
// ================================================================================================

/// The columns of one row of the main execution trace that the block stack table reads.
#[derive(Clone, Copy, Debug)]
pub struct TraceRow {
    /// The opcode of the operation executed at this row, as a field element.
    pub op_code: Felt,
    /// The decoder's block address column.
    pub addr: Felt,
    /// The decoder's hasher state columns.
    pub decoder_hasher_state: [Felt; 8],
    /// The decoder flag which is set for `LOOP` blocks.
    pub is_loop_flag: Felt,
    /// The decoder flag which is set for `CALL` blocks.
    pub is_call_flag: Felt,
    /// The decoder flag which is set for `SYSCALL` blocks.
    pub is_syscall_flag: Felt,
    /// The execution context.
    pub ctx: Felt,
    /// The free memory pointer.
    pub fmp: Felt,
    /// The stack depth.
    pub stack_depth: Felt,
    /// The address of the top row of the stack overflow table.
    pub parent_overflow_address: Felt,
    /// The hash of the function executing at this row.
    pub fn_hash: [Felt; 4],
    /// The top 16 elements of the stack.
    pub stack: [Felt; 16],
}

/// The main execution trace, row by row.
pub struct MainTrace {
    rows: Vec<TraceRow>,
}

impl View for MainTrace {
    type V = Seq<TraceRow>;

    closed spec fn view(&self) -> Seq<TraceRow> {
        self.rows@
    }
}

impl MainTrace {
    /// Creates a trace from its rows.
    pub fn new(rows: Vec<TraceRow>) -> (res: Self)
        ensures
            res@ == rows@,
    {
        MainTrace { rows }
    }

    /// Returns the number of rows.
    pub fn num_rows(&self) -> (res: usize)
        ensures
            res == self@.len(),
    {
        self.rows.len()
    }

    /// Returns the opcode executed at row `i`, truncated to a byte.
    pub fn op_code_at(&self, i: usize) -> (res: u8)
        requires
            i < self@.len(),
        ensures
            res == op_code_spec(self@, i as int),
    {
        let felt = self.rows[i].op_code;
        felt.as_int() as u8
    }
}

// SPECIFICATION
// ================================================================================================

/// The opcode executed at row `i`, truncated to a byte.
pub open spec fn op_code_spec(trace: Seq<TraceRow>, i: int) -> u8 {
    trace[i].op_code@ as u8
}

/// Whether the operation at row `i` removes a row from the block stack table.
pub open spec fn removes_row(op: u8) -> bool {
    op == RESPAN || op == END
}

/// Whether the operation at row `i` adds a row to the block stack table.
pub open spec fn adds_row(op: u8) -> bool {
    op == JOIN || op == SPLIT || op == SPAN || op == DYN || op == LOOP || op == RESPAN || op
        == CALL || op == SYSCALL
}

/// `Σ_k alphas[k] * elements[k]` over the indices that both sequences have.
pub open spec fn combine(alphas: Seq<nat>, elements: Seq<nat>) -> nat {
    fsum(
        Seq::new(
            if alphas.len() < elements.len() {
                alphas.len()
            } else {
                elements.len()
            },
            |k: int| fmul(alphas[k], elements[k]),
        ),
    )
}

/// The elements of the row that the operation at row `i` removes from the block stack table.
pub open spec fn removal_elements(trace: Seq<TraceRow>, i: int, is_respan: bool) -> Seq<nat> {
    let row = trace[i];
    let next = trace[i + 1];
    let block_id = row.addr@;
    let parent_id = if is_respan {
        next.decoder_hasher_state@[1]@
    } else {
        next.addr@
    };
    let is_loop = row.is_loop_flag@;
    if row.is_call_flag@ == 1 || row.is_syscall_flag@ == 1 {
        seq![
            1nat,
            block_id,
            parent_id,
            is_loop,
            next.ctx@,
            next.fmp@,
            next.stack_depth@,
            next.parent_overflow_address@,
            row.fn_hash@[0]@,
            row.fn_hash@[1]@,
            row.fn_hash@[2]@,
            row.fn_hash@[3]@,
        ]
    } else {
        seq![1nat, block_id, parent_id, is_loop, 0nat, 0nat, 0nat, 0nat, 0nat, 0nat, 0nat, 0nat]
    }
}

/// The elements of the row that the operation `op_code` at row `i` adds to the block stack
/// table.
pub open spec fn inclusion_elements(trace: Seq<TraceRow>, i: int, op_code: u8) -> Seq<nat> {
    let row = trace[i];
    let next = trace[i + 1];
    let block_id = next.addr@;
    let parent_id = if op_code == RESPAN {
        next.decoder_hasher_state@[1]@
    } else {
        row.addr@
    };
    let is_loop = if op_code == LOOP {
        row.stack@[0]@
    } else {
        0nat
    };
    if op_code == CALL || op_code == SYSCALL {
        seq![
            1nat,
            block_id,
            parent_id,
            is_loop,
            row.ctx@,
            row.fmp@,
            row.stack_depth@,
            row.parent_overflow_address@,
            row.decoder_hasher_state@[0]@,
            row.decoder_hasher_state@[1]@,
            row.decoder_hasher_state@[2]@,
            row.decoder_hasher_state@[3]@,
        ]
    } else {
        seq![1nat, block_id, parent_id, is_loop, 0nat, 0nat, 0nat, 0nat, 0nat, 0nat, 0nat, 0nat]
    }
}

/// The request (removal) multiplicand at row `i`.
pub open spec fn request_at(trace: Seq<TraceRow>, alphas: Seq<nat>, i: int) -> nat {
    let op = op_code_spec(trace, i);
    if op == RESPAN {
        combine(alphas, removal_elements(trace, i, true))
    } else if op == END {
        combine(alphas, removal_elements(trace, i, false))
    } else {
        1
    }
}

/// The response (inclusion) multiplicand at row `i`.
pub open spec fn response_at(trace: Seq<TraceRow>, alphas: Seq<nat>, i: int) -> nat {
    let op = op_code_spec(trace, i);
    if adds_row(op) {
        combine(alphas, inclusion_elements(trace, i, op))
    } else {
        1
    }
}

// BLOCK STACK TABLE COLUMN BUILDER
// ================================================================================================

/// Builds the execution trace of the decoder's `p1` column which describes the state of the block
/// stack table via multiset checks.
#[derive(Default)]
pub struct BlockStackColumnBuilder {}

impl BlockStackColumnBuilder {
    /// Removes a row from the block stack table.
    pub fn get_requests_at(&self, main_trace: &MainTrace, alphas: &[Felt], i: usize) -> (res: Felt)
        requires
            i < main_trace@.len(),
            removes_row(op_code_spec(main_trace@, i as int)) ==> i + 1 < main_trace@.len(),
        ensures
            res@ == request_at(main_trace@, felts(alphas@), i as int),
    {
        let op_code = main_trace.op_code_at(i);
        if op_code == RESPAN {
            get_block_stack_table_removal_multiplicand(main_trace, i, true, alphas)
        } else if op_code == END {
            get_block_stack_table_removal_multiplicand(main_trace, i, false, alphas)
        } else {
            Felt::one()
        }
    }

    /// Adds a row to the block stack table.
    pub fn get_responses_at(&self, main_trace: &MainTrace, alphas: &[Felt], i: usize) -> (res: Felt)
        requires
            i < main_trace@.len(),
            adds_row(op_code_spec(main_trace@, i as int)) ==> i + 1 < main_trace@.len(),
        ensures
            res@ == response_at(main_trace@, felts(alphas@), i as int),
    {
        let op_code = main_trace.op_code_at(i);
        if op_code == JOIN || op_code == SPLIT || op_code == SPAN || op_code == DYN || op_code == LOOP
            || op_code == RESPAN || op_code == CALL || op_code == SYSCALL {
            get_block_stack_table_inclusion_multiplicand(main_trace, i, alphas, op_code)
        } else {
            Felt::one()
        }
    }
}

// HELPER FUNCTIONS
// ================================================================================================

/// Computes `Σ_k alphas[k] * elements[k]` over the indices that both have.
fn combine_elements(alphas: &[Felt], elements: &Vec<Felt>) -> (res: Felt)
    ensures
        res@ == combine(felts(alphas@), felts(elements@)),
{
    let ghost a = felts(alphas@);
    let ghost e = felts(elements@);
    let n = if alphas.len() < elements.len() {
        alphas.len()
    } else {
        elements.len()
    };
    let ghost terms = Seq::new(n as nat, |k: int| fmul(a[k], e[k]));
    let mut value = Felt::zero();
    let mut k: usize = 0;
    proof {
        assert(terms.take(0).len() == 0);
    }
    while k < n
        invariant
            n <= alphas@.len(),
            n <= elements@.len(),
            a == felts(alphas@),
            e == felts(elements@),
            terms == Seq::new(n as nat, |k: int| fmul(a[k], e[k])),
            k <= n,
            value@ == fsum(terms.take(k as int)),
        decreases n - k,
    {
        proof {
            lemma_fsum_prefix(terms, k as int);
        }
        value = value.add(alphas[k].mul(elements[k]));
        k = k + 1;
    }
    proof {
        assert(terms.take(n as int) =~= terms);
    }
    value
}

/// The elements `[1, block_id, parent_id, is_loop, 0, ..., 0]` of a row of the block stack
/// table for a block which is not a `CALL` or `SYSCALL` block.
fn basic_elements(block_id: Felt, parent_id: Felt, is_loop: Felt) -> (res: Vec<Felt>)
    ensures
        felts(res@) == seq![
            1nat,
            block_id@,
            parent_id@,
            is_loop@,
            0nat,
            0nat,
            0nat,
            0nat,
            0nat,
            0nat,
            0nat,
            0nat,
        ],
{
    let zero = Felt::zero();
    let mut result: Vec<Felt> = vec![zero, zero, zero, zero, zero, zero, zero, zero, zero, zero, zero, zero];
    result.set(0, Felt::one());
    result.set(1, block_id);
    result.set(2, parent_id);
    result.set(3, is_loop);
    proof {
        assert(felts(result@) =~= seq![
            1nat,
            block_id@,
            parent_id@,
            is_loop@,
            0nat,
            0nat,
            0nat,
            0nat,
            0nat,
            0nat,
            0nat,
            0nat,
        ]);
    }
    result
}

/// Computes the multiplicand representing the removal of a row from the block stack table.
fn get_block_stack_table_removal_multiplicand(
    main_trace: &MainTrace,
    i: usize,
    is_respan: bool,
    alphas: &[Felt],
) -> (res: Felt)
    requires
        i + 1 < main_trace@.len(),
    ensures
        res@ == combine(felts(alphas@), removal_elements(main_trace@, i as int, is_respan)),
{
    let num_rows = main_trace.rows.len();
    proof {
        assert(i + 1 < num_rows);
    }
    let row = &main_trace.rows[i];
    let next = &main_trace.rows[i + 1];
    let block_id = row.addr;
    let parent_id = if is_respan {
        next.decoder_hasher_state[1]
    } else {
        next.addr
    };
    let is_loop = row.is_loop_flag;
    let one = Felt::one();

    let elements = if row.is_call_flag == one || row.is_syscall_flag == one {
        let parent_ctx = next.ctx;
        let parent_fmp = next.fmp;
        let parent_stack_depth = next.stack_depth;
        let parent_next_overflow_addr = next.parent_overflow_address;
        let parent_fn_hash = row.fn_hash;

        let result = vec![
            one,
            block_id,
            parent_id,
            is_loop,
            parent_ctx,
            parent_fmp,
            parent_stack_depth,
            parent_next_overflow_addr,
            parent_fn_hash[0],
            parent_fn_hash[1],
            parent_fn_hash[2],
            parent_fn_hash[3],
        ];
        proof {
            assert(felts(result@) =~= removal_elements(main_trace@, i as int, is_respan));
        }
        result
    } else {
        let result = basic_elements(block_id, parent_id, is_loop);
        proof {
            assert(felts(result@) =~= removal_elements(main_trace@, i as int, is_respan));
        }
        result
    };

    combine_elements(alphas, &elements)
}

/// Computes the multiplicand representing the inclusion of a new row to the block stack table.
fn get_block_stack_table_inclusion_multiplicand(
    main_trace: &MainTrace,
    i: usize,
    alphas: &[Felt],
    op_code: u8,
) -> (res: Felt)
    requires
        i + 1 < main_trace@.len(),
    ensures
        res@ == combine(felts(alphas@), inclusion_elements(main_trace@, i as int, op_code)),
{
    let num_rows = main_trace.rows.len();
    proof {
        assert(i + 1 < num_rows);
    }
    let row = &main_trace.rows[i];
    let next = &main_trace.rows[i + 1];
    let block_id = next.addr;
    let parent_id = if op_code == RESPAN {
        next.decoder_hasher_state[1]
    } else {
        row.addr
    };
    let is_loop = if op_code == LOOP {
        row.stack[0]
    } else {
        Felt::zero()
    };
    let elements = if op_code == CALL || op_code == SYSCALL {
        let parent_ctx = row.ctx;
        let parent_fmp = row.fmp;
        let parent_stack_depth = row.stack_depth;
        let parent_next_overflow_addr = row.parent_overflow_address;
        let parent_fn_hash = row.decoder_hasher_state;
        let result = vec![
            Felt::one(),
            block_id,
            parent_id,
            is_loop,
            parent_ctx,
            parent_fmp,
            parent_stack_depth,
            parent_next_overflow_addr,
            parent_fn_hash[0],
            parent_fn_hash[1],
            parent_fn_hash[2],
            parent_fn_hash[3],
        ];
        proof {
            assert(felts(result@) =~= inclusion_elements(main_trace@, i as int, op_code));
        }
        result
    } else {
        let result = basic_elements(block_id, parent_id, is_loop);
        proof {
            assert(felts(result@) =~= inclusion_elements(main_trace@, i as int, op_code));
        }
        result
    };

    combine_elements(alphas, &elements)
}

// LAWS
// ================================================================================================

/// The block stack table balances: the `END` at row `i` that closes the block opened at row
/// `j` by `op` removes exactly the row that `op` added, whatever the randomness. The block
/// ends at the address it began at, returns to its parent's address, keeps its loop flag,
/// and a `CALL` or `SYSCALL` block restores the caller's context, free memory pointer, stack
/// depth, overflow address and function hash.
pub proof fn lemma_end_removes_the_row_its_block_added(
    trace: Seq<TraceRow>,
    alphas: Seq<nat>,
    i: int,
    j: int,
    op: u8,
)
    requires
        0 <= i,
        i + 1 < trace.len(),
        0 <= j,
        j + 1 < trace.len(),
        op_code_spec(trace, i) == END,
        op_code_spec(trace, j) == op,
        op == JOIN || op == SPLIT || op == SPAN || op == DYN || op == LOOP || op == CALL || op
            == SYSCALL,
        trace[i].addr@ == trace[j + 1].addr@,
        trace[i + 1].addr@ == trace[j].addr@,
        trace[i].is_loop_flag@ == (if op == LOOP {
            trace[j].stack@[0]@
        } else {
            0nat
        }),
        (trace[i].is_call_flag@ == 1 || trace[i].is_syscall_flag@ == 1) <==> (op == CALL || op
            == SYSCALL),
        op == CALL || op == SYSCALL ==> {
            &&& trace[i + 1].ctx@ == trace[j].ctx@
            &&& trace[i + 1].fmp@ == trace[j].fmp@
            &&& trace[i + 1].stack_depth@ == trace[j].stack_depth@
            &&& trace[i + 1].parent_overflow_address@ == trace[j].parent_overflow_address@
            &&& forall|k: int| 0 <= k < 4 ==> #[trigger] trace[i].fn_hash@[k]@
                == trace[j].decoder_hasher_state@[k]@
        },
    ensures
        removal_elements(trace, i, false) == inclusion_elements(trace, j, op),
        request_at(trace, alphas, i) == response_at(trace, alphas, j),
{
    if op == CALL || op == SYSCALL {
        assert(trace[i].fn_hash@[0]@ == trace[j].decoder_hasher_state@[0]@);
        assert(trace[i].fn_hash@[1]@ == trace[j].decoder_hasher_state@[1]@);
        assert(trace[i].fn_hash@[2]@ == trace[j].decoder_hasher_state@[2]@);
        assert(trace[i].fn_hash@[3]@ == trace[j].decoder_hasher_state@[3]@);
    }
    assert(removal_elements(trace, i, false) =~= inclusion_elements(trace, j, op));
}

/// The row that a `CALL` or `SYSCALL` at row `j` adds, element by element: one, the new
/// block's address, the caller's address, a zero loop flag, then the caller's context, free
/// memory pointer, stack depth and overflow address, and the callee's hash from the first four
/// elements of the hasher state.
pub proof fn lemma_call_response_layout(trace: Seq<TraceRow>, alphas: Seq<nat>, j: int)
    requires
        0 <= j,
        j + 1 < trace.len(),
        op_code_spec(trace, j) == CALL || op_code_spec(trace, j) == SYSCALL,
    ensures
        response_at(trace, alphas, j) == combine(
            alphas,
            seq![
                1nat,
                trace[j + 1].addr@,
                trace[j].addr@,
                0nat,
                trace[j].ctx@,
                trace[j].fmp@,
                trace[j].stack_depth@,
                trace[j].parent_overflow_address@,
                trace[j].decoder_hasher_state@[0]@,
                trace[j].decoder_hasher_state@[1]@,
                trace[j].decoder_hasher_state@[2]@,
                trace[j].decoder_hasher_state@[3]@,
            ],
        ),
{
    let op = op_code_spec(trace, j);
    let row = seq![
        1nat,
        trace[j + 1].addr@,
        trace[j].addr@,
        0nat,
        trace[j].ctx@,
        trace[j].fmp@,
        trace[j].stack_depth@,
        trace[j].parent_overflow_address@,
        trace[j].decoder_hasher_state@[0]@,
        trace[j].decoder_hasher_state@[1]@,
        trace[j].decoder_hasher_state@[2]@,
        trace[j].decoder_hasher_state@[3]@,
    ];
    assert(inclusion_elements(trace, j, op) =~= row);
}

/// The row that `JOIN`, `SPLIT`, `SPAN`, `DYN` or `LOOP` at row `j` adds: one, the new block's
/// address, the parent's address, the loop flag (the top of the stack for `LOOP`, else zero),
/// and zeros in place of the call context.
pub proof fn lemma_block_response_layout(trace: Seq<TraceRow>, alphas: Seq<nat>, j: int)
    requires
        0 <= j,
        j + 1 < trace.len(),
        op_code_spec(trace, j) == JOIN || op_code_spec(trace, j) == SPLIT || op_code_spec(trace, j)
            == SPAN || op_code_spec(trace, j) == DYN || op_code_spec(trace, j) == LOOP,
    ensures
        response_at(trace, alphas, j) == combine(
            alphas,
            seq![
                1nat,
                trace[j + 1].addr@,
                trace[j].addr@,
                if op_code_spec(trace, j) == LOOP {
                    trace[j].stack@[0]@
                } else {
                    0nat
                },
                0nat,
                0nat,
                0nat,
                0nat,
                0nat,
                0nat,
                0nat,
                0nat,
            ],
        ),
{
    let op = op_code_spec(trace, j);
    let row = seq![
        1nat,
        trace[j + 1].addr@,
        trace[j].addr@,
        if op == LOOP {
            trace[j].stack@[0]@
        } else {
            0nat
        },
        0nat,
        0nat,
        0nat,
        0nat,
        0nat,
        0nat,
        0nat,
        0nat,
    ];
    assert(inclusion_elements(trace, j, op) =~= row);
}

/// The row that `RESPAN` at row `j` adds: one, the new batch's address, the parent's address
/// (the second element of the next row's hasher state), then zeros.
pub proof fn lemma_respan_response_layout(trace: Seq<TraceRow>, alphas: Seq<nat>, j: int)
    requires
        0 <= j,
        j + 1 < trace.len(),
        op_code_spec(trace, j) == RESPAN,
    ensures
        response_at(trace, alphas, j) == combine(
            alphas,
            seq![
                1nat,
                trace[j + 1].addr@,
                trace[j + 1].decoder_hasher_state@[1]@,
                0nat,
                0nat,
                0nat,
                0nat,
                0nat,
                0nat,
                0nat,
                0nat,
                0nat,
            ],
        ),
{
    let row = seq![
        1nat,
        trace[j + 1].addr@,
        trace[j + 1].decoder_hasher_state@[1]@,
        0nat,
        0nat,
        0nat,
        0nat,
        0nat,
        0nat,
        0nat,
        0nat,
        0nat,
    ];
    assert(inclusion_elements(trace, j, RESPAN) =~= row);
}

/// The row that an `END` at row `i` removes: one, the block's address, the parent's address
/// (that of the next row), the loop flag, then for a `CALL` or `SYSCALL` block the context,
/// free memory pointer, stack depth and overflow address restored in the next row and the
/// block's function hash, and zeros for any other block.
pub proof fn lemma_end_request_layout(trace: Seq<TraceRow>, alphas: Seq<nat>, i: int)
    requires
        0 <= i,
        i + 1 < trace.len(),
        op_code_spec(trace, i) == END,
    ensures
        trace[i].is_call_flag@ == 1 || trace[i].is_syscall_flag@ == 1 ==> request_at(
            trace,
            alphas,
            i,
        ) == combine(
            alphas,
            seq![
                1nat,
                trace[i].addr@,
                trace[i + 1].addr@,
                trace[i].is_loop_flag@,
                trace[i + 1].ctx@,
                trace[i + 1].fmp@,
                trace[i + 1].stack_depth@,
                trace[i + 1].parent_overflow_address@,
                trace[i].fn_hash@[0]@,
                trace[i].fn_hash@[1]@,
                trace[i].fn_hash@[2]@,
                trace[i].fn_hash@[3]@,
            ],
        ),
        !(trace[i].is_call_flag@ == 1 || trace[i].is_syscall_flag@ == 1) ==> request_at(
            trace,
            alphas,
            i,
        ) == combine(
            alphas,
            seq![
                1nat,
                trace[i].addr@,
                trace[i + 1].addr@,
                trace[i].is_loop_flag@,
                0nat,
                0nat,
                0nat,
                0nat,
                0nat,
                0nat,
                0nat,
                0nat,
            ],
        ),
{
    let call_row = seq![
        1nat,
        trace[i].addr@,
        trace[i + 1].addr@,
        trace[i].is_loop_flag@,
        trace[i + 1].ctx@,
        trace[i + 1].fmp@,
        trace[i + 1].stack_depth@,
        trace[i + 1].parent_overflow_address@,
        trace[i].fn_hash@[0]@,
        trace[i].fn_hash@[1]@,
        trace[i].fn_hash@[2]@,
        trace[i].fn_hash@[3]@,
    ];
    let plain_row = seq![
        1nat,
        trace[i].addr@,
        trace[i + 1].addr@,
        trace[i].is_loop_flag@,
        0nat,
        0nat,
        0nat,
        0nat,
        0nat,
        0nat,
        0nat,
        0nat,
    ];
    if trace[i].is_call_flag@ == 1 || trace[i].is_syscall_flag@ == 1 {
        assert(removal_elements(trace, i, false) =~= call_row);
    } else {
        assert(removal_elements(trace, i, false) =~= plain_row);
    }
}

/// The row that `RESPAN` at row `i` removes from a batch of a block that is not a `CALL` or
/// `SYSCALL`: one, the batch's address, the parent's address (the second element of the next
/// row's hasher state), the loop flag, then zeros.
pub proof fn lemma_respan_request_layout(trace: Seq<TraceRow>, alphas: Seq<nat>, i: int)
    requires
        0 <= i,
        i + 1 < trace.len(),
        op_code_spec(trace, i) == RESPAN,
        !(trace[i].is_call_flag@ == 1 || trace[i].is_syscall_flag@ == 1),
    ensures
        request_at(trace, alphas, i) == combine(
            alphas,
            seq![
                1nat,
                trace[i].addr@,
                trace[i + 1].decoder_hasher_state@[1]@,
                trace[i].is_loop_flag@,
                0nat,
                0nat,
                0nat,
                0nat,
                0nat,
                0nat,
                0nat,
                0nat,
            ],
        ),
{
    let row = seq![
        1nat,
        trace[i].addr@,
        trace[i + 1].decoder_hasher_state@[1]@,
        trace[i].is_loop_flag@,
        0nat,
        0nat,
        0nat,
        0nat,
        0nat,
        0nat,
        0nat,
        0nat,
    ];
    assert(removal_elements(trace, i, true) =~= row);
}

/// The block stack table balances across a `RESPAN`: the `RESPAN` at row `i` that continues
/// the batch opened at row `j` by `SPAN` or an earlier `RESPAN` removes exactly the row that
/// opener added, whatever the randomness, when the batch keeps its address and parent and is
/// neither a loop nor a call.
pub proof fn lemma_respan_removes_the_row_its_batch_added(
    trace: Seq<TraceRow>,
    alphas: Seq<nat>,
    i: int,
    j: int,
    op: u8,
)
    requires
        0 <= i,
        i + 1 < trace.len(),
        0 <= j,
        j + 1 < trace.len(),
        op_code_spec(trace, i) == RESPAN,
        op_code_spec(trace, j) == op,
        op == SPAN || op == RESPAN,
        trace[i].addr@ == trace[j + 1].addr@,
        trace[i + 1].decoder_hasher_state@[1]@ == (if op == SPAN {
            trace[j].addr@
        } else {
            trace[j + 1].decoder_hasher_state@[1]@
        }),
        trace[i].is_loop_flag@ == 0,
        !(trace[i].is_call_flag@ == 1 || trace[i].is_syscall_flag@ == 1),
    ensures
        removal_elements(trace, i, true) == inclusion_elements(trace, j, op),
        request_at(trace, alphas, i) == response_at(trace, alphas, j),
{
    assert(removal_elements(trace, i, true) =~= inclusion_elements(trace, j, op));
}

/// A row whose elements past the loop flag are zero weighs
/// `alpha0 + alpha1 * block_id + alpha2 * parent_id + alpha3 * is_loop`, for at least four
/// random values.
pub proof fn lemma_combine_block_row(alphas: Seq<nat>, block_id: nat, parent_id: nat, is_loop: nat)
    requires
        alphas.len() >= 4,
        alphas[0] < P,
    ensures
        combine(
            alphas,
            seq![
                1nat,
                block_id,
                parent_id,
                is_loop,
                0nat,
                0nat,
                0nat,
                0nat,
                0nat,
                0nat,
                0nat,
                0nat,
            ],
        ) == fadd(
            fadd(fadd(alphas[0], fmul(alphas[1], block_id)), fmul(alphas[2], parent_id)),
            fmul(alphas[3], is_loop),
        ),
{
    let e = seq![
        1nat,
        block_id,
        parent_id,
        is_loop,
        0nat,
        0nat,
        0nat,
        0nat,
        0nat,
        0nat,
        0nat,
        0nat,
    ];
    let n = if alphas.len() < 12 {
        alphas.len()
    } else {
        12
    };
    let terms = Seq::new(n, |k: int| fmul(alphas[k], e[k]));
    assert forall|j: int| 4 <= j < n implies terms[j] == 0 by {
        assert(alphas[j] * 0 == 0) by (nonlinear_arith);
        lemma_small_mod(0, P as nat);
    }
    lemma_fsum_drop_zeros(terms, 4);
    let t4 = terms.take(4);
    assert(t4.take(0).len() == 0);
    assert(fsum(t4.take(0)) == 0);
    lemma_fsum_prefix(t4, 0);
    lemma_fsum_prefix(t4, 1);
    lemma_fsum_prefix(t4, 2);
    lemma_fsum_prefix(t4, 3);
    assert(t4.take(4) =~= t4);
    lemma_small_mod(alphas[0], P as nat);
    assert(fmul(alphas[0], 1) == alphas[0]);
}

/// At a `RESPAN` of a block that is not a `CALL` or `SYSCALL`, the request is
/// `alpha0 + alpha1 * addr(i) + alpha2 * h1(i + 1) + alpha3 * is_loop(i)`: no context enters.
pub proof fn lemma_respan_request_value(trace: Seq<TraceRow>, alphas: Seq<nat>, i: int)
    requires
        0 <= i,
        i + 1 < trace.len(),
        op_code_spec(trace, i) == RESPAN,
        !(trace[i].is_call_flag@ == 1 || trace[i].is_syscall_flag@ == 1),
        alphas.len() >= 4,
        alphas[0] < P,
    ensures
        request_at(trace, alphas, i) == fadd(
            fadd(
                fadd(alphas[0], fmul(alphas[1], trace[i].addr@)),
                fmul(alphas[2], trace[i + 1].decoder_hasher_state@[1]@),
            ),
            fmul(alphas[3], trace[i].is_loop_flag@),
        ),
{
    lemma_respan_request_layout(trace, alphas, i);
    lemma_combine_block_row(
        alphas,
        trace[i].addr@,
        trace[i + 1].decoder_hasher_state@[1]@,
        trace[i].is_loop_flag@,
    );
}

/// The row that `RESPAN` at row `i` removes when the call or syscall flag is set: one, the
/// batch's address, the parent's address (the second element of the next row's hasher
/// state), the loop flag, the context, free memory pointer, stack depth and overflow address
/// of the next row, and the function hash of row `i`.
pub proof fn lemma_respan_request_layout_with_context(trace: Seq<TraceRow>, alphas: Seq<nat>, i: int)
    requires
        0 <= i,
        i + 1 < trace.len(),
        op_code_spec(trace, i) == RESPAN,
        trace[i].is_call_flag@ == 1 || trace[i].is_syscall_flag@ == 1,
    ensures
        request_at(trace, alphas, i) == combine(
            alphas,
            seq![
                1nat,
                trace[i].addr@,
                trace[i + 1].decoder_hasher_state@[1]@,
                trace[i].is_loop_flag@,
                trace[i + 1].ctx@,
                trace[i + 1].fmp@,
                trace[i + 1].stack_depth@,
                trace[i + 1].parent_overflow_address@,
                trace[i].fn_hash@[0]@,
                trace[i].fn_hash@[1]@,
                trace[i].fn_hash@[2]@,
                trace[i].fn_hash@[3]@,
            ],
        ),
{
    let row = seq![
        1nat,
        trace[i].addr@,
        trace[i + 1].decoder_hasher_state@[1]@,
        trace[i].is_loop_flag@,
        trace[i + 1].ctx@,
        trace[i + 1].fmp@,
        trace[i + 1].stack_depth@,
        trace[i + 1].parent_overflow_address@,
        trace[i].fn_hash@[0]@,
        trace[i].fn_hash@[1]@,
        trace[i].fn_hash@[2]@,
        trace[i].fn_hash@[3]@,
    ];
    assert(removal_elements(trace, i, true) =~= row);
}

} // verus!
