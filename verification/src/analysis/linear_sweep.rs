//! The linear sweep over the target bank. It walks the bank from its start,
//! decides every still-unknown byte on the way, and emits one statement per
//! instruction or data byte. A label is placed on the first statement, on
//! every code/data boundary, and after every terminal flow instruction.

use vstd::prelude::*;

use crate::address::Address;
use crate::assembly::{Label, Labels, Statement};
use crate::input::Input;
use crate::memory::FetchOpError;
use crate::op::Op;

use super::{Analysis, AnalysisKind};

verus! {

/// Whether the statement after `stmt_pre` gets a label: on every code/data
/// boundary, and after rti, rts and both jmp forms.
pub open spec fn spec_needs_label(stmt_pre: Statement, stmt: Statement) -> bool {
    ||| (stmt_pre matches Statement::Op(_) || stmt_pre matches Statement::IncompleteOp(_))
        && stmt matches Statement::Byte(_)
    ||| stmt_pre matches Statement::Byte(_) && (stmt matches Statement::Op(_)
        || stmt matches Statement::IncompleteOp(_))
    ||| stmt_pre matches Statement::Op(op) && (op == Op::Rti || op == Op::Rts
        || op matches Op::JmpAbs(_) || op matches Op::JmpInd(_))
}

/// Whether the statement after `stmt_pre` gets a label.
fn needs_label(stmt_pre: &Statement, stmt: &Statement) -> (r: bool)
    ensures
        r == spec_needs_label(*stmt_pre, *stmt),
{
    let boundary = match (stmt_pre, stmt) {
        (Statement::Op(_), Statement::Byte(_)) => true,
        (Statement::IncompleteOp(_), Statement::Byte(_)) => true,
        (Statement::Byte(_), Statement::Op(_)) => true,
        (Statement::Byte(_), Statement::IncompleteOp(_)) => true,
        _ => false,
    };
    if boundary {
        return true;
    }
    match stmt_pre {
        Statement::Op(op) => {
            matches!(op, Op::Rti | Op::Rts | Op::JmpAbs(_) | Op::JmpInd(_))
        },
        _ => false,
    }
}

/// Whether `stmt` is the statement the sweep emits at the address `a`,
/// given the pre-sweep classification `s`: an undecided or code byte whose
/// whole instruction is readable yields that instruction; a code byte cut
/// off by the end of the bank yields the available prefix; anything else
/// yields one raw byte.
pub open spec fn spec_stmt_matches(
    input: Input,
    s: Seq<AnalysisKind>,
    a: int,
    stmt: Statement,
) -> bool {
    let m = input.spec_memory();
    let bank = input.spec_target_bank();
    match s[a] {
        AnalysisKind::Unknown => match m.spec_op_at(a) {
            Some(oi) => stmt == Statement::Op(oi.0),
            None => stmt == Statement::Byte(bank.spec_byte_at(a)),
        },
        AnalysisKind::Code => match m.spec_op_at(a) {
            Some(oi) => stmt == Statement::Op(oi.0),
            None => stmt matches Statement::IncompleteOp(buf) && buf@ == bank.spec_body().subrange(
                a - bank.spec_addr().get(),
                bank.spec_body().len() as int,
            ),
        },
        AnalysisKind::NotCode => stmt == Statement::Byte(bank.spec_byte_at(a)),
    }
}

/// The classification a swept byte ends with: an undecided byte becomes
/// `Code` when its instruction is readable whole and `NotCode` otherwise; a
/// decided byte keeps its classification.
pub open spec fn spec_sweep_cell(input: Input, prev: AnalysisKind, a: int) -> AnalysisKind {
    if prev == AnalysisKind::Unknown {
        if input.spec_memory().spec_op_at(a) is Some {
            AnalysisKind::Code
        } else {
            AnalysisKind::NotCode
        }
    } else {
        prev
    }
}

/// The address at which the statement `stmts[i]` of a sweep starting at
/// `start` stands.
pub open spec fn spec_stmt_pos(stmts: Seq<Statement>, start: int, i: int) -> int {
    start + Statement::spec_len_sum(stmts.subrange(0, i))
}

/// The label table after the sweep has emitted the first `k` statements: a
/// plain label at the bank start and wherever `spec_needs_label` fires.
pub open spec fn spec_sweep_labels_upto(
    pre: Seq<Option<Label>>,
    stmts: Seq<Statement>,
    start: int,
    k: int,
) -> Seq<Option<Label>>
    decreases k,
{
    if k <= 0 {
        pre
    } else {
        let prev = spec_sweep_labels_upto(pre, stmts, start, k - 1);
        let place = k == 1 || spec_needs_label(stmts[k - 2], stmts[k - 1]);
        if place {
            let pos = spec_stmt_pos(stmts, start, k - 1);
            prev.update(
                pos,
                Some(Label { entrypoint: Labels::spec_slot_entrypoint(prev[pos]) }),
            )
        } else {
            prev
        }
    }
}

/// Appending a statement leaves the labels of the already-emitted prefix
/// unchanged.
proof fn lemma_sweep_labels_push(
    pre: Seq<Option<Label>>,
    stmts: Seq<Statement>,
    x: Statement,
    start: int,
    k: int,
)
    requires
        0 <= k <= stmts.len(),
    ensures
        spec_sweep_labels_upto(pre, stmts.push(x), start, k) == spec_sweep_labels_upto(
            pre,
            stmts,
            start,
            k,
        ),
    decreases k,
{
    if k > 0 {
        lemma_sweep_labels_push(pre, stmts, x, start, k - 1);
        assert(stmts.push(x).subrange(0, k - 1) =~= stmts.subrange(0, k - 1));
    }
}

/// The classification after the sweep has decided the first `k` statement
/// positions: each position is overwritten by the classification its
/// statement dictates, and no other cell changes.
pub open spec fn spec_sweep_cells_upto(
    input: Input,
    s: Seq<AnalysisKind>,
    stmts: Seq<Statement>,
    start: int,
    k: int,
) -> Seq<AnalysisKind>
    decreases k,
{
    if k <= 0 {
        s
    } else {
        let prev = spec_sweep_cells_upto(input, s, stmts, start, k - 1);
        let pos = spec_stmt_pos(stmts, start, k - 1);
        prev.update(pos, spec_sweep_cell(input, prev[pos], pos))
    }
}

/// Appending a statement leaves the decided cells of the already-emitted
/// prefix unchanged.
proof fn lemma_sweep_cells_push(
    input: Input,
    s: Seq<AnalysisKind>,
    stmts: Seq<Statement>,
    x: Statement,
    start: int,
    k: int,
)
    requires
        0 <= k <= stmts.len(),
    ensures
        spec_sweep_cells_upto(input, s, stmts.push(x), start, k) == spec_sweep_cells_upto(
            input,
            s,
            stmts,
            start,
            k,
        ),
    decreases k,
{
    if k > 0 {
        lemma_sweep_cells_push(input, s, stmts, x, start, k - 1);
        assert(stmts.push(x).subrange(0, k - 1) =~= stmts.subrange(0, k - 1));
    }
}

/// Decides the classification of `addr` and returns the statement covering
/// it: a decoded instruction for code, the truncated prefix for an
/// instruction cut off by the end of the bank, and a raw byte for data.
fn get_stmt(analysis: &mut Analysis, input: &Input, addr: Address) -> (r: Statement)
    requires
        old(analysis).wf(),
        input.wf(),
        input.spec_target_bank().spec_contains(addr.get() as int),
    ensures
        final(analysis).wf(),
        r.wf(),
        1 <= r.spec_len() <= input.spec_target_bank().spec_addr().get()
            + input.spec_target_bank().spec_body().len() - addr.get(),
        // the statement re-encodes to exactly the bank bytes it covers
        r.spec_bytes() == input.spec_target_bank().spec_body().subrange(
            addr.get() - input.spec_target_bank().spec_addr().get(),
            addr.get() - input.spec_target_bank().spec_addr().get() + r.spec_len(),
        ),
        forall|p: int|
            0 <= p < 0x10000 && p != addr.get() ==> final(analysis)@[p] == old(analysis)@[p],
        final(analysis)@[addr.get() as int] != AnalysisKind::Unknown,
        final(analysis)@[addr.get() as int] == old(analysis)@[addr.get() as int] || old(
            analysis,
        )@[addr.get() as int] == AnalysisKind::Unknown,
        spec_stmt_matches(*input, old(analysis)@, addr.get() as int, r),
        final(analysis)@[addr.get() as int] == spec_sweep_cell(
            *input,
            old(analysis)@[addr.get() as int],
            addr.get() as int,
        ),
{
    proof {
        // The target bank covers `addr`, so the reverse index resolves it
        // to the target bank.
        assert(input.spec_memory().spec_bank_id_at(addr.get() as int) == Some(
            input.spec_target_bank_id(),
        ));
    }
    let kind = *analysis.get(addr);
    match kind {
        AnalysisKind::Unknown => {
            // An undecided byte is code when a whole instruction can be
            // read, and a single data byte when the instruction is
            // truncated; the sweep then advances one byte.
            match input.memory().fetch_op(addr) {
                Ok((op, _)) => {
                    proof {
                        lemma_stmt_op_len(*input, addr, op);
                    }
                    analysis.set(addr, AnalysisKind::Code);
                    Statement::Op(op)
                },
                Err(FetchOpError::Incomplete(buf)) => {
                    analysis.set(addr, AnalysisKind::NotCode);
                    let b = buf[0];
                    proof {
                        let bank = input.spec_target_bank();
                        let rel = addr.get() - bank.spec_addr().get();
                        assert(seq![b] =~= bank.spec_body().subrange(rel, rel + 1));
                    }
                    Statement::Byte(b)
                },
                Err(FetchOpError::Nothing) => vstd::pervasive::unreached(),
            }
        },
        AnalysisKind::Code => {
            match input.memory().fetch_op(addr) {
                Ok((op, _)) => {
                    proof {
                        lemma_stmt_op_len(*input, addr, op);
                    }
                    Statement::Op(op)
                },
                Err(FetchOpError::Incomplete(buf)) => Statement::IncompleteOp(buf),
                Err(FetchOpError::Nothing) => vstd::pervasive::unreached(),
            }
        },
        AnalysisKind::NotCode => {
            match input.memory().get_byte(addr) {
                Some((b, _)) => {
                    proof {
                        let bank = input.spec_target_bank();
                        let rel = addr.get() - bank.spec_addr().get();
                        assert(seq![b] =~= bank.spec_body().subrange(rel, rel + 1));
                    }
                    Statement::Byte(b)
                },
                None => vstd::pervasive::unreached(),
            }
        },
    }
}

/// An instruction fetched whole from the target bank fits in what the bank
/// holds from its address on: re-encoding it (the round-trip law) shows its
/// length equals the length the leading opcode byte demands.
proof fn lemma_stmt_op_len(input: Input, addr: Address, op: Op)
    requires
        input.wf(),
        input.spec_target_bank().spec_contains(addr.get() as int),
        input.spec_memory().spec_bank_id_at(addr.get() as int) == Some(
            input.spec_target_bank_id(),
        ),
        input.spec_memory().spec_op_at(addr.get() as int) matches Some(oi) && oi.0 == op,
    ensures
        1 <= op.spec_len() <= input.spec_target_bank().spec_addr().get()
            + input.spec_target_bank().spec_body().len() - addr.get(),
        op.spec_encode() == input.spec_target_bank().spec_body().subrange(
            addr.get() - input.spec_target_bank().spec_addr().get(),
            addr.get() - input.spec_target_bank().spec_addr().get() + op.spec_len(),
        ),
{
    reveal(crate::memory::Memory::spec_op_at);
    let a = addr.get() as int;
    let bank = input.spec_target_bank();
    let start = bank.spec_addr().get() as int;
    let l = crate::op::Opcode::spec_op_len(bank.spec_byte_at(a));
    let s = bank.spec_body().subrange(a - start, a - start + l);
    crate::op::lemma_encode_of_fetch(s);
    assert(op.spec_encode() == s);
    assert(op.spec_encode().len() == 1 + op.spec_operand().spec_bytes().len());
    assert(op.spec_operand().spec_bytes().len() == op.spec_operand().spec_len());
    assert(op.spec_len() == l);
}

/// One sweep step: pushing the statement emitted at `start + off` extends
/// the recorded positions, kinds and decided cells by one entry.
#[verifier::rlimit(100)]
proof fn lemma_sweep_step_facts(
    input: Input,
    base: Seq<AnalysisKind>,
    pre_cells: Seq<AnalysisKind>,
    post_cells: Seq<AnalysisKind>,
    stmts0: Seq<Statement>,
    stmt: Statement,
    off: int,
)
    requires
        off >= 0,
        stmt.spec_len() >= 1,
        Statement::spec_len_sum(stmts0) == off,
        forall|i: int|
            0 <= i < stmts0.len() ==> spec_stmt_matches(
                input,
                base,
                spec_stmt_pos(stmts0, input.spec_target_bank().spec_addr().get() as int, i),
                #[trigger] stmts0[i],
            ),
        forall|i: int|
            0 <= i < stmts0.len() ==> input.spec_target_bank().spec_addr().get()
                <= #[trigger] spec_stmt_pos(
                stmts0,
                input.spec_target_bank().spec_addr().get() as int,
                i,
            ) < input.spec_target_bank().spec_addr().get() + off,
        pre_cells == spec_sweep_cells_upto(
            input,
            base,
            stmts0,
            input.spec_target_bank().spec_addr().get() as int,
            stmts0.len() as int,
        ),
        spec_stmt_matches(
            input,
            base,
            input.spec_target_bank().spec_addr().get() + off,
            stmt,
        ),
        post_cells == pre_cells.update(
            input.spec_target_bank().spec_addr().get() + off,
            spec_sweep_cell(
                input,
                pre_cells[input.spec_target_bank().spec_addr().get() + off],
                input.spec_target_bank().spec_addr().get() + off,
            ),
        ),
    ensures
        ({
            let start = input.spec_target_bank().spec_addr().get() as int;
            let stmts1 = stmts0.push(stmt);
            &&& Statement::spec_len_sum(stmts1) == off + stmt.spec_len()
            &&& forall|i: int|
                0 <= i <= stmts0.len() ==> #[trigger] spec_stmt_pos(stmts1, start, i)
                    == spec_stmt_pos(stmts0, start, i)
            &&& forall|i: int|
                0 <= i < stmts1.len() ==> spec_stmt_matches(
                    input,
                    base,
                    spec_stmt_pos(stmts1, start, i),
                    #[trigger] stmts1[i],
                )
            &&& forall|i: int|
                0 <= i < stmts1.len() ==> start <= #[trigger] spec_stmt_pos(stmts1, start, i)
                    < start + off + stmt.spec_len()
            &&& post_cells == spec_sweep_cells_upto(
                input,
                base,
                stmts1,
                start,
                stmts1.len() as int,
            )
        }),
{
    let start = input.spec_target_bank().spec_addr().get() as int;
    let stmts1 = stmts0.push(stmt);
    let n = stmts0.len() as int;
    assert(stmts1.drop_last() =~= stmts0);
    assert forall|i: int| 0 <= i <= n implies #[trigger] spec_stmt_pos(stmts1, start, i)
        == spec_stmt_pos(stmts0, start, i) by {
        assert(stmts1.subrange(0, i) =~= stmts0.subrange(0, i));
    }
    assert(spec_stmt_pos(stmts1, start, n) == start + off);
    assert forall|i: int| 0 <= i < n + 1 implies spec_stmt_matches(
        input,
        base,
        spec_stmt_pos(stmts1, start, i),
        #[trigger] stmts1[i],
    ) by {
        if i < n {
            assert(stmts1[i] == stmts0[i]);
        }
    }
    lemma_sweep_cells_push(input, base, stmts0, stmt, start, n);
}

/// Sweeps the target bank from its start into a statement list whose total
/// byte length is exactly the bank's length, deciding every byte on the way
/// and labelling statement starts as needed.
#[verifier::loop_isolation(false)]
#[verifier::rlimit(100)]
#[verifier::spinoff_prover]
pub fn analyze(analysis: &mut Analysis, labels: &mut Labels, input: &Input) -> (r: Vec<Statement>)
    requires
        old(analysis).wf(),
        old(labels).wf(),
        input.wf(),
    ensures
        final(analysis).wf(),
        final(labels).wf(),
        r@.len() >= 1,
        forall|i: int| 0 <= i < r@.len() ==> (#[trigger] r@[i]).wf(),
        Statement::spec_len_sum(r@) == input.spec_target_bank().spec_body().len(),
        // re-encoding the statements reproduces the bank image exactly
        Statement::spec_bytes_concat(r@) == input.spec_target_bank().spec_body(),
        // each statement is the one the pre-sweep classification dictates
        // at its own address, which lies inside the bank
        forall|i: int|
            0 <= i < r@.len() ==> spec_stmt_matches(
                *input,
                old(analysis)@,
                spec_stmt_pos(r@, input.spec_target_bank().spec_addr().get() as int, i),
                #[trigger] r@[i],
            ),
        forall|i: int|
            0 <= i < r@.len() ==> input.spec_target_bank().spec_addr().get() <= #[trigger] spec_stmt_pos(
                r@,
                input.spec_target_bank().spec_addr().get() as int,
                i,
            ) < input.spec_target_bank().spec_addr().get()
                + input.spec_target_bank().spec_body().len(),
        // the decided cells are exactly the statement positions
        final(analysis)@ == spec_sweep_cells_upto(
            *input,
            old(analysis)@,
            r@,
            input.spec_target_bank().spec_addr().get() as int,
            r@.len() as int,
        ),
        // a label at the bank start and at every boundary that needs one
        final(labels)@ == spec_sweep_labels_upto(
            old(labels)@,
            r@,
            input.spec_target_bank().spec_addr().get() as int,
            r@.len() as int,
        ),
        super::spec_labels_grow(old(labels)@, final(labels)@),
        super::spec_preserves_decided(old(analysis)@, final(analysis)@),
{
    let bank_start: u16 = input.target_bank().addr().get();
    let bank_len: usize = input.target_bank().len();

    let mut stmts: Vec<Statement> = Vec::new();
    let mut off: usize = 0;
    while off < bank_len
        invariant
            off <= bank_len,
            bank_start == input.spec_target_bank().spec_addr().get(),
            bank_len == input.spec_target_bank().spec_body().len(),
            analysis.wf(),
            labels.wf(),
            Statement::spec_len_sum(stmts@) == off,
            Statement::spec_bytes_concat(stmts@) == input.spec_target_bank().spec_body().subrange(
                0,
                off as int,
            ),
            forall|i: int| 0 <= i < stmts@.len() ==> (#[trigger] stmts@[i]).wf(),
            stmts@.len() == 0 ==> off == 0,
            // bytes at or past the sweep position are untouched
            forall|p: int|
                bank_start + off <= p < 0x10000 ==> analysis@[p] == old(analysis)@[p],
            forall|i: int|
                0 <= i < stmts@.len() ==> spec_stmt_matches(
                    *input,
                    old(analysis)@,
                    spec_stmt_pos(stmts@, bank_start as int, i),
                    #[trigger] stmts@[i],
                ),
            forall|i: int|
                0 <= i < stmts@.len() ==> bank_start <= #[trigger] spec_stmt_pos(
                    stmts@,
                    bank_start as int,
                    i,
                ) < bank_start + off,
            analysis@ == spec_sweep_cells_upto(
                *input,
                old(analysis)@,
                stmts@,
                bank_start as int,
                stmts@.len() as int,
            ),
            labels@ == spec_sweep_labels_upto(
                old(labels)@,
                stmts@,
                bank_start as int,
                stmts@.len() as int,
            ),
            super::spec_labels_grow(old(labels)@, labels@),
            super::spec_preserves_decided(old(analysis)@, analysis@),
        decreases bank_len - off,
    {
        let ghost stmts0 = stmts@;
        let ghost pre_cells = analysis@;
        let addr = Address::new(bank_start + off as u16);
        let stmt = get_stmt(analysis, input, addr);
        let stmt_len = stmt.len();

        // The current position gets a label at the bank start and on the
        // boundaries that `needs_label` recognises.
        let place_label = if stmts.len() == 0 {
            true
        } else {
            needs_label(&stmts[stmts.len() - 1], &stmt)
        };
        if place_label {
            labels.set(addr, Label::new(false));
        }

        proof {
            let start = bank_start as int;
            let n = stmts0.len() as int;
            let stmts1 = stmts0.push(stmt);
            assert(stmts1.drop_last() =~= stmts0);
            let body = input.spec_target_bank().spec_body();
            assert(body.subrange(0, off as int) + body.subrange(
                off as int,
                off + stmt.spec_len(),
            ) =~= body.subrange(0, off + stmt.spec_len()));
            // the new statement's kind comes from `get_stmt` against the
            // untouched cell at its own position, and the decided cells
            // form one more fold step
            assert(pre_cells[start + off] == old(analysis)@[start + off]);
            assert(analysis@ =~= pre_cells.update(
                start + off,
                spec_sweep_cell(*input, pre_cells[start + off], start + off),
            ));
            lemma_sweep_step_facts(
                *input,
                old(analysis)@,
                pre_cells,
                analysis@,
                stmts0,
                stmt,
                off as int,
            );
            // the label table follows the fold by one more step
            lemma_sweep_labels_push(old(labels)@, stmts0, stmt, start, n);
            assert(labels@ == spec_sweep_labels_upto(old(labels)@, stmts1, start, n + 1));
        }
        stmts.push(stmt);
        off = off + stmt_len;
    }
    proof {
        let body = input.spec_target_bank().spec_body();
        assert(body.subrange(0, body.len() as int) =~= body);
    }
    stmts
}

} // verus!
