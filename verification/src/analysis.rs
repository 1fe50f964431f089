//! The multi-pass classification and disassembly engine.
//!
//! Each pass may move per-address cells from `Unknown` to `Code` or
//! `NotCode` and may place labels, but a cell that is already decided is
//! never overwritten. The passes run in a fixed order: logger annotations,
//! permissions, interrupt vectors, per-instruction validity, control flow,
//! the linear sweep over the target bank, and cross-reference labels.

pub mod cdl;
pub mod flow;
pub mod interrupt;
pub mod label;
pub mod linear_sweep;
pub mod op;
pub mod permission;

use vstd::prelude::*;

use crate::address::ArrayByAddress;
use crate::assembly::{Assembly, AssemblyBuilder, Labels};
use crate::config::AnalysisConfig;
use crate::input::Input;

verus! {

/// The classification of the whole logical address space.
pub type Analysis = ArrayByAddress<AnalysisKind>;

/// The classification of one logical address. `Code` and `NotCode` are
/// terminal: once set, no later pass changes them.
#[derive(Clone, Copy, Debug, PartialEq, Eq, Structural)]
pub enum AnalysisKind {
    Unknown,
    Code,
    NotCode,
}

impl Default for AnalysisKind {
    fn default() -> (r: Self)
        ensures
            r == AnalysisKind::Unknown,
    {
        AnalysisKind::Unknown
    }
}

/// Monotonicity of a classification update: every address already decided
/// as `Code` or `NotCode` keeps its classification.
pub open spec fn spec_preserves_decided(pre: Seq<AnalysisKind>, post: Seq<AnalysisKind>) -> bool {
    &&& post.len() == pre.len()
    &&& forall|a: int|
        0 <= a < pre.len() && pre[a] != AnalysisKind::Unknown ==> #[trigger] post[a] == pre[a]
}

/// Monotonicity of a label-table update: labels are only ever added, and an
/// address once marked as an entry point stays an entry point.
pub open spec fn spec_labels_grow(
    pre: Seq<Option<crate::assembly::Label>>,
    post: Seq<Option<crate::assembly::Label>>,
) -> bool {
    &&& post.len() == pre.len()
    &&& forall|p: int| 0 <= p < pre.len() ==> ((#[trigger] pre[p]) is Some ==> post[p] is Some)
    &&& forall|p: int|
        0 <= p < pre.len() ==> (Labels::spec_slot_entrypoint(#[trigger] pre[p])
            ==> Labels::spec_slot_entrypoint(post[p]))
}

/// The classification after the annotation pass, run on a fresh array.
pub open spec fn spec_kinds_after_cdl(input: Input) -> Seq<AnalysisKind> {
    Seq::new(0x10000, |p: int| cdl::spec_cdl_kind(input.spec_cdl(), p, AnalysisKind::Unknown))
}

/// The label table after the annotation pass, run on a fresh table.
pub open spec fn spec_labels_after_cdl(input: Input) -> Seq<Option<crate::assembly::Label>> {
    Seq::new(0x10000, |p: int| cdl::spec_cdl_label(input, p, None))
}

/// The classification after the permission pass.
pub open spec fn spec_kinds_after_permission(input: Input) -> Seq<AnalysisKind> {
    let pre = spec_kinds_after_cdl(input);
    Seq::new(
        0x10000,
        |p: int| permission::spec_permission_kind(input.spec_permissions(), p, pre[p]),
    )
}

/// The classification after the enabled interrupt vectors are processed.
pub open spec fn spec_kinds_after_interrupt(input: Input, config: AnalysisConfig) -> Seq<
    AnalysisKind,
> {
    let a = spec_kinds_after_permission(input);
    let b = if config.use_nmi() {
        interrupt::spec_handler_kinds(input, a, 0xFFFA)
    } else {
        a
    };
    let c = if config.use_reset() {
        interrupt::spec_handler_kinds(input, b, 0xFFFC)
    } else {
        b
    };
    if config.use_irq() {
        interrupt::spec_handler_kinds(input, c, 0xFFFE)
    } else {
        c
    }
}

/// The label table after the enabled interrupt vectors are processed.
pub open spec fn spec_labels_after_interrupt(input: Input, config: AnalysisConfig) -> Seq<
    Option<crate::assembly::Label>,
> {
    let a = spec_kinds_after_permission(input);
    let la = spec_labels_after_cdl(input);
    let b = if config.use_nmi() {
        interrupt::spec_handler_kinds(input, a, 0xFFFA)
    } else {
        a
    };
    let lb = if config.use_nmi() {
        interrupt::spec_handler_labels(input, a, la, 0xFFFA)
    } else {
        la
    };
    let c = if config.use_reset() {
        interrupt::spec_handler_kinds(input, b, 0xFFFC)
    } else {
        b
    };
    let lc = if config.use_reset() {
        interrupt::spec_handler_labels(input, b, lb, 0xFFFC)
    } else {
        lb
    };
    if config.use_irq() {
        interrupt::spec_handler_labels(input, c, lc, 0xFFFE)
    } else {
        lc
    }
}

/// The classification after the per-instruction validity sweep.
pub open spec fn spec_kinds_after_validity(input: Input, config: AnalysisConfig) -> Seq<
    AnalysisKind,
> {
    let pre = spec_kinds_after_interrupt(input, config);
    Seq::new(0x10000, |p: int| op::spec_invalid_kind(input, config, p, pre[p]))
}

/// The classification after the operand-exclusion sweep.
pub open spec fn spec_kinds_after_operand(input: Input, config: AnalysisConfig) -> Seq<
    AnalysisKind,
> {
    let pre = spec_kinds_after_validity(input, config);
    Seq::new(0x10000, |p: int| op::spec_operand_kind(input.spec_memory(), pre, p))
}

/// The classification after the dead-flow fixed point.
pub open spec fn spec_kinds_after_dead_flow(input: Input, config: AnalysisConfig) -> Seq<
    AnalysisKind,
> {
    let pre = spec_kinds_after_operand(input, config);
    Seq::new(0x10000, |p: int| flow::spec_flow_dead_kind(input, pre, p))
}

/// The classification after the forward code walk.
pub open spec fn spec_kinds_after_code_walk(input: Input, config: AnalysisConfig) -> Seq<
    AnalysisKind,
> {
    flow::spec_code_walk_kinds(input, spec_kinds_after_dead_flow(input, config))
}

/// The classification after the sweep has decided every statement
/// position of the emitted listing.
pub open spec fn spec_kinds_after_sweep(
    input: Input,
    config: AnalysisConfig,
    stmts: Seq<crate::assembly::Statement>,
) -> Seq<AnalysisKind> {
    linear_sweep::spec_sweep_cells_upto(
        input,
        spec_kinds_after_code_walk(input, config),
        stmts,
        input.spec_target_bank().spec_addr().get() as int,
        stmts.len() as int,
    )
}

/// The label table after the sweep has labelled the emitted listing.
pub open spec fn spec_labels_after_sweep(
    input: Input,
    config: AnalysisConfig,
    stmts: Seq<crate::assembly::Statement>,
) -> Seq<Option<crate::assembly::Label>> {
    linear_sweep::spec_sweep_labels_upto(
        spec_labels_after_interrupt(input, config),
        stmts,
        input.spec_target_bank().spec_addr().get() as int,
        stmts.len() as int,
    )
}

/// The final label table: the cross-reference pass folded over its
/// scanning window on top of the sweep's labels.
pub open spec fn spec_labels_final(
    input: Input,
    config: AnalysisConfig,
    stmts: Seq<crate::assembly::Statement>,
) -> Seq<Option<crate::assembly::Label>> {
    let lo: int = if input.spec_target_bank().spec_is_fixed() {
        0
    } else {
        input.spec_target_bank().spec_addr().get() as int
    };
    let hi: int = if input.spec_target_bank().spec_is_fixed() {
        0x10000
    } else {
        input.spec_target_bank().spec_addr().get() + input.spec_target_bank().spec_body().len()
    };
    label::spec_label_pass_upto(
        input,
        spec_kinds_after_sweep(input, config, stmts),
        spec_labels_after_sweep(input, config, stmts),
        lo,
        hi,
    )
}

/// What pins the emitted statements: a classification that extends the
/// dead-flow stage only by code-reachable `Code` marks (the forward walk),
/// with every statement dictated by that classification at its own address.
pub open spec fn spec_pipeline_statements_with(
    input: Input,
    config: AnalysisConfig,
    r: Assembly,
    post_flow: Seq<AnalysisKind>,
) -> bool {
    let pre = spec_kinds_after_dead_flow(input, config);
    let stmts = r.spec_statements();
    let start = input.spec_target_bank().spec_addr().get() as int;
    &&& post_flow.len() == 0x10000
    &&& forall|p: int|
        0 <= p < 0x10000 ==> #[trigger] post_flow[p] == pre[p] || (pre[p]
            == AnalysisKind::Unknown && post_flow[p] == AnalysisKind::Code)
    &&& forall|p: int|
        0 <= p < 0x10000 && #[trigger] post_flow[p] == AnalysisKind::Code && pre[p]
            != AnalysisKind::Code ==> flow::spec_code_reach(input, pre, p)
    &&& forall|i: int|
        0 <= i < stmts.len() ==> linear_sweep::spec_stmt_matches(
            input,
            post_flow,
            linear_sweep::spec_stmt_pos(stmts, start, i),
            #[trigger] stmts[i],
        )
}

/// The emitted statements follow the staged classification: some forward
/// code walk over the dead-flow stage dictates every statement.
pub open spec fn spec_pipeline_statements(input: Input, config: AnalysisConfig, r: Assembly) -> bool {
    exists|post_flow: Seq<AnalysisKind>|
        #[trigger] spec_pipeline_statements_with(input, config, r, post_flow)
}

/// The pipeline refines monotonically: at every stage boundary, an address
/// already decided as `Code` or `NotCode` keeps its classification.
pub proof fn lemma_pipeline_refines(input: Input, config: AnalysisConfig)
    ensures
        spec_preserves_decided(spec_kinds_after_cdl(input), spec_kinds_after_permission(input)),
        spec_preserves_decided(
            spec_kinds_after_permission(input),
            spec_kinds_after_interrupt(input, config),
        ),
        spec_preserves_decided(
            spec_kinds_after_interrupt(input, config),
            spec_kinds_after_validity(input, config),
        ),
        spec_preserves_decided(
            spec_kinds_after_validity(input, config),
            spec_kinds_after_operand(input, config),
        ),
        spec_preserves_decided(
            spec_kinds_after_operand(input, config),
            spec_kinds_after_dead_flow(input, config),
        ),
{
    let a = spec_kinds_after_permission(input);
    let b = if config.use_nmi() {
        interrupt::spec_handler_kinds(input, a, 0xFFFA)
    } else {
        a
    };
    let c = if config.use_reset() {
        interrupt::spec_handler_kinds(input, b, 0xFFFC)
    } else {
        b
    };
    if config.use_nmi() {
        interrupt::lemma_handler_preserves_decided(input, a, 0xFFFA);
    }
    if config.use_reset() {
        interrupt::lemma_handler_preserves_decided(input, b, 0xFFFC);
    }
    if config.use_irq() {
        interrupt::lemma_handler_preserves_decided(input, c, 0xFFFE);
    }
}

/// Runs the analysis passes in their fixed order against a fresh
/// classification array and label table, then sweeps the target bank into
/// an `Assembly`.
#[verifier::rlimit(100)]
#[verifier::spinoff_prover]
pub fn analyze(input: &Input, config: &AnalysisConfig) -> (r: Assembly)
    requires
        input.wf(),
    ensures
        r.wf(),
        r.spec_bank_addr_range().spec_min() == input.spec_target_bank().spec_addr(),
        r.spec_bank_addr_range().spec_len() == input.spec_target_bank().spec_body().len(),
        r.spec_bank_name() == input.spec_target_bank_name(),
        // re-encoding the emitted statements reproduces the bank image
        crate::assembly::Statement::spec_bytes_concat(r.spec_statements())
            == input.spec_target_bank().spec_body(),
        // the statements follow the staged classification, witnessed by
        // the code-walk stage itself
        spec_pipeline_statements(*input, *config, r),
        spec_pipeline_statements_with(
            *input,
            *config,
            r,
            spec_kinds_after_code_walk(*input, *config),
        ),
        // the label table is exactly the composed label folds of the
        // annotation, vector, sweep and cross-reference passes
        r.spec_labels()@ == spec_labels_final(*input, *config, r.spec_statements()),
        // labels only ever grow and entry points are sticky
        spec_labels_grow(spec_labels_after_interrupt(*input, *config), r.spec_labels()@),
        // no instruction statement carries a page-wrapping indirect operand
        // unless annotation or vector evidence forced its address to be
        // code before the validity sweep
        forall|i: int|
            0 <= i < r.spec_statements().len() && ((#[trigger] r.spec_statements()[i])
                matches crate::assembly::Statement::Op(op)
                && op::spec_operand_is_wrapping_ptr(op)) ==> spec_kinds_after_interrupt(
                *input,
                *config,
            )[linear_sweep::spec_stmt_pos(
                r.spec_statements(),
                input.spec_target_bank().spec_addr().get() as int,
                i,
            )] == AnalysisKind::Code,
{
    let mut analysis: Analysis = ArrayByAddress::new(AnalysisKind::Unknown);
    let mut labels: Labels = Labels::default();

    self::cdl::analyze(&mut analysis, &mut labels, input);
    proof {
        assert(analysis@ =~= spec_kinds_after_cdl(*input));
        assert(labels@ =~= spec_labels_after_cdl(*input));
    }
    self::permission::analyze(&mut analysis, input);
    proof {
        assert(analysis@ =~= spec_kinds_after_permission(*input));
    }
    self::interrupt::analyze(&mut analysis, &mut labels, input, config);
    proof {
        assert(analysis@ =~= spec_kinds_after_interrupt(*input, *config));
        assert(labels@ =~= spec_labels_after_interrupt(*input, *config));
    }
    let ghost s3 = analysis@;
    self::op::analyze(&mut analysis, input, config);
    proof {
        let mid = Seq::new(
            0x10000,
            |p: int| op::spec_invalid_kind(*input, *config, p, s3[p]),
        );
        assert(mid =~= spec_kinds_after_validity(*input, *config));
        assert(analysis@ =~= spec_kinds_after_operand(*input, *config));
    }
    let ghost s5 = analysis@;
    self::flow::analyze(&mut analysis, input);
    proof {
        let mid = Seq::new(0x10000, |p: int| flow::spec_flow_dead_kind(*input, s5, p));
        assert(mid =~= spec_kinds_after_dead_flow(*input, *config));
    }
    let ghost post_flow = analysis@;
    proof {
        assert(analysis@ == spec_kinds_after_code_walk(*input, *config));
    }
    let ghost labels_vectors = labels@;
    let stmts = self::linear_sweep::analyze(&mut analysis, &mut labels, input);
    let ghost post_sweep = analysis@;
    let ghost labels_sweep = labels@;
    proof {
        assert(post_sweep == spec_kinds_after_sweep(*input, *config, stmts@));
        assert(labels_sweep == spec_labels_after_sweep(*input, *config, stmts@));
    }
    self::label::analyze(&analysis, &mut labels, input);
    proof {
        assert(labels@ == spec_labels_final(*input, *config, stmts@));
        assert(spec_labels_grow(spec_labels_after_interrupt(*input, *config), labels@));
    }

    let built = AssemblyBuilder::new().bank_addr_range(
        input.target_bank().addr_range(),
    ).bank_name(input.target_bank_name().to_owned()).statements(stmts).labels(labels).build();
    match built {
        Ok(assembly) => {
            proof {
                assert(spec_pipeline_statements_with(*input, *config, assembly, post_flow));
                assert(spec_pipeline_statements(*input, *config, assembly));
                lemma_wrapping_needs_forced_code(*input, *config, assembly, post_flow);
            }
            assembly
        },
        Err(_) => {
            // Unreachable: the sweep covers the target bank exactly.
            vstd::pervasive::unreached()
        },
    }
}

/// An instruction statement with a page-wrapping indirect operand can only
/// stand at an address the annotation or interrupt passes had already
/// forced to be code: the validity sweep rejects such an instruction
/// wherever it still had a say.
proof fn lemma_wrapping_needs_forced_code(
    input: Input,
    config: AnalysisConfig,
    r: Assembly,
    post_flow: Seq<AnalysisKind>,
)
    requires
        input.wf(),
        spec_pipeline_statements_with(input, config, r, post_flow),
        forall|i: int|
            0 <= i < r.spec_statements().len() ==> input.spec_target_bank().spec_addr().get()
                <= #[trigger] linear_sweep::spec_stmt_pos(
                r.spec_statements(),
                input.spec_target_bank().spec_addr().get() as int,
                i,
            ) < input.spec_target_bank().spec_addr().get()
                + input.spec_target_bank().spec_body().len(),
    ensures
        forall|i: int|
            0 <= i < r.spec_statements().len() && ((#[trigger] r.spec_statements()[i])
                matches crate::assembly::Statement::Op(op)
                && op::spec_operand_is_wrapping_ptr(op)) ==> spec_kinds_after_interrupt(
                input,
                config,
            )[linear_sweep::spec_stmt_pos(
                r.spec_statements(),
                input.spec_target_bank().spec_addr().get() as int,
                i,
            )] == AnalysisKind::Code,
{
    let stmts = r.spec_statements();
    let start = input.spec_target_bank().spec_addr().get() as int;
    let v3 = spec_kinds_after_interrupt(input, config);
    let v4 = spec_kinds_after_validity(input, config);
    let v5 = spec_kinds_after_operand(input, config);
    let v6 = spec_kinds_after_dead_flow(input, config);
    assert forall|i: int|
        0 <= i < stmts.len() && ((#[trigger] stmts[i])
            matches crate::assembly::Statement::Op(op) && op::spec_operand_is_wrapping_ptr(
            op,
        )) implies v3[linear_sweep::spec_stmt_pos(stmts, start, i)] == AnalysisKind::Code by {
        let q = linear_sweep::spec_stmt_pos(stmts, start, i);
        match stmts[i] {
            crate::assembly::Statement::Op(op) => {
                // The statement is dictated by the post-flow cell at `q`;
                // a decoded instruction means the cell is Unknown or Code
                // and the whole instruction is readable there.
                assert(linear_sweep::spec_stmt_matches(input, post_flow, q, stmts[i]));
                assert(input.spec_memory().spec_op_at(q) matches Some(oi) && oi.0 == op);
                if v4[q] == AnalysisKind::Unknown {
                    // Still unknown after the validity sweep: the sweep
                    // would have rejected a wrapping pointer.
                    op::lemma_unknown_keeps_no_wrapping_ptr(input, config, q, v3[q]);
                    assert(false);
                } else {
                    // The cell was decided before the validity sweep kept
                    // it, or the validity sweep marked it NotCode; in the
                    // latter case no Op statement could stand here.
                    if post_flow[q] == AnalysisKind::Code {
                        if v6[q] != AnalysisKind::Code {
                            assert(v6[q] == AnalysisKind::Unknown);
                            assert(v5[q] == AnalysisKind::Unknown);
                            assert(v4[q] == AnalysisKind::Unknown);
                            assert(false);
                        }
                        assert(v5[q] == AnalysisKind::Code);
                        assert(v4[q] == AnalysisKind::Code);
                        assert(v3[q] == AnalysisKind::Code);
                    } else {
                        assert(post_flow[q] == AnalysisKind::Unknown);
                        assert(v6[q] == AnalysisKind::Unknown);
                        assert(v5[q] == AnalysisKind::Unknown);
                        assert(v4[q] == AnalysisKind::Unknown);
                        assert(false);
                    }
                }
            },
            _ => {},
        }
    }
}

} // verus!
