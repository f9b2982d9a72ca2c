//! The pipeline: the passes in their fixed order, each on what the pass
//! before it gave, with the diagnostics of all of them.

use vstd::prelude::*;
use crate::errors::{errors_view, ErrorView, Validation, YggdrasilError};
use crate::grammar::{GrammarInfo, GrammarView};
use crate::optimize::dead_code::DeadCodeEliminator;
use crate::optimize::fuse_charset::FuseCharset;
use crate::optimize::inlining::InlineRule;
use crate::optimize::refine_rules::RefineRules;
use crate::optimize::remark_tag::RemarkTags;
use crate::optimize::{
    append_diagnostics, pass_diagnostics, spec_rule_pass, CodeOptimizer, RulePass,
};

verus! {

/// What a list of passes makes of a grammar: each pass works on what the
/// pass before it gave, and the diagnostics follow one another in the
/// order of the passes.
pub open spec fn spec_run<P: CodeOptimizer>(passes: Seq<P>, info: GrammarView) -> (
    GrammarView,
    Seq<ErrorView>,
)
    decreases passes.len(),
{
    if passes.len() == 0 {
        (info, Seq::empty())
    } else {
        let first = passes[0].spec_optimize(info);
        let rest = spec_run(passes.drop_first(), first.0);
        (rest.0, first.1 + rest.1)
    }
}

/// One more step of a chain of outcomes.
pub open spec fn then_pass<P: CodeOptimizer>(before: (GrammarView, Seq<ErrorView>), pass: P) -> (
    GrammarView,
    Seq<ErrorView>,
) {
    (pass.spec_optimize(before.0).0, before.1 + pass.spec_optimize(before.0).1)
}

/// What the pipeline makes of a grammar: tag propagation, refinement,
/// dead-code elimination, inlining and character-set fusion, in this
/// order.
pub open spec fn spec_pipeline(info: GrammarView) -> (GrammarView, Seq<ErrorView>) {
    then_pass(
        then_pass(
            then_pass(
                then_pass(then_pass((info, Seq::empty()), RemarkTags {  }), RefineRules {  }),
                DeadCodeEliminator {  },
            ),
            InlineRule {  },
        ),
        FuseCharset {  },
    )
}

/// The grammar that a stage of the pipeline works on: the outcome of the
/// stages before it.
pub open spec fn after_remark(info: GrammarView) -> GrammarView {
    (RemarkTags {  }).spec_optimize(info).0
}

/// The grammar after tag propagation and refinement.
pub open spec fn after_refine(info: GrammarView) -> GrammarView {
    (RefineRules {  }).spec_optimize(after_remark(info)).0
}

proof fn lemma_refine_silent(info: GrammarView, upto: int)
    ensures
        pass_diagnostics(RefineRules {  }, info, upto) == Seq::<ErrorView>::empty(),
    decreases upto,
{
    if upto > 0 {
        lemma_refine_silent(info, upto - 1);
        assert(pass_diagnostics(RefineRules {  }, info, upto) =~= Seq::<ErrorView>::empty());
    }
}

proof fn lemma_inline_silent(info: GrammarView, upto: int)
    ensures
        pass_diagnostics(InlineRule {  }, info, upto) == Seq::<ErrorView>::empty(),
    decreases upto,
{
    if upto > 0 {
        lemma_inline_silent(info, upto - 1);
        assert(pass_diagnostics(InlineRule {  }, info, upto) =~= Seq::<ErrorView>::empty());
    }
}

proof fn lemma_fuse_silent(info: GrammarView, upto: int)
    ensures
        pass_diagnostics(FuseCharset {  }, info, upto) == Seq::<ErrorView>::empty(),
    decreases upto,
{
    if upto > 0 {
        lemma_fuse_silent(info, upto - 1);
        assert(pass_diagnostics(FuseCharset {  }, info, upto) =~= Seq::<ErrorView>::empty());
    }
}

/// The diagnostics of the pipeline are those of tag propagation on the
/// grammar, followed by those of dead-code elimination on the grammar
/// that tag propagation and refinement gave: first what is wrong with the
/// tags, rule by rule, then the references to undeclared rules. The other
/// stages report nothing, and no stage stops the pipeline.
pub proof fn lemma_pipeline_diagnostics(info: GrammarView)
    ensures
        spec_pipeline(info).1 == (RemarkTags {  }).spec_optimize(info).1 + (
        DeadCodeEliminator {  }).spec_optimize(after_refine(info)).1,
{
    let g1 = after_remark(info);
    let g2 = after_refine(info);
    let g3 = (DeadCodeEliminator {  }).spec_optimize(g2).0;
    let g4 = (InlineRule {  }).spec_optimize(g3).0;
    lemma_refine_silent(g1, g1.rules.len() as int);
    lemma_inline_silent(g3, g3.rules.len() as int);
    lemma_fuse_silent(g4, g4.rules.len() as int);
    let d1 = (RemarkTags {  }).spec_optimize(info).1;
    let d3 = (DeadCodeEliminator {  }).spec_optimize(g2).1;
    assert(Seq::<ErrorView>::empty() + d1 =~= d1);
    assert(d1 + Seq::<ErrorView>::empty() =~= d1);
    assert((d1 + d3) + Seq::<ErrorView>::empty() =~= d1 + d3);
}

impl GrammarInfo {
    /// Runs the passes in their order, each on what the one before it
    /// gave, and hands back the last grammar with the diagnostics of all
    /// passes. Without a pass the grammar comes back as it is.
    pub fn optimize<P: CodeOptimizer>(&self, pass: Vec<P>) -> (r: Validation<GrammarInfo>)
        ensures
            r matches Validation::Success { value, diagnostics } && (value@, errors_view(diagnostics@))
                == spec_run(pass@, self@),
    {
        let mut pass = pass;
        let mut out = self.clone();
        let mut errors: Vec<YggdrasilError> = Vec::new();
        let ghost all = pass@;
        proof {
            assert(errors_view(errors@) =~= Seq::<ErrorView>::empty());
            assert(errors_view(errors@) + spec_run(pass@, out@).1 =~= spec_run(pass@, out@).1);
        }
        while pass.len() > 0
            invariant
                spec_run(all, self@).0 == spec_run(pass@, out@).0,
                spec_run(all, self@).1 == errors_view(errors@) + spec_run(pass@, out@).1,
            decreases pass.len(),
        {
            let ghost rest = pass@.drop_first();
            let ghost before = errors_view(errors@);
            let mut co = pass.remove(0);
            let ghost first = co.spec_optimize(out@);
            proof {
                assert(pass@ =~= rest);
            }
            match co.optimize(&out) {
                Validation::Success { value, diagnostics } => {
                    out = value;
                    append_diagnostics(&mut errors, diagnostics);
                },
                Validation::Failure { fatal, diagnostics } => {
                    return Validation::Failure { fatal, diagnostics };
                },
            }
            proof {
                assert((before + first.1) + spec_run(rest, first.0).1 =~= before + (first.1
                    + spec_run(rest, first.0).1));
            }
        }
        proof {
            assert(errors_view(errors@) + Seq::<ErrorView>::empty() =~= errors_view(errors@));
        }
        Validation::Success { value: out, diagnostics: errors }
    }

    /// Runs the whole pipeline on the grammar.
    pub fn optimize_all(&self) -> (r: Validation<GrammarInfo>)
        ensures
            r matches Validation::Success { value, diagnostics } && (value@, errors_view(diagnostics@))
                == spec_pipeline(self@),
    {
        let mut errors: Vec<YggdrasilError> = Vec::new();
        proof {
            assert(errors_view(errors@) =~= Seq::<ErrorView>::empty());
        }
        let mut remark = RemarkTags {  };
        let g1 = step(&mut remark, self, &mut errors);
        let mut refine = RefineRules {  };
        let g2 = step(&mut refine, &g1, &mut errors);
        let mut dead = DeadCodeEliminator {  };
        let g3 = step(&mut dead, &g2, &mut errors);
        let mut inline = InlineRule {  };
        let g4 = step(&mut inline, &g3, &mut errors);
        let mut fuse = FuseCharset {  };
        let g5 = step(&mut fuse, &g4, &mut errors);
        Validation::Success { value: g5, diagnostics: errors }
    }
}

/// Runs one pass and adds its diagnostics to those met so far.
fn step<P: CodeOptimizer>(pass: &mut P, info: &GrammarInfo, errors: &mut Vec<YggdrasilError>) -> (r:
    GrammarInfo)
    ensures
        (r@, errors_view(final(errors)@)) == then_pass((info@, errors_view(old(errors)@)), *old(pass)),
{
    match pass.optimize(info) {
        Validation::Success { value, diagnostics } => {
            append_diagnostics(errors, diagnostics);
            value
        },
        Validation::Failure { fatal, diagnostics } => info.clone(),
    }
}

} // verus!
