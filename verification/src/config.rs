//! Configuration of the analysis pipeline.

use vstd::prelude::*;

verus! {

/// The whole disassembler configuration.
#[derive(Clone, Copy, Debug, PartialEq, Eq, Structural)]
pub struct Config {
    analysis: AnalysisConfig,
}

impl Config {
    pub closed spec fn spec_analysis(self) -> AnalysisConfig {
        self.analysis
    }

    pub fn new(analysis: AnalysisConfig) -> (r: Self)
        ensures
            r.spec_analysis() == analysis,
    {
        Config { analysis }
    }

    /// The analysis options.
    pub fn analysis(&self) -> (r: &AnalysisConfig)
        ensures
            *r == self.spec_analysis(),
    {
        &self.analysis
    }
}

impl Default for Config {
    fn default() -> (r: Self)
        ensures
            r.spec_analysis().spec_is_default(),
    {
        Config { analysis: AnalysisConfig::default() }
    }
}

/// The options of the analysis pipeline.
#[derive(Clone, Copy, Debug, PartialEq, Eq, Structural)]
pub struct AnalysisConfig {
    use_nmi: bool,
    use_reset: bool,
    use_irq: bool,
    allow_brk: bool,
    allow_clv: bool,
    allow_sed: bool,
}

impl AnalysisConfig {
    /// The default options: all interrupt vectors are followed and none of
    /// the brk, clv and sed instructions are allowed.
    pub open spec fn spec_is_default(self) -> bool {
        self.use_nmi() && self.use_reset() && self.use_irq() && !self.allow_brk()
            && !self.allow_clv() && !self.allow_sed()
    }

    pub fn new(
        use_nmi: bool,
        use_reset: bool,
        use_irq: bool,
        allow_brk: bool,
        allow_clv: bool,
        allow_sed: bool,
    ) -> (r: Self)
        ensures
            r.use_nmi() == use_nmi,
            r.use_reset() == use_reset,
            r.use_irq() == use_irq,
            r.allow_brk() == allow_brk,
            r.allow_clv() == allow_clv,
            r.allow_sed() == allow_sed,
    {
        AnalysisConfig { use_nmi, use_reset, use_irq, allow_brk, allow_clv, allow_sed }
    }

    pub closed spec fn spec_use_nmi(self) -> bool {
        self.use_nmi
    }

    /// Whether the NMI vector is followed.
    #[verifier::when_used_as_spec(spec_use_nmi)]
    pub fn use_nmi(self) -> (r: bool)
        ensures
            r == self.use_nmi(),
    {
        self.use_nmi
    }

    pub closed spec fn spec_use_reset(self) -> bool {
        self.use_reset
    }

    /// Whether the RESET vector is followed.
    #[verifier::when_used_as_spec(spec_use_reset)]
    pub fn use_reset(self) -> (r: bool)
        ensures
            r == self.use_reset(),
    {
        self.use_reset
    }

    pub closed spec fn spec_use_irq(self) -> bool {
        self.use_irq
    }

    /// Whether the IRQ vector is followed.
    #[verifier::when_used_as_spec(spec_use_irq)]
    pub fn use_irq(self) -> (r: bool)
        ensures
            r == self.use_irq(),
    {
        self.use_irq
    }

    pub closed spec fn spec_allow_brk(self) -> bool {
        self.allow_brk
    }

    /// Whether brk counts as a valid instruction.
    #[verifier::when_used_as_spec(spec_allow_brk)]
    pub fn allow_brk(self) -> (r: bool)
        ensures
            r == self.allow_brk(),
    {
        self.allow_brk
    }

    pub closed spec fn spec_allow_clv(self) -> bool {
        self.allow_clv
    }

    /// Whether clv counts as a valid instruction.
    #[verifier::when_used_as_spec(spec_allow_clv)]
    pub fn allow_clv(self) -> (r: bool)
        ensures
            r == self.allow_clv(),
    {
        self.allow_clv
    }

    pub closed spec fn spec_allow_sed(self) -> bool {
        self.allow_sed
    }

    /// Whether sed counts as a valid instruction.
    #[verifier::when_used_as_spec(spec_allow_sed)]
    pub fn allow_sed(self) -> (r: bool)
        ensures
            r == self.allow_sed(),
    {
        self.allow_sed
    }
}

impl Default for AnalysisConfig {
    fn default() -> (r: Self)
        ensures
            r.spec_is_default(),
    {
        AnalysisConfig {
            use_nmi: true,
            use_reset: true,
            use_irq: true,
            allow_brk: false,
            allow_clv: false,
            allow_sed: false,
        }
    }
}

} // verus!
