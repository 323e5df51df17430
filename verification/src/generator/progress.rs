//! The stages of generating a project and what each reports.

use vstd::prelude::*;

verus! {

/// A stage of generating a project, in the order they run.
#[derive(Debug, Clone, Copy, PartialEq, Eq, Structural)]
pub enum GenerationStage {
    /// The template context is built from the configuration.
    BuildingContext,
    /// The templates are rendered.
    Rendering,
    /// The rendered files are written.
    Writing,
}

impl GenerationStage {
    /// The progress reported when the stage starts, in percent.
    pub open spec fn spec_percent(self) -> u32 {
        match self {
            GenerationStage::BuildingContext => 10,
            GenerationStage::Rendering => 50,
            GenerationStage::Writing => 90,
        }
    }

    /// The status reported when the stage starts.
    pub open spec fn spec_status(self) -> Seq<char> {
        match self {
            GenerationStage::BuildingContext => "Сборка контекста шаблона..."@,
            GenerationStage::Rendering => "Рендеринг шаблонов Jinja..."@,
            GenerationStage::Writing => "Запись файлов на диск..."@,
        }
    }

    /// The stage after this one, once it succeeded.
    pub open spec fn spec_next(self) -> Option<GenerationStage> {
        match self {
            GenerationStage::BuildingContext => Some(GenerationStage::Rendering),
            GenerationStage::Rendering => Some(GenerationStage::Writing),
            GenerationStage::Writing => None,
        }
    }

    /// Returns the first stage.
    pub fn first() -> (stage: Self)
        ensures
            stage == GenerationStage::BuildingContext,
    {
        GenerationStage::BuildingContext
    }

    /// Returns the progress, in percent, and the status reported when the
    /// stage starts.
    pub fn progress(&self) -> (report: (u32, &'static str))
        ensures
            report.0 == self.spec_percent(),
            report.1@ == self.spec_status(),
    {
        match self {
            GenerationStage::BuildingContext => (10, "Сборка контекста шаблона..."),
            GenerationStage::Rendering => (50, "Рендеринг шаблонов Jinja..."),
            GenerationStage::Writing => (90, "Запись файлов на диск..."),
        }
    }

    /// Returns the stage that follows a successful one; after the last
    /// stage the project is done. A failed stage ends the generation.
    pub fn next(&self) -> (next: Option<GenerationStage>)
        ensures
            next == self.spec_next(),
    {
        match self {
            GenerationStage::BuildingContext => Some(GenerationStage::Rendering),
            GenerationStage::Rendering => Some(GenerationStage::Writing),
            GenerationStage::Writing => None,
        }
    }
}

/// Each stage reports more progress than the one before, and every report
/// lies between zero and one hundred percent.
pub proof fn lemma_progress_increases(stage: GenerationStage)
    ensures
        0 < stage.spec_percent() < 100,
        stage.spec_next() matches Some(next) ==> stage.spec_percent() < next.spec_percent(),
{
}

} // verus!
