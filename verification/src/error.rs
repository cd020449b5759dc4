//! The reasons for which a fit or a score is refused.

use vstd::prelude::*;

verus! {

/// Why an operation on samples was refused.
#[derive(Debug, Clone, Copy, PartialEq, Eq, Structural)]
pub enum FitError {
    /// The two sample sequences differ in length.
    LengthMismatch,
    /// A sample sequence has no elements.
    EmptyInput,
    /// The x values have no spread, so no slope is determined.
    ZeroXVariance,
    /// The y values have no spread, so the coefficient of determination is
    /// undefined.
    ZeroYVariance,
}

impl FitError {
    /// The text that `message` returns for this error.
    pub open spec fn message_text(self) -> Seq<char> {
        match self {
            FitError::LengthMismatch => "x e y devem ter o mesmo tamanho"@,
            FitError::EmptyInput => "entrada vazia"@,
            FitError::ZeroXVariance => "variância de x é zero - não é possível calcular a inclinação"@,
            FitError::ZeroYVariance => "variância de y é zero - R² indefinido"@,
        }
    }

    /// A description of the error for a human reader.
    pub fn message(&self) -> (text: &'static str)
        ensures
            text@ == self.message_text(),
    {
        match self {
            FitError::LengthMismatch => "x e y devem ter o mesmo tamanho",
            FitError::EmptyInput => "entrada vazia",
            FitError::ZeroXVariance => "variância de x é zero - não é possível calcular a inclinação",
            FitError::ZeroYVariance => "variância de y é zero - R² indefinido",
        }
    }
}

} // verus!
