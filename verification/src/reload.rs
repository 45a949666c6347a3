//! Hot reload of the shader: the program in use and the diagnostic of the
//! last compilation that failed.

use vstd::prelude::*;

verus! {

/// Why the compiler produced no program.
#[derive(Debug, PartialEq, Eq)]
pub enum CompileFailure {
    /// The source did not compile; the compiler's words.
    Compilation(String),
    /// Any other failure to create the program.
    Other,
}

impl CompileFailure {
    /// The diagnostic to show for the failure.
    pub fn diagnostic(self) -> (text: String)
        ensures
            match self {
                CompileFailure::Compilation(words) => text == words,
                CompileFailure::Other => text@ == "POSSIBLE DRIVER ISSUE!"@,
            },
    {
        match self {
            CompileFailure::Compilation(words) => words,
            CompileFailure::Other => "POSSIBLE DRIVER ISSUE!".to_owned(),
        }
    }
}

/// The program in use and the last diagnostic. `P` is the renderer's
/// compiled program.
pub struct HotReload<P> {
    program: P,
    diagnostic: Option<String>,
}

/// What a `HotReload` is to the contracts.
pub ghost struct ReloadModel<P> {
    pub program: P,
    pub diagnostic: Option<String>,
}

impl<P> View for HotReload<P> {
    type V = ReloadModel<P>;

    closed spec fn view(&self) -> ReloadModel<P> {
        ReloadModel { program: self.program, diagnostic: self.diagnostic }
    }
}

/// The state after a compilation: a program replaces the one in use and
/// clears the diagnostic, a failure leaves the program in use and is kept
/// as the diagnostic.
pub open spec fn reloaded<P>(state: ReloadModel<P>, compiled: Result<P, String>) -> ReloadModel<P> {
    match compiled {
        Ok(program) => ReloadModel { program, diagnostic: None },
        Err(diagnostic) => ReloadModel { program: state.program, diagnostic: Some(diagnostic) },
    }
}

impl<P> HotReload<P> {
    /// The state at startup. Where the first compilation failed, the
    /// placeholder is made and is the program in use, and the failure is
    /// the diagnostic. Where it succeeded, no placeholder is made.
    pub fn start<F: FnOnce() -> P>(initial: Result<P, String>, placeholder: F) -> (state: Self)
        requires
            initial is Err ==> placeholder.requires(()),
        ensures
            match initial {
                Ok(program) => state@ == (ReloadModel { program, diagnostic: None }),
                Err(diagnostic) => placeholder.ensures((), state@.program) && state@.diagnostic
                    == Some(diagnostic),
            },
    {
        match initial {
            Ok(program) => HotReload { program, diagnostic: None },
            Err(diagnostic) => HotReload { program: placeholder(), diagnostic: Some(diagnostic) },
        }
    }

    /// Takes in the result of a recompilation, and says whether a redraw is
    /// to be requested: after a success, and only then.
    pub fn reload(&mut self, compiled: Result<P, String>) -> (redraw: bool)
        ensures
            final(self)@ == reloaded(old(self)@, compiled),
            redraw == compiled is Ok,
    {
        match compiled {
            Ok(program) => {
                self.program = program;
                self.diagnostic = None;
                true
            },
            Err(diagnostic) => {
                self.diagnostic = Some(diagnostic);
                false
            },
        }
    }

    /// The program in use.
    pub fn program(&self) -> (program: &P)
        ensures
            *program == self@.program,
    {
        &self.program
    }

    /// The diagnostic of the last compilation, if it failed.
    pub fn diagnostic(&self) -> (diagnostic: &Option<String>)
        ensures
            *diagnostic == self@.diagnostic,
    {
        &self.diagnostic
    }
}

/// A failed recompilation never replaces the program in use; a later
/// successful one does, and clears the diagnostic.
pub proof fn lemma_failure_keeps_program<P>(state: ReloadModel<P>, failure: String, program: P)
    ensures
        reloaded(state, Err(failure)).program == state.program,
        reloaded(state, Err(failure)).diagnostic == Some(failure),
        reloaded(reloaded(state, Err(failure)), Ok(program)).program == program,
        reloaded(reloaded(state, Err(failure)), Ok(program)).diagnostic is None,
{
}

} // verus!
