//! What the outcome of each step in building a shader program means.
//!
//! The graphics context performs the steps; these functions decide, from what
//! it reported, whether construction goes on and which error ends it.
use vstd::prelude::*;

verus! {

/// Why a program resource could not be built.
#[derive(Debug, PartialEq, Eq)]
pub enum ProgramError {
    /// The context could not allocate an object; the text names it.
    ResourceCreation(String),
    /// A shader stage did not compile; the text is the backend's diagnostic.
    ShaderCompile(String),
    /// The stages did not link; the text is the backend's diagnostic.
    ProgramLink(String),
}

/// Text used when a stage fails to compile and the backend gives no log.
pub open spec fn missing_compile_log() -> Seq<char> {
    "unable to get context log info"@
}

/// Text used when linking fails and the backend gives no log.
pub open spec fn missing_link_log() -> Seq<char> {
    "error attaching shaders and linking program"@
}

/// The diagnostic carried by an error: the backend's log, or `fallback`.
pub open spec fn diagnostic(info_log: Option<String>, fallback: Seq<char>) -> Seq<char> {
    match info_log {
        Some(log) => log@,
        None => fallback,
    }
}

/// The outcome of compiling one shader stage, from its compile status and the
/// backend's info log.
pub fn compile_status(compiled: bool, info_log: Option<String>) -> (r: Result<(), ProgramError>)
    ensures
        compiled <==> r is Ok,
        !compiled ==> (r matches Err(ProgramError::ShaderCompile(text)) && text@ == diagnostic(
            info_log,
            missing_compile_log(),
        )),
{
    if compiled {
        Ok(())
    } else {
        match info_log {
            Some(log) => Err(ProgramError::ShaderCompile(log)),
            None => {
                let text = String::from_str("unable to get context log info");
                proof {
                    reveal_strlit("unable to get context log info");
                }
                Err(ProgramError::ShaderCompile(text))
            },
        }
    }
}

/// The outcome of linking a program, from its link status and the backend's
/// info log.
pub fn link_status(linked: bool, info_log: Option<String>) -> (r: Result<(), ProgramError>)
    ensures
        linked <==> r is Ok,
        !linked ==> (r matches Err(ProgramError::ProgramLink(text)) && text@ == diagnostic(
            info_log,
            missing_link_log(),
        )),
{
    if linked {
        Ok(())
    } else {
        match info_log {
            Some(log) => Err(ProgramError::ProgramLink(log)),
            None => {
                let text = String::from_str("error attaching shaders and linking program");
                proof {
                    reveal_strlit("error attaching shaders and linking program");
                }
                Err(ProgramError::ProgramLink(text))
            },
        }
    }
}

/// Accepts an object that the context was asked to create, or names what it
/// failed to create.
pub fn created<T>(handle: Option<T>, what: &str) -> (r: Result<T, ProgramError>)
    ensures
        handle matches Some(h) ==> r == Ok::<T, ProgramError>(h),
        handle is None ==> (r matches Err(ProgramError::ResourceCreation(text)) && text@ == what@),
{
    match handle {
        Some(h) => Ok(h),
        None => Err(ProgramError::ResourceCreation(what.to_string())),
    }
}

/// The steps of building a program, in the order they are performed.
#[derive(Debug, Clone, Copy, PartialEq, Eq, Structural)]
pub enum LinkStage {
    /// Ask the context for a program object.
    CreateProgram,
    /// Create and compile the vertex stage.
    CompileVertexShader,
    /// Create and compile the fragment stage.
    CompileFragmentShader,
    /// Attach both stages and link them.
    AttachAndLink,
    /// The program is linked and ready.
    Linked,
}

/// The step that follows `stage` when it succeeded.
pub open spec fn stage_after(stage: LinkStage) -> LinkStage {
    match stage {
        LinkStage::CreateProgram => LinkStage::CompileVertexShader,
        LinkStage::CompileVertexShader => LinkStage::CompileFragmentShader,
        LinkStage::CompileFragmentShader => LinkStage::AttachAndLink,
        LinkStage::AttachAndLink => LinkStage::Linked,
        LinkStage::Linked => LinkStage::Linked,
    }
}

/// Decides what comes after `stage`, given the outcome the context reported
/// for it: the next step on success, or the first failure, which ends
/// construction.
pub fn next_link_stage(stage: LinkStage, outcome: Result<(), ProgramError>) -> (r: Result<
    LinkStage,
    ProgramError,
>)
    ensures
        outcome is Ok ==> r == Ok::<LinkStage, ProgramError>(stage_after(stage)),
        outcome matches Err(e) ==> r == Err::<LinkStage, ProgramError>(e),
{
    match outcome {
        Err(e) => Err(e),
        Ok(()) => Ok(
            match stage {
                LinkStage::CreateProgram => LinkStage::CompileVertexShader,
                LinkStage::CompileVertexShader => LinkStage::CompileFragmentShader,
                LinkStage::CompileFragmentShader => LinkStage::AttachAndLink,
                LinkStage::AttachAndLink => LinkStage::Linked,
                LinkStage::Linked => LinkStage::Linked,
            },
        ),
    }
}

} // verus!
