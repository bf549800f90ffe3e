//! Bringing up the drawing pipeline: what counts as a failure, and what is
//! reported for it. Every failure is fatal; there is nothing to retry.

use vstd::prelude::*;

verus! {

/// A part of the pipeline that the graphics context builds.
#[derive(Clone, Copy, Debug, PartialEq, Eq, Structural)]
pub enum Stage {
    /// A shader, built by compiling.
    Shader,
    /// The program, built by linking.
    Program,
}

/// The report when the context hands out no object to build in.
pub open spec fn unable_text(stage: Stage) -> Seq<char> {
    match stage {
        Stage::Shader => "Unable to create shader object"@,
        Stage::Program => "Unable to create program object"@,
    }
}

/// The report when building fails and the context keeps no log of it.
pub open spec fn unknown_text(stage: Stage) -> Seq<char> {
    match stage {
        Stage::Shader => "Unknown error creating shader"@,
        Stage::Program => "Unknown error creating program"@,
    }
}

/// The object that the context handed out, or the report that it handed out
/// none.
pub fn created<T>(object: Option<T>, stage: Stage) -> (r: Result<T, String>)
    ensures
        match object {
            Some(o) => r == Ok::<T, String>(o),
            None => r is Err && r->Err_0@ == unable_text(stage),
        },
{
    match object {
        Some(o) => Ok(o),
        None => match stage {
            Stage::Shader => Err("Unable to create shader object".to_owned()),
            Stage::Program => Err("Unable to create program object".to_owned()),
        },
    }
}

/// The built object if the context reports success, else the failure report:
/// the context's log if it kept one, or a fixed text. A status that the
/// context does not report as a truth value counts as failure.
pub fn built<T>(object: T, status: Option<bool>, log: Option<String>, stage: Stage) -> (r: Result<
    T,
    String,
>)
    ensures
        status == Some(true) ==> r == Ok::<T, String>(object),
        status != Some(true) ==> r is Err && r->Err_0@ == match log {
            Some(text) => text@,
            None => unknown_text(stage),
        },
{
    let succeeded: bool = match status {
        Some(b) => b,
        None => false,
    };
    if succeeded {
        Ok(object)
    } else {
        match log {
            Some(text) => Err(text),
            None => match stage {
                Stage::Shader => Err("Unknown error creating shader".to_owned()),
                Stage::Program => Err("Unknown error creating program".to_owned()),
            },
        }
    }
}

} // verus!
