//! Parsing of the positional invocation `<self> run <image> <command> [<arg>...]`.

use vstd::prelude::*;
use crate::error::PipelineError;

verus! {

/// A parsed invocation: the image to pull, and the command to run inside the
/// sandbox with its arguments, taken verbatim from the caller.
pub struct Invocation {
    pub image: String,
    pub command: String,
    pub command_args: Vec<String>,
}

/// Parses the positional arguments `<self> run <image> <command> [<arg>...]`.
///
/// An invocation with fewer than five arguments is rejected with a usage
/// error before anything else happens; otherwise the image is the third
/// argument, the command the fourth, and the command's arguments everything
/// after it, in order and unchanged.
pub fn parse_invocation(args: &Vec<String>) -> (r: Result<Invocation, PipelineError>)
    ensures
        r is Ok <==> args@.len() >= 5,
        args@.len() < 5 <==> (r matches Err(e) && e is Usage),
        r matches Ok(inv) ==> {
            &&& args@.len() >= 5
            &&& inv.image@ == args@[2]@
            &&& inv.command@ == args@[3]@
            &&& inv.command_args@.len() == args@.len() - 4
            &&& forall|i: int|
                0 <= i < inv.command_args@.len() ==> inv.command_args@[i]@ == args@[i + 4]@
        },
{
    if args.len() < 5 {
        return Err(PipelineError::Usage);
    }
    let image = args[2].clone();
    let command = args[3].clone();
    let mut command_args: Vec<String> = Vec::new();
    let mut i: usize = 4;
    while i < args.len()
        invariant
            4 <= i <= args@.len(),
            args@.len() >= 5,
            command_args@.len() == i - 4,
            forall|j: int|
                0 <= j < command_args@.len() ==> command_args@[j]@ == args@[j + 4]@,
        decreases args@.len() - i,
    {
        command_args.push(args[i].clone());
        i = i + 1;
    }
    Ok(Invocation { image, command, command_args })
}

} // verus!
