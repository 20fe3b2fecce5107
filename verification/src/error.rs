//! Failure classification for each pipeline stage.

use vstd::prelude::*;

verus! {

/// One error kind per pipeline stage. Every stage-local failure is wrapped
/// with context (which image, which command and arguments) and propagated
/// upward unrecovered; nothing is retried.
#[derive(Debug)]
pub enum PipelineError {
    /// The invocation had fewer arguments than the pipeline needs.
    Usage,
    /// Token authentication failed: transport error, unparseable JSON, a
    /// missing token field, or an empty token.
    Auth(String),
    /// The manifest fetch failed or the manifest was unparseable.
    Manifest(String),
    /// The layer blob fetch failed.
    Blob(String),
    /// The layer bytes were not valid gzip, not a valid archive, or a write
    /// under the destination failed.
    Extraction(String),
    /// Sandbox preparation failed: staging the companion binary, the root
    /// change, or the working-directory reset.
    Setup(String),
    /// Spawning the target command failed; carries the exact command name
    /// and argument list for diagnostics.
    Execution { command: String, args: Vec<String> },
}

/// The views of a sequence of argument strings.
pub open spec fn spec_arg_views(args: Seq<String>) -> Seq<Seq<char>> {
    args.map_values(|s: String| s@)
}

/// The rendered argument list of an execution diagnostic: each argument in
/// order, quoted and preceded by a space.
pub open spec fn spec_quoted_args(args: Seq<Seq<char>>) -> Seq<char>
    decreases args.len(),
{
    if args.len() == 0 {
        Seq::<char>::empty()
    } else {
        spec_quoted_args(args.drop_last()) + " '"@ + args.last() + "'"@
    }
}

/// The full execution diagnostic: the command name and every argument that
/// was attempted.
pub open spec fn spec_execution_message(command: Seq<char>, args: Seq<Seq<char>>) -> Seq<char> {
    "failed to run '"@ + command + "' with arguments"@ + spec_quoted_args(args)
}

/// A pull-stage failure detail, prefixed with the image it concerned.
pub open spec fn spec_image_context(image: Seq<char>, detail: Seq<char>) -> Seq<char> {
    "image '"@ + image + "': "@ + detail
}

/// Whether a failure's detail names `image`: it is a pull-stage error
/// (authentication, manifest, blob, or extraction) whose detail is some
/// underlying detail prefixed with the image context.
pub open spec fn spec_names_image(e: PipelineError, image: Seq<char>) -> bool {
    match e {
        PipelineError::Auth(d) => exists|detail: Seq<char>| d@ == spec_image_context(
            image,
            detail,
        ),
        PipelineError::Manifest(d) => exists|detail: Seq<char>| d@ == spec_image_context(
            image,
            detail,
        ),
        PipelineError::Blob(d) => exists|detail: Seq<char>| d@ == spec_image_context(
            image,
            detail,
        ),
        PipelineError::Extraction(d) => exists|detail: Seq<char>| d@ == spec_image_context(
            image,
            detail,
        ),
        _ => false,
    }
}

impl PipelineError {
    /// Wraps a pull-stage failure (authentication, manifest, blob, or
    /// extraction) with the image it concerned; every other kind is returned
    /// unchanged.
    pub fn with_image_context(self, image: &str) -> (r: PipelineError)
        ensures
            self matches PipelineError::Auth(d) ==> (r matches PipelineError::Auth(c) && c@
                == spec_image_context(image@, d@)),
            self matches PipelineError::Manifest(d) ==> (r matches PipelineError::Manifest(c)
                && c@ == spec_image_context(image@, d@)),
            self matches PipelineError::Blob(d) ==> (r matches PipelineError::Blob(c) && c@
                == spec_image_context(image@, d@)),
            self matches PipelineError::Extraction(d) ==> (r matches PipelineError::Extraction(c)
                && c@ == spec_image_context(image@, d@)),
            (self is Auth || self is Manifest || self is Blob || self is Extraction)
                ==> spec_names_image(r, image@),
            !(self is Auth || self is Manifest || self is Blob || self is Extraction) ==> r
                == self,
    {
        match self {
            PipelineError::Auth(detail) => PipelineError::Auth(image_context(image, detail)),
            PipelineError::Manifest(detail) => PipelineError::Manifest(
                image_context(image, detail),
            ),
            PipelineError::Blob(detail) => PipelineError::Blob(image_context(image, detail)),
            PipelineError::Extraction(detail) => PipelineError::Extraction(
                image_context(image, detail),
            ),
            other => other,
        }
    }

    /// A human-readable description of the failure: a fixed sentence for a
    /// usage error, a stage prefix followed by the detail for every other
    /// stage, and for a failed spawn the exact command name and argument
    /// list that were attempted.
    pub fn message(&self) -> (r: String)
        ensures
            r@.len() > 0,
            self is Usage ==> r@ == "Not enough arguments provided."@,
            self matches PipelineError::Auth(d) ==> r@ == "authentication failed: "@ + d@,
            self matches PipelineError::Manifest(d) ==> r@ == "manifest fetch failed: "@ + d@,
            self matches PipelineError::Blob(d) ==> r@ == "layer fetch failed: "@ + d@,
            self matches PipelineError::Extraction(d) ==> r@ == "extraction failed: "@ + d@,
            self matches PipelineError::Setup(d) ==> r@ == "sandbox setup failed: "@ + d@,
            self matches PipelineError::Execution { command: c, args: a } ==> r@
                == spec_execution_message(c@, spec_arg_views(a@)),
    {
        proof {
            reveal_strlit("Not enough arguments provided.");
            reveal_strlit("authentication failed: ");
            reveal_strlit("manifest fetch failed: ");
            reveal_strlit("layer fetch failed: ");
            reveal_strlit("extraction failed: ");
            reveal_strlit("sandbox setup failed: ");
            reveal_strlit("failed to run '");
            reveal_strlit("'");
        }
        match self {
            PipelineError::Usage => String::from_str("Not enough arguments provided."),
            PipelineError::Auth(detail) => String::from_str("authentication failed: ").concat(
                detail.as_str(),
            ),
            PipelineError::Manifest(detail) => String::from_str("manifest fetch failed: ").concat(
                detail.as_str(),
            ),
            PipelineError::Blob(detail) => String::from_str("layer fetch failed: ").concat(
                detail.as_str(),
            ),
            PipelineError::Extraction(detail) => String::from_str("extraction failed: ").concat(
                detail.as_str(),
            ),
            PipelineError::Setup(detail) => String::from_str("sandbox setup failed: ").concat(
                detail.as_str(),
            ),
            PipelineError::Execution { command, args } => {
                let mut msg = String::from_str("failed to run '").concat(command.as_str()).concat(
                    "' with arguments",
                );
                proof {
                    assert(msg@ =~= spec_execution_message(
                        command@,
                        spec_arg_views(args@).take(0),
                    ));
                }
                let mut i: usize = 0;
                while i < args.len()
                    invariant
                        i <= args@.len(),
                        msg@ == spec_execution_message(
                            command@,
                            spec_arg_views(args@).take(i as int),
                        ),
                    decreases args@.len() - i,
                {
                    msg = msg.concat(" '").concat(args[i].as_str()).concat("'");
                    proof {
                        let views = spec_arg_views(args@);
                        assert(views.take(i as int + 1).drop_last() =~= views.take(i as int));
                        assert(views.take(i as int + 1).last() == views[i as int]);
                        assert(msg@ =~= spec_execution_message(command@, views.take(i as int + 1)));
                    }
                    i = i + 1;
                }
                proof {
                    assert(spec_arg_views(args@).take(args@.len() as int) =~= spec_arg_views(
                        args@,
                    ));
                }
                msg
            },
        }
    }
}

fn image_context(image: &str, detail: String) -> (r: String)
    ensures
        r@ == spec_image_context(image@, detail@),
{
    String::from_str("image '").concat(image).concat("': ").concat(detail.as_str())
}

} // verus!
