//! Process descriptors and process pipelines.
//!
//! A [`Process`] is an immutable description of a program and its arguments.
//! A [`ProcessPipeline`] is an ordered chain of such descriptors whose stages
//! are meant to be connected through anonymous OS pipes, the standard output
//! of each stage feeding the standard input of the next.

use vstd::prelude::*;

use crate::Verbosity;

verus! {

/// The failures this library distinguishes.
#[derive(Clone, Copy, Debug, PartialEq, Eq, Structural)]
pub enum ProcessError {
    /// An argument's bytes were not valid text.
    InvalidEncoding,
    /// The OS refused to start a program.
    SpawnFailure,
    /// The OS could not allocate an anonymous pipe.
    PipeAllocationFailure,
}

/// A description of a single shell program: its name and its arguments.
#[derive(Debug)]
pub struct Process {
    pub program: String,
    pub args: Vec<String>,
}

/// The truncation marker appended after a brief display that omits arguments.
pub open spec fn ellipsis() -> Seq<char> {
    seq![' ', '.', '.', '.']
}

/// The separator written between two stages of a pipeline display.
pub open spec fn stage_separator() -> Seq<char> {
    seq!['\n', '\t', '|', ' ']
}

/// How many of `n` arguments a display with verbosity `v` shows.
pub open spec fn shown_count(v: Verbosity, n: nat) -> nat {
    match v {
        Verbosity::Verbose => n,
        Verbosity::Brief(k) => if (k as nat) < n {
            k as nat
        } else {
            n
        },
    }
}

/// Whether a display with verbosity `v` omits some of `n` arguments.
pub open spec fn is_truncated(v: Verbosity, n: nat) -> bool {
    match v {
        Verbosity::Verbose => false,
        Verbosity::Brief(k) => (k as nat) < n,
    }
}

/// The text of a sequence of arguments: each one preceded by a single space.
pub open spec fn args_text(args: Seq<Seq<char>>) -> Seq<char>
    decreases args.len(),
{
    if args.len() == 0 {
        Seq::empty()
    } else {
        args_text(args.drop_last()) + seq![' '] + args.last()
    }
}

/// The display of one process: its program name, the shown prefix of its
/// arguments, and the truncation marker when any argument was omitted.
pub open spec fn process_text(p: Process, v: Verbosity) -> Seq<char> {
    let dv = p.args.deep_view();
    p.program@ + args_text(dv.take(shown_count(v, dv.len()) as int)) + (if is_truncated(
        v,
        dv.len(),
    ) {
        ellipsis()
    } else {
        Seq::<char>::empty()
    })
}

/// The display of a pipeline: the display of each stage in order, separated
/// by [`stage_separator`]; empty for an empty pipeline.
pub open spec fn pipeline_text(ps: Seq<Process>, v: Verbosity) -> Seq<char>
    decreases ps.len(),
{
    if ps.len() == 0 {
        Seq::empty()
    } else if ps.len() == 1 {
        process_text(ps[0], v)
    } else {
        pipeline_text(ps.drop_last(), v) + stage_separator() + process_text(ps.last(), v)
    }
}

impl Process {
    /// Creates a new [`Process`] from a program name and its arguments.
    pub fn new(program: &str, args: Vec<String>) -> (r: Process)
        ensures
            r.program@ == program@,
            r.args == args,
    {
        Process { program: program.to_owned(), args }
    }

    /// Creates a [`ProcessDisplay`] view of this process with the desired
    /// verbosity.
    pub fn display(&self, verbosity: Verbosity) -> (r: ProcessDisplay)
        ensures
            r.process == self,
            r.verbosity == verbosity,
    {
        ProcessDisplay { process: self, verbosity }
    }
}

/// A [`Process`] together with a chosen [`Verbosity`], ready to be rendered
/// as text.
pub struct ProcessDisplay<'a> {
    pub process: &'a Process,
    pub verbosity: Verbosity,
}

impl<'a> ProcessDisplay<'a> {
    /// Renders the process as text: the program name, then the shown prefix
    /// of the arguments each preceded by a space, then the truncation marker
    /// if any argument was omitted.
    pub fn render(&self) -> (r: String)
        ensures
            r@ == process_text(*self.process, self.verbosity),
    {
        let ghost dv = self.process.args.deep_view();
        let mut out = self.process.program.clone();
        let n = self.process.args.len();
        let shown: usize = match self.verbosity {
            Verbosity::Verbose => n,
            Verbosity::Brief(k) => if k < n {
                k
            } else {
                n
            },
        };
        assert(shown == shown_count(self.verbosity, dv.len()));
        let mut i: usize = 0;
        while i < shown
            invariant
                dv == self.process.args.deep_view(),
                n == dv.len(),
                shown <= n,
                i <= shown,
                out@ == self.process.program@ + args_text(dv.take(i as int)),
            decreases shown - i,
        {
            out.append(" ");
            out.append(self.process.args[i].as_str());
            proof {
                reveal_strlit(" ");
                assert(" "@ =~= seq![' ']);
                assert(dv.take(i + 1 as int).drop_last() =~= dv.take(i as int));
                assert(dv.take(i + 1 as int).last() == dv[i as int]);
                assert(out@ =~= self.process.program@ + args_text(dv.take(i + 1 as int)));
            }
            i = i + 1;
        }
        let truncated = match self.verbosity {
            Verbosity::Verbose => false,
            Verbosity::Brief(_) => shown < n,
        };
        if truncated {
            out.append(" ...");
            proof {
                reveal_strlit(" ...");
                assert(" ..."@ =~= ellipsis());
            }
        }
        proof {
            if !is_truncated(self.verbosity, dv.len()) {
                assert(dv.take(shown as int) =~= dv.take(shown_count(self.verbosity, dv.len()) as int));
            }
            assert(out@ =~= process_text(*self.process, self.verbosity));
        }
        out
    }
}

/// An ordered chain of processes meant to interact through standard
/// input/output pipes. Stage order fixes both display order and data-flow
/// order: stage `i`'s output feeds stage `i + 1`'s input.
pub struct ProcessPipeline {
    pub processes: Vec<Process>,
}

impl ProcessPipeline {
    /// Creates a process pipeline holding the given stages in order.
    pub fn new(processes: Vec<Process>) -> (r: ProcessPipeline)
        ensures
            r.processes == processes,
    {
        ProcessPipeline { processes }
    }

    /// Creates a [`PipelineDisplay`] view of this pipeline with the desired
    /// verbosity.
    pub fn display(&self, verbosity: Verbosity) -> (r: PipelineDisplay)
        ensures
            r.pipeline == self,
            r.verbosity == verbosity,
    {
        PipelineDisplay { pipeline: self, verbosity }
    }

    /// Allocates one anonymous OS pipe for every adjacent pair of stages and
    /// returns the links in order: the link at position `i` carries stage
    /// `i`'s standard output to stage `i + 1`'s standard input, so together
    /// the links connect every adjacent pair exactly once. A pipeline of
    /// fewer than two stages has no meaningful piping semantics, hence the
    /// precondition.
    pub fn pipe_endpoints(&self) -> (r: Result<Vec<PipeLink>, ProcessError>)
        requires
            self.processes@.len() > 1,
        ensures
            match r {
                Ok(links) => {
                    &&& links@.len() == self.processes@.len() - 1
                    &&& forall|i: int|
                        0 <= i < links@.len() ==> (#[trigger] links@[i]).source == i
                            && links@[i].target == i + 1
                },
                Err(e) => e == ProcessError::PipeAllocationFailure,
            },
    {
        let n = self.processes.len();
        let mut links: Vec<PipeLink> = Vec::new();
        let mut i: usize = 0;
        while i < n - 1
            invariant
                n == self.processes@.len(),
                n > 1,
                i <= n - 1,
                links@.len() == i,
                forall|j: int|
                    0 <= j < i ==> (#[trigger] links@[j]).source == j && links@[j].target == j + 1,
            decreases n - 1 - i,
        {
            match allocate_pipe() {
                Ok((reader, writer)) => {
                    links.push(PipeLink { source: i, target: i + 1, reader, writer });
                },
                Err(e) => {
                    return Err(e);
                },
            }
            i = i + 1;
        }
        Ok(links)
    }
}

/// One link of a wired pipeline: an anonymous OS pipe meant to carry stage
/// `source`'s standard output to stage `target`'s standard input.
pub struct PipeLink {
    pub source: usize,
    pub target: usize,
    pub reader: os_pipe::PipeReader,
    pub writer: os_pipe::PipeWriter,
}

/// A [`ProcessPipeline`] together with a chosen [`Verbosity`], ready to be
/// rendered as text.
pub struct PipelineDisplay<'a> {
    pub pipeline: &'a ProcessPipeline,
    pub verbosity: Verbosity,
}

impl<'a> PipelineDisplay<'a> {
    /// Renders the pipeline as text: each stage's display in order, separated
    /// by a line break, a tab and a pipe marker.
    pub fn render(&self) -> (r: String)
        ensures
            r@ == pipeline_text(self.pipeline.processes@, self.verbosity),
    {
        let ghost ps = self.pipeline.processes@;
        let n = self.pipeline.processes.len();
        if n == 0 {
            return String::new();
        }
        let first = self.pipeline.processes[0].display(self.verbosity);
        let mut out = first.render();
        proof {
            assert(ps.take(1).len() == 1);
            assert(ps.take(1)[0] == ps[0]);
            assert(out@ == pipeline_text(ps.take(1), self.verbosity));
        }
        let mut i: usize = 1;
        while i < n
            invariant
                ps == self.pipeline.processes@,
                n == ps.len(),
                1 <= i <= n,
                out@ == pipeline_text(ps.take(i as int), self.verbosity),
            decreases n - i,
        {
            out.append("\n\t| ");
            let stage = self.pipeline.processes[i].display(self.verbosity);
            let text = stage.render();
            out.append(text.as_str());
            proof {
                reveal_strlit("\n\t| ");
                assert("\n\t| "@ =~= stage_separator());
                assert(ps.take(i + 1 as int).drop_last() =~= ps.take(i as int));
                assert(ps.take(i + 1 as int).last() == ps[i as int]);
                assert(out@ =~= pipeline_text(ps.take(i + 1 as int), self.verbosity));
            }
            i = i + 1;
        }
        proof {
            assert(ps.take(n as int) =~= ps);
        }
        out
    }
}

/// Law: a brief display whose cap is at least the number of arguments equals
/// the verbose display; in particular it carries no truncation marker.
pub proof fn lemma_brief_within_cap_is_verbose(p: Process, n: usize)
    requires
        p.args.deep_view().len() <= n,
    ensures
        process_text(p, Verbosity::Brief(n)) == process_text(p, Verbosity::Verbose),
{
    let dv = p.args.deep_view();
    assert(shown_count(Verbosity::Brief(n), dv.len()) == dv.len());
    assert(!is_truncated(Verbosity::Brief(n), dv.len()));
}

/// Law: a brief display whose cap is below the number of arguments shows the
/// program name, exactly the first `n` arguments, and then the marker `" ..."`.
pub proof fn lemma_brief_truncates(p: Process, n: usize)
    requires
        n < p.args.deep_view().len(),
    ensures
        process_text(p, Verbosity::Brief(n)) == p.program@ + args_text(
            p.args.deep_view().take(n as int),
        ) + ellipsis(),
{
}

/// Law: a pipeline's brief display equals its verbose display whenever the
/// cap is at least the argument count of every stage.
pub proof fn lemma_pipeline_brief_within_cap_is_verbose(ps: Seq<Process>, n: usize)
    requires
        forall|i: int| 0 <= i < ps.len() ==> (#[trigger] ps[i]).args.deep_view().len() <= n,
    ensures
        pipeline_text(ps, Verbosity::Brief(n)) == pipeline_text(ps, Verbosity::Verbose),
    decreases ps.len(),
{
    if ps.len() == 0 {
    } else if ps.len() == 1 {
        lemma_brief_within_cap_is_verbose(ps[0], n);
    } else {
        assert(forall|i: int|
            0 <= i < ps.drop_last().len() ==> (#[trigger] ps.drop_last()[i]).args.deep_view().len()
                <= n);
        lemma_pipeline_brief_within_cap_is_verbose(ps.drop_last(), n);
        lemma_brief_within_cap_is_verbose(ps.last(), n);
    }
}

/// Relies on `os_pipe::pipe`: allocates one anonymous OS pipe and returns its
/// read end and write end; any OS-level failure is reported as a pipe
/// allocation failure.
#[verifier::external_body]
fn allocate_pipe() -> (r: Result<(os_pipe::PipeReader, os_pipe::PipeWriter), ProcessError>)
    ensures
        r is Err ==> r->Err_0 == ProcessError::PipeAllocationFailure,
{
    match os_pipe::pipe() {
        Ok(ends) => Ok(ends),
        Err(_) => Err(ProcessError::PipeAllocationFailure),
    }
}

/// Declares `os_pipe::PipeReader`, the reading end of an anonymous OS pipe;
/// its values are opaque here and are only carried through to the caller.
#[verifier::external_type_specification]
#[verifier::external_body]
pub struct ExPipeReader(os_pipe::PipeReader);

/// Declares `os_pipe::PipeWriter`, the writing end of an anonymous OS pipe;
/// its values are opaque here and are only carried through to the caller.
#[verifier::external_type_specification]
#[verifier::external_body]
pub struct ExPipeWriter(os_pipe::PipeWriter);

} // verus!
