//! The two external invocations of the `build` workflow: constructing the
//! spliced-plus-intron reference, then indexing it.
use vstd::prelude::*;

use crate::preflight::{prog_name, spec_prog_name, TOOL_COUNT};
use crate::text::{decimal, to_decimal};
use crate::version::{version_text, SemVer};

verus! {

/// The name of the reference file that the reference-construction tool
/// writes for target read length `rlen`: `splici_fl<rlen - 5>.fa`.
pub open spec fn spec_reference_filename(rlen: nat) -> Seq<char> {
    "splici_fl"@ + decimal((rlen - 5) as nat) + ".fa"@
}

/// The file that the index step reads, for target read length `rlen`.
pub fn reference_filename(rlen: u32) -> (r: String)
    requires
        rlen >= 5,
    ensures
        r@ == spec_reference_filename(rlen as nat),
{
    let mut s = String::from_str("splici_fl");
    let n = to_decimal((rlen - 5) as u64);
    s.append(n.as_str());
    s.append(".fa");
    s
}

/// `requested`, lowered to `available` where that is known and smaller.
pub open spec fn clamped(requested: u32, available: Option<u32>) -> nat {
    match available {
        Some(p) => vstd::math::min(requested as int, p as int) as nat,
        None => requested as nat,
    }
}

/// The number of threads given to the index tool: the requested number,
/// lowered to the available parallelism where that is known and smaller.
pub fn clamp_threads(requested: u32, available: Option<u32>) -> (r: u32)
    ensures
        r == clamped(requested, available),
{
    match available {
        Some(p) => if requested > p { p } else { requested },
        None => requested,
    }
}

/// The text of each string of `v`.
pub open spec fn texts(v: Seq<String>) -> Seq<Seq<char>> {
    v.map_values(|s: String| s@)
}

pub open spec fn opt_text(o: Option<String>) -> Option<Seq<char>> {
    match o {
        Some(s) => Some(s@),
        None => None,
    }
}

fn push_arg(args: &mut Vec<String>, a: String)
    ensures
        texts(final(args)@) == texts(old(args)@).push(a@),
{
    args.push(a);
    assert(texts(args@) =~= texts(old(args)@).push(a@));
}

/// The parameters of the `build` workflow.
#[derive(Debug, Clone)]
pub struct BuildRequest {
    /// The reference genome.
    pub fasta: String,
    /// The annotation.
    pub gtf: String,
    /// The target read length the index is built for.
    pub rlen: u32,
    /// The output directory.
    pub output: String,
    /// A file of extra spliced sequence to add.
    pub spliced: Option<String>,
    /// A file of extra unspliced sequence to add.
    pub unspliced: Option<String>,
    /// Whether identical sequences are removed from the reference.
    pub dedup: bool,
    /// Whether the sparse rather than the dense index is built.
    pub sparse: bool,
    /// The number of threads requested.
    pub threads: u32,
}

/// The arguments of the reference-construction tool: its subcommand, the
/// optional flags in the order dedup, extra spliced, extra unspliced, and then
/// the four positional arguments.
pub open spec fn spec_reference_args(
    dedup: bool,
    spliced: Option<Seq<char>>,
    unspliced: Option<Seq<char>>,
    fasta: Seq<char>,
    gtf: Seq<char>,
    rlen: nat,
    outref: Seq<char>,
) -> Seq<Seq<char>> {
    seq!["make-splici"@]
        + (if dedup { seq!["--dedup-seqs"@] } else { Seq::empty() })
        + (match spliced { Some(p) => seq!["--extra-spliced"@, p], None => Seq::empty() })
        + (match unspliced { Some(p) => seq!["--extra-unspliced"@, p], None => Seq::empty() })
        + seq![fasta, gtf, decimal(rlen), outref]
}

/// The arguments of the index-construction tool.
pub open spec fn spec_index_args(index_dir: Seq<char>, ref_seq: Seq<char>, sparse: bool, threads: nat) -> Seq<Seq<char>> {
    seq!["index"@, "-i"@, index_dir, "-t"@, ref_seq]
        + (if sparse { seq!["--sparse"@] } else { Seq::empty() })
        + seq!["--threads"@, decimal(threads)]
}

impl BuildRequest {
    /// The arguments of the reference-construction tool, which writes into
    /// the directory `outref`.
    pub fn reference_args(&self, outref: &str) -> (r: Vec<String>)
        ensures
            texts(r@) == spec_reference_args(
                self.dedup,
                opt_text(self.spliced),
                opt_text(self.unspliced),
                self.fasta@,
                self.gtf@,
                self.rlen as nat,
                outref@,
            ),
    {
        let mut args: Vec<String> = Vec::new();
        push_arg(&mut args, String::from_str("make-splici"));
        if self.dedup {
            push_arg(&mut args, String::from_str("--dedup-seqs"));
        }
        match &self.spliced {
            Some(p) => {
                push_arg(&mut args, String::from_str("--extra-spliced"));
                push_arg(&mut args, p.clone());
            },
            None => {},
        }
        match &self.unspliced {
            Some(p) => {
                push_arg(&mut args, String::from_str("--extra-unspliced"));
                push_arg(&mut args, p.clone());
            },
            None => {},
        }
        push_arg(&mut args, self.fasta.clone());
        push_arg(&mut args, self.gtf.clone());
        push_arg(&mut args, to_decimal(self.rlen as u64));
        push_arg(&mut args, String::from_str(outref));
        assert(texts(args@) =~= spec_reference_args(
            self.dedup,
            opt_text(self.spliced),
            opt_text(self.unspliced),
            self.fasta@,
            self.gtf@,
            self.rlen as nat,
            outref@,
        ));
        args
    }

    /// The arguments of the index-construction tool, which reads `ref_seq`
    /// and writes into `index_dir`. Its thread count is the requested one,
    /// lowered to `available` where that is known and smaller.
    pub fn index_args(&self, index_dir: &str, ref_seq: &str, available: Option<u32>) -> (r: Vec<String>)
        ensures
            texts(r@) == spec_index_args(index_dir@, ref_seq@, self.sparse, clamped(self.threads, available)),
    {
        let threads = clamp_threads(self.threads, available);
        let mut args: Vec<String> = Vec::new();
        push_arg(&mut args, String::from_str("index"));
        push_arg(&mut args, String::from_str("-i"));
        push_arg(&mut args, String::from_str(index_dir));
        push_arg(&mut args, String::from_str("-t"));
        push_arg(&mut args, String::from_str(ref_seq));
        if self.sparse {
            push_arg(&mut args, String::from_str("--sparse"));
        }
        push_arg(&mut args, String::from_str("--threads"));
        push_arg(&mut args, to_decimal(threads as u64));
        assert(texts(args@) =~= spec_index_args(index_dir@, ref_seq@, self.sparse, threads as nat));
        args
    }
}

/// The name of the run manifest inside the output directory.
pub fn manifest_file_name() -> (r: &'static str)
    ensures
        r@ == "run_info.json"@,
{
    "run_info.json"
}

/// The directory, inside the output directory, that receives the reference.
pub fn reference_dir_name() -> (r: &'static str)
    ensures
        r@ == "ref"@,
{
    "ref"
}

/// The directory, inside the output directory, that receives the index.
pub fn index_dir_name() -> (r: &'static str)
    ensures
        r@ == "index"@,
{
    "index"
}

/// A tool and the version it reported.
#[derive(Debug, Clone)]
pub struct ToolVersion {
    pub name: String,
    pub version: String,
}

/// The record of one run of the `build` workflow, written before any tool
/// runs: the command, the version of each tool, and the parameters.
#[derive(Debug, Clone)]
pub struct RunManifest {
    pub command: String,
    pub versions: Vec<ToolVersion>,
    pub request: BuildRequest,
}

impl RunManifest {
    /// The manifest of a `build` run with the given parameters, whose tools
    /// reported `versions`, in tool order.
    pub fn for_build(request: BuildRequest, versions: &Vec<SemVer>) -> (r: RunManifest)
        requires
            versions@.len() == TOOL_COUNT,
        ensures
            r.command@ == "index"@,
            r.request == request,
            r.versions@.len() == TOOL_COUNT,
            forall|k: int| 0 <= k < TOOL_COUNT ==> {
                &&& #[trigger] r.versions@[k].name@ == spec_prog_name(k)
                &&& r.versions@[k].version@ == version_text(versions@[k].fields())
            },
    {
        let mut tools: Vec<ToolVersion> = Vec::new();
        let mut k: usize = 0;
        while k < TOOL_COUNT
            invariant
                k <= TOOL_COUNT,
                versions@.len() == TOOL_COUNT,
                tools@.len() == k,
                forall|j: int| 0 <= j < k ==> {
                    &&& #[trigger] tools@[j].name@ == spec_prog_name(j)
                    &&& tools@[j].version@ == version_text(versions@[j].fields())
                },
            decreases TOOL_COUNT - k,
        {
            tools.push(ToolVersion { name: String::from_str(prog_name(k)), version: versions[k].to_text() });
            k = k + 1;
        }
        RunManifest { command: String::from_str("index"), versions: tools, request }
    }
}

} // verus!
