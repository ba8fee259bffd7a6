//! Job planning, the worker protocol, and the sequential meaning of a run.
//!
//! The enumeration phase turns each candidate path into a job: a whole file
//! to hash, or an archive to expand entry by entry. Workers pull jobs from
//! a shared channel until it closes; their only decision, received message
//! to next action, stands here as a pure function. The meaning of a run is
//! sequential: one output line per unit of content, with the CSV header
//! first in CSV mode; the worker pool only reorders those lines.

use crate::classify::{classify, ArchiveType};
use crate::format::{csv_header, csv_header_text, line_for, PrintFormat};
use crate::hasher::{digest_of, Algorithm, BufHash};
use crate::hex::hex_of;
use vstd::prelude::*;

verus! {

/// The run's enumeration policy, fixed by the configuration.
#[derive(Debug, Clone, Copy, PartialEq, Eq, Structural)]
pub struct Flags {
    /// Include hidden entries when walking a directory.
    pub all: bool,
    /// Descend into subdirectories without depth limit.
    pub recursive: bool,
    /// Expand recognized archives instead of hashing them whole.
    pub archive: bool,
}

/// One unit of dispatchable work, consumed by exactly one worker.
#[derive(Debug, Clone, PartialEq, Eq)]
pub enum Job {
    /// Hash the whole file at this path as one unit.
    File(String),
    /// Expand the container at this path and hash each entry.
    Archive(String, ArchiveType),
}

/// What a worker does next after reading the shared channel once.
#[derive(Debug, Clone, PartialEq, Eq)]
pub enum WorkerAction {
    /// Stream the file's bytes through the digester and emit its line.
    HashFile(String),
    /// Expand the container and emit one line per stored entry.
    ExpandArchive(String, ArchiveType),
    /// The channel is closed and drained: exit the worker loop.
    Shutdown,
}

/// Plans the job for one candidate path: an archive job exactly when
/// archive mode is on and the path's name classifies as a container, a
/// whole-file job otherwise.
pub fn plan_job(path: String, flags: Flags) -> (j: Job)
    ensures
        j == (match classify(path@) {
            Some(kind) => if flags.archive {
                Job::Archive(path, kind)
            } else {
                Job::File(path)
            },
            None => Job::File(path),
        }),
{
    if flags.archive {
        match ArchiveType::from_path(path.as_str()) {
            Some(kind) => Job::Archive(path, kind),
            None => Job::File(path),
        }
    } else {
        Job::File(path)
    }
}

/// One scheduling decision of a worker: process the job just received, or
/// shut down when the channel reports that no sender remains.
pub fn worker_step(msg: Option<Job>) -> (a: WorkerAction)
    ensures
        a == (match msg {
            Some(Job::File(path)) => WorkerAction::HashFile(path),
            Some(Job::Archive(path, kind)) => WorkerAction::ExpandArchive(path, kind),
            None => WorkerAction::Shutdown,
        }),
{
    match msg {
        Some(Job::File(path)) => WorkerAction::HashFile(path),
        Some(Job::Archive(path, kind)) => WorkerAction::ExpandArchive(path, kind),
        None => WorkerAction::Shutdown,
    }
}

/// Resolves the configured worker count: zero asks for the detected number
/// of logical execution units, and the pool is only ever built with a
/// positive count.
pub fn resolve_workers(requested: usize, detected: usize) -> (r: Option<usize>)
    ensures
        requested > 0 ==> r == Some(requested),
        requested == 0 && detected > 0 ==> r == Some(detected),
        requested == 0 && detected == 0 ==> r is None,
{
    if requested > 0 {
        Some(requested)
    } else if detected > 0 {
        Some(detected)
    } else {
        None
    }
}

/// One logical unit of content: the label under which it is reported and
/// the bytes that are digested.
#[derive(Debug, Clone, PartialEq, Eq)]
pub struct Unit {
    /// The display path, with any archive-entry sub-path appended.
    pub label: String,
    /// The content bytes.
    pub data: Vec<u8>,
}

/// The rendered digest of a unit: its content digested under the chosen
/// algorithm, as lowercase hexadecimal. It depends on the algorithm and
/// the content alone.
pub open spec fn unit_digest(alg: Algorithm, u: Unit) -> Seq<char> {
    hex_of(digest_of(alg, u.data@))
}

/// The output line of one unit.
pub open spec fn unit_line(fmt: PrintFormat, alg: Algorithm, u: Unit) -> Seq<char> {
    line_for(fmt, unit_digest(alg, u), u.label@)
}

/// The output lines of a sequence of units, in that order.
pub open spec fn lines_of(fmt: PrintFormat, alg: Algorithm, us: Seq<Unit>) -> Seq<Seq<char>> {
    us.map_values(|u: Unit| unit_line(fmt, alg, u))
}

/// The whole output of a sequential run: in CSV mode the header line, then
/// one line per unit.
pub open spec fn output_of(fmt: PrintFormat, alg: Algorithm, us: Seq<Unit>) -> Seq<Seq<char>> {
    match fmt {
        PrintFormat::Csv => seq![csv_header_text()] + lines_of(fmt, alg, us),
        PrintFormat::Sum => lines_of(fmt, alg, us),
    }
}

/// Hashes a sequence of already-read units in order with one reused
/// digester, rendering the run's whole output: in CSV mode the header
/// stands as line one before any unit's line.
pub fn run_units(hash: &mut BufHash, units: &Vec<Unit>) -> (out: Vec<String>)
    requires
        old(hash).fed() == Seq::<u8>::empty(),
    ensures
        final(hash).alg() == old(hash).alg(),
        final(hash).fmt() == old(hash).fmt(),
        final(hash).fed() == Seq::<u8>::empty(),
        out.deep_view() == output_of(old(hash).fmt(), old(hash).alg(), units@),
{
    let ghost fmt = hash.fmt();
    let ghost alg = hash.alg();
    let mut out: Vec<String> = Vec::new();
    let ghost header_count: int = match fmt {
        PrintFormat::Csv => 1,
        PrintFormat::Sum => 0,
    };
    match hash.format() {
        PrintFormat::Csv => {
            out.push(csv_header());
        },
        PrintFormat::Sum => {},
    }
    let n = units.len();
    for i in 0..n
        invariant
            n == units@.len(),
            hash.alg() == alg,
            hash.fmt() == fmt,
            hash.fed() == Seq::<u8>::empty(),
            out@.len() == header_count + i,
            header_count == (match fmt {
                PrintFormat::Csv => 1int,
                PrintFormat::Sum => 0int,
            }),
            fmt is Csv ==> out@[0]@ == csv_header_text(),
            forall|k: int| 0 <= k < i ==> out@[header_count + k]@ == unit_line(fmt, alg, units@[k]),
    {
        hash.feed(units[i].data.as_slice());
        let line = hash.finish_line(units[i].label.as_str());
        out.push(line);
    }
    proof {
        assert(out.deep_view() =~= output_of(fmt, alg, units@));
    }
    out
}

} // verus!
