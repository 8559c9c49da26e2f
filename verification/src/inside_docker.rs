//! Detecting whether this process itself runs inside a container: a probe
//! file with random content is written to the temp directory, and `cat` is
//! executed inside every running container; the container that sees the
//! probe is the one we run in. Writing the probe and running the container
//! commands happen outside the library; the decisions are verified here.

use vstd::prelude::*;
use crate::text;

verus! {

/// One mount of the current container: a host source directory visible at a
/// destination inside the container.
pub struct Mount {
    /// The path on the host.
    pub source: String,
    /// The path inside the container.
    pub destination: String,
}

impl Mount {
    /// The path on the host.
    pub fn source(&self) -> (r: &str)
        ensures
            r@ == self.source@,
    {
        self.source.as_str()
    }

    /// The path inside the container.
    pub fn destination(&self) -> (r: &str)
        ensures
            r@ == self.destination@,
    {
        self.destination.as_str()
    }
}

/// The container this process runs in, with its mount table.
pub struct CurrentContainer {
    /// The mounts of the container, host source to container destination.
    pub mounts: Vec<Mount>,
}

impl CurrentContainer {
    /// The mount table of the container.
    pub fn mounts(&self) -> (r: &Vec<Mount>)
        ensures
            r == self.mounts,
    {
        &self.mounts
    }
}

/// Whether one container's `cat` output proves it sees the probe: it printed
/// exactly one line holding the probe content.
pub open spec fn probe_match(stdout: Seq<String>, content: Seq<char>) -> bool {
    stdout.len() == 1 && stdout[0]@ == content
}

/// Whether one candidate saw the probe: its `cat` succeeded and printed the
/// probe content.
pub open spec fn probe_hit(candidate: (String, Option<Vec<String>>), content: Seq<char>) -> bool {
    candidate.1 matches Some(out) && probe_match(out@, content)
}

/// Pick the first container whose probe output matches. Each candidate is a
/// container id with the captured standard output of `cat` on the probe
/// path, or nothing when the command failed there.
pub fn find_probed_container(
    candidates: &Vec<(String, Option<Vec<String>>)>,
    content: &str,
) -> (r: Option<String>)
    ensures
        match r {
            Some(id) => exists|i: int|
                0 <= i < candidates@.len() && (#[trigger] candidates@[i]).0@ == id@ && probe_hit(
                    candidates@[i],
                    content@,
                ) && (forall|j: int| 0 <= j < i ==> !probe_hit(#[trigger] candidates@[j], content@)),
            None => forall|i: int|
                0 <= i < candidates@.len() ==> !probe_hit(#[trigger] candidates@[i], content@),
        },
{
    let mut i: usize = 0;
    while i < candidates.len()
        invariant
            0 <= i <= candidates@.len(),
            forall|j: int| 0 <= j < i ==> !probe_hit(#[trigger] candidates@[j], content@),
        decreases candidates@.len() - i,
    {
        let c = vstd::std_specs::vec::vec_index(candidates, i);
        match &c.1 {
            Some(out) => {
                if out.len() == 1 {
                    let line = vstd::std_specs::vec::vec_index(out, 0);
                    if text::str_eq(line.as_str(), content) {
                        proof {
                            assert(probe_hit(candidates@[i as int], content@));
                        }
                        return Some(c.0.clone());
                    }
                }
            },
            None => {},
        }
        i += 1;
    }
    None
}

/// What `docker inspect` reports as the mounts of a container: the host
/// source and container destination of each, in order, when the document
/// can be understood and describes exactly one container.
pub uninterp spec fn inspect_mounts_of(s: Seq<char>) -> Option<Seq<(Seq<char>, Seq<char>)>>;

/// Relies on serde_json::from_str and the Value accessors: reads the
/// `Mounts` entries — each `Source` and `Destination` — out of a `docker
/// inspect` document, an array describing one container.
#[verifier::external_body]
fn parse_inspect_mounts(s: &str) -> (r: Option<Vec<(String, String)>>)
    ensures
        match r {
            Some(v) => inspect_mounts_of(s@) matches Some(m) && m.len() == v@.len()
                && (forall|i: int|
                0 <= i < m.len() ==> (#[trigger] m[i]).0 == v@[i].0@ && m[i].1 == v@[i].1@),
            None => inspect_mounts_of(s@) is None,
        },
{
    let doc: serde_json::Value = serde_json::from_str(s).ok()?;
    let arr = doc.as_array()?;
    if arr.len() != 1 {
        return None;
    }
    let mounts = arr[0].get("Mounts")?.as_array()?;
    mounts
        .iter()
        .map(|m| {
            Some((
                m.get("Source")?.as_str()?.to_string(),
                m.get("Destination")?.as_str()?.to_string(),
            ))
        })
        .collect()
}

impl CurrentContainer {
    /// Read the current container's mount table out of its `docker inspect`
    /// output; an output that cannot be understood yields nothing.
    pub fn detect(inspect_output: &str) -> (r: Option<CurrentContainer>)
        ensures
            match r {
                Some(c) => inspect_mounts_of(inspect_output@) matches Some(m) && m.len()
                    == c.mounts@.len() && (forall|i: int|
                    0 <= i < m.len() ==> (#[trigger] m[i]).0 == c.mounts@[i].source@ && m[i].1
                        == c.mounts@[i].destination@),
                None => inspect_mounts_of(inspect_output@) is None,
            },
    {
        let pairs = match parse_inspect_mounts(inspect_output) {
            Some(p) => p,
            None => {
                return None;
            },
        };
        let ghost pm = inspect_mounts_of(inspect_output@)->Some_0;
        let mut mounts: Vec<Mount> = Vec::new();
        let mut i: usize = 0;
        while i < pairs.len()
            invariant
                0 <= i <= pairs@.len(),
                pm.len() == pairs@.len(),
                forall|j: int|
                    0 <= j < pairs@.len() ==> (#[trigger] pm[j]).0 == pairs@[j].0@ && pm[j].1
                        == pairs@[j].1@,
                mounts@.len() == i,
                forall|j: int|
                    0 <= j < i ==> (#[trigger] pm[j]).0 == mounts@[j].source@ && pm[j].1
                        == mounts@[j].destination@,
            decreases pairs@.len() - i,
        {
            let p = vstd::std_specs::vec::vec_index(&pairs, i);
            mounts.push(Mount { source: p.0.clone(), destination: p.1.clone() });
            i += 1;
        }
        Some(CurrentContainer { mounts })
    }
}

} // verus!
